//! The decisions of the catalogue browser: what each key does to the list.

use crate::frontend::{EventAction, FrontendEvent, KeyEvent, TerminalEvent};
use crate::glue::client::{GlueTable, GlueTableView};
use crate::glue::view_model::ViewModel;
use crate::s3::controller::{command_of, normal_command, Command};
use crate::stateful_list::ListView;
use vstd::prelude::*;

verus! {

/// The state of the controller as plain mathematical values.
pub struct ControllerView {
    /// The list of tables and its cursor.
    pub list: ListView<GlueTableView>,
    /// The last key pressed since the last tick.
    pub last_key: Option<KeyEvent>,
}

/// What handling one event comes to: the state after it, and what the
/// event loop is to do.
pub struct Step {
    pub state: ControllerView,
    pub action: EventAction,
}

impl ControllerView {
    /// What a key comes to. The keys that quit and that move the cursor
    /// are those of the object browser; no other key does anything.
    pub open spec fn key(self, key: KeyEvent) -> Step {
        let noted = ControllerView { list: self.list, last_key: Some(key) };
        match normal_command(key, self.last_key) {
            Command::Quit => Step { state: noted, action: EventAction::Exit },
            Command::First => Step {
                state: ControllerView { list: self.list.first(), ..noted },
                action: EventAction::NeedReDraw,
            },
            Command::Last => Step {
                state: ControllerView { list: self.list.last(), ..noted },
                action: EventAction::NeedReDraw,
            },
            Command::Next => Step {
                state: ControllerView { list: self.list.next(), ..noted },
                action: EventAction::NeedReDraw,
            },
            Command::Previous => Step {
                state: ControllerView { list: self.list.previous(), ..noted },
                action: EventAction::NeedReDraw,
            },
            _ => Step { state: noted, action: EventAction::NoNeedReDraw },
        }
    }

    /// What an event comes to.
    pub open spec fn step(self, event: FrontendEvent) -> Step {
        match event {
            FrontendEvent::Tick => Step {
                state: ControllerView { list: self.list, last_key: None },
                action: EventAction::NoNeedReDraw,
            },
            FrontendEvent::TerminalEvent(TerminalEvent::Key(key)) => self.key(key),
            FrontendEvent::TerminalEvent(TerminalEvent::Resize(_, _)) => Step {
                state: self,
                action: EventAction::NeedReDraw,
            },
            FrontendEvent::TerminalEvent(TerminalEvent::Other) => Step {
                state: self,
                action: EventAction::NoNeedReDraw,
            },
        }
    }
}

/// The list of tables together with what the keyboard is in the middle of.
pub struct Controller {
    vm: ViewModel,
    last_key_event: Option<KeyEvent>,
}

impl View for Controller {
    type V = ControllerView;

    closed spec fn view(&self) -> ControllerView {
        ControllerView { list: self.vm@, last_key: self.last_key_event }
    }
}

impl Controller {
    /// A controller over the tables, with the cursor on the first.
    pub fn new(table: Vec<GlueTable>) -> (controller: Self)
        ensures
            controller@ == (ControllerView {
                list: ListView::fresh(table.deep_view()),
                last_key: None,
            }),
    {
        Controller { vm: ViewModel::new(table), last_key_event: None }
    }

    /// The list of tables.
    pub fn view_model(&self) -> (vm: &ViewModel)
        ensures
            vm@ == self@.list,
    {
        &self.vm
    }

    /// Handles one event: see `ControllerView::step`.
    pub fn handle_event(&mut self, event: FrontendEvent) -> (action: EventAction)
        ensures
            final(self)@ == old(self)@.step(event).state,
            action == old(self)@.step(event).action,
    {
        match event {
            FrontendEvent::Tick => {
                self.last_key_event = None;
                EventAction::NoNeedReDraw
            },
            FrontendEvent::TerminalEvent(terminal_event) => match terminal_event {
                TerminalEvent::Key(key) => {
                    let last_key_event = self.last_key_event;
                    self.last_key_event = Some(key);
                    match command_of(key, last_key_event) {
                        Command::Quit => EventAction::Exit,
                        Command::First => {
                            self.vm.list.first();
                            EventAction::NeedReDraw
                        },
                        Command::Last => {
                            self.vm.list.last();
                            EventAction::NeedReDraw
                        },
                        Command::Next => {
                            self.vm.list.next();
                            EventAction::NeedReDraw
                        },
                        Command::Previous => {
                            self.vm.list.previous();
                            EventAction::NeedReDraw
                        },
                        _ => EventAction::NoNeedReDraw,
                    }
                },
                TerminalEvent::Resize(_, _) => EventAction::NeedReDraw,
                TerminalEvent::Other => EventAction::NoNeedReDraw,
            },
        }
    }
}

} // verus!
