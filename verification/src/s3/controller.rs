//! The decisions of the browser: what each key press and each arriving
//! listing does to the navigation state, and what it asks of the outside.
//!
//! The controller never waits. Where a listing has to be fetched or the
//! clipboard filled, it hands back a `Request`; the listing comes back
//! later as an event of its own.

use crate::frontend::{EventAction, FrontendEvent, KeyCode, KeyEvent, KeyModifiers, TerminalEvent};
use crate::s3::model::{ItemView, S3Item};
use crate::s3::view_model::{
    current_scope,
    merged,
    popped,
    scheme,
    selected_item,
    selected_uri,
    stack_first,
    stack_last,
    stack_next,
    stack_previous,
    stack_search_next,
    FrameView,
    OutputView,
    S3ItemsViewModel,
    S3Output,
};
use crate::text::{
    after_last_slash,
    chars_of,
    containing_prefix_of,
    find_first_slash,
    first_slash,
    parent_prefix,
    parent_prefix_of,
    starts_with_chars,
    SEPARATOR,
};
use vstd::prelude::*;
use vstd::string::*;

verus! {

/// What the program was started with.
#[derive(Debug)]
pub struct Opt {
    /// Where to start: an address of the form `s3://bucket/prefix`.
    pub s3_path: Option<String>,
    /// The profile whose credentials are used.
    pub profile: Option<String>,
    /// The endpoint to talk to, if not the default one.
    pub endpoint_url: Option<String>,
}

/// Why a start address was refused.
#[derive(Clone, Copy, Debug, PartialEq, Eq, Structural)]
pub enum PathError {
    /// The address does not begin with `s3://`.
    MissingScheme,
}

impl PathError {
    /// The error in words.
    pub fn message(&self) -> (text: String)
        ensures
            text@ == "s3_path must start with s3://"@,
    {
        "s3_path must start with s3://".to_owned()
    }
}

/// The bucket and the prefix that an address names, or `None` where the
/// address does not begin with the scheme.
///
/// The bucket is what stands between the scheme and the first separator.
/// The prefix is what follows, up to and including its last separator: a
/// leaf name at the end is taken off.
pub open spec fn parsed_path(path: Seq<char>) -> Option<(Seq<char>, Seq<char>)> {
    if scheme().is_prefix_of(path) {
        let rest = path.skip(scheme().len() as int);
        let slash = first_slash(rest, 0);
        if slash < rest.len() {
            Some((rest.take(slash), containing_prefix_of(rest.skip(slash + 1))))
        } else {
            Some((rest, Seq::empty()))
        }
    } else {
        None
    }
}

/// Splits an address into bucket and prefix.
pub fn parse_path(path: &str) -> (parsed: Result<(String, String), PathError>)
    ensures
        match parsed {
            Ok(scope) => parsed_path(path@) == Some(scope.deep_view()),
            Err(e) => parsed_path(path@) is None && e == PathError::MissingScheme,
        },
{
    let chars = chars_of(path);
    let scheme_chars = chars_of("s3://");
    if !starts_with_chars(&chars, &scheme_chars) {
        return Err(PathError::MissingScheme);
    }
    let rest = path.substring_char(scheme_chars.len(), chars.len());
    assert(rest@ =~= path@.skip(scheme().len() as int));
    let rest_chars = chars_of(rest);
    let slash: usize = find_first_slash(&rest_chars, 0);
    if slash < rest_chars.len() {
        let bucket = rest.substring_char(0, slash).to_owned();
        let tail = rest.substring_char(slash + 1, rest_chars.len());
        let tail_chars = chars_of(tail);
        let keep: usize = after_last_slash(&tail_chars, tail_chars.len());
        let prefix = tail.substring_char(0, keep).to_owned();
        assert(bucket@ =~= rest@.take(slash as int));
        assert(tail@ =~= rest@.skip(slash + 1));
        Ok((bucket, prefix))
    } else {
        Ok((rest.to_owned(), String::new()))
    }
}

impl Opt {
    /// The bucket and the prefix to start in, where an address was given.
    pub fn parse_s3_path(&self) -> (parsed: Result<Option<(String, String)>, PathError>)
        ensures
            match self.s3_path {
                Some(path) => match parsed {
                    Ok(scope) => scope is Some && parsed_path(path@) == scope.deep_view(),
                    Err(e) => parsed_path(path@) is None && e == PathError::MissingScheme,
                },
                None => parsed == Ok::<Option<(String, String)>, PathError>(None),
            },
    {
        match &self.s3_path {
            Some(s3_path) => match parse_path(s3_path.as_str()) {
                Ok(scope) => Ok(Some(scope)),
                Err(e) => Err(e),
            },
            None => Ok(None),
        }
    }
}

/// What the controller asks of the outside.
#[derive(Debug)]
pub enum Request {
    /// Fetch the list of buckets.
    BucketList,
    /// Fetch one level of a bucket.
    ObjectList { bucket: String, prefix: String },
    /// Put a text on the clipboard.
    Clipboard(String),
}

/// A request as plain mathematical values.
pub enum RequestView {
    BucketList,
    ObjectList { bucket: Seq<char>, prefix: Seq<char> },
    Clipboard(Seq<char>),
}

impl View for Request {
    type V = RequestView;

    open spec fn view(&self) -> RequestView {
        match self {
            Request::BucketList => RequestView::BucketList,
            Request::ObjectList { bucket, prefix } => RequestView::ObjectList {
                bucket: bucket@,
                prefix: prefix@,
            },
            Request::Clipboard(text) => RequestView::Clipboard(text@),
        }
    }
}

impl DeepView for Request {
    type V = RequestView;

    open spec fn deep_view(&self) -> RequestView {
        self@
    }
}

/// What reaches the controller: a listing that has arrived, or something
/// from the terminal side.
#[derive(Debug)]
pub enum Event {
    ClientEvent(S3Output),
    KeyEvent(FrontendEvent),
}

/// An event as plain mathematical values.
pub enum EventView {
    ClientEvent(OutputView),
    KeyEvent(FrontendEvent),
}

impl View for Event {
    type V = EventView;

    open spec fn view(&self) -> EventView {
        match self {
            Event::ClientEvent(output) => EventView::ClientEvent(output@),
            Event::KeyEvent(event) => EventView::KeyEvent(*event),
        }
    }
}

/// Whether keys are commands or go into the search text.
#[derive(Clone, Copy, Debug, PartialEq, Eq, Structural)]
pub enum InputMode {
    Normal,
    Search,
}

/// What a key asks for in normal mode.
#[derive(Clone, Copy, Debug, PartialEq, Eq, Structural)]
pub enum Command {
    Quit,
    First,
    Last,
    Next,
    Previous,
    Enter,
    Refresh,
    SearchNext,
    StartSearch,
    CopyUri,
    Nothing,
}

/// The key `c` without modifiers.
pub open spec fn plain_char(c: char) -> KeyEvent {
    KeyEvent { code: KeyCode::Char(c), modifiers: KeyModifiers::none() }
}

/// The key bindings of normal mode. `last` is the key pressed before
/// `key`, as far as it is remembered: `g` asks for the first item only as
/// the second of two.
pub open spec fn normal_command(key: KeyEvent, last: Option<KeyEvent>) -> Command {
    if key == plain_char('q') {
        Command::Quit
    } else if key == plain_char('g') {
        if last == Some(plain_char('g')) {
            Command::First
        } else {
            Command::Nothing
        }
    } else if key == plain_char('y') {
        Command::CopyUri
    } else if key == (KeyEvent { code: KeyCode::Char('G'), modifiers: KeyModifiers::only_shift() }) {
        Command::Last
    } else if key == (KeyEvent { code: KeyCode::Char('r'), modifiers: KeyModifiers::only_control() }) {
        Command::Refresh
    } else if key == (KeyEvent { code: KeyCode::Down, modifiers: KeyModifiers::none() }) || key
        == plain_char('j') {
        Command::Next
    } else if key == (KeyEvent { code: KeyCode::Up, modifiers: KeyModifiers::none() }) || key
        == plain_char('k') {
        Command::Previous
    } else if key == (KeyEvent { code: KeyCode::Enter, modifiers: KeyModifiers::none() }) {
        Command::Enter
    } else if key == plain_char('n') {
        Command::SearchNext
    } else if key == plain_char('/') {
        Command::StartSearch
    } else if key == (KeyEvent { code: KeyCode::Char('c'), modifiers: KeyModifiers::only_control() }) {
        Command::Quit
    } else {
        Command::Nothing
    }
}

/// The state of the controller as plain mathematical values.
pub struct ControllerView {
    /// The stack of levels.
    pub stack: Seq<FrameView>,
    /// The last key pressed since the last tick.
    pub last_key: Option<KeyEvent>,
    pub mode: InputMode,
    /// The search text as typed, with its leading marker.
    pub query: Seq<char>,
}

/// What handling one event comes to: the state after it, what the event
/// loop is to do, and what is asked of the outside.
pub struct Step {
    pub state: ControllerView,
    pub action: EventAction,
    pub request: Option<RequestView>,
}

/// The request that brings the listing of a scope.
pub open spec fn request_for(scope: Option<(Seq<char>, Seq<char>)>) -> RequestView {
    match scope {
        Some((bucket, prefix)) => RequestView::ObjectList { bucket, prefix },
        None => RequestView::BucketList,
    }
}

/// What activating the selected item does to the stack and asks for.
///
/// A bucket is entered at its root, a prefix in the bucket on screen; the
/// stack stays as it is until the listing arrives. The way back takes the
/// level on screen off the stack and fetches anew what is then seen: the
/// level above in the same bucket, or the list of buckets when no level of
/// a bucket remains. An object, or no selection, does nothing.
pub open spec fn entered(stack: Seq<FrameView>) -> (Seq<FrameView>, Option<RequestView>) {
    match selected_item(stack) {
        Some(ItemView::Pop) => {
            let rest = popped(stack);
            let request = match (current_scope(rest), current_scope(stack)) {
                (Some(_), Some((bucket, prefix))) => RequestView::ObjectList {
                    bucket,
                    prefix: parent_prefix_of(prefix),
                },
                _ => RequestView::BucketList,
            };
            (rest, Some(request))
        },
        Some(ItemView::Bucket(b)) => (
            stack,
            Some(RequestView::ObjectList { bucket: b.name, prefix: Seq::empty() }),
        ),
        Some(ItemView::CommonPrefix(p)) => match current_scope(stack) {
            Some((bucket, _)) => (stack, Some(RequestView::ObjectList { bucket, prefix: p })),
            None => (stack, None),
        },
        _ => (stack, None),
    }
}

/// The stack after a search for the text behind the marker of `query`. A
/// query without the marker searches nothing.
pub open spec fn searched(stack: Seq<FrameView>, query: Seq<char>) -> Seq<FrameView> {
    if query.len() > 0 && query[0] == SEPARATOR {
        stack_search_next(stack, query.skip(1))
    } else {
        stack
    }
}

impl ControllerView {
    /// The state of a controller that has just been made: nothing on
    /// screen, no key remembered, no search text.
    pub open spec fn initial() -> Self {
        ControllerView {
            stack: Seq::empty(),
            last_key: None,
            mode: InputMode::Normal,
            query: Seq::empty(),
        }
    }

    /// The state with another stack.
    pub open spec fn with_stack(self, stack: Seq<FrameView>) -> Self {
        ControllerView { stack, ..self }
    }

    /// The state with another search text.
    pub open spec fn with_query(self, query: Seq<char>) -> Self {
        ControllerView { query, ..self }
    }

    /// A step that changes the state and asks for nothing.
    pub open spec fn redraw(self) -> Step {
        Step { state: self, action: EventAction::NeedReDraw, request: None }
    }

    /// A step that changes nothing on screen and asks for nothing.
    pub open spec fn idle(self) -> Step {
        Step { state: self, action: EventAction::NoNeedReDraw, request: None }
    }

    /// What a command of normal mode comes to.
    pub open spec fn run(self, command: Command) -> Step {
        match command {
            Command::Quit => Step { state: self, action: EventAction::Exit, request: None },
            Command::First => self.with_stack(stack_first(self.stack)).redraw(),
            Command::Last => self.with_stack(stack_last(self.stack)).redraw(),
            Command::Next => self.with_stack(stack_next(self.stack)).redraw(),
            Command::Previous => self.with_stack(stack_previous(self.stack)).redraw(),
            Command::Enter => Step {
                state: self.with_stack(entered(self.stack).0),
                action: EventAction::NeedReDraw,
                request: entered(self.stack).1,
            },
            Command::Refresh => Step {
                state: self,
                action: EventAction::NoNeedReDraw,
                request: Some(request_for(current_scope(self.stack))),
            },
            Command::SearchNext => self.with_stack(searched(self.stack, self.query)).redraw(),
            Command::StartSearch => (ControllerView {
                mode: InputMode::Search,
                query: seq![SEPARATOR],
                ..self
            }).redraw(),
            Command::CopyUri => Step {
                state: self,
                action: EventAction::NoNeedReDraw,
                request: Some(RequestView::Clipboard(selected_uri(self.stack))),
            },
            Command::Nothing => self.idle(),
        }
    }

    /// What a key comes to while the search text is typed. A character is
    /// added to the text and backspace takes the last one off, but never
    /// the marker; after both the search runs again. Escape and enter end
    /// the typing.
    pub open spec fn edit(self, key: KeyEvent) -> Step {
        match key.code {
            KeyCode::Backspace => {
                let query = if self.query.len() > 1 {
                    self.query.drop_last()
                } else {
                    self.query
                };
                self.with_query(query).with_stack(searched(self.stack, query)).redraw()
            },
            KeyCode::Char(c) => {
                let query = self.query.push(c);
                self.with_query(query).with_stack(searched(self.stack, query)).redraw()
            },
            KeyCode::Esc | KeyCode::Enter => (ControllerView {
                mode: InputMode::Normal,
                ..self
            }).redraw(),
            _ => self.idle(),
        }
    }

    /// What a key comes to. The key is remembered as the last one, and then
    /// read as the mode says.
    pub open spec fn key(self, key: KeyEvent) -> Step {
        let noted = ControllerView { last_key: Some(key), ..self };
        match self.mode {
            InputMode::Normal => noted.run(normal_command(key, self.last_key)),
            InputMode::Search => noted.edit(key),
        }
    }

    /// What an event of the terminal comes to.
    pub open spec fn terminal(self, event: TerminalEvent) -> Step {
        match event {
            TerminalEvent::Key(key) => self.key(key),
            TerminalEvent::Resize(_, _) => self.redraw(),
            TerminalEvent::Other => self.idle(),
        }
    }

    /// What an event comes to. A listing that arrives is merged into the
    /// stack. A tick makes the last key forgotten.
    pub open spec fn step(self, event: EventView) -> Step {
        match event {
            EventView::ClientEvent(output) => self.with_stack(merged(self.stack, output)).redraw(),
            EventView::KeyEvent(FrontendEvent::Tick) => (ControllerView {
                last_key: None,
                ..self
            }).idle(),
            EventView::KeyEvent(FrontendEvent::TerminalEvent(event)) => self.terminal(event),
        }
    }
}

/// The request the program starts with: the level that the start address
/// names, or the list of buckets without one.
pub open spec fn first_request(path: Option<Seq<char>>) -> Option<RequestView> {
    match path {
        Some(p) => match parsed_path(p) {
            Some(scope) => Some(request_for(Some(scope))),
            None => None,
        },
        None => Some(RequestView::BucketList),
    }
}

/// The command a key asks for in normal mode.
pub fn command_of(key: KeyEvent, last_key_event: Option<KeyEvent>) -> (command: Command)
    ensures
        command == normal_command(key, last_key_event),
{
    let plain: bool = key.modifiers.is_none();
    match key.code {
        KeyCode::Char(c) => {
            if plain && c == 'q' {
                Command::Quit
            } else if plain && c == 'g' {
                match last_key_event {
                    Some(last) => match last.code {
                        KeyCode::Char(d) => if d == 'g' && last.modifiers.is_none() {
                            Command::First
                        } else {
                            Command::Nothing
                        },
                        _ => Command::Nothing,
                    },
                    None => Command::Nothing,
                }
            } else if plain && c == 'y' {
                Command::CopyUri
            } else if c == 'G' && key.modifiers.is_shift() {
                Command::Last
            } else if c == 'r' && key.modifiers.is_control() {
                Command::Refresh
            } else if plain && c == 'j' {
                Command::Next
            } else if plain && c == 'k' {
                Command::Previous
            } else if plain && c == 'n' {
                Command::SearchNext
            } else if plain && c == '/' {
                Command::StartSearch
            } else if c == 'c' && key.modifiers.is_control() {
                Command::Quit
            } else {
                Command::Nothing
            }
        },
        KeyCode::Down => if plain {
            Command::Next
        } else {
            Command::Nothing
        },
        KeyCode::Up => if plain {
            Command::Previous
        } else {
            Command::Nothing
        },
        KeyCode::Enter => if plain {
            Command::Enter
        } else {
            Command::Nothing
        },
        _ => Command::Nothing,
    }
}

/// The request that brings the listing of a scope.
pub fn make_request(scope: Option<(String, String)>) -> (request: Request)
    ensures
        request@ == request_for(scope.deep_view()),
{
    match scope {
        Some((bucket, prefix)) => Request::ObjectList { bucket, prefix },
        None => Request::BucketList,
    }
}

/// The navigation state together with what the keyboard is in the middle
/// of.
pub struct Controller {
    vm: S3ItemsViewModel,
    last_key_event: Option<KeyEvent>,
    input_mode: InputMode,
    search_input: String,
}

impl View for Controller {
    type V = ControllerView;

    closed spec fn view(&self) -> ControllerView {
        ControllerView {
            stack: self.vm@,
            last_key: self.last_key_event,
            mode: self.input_mode,
            query: self.search_input@,
        }
    }
}

impl Controller {
    /// A controller with nothing on screen yet.
    pub fn new() -> (controller: Self)
        ensures
            controller@ == ControllerView::initial(),
    {
        Controller {
            vm: S3ItemsViewModel::new(),
            last_key_event: None,
            input_mode: InputMode::Normal,
            search_input: String::new(),
        }
    }

    /// The request to start with, or the reason why the start address is
    /// refused.
    pub fn init(opt: &Opt) -> (request: Result<Request, PathError>)
        ensures
            match request {
                Ok(r) => first_request(opt.s3_path.deep_view()) == Some(r@),
                Err(e) => first_request(opt.s3_path.deep_view()) is None && e
                    == PathError::MissingScheme,
            },
    {
        match opt.parse_s3_path() {
            Ok(scope) => Ok(make_request(scope)),
            Err(e) => Err(e),
        }
    }

    /// The navigation state.
    pub fn view_model(&self) -> (vm: &S3ItemsViewModel)
        ensures
            vm@ == self@.stack,
    {
        &self.vm
    }

    /// Whether keys are commands or go into the search text.
    pub fn input_mode(&self) -> (mode: InputMode)
        ensures
            mode == self@.mode,
    {
        self.input_mode
    }

    /// The search text as typed, with its leading marker.
    pub fn search_input(&self) -> (query: &String)
        ensures
            query@ == self@.query,
    {
        &self.search_input
    }

    /// Runs the search for the text behind the marker.
    pub fn search_next(&mut self)
        ensures
            final(self)@ == old(self)@.with_stack(searched(old(self)@.stack, old(self)@.query)),
    {
        let chars = chars_of(self.search_input.as_str());
        if chars.len() > 0 && chars[0] == SEPARATOR {
            let text = self.search_input.as_str().substring_char(1, chars.len());
            assert(text@ =~= self.search_input@.skip(1));
            self.vm.search_next(text);
        }
    }

    /// The request that fetches anew the level on screen.
    pub fn refresh(&self) -> (request: Request)
        ensures
            request@ == request_for(current_scope(self@.stack)),
    {
        make_request(self.vm.bucket_and_prefix())
    }

    /// Activates the selected item: see `entered`.
    pub fn enter(&mut self) -> (request: Option<Request>)
        ensures
            final(self)@ == old(self)@.with_stack(entered(old(self)@.stack).0),
            request.deep_view() == entered(old(self)@.stack).1,
    {
        let left = self.vm.bucket_and_prefix();
        match self.vm.selected() {
            Some(S3Item::Pop) => {},
            Some(S3Item::Bucket(b)) => {
                return Some(Request::ObjectList { bucket: b.name.clone(), prefix: String::new() });
            },
            Some(S3Item::CommonPrefix(d)) => {
                return match left {
                    Some((bucket, _)) => Some(
                        Request::ObjectList { bucket, prefix: d.prefix.clone() },
                    ),
                    None => None,
                };
            },
            _ => {
                return None;
            },
        }
        let _ = self.vm.pop();
        match (self.vm.bucket_and_prefix(), left) {
            (Some(_), Some((bucket, prefix))) => Some(
                Request::ObjectList { bucket, prefix: parent_prefix(prefix.as_str()) },
            ),
            _ => Some(Request::BucketList),
        }
    }

    /// Carries out a command of normal mode.
    pub fn run(&mut self, command: Command) -> (done: (EventAction, Option<Request>))
        ensures
            final(self)@ == old(self)@.run(command).state,
            done.0 == old(self)@.run(command).action,
            done.1.deep_view() == old(self)@.run(command).request,
    {
        match command {
            Command::Quit => (EventAction::Exit, None),
            Command::First => {
                self.vm.first();
                (EventAction::NeedReDraw, None)
            },
            Command::CopyUri => (
                EventAction::NoNeedReDraw,
                Some(Request::Clipboard(self.vm.selected_s3_uri())),
            ),
            Command::Last => {
                self.vm.last();
                (EventAction::NeedReDraw, None)
            },
            Command::Refresh => (EventAction::NoNeedReDraw, Some(self.refresh())),
            Command::Next => {
                self.vm.next();
                (EventAction::NeedReDraw, None)
            },
            Command::Previous => {
                self.vm.previous();
                (EventAction::NeedReDraw, None)
            },
            Command::Enter => {
                let request = self.enter();
                (EventAction::NeedReDraw, request)
            },
            Command::SearchNext => {
                self.search_next();
                (EventAction::NeedReDraw, None)
            },
            Command::StartSearch => {
                proof {
                    reveal_strlit("/");
                }
                self.search_input = "/".to_owned();
                self.input_mode = InputMode::Search;
                assert(self.search_input@ =~= seq![SEPARATOR]);
                (EventAction::NeedReDraw, None)
            },
            Command::Nothing => (EventAction::NoNeedReDraw, None),
        }
    }

    /// Handles a key in normal mode, where keys are commands.
    pub fn handle_event_in_normal_mode(
        &mut self,
        key: KeyEvent,
        last_key_event: Option<KeyEvent>,
    ) -> (done: (EventAction, Option<Request>))
        ensures
            final(self)@ == old(self)@.run(normal_command(key, last_key_event)).state,
            done.0 == old(self)@.run(normal_command(key, last_key_event)).action,
            done.1.deep_view() == old(self)@.run(normal_command(key, last_key_event)).request,
    {
        self.run(command_of(key, last_key_event))
    }

    /// Handles a key while the search text is typed.
    pub fn handle_event_in_edit_mode(&mut self, key: KeyEvent) -> (done: (EventAction, Option<Request>))
        ensures
            final(self)@ == old(self)@.edit(key).state,
            done.0 == old(self)@.edit(key).action,
            done.1.deep_view() == old(self)@.edit(key).request,
    {
        match key.code {
            KeyCode::Backspace => {
                if self.search_input.as_str().unicode_len() > 1 {
                    let _ = self.search_input.pop();
                }
                self.search_next();
                (EventAction::NeedReDraw, None)
            },
            KeyCode::Char(c) => {
                self.search_input.push(c);
                self.search_next();
                (EventAction::NeedReDraw, None)
            },
            KeyCode::Esc | KeyCode::Enter => {
                self.input_mode = InputMode::Normal;
                (EventAction::NeedReDraw, None)
            },
            _ => (EventAction::NoNeedReDraw, None),
        }
    }

    /// Handles one event: see `ControllerView::step`.
    pub fn handle_event(&mut self, event: Event) -> (done: (EventAction, Option<Request>))
        ensures
            final(self)@ == old(self)@.step(event@).state,
            done.0 == old(self)@.step(event@).action,
            done.1.deep_view() == old(self)@.step(event@).request,
    {
        match event {
            Event::ClientEvent(s3output) => {
                self.vm.update(s3output);
                (EventAction::NeedReDraw, None)
            },
            Event::KeyEvent(key_event) => match key_event {
                FrontendEvent::Tick => {
                    self.last_key_event = None;
                    (EventAction::NoNeedReDraw, None)
                },
                FrontendEvent::TerminalEvent(terminal_event) => match terminal_event {
                    TerminalEvent::Key(key) => {
                        let last_key_event = self.last_key_event;
                        self.last_key_event = Some(key);
                        match self.input_mode {
                            InputMode::Normal => self.handle_event_in_normal_mode(key, last_key_event),
                            InputMode::Search => self.handle_event_in_edit_mode(key),
                        }
                    },
                    TerminalEvent::Resize(_, _) => (EventAction::NeedReDraw, None),
                    TerminalEvent::Other => (EventAction::NoNeedReDraw, None),
                },
            },
        }
    }
}

} // verus!
