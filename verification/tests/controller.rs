use tui_aws::frontend::{EventAction, FrontendEvent, KeyCode, KeyEvent, KeyModifiers, TerminalEvent};
use tui_aws::s3::client::{BucketWithLocation, ObjectListing};
use tui_aws::s3::controller::{
    command_of, parse_path, Command, Controller, Event, InputMode, Opt, PathError, Request,
};
use tui_aws::s3::model::{CommonPrefix, Object, S3Item};
use tui_aws::s3::view_model::S3Output;

const NONE: KeyModifiers = KeyModifiers { shift: false, control: false, alt: false };
const SHIFT: KeyModifiers = KeyModifiers { shift: true, control: false, alt: false };
const CONTROL: KeyModifiers = KeyModifiers { shift: false, control: true, alt: false };
const ALT: KeyModifiers = KeyModifiers { shift: false, control: false, alt: true };

fn key(code: KeyCode, modifiers: KeyModifiers) -> KeyEvent {
    KeyEvent { code, modifiers }
}

fn ch(c: char) -> KeyEvent {
    key(KeyCode::Char(c), NONE)
}

fn press(c: &mut Controller, k: KeyEvent) -> (EventAction, Option<Request>) {
    c.handle_event(Event::KeyEvent(FrontendEvent::TerminalEvent(TerminalEvent::Key(k))))
}

fn tick(c: &mut Controller) -> (EventAction, Option<Request>) {
    c.handle_event(Event::KeyEvent(FrontendEvent::Tick))
}

fn arrive(c: &mut Controller, output: S3Output) -> (EventAction, Option<Request>) {
    c.handle_event(Event::ClientEvent(output))
}

fn bucket_list(names: &[&str]) -> S3Output {
    S3Output::Buckets(
        names
            .iter()
            .map(|n| BucketWithLocation { location: String::new(), name: (*n).to_owned() })
            .collect(),
    )
}

fn level(name: &str, at: &str, prefixes: &[&str], keys: &[&str]) -> S3Output {
    S3Output::Objects(ObjectListing {
        name: name.to_owned(),
        prefix: at.to_owned(),
        common_prefixes: prefixes.iter().map(|p| CommonPrefix { prefix: (*p).to_owned() }).collect(),
        contents: keys
            .iter()
            .map(|k| Object { key: (*k).to_owned(), size: 1, last_modified: None })
            .collect(),
    })
}

fn cursor_of(c: &Controller) -> Option<usize> {
    c.view_model().list_stack.last().and_then(|frame| frame.items().state())
}

fn at(bucket: &str, prefix: &str) -> Option<(String, String)> {
    Some((bucket.to_owned(), prefix.to_owned()))
}

fn is_object_list(request: &Option<Request>, b: &str, p: &str) -> bool {
    matches!(request, Some(Request::ObjectList { bucket, prefix }) if bucket == b && prefix == p)
}

fn make_opt(s: &str) -> Opt {
    Opt { s3_path: Some(s.to_owned()), profile: None, endpoint_url: None }
}

#[test]
fn test_parse_s3_path() {
    assert_eq!(
        make_opt("s3://bucket/p1/p2/").parse_s3_path().unwrap(),
        Some(("bucket".to_owned(), "p1/p2/".to_owned()))
    );
    assert_eq!(
        make_opt("s3://bucket/p1/p2/k").parse_s3_path().unwrap(),
        Some(("bucket".to_owned(), "p1/p2/".to_owned()))
    );
    assert_eq!(
        make_opt("s3://bucket").parse_s3_path().unwrap(),
        Some(("bucket".to_owned(), "".to_owned()))
    );
    assert_eq!(
        make_opt("s3://bucket/").parse_s3_path().unwrap(),
        Some(("bucket".to_owned(), "".to_owned()))
    );
    assert_eq!(
        make_opt("s3://bucket/key").parse_s3_path().unwrap(),
        Some(("bucket".to_owned(), "".to_owned()))
    );
}

#[test]
fn parse_without_a_path() {
    let opt = Opt { s3_path: None, profile: Some("p".to_owned()), endpoint_url: None };
    assert_eq!(opt.parse_s3_path(), Ok(None));
}

#[test]
fn parse_refuses_a_path_without_the_scheme() {
    assert_eq!(make_opt("bucket/p1/").parse_s3_path(), Err(PathError::MissingScheme));
    assert_eq!(make_opt("").parse_s3_path(), Err(PathError::MissingScheme));
    assert_eq!(make_opt("s3:/bucket").parse_s3_path(), Err(PathError::MissingScheme));
    assert_eq!(make_opt("S3://bucket").parse_s3_path(), Err(PathError::MissingScheme));
    assert_eq!(make_opt(" s3://bucket").parse_s3_path(), Err(PathError::MissingScheme));
    assert_eq!(parse_path("http://bucket/k"), Err(PathError::MissingScheme));
    assert_eq!(PathError::MissingScheme.message(), "s3_path must start with s3://");
}

#[test]
fn parse_edge_cases() {
    assert_eq!(parse_path("s3://"), Ok((String::new(), String::new())));
    assert_eq!(parse_path("s3:///k"), Ok((String::new(), String::new())));
    assert_eq!(parse_path("s3://b//"), Ok(("b".to_owned(), "/".to_owned())));
    assert_eq!(parse_path("s3://b/a//k"), Ok(("b".to_owned(), "a//".to_owned())));
    assert_eq!(parse_path("s3://버킷/경로/키"), Ok(("버킷".to_owned(), "경로/".to_owned())));
}

#[test]
fn init_asks_for_the_first_listing() {
    let no_path = Opt { s3_path: None, profile: None, endpoint_url: None };
    assert!(matches!(Controller::init(&no_path), Ok(Request::BucketList)));
    let with_path = Controller::init(&make_opt("s3://bucket/p1/p2/k")).ok();
    assert!(is_object_list(&with_path, "bucket", "p1/p2/"));
    assert!(matches!(Controller::init(&make_opt("bucket")), Err(PathError::MissingScheme)));
}

#[test]
fn new_controller_is_empty_and_in_normal_mode() {
    let c = Controller::new();
    assert_eq!(c.view_model().depth(), 0);
    assert_eq!(c.input_mode(), InputMode::Normal);
    assert_eq!(c.search_input(), "");
}

#[test]
fn key_bindings_of_normal_mode() {
    assert_eq!(command_of(ch('q'), None), Command::Quit);
    assert_eq!(command_of(key(KeyCode::Char('c'), CONTROL), None), Command::Quit);
    assert_eq!(command_of(ch('c'), None), Command::Nothing);
    assert_eq!(command_of(key(KeyCode::Char('q'), CONTROL), None), Command::Nothing);
    assert_eq!(command_of(ch('g'), None), Command::Nothing);
    assert_eq!(command_of(ch('g'), Some(ch('g'))), Command::First);
    assert_eq!(command_of(ch('g'), Some(ch('j'))), Command::Nothing);
    assert_eq!(command_of(ch('g'), Some(key(KeyCode::Char('g'), SHIFT))), Command::Nothing);
    assert_eq!(command_of(ch('g'), Some(key(KeyCode::Enter, NONE))), Command::Nothing);
    assert_eq!(command_of(ch('y'), None), Command::CopyUri);
    assert_eq!(command_of(key(KeyCode::Char('G'), SHIFT), None), Command::Last);
    assert_eq!(command_of(ch('G'), None), Command::Nothing);
    assert_eq!(command_of(key(KeyCode::Char('r'), CONTROL), None), Command::Refresh);
    assert_eq!(command_of(ch('r'), None), Command::Nothing);
    assert_eq!(command_of(key(KeyCode::Down, NONE), None), Command::Next);
    assert_eq!(command_of(ch('j'), None), Command::Next);
    assert_eq!(command_of(key(KeyCode::Down, SHIFT), None), Command::Nothing);
    assert_eq!(command_of(key(KeyCode::Up, NONE), None), Command::Previous);
    assert_eq!(command_of(ch('k'), None), Command::Previous);
    assert_eq!(command_of(key(KeyCode::Enter, NONE), None), Command::Enter);
    assert_eq!(command_of(key(KeyCode::Enter, ALT), None), Command::Nothing);
    assert_eq!(command_of(ch('n'), None), Command::SearchNext);
    assert_eq!(command_of(ch('/'), None), Command::StartSearch);
    assert_eq!(command_of(key(KeyCode::Esc, NONE), None), Command::Nothing);
    assert_eq!(command_of(key(KeyCode::Backspace, NONE), None), Command::Nothing);
    assert_eq!(command_of(key(KeyCode::Other, NONE), None), Command::Nothing);
    assert_eq!(command_of(ch('x'), Some(ch('g'))), Command::Nothing);
}

#[test]
fn modifiers_are_told_apart() {
    assert!(NONE.is_none() && !NONE.is_shift() && !NONE.is_control());
    assert!(SHIFT.is_shift() && !SHIFT.is_none() && !SHIFT.is_control());
    assert!(CONTROL.is_control() && !CONTROL.is_none() && !CONTROL.is_shift());
    assert!(!ALT.is_none() && !ALT.is_shift() && !ALT.is_control());
    let both = KeyModifiers { shift: true, control: true, alt: false };
    assert!(!both.is_none() && !both.is_shift() && !both.is_control());
}

#[test]
fn quit_keys_exit() {
    let mut c = Controller::new();
    let (action, request) = press(&mut c, ch('q'));
    assert_eq!(action, EventAction::Exit);
    assert!(request.is_none());
    let (action, _) = press(&mut c, key(KeyCode::Char('c'), CONTROL));
    assert_eq!(action, EventAction::Exit);
}

#[test]
fn arriving_listing_is_merged_and_redrawn() {
    let mut c = Controller::new();
    let (action, request) = arrive(&mut c, bucket_list(&["b1", "b2"]));
    assert_eq!(action, EventAction::NeedReDraw);
    assert!(request.is_none());
    assert_eq!(c.view_model().depth(), 1);
    assert_eq!(cursor_of(&c), Some(0));
}

#[test]
fn cursor_keys_move_the_cursor() {
    let mut c = Controller::new();
    arrive(&mut c, bucket_list(&["a", "b", "c"]));
    assert_eq!(press(&mut c, ch('j')).0, EventAction::NeedReDraw);
    assert_eq!(cursor_of(&c), Some(1));
    assert_eq!(press(&mut c, key(KeyCode::Down, NONE)).0, EventAction::NeedReDraw);
    assert_eq!(cursor_of(&c), Some(2));
    press(&mut c, ch('j'));
    assert_eq!(cursor_of(&c), Some(0));
    assert_eq!(press(&mut c, ch('k')).0, EventAction::NeedReDraw);
    assert_eq!(cursor_of(&c), Some(2));
    press(&mut c, key(KeyCode::Up, NONE));
    assert_eq!(cursor_of(&c), Some(1));
    assert_eq!(press(&mut c, key(KeyCode::Char('G'), SHIFT)).0, EventAction::NeedReDraw);
    assert_eq!(cursor_of(&c), Some(2));
}

#[test]
fn two_g_in_a_row_jump_to_the_first_item() {
    let mut c = Controller::new();
    arrive(&mut c, bucket_list(&["a", "b", "c"]));
    press(&mut c, key(KeyCode::Char('G'), SHIFT));
    assert_eq!(press(&mut c, ch('g')).0, EventAction::NoNeedReDraw);
    assert_eq!(cursor_of(&c), Some(2));
    assert_eq!(press(&mut c, ch('g')).0, EventAction::NeedReDraw);
    assert_eq!(cursor_of(&c), Some(0));
}

#[test]
fn a_tick_between_two_g_breaks_the_chord() {
    let mut c = Controller::new();
    arrive(&mut c, bucket_list(&["a", "b", "c"]));
    press(&mut c, key(KeyCode::Char('G'), SHIFT));
    press(&mut c, ch('g'));
    let (action, request) = tick(&mut c);
    assert_eq!(action, EventAction::NoNeedReDraw);
    assert!(request.is_none());
    assert_eq!(press(&mut c, ch('g')).0, EventAction::NoNeedReDraw);
    assert_eq!(cursor_of(&c), Some(2));
    press(&mut c, ch('x'));
    assert_eq!(press(&mut c, ch('g')).0, EventAction::NoNeedReDraw);
    assert_eq!(cursor_of(&c), Some(2));
}

#[test]
fn resize_redraws_and_other_events_do_nothing() {
    let mut c = Controller::new();
    let resize = Event::KeyEvent(FrontendEvent::TerminalEvent(TerminalEvent::Resize(80, 24)));
    assert_eq!(c.handle_event(resize).0, EventAction::NeedReDraw);
    let other = Event::KeyEvent(FrontendEvent::TerminalEvent(TerminalEvent::Other));
    assert_eq!(c.handle_event(other).0, EventAction::NoNeedReDraw);
    assert_eq!(press(&mut c, ch('x')).0, EventAction::NoNeedReDraw);
}

#[test]
fn copy_asks_for_the_clipboard() {
    let mut c = Controller::new();
    arrive(&mut c, bucket_list(&["b1"]));
    arrive(&mut c, level("b1", "", &["p1/"], &["k"]));
    press(&mut c, ch('j'));
    let (action, request) = press(&mut c, ch('y'));
    assert_eq!(action, EventAction::NoNeedReDraw);
    assert!(matches!(request, Some(Request::Clipboard(text)) if text == "s3://b1/p1/"));
}

#[test]
fn refresh_asks_for_the_scope_on_screen() {
    let mut c = Controller::new();
    let (action, request) = press(&mut c, key(KeyCode::Char('r'), CONTROL));
    assert_eq!(action, EventAction::NoNeedReDraw);
    assert!(matches!(request, Some(Request::BucketList)));
    arrive(&mut c, bucket_list(&["b1"]));
    let (_, request) = press(&mut c, key(KeyCode::Char('r'), CONTROL));
    assert!(matches!(request, Some(Request::BucketList)));
    arrive(&mut c, level("b1", "p1/", &[], &[]));
    let (action, request) = press(&mut c, key(KeyCode::Char('r'), CONTROL));
    assert_eq!(action, EventAction::NoNeedReDraw);
    assert!(is_object_list(&request, "b1", "p1/"));
    assert_eq!(c.view_model().depth(), 2);
}

#[test]
fn enter_on_an_object_or_on_nothing_does_nothing() {
    let mut c = Controller::new();
    let (action, request) = press(&mut c, key(KeyCode::Enter, NONE));
    assert_eq!(action, EventAction::NeedReDraw);
    assert!(request.is_none());
    arrive(&mut c, level("b1", "", &[], &["k"]));
    press(&mut c, ch('j'));
    assert_eq!(c.view_model().selected(), Some(&S3Item::Object(Object {
        key: "k".to_owned(),
        size: 1,
        last_modified: None,
    })));
    let (action, request) = press(&mut c, key(KeyCode::Enter, NONE));
    assert_eq!(action, EventAction::NeedReDraw);
    assert!(request.is_none());
    assert_eq!(c.view_model().depth(), 1);
}

#[test]
fn ascend_descend_round_trip() {
    let mut c = Controller::new();
    arrive(&mut c, bucket_list(&["b1", "b2"]));
    assert_eq!(c.view_model().bucket_and_prefix(), None);

    // Into the bucket.
    let (action, request) = press(&mut c, key(KeyCode::Enter, NONE));
    assert_eq!(action, EventAction::NeedReDraw);
    assert!(is_object_list(&request, "b1", ""));
    assert_eq!(c.view_model().depth(), 1);
    arrive(&mut c, level("b1", "", &["p1/"], &["k"]));
    assert_eq!(c.view_model().depth(), 2);
    assert_eq!(c.view_model().bucket_and_prefix(), at("b1", ""));

    // Into the prefix.
    press(&mut c, ch('j'));
    let (_, request) = press(&mut c, key(KeyCode::Enter, NONE));
    assert!(is_object_list(&request, "b1", "p1/"));
    arrive(&mut c, level("b1", "p1/", &[], &["p1/x"]));
    assert_eq!(c.view_model().depth(), 3);
    assert_eq!(c.view_model().bucket_and_prefix(), at("b1", "p1/"));
    assert_eq!(c.view_model().selected(), Some(&S3Item::Pop));

    // Up once: the level above is fetched anew and replaced in place.
    let (_, request) = press(&mut c, key(KeyCode::Enter, NONE));
    assert!(is_object_list(&request, "b1", ""));
    assert_eq!(c.view_model().depth(), 2);
    assert_eq!(cursor_of(&c), Some(1));
    arrive(&mut c, level("b1", "", &["p1/", "p2/"], &["k"]));
    assert_eq!(c.view_model().depth(), 2);
    assert_eq!(c.view_model().bucket_and_prefix(), at("b1", ""));
    assert_eq!(cursor_of(&c), Some(1));

    // Up again: the list of buckets is fetched anew.
    press(&mut c, ch('g'));
    press(&mut c, ch('g'));
    assert_eq!(c.view_model().selected(), Some(&S3Item::Pop));
    let (action, request) = press(&mut c, key(KeyCode::Enter, NONE));
    assert_eq!(action, EventAction::NeedReDraw);
    assert!(matches!(request, Some(Request::BucketList)));
    assert_eq!(c.view_model().depth(), 1);
    assert_eq!(c.view_model().bucket_and_prefix(), None);
    arrive(&mut c, bucket_list(&["b1", "b2", "b3"]));
    assert_eq!(c.view_model().depth(), 1);
    assert_eq!(c.view_model().bucket_and_prefix(), None);
    assert_eq!(c.view_model().list_stack[0].items().items().len(), 3);
}

#[test]
fn way_back_from_the_only_level_asks_for_the_buckets() {
    let mut c = Controller::new();
    arrive(&mut c, level("bucket", "p1/p2/", &[], &[]));
    let (_, request) = press(&mut c, key(KeyCode::Enter, NONE));
    assert!(matches!(request, Some(Request::BucketList)));
    assert_eq!(c.view_model().depth(), 0);
    arrive(&mut c, bucket_list(&["bucket"]));
    assert_eq!(c.view_model().depth(), 1);
    assert_eq!(cursor_of(&c), Some(0));
}

#[test]
fn way_back_asks_for_the_parent_prefix() {
    let mut c = Controller::new();
    arrive(&mut c, level("b", "a/", &["a/b/"], &[]));
    arrive(&mut c, level("b", "a/b/c/", &[], &[]));
    assert_eq!(c.view_model().depth(), 2);
    let (_, request) = press(&mut c, key(KeyCode::Enter, NONE));
    assert!(is_object_list(&request, "b", "a/b/"));
    assert_eq!(c.view_model().depth(), 1);
    // The listing of the level between the two becomes a new level.
    arrive(&mut c, level("b", "a/b/", &["a/b/c/"], &[]));
    assert_eq!(c.view_model().depth(), 2);
    assert_eq!(c.view_model().bucket_and_prefix(), at("b", "a/b/"));
}

#[test]
fn slash_starts_the_search_and_typing_searches() {
    let mut c = Controller::new();
    arrive(&mut c, bucket_list(&["a", "bb", "abc", "x"]));
    let (action, request) = press(&mut c, ch('/'));
    assert_eq!(action, EventAction::NeedReDraw);
    assert!(request.is_none());
    assert_eq!(c.input_mode(), InputMode::Search);
    assert_eq!(c.search_input(), "/");

    // In search mode `q` is a character, not a command.
    let (action, _) = press(&mut c, ch('q'));
    assert_eq!(action, EventAction::NeedReDraw);
    assert_eq!(c.search_input(), "/q");
    assert_eq!(cursor_of(&c), Some(0));

    let (action, _) = press(&mut c, key(KeyCode::Backspace, NONE));
    assert_eq!(action, EventAction::NeedReDraw);
    assert_eq!(c.search_input(), "/");
    // The empty text matches every item: the cursor moves on by one.
    assert_eq!(cursor_of(&c), Some(1));

    press(&mut c, key(KeyCode::Backspace, NONE));
    assert_eq!(c.search_input(), "/");
    assert_eq!(cursor_of(&c), Some(2));

    press(&mut c, ch('x'));
    assert_eq!(c.search_input(), "/x");
    assert_eq!(cursor_of(&c), Some(3));

    let (action, _) = press(&mut c, key(KeyCode::Other, NONE));
    assert_eq!(action, EventAction::NoNeedReDraw);
    assert_eq!(c.search_input(), "/x");

    let (action, _) = press(&mut c, key(KeyCode::Esc, NONE));
    assert_eq!(action, EventAction::NeedReDraw);
    assert_eq!(c.input_mode(), InputMode::Normal);
    assert_eq!(c.search_input(), "/x");
}

#[test]
fn enter_ends_the_search_and_n_repeats_it() {
    let mut c = Controller::new();
    arrive(&mut c, bucket_list(&["a", "bb", "abc", "x"]));
    press(&mut c, ch('/'));
    press(&mut c, key(KeyCode::Char('B'), SHIFT));
    assert_eq!(c.search_input(), "/B");
    assert_eq!(cursor_of(&c), Some(0));
    press(&mut c, key(KeyCode::Backspace, NONE));
    press(&mut c, ch('b'));
    assert_eq!(c.search_input(), "/b");
    assert_eq!(cursor_of(&c), Some(2));
    let (action, request) = press(&mut c, key(KeyCode::Enter, NONE));
    assert_eq!(action, EventAction::NeedReDraw);
    assert!(request.is_none());
    assert_eq!(c.input_mode(), InputMode::Normal);
    assert_eq!(c.view_model().depth(), 1);

    assert_eq!(press(&mut c, ch('n')).0, EventAction::NeedReDraw);
    assert_eq!(cursor_of(&c), Some(1));
    press(&mut c, ch('n'));
    assert_eq!(cursor_of(&c), Some(2));
    press(&mut c, ch('n'));
    assert_eq!(cursor_of(&c), Some(1));
}

#[test]
fn n_without_a_search_text_does_nothing() {
    let mut c = Controller::new();
    arrive(&mut c, bucket_list(&["a", "b"]));
    assert_eq!(press(&mut c, ch('n')).0, EventAction::NeedReDraw);
    assert_eq!(cursor_of(&c), Some(0));
    c.search_next();
    assert_eq!(cursor_of(&c), Some(0));
}

#[test]
fn a_listing_arrives_while_the_search_is_typed() {
    let mut c = Controller::new();
    arrive(&mut c, bucket_list(&["a", "b"]));
    press(&mut c, ch('/'));
    let (action, _) = arrive(&mut c, bucket_list(&["a"]));
    assert_eq!(action, EventAction::NeedReDraw);
    assert_eq!(c.input_mode(), InputMode::Search);
    assert_eq!(c.view_model().list_stack[0].items().items().len(), 1);
}
