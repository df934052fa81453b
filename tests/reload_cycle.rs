use live_style::path::StylePath;
use live_style::reload::{
    Action, ApplyError, Input, Level, Notice, Phase, ReadError, ReloadController, HINT_CHECK_ERRORS,
    HINT_SUBSET,
};
use live_style::watch::ChangeEvent;

fn style() -> StylePath {
    StylePath { segments: vec!["etc".to_string(), "bar".to_string(), "style.css".to_string()] }
}

fn change() -> Input {
    Input::Changed(ChangeEvent { path: style() })
}

fn rejected(message: &str) -> Input {
    Input::Applied(Err(ApplyError { message: message.to_string() }))
}

/// Runs one load: the start input, the read outcome, and the sink's answer where asked.
/// Returns the bytes handed to the sink, if any, and the final notice.
fn cycle(
    c: &mut ReloadController,
    start: Input,
    read: Result<&[u8], &str>,
    sink: Result<(), &str>,
) -> (Option<Vec<u8>>, Notice) {
    match c.step(start) {
        Action::ReadFile(p) => assert!(p.same_path(&style())),
        _ => panic!("a load starts with a read"),
    }
    assert_eq!(c.phase(), Phase::Reloading);
    let read = match read {
        Ok(b) => Ok(b.to_vec()),
        Err(m) => Err(ReadError { message: m.to_string() }),
    };
    match c.step(Input::Read(read)) {
        Action::Apply(bytes) => {
            let answer = match sink {
                Ok(()) => Input::Applied(Ok(())),
                Err(m) => rejected(m),
            };
            match c.step(answer) {
                Action::Report(n) => (Some(bytes), n),
                _ => panic!("the sink's answer ends the load"),
            }
        }
        Action::Report(n) => (None, n),
        _ => panic!("a read is followed by an apply or a report"),
    }
}

#[test]
fn new_controller_is_idle_without_style() {
    let c = ReloadController::new(style());
    assert_eq!(c.phase(), Phase::Idle);
    assert!(c.active_style().is_none());
    assert!(c.style_path().same_path(&style()));
}

#[test]
fn red_then_blue_then_invalid() {
    let mut c = ReloadController::new(style());
    let red: &[u8] = b"A {color: red;}";
    let blue: &[u8] = b"A {color: blue;}";
    let bad: &[u8] = b"A {color: ";

    let (applied, notice) = cycle(&mut c, Input::Initial, Ok(red), Ok(()));
    assert_eq!(applied.as_deref(), Some(red));
    assert!(matches!(notice, Notice::Applied));
    assert_eq!(c.active_style().map(|v| v.as_slice()), Some(red));

    let (applied, notice) = cycle(&mut c, change(), Ok(blue), Ok(()));
    assert_eq!(applied.as_deref(), Some(blue));
    assert!(matches!(notice, Notice::Applied));
    assert_eq!(c.active_style().map(|v| v.as_slice()), Some(blue));
    assert_eq!(c.phase(), Phase::Idle);

    let (applied, notice) = cycle(&mut c, change(), Ok(bad), Err("unexpected end"));
    assert_eq!(applied.as_deref(), Some(bad));
    match notice {
        Notice::ApplyFailed(e) => assert_eq!(e.message, "unexpected end"),
        _ => panic!("the rejection is reported"),
    }
    assert_eq!(c.active_style().map(|v| v.as_slice()), Some(blue));
    assert_eq!(c.phase(), Phase::Idle);
}

#[test]
fn same_change_twice_applies_identical_bytes() {
    let mut c = ReloadController::new(style());
    let content: &[u8] = b"label {color: green;}";
    let (first, n1) = cycle(&mut c, change(), Ok(content), Ok(()));
    let (second, n2) = cycle(&mut c, change(), Ok(content), Ok(()));
    assert_eq!(first, second);
    assert_eq!(first.as_deref(), Some(content));
    assert!(matches!(n1, Notice::Applied));
    assert!(matches!(n2, Notice::Applied));
    assert_eq!(c.active_style().map(|v| v.as_slice()), Some(content));
}

#[test]
fn read_failure_keeps_previous_style() {
    let mut c = ReloadController::new(style());
    let content: &[u8] = b"A {color: red;}";
    cycle(&mut c, Input::Initial, Ok(content), Ok(()));
    let (applied, notice) = cycle(&mut c, change(), Err("No such file"), Ok(()));
    assert!(applied.is_none());
    match notice {
        Notice::ReadFailed(e) => assert_eq!(e.message, "No such file"),
        _ => panic!("the read failure is reported"),
    }
    assert_eq!(c.active_style().map(|v| v.as_slice()), Some(content));
    assert_eq!(c.phase(), Phase::Idle);
}

#[test]
fn rejected_initial_load_leaves_no_style() {
    let mut c = ReloadController::new(style());
    let (_, notice) = cycle(&mut c, Input::Initial, Ok(b"}{"), Err("parse error"));
    assert!(matches!(notice, Notice::ApplyFailed(_)));
    assert!(c.active_style().is_none());
}

#[test]
fn events_take_effect_in_order() {
    let mut c = ReloadController::new(style());
    let first: &[u8] = b"A {color: red;}";
    let second: &[u8] = b"A {color: blue;}";
    cycle(&mut c, change(), Ok(first), Ok(()));
    assert_eq!(c.active_style().map(|v| v.as_slice()), Some(first));
    cycle(&mut c, change(), Ok(second), Ok(()));
    assert_eq!(c.active_style().map(|v| v.as_slice()), Some(second));
}

#[test]
fn latest_good_content_wins_over_later_failures() {
    let mut c = ReloadController::new(style());
    let good: &[u8] = b"A {color: red;}";
    cycle(&mut c, change(), Ok(b"x"), Err("bad"));
    cycle(&mut c, change(), Ok(good), Ok(()));
    cycle(&mut c, change(), Ok(b"y"), Err("bad"));
    cycle(&mut c, change(), Err("gone"), Ok(()));
    assert_eq!(c.active_style().map(|v| v.as_slice()), Some(good));
}

#[test]
fn change_of_other_path_is_ignored() {
    let mut c = ReloadController::new(style());
    let other = StylePath { segments: vec!["etc".to_string(), "bar".to_string(), "x.css".to_string()] };
    assert!(matches!(c.step(Input::Changed(ChangeEvent { path: other })), Action::Ignore));
    assert_eq!(c.phase(), Phase::Idle);
}

#[test]
fn outcomes_out_of_turn_are_ignored() {
    let mut c = ReloadController::new(style());
    assert!(matches!(c.step(Input::Read(Ok(b"A {}".to_vec()))), Action::Ignore));
    assert!(matches!(c.step(Input::Applied(Ok(()))), Action::Ignore));
    assert_eq!(c.phase(), Phase::Idle);
    assert!(c.active_style().is_none());

    assert!(matches!(c.step(Input::Initial), Action::ReadFile(_)));
    assert!(matches!(c.step(change()), Action::Ignore));
    assert!(matches!(c.step(Input::Applied(Ok(()))), Action::Ignore));
    assert!(matches!(c.step(Input::Read(Ok(b"A {}".to_vec()))), Action::Apply(_)));
    assert!(matches!(c.step(Input::Read(Ok(b"B {}".to_vec()))), Action::Ignore));
    assert!(matches!(c.step(Input::Applied(Ok(()))), Action::Report(Notice::Applied)));
    assert_eq!(c.active_style().map(|v| v.as_slice()), Some(&b"A {}"[..]));
}

#[test]
fn empty_stylesheet_is_applied() {
    let mut c = ReloadController::new(style());
    let (applied, notice) = cycle(&mut c, Input::Initial, Ok(b""), Ok(()));
    assert_eq!(applied, Some(vec![]));
    assert!(matches!(notice, Notice::Applied));
    assert_eq!(c.active_style().map(|v| v.len()), Some(0));
}

#[test]
fn notice_levels_and_hints() {
    assert_eq!(Notice::Applied.level(), Level::Debug);
    assert!(Notice::Applied.hints().is_empty());
    let failed = Notice::ApplyFailed(ApplyError { message: "bad".to_string() });
    assert_eq!(failed.level(), Level::Error);
    assert_eq!(failed.hints(), vec![HINT_CHECK_ERRORS.to_string(), HINT_SUBSET.to_string()]);
    let unread = Notice::ReadFailed(ReadError { message: "gone".to_string() });
    assert_eq!(unread.level(), Level::Error);
    assert_eq!(unread.hints()[0], "Check the CSS file for errors");
}
