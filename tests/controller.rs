use goose_menu::clock::{Instant, MAX_SECOND, MIN_SECOND};
use goose_menu::delegate::{Command, Delegate, HookError};
use goose_menu::menu::{build_menu, Action, Menu};

fn rows(menu: &Menu) -> Vec<(String, Option<Action>, String)> {
    menu.entries
        .iter()
        .map(|e| (e.title.clone(), e.action, e.key_equivalent.clone()))
        .collect()
}

fn row(title: &str, action: Option<Action>, key: &str) -> (String, Option<Action>, String) {
    (title.to_string(), action, key.to_string())
}

fn first_title(d: &Delegate) -> String {
    d.status_item().unwrap().menu.entries[0].title.clone()
}

#[test]
fn menu_with_clock_row_lists_entries_in_order() {
    let m = build_menu(true);
    assert_eq!(
        rows(&m),
        vec![
            row("Status", None, ""),
            row("Send a Goose", Some(Action::OrderGoose), ""),
            row("Cancel Goose", Some(Action::CancelGoose), ""),
            row("Quit", Some(Action::Terminate), "q"),
        ]
    );
    assert_eq!(m.clock_row, Some(0));
}

#[test]
fn menu_without_clock_row_lists_entries_in_order() {
    let m = build_menu(false);
    assert_eq!(
        rows(&m),
        vec![
            row("Send a Goose", Some(Action::OrderGoose), ""),
            row("Cancel Goose", Some(Action::CancelGoose), ""),
            row("Quit", Some(Action::Terminate), "q"),
        ]
    );
    assert_eq!(m.clock_row, None);
}

#[test]
fn launch_sets_status_item_once() {
    let mut d = Delegate::new(true);
    assert!(!d.is_launched());
    assert!(d.status_item().is_none());
    let cmds = d.did_finish_launching().unwrap();
    assert!(d.is_launched());
    let item = d.status_item().unwrap();
    assert_eq!(item.title, "\u{1FABF}");
    assert_eq!(rows(&item.menu), rows(&build_menu(true)));
    assert_eq!(cmds.len(), 3);
    match &cmds[0] {
        Command::ShowStatusItem { title, menu } => {
            assert_eq!(title, "\u{1FABF}");
            assert_eq!(rows(menu), rows(&build_menu(true)));
            assert_eq!(menu.clock_row, Some(0));
        }
        other => panic!("unexpected first command {:?}", other),
    }
    assert!(matches!(cmds[1], Command::BecomeAccessory));
    assert!(matches!(cmds[2], Command::Activate));

    assert_eq!(d.did_finish_launching().unwrap_err(), HookError::AlreadyLaunched);
    assert!(d.is_launched());
    assert_eq!(first_title(&d), "Status");
}

#[test]
fn launch_without_clock_row_shows_three_entries() {
    let mut d = Delegate::new(false);
    let cmds = d.did_finish_launching().unwrap();
    match &cmds[0] {
        Command::ShowStatusItem { menu, .. } => assert_eq!(menu.entries.len(), 3),
        other => panic!("unexpected first command {:?}", other),
    }
    assert_eq!(d.did_finish_launching().unwrap_err(), HookError::AlreadyLaunched);
}

#[test]
fn order_action_prints_line() {
    let d = Delegate::new(true);
    match d.on_action(Action::OrderGoose) {
        Command::PrintLine { line } => assert_eq!(line, "A goose is en route to your location!"),
        other => panic!("unexpected command {:?}", other),
    }
    assert!(!d.is_launched());
}

#[test]
fn cancel_action_prints_line() {
    let d = Delegate::new(false);
    match d.on_action(Action::CancelGoose) {
        Command::PrintLine { line } => assert_eq!(line, "Cancelling your goose :("),
        other => panic!("unexpected command {:?}", other),
    }
}

#[test]
fn quit_terminates_without_output() {
    let d = Delegate::new(true);
    assert!(matches!(d.on_action(Action::Terminate), Command::Terminate));
}

#[test]
fn menu_open_twice_retitles_first_entry_both_times() {
    let mut d = Delegate::new(true);
    d.did_finish_launching().unwrap();

    let cmds = d.menu_will_open_at(Instant::new(0, 0).unwrap()).unwrap();
    assert_eq!(first_title(&d), "1970-01-01T00:00:00Z");
    assert_eq!(cmds.len(), 1);
    match &cmds[0] {
        Command::SetEntryTitle { index, title } => {
            assert_eq!(*index, 0);
            assert_eq!(title, "1970-01-01T00:00:00Z");
        }
        other => panic!("unexpected command {:?}", other),
    }

    d.menu_will_open_at(Instant::new(123_456_789, 0).unwrap()).unwrap();
    assert_eq!(first_title(&d), "1973-11-29T21:33:09Z");
    let item = d.status_item().unwrap();
    assert_eq!(rows(&item.menu)[1..], rows(&build_menu(true))[1..]);
}

#[test]
fn menu_open_with_current_time_replaces_status_row() {
    let mut d = Delegate::new(true);
    d.did_finish_launching().unwrap();
    d.menu_will_open().unwrap();
    let first = first_title(&d);
    assert_ne!(first, "Status");
    assert!(first.ends_with('Z'));
    d.menu_will_open().unwrap();
    assert!(first_title(&d).ends_with('Z'));
}

#[test]
fn set_clock_row_title_uses_given_text() {
    let mut d = Delegate::new(true);
    d.did_finish_launching().unwrap();
    d.set_clock_row_title("noon".to_string()).unwrap();
    assert_eq!(first_title(&d), "noon");
    d.set_clock_row_title("one".to_string()).unwrap();
    assert_eq!(first_title(&d), "one");
}

#[test]
fn menu_open_before_launch_fails() {
    let mut d = Delegate::new(true);
    assert_eq!(d.menu_will_open().unwrap_err(), HookError::NotLaunched);
    assert!(!d.is_launched());
}

#[test]
fn menu_open_without_clock_row_fails() {
    let mut d = Delegate::new(false);
    d.did_finish_launching().unwrap();
    assert_eq!(
        d.set_clock_row_title("x".to_string()).unwrap_err(),
        HookError::NoClockRow
    );
    assert_eq!(d.status_item().unwrap().menu.entries[0].title, "Send a Goose");
}

#[test]
fn instant_range_is_checked() {
    assert!(Instant::new(MIN_SECOND, 0).is_some());
    assert!(Instant::new(MIN_SECOND, -1).is_none());
    assert!(Instant::new(MIN_SECOND - 1, 0).is_none());
    assert!(Instant::new(MAX_SECOND, 999_999_999).is_some());
    assert!(Instant::new(MAX_SECOND + 1, 0).is_none());
    assert!(Instant::new(0, 1_000_000_000).is_none());
    assert!(Instant::new(0, -999_999_999).is_some());
    let t = Instant::new(5, 7).unwrap();
    assert_eq!((t.second(), t.nanosecond()), (5, 7));
}

#[test]
fn instant_text_is_formatted() {
    assert_eq!(Instant::new(0, 0).unwrap().to_text(), "1970-01-01T00:00:00Z");
    assert_eq!(
        Instant::new(MIN_SECOND, 1).unwrap().to_text(),
        "-009999-01-02T01:59:59.000000001Z"
    );
}
