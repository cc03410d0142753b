use ldb_inspect::cli::Command;
use ldb_inspect::nav::{input_of, App, Focus, Input, Key};

fn app_with(n: usize) -> App {
    let raw: Vec<Vec<u8>> = (0..n).map(|i| format!("key-{i}").into_bytes()).collect();
    App::from_raw_keys(raw)
}

#[test]
fn focus_switches_both_ways() {
    let mut f = Focus::Keys;
    f.switch();
    assert_eq!(f, Focus::Value);
    f.switch();
    assert_eq!(f, Focus::Keys);
}

#[test]
fn new_app_lists_keys_in_order() {
    let app = App::from_raw_keys(vec![b"cbor".to_vec(), vec![0xff, 0x10], b"hex".to_vec()]);
    assert_eq!(app.keys, vec!["cbor".to_string(), "ff10".to_string(), "hex".to_string()]);
    assert_eq!(app.focus, Focus::Keys);
    assert_eq!(app.selected, None);
    assert_eq!(app.scroll, 0);
    assert_eq!(app.selected_raw_key(), None);
}

#[test]
fn switch_then_three_nexts_scrolls_three_lines() {
    let mut app = app_with(4);
    assert!(app.handle(Input::Next));
    assert_eq!(app.selected, Some(0));
    assert_eq!(app.focus, Focus::Keys);
    app.handle(Input::SwitchFocus);
    for _ in 0..3 {
        app.handle(Input::Next);
    }
    assert_eq!(app.focus, Focus::Value);
    assert_eq!(app.scroll, 3);
    assert_eq!(app.selected, Some(0));
}

#[test]
fn next_stops_at_the_last_key() {
    let mut app = app_with(3);
    for _ in 0..10 {
        app.handle(Input::Next);
    }
    assert_eq!(app.selected, Some(2));
    assert_eq!(app.selected_raw_key(), Some(&b"key-2".to_vec()));
}

#[test]
fn previous_stops_at_the_first_key() {
    let mut app = app_with(3);
    app.handle(Input::Next);
    app.handle(Input::Next);
    for _ in 0..10 {
        app.handle(Input::Previous);
    }
    assert_eq!(app.selected, Some(0));
}

#[test]
fn previous_from_no_selection_picks_the_last_key() {
    let mut app = app_with(3);
    app.handle(Input::Previous);
    assert_eq!(app.selected, Some(2));
}

#[test]
fn empty_list_never_selects() {
    let mut app = app_with(0);
    app.handle(Input::Next);
    app.handle(Input::Previous);
    assert_eq!(app.selected, None);
    assert_eq!(app.selected_raw_key(), None);
}

#[test]
fn switching_focus_resets_scroll() {
    let mut app = app_with(2);
    app.handle(Input::SwitchFocus);
    for _ in 0..5 {
        app.handle(Input::Next);
    }
    assert_eq!(app.scroll, 5);
    app.handle(Input::Previous);
    assert_eq!(app.scroll, 4);
    app.handle(Input::SwitchFocus);
    assert_eq!(app.focus, Focus::Keys);
    assert_eq!(app.scroll, 0);
    app.handle(Input::SwitchFocus);
    assert_eq!(app.focus, Focus::Value);
    assert_eq!(app.scroll, 0);
}

#[test]
fn scroll_does_not_go_below_zero() {
    let mut app = app_with(1);
    app.handle(Input::SwitchFocus);
    app.handle(Input::Previous);
    assert_eq!(app.scroll, 0);
}

#[test]
fn scrolling_leaves_the_selection_alone() {
    let mut app = app_with(3);
    app.handle(Input::Next);
    app.handle(Input::SwitchFocus);
    app.handle(Input::Next);
    app.handle(Input::Previous);
    app.handle(Input::Next);
    assert_eq!(app.selected, Some(0));
    assert_eq!(app.scroll, 1);
}

#[test]
fn quit_and_ignored_inputs_change_nothing() {
    let mut app = app_with(2);
    app.handle(Input::Next);
    assert!(app.handle(Input::Ignored));
    assert!(!app.handle(Input::Quit));
    assert_eq!(app.selected, Some(0));
    assert_eq!(app.focus, Focus::Keys);
}

#[test]
fn key_events_map_to_inputs() {
    assert_eq!(input_of(true, Key::Char('q'), false), Input::Quit);
    assert_eq!(input_of(true, Key::Char('q'), true), Input::Quit);
    assert_eq!(input_of(true, Key::Char('p'), true), Input::Previous);
    assert_eq!(input_of(true, Key::Char('n'), true), Input::Next);
    assert_eq!(input_of(true, Key::Char('n'), false), Input::Ignored);
    assert_eq!(input_of(true, Key::Tab, false), Input::SwitchFocus);
    assert_eq!(input_of(true, Key::Tab, true), Input::SwitchFocus);
    assert_eq!(input_of(false, Key::Char('q'), false), Input::Ignored);
    assert_eq!(input_of(true, Key::Other, true), Input::Ignored);
}

#[test]
fn view_is_the_default_command() {
    assert_eq!(Command::default(), Command::View);
}
