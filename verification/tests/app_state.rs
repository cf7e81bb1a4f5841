use gpm_pcie_dashboard::app::{App, Args, ArgsError};
use gpm_pcie_dashboard::handler::{handle_key_event, KeyCode, KeyInput};
use gpm_pcie_dashboard::view::{parse_view_mode, view_mode_label, ViewMode, ViewParseError};

fn args(interval_ms: u64, history_points: usize, view: &str) -> Args {
    Args { gpus: vec![], interval_ms, history_points, view: view.to_string() }
}

fn app_with(view: &str) -> App {
    App::try_new(args(200, 600, view), "0.1.0".to_string()).unwrap()
}

fn key(code: KeyCode, ctrl: bool) -> KeyInput {
    KeyInput { code, ctrl }
}

#[test]
fn parse_view_mode_accepts_table_names() {
    for name in ["numbers", "number", "table", "v0.1"] {
        assert_eq!(parse_view_mode(name).unwrap(), ViewMode::Numbers);
    }
}

#[test]
fn parse_view_mode_accepts_chart_names() {
    for name in ["chart", "line", "graph", "v0.3"] {
        assert_eq!(parse_view_mode(name).unwrap(), ViewMode::Chart);
    }
}

#[test]
fn parse_view_mode_refuses_other_names() {
    for name in ["", "Numbers", "charts", "v0.2", "table "] {
        match parse_view_mode(name) {
            Err(ViewParseError::Invalid(n)) => assert_eq!(n, name),
            Ok(m) => panic!("accepted {name:?} as {m:?}"),
        }
    }
}

#[test]
fn view_parse_error_message() {
    let e = parse_view_mode("pie").unwrap_err();
    assert_eq!(e.message(), "invalid --view pie; use numbers or chart");
}

#[test]
fn view_labels() {
    assert_eq!(view_mode_label(ViewMode::Numbers), "v0.1 Numbers");
    assert_eq!(view_mode_label(ViewMode::Chart), "v0.3 Line Chart");
}

#[test]
fn try_new_builds_starting_state() {
    let app = App::try_new(args(1000, 10, "graph"), "9.9.9".to_string()).unwrap();
    assert!(!app.should_quit);
    assert_eq!(app.view_mode, ViewMode::Chart);
    assert_eq!(app.version, "9.9.9");
    assert_eq!(app.interval_ms, 1000);
    assert_eq!(app.history_points, 10);
    assert_eq!(app.vertical_scroll, 0);
    assert_eq!(app.scroll_content_length, 0);
}

#[test]
fn try_new_refuses_short_interval() {
    for ms in [0, 50, 100] {
        let e = App::try_new(args(ms, 600, "numbers"), String::new()).err().unwrap();
        assert!(matches!(e, ArgsError::IntervalTooShort));
        assert_eq!(e.message(), "--interval-ms must be >100; recommended values are 200 or 1000");
    }
    assert!(App::try_new(args(101, 600, "numbers"), String::new()).is_ok());
}

#[test]
fn try_new_refuses_empty_history() {
    let e = App::try_new(args(200, 0, "numbers"), String::new()).err().unwrap();
    assert!(matches!(e, ArgsError::NoHistoryPoints));
    assert_eq!(e.message(), "--history-points must be >0");
}

#[test]
fn try_new_refuses_unknown_view() {
    let e = App::try_new(args(200, 5, "bars"), String::new()).err().unwrap();
    assert!(matches!(e, ArgsError::InvalidView(_)));
    assert_eq!(e.message(), "invalid --view bars; use numbers or chart");
}

#[test]
fn try_new_checks_interval_first() {
    let e = App::try_new(args(10, 0, "bars"), String::new()).err().unwrap();
    assert!(matches!(e, ArgsError::IntervalTooShort));
    let e = App::try_new(args(200, 0, "bars"), String::new()).err().unwrap();
    assert!(matches!(e, ArgsError::NoHistoryPoints));
}

#[test]
fn toggle_twice_restores_view() {
    let mut app = app_with("numbers");
    app.toggle_view_mode();
    assert_eq!(app.view_mode, ViewMode::Chart);
    app.toggle_view_mode();
    assert_eq!(app.view_mode, ViewMode::Numbers);
}

#[test]
fn quit_sets_flag() {
    let mut app = app_with("numbers");
    app.quit();
    assert!(app.should_quit);
    assert_eq!(app.view_mode, ViewMode::Numbers);
}

#[test]
fn scrolling_stays_in_list() {
    let mut app = app_with("numbers");
    app.on_up();
    assert_eq!(app.vertical_scroll, 0);
    app.on_down(3);
    app.on_down(3);
    assert_eq!(app.vertical_scroll, 2);
    app.on_down(3);
    assert_eq!(app.vertical_scroll, 2);
    app.on_up();
    assert_eq!(app.vertical_scroll, 1);
    app.on_down(0);
    assert_eq!(app.vertical_scroll, 1);
}

#[test]
fn down_then_up_comes_back() {
    let mut app = app_with("numbers");
    app.on_down(5);
    let before = app.vertical_scroll;
    app.on_down(5);
    app.on_up();
    assert_eq!(app.vertical_scroll, before);
}

#[test]
fn sync_scroll_state_clamps_and_sizes() {
    let mut app = app_with("numbers");
    app.on_down(10);
    app.on_down(10);
    app.on_down(10);
    assert_eq!(app.vertical_scroll, 3);
    app.sync_scroll_state(2);
    assert_eq!(app.vertical_scroll, 1);
    assert_eq!(app.scroll_content_length, 2);
    app.sync_scroll_state(2);
    assert_eq!(app.vertical_scroll, 1);
    app.sync_scroll_state(0);
    assert_eq!(app.vertical_scroll, 0);
    assert_eq!(app.scroll_content_length, 0);
    app.sync_scroll_state(7);
    assert_eq!(app.vertical_scroll, 0);
    assert_eq!(app.scroll_content_length, 7);
}

#[test]
fn quit_keys() {
    for k in [key(KeyCode::Char('q'), false), key(KeyCode::Esc, false), key(KeyCode::Char('c'), true), key(KeyCode::Char('q'), true)] {
        let mut app = app_with("numbers");
        handle_key_event(k, &mut app, 4);
        assert!(app.should_quit, "{k:?}");
    }
    let mut app = app_with("numbers");
    handle_key_event(key(KeyCode::Char('c'), false), &mut app, 4);
    assert!(!app.should_quit);
}

#[test]
fn toggle_keys() {
    for k in [key(KeyCode::Tab, false), key(KeyCode::Char('v'), false), key(KeyCode::Char(' '), false)] {
        let mut app = app_with("numbers");
        handle_key_event(k, &mut app, 4);
        assert_eq!(app.view_mode, ViewMode::Chart, "{k:?}");
        assert!(!app.should_quit);
    }
}

#[test]
fn scroll_keys() {
    let mut app = app_with("numbers");
    handle_key_event(key(KeyCode::Down, false), &mut app, 4);
    handle_key_event(key(KeyCode::Char('j'), false), &mut app, 4);
    assert_eq!(app.vertical_scroll, 2);
    handle_key_event(key(KeyCode::Up, false), &mut app, 4);
    assert_eq!(app.vertical_scroll, 1);
    handle_key_event(key(KeyCode::Char('k'), false), &mut app, 4);
    assert_eq!(app.vertical_scroll, 0);
}

#[test]
fn other_keys_change_nothing() {
    for k in [key(KeyCode::Other, false), key(KeyCode::Char('x'), false), key(KeyCode::Char('j'), true)] {
        let mut app = app_with("chart");
        handle_key_event(k, &mut app, 4);
        assert!(!app.should_quit);
        assert_eq!(app.view_mode, ViewMode::Chart);
        assert_eq!(app.vertical_scroll, if k.code == KeyCode::Char('j') { 1 } else { 0 });
    }
}
