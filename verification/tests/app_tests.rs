//! Behaviour of the focus navigator, the event dispatcher, and startup
//! loading.

use logtail::app::App;
use logtail::dash::DashViewMain;
use logtail::events::Directive;
use logtail::events::Event;
use logtail::events::InputKey;
use logtail::events::LoopEvent;
use logtail::monitor::LogMonitor;
use logtail::opt::Opt;

fn app_with_sources(names: &[&str], cap: usize) -> App {
    let opt = Opt {
        lines_max: cap,
        files: names.iter().map(|n| n.to_string()).collect(),
        ..Opt::default()
    };
    let mut app = App::new(opt);
    for (i, name) in names.iter().enumerate() {
        app.add_monitor(LogMonitor::new(name.to_string(), cap, i));
    }
    app
}

fn focused_name(app: &App) -> Option<String> {
    app.get_monitor_with_focus().map(|m| m.logfile.clone())
}

#[test]
fn monitors_keep_creation_order_and_index() {
    let app = app_with_sources(&["X", "Y", "Z"], 10);
    assert_eq!(app.logfile_names, vec!["X", "Y", "Z"]);
    for (i, m) in app.monitors.iter().enumerate() {
        assert_eq!(m.index, i);
        assert_eq!(m.logfile, app.logfile_names[i]);
        assert!(!m.has_focus);
    }
}

#[test]
fn next_from_unfocused_visits_sources_in_order_then_wraps() {
    let mut app = app_with_sources(&["X", "Y"], 10);
    assert_eq!(focused_name(&app), None);
    app.change_focus_next();
    assert_eq!(focused_name(&app).as_deref(), Some("X"));
    app.change_focus_next();
    assert_eq!(focused_name(&app).as_deref(), Some("Y"));
    // Boundary policy: wrap from the last source back to the first.
    app.change_focus_next();
    assert_eq!(focused_name(&app).as_deref(), Some("X"));
}

#[test]
fn count_minus_one_nexts_visit_every_source_once() {
    let mut app = app_with_sources(&["a", "b", "c", "d"], 10);
    app.change_focus_next();
    let mut seen = vec![focused_name(&app).unwrap()];
    for _ in 0..3 {
        app.change_focus_next();
        let name = focused_name(&app).unwrap();
        assert!(!seen.contains(&name));
        seen.push(name);
    }
    assert_eq!(seen, vec!["a", "b", "c", "d"]);
    app.change_focus_next();
    assert_eq!(focused_name(&app).as_deref(), Some("a"));
}

#[test]
fn previous_from_unfocused_enters_at_last_and_wraps_at_first() {
    let mut app = app_with_sources(&["X", "Y"], 10);
    app.change_focus_previous();
    assert_eq!(focused_name(&app).as_deref(), Some("Y"));
    app.change_focus_previous();
    assert_eq!(focused_name(&app).as_deref(), Some("X"));
    app.change_focus_previous();
    assert_eq!(focused_name(&app).as_deref(), Some("Y"));
}

#[test]
fn exactly_one_monitor_holds_the_focus_flag() {
    let mut app = app_with_sources(&["X", "Y", "Z"], 10);
    app.change_focus_next();
    app.change_focus_next();
    let flags: Vec<bool> = app.monitors.iter().map(|m| m.has_focus).collect();
    assert_eq!(flags, vec![false, true, false]);
}

#[test]
fn set_logfile_focus_on_debug_sentinel_flags_debug_window() {
    let mut app = app_with_sources(&["X"], 10);
    app.change_focus_next();
    app.set_logfile_focus(&"Debug Window".to_string());
    assert!(app.dash_state.debug_window_has_focus);
    assert_eq!(app.logfile_with_focus, "Debug Window");
    assert!(app.monitors.iter().all(|m| !m.has_focus));
}

#[test]
fn set_logfile_focus_on_unknown_name_clears_focus() {
    let mut app = app_with_sources(&["X"], 10);
    app.change_focus_next();
    app.set_logfile_focus(&"unknown".to_string());
    assert_eq!(app.logfile_with_focus, "");
    assert!(app.monitors.iter().all(|m| !m.has_focus));
    assert!(!app.dash_state.debug_window_has_focus);
}

#[test]
fn line_arrival_appends_to_its_monitor_only() {
    let mut app = app_with_sources(&["X", "Y"], 10);
    let d = app.handle_event(&LoopEvent::Line("X".to_string(), "hello".to_string()));
    assert!(matches!(d, Directive::Continue));
    assert_eq!(app.monitors[0].content.items, vec!["hello".to_string()]);
    assert!(app.monitors[1].content.items.is_empty());
}

#[test]
fn line_arrival_for_unregistered_source_is_ignored() {
    let mut app = app_with_sources(&["X"], 10);
    let d = app.handle_event(&LoopEvent::Line("nobody".to_string(), "hello".to_string()));
    assert!(matches!(d, Directive::Continue));
    assert!(app.monitors[0].content.items.is_empty());
}

#[test]
fn quit_key_yields_quit_even_beside_pending_line_arrivals() {
    // A line arrival and a quit input resolve in the same iteration:
    // whichever is dispatched first, the quit is still acted on.
    let mut app = app_with_sources(&["X"], 10);
    let first = app.handle_event(&LoopEvent::Line("X".to_string(), "data".to_string()));
    assert!(matches!(first, Directive::Continue));
    let second = app.handle_event(&LoopEvent::Worker(Event::Input(InputKey::Quit)));
    assert!(matches!(second, Directive::Quit));
    assert_eq!(app.monitors[0].content.items, vec!["data".to_string()]);
}

#[test]
fn layout_keys_switch_the_main_view() {
    let mut app = app_with_sources(&["X"], 10);
    let d = app.handle_event(&LoopEvent::Worker(Event::Input(InputKey::VerticalView)));
    assert!(matches!(d, Directive::Continue));
    assert!(matches!(app.dash_state.main_view, DashViewMain::DashVertical));
    app.handle_event(&LoopEvent::Worker(Event::Input(InputKey::HorizontalView)));
    assert!(matches!(app.dash_state.main_view, DashViewMain::DashHorizontal));
}

#[test]
fn closed_worker_channel_and_line_error_abort() {
    let mut app = app_with_sources(&["X"], 10);
    assert!(matches!(app.handle_event(&LoopEvent::WorkerClosed), Directive::Abort));
    assert!(matches!(app.handle_event(&LoopEvent::LineError), Directive::Abort));
}

#[test]
fn tick_and_unmapped_keys_change_nothing() {
    let mut app = app_with_sources(&["X"], 10);
    assert!(matches!(app.handle_event(&LoopEvent::Worker(Event::Tick)), Directive::Continue));
    assert!(matches!(
        app.handle_event(&LoopEvent::Worker(Event::Input(InputKey::Other))),
        Directive::Continue
    ));
    assert!(app.monitors[0].content.items.is_empty());
    assert_eq!(app.logfile_with_focus, "");
}

#[test]
fn arrow_keys_move_the_focused_monitors_cursor() {
    let mut app = app_with_sources(&["X"], 10);
    for line in ["a", "b", "c"] {
        app.handle_event(&LoopEvent::Line("X".to_string(), line.to_string()));
    }
    app.change_focus_next();
    assert_eq!(app.monitors[0].content.selected, Some(2));
    app.handle_event(&LoopEvent::Worker(Event::Input(InputKey::ArrowUp)));
    assert_eq!(app.monitors[0].content.selected, Some(1));
    app.handle_event(&LoopEvent::Worker(Event::Input(InputKey::ArrowDown)));
    assert_eq!(app.monitors[0].content.selected, Some(2));
    // Clamped: one more down stays at the newest line.
    app.handle_event(&LoopEvent::Worker(Event::Input(InputKey::ArrowDown)));
    assert_eq!(app.monitors[0].content.selected, Some(2));
}

#[test]
fn preloaded_source_matches_startup_scenario() {
    // One pre-existing file with lines a, b, c and capacity 2: the
    // initial buffer holds b, c with the cursor on the newest line.
    let mut app = app_with_sources(&["file.log"], 2);
    let existing = vec!["a".to_string(), "b".to_string(), "c".to_string()];
    app.monitors[0].load_initial(&existing);
    assert_eq!(app.monitors[0].content.items, vec!["b".to_string(), "c".to_string()]);
    assert_eq!(app.monitors[0].content.selected, Some(1));
}

#[test]
fn process_line_appends_like_append_to_content() {
    let mut m = LogMonitor::new("X".to_string(), 2, 0);
    m.process_line("one");
    m.append_to_content("two");
    m.process_line("three");
    assert_eq!(m.content.items, vec!["two".to_string(), "three".to_string()]);
}
