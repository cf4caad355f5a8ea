//! Behaviour of the display-area partitioning and remaining state types.

use logtail::app::do_bracketed_next_previous;
use logtail::buffer::ContentBuffer;
use logtail::dash::DashState;
use logtail::dash::DashViewMain;
use logtail::layout::make_percentage_constraints;
use logtail::opt::Opt;

#[test]
fn one_region_takes_the_whole_area() {
    assert_eq!(make_percentage_constraints(1), vec![100u16]);
}

#[test]
fn three_regions_give_the_last_the_remainder() {
    assert_eq!(make_percentage_constraints(3), vec![33u16, 33, 34]);
}

#[test]
fn seven_regions_sum_to_exactly_one_hundred() {
    let v = make_percentage_constraints(7);
    assert_eq!(v, vec![14u16, 14, 14, 14, 14, 14, 16]);
    assert_eq!(v.iter().map(|p| *p as u32).sum::<u32>(), 100);
}

#[test]
fn percentages_sum_to_one_hundred_for_many_counts() {
    for n in 1..40usize {
        let v = make_percentage_constraints(n);
        assert_eq!(v.len(), n);
        assert_eq!(v.iter().map(|p| *p as u32).sum::<u32>(), 100);
    }
}

#[test]
fn zero_monitors_give_no_regions() {
    assert!(make_percentage_constraints(0).is_empty());
}

#[test]
fn dash_state_starts_horizontal_without_debug_focus() {
    let d = DashState::new();
    assert!(matches!(d.main_view, DashViewMain::DashHorizontal));
    assert!(!d.debug_window);
    assert!(!d.debug_window_has_focus);
    assert!(d.debug_window_list.items.is_empty());
}

#[test]
fn debug_window_buffer_is_bounded_like_content() {
    let mut d = DashState::new();
    for i in 0..105 {
        d._debug_window(&format!("line {}", i));
    }
    assert_eq!(d.debug_window_list.items.len(), 100);
    assert_eq!(d.debug_window_list.items[0], "line 5");
    assert_eq!(d.debug_window_list.items[99], "line 104");
}

#[test]
fn bracketed_moves_clamp_without_wrapping() {
    let mut list = ContentBuffer::new(5);
    list.append("a".to_string());
    list.append("b".to_string());
    assert_eq!(list.selected, Some(1));
    do_bracketed_next_previous(&mut list, true);
    assert_eq!(list.selected, Some(1));
    do_bracketed_next_previous(&mut list, false);
    assert_eq!(list.selected, Some(0));
    do_bracketed_next_previous(&mut list, false);
    assert_eq!(list.selected, Some(0));
}

#[test]
fn opt_defaults_match_the_cli_surface() {
    let opt = Opt::default();
    assert_eq!(opt.lines_max, 100);
    assert_eq!(opt.tick_rate, 200);
    assert!(!opt.ignore_existing);
    assert!(opt.files.is_empty());
    assert!(!opt.debug_window);
}
