use remote_log_tui::buffer::{App, MAX_BUFFER_LINES};
use remote_log_tui::layout::Rect;

fn filled(n: usize) -> App {
    let mut app = App::new();
    for i in 0..n {
        app.push_line(format!("line {i}"));
    }
    app
}

fn area(height: u16) -> Rect {
    Rect { x: 0, y: 0, width: 80, height }
}

#[test]
fn a_new_buffer_is_empty_and_follows() {
    let app = App::new();
    assert_eq!(app.line_count(), 0);
    assert!(app.follows_tail());
    assert_eq!(app.scroll_offset(), 0);
    assert_eq!(app.status(), "");
    assert_eq!(app.visible_slice(area(24)), (0, 0));
}

#[test]
fn lines_are_kept_in_order() {
    let app = filled(3);
    assert_eq!(app.line_count(), 3);
    assert_eq!(app.line(0), "line 0");
    assert_eq!(app.line(2), "line 2");
}

#[test]
fn the_oldest_line_leaves_a_full_buffer() {
    let mut app = filled(MAX_BUFFER_LINES);
    assert_eq!(app.line_count(), 20_000);
    assert_eq!(app.line(0), "line 0");
    app.push_line("new".to_string());
    assert_eq!(app.line_count(), 20_000);
    assert_eq!(app.line(0), "line 1");
    assert_eq!(app.line(19_999), "new");
}

#[test]
fn page_height_leaves_room_for_borders() {
    let app = App::new();
    assert_eq!(app.page_height(area(20)), 18);
    assert_eq!(app.page_height(area(2)), 0);
    assert_eq!(app.page_height(area(0)), 0);
    assert_eq!(app.page_height(area(u16::MAX)), 65_533);
}

#[test]
fn following_shows_the_last_page() {
    let app = filled(50);
    assert_eq!(app.visible_slice(area(12)), (40, 50));
    assert_eq!(app.visible_slice(area(1)), (49, 50));
    assert_eq!(app.visible_slice(area(200)), (0, 50));
}

#[test]
fn scrolling_up_stops_following() {
    let mut app = filled(50);
    app.scroll_up(5);
    assert!(!app.follows_tail());
    assert_eq!(app.scroll_offset(), 5);
    assert_eq!(app.visible_slice(area(12)), (35, 45));
}

#[test]
fn scrolling_up_stops_at_the_oldest_line() {
    let mut app = filled(50);
    app.scroll_up(1000);
    assert_eq!(app.scroll_offset(), 49);
    assert_eq!(app.visible_slice(area(12)), (0, 1));
}

#[test]
fn scrolling_up_an_empty_buffer_only_stops_following() {
    let mut app = App::new();
    app.scroll_up(3);
    assert!(!app.follows_tail());
    assert_eq!(app.scroll_offset(), 0);
}

#[test]
fn scrolling_down_to_the_end_follows_again() {
    let mut app = filled(50);
    app.scroll_up(5);
    app.scroll_down(3);
    assert!(!app.follows_tail());
    assert_eq!(app.scroll_offset(), 2);
    app.scroll_down(7);
    assert!(app.follows_tail());
    assert_eq!(app.scroll_offset(), 0);
}

#[test]
fn scrolling_down_undoes_scrolling_up() {
    let mut app = filled(50);
    app.scroll_up(10);
    app.scroll_up(7);
    app.scroll_down(7);
    assert_eq!(app.scroll_offset(), 10);
    assert!(!app.follows_tail());
    app.scroll_down(10);
    assert!(app.follows_tail());
}

#[test]
fn two_scrolls_add_up() {
    let mut twice = filled(50);
    twice.scroll_up(3);
    twice.scroll_up(4);
    let mut once = filled(50);
    once.scroll_up(7);
    assert_eq!(twice.scroll_offset(), once.scroll_offset());
    twice.scroll_down(1);
    twice.scroll_down(2);
    once.scroll_down(3);
    assert_eq!(twice.scroll_offset(), once.scroll_offset());
}

#[test]
fn the_head_shows_the_oldest_line() {
    let mut app = filled(50);
    app.jump_to_head();
    assert!(!app.follows_tail());
    assert_eq!(app.visible_slice(area(12)), (0, 1));
    app.snap_to_tail();
    assert!(app.follows_tail());
    assert_eq!(app.visible_slice(area(12)), (40, 50));
}

#[test]
fn a_scrolled_window_keeps_its_distance_from_the_bottom() {
    let mut app = filled(50);
    app.scroll_up(5);
    app.push_line("new".to_string());
    assert_eq!(app.visible_slice(area(12)), (36, 46));
}

#[test]
fn clearing_keeps_the_scroll_position() {
    let mut app = filled(50);
    app.scroll_up(5);
    app.clear_lines();
    assert_eq!(app.line_count(), 0);
    assert_eq!(app.scroll_offset(), 5);
    assert!(!app.follows_tail());
    assert_eq!(app.visible_slice(area(12)), (0, 0));
    app.push_line("one".to_string());
    assert_eq!(app.visible_slice(area(12)), (0, 0));
}

#[test]
fn a_restart_is_empty_and_follows() {
    let mut app = filled(50);
    app.scroll_up(5);
    app.restart();
    assert_eq!(app.line_count(), 0);
    assert_eq!(app.scroll_offset(), 0);
    assert!(app.follows_tail());
}

#[test]
fn the_status_is_replaced() {
    let mut app = filled(1);
    app.set_status("busy".to_string());
    assert_eq!(app.status(), "busy");
    assert_eq!(app.line_count(), 1);
}

#[test]
fn scrolling_up_undoes_scrolling_down() {
    let mut app = filled(50);
    app.scroll_up(20);
    app.scroll_down(8);
    app.scroll_up(8);
    assert_eq!(app.scroll_offset(), 20);
    assert!(!app.follows_tail());
}

#[test]
fn a_line_moves_the_window_by_one() {
    let mut app = filled(50);
    app.scroll_up(1);
    assert_eq!(app.visible_slice(area(12)), (39, 49));
    app.scroll_up(1);
    assert_eq!(app.visible_slice(area(12)), (38, 48));
    app.scroll_down(1);
    assert_eq!(app.visible_slice(area(12)), (39, 49));
}

#[test]
fn each_arrival_is_shown_while_following() {
    let mut app = filled(50);
    app.push_line("new".to_string());
    let (start, end) = app.visible_slice(area(12));
    assert_eq!((start, end), (41, 51));
    assert_eq!(app.line(end - 1), "new");
}

#[test]
fn a_following_window_comes_back_from_the_head() {
    let mut app = filled(50);
    app.scroll_up(1000);
    app.scroll_down(1000);
    assert!(app.follows_tail());
    assert_eq!(app.scroll_offset(), 0);
    app.jump_to_head();
    app.scroll_down(1000);
    app.scroll_up(1000);
    assert_eq!(app.scroll_offset(), 49);
}
