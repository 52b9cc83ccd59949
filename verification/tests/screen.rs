use remote_log_tui::buffer::App;
use remote_log_tui::draw::{
    draw_k8s_view, draw_log_body, draw_log_status, draw_rows, tab_title,
};
use remote_log_tui::layout::{split_screen, Rect, Rows};
use remote_log_tui::style::{Color, Style};

fn plain(color: Color) -> Style {
    Style { fg: Some(color), bg: None, bold: false, italic: false }
}

fn area(height: u16) -> Rect {
    Rect { x: 0, y: 0, width: 80, height }
}

fn filled(n: usize) -> App {
    let mut app = App::new();
    for i in 0..n {
        app.push_line(format!("line {i}"));
    }
    app
}

#[test]
fn a_usual_terminal_is_divided() {
    let rows = split_screen(area(24));
    assert_eq!(rows.tabs, Rect { x: 0, y: 0, width: 80, height: 3 });
    assert_eq!(rows.log, Rect { x: 0, y: 3, width: 80, height: 20 });
    assert_eq!(rows.status, Rect { x: 0, y: 23, width: 80, height: 1 });
}

#[test]
fn areas_with_room_are_divided_exactly() {
    for height in (8..600u16).chain([1000, 4321, 32_767, 32_768, 60_000, 65_000]) {
        for (x, y, width) in [(0u16, 0u16, 80u16), (7, 13, 1), (2, 500, 0)] {
            let rows = split_screen(Rect { x, y, width, height });
            assert_eq!(rows.tabs, Rect { x, y, width, height: 3 });
            assert_eq!(rows.log, Rect { x, y: y + 3, width, height: height - 4 });
            assert_eq!(rows.status, Rect { x, y: y + height - 1, width, height: 1 });
        }
    }
    let highest = split_screen(area(u16::MAX));
    assert_eq!(highest.log.height, u16::MAX - 4);
}

#[test]
fn the_log_comes_first_in_a_low_area() {
    for height in 0..8u16 {
        for y in [0u16, 5, 60_000, u16::MAX - height] {
            let rows = split_screen(Rect { x: 3, y, width: 40, height });
            for row in [rows.tabs, rows.log, rows.status] {
                assert_eq!((row.x, row.width), (3, 40));
            }
            assert_eq!(rows.tabs.y, y);
            assert_eq!(rows.log.y, y + rows.tabs.height);
            assert_eq!(rows.status.y, rows.log.y + rows.log.height);
            assert_eq!(rows.status.y + rows.status.height, y + height);
            assert_eq!(rows.log.height, height.min(4));
            assert!(rows.tabs.height <= 3 && rows.status.height <= 1);
        }
    }
}

#[test]
fn an_area_ends_at_the_last_line_number() {
    for (y, height) in [
        (65_000u16, 2_000u16),
        (65_520, 65_535),
        (65_527, 9),
        (65_528, 8),
        (65_530, 100),
        (65_533, 3),
        (65_535, 1),
        (65_535, 65_535),
        (1, 65_535),
    ] {
        let rows = split_screen(Rect { x: 1, y, width: 9, height });
        for row in [rows.tabs, rows.log, rows.status] {
            assert_eq!((row.x, row.width), (1, 9));
        }
        let lines = height.min(u16::MAX - y);
        assert_eq!(rows.tabs.y, y);
        assert_eq!(rows.log.y, y + rows.tabs.height);
        assert_eq!(rows.status.y, rows.log.y + rows.log.height);
        assert_eq!(rows.status.y + rows.status.height, y + lines);
        if lines >= 8 {
            assert_eq!((rows.tabs.height, rows.status.height), (3, 1));
            assert_eq!(rows.log.height, lines - 4);
        } else {
            assert_eq!(rows.log.height, lines.min(4));
            assert!(rows.tabs.height <= 3 && rows.status.height <= 1);
        }
    }
}

#[test]
fn short_names_are_shown_in_full() {
    assert_eq!(tab_title("web", 14), " web ");
    assert_eq!(tab_title("exactly-14-chr", 14), " exactly-14-chr ");
    assert_eq!(tab_title("", 14), "  ");
    assert_eq!(tab_title("ééé", 3), " ééé ");
}

#[test]
fn long_names_are_cut() {
    assert_eq!(tab_title("fifteen-charact", 14), " fifteen-char… ");
    assert_eq!(tab_title("日本語のポッド", 5), " 日本語… ");
    assert_eq!(tab_title("abc", 2), " … ");
    assert_eq!(tab_title("abc", 1), " … ");
    assert_eq!(tab_title("abc", 0), " … ");
}

#[test]
fn the_log_pane_numbers_its_lines() {
    let body = draw_log_body(&filled(30), area(12), "logs · web");
    assert_eq!(body.title, " logs · web ");
    assert_eq!(body.border, Color::Cyan);
    assert!(body.trim);
    assert_eq!(body.area, area(12));
    assert_eq!(body.lines.len(), 10);
    assert_eq!(body.lines[0].number.text, "    21 │ ");
    assert_eq!(body.lines[0].number.style, plain(Color::DarkGray));
    assert_eq!(body.lines[0].text.text, "line 20");
    assert_eq!(body.lines[9].number.text, "    30 │ ");
    assert_eq!(body.lines[9].text.text, "line 29");
}

#[test]
fn lines_stand_out_while_following() {
    let mut app = filled(30);
    let body = draw_log_body(&app, area(12), "t");
    assert!(body.lines.iter().all(|l| l.text.style == plain(Color::LightGreen)));
    app.scroll_up(1);
    let body = draw_log_body(&app, area(12), "t");
    assert_eq!(body.lines.len(), 10);
    assert_eq!(body.lines[9].text.text, "line 28");
    assert!(body.lines.iter().all(|l| l.text.style == plain(Color::Gray)));
}

#[test]
fn an_empty_log_shows_no_lines() {
    assert!(draw_log_body(&App::new(), area(12), "t").lines.is_empty());
}

#[test]
fn the_status_is_yellow_and_italic() {
    let mut app = App::new();
    app.set_status("ready".to_string());
    let bar = draw_log_status(&app, area(1));
    assert_eq!(bar.area, area(1));
    assert_eq!(bar.content.text, "ready");
    assert_eq!(
        bar.content.style,
        Style { fg: Some(Color::Yellow), bg: None, bold: false, italic: true }
    );
}

#[test]
fn the_screen_shows_tabs_log_and_status() {
    let pods = vec!["api".to_string(), "a-rather-long-pod-name".to_string()];
    let view = draw_k8s_view(area(24), "prod", &pods, 1, &filled(3), "banner");
    assert_eq!(view.tabs.title, " Pods · ns/prod ");
    assert_eq!(view.tabs.titles, vec![" api ", " a-rather-lon… "]);
    assert_eq!(view.tabs.selected, 1);
    assert_eq!(view.tabs.border, Color::Magenta);
    assert_eq!(view.tabs.style, plain(Color::White));
    assert_eq!(
        view.tabs.highlight,
        Style { fg: Some(Color::Black), bg: Some(Color::Cyan), bold: true, italic: false }
    );
    assert_eq!(view.tabs.divider, "|");
    assert_eq!(view.tabs.area.height, 3);
    assert_eq!(view.log.title, " logs · a-rather-long-pod-name ");
    assert_eq!(view.log.area.height, 20);
    assert_eq!(view.log.lines.len(), 3);
    assert_eq!(
        view.status.content.text,
        "banner   ←/→ pod · ↑/↓ log · g tail · r reload pods · q quit"
    );
    assert_eq!(view.status.area.y, 23);
}

#[test]
fn a_selection_beyond_the_tabs_shows_the_last_one() {
    let pods = vec!["a".to_string(), "b".to_string()];
    let view = draw_k8s_view(area(24), "ns", &pods, 9, &App::new(), "");
    assert_eq!(view.tabs.selected, 1);
    assert_eq!(view.log.title, " logs · b ");
}

#[test]
fn an_empty_namespace_says_so() {
    let view = draw_k8s_view(area(24), "ns", &[], 3, &App::new(), "");
    assert_eq!(view.tabs.titles, vec![" (no pods in namespace) "]);
    assert_eq!(view.tabs.selected, 0);
    assert_eq!(view.log.title, " no pods ");
}

#[test]
fn the_parts_take_the_rows_they_are_given() {
    let rows = Rows { tabs: area(1), log: area(5), status: area(2) };
    let view = draw_rows(rows, "ns", &["p".to_string()], 0, &filled(9), "b");
    assert_eq!(view.tabs.area, area(1));
    assert_eq!(view.log.area, area(5));
    assert_eq!(view.status.area, area(2));
    assert_eq!(view.log.lines.len(), 3);
    assert_eq!(view.log.lines[2].text.text, "line 8");
}

#[test]
fn tabs_have_a_bounded_width() {
    for max_chars in 1..20usize {
        for name in ["", "a", "ab", "a-name-of-some-length", "ÄÖÜ"] {
            assert!(tab_title(name, max_chars).chars().count() <= max_chars + 2);
        }
    }
}
