use remote_log_tui::k8s::{LogRequest, PodListRequest};
use remote_log_tui::keys::{Key, KeyCode};
use remote_log_tui::layout::Rect;
use remote_log_tui::tui::{Action, Dashboard, Direction, ErrorScreen, Event, Launch, Opening};

fn strings(names: &[&str]) -> Vec<String> {
    names.iter().map(|n| n.to_string()).collect()
}

fn open(names: &[&str]) -> (Dashboard, Action) {
    Dashboard::open("ns".to_string(), Some("app".to_string()), 200, strings(names))
}

fn press(d: &mut Dashboard, code: KeyCode) -> Action {
    d.handle(Event::Key(Key { code, modifiers: 0 }))
}

fn follow(reader: u64, pod: &str) -> Action {
    Action::Follow(
        reader,
        LogRequest {
            namespace: "ns".to_string(),
            pod: pod.to_string(),
            container: Some("app".to_string()),
            tail_lines: 200,
            follow: true,
        },
    )
}

fn feed(d: &mut Dashboard, n: usize) {
    for i in 0..n {
        let reader = d.reader();
        assert_eq!(d.handle(Event::Line(reader, format!("line {i}"))), Action::Wait);
    }
}

#[test]
fn the_first_pod_is_followed_at_the_start() {
    let (d, action) = open(&["a", "b"]);
    assert_eq!(action, follow(1, "a"));
    assert_eq!(d.reader(), 1);
    assert_eq!(d.pods(), &strings(&["a", "b"])[..]);
    assert_eq!(d.selected(), 0);
    assert_eq!(d.followed(), &Some("a".to_string()));
    assert_eq!(d.banner(), "local kube · ns/ns · 2 pod(s)");
    assert_eq!(d.log().line_count(), 0);
}

#[test]
fn without_pods_nothing_is_followed() {
    let (mut d, action) = open(&[]);
    assert_eq!(action, Action::Wait);
    assert_eq!(d.followed(), &None);
    assert_eq!(d.banner(), "local kube · ns/ns · 0 pod(s)");
    assert_eq!(press(&mut d, KeyCode::Left), Action::Wait);
    assert_eq!(press(&mut d, KeyCode::Right), Action::Wait);
    assert_eq!(d.selected(), 0);
}

#[test]
fn tab_keys_move_and_restart_the_log() {
    let (mut d, _) = open(&["a", "b", "c"]);
    feed(&mut d, 5);
    press(&mut d, KeyCode::Up);
    assert_eq!(press(&mut d, KeyCode::Right), follow(2, "b"));
    assert_eq!(d.selected(), 1);
    assert_eq!(d.followed(), &Some("b".to_string()));
    assert_eq!(d.log().line_count(), 0);
    assert!(d.log().follows_tail());
    assert_eq!(press(&mut d, KeyCode::Right), follow(3, "c"));
    assert_eq!(press(&mut d, KeyCode::Left), follow(4, "b"));
    assert_eq!(d.selected(), 1);
}

#[test]
fn the_last_tab_has_no_next_one() {
    let (mut d, _) = open(&["a", "b"]);
    press(&mut d, KeyCode::Right);
    feed(&mut d, 2);
    assert_eq!(press(&mut d, KeyCode::Right), Action::Wait);
    assert_eq!(d.selected(), 1);
    assert_eq!(d.log().line_count(), 2);
}

#[test]
fn the_first_tab_restarts_its_own_log() {
    let (mut d, _) = open(&["a", "b"]);
    feed(&mut d, 2);
    assert_eq!(press(&mut d, KeyCode::Left), follow(2, "a"));
    assert_eq!(d.selected(), 0);
    assert_eq!(d.log().line_count(), 0);
}

#[test]
fn quit_keys_quit() {
    let (mut d, _) = open(&["a"]);
    assert_eq!(press(&mut d, KeyCode::Char('q')), Action::Quit);
    assert_eq!(press(&mut d, KeyCode::Esc), Action::Quit);
    let control_c = Key { code: KeyCode::Char('c'), modifiers: 2 };
    assert_eq!(d.handle(Event::Key(control_c)), Action::Quit);
    assert_eq!(press(&mut d, KeyCode::Char('c')), Action::Wait);
    assert_eq!(d.followed(), &Some("a".to_string()));
}

#[test]
fn other_events_change_nothing() {
    let (mut d, _) = open(&["a"]);
    feed(&mut d, 3);
    assert_eq!(d.handle(Event::Tick), Action::Wait);
    assert_eq!(press(&mut d, KeyCode::Other), Action::Wait);
    assert_eq!(press(&mut d, KeyCode::Char('x')), Action::Wait);
    assert_eq!(d.log().line_count(), 3);
    assert_eq!(d.selected(), 0);
}

#[test]
fn line_keys_scroll_by_a_line() {
    let (mut d, _) = open(&["a"]);
    feed(&mut d, 10);
    press(&mut d, KeyCode::Up);
    press(&mut d, KeyCode::Up);
    assert_eq!(d.log().scroll_offset(), 2);
    assert!(!d.log().follows_tail());
    press(&mut d, KeyCode::Down);
    assert_eq!(d.log().scroll_offset(), 1);
    press(&mut d, KeyCode::Down);
    assert!(d.log().follows_tail());
}

#[test]
fn page_keys_measure_the_terminal() {
    let (mut d, _) = open(&["a"]);
    feed(&mut d, 100);
    assert_eq!(press(&mut d, KeyCode::PageUp), Action::Measure(Direction::Up));
    assert_eq!(d.log().scroll_offset(), 0);
    assert_eq!(d.handle(Event::Height(Direction::Up, 24)), Action::Wait);
    assert_eq!(d.log().scroll_offset(), 18);
    assert_eq!(press(&mut d, KeyCode::PageDown), Action::Measure(Direction::Down));
    d.handle(Event::Height(Direction::Down, 24));
    assert_eq!(d.log().scroll_offset(), 0);
    assert!(d.log().follows_tail());
}

#[test]
fn a_page_is_what_the_log_pane_shows() {
    let (mut d, _) = open(&["a"]);
    feed(&mut d, 100);
    let area = Rect { x: 0, y: 0, width: 80, height: 24 };
    let shown = d.screen(area);
    assert_eq!(shown.log.lines.len(), 18);
    assert_eq!(shown.log.lines[0].text.text, "line 82");
    d.handle(Event::Height(Direction::Up, 24));
    let above = d.screen(area);
    assert_eq!(above.log.lines[17].text.text, "line 81");
}

#[test]
fn a_page_of_a_low_terminal_is_a_line() {
    let (mut d, _) = open(&["a"]);
    feed(&mut d, 10);
    for (height, offset) in [(0u16, 1usize), (6, 2), (7, 3), (8, 5)] {
        d.handle(Event::Height(Direction::Up, height));
        assert_eq!(d.log().scroll_offset(), offset);
    }
}

#[test]
fn home_and_end_jump() {
    let (mut d, _) = open(&["a"]);
    feed(&mut d, 10);
    press(&mut d, KeyCode::Home);
    assert_eq!(d.log().scroll_offset(), 9);
    assert!(!d.log().follows_tail());
    press(&mut d, KeyCode::End);
    assert_eq!(d.log().scroll_offset(), 0);
    assert!(d.log().follows_tail());
    press(&mut d, KeyCode::Home);
    press(&mut d, KeyCode::Char('g'));
    assert!(d.log().follows_tail());
    assert_eq!(d.log().line_count(), 10);
}

#[test]
fn the_reload_key_lists_the_pods() {
    let (mut d, _) = open(&["a"]);
    assert_eq!(
        press(&mut d, KeyCode::Char('r')),
        Action::ListPods(PodListRequest { namespace: "ns".to_string(), limit: 500 })
    );
}

#[test]
fn a_reload_sorts_the_pods_and_keeps_the_tab() {
    let (mut d, _) = open(&["a", "b"]);
    press(&mut d, KeyCode::Right);
    feed(&mut d, 4);
    let action = d.handle(Event::Reloaded(Ok(strings(&["z", "y", "x"]))));
    assert_eq!(action, follow(3, "y"));
    assert_eq!(d.pods(), &strings(&["x", "y", "z"])[..]);
    assert_eq!(d.selected(), 1);
    assert_eq!(d.log().line_count(), 0);
    assert_eq!(d.banner(), "local kube · ns/ns · 3 pod(s)");
}

#[test]
fn a_reload_of_the_same_pods_keeps_the_selection() {
    let (mut d, _) = open(&["a", "b", "c"]);
    press(&mut d, KeyCode::Right);
    assert_eq!(d.handle(Event::Reloaded(Ok(strings(&["c", "a", "b"])))), follow(3, "b"));
    assert_eq!(d.selected(), 1);
    assert_eq!(d.pods(), &strings(&["a", "b", "c"])[..]);
}

#[test]
fn a_reload_with_fewer_pods_selects_the_last() {
    let (mut d, _) = open(&["a", "b", "c"]);
    press(&mut d, KeyCode::Right);
    press(&mut d, KeyCode::Right);
    assert_eq!(d.handle(Event::Reloaded(Ok(strings(&["q", "p"])))), follow(4, "q"));
    assert_eq!(d.selected(), 1);
}

#[test]
fn a_reload_without_pods_stops_the_log() {
    let (mut d, _) = open(&["a", "b"]);
    press(&mut d, KeyCode::Right);
    feed(&mut d, 8);
    press(&mut d, KeyCode::Up);
    assert_eq!(d.handle(Event::Reloaded(Ok(Vec::new()))), Action::Unfollow);
    assert_eq!(d.followed(), &None);
    assert_eq!(d.selected(), 0);
    assert!(d.pods().is_empty());
    assert_eq!(d.log().line_count(), 0);
    assert_eq!(d.log().scroll_offset(), 1);
    assert_eq!(d.banner(), "local kube · ns/ns · 0 pod(s)");
    assert_eq!(d.handle(Event::Reloaded(Ok(strings(&["n"])))), follow(3, "n"));
    assert!(d.log().follows_tail());
}

#[test]
fn a_failed_reload_only_changes_the_banner() {
    let (mut d, _) = open(&["a", "b"]);
    feed(&mut d, 3);
    assert_eq!(
        d.handle(Event::Reloaded(Err("list pods: gone".to_string()))),
        Action::Wait
    );
    assert_eq!(d.banner(), "reload failed: list pods: gone");
    assert_eq!(d.pods().len(), 2);
    assert_eq!(d.log().line_count(), 3);
    press(&mut d, KeyCode::Right);
    assert_eq!(d.banner(), "local kube · ns/ns · 2 pod(s)");
}

#[test]
fn lines_show_in_the_order_of_their_arrival() {
    let (mut d, _) = open(&["a"]);
    feed(&mut d, 20_003);
    assert_eq!(d.log().line_count(), 20_000);
    assert_eq!(d.log().line(0), "line 3");
    assert_eq!(d.log().line(19_999), "line 20002");
}

fn launch() -> Launch {
    Launch { namespace: "ns".to_string(), container: None, tail_lines: 5 }
}

#[test]
fn a_client_is_asked_for_the_pods() {
    match launch().after_connect(Ok(())) {
        Opening::ListPods(request) => {
            assert_eq!(
                request,
                PodListRequest { namespace: "ns".to_string(), limit: 500 }
            );
        }
        _ => panic!("the pods are listed first"),
    }
}

#[test]
fn a_failed_connection_shows_a_message() {
    match launch().after_connect(Err("kube config: no file".to_string())) {
        Opening::Failed(screen) => assert_eq!(
            screen,
            ErrorScreen {
                title: " k8s ".to_string(),
                text: "Kubernetes client error:\n\nkube config: no file\n\nPress q to exit."
                    .to_string(),
            }
        ),
        _ => panic!("the error is shown"),
    }
}

#[test]
fn a_failed_first_list_shows_a_message() {
    match launch().after_list(Err("list pods: no".to_string())) {
        Opening::Failed(screen) => {
            assert_eq!(screen.title, " k8s ");
            assert_eq!(
                screen.text,
                "List pods failed:\n\nlist pods: no\n\nPress q to exit."
            );
            assert!(screen.dismissed_by(Key { code: KeyCode::Esc, modifiers: 0 }));
            assert!(screen.dismissed_by(Key { code: KeyCode::Char('q'), modifiers: 0 }));
            assert!(screen.dismissed_by(Key { code: KeyCode::Char('c'), modifiers: 3 }));
            assert!(!screen.dismissed_by(Key { code: KeyCode::Char('c'), modifiers: 1 }));
            assert!(!screen.dismissed_by(Key { code: KeyCode::Up, modifiers: 0 }));
        }
        _ => panic!("the error is shown"),
    }
}

#[test]
fn the_listed_pods_open_the_dashboard() {
    match launch().after_list(Ok(strings(&["p"]))) {
        Opening::Running(dashboard, Action::Follow(1, request)) => {
            assert_eq!(dashboard.pods(), &strings(&["p"])[..]);
            assert_eq!(request.pod, "p");
            assert_eq!(request.tail_lines, 5);
            assert_eq!(request.container, None);
        }
        _ => panic!("the dashboard opens"),
    }
}

#[test]
fn the_screen_names_the_followed_pod() {
    let (mut d, _) = open(&["a", "b"]);
    press(&mut d, KeyCode::Right);
    let view = d.screen(Rect { x: 0, y: 0, width: 80, height: 24 });
    assert_eq!(view.tabs.titles, vec![" a ", " b "]);
    assert_eq!(view.tabs.selected, 1);
    assert_eq!(view.log.title, " logs · b ");
    assert!(view.status.content.text.starts_with("local kube · ns/ns · 2 pod(s)   "));
}

#[test]
fn the_followed_pod_is_the_selected_one_throughout() {
    let (mut d, _) = open(&["a", "b", "c"]);
    let keys = [
        KeyCode::Right,
        KeyCode::Up,
        KeyCode::Right,
        KeyCode::Home,
        KeyCode::Right,
        KeyCode::Left,
        KeyCode::Char('g'),
        KeyCode::Down,
    ];
    let lists: [&[&str]; 4] = [&["x"], &[], &["m", "k", "l", "j"], &["b", "a"]];
    for round in 0..40usize {
        press(&mut d, keys[round % keys.len()]);
        let reader = d.reader();
        d.handle(Event::Line(reader, format!("{round}")));
        if round % 5 == 4 {
            d.handle(Event::Reloaded(Ok(strings(lists[(round / 5) % lists.len()]))));
        }
        match d.followed() {
            Some(pod) => assert_eq!(pod, &d.pods()[d.selected()]),
            None => assert!(d.pods().is_empty() && d.selected() == 0),
        }
        let mut ordered = d.pods().to_vec();
        ordered.sort();
        assert_eq!(d.pods(), &ordered[..]);
        assert!(!d.log().follows_tail() || d.log().scroll_offset() == 0);
    }
}

#[test]
fn tab_keys_undo_each_other() {
    let (mut d, _) = open(&["a", "b", "c"]);
    press(&mut d, KeyCode::Right);
    press(&mut d, KeyCode::Left);
    assert_eq!((d.selected(), d.followed()), (0, &Some("a".to_string())));
    press(&mut d, KeyCode::Right);
    press(&mut d, KeyCode::Left);
    press(&mut d, KeyCode::Right);
    assert_eq!((d.selected(), d.followed()), (1, &Some("b".to_string())));
    let (mut alone, _) = open(&["a"]);
    press(&mut alone, KeyCode::Left);
    press(&mut alone, KeyCode::Right);
    assert_eq!(alone.selected(), 0);
}

#[test]
fn a_very_low_screen_pages_by_the_line_it_shows() {
    let (mut d, _) = open(&["a"]);
    feed(&mut d, 10);
    let shown = d.screen(Rect { x: 0, y: 0, width: 80, height: 3 });
    assert_eq!(shown.log.area.height, 3);
    assert_eq!(shown.log.lines.len(), 1);
    d.handle(Event::Height(Direction::Up, 3));
    assert_eq!(d.log().scroll_offset(), 1);
}

fn shown(d: &Dashboard) -> Vec<String> {
    (0..d.log().line_count()).map(|i| d.log().line(i).to_string()).collect()
}

#[test]
fn late_lines_of_a_replaced_reader_are_not_shown() {
    let (mut d, _) = open(&["a", "b"]);
    d.handle(Event::Line(1, "from a".to_string()));
    assert_eq!(press(&mut d, KeyCode::Right), follow(2, "b"));
    assert_eq!(d.handle(Event::Line(1, "late from a".to_string())), Action::Wait);
    assert!(shown(&d).is_empty());
    d.handle(Event::Line(2, "from b".to_string()));
    d.handle(Event::Line(1, "later from a".to_string()));
    d.handle(Event::Line(2, "more from b".to_string()));
    assert_eq!(shown(&d), strings(&["from b", "more from b"]));
    assert_eq!(press(&mut d, KeyCode::Left), follow(3, "a"));
    d.handle(Event::Line(1, "stale".to_string()));
    d.handle(Event::Line(2, "stale".to_string()));
    d.handle(Event::Line(3, "fresh".to_string()));
    assert_eq!(shown(&d), strings(&["fresh"]));
}

#[test]
fn late_lines_of_a_stopped_reader_are_not_shown() {
    let (mut d, _) = open(&["a"]);
    feed(&mut d, 3);
    assert_eq!(d.handle(Event::Reloaded(Ok(Vec::new()))), Action::Unfollow);
    assert_eq!(d.reader(), 1);
    assert_eq!(d.handle(Event::Line(1, "late".to_string())), Action::Wait);
    assert!(shown(&d).is_empty());
}

#[test]
fn without_a_reader_no_line_is_shown() {
    let (mut d, _) = open(&[]);
    assert_eq!(d.reader(), 0);
    d.handle(Event::Line(0, "stray".to_string()));
    assert!(shown(&d).is_empty());
}

#[test]
fn scrolling_and_failed_reloads_keep_the_reader() {
    let (mut d, _) = open(&["a", "b"]);
    d.handle(Event::Line(1, "one".to_string()));
    press(&mut d, KeyCode::Up);
    press(&mut d, KeyCode::Char('r'));
    d.handle(Event::Reloaded(Err("gone".to_string())));
    d.handle(Event::Line(1, "two".to_string()));
    assert_eq!(d.reader(), 1);
    assert_eq!(shown(&d), strings(&["one", "two"]));
}

#[test]
fn a_log_with_lines_shows_some() {
    let (mut d, _) = open(&["a", "b"]);
    feed(&mut d, 5);
    for code in [KeyCode::Home, KeyCode::Up, KeyCode::Up] {
        press(&mut d, code);
        assert_eq!(d.log().scroll_offset(), 4);
        for height in [8u16, 24, 60] {
            let area = Rect { x: 0, y: 0, width: 80, height };
            assert_eq!(d.screen(area).log.lines[0].text.text, "line 0");
        }
    }
    d.handle(Event::Reloaded(Ok(Vec::new())));
    d.handle(Event::Reloaded(Ok(strings(&["c"]))));
    feed(&mut d, 1);
    assert_eq!(d.log().visible_slice(Rect { x: 0, y: 0, width: 80, height: 0 }), (0, 1));
}
