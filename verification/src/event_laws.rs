//! What each event does to the dashboard.

use vstd::prelude::*;

use crate::k8s::{LogRequest, PodListRequest};
use crate::keys::{keys_and_their_commands, Key, KeyCode};
use crate::names::{name_le, name_order, name_order_is_total, sorted_names_are_ordered};
use crate::text::decimal;
use crate::tui::{
    next_reader, opened, opening_action, page_step, pod_banner, shows_client_error,
    shows_list_error, Action, ActionModel, DashboardModel, Direction, ErrorScreen, Event,
    EventModel, TICK_MILLIS,
};

verus! {

/// What an event or an action says is what it was made of.
pub proof fn events_say_what_they_hold(
    text: String,
    names: Vec<String>,
    key: Key,
    direction: Direction,
    number: u64,
    height: u16,
    log: LogRequest,
    pods: PodListRequest,
)
    ensures
        Event::Line(number, text)@ == EventModel::Line(number, text@),
        Event::Reloaded(Err(text))@ == EventModel::Reloaded(Err(text@)),
        Event::Reloaded(Ok(names))@ matches EventModel::Reloaded(Ok(listed)) && listed.len()
            == names@.len() && forall|i: int|
            0 <= i < names@.len() ==> #[trigger] listed[i] == names@[i]@,
        Event::Key(key)@ == EventModel::Key(key),
        Event::Height(direction, height)@ == EventModel::Height(direction, height),
        Event::Tick@ == EventModel::Tick,
        Action::Wait@ == ActionModel::Wait,
        Action::Quit@ == ActionModel::Quit,
        Action::Follow(number, log)@ == ActionModel::Follow(number, log@),
        Action::Unfollow@ == ActionModel::Unfollow,
        Action::ListPods(pods)@ == ActionModel::ListPods(pods@),
        Action::Measure(direction)@ == ActionModel::Measure(direction),
{
}

/// The key for the next tab selects the one after the selected tab, and its log is read. At the last
/// tab, and without a pod, it does nothing.
pub proof fn the_right_key_selects_the_next_tab(d: DashboardModel, modifiers: u8)
    requires
        d.well_formed(),
    ensures
        ({
            let (next, action) = d.step(
                EventModel::Key(Key { code: KeyCode::Right, modifiers: modifiers }),
            );
            &&& d.selected + 1 < d.pods.len() ==> {
                &&& next.selected == d.selected + 1
                &&& next.pods == d.pods
                &&& next.followed == Some(d.pods[d.selected + 1])
                &&& action is Follow
            }
            &&& d.selected + 1 >= d.pods.len() ==> next == d && action == ActionModel::Wait
        }),
{
}

/// The key for the previous tab selects the one before the selected tab, or the first one again, and
/// its log is read. Without a pod it does nothing.
pub proof fn the_left_key_selects_the_previous_tab(d: DashboardModel, modifiers: u8)
    requires
        d.well_formed(),
    ensures
        ({
            let (next, action) = d.step(
                EventModel::Key(Key { code: KeyCode::Left, modifiers: modifiers }),
            );
            &&& d.selected > 0 ==> {
                &&& next.selected == d.selected - 1
                &&& next.pods == d.pods
                &&& next.followed == Some(d.pods[d.selected - 1])
                &&& action is Follow
            }
            &&& d.selected == 0 && d.pods.len() > 0 ==> {
                &&& next.selected == 0
                &&& next.pods == d.pods
                &&& next.followed == Some(d.pods[0])
                &&& action is Follow
            }
            &&& d.pods.len() == 0 ==> next == d && action == ActionModel::Wait
        }),
{
}

/// A reload that brings pods keeps the selected index where it can: with fewer pods than that, the
/// last one is selected. The log of the selected pod is read.
pub proof fn a_reload_keeps_the_selected_index(d: DashboardModel, names: Seq<Seq<char>>)
    requires
        d.well_formed(),
        names.len() > 0,
    ensures
        ({
            let (next, action) = d.step(EventModel::Reloaded(Ok(names)));
            &&& next.pods.len() == names.len()
            &&& d.selected < names.len() ==> next.selected == d.selected
            &&& d.selected >= names.len() ==> next.selected == names.len() - 1
            &&& next.followed == Some(next.pods[next.selected])
            &&& action is Follow
        }),
{
    sorted_names_are_ordered(names);
}

/// After a reload no pod comes before one that its tab stands left of.
pub proof fn a_reload_puts_the_tabs_in_order(
    d: DashboardModel,
    names: Seq<Seq<char>>,
    i: int,
    j: int,
)
    requires
        0 <= i < j < names.len(),
    ensures
        ({
            let pods = d.step(EventModel::Reloaded(Ok(names))).0.pods;
            &&& name_le(pods[i], pods[j])
            &&& name_le(pods[j], pods[i]) ==> pods[i] == pods[j]
        }),
{
    let pods = d.step(EventModel::Reloaded(Ok(names))).0.pods;
    sorted_names_are_ordered(names);
    name_order_is_total();
    assert(name_order()(pods[i], pods[j]));
    if name_le(pods[j], pods[i]) {
        assert(name_order()(pods[j], pods[i]));
    }
}

/// A reload without pods leaves no tab and no line. No pod is followed, and the banner says so. The
/// window, the number of the last log reader and what was asked for at the start stay.
pub proof fn a_reload_without_pods_leaves_no_tab(d: DashboardModel, names: Seq<Seq<char>>)
    requires
        names.len() == 0,
    ensures
        ({
            let (next, action) = d.step(EventModel::Reloaded(Ok(names)));
            &&& action == ActionModel::Unfollow
            &&& next.pods.len() == 0
            &&& next.selected == 0
            &&& next.followed == None::<Seq<char>>
            &&& next.log.lines.len() == 0
            &&& next.log.follow_tail == d.log.follow_tail
            &&& next.log.scroll_from_bottom == d.log.scroll_from_bottom
            &&& next.reader == d.reader
            &&& next.banner == "local kube · ns/"@ + d.namespace + " · "@ + decimal(0)
                + " pod(s)"@
        }),
{
}

/// What was asked for at the start and the status of the log never change, and the pods change with
/// a reload only.
pub proof fn what_was_asked_for_stays(d: DashboardModel, event: EventModel)
    ensures
        d.step(event).0.namespace == d.namespace,
        d.step(event).0.container == d.container,
        d.step(event).0.tail_lines == d.tail_lines,
        d.step(event).0.log.status == d.log.status,
        !(event matches EventModel::Reloaded(Ok(_))) ==> d.step(event).0.pods == d.pods,
{
}

/// A log reader is started with the next number, for the selected pod, in the namespace and the
/// container that were asked for and with that much history. The log then is empty and follows its
/// tail, and the banner counts the pods.
pub proof fn a_new_reader_reads_the_selected_pod(d: DashboardModel, event: EventModel)
    requires
        d.well_formed(),
    ensures
        ({
            let (next, action) = d.step(event);
            action matches ActionModel::Follow(reader, request) ==> {
                &&& d.reader < u64::MAX ==> reader == d.reader + 1
                &&& d.reader == u64::MAX ==> reader == 0
                &&& next.reader == reader
                &&& 0 <= next.selected < next.pods.len()
                &&& next.followed == Some(next.pods[next.selected])
                &&& request.pod == next.pods[next.selected]
                &&& request.namespace == d.namespace
                &&& request.container == d.container
                &&& request.tail_lines == d.tail_lines
                &&& request.follow
                &&& next.log.lines.len() == 0
                &&& next.log.follow_tail
                &&& next.log.scroll_from_bottom == 0
                &&& next.banner == "local kube · ns/"@ + d.namespace + " · "@ + decimal(
                    next.pods.len(),
                ) + " pod(s)"@
            }
        }),
{
    if let EventModel::Reloaded(Ok(names)) = event {
        sorted_names_are_ordered(names);
    }
}

/// Unless a log reader is started or stopped, the tabs, the followed pod and the number of its reader
/// stay, and so does the banner but for a reload that fails.
pub proof fn the_tabs_change_with_the_reader_only(d: DashboardModel, event: EventModel)
    requires
        !(d.step(event).1 is Follow),
        !(d.step(event).1 is Unfollow),
    ensures
        ({
            let next = d.step(event).0;
            &&& next.pods == d.pods
            &&& next.selected == d.selected
            &&& next.followed == d.followed
            &&& next.reader == d.reader
            &&& !(event is Reloaded) ==> next.banner == d.banner
            &&& event matches EventModel::Reloaded(Err(error)) ==> next.banner
                == "reload failed: "@ + error
        }),
{
}

/// Which events start or stop a log reader, list the pods, measure the terminal or quit. After any
/// other one there is nothing more to do.
pub proof fn what_each_event_asks_for(d: DashboardModel, event: EventModel)
    requires
        d.well_formed(),
    ensures
        ({
            let action = d.step(event).1;
            match event {
                EventModel::Reloaded(Ok(names)) => if names.len() == 0 {
                    action == ActionModel::Unfollow
                } else {
                    action is Follow
                },
                EventModel::Key(key) => match key.code {
                    KeyCode::Left => if d.pods.len() == 0 {
                        action == ActionModel::Wait
                    } else {
                        action is Follow
                    },
                    KeyCode::Right => if d.selected + 1 < d.pods.len() {
                        action is Follow
                    } else {
                        action == ActionModel::Wait
                    },
                    KeyCode::Esc => action == ActionModel::Quit,
                    KeyCode::PageUp => action == ActionModel::Measure(Direction::Up),
                    KeyCode::PageDown => action == ActionModel::Measure(Direction::Down),
                    KeyCode::Char(c) => if c == 'q' || c == 'c' && (key.modifiers / 2) % 2 == 1 {
                        action == ActionModel::Quit
                    } else if c == 'r' {
                        action matches ActionModel::ListPods(list) && list.namespace == d.namespace
                            && list.limit == 500
                    } else {
                        action == ActionModel::Wait
                    },
                    _ => action == ActionModel::Wait,
                },
                _ => action == ActionModel::Wait,
            }
        }),
{
    if let EventModel::Key(key) = event {
        keys_and_their_commands(key.modifiers, KeyCode::Other);
    }
}

/// The keys that scroll by a line: up, the offset grows by one until the oldest line is the last one
/// shown, and the tail is not followed any more; down, it shrinks by one, and at zero the tail is
/// followed.
pub proof fn the_arrows_scroll_by_a_line(d: DashboardModel, modifiers: u8)
    requires
        d.well_formed(),
    ensures
        ({
            let up = d.step(EventModel::Key(Key { code: KeyCode::Up, modifiers: modifiers })).0.log;
            &&& up.lines == d.log.lines
            &&& !up.follow_tail
            &&& d.log.scroll_from_bottom + 1 < d.log.lines.len() ==> up.scroll_from_bottom
                == d.log.scroll_from_bottom + 1
            &&& d.log.scroll_from_bottom + 1 >= d.log.lines.len() > 0 ==> up.scroll_from_bottom
                == d.log.lines.len() - 1
            &&& d.log.lines.len() == 0 ==> up.scroll_from_bottom == 0
        }),
        ({
            let down = d.step(
                EventModel::Key(Key { code: KeyCode::Down, modifiers: modifiers }),
            ).0.log;
            &&& down.lines == d.log.lines
            &&& d.log.scroll_from_bottom > 1 ==> down.scroll_from_bottom == d.log.scroll_from_bottom
                - 1 && down.follow_tail == d.log.follow_tail
            &&& d.log.scroll_from_bottom <= 1 ==> down.scroll_from_bottom == 0 && down.follow_tail
        }),
{
}

/// The keys that jump: to the oldest line, or to the newest one, which is then followed.
pub proof fn the_jump_keys_go_to_the_ends(d: DashboardModel, modifiers: u8)
    requires
        d.well_formed(),
    ensures
        ({
            let oldest = d.step(
                EventModel::Key(Key { code: KeyCode::Home, modifiers: modifiers }),
            ).0.log;
            &&& oldest.lines == d.log.lines
            &&& !oldest.follow_tail
            &&& d.log.lines.len() > 0 ==> oldest.scroll_from_bottom == d.log.lines.len() - 1
            &&& d.log.lines.len() == 0 ==> oldest.scroll_from_bottom == 0
        }),
        ({
            let newest = d.step(
                EventModel::Key(Key { code: KeyCode::End, modifiers: modifiers }),
            ).0.log;
            &&& newest.lines == d.log.lines
            &&& newest.follow_tail
            &&& newest.scroll_from_bottom == 0
        }),
        ({
            let newest = d.step(
                EventModel::Key(Key { code: KeyCode::Char('g'), modifiers: modifiers }),
            ).0.log;
            &&& newest.lines == d.log.lines
            &&& newest.follow_tail
            &&& newest.scroll_from_bottom == 0
        }),
{
}

/// Once the terminal was measured, the log scrolls by a page: six lines less than the terminal has,
/// but by one line at least. Here `n` is that number.
pub proof fn a_page_is_six_lines_less_than_the_terminal(d: DashboardModel, height: u16, n: int)
    requires
        d.well_formed(),
        height >= 7 ==> n == height - 6,
        height < 7 ==> n == 1,
    ensures
        page_step(height) == n,
        ({
            let up = d.step(EventModel::Height(Direction::Up, height)).0.log;
            &&& up.lines == d.log.lines
            &&& !up.follow_tail
            &&& d.log.scroll_from_bottom + n < d.log.lines.len() ==> up.scroll_from_bottom
                == d.log.scroll_from_bottom + n
            &&& d.log.scroll_from_bottom + n >= d.log.lines.len() > 0 ==> up.scroll_from_bottom
                == d.log.lines.len() - 1
            &&& d.log.lines.len() == 0 ==> up.scroll_from_bottom == 0
        }),
        ({
            let down = d.step(EventModel::Height(Direction::Down, height)).0.log;
            &&& down.lines == d.log.lines
            &&& d.log.scroll_from_bottom > n ==> down.scroll_from_bottom == d.log.scroll_from_bottom
                - n && down.follow_tail == d.log.follow_tail
            &&& d.log.scroll_from_bottom <= n ==> down.scroll_from_bottom == 0 && down.follow_tail
        }),
{
}

/// A line of the current log reader goes to the end of the log, and of twenty thousand lines the
/// oldest one leaves. Another line changes nothing. Neither moves the window.
pub proof fn a_line_goes_to_the_end_of_the_log(d: DashboardModel, reader: u64, line: Seq<char>)
    requires
        d.well_formed(),
    ensures
        ({
            let next = d.step(EventModel::Line(reader, line)).0;
            &&& d.pods.len() > 0 && reader == d.reader && d.log.lines.len() < 20_000
                ==> next.log.lines == d.log.lines.push(line)
            &&& d.pods.len() > 0 && reader == d.reader && d.log.lines.len() == 20_000
                ==> next.log.lines == d.log.lines.drop_first().push(line)
            &&& d.pods.len() == 0 || reader != d.reader ==> next == d
            &&& next.log.follow_tail == d.log.follow_tail
            &&& next.log.scroll_from_bottom == d.log.scroll_from_bottom
        }),
{
    crate::buffer_laws::a_line_goes_to_the_end(d.log, line);
}

/// Any other key, like the passage of time, changes nothing; neither do the keys that list the pods,
/// measure the terminal or quit.
pub proof fn the_other_events_change_nothing(d: DashboardModel, key: Key)
    requires
        match key.code {
            KeyCode::Char(c) => c != 'g',
            KeyCode::Esc => true,
            KeyCode::PageUp => true,
            KeyCode::PageDown => true,
            KeyCode::Other => true,
            _ => false,
        },
    ensures
        d.step(EventModel::Key(key)).0 == d,
        d.step(EventModel::Tick) == (d, ActionModel::Wait),
{
}

/// The number of a log reader is one more than that of the one before, or zero after the last number.
pub proof fn reader_numbers_go_up_by_one(reader: u64)
    ensures
        reader < u64::MAX ==> next_reader(reader) == reader + 1,
        reader == u64::MAX ==> next_reader(reader) == 0,
{
}

/// The banner names the namespace and counts the pods.
pub proof fn the_banner_counts_the_pods(namespace: Seq<char>, pods: nat)
    ensures
        pod_banner(namespace, pods) == "local kube · ns/"@ + namespace + " · "@ + decimal(pods)
            + " pod(s)"@,
{
}

/// At the start the first tab is selected and the log is empty and follows its tail. With pods the
/// first one is followed by the first log reader. The tabs are the pods that were listed.
pub proof fn the_dashboard_opens_at_the_first_tab(
    namespace: Seq<char>,
    container: Option<Seq<char>>,
    tail_lines: int,
    pods: Seq<Seq<char>>,
)
    ensures
        ({
            let d = opened(namespace, container, tail_lines, pods);
            let action = opening_action(d);
            &&& d.namespace == namespace
            &&& d.container == container
            &&& d.tail_lines == tail_lines
            &&& d.pods == pods
            &&& d.selected == 0
            &&& d.log.lines.len() == 0
            &&& d.log.follow_tail
            &&& d.log.scroll_from_bottom == 0
            &&& d.log.status.len() == 0
            &&& d.banner == "local kube · ns/"@ + namespace + " · "@ + decimal(pods.len())
                + " pod(s)"@
            &&& pods.len() == 0 ==> {
                &&& d.followed == None::<Seq<char>>
                &&& d.reader == 0
                &&& action == ActionModel::Wait
            }
            &&& pods.len() > 0 ==> {
                &&& d.followed == Some(pods[0])
                &&& d.reader == 1
                &&& action matches ActionModel::Follow(reader, request) && reader == 1
                    && request.namespace == namespace && request.pod == pods[0]
                    && request.container == container && request.tail_lines == tail_lines
                    && request.follow
            }
        }),
{
}

/// Events are taken one after the other, in their order.
pub proof fn events_are_taken_in_order(
    d: DashboardModel,
    events: Seq<EventModel>,
    event: EventModel,
)
    ensures
        d.run(Seq::empty()) == d,
        d.run(events.push(event)) == d.run(events).step(event).0,
{
    assert(events.push(event).drop_last() =~= events);
}

/// A message that stays says what failed, with the reason and how to leave.
pub proof fn error_screens_say_what_failed(screen: ErrorScreen, error: Seq<char>)
    ensures
        shows_client_error(screen, error) <==> screen.title@ == " k8s "@ && screen.text@
            == "Kubernetes client error:\n\n"@ + error + "\n\nPress q to exit."@,
        shows_list_error(screen, error) <==> screen.title@ == " k8s "@ && screen.text@
            == "List pods failed:\n\n"@ + error + "\n\nPress q to exit."@,
{
}

/// Without other events the screen is drawn five times a second.
pub proof fn the_screen_is_drawn_five_times_a_second()
    ensures
        5 * TICK_MILLIS == 1000,
{
}

} // verus!
