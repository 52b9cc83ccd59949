//! What holds of the dashboard over its events.

use vstd::prelude::*;
use vstd::relations::sorted_by;

use crate::buffer::page_lines;
use crate::draw::{k8s_view, spaced};
use crate::k8s::followed_log;
use crate::keys::{is_quit_key, key_command, Command, Key};
use crate::layout::{screen_rows, Rect, Rows, LOG_MIN_HEIGHT, STATUS_HEIGHT, TABS_HEIGHT};
use crate::names::{name_order, sorted_names, sorted_names_are_ordered, sorted_names_are_unique};
use crate::tui::{
    opened, opening_action, page_step, ActionModel, DashboardModel, Direction, EventModel,
};

verus! {

/// Every event keeps the dashboard well-formed: the selected tab exists, the log that is read is
/// that of the selected pod, and the log keeps its bound and its scroll offset within it.
pub proof fn events_keep_the_dashboard_well_formed(d: DashboardModel, event: EventModel)
    requires
        d.well_formed(),
    ensures
        d.step(event).0.well_formed(),
{
    if let EventModel::Reloaded(Ok(names)) = event {
        sorted_names_are_ordered(names);
    }
}

/// Whatever happens after the start, the dashboard is well-formed.
pub proof fn dashboard_is_always_well_formed(
    namespace: Seq<char>,
    container: Option<Seq<char>>,
    tail_lines: int,
    pods: Seq<Seq<char>>,
    events: Seq<EventModel>,
)
    ensures
        opened(namespace, container, tail_lines, pods).run(events).well_formed(),
    decreases events.len(),
{
    if events.len() > 0 {
        dashboard_is_always_well_formed(
            namespace,
            container,
            tail_lines,
            pods,
            events.drop_last(),
        );
        events_keep_the_dashboard_well_formed(
            opened(namespace, container, tail_lines, pods).run(events.drop_last()),
            events.last(),
        );
    }
}

/// A log with lines shows at least one of them, on a terminal of any height.
pub proof fn a_log_with_lines_shows_some(d: DashboardModel, height: u16)
    requires
        d.well_formed(),
        d.log.lines.len() > 0,
    ensures
        d.log.window(height).len() > 0,
{
}

/// A log reader is only ever started for the pod that is selected then, in the namespace and the
/// container that were asked for and with that much history.
pub proof fn readers_follow_the_selected_pod(d: DashboardModel, event: EventModel)
    requires
        d.well_formed(),
    ensures
        d.step(event).1 matches ActionModel::Follow(_, request) ==> {
            &&& request == d.step(event).0.log_request()
            &&& d.step(event).0.followed == Some(request.pod)
            &&& request.namespace == d.namespace
            &&& request.container == d.container
            &&& request.tail_lines == d.tail_lines
            &&& request.follow
        },
{
}

/// Which pod is followed changes only with an action that starts or stops the log reader.
pub proof fn readers_change_by_actions_only(d: DashboardModel, event: EventModel)
    requires
        d.well_formed(),
        !(d.step(event).1 is Follow),
        !(d.step(event).1 is Unfollow),
    ensures
        d.step(event).0.followed == d.followed,
{
}

/// Without a pod no reader is started at first; else the first one is followed.
pub proof fn the_first_pod_is_followed(
    namespace: Seq<char>,
    container: Option<Seq<char>>,
    tail_lines: int,
    pods: Seq<Seq<char>>,
)
    ensures
        ({
            let d = opened(namespace, container, tail_lines, pods);
            &&& pods.len() == 0 ==> opening_action(d) == ActionModel::Wait
            &&& pods.len() > 0 ==> opening_action(d) == ActionModel::Follow(
                d.reader,
                followed_log(namespace, pods[0], container, tail_lines),
            )
        }),
{
}

/// A restart of the log reader starts with an empty log that follows its tail.
pub proof fn a_new_reader_starts_afresh(d: DashboardModel, event: EventModel)
    requires
        d.well_formed(),
        d.step(event).1 is Follow,
    ensures
        d.step(event).0.log.lines.len() == 0,
        d.step(event).0.log.follow_tail,
        d.step(event).0.log.scroll_from_bottom == 0,
{
}

/// The dashboard quits on a quit key and on nothing else.
pub proof fn only_quit_keys_quit(d: DashboardModel, event: EventModel)
    ensures
        d.step(event).1 is Quit <==> (event matches EventModel::Key(key) && is_quit_key(key)),
{
}

/// A key without a command, like the passage of time, changes nothing.
pub proof fn other_keys_change_nothing(d: DashboardModel, key: Key)
    requires
        key_command(key) == Command::Ignore,
    ensures
        d.step(EventModel::Key(key)) == (d, ActionModel::Wait),
        d.step(EventModel::Tick) == (d, ActionModel::Wait),
{
}

/// Lines and scrolling leave the tabs, the followed pod and the banner alone.
pub proof fn the_log_scrolls_on_its_own(d: DashboardModel, event: EventModel)
    requires
        match event {
            EventModel::Line(_, _) => true,
            EventModel::Height(_, _) => true,
            EventModel::Key(key) => {
                let command = key_command(key);
                ||| command == Command::FollowTail
                ||| command == Command::LineUp
                ||| command == Command::LineDown
                ||| command == Command::PageUp
                ||| command == Command::PageDown
                ||| command == Command::Oldest
                ||| command == Command::Newest
            },
            _ => false,
        },
    ensures
        d.step(event).0 == (DashboardModel { log: d.step(event).0.log, ..d }),
{
}

/// A key that does not restart the log keeps its lines.
pub proof fn keys_keep_the_lines(d: DashboardModel, key: Key)
    requires
        !(d.step(EventModel::Key(key)).1 is Follow),
    ensures
        d.step(EventModel::Key(key)).0.log.lines == d.log.lines,
{
}

/// The key for the next tab undoes the key for the previous one, except at the first of several
/// tabs.
pub proof fn next_undoes_previous(d: DashboardModel)
    requires
        d.well_formed(),
        d.selected > 0 || d.pods.len() <= 1,
    ensures
        d.commanded(Command::PreviousPod).0.commanded(Command::NextPod).0.selected == d.selected,
        d.commanded(Command::PreviousPod).0.commanded(Command::NextPod).0.followed == d.followed,
        d.commanded(Command::PreviousPod).0.commanded(Command::NextPod).0.pods == d.pods,
{
}

/// The key for the previous tab undoes the key for the next one, except at the last of several
/// tabs.
pub proof fn previous_undoes_next(d: DashboardModel)
    requires
        d.well_formed(),
        d.selected + 1 < d.pods.len() || d.pods.len() <= 1,
    ensures
        d.commanded(Command::NextPod).0.commanded(Command::PreviousPod).0.selected == d.selected,
        d.commanded(Command::NextPod).0.commanded(Command::PreviousPod).0.followed == d.followed,
        d.commanded(Command::NextPod).0.commanded(Command::PreviousPod).0.pods == d.pods,
{
}

/// At the last tab the key for the next one does nothing, and so do both keys without a pod.
pub proof fn tab_keys_stop_at_the_ends(d: DashboardModel)
    requires
        d.well_formed(),
    ensures
        d.selected + 1 >= d.pods.len() ==> d.commanded(Command::NextPod) == (d, ActionModel::Wait),
        d.pods.len() == 0 ==> d.commanded(Command::PreviousPod) == (d, ActionModel::Wait),
{
}

/// The tabs stay in ascending order.
pub proof fn tabs_stay_in_order(d: DashboardModel, event: EventModel)
    requires
        sorted_by(d.pods, name_order()),
    ensures
        sorted_by(d.step(event).0.pods, name_order()),
{
    if let EventModel::Reloaded(Ok(names)) = event {
        sorted_names_are_ordered(names);
    }
}

/// Whatever happens after a start with pods that a list brought, the tabs are in ascending order.
pub proof fn tabs_are_always_in_order(
    namespace: Seq<char>,
    container: Option<Seq<char>>,
    tail_lines: int,
    names: Seq<Seq<char>>,
    events: Seq<EventModel>,
)
    ensures
        sorted_by(
            opened(namespace, container, tail_lines, sorted_names(names)).run(events).pods,
            name_order(),
        ),
    decreases events.len(),
{
    if events.len() == 0 {
        sorted_names_are_ordered(names);
    } else {
        let earlier = events.drop_last();
        tabs_are_always_in_order(namespace, container, tail_lines, names, earlier);
        tabs_stay_in_order(
            opened(namespace, container, tail_lines, sorted_names(names)).run(earlier),
            events.last(),
        );
    }
}

/// A reload shows the pods that it brought, each as often as it was listed.
pub proof fn a_reload_shows_what_it_brought(d: DashboardModel, names: Seq<Seq<char>>)
    ensures
        d.step(EventModel::Reloaded(Ok(names))).0.pods.to_multiset() == names.to_multiset(),
{
    broadcast use vstd::seq_lib::group_to_multiset_ensures;

    sorted_names_are_ordered(names);
    if names.len() == 0 {
        assert(names =~= Seq::empty());
    }
}

/// A reload that brings the same pods keeps the tabs and the selected one.
pub proof fn a_reload_of_the_same_pods_keeps_the_tabs(d: DashboardModel, names: Seq<Seq<char>>)
    requires
        d.well_formed(),
        sorted_by(d.pods, name_order()),
        names.to_multiset() == d.pods.to_multiset(),
    ensures
        d.step(EventModel::Reloaded(Ok(names))).0.pods == d.pods,
        d.step(EventModel::Reloaded(Ok(names))).0.selected == d.selected,
        d.step(EventModel::Reloaded(Ok(names))).0.followed == d.followed,
{
    broadcast use vstd::seq_lib::group_to_multiset_ensures;

    sorted_names_are_unique(names, d.pods);
    sorted_names_are_ordered(names);
    if names.len() == 0 {
        assert(d.pods =~= Seq::empty());
    }
}

/// A reload that fails changes the banner only.
pub proof fn a_failed_reload_keeps_the_tabs(d: DashboardModel, error: Seq<char>)
    ensures
        d.step(EventModel::Reloaded(Err(error))) == (
            DashboardModel { banner: "reload failed: "@ + error, ..d },
            ActionModel::Wait,
        ),
{
}

/// A reload that brings no pod stops the log reader and empties the log.
pub proof fn a_reload_without_pods_stops_the_reader(d: DashboardModel)
    ensures
        d.step(EventModel::Reloaded(Ok(Seq::empty()))).1 == ActionModel::Unfollow,
        d.step(EventModel::Reloaded(Ok(Seq::empty()))).0.followed == None::<Seq<char>>,
        d.step(EventModel::Reloaded(Ok(Seq::empty()))).0.log.lines.len() == 0,
{
}

/// The tab that stands out is the selected one, and the log pane bears the name of the pod whose
/// log is read.
pub proof fn the_screen_names_the_followed_pod(d: DashboardModel, rows: Rows)
    requires
        d.well_formed(),
        d.pods.len() > 0,
    ensures
        ({
            let shown = k8s_view(rows, d.namespace, d.pods, d.selected, d.log, d.banner);
            &&& shown.tabs.titles.len() == d.pods.len()
            &&& shown.tabs.selected == d.selected
            &&& d.followed matches Some(pod) && shown.log.title == spaced("logs · "@ + pod)
        }),
{
}

/// The page keys scroll by as many lines as the log pane has room for, on a terminal whose lines all
/// count. The exception is one with room for the log pane, but not for the bars besides.
pub proof fn page_keys_scroll_by_the_page_shown(screen: Rect, rows: Rows)
    requires
        screen_rows(screen, rows),
        screen.y + screen.height <= u16::MAX,
        screen.height < LOG_MIN_HEIGHT || TABS_HEIGHT + LOG_MIN_HEIGHT + STATUS_HEIGHT
            <= screen.height,
    ensures
        page_step(screen.height) == page_lines(rows.log.height),
{
}

/// A page down undoes a page up on the same terminal: for a log that follows its tail in any case,
/// and for one that is scrolled as long as its oldest line did not stop it.
pub proof fn page_down_undoes_page_up(d: DashboardModel, height: u16)
    requires
        d.well_formed(),
        d.log.follow_tail || 0 < d.log.scroll_from_bottom <= d.log.top_offset() - page_step(
            height,
        ),
    ensures
        d.paged(Direction::Up, height).paged(Direction::Down, height) == d,
{
}

} // verus!
