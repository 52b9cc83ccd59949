//! Whose lines the dashboard shows: those of the log reader that runs for the selected pod.

use vstd::prelude::*;

use crate::buffer::{newest, LogModel, MAX_BUFFER_LINES};
use crate::buffer_laws::buffer_holds_the_newest_lines;
use crate::tui::{next_reader, opened, ActionModel, DashboardModel, EventModel};
use crate::tui_laws::{dashboard_is_always_well_formed, events_keep_the_dashboard_well_formed};

verus! {

/// How many numbers there are for log readers.
#[verifier::inline]
pub open spec fn reader_numbers() -> int {
    0x1_0000_0000_0000_0000
}

/// The lines that the log reader of that number brought, in the order of their arrival.
pub open spec fn lines_of(reader: u64, events: Seq<EventModel>) -> Seq<Seq<char>>
    decreases events.len(),
{
    if events.len() == 0 {
        Seq::empty()
    } else {
        let earlier = lines_of(reader, events.drop_last());
        match events.last() {
            EventModel::Line(from, line) => if from == reader {
                earlier.push(line)
            } else {
                earlier
            },
            _ => earlier,
        }
    }
}

/// The action starts or stops a log reader.
pub open spec fn changes_reader(action: ActionModel) -> bool {
    action is Follow || action is Unfollow
}

/// No action that the events lead to starts or stops a log reader.
pub open spec fn keeps_reader(d: DashboardModel, events: Seq<EventModel>) -> bool
    decreases events.len(),
{
    if events.len() == 0 {
        true
    } else {
        let earlier = events.drop_last();
        keeps_reader(d, earlier) && !changes_reader(d.run(earlier).step(events.last()).1)
    }
}

/// How many log readers the events start.
pub open spec fn readers_started(d: DashboardModel, events: Seq<EventModel>) -> nat
    decreases events.len(),
{
    if events.len() == 0 {
        0
    } else {
        let earlier = events.drop_last();
        readers_started(d, earlier) + if d.run(earlier).step(events.last()).1 is Follow {
            1nat
        } else {
            0nat
        }
    }
}

/// A line of a log reader that was stopped or replaced changes nothing, however late it comes.
pub proof fn only_the_current_reader_is_shown(d: DashboardModel, reader: u64, line: Seq<char>)
    requires
        d.followed is None || reader != d.reader,
    ensures
        d.step(EventModel::Line(reader, line)) == (d, ActionModel::Wait),
{
}

/// A line of the current log reader is added to the log, and nothing else changes.
pub proof fn the_current_reader_is_shown(d: DashboardModel, line: Seq<char>)
    requires
        d.followed is Some,
    ensures
        d.step(EventModel::Line(d.reader, line)) == (
            DashboardModel { log: d.log.pushed(line), ..d },
            ActionModel::Wait,
        ),
{
}

/// A log reader that is started has the next number, and the action bears it. Nothing else changes
/// the number.
pub proof fn each_reader_has_its_own_number(d: DashboardModel, event: EventModel)
    ensures
        match d.step(event).1 {
            ActionModel::Follow(reader, _) => {
                &&& reader == next_reader(d.reader)
                &&& d.step(event).0.reader == reader
            },
            _ => d.step(event).0.reader == d.reader,
        },
{
}

/// The number of the current log reader counts the readers that were started.
pub proof fn numbers_count_the_readers(d: DashboardModel, events: Seq<EventModel>)
    ensures
        d.run(events).reader == (d.reader + readers_started(d, events)) % reader_numbers(),
    decreases events.len(),
{
    if events.len() > 0 {
        let earlier = events.drop_last();
        numbers_count_the_readers(d, earlier);
        each_reader_has_its_own_number(d.run(earlier), events.last());
    }
}

/// A log reader has another number than those that were started before it, until all numbers are
/// used up.
pub proof fn readers_are_told_apart(d: DashboardModel, events: Seq<EventModel>)
    requires
        0 < readers_started(d, events) < reader_numbers(),
    ensures
        d.run(events).reader != d.reader,
{
    numbers_count_the_readers(d, events);
}

/// As long as no log reader is started or stopped, the log gains the lines that the current one
/// brings, in order, and no others, and keeps the newest.
pub proof fn the_log_grows_by_the_current_reader(d: DashboardModel, events: Seq<EventModel>)
    requires
        d.well_formed(),
        d.followed is Some,
        keeps_reader(d, events),
    ensures
        d.run(events).well_formed(),
        d.run(events).reader == d.reader,
        d.run(events).followed == d.followed,
        d.run(events).log.lines == newest(
            d.log.lines + lines_of(d.reader, events),
            MAX_BUFFER_LINES as nat,
        ),
    decreases events.len(),
{
    let max = MAX_BUFFER_LINES as nat;
    if events.len() == 0 {
        assert(d.log.lines + lines_of(d.reader, events) =~= d.log.lines);
    } else {
        let earlier = events.drop_last();
        let before = d.run(earlier);
        the_log_grows_by_the_current_reader(d, earlier);
        events_keep_the_dashboard_well_formed(before, events.last());
        let all = d.log.lines + lines_of(d.reader, earlier);
        if let EventModel::Line(reader, line) = events.last() {
            if reader == d.reader {
                assert(d.log.lines + lines_of(d.reader, events) =~= all.push(line));
                assert(newest(newest(all, max).push(line), max) =~= newest(all.push(line), max));
            }
        }
    }
}

/// From the start of a log reader until the next one is started or it is stopped, the log holds
/// the newest of the lines that this reader brought, in order, and no others; and the reader is
/// that of the selected pod.
pub proof fn the_log_is_that_of_the_followed_pod(
    d: DashboardModel,
    event: EventModel,
    later: Seq<EventModel>,
)
    requires
        d.well_formed(),
        d.step(event).1 is Follow,
        keeps_reader(d.step(event).0, later),
    ensures
        d.step(event).1 matches ActionModel::Follow(reader, request) && {
            let now = d.step(event).0.run(later);
            &&& now.reader == reader
            &&& now.followed == Some(request.pod)
            &&& now.pods[now.selected] == request.pod
            &&& now.log.lines == newest(lines_of(reader, later), MAX_BUFFER_LINES as nat)
        },
{
    let started = d.step(event).0;
    events_keep_the_dashboard_well_formed(d, event);
    the_log_grows_by_the_current_reader(started, later);
    assert(started.log.lines + lines_of(started.reader, later) =~= lines_of(
        started.reader,
        later,
    ));
}

/// From the start of the viewer until the first log reader is replaced or stopped, the log holds
/// the newest of the lines that it brought for the first pod, in order, and no others.
pub proof fn the_first_log_is_that_of_the_first_pod(
    namespace: Seq<char>,
    container: Option<Seq<char>>,
    tail_lines: int,
    pods: Seq<Seq<char>>,
    later: Seq<EventModel>,
)
    requires
        pods.len() > 0,
        keeps_reader(opened(namespace, container, tail_lines, pods), later),
    ensures
        ({
            let first = opened(namespace, container, tail_lines, pods);
            let now = first.run(later);
            &&& now.reader == first.reader
            &&& now.followed == Some(pods[0])
            &&& now.log.lines == newest(lines_of(first.reader, later), MAX_BUFFER_LINES as nat)
        }),
{
    let first = opened(namespace, container, tail_lines, pods);
    the_log_grows_by_the_current_reader(first, later);
    assert(first.log.lines + lines_of(first.reader, later) =~= lines_of(first.reader, later));
}

/// At all times every line that is shown was brought by the current log reader.
pub proof fn shown_lines_come_from_the_current_reader(
    namespace: Seq<char>,
    container: Option<Seq<char>>,
    tail_lines: int,
    pods: Seq<Seq<char>>,
    events: Seq<EventModel>,
    shown: int,
)
    requires
        0 <= shown < opened(namespace, container, tail_lines, pods).run(events).log.lines.len(),
    ensures
        ({
            let now = opened(namespace, container, tail_lines, pods).run(events);
            &&& now.followed == Some(now.pods[now.selected])
            &&& lines_of(now.reader, events).contains(now.log.lines[shown])
        }),
    decreases events.len(),
{
    let first = opened(namespace, container, tail_lines, pods);
    let now = first.run(events);
    dashboard_is_always_well_formed(namespace, container, tail_lines, pods, events);
    if events.len() > 0 {
        let earlier = events.drop_last();
        let before = first.run(earlier);
        let line = now.log.lines[shown];
        dashboard_is_always_well_formed(namespace, container, tail_lines, pods, earlier);
        each_reader_has_its_own_number(before, events.last());
        let brought = lines_of(now.reader, earlier);
        let kept = exists|k: int| 0 <= k < before.log.lines.len() && before.log.lines[k] == line;
        if kept {
            let k = choose|k: int| 0 <= k < before.log.lines.len() && before.log.lines[k] == line;
            shown_lines_come_from_the_current_reader(
                namespace,
                container,
                tail_lines,
                pods,
                earlier,
                k,
            );
            let at = brought.index_of(line);
            assert(lines_of(now.reader, events)[at] == line);
        } else {
            assert(lines_of(now.reader, events).last() == line);
        }
    }
}

/// The lines of the current log reader show in the order of their arrival; the newest are kept and
/// nothing else changes.
pub proof fn lines_arrive_in_order(d: DashboardModel, lines: Seq<Seq<char>>)
    requires
        d.well_formed(),
        d.followed is Some,
    ensures
        d.run(lines.map_values(|l: Seq<char>| EventModel::Line(d.reader, l))) == (DashboardModel {
            log: LogModel {
                lines: newest(d.log.lines + lines, MAX_BUFFER_LINES as nat),
                ..d.log
            },
            ..d
        }),
{
    lemma_lines_are_pushed(d, lines);
    buffer_holds_the_newest_lines(d.log, lines);
}

proof fn lemma_lines_are_pushed(d: DashboardModel, lines: Seq<Seq<char>>)
    requires
        d.followed is Some,
    ensures
        d.run(lines.map_values(|l: Seq<char>| EventModel::Line(d.reader, l))) == (DashboardModel {
            log: d.log.pushed_all(lines),
            ..d
        }),
    decreases lines.len(),
{
    let events = lines.map_values(|l: Seq<char>| EventModel::Line(d.reader, l));
    if lines.len() > 0 {
        lemma_lines_are_pushed(d, lines.drop_last());
        assert(events.drop_last() =~= lines.drop_last().map_values(
            |l: Seq<char>| EventModel::Line(d.reader, l),
        ));
    }
}

} // verus!
