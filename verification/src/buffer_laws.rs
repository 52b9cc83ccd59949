//! What holds of the log buffer and its window over several operations.

use vstd::prelude::*;

use crate::buffer::{inner_height, min_of, newest, page_lines, LogModel, MAX_BUFFER_LINES};

verus! {

/// After any number of arrivals the buffer holds the newest lines, in the order of their arrival,
/// and the window has not moved.
pub proof fn buffer_holds_the_newest_lines(log: LogModel, arrived: Seq<Seq<char>>)
    requires
        log.well_formed(),
    ensures
        log.pushed_all(arrived) == (LogModel {
            lines: newest(log.lines + arrived, MAX_BUFFER_LINES as nat),
            ..log
        }),
    decreases arrived.len(),
{
    let max = MAX_BUFFER_LINES as nat;
    if arrived.len() == 0 {
        assert(log.lines + arrived =~= log.lines);
    } else {
        let earlier = arrived.drop_last();
        buffer_holds_the_newest_lines(log, earlier);
        assert((log.lines + earlier).push(arrived.last()) =~= log.lines + arrived);
        assert(newest(newest(log.lines + earlier, max).push(arrived.last()), max) =~= newest(
            log.lines + arrived,
            max,
        ));
    }
}

/// The window lies within the buffer and holds a page of lines, or all that come before its end
/// where these are fewer.
pub proof fn window_is_a_page_of_the_buffer(log: LogModel, height: u16)
    requires
        log.well_formed(),
    ensures
        0 <= log.window_start(height) <= log.window_end() <= log.lines.len(),
        log.window(height).len() == min_of(page_lines(height), log.window_end()),
{
}

/// A window that follows the tail shows the newest lines.
pub proof fn following_shows_the_newest_lines(log: LogModel, height: u16)
    requires
        log.well_formed(),
        log.follow_tail,
    ensures
        log.window(height) == newest(log.lines, page_lines(height) as nat),
{
    assert(log.window(height) =~= newest(log.lines, page_lines(height) as nat));
}

/// A line that arrives while the window follows the tail is the last one shown.
pub proof fn following_shows_each_arrival(log: LogModel, line: Seq<char>, height: u16)
    requires
        log.well_formed(),
        log.follow_tail,
    ensures
        log.pushed(line).window(height).len() > 0,
        log.pushed(line).window(height).last() == line,
{
    window_is_a_page_of_the_buffer(log.pushed(line), height);
}

/// At the head the window shows the oldest line and no other.
pub proof fn head_shows_the_oldest_line(log: LogModel, height: u16)
    requires
        log.well_formed(),
        log.lines.len() > 0,
    ensures
        log.at_head().window(height) == seq![log.lines[0]],
{
    assert(log.at_head().window(height) =~= seq![log.lines[0]]);
}

/// At the tail the window ends with the newest line.
pub proof fn tail_shows_the_newest_line(log: LogModel, height: u16)
    requires
        log.well_formed(),
        log.lines.len() > 0,
    ensures
        log.at_tail().follow_tail,
        log.at_tail().window(height).last() == log.lines.last(),
{
}

/// Below the head, scrolling up by a line moves the end of the window by one line.
pub proof fn scrolling_up_moves_the_window(log: LogModel)
    requires
        log.well_formed(),
        log.scroll_from_bottom < log.top_offset(),
    ensures
        log.scrolled_up(1).window_end() == log.window_end() - 1,
{
}

/// While the window is scrolled up, but not beyond the buffer, scrolling down by a line moves its
/// end by one line.
pub proof fn scrolling_down_moves_the_window(log: LogModel)
    requires
        log.well_formed(),
        0 < log.scroll_from_bottom <= log.lines.len(),
    ensures
        log.scrolled_down(1).window_end() == log.window_end() + 1,
{
}

/// Scrolling up twice is scrolling up by the sum.
pub proof fn scrolling_up_adds_up(log: LogModel, m: nat, n: nat)
    requires
        log.well_formed(),
    ensures
        log.scrolled_up(m).scrolled_up(n) == log.scrolled_up(m + n),
{
}

/// Scrolling down twice is scrolling down by the sum.
pub proof fn scrolling_down_adds_up(log: LogModel, m: nat, n: nat)
    requires
        log.well_formed(),
    ensures
        log.scrolled_down(m).scrolled_down(n) == log.scrolled_down(m + n),
{
}

/// Scrolling down undoes scrolling up: for a window that follows the tail in any case, and for one
/// that is scrolled as long as the head did not stop it.
pub proof fn scrolling_down_undoes_scrolling_up(log: LogModel, n: nat)
    requires
        log.well_formed(),
        log.follow_tail || 0 < log.scroll_from_bottom <= log.top_offset() - n,
    ensures
        log.scrolled_up(n).scrolled_down(n) == log,
{
}

/// Scrolling up undoes scrolling down: for a window at the head in any case, and for another one
/// that does not follow the tail as long as the tail did not stop it.
pub proof fn scrolling_up_undoes_scrolling_down(log: LogModel, n: nat)
    requires
        log.well_formed(),
        !log.follow_tail,
        n <= log.scroll_from_bottom < log.top_offset() || log.scroll_from_bottom
            == log.top_offset(),
    ensures
        log.scrolled_down(n).scrolled_up(n) == log,
{
}

/// Scrolling down far enough ends at the tail, and the window follows it again.
pub proof fn scrolling_down_reaches_the_tail(log: LogModel, n: nat)
    requires
        log.well_formed(),
        log.scroll_from_bottom <= n,
    ensures
        log.scrolled_down(n) == log.at_tail(),
{
}

/// Scrolling up far enough ends at the head.
pub proof fn scrolling_up_reaches_the_head(log: LogModel, n: nat)
    requires
        log.well_formed(),
        log.top_offset() <= log.scroll_from_bottom + n,
    ensures
        log.scrolled_up(n) == log.at_head(),
{
}

/// A new buffer has no lines and follows the tail.
pub proof fn a_new_buffer_is_empty()
    ensures
        LogModel::empty().lines.len() == 0,
        LogModel::empty().follow_tail,
        LogModel::empty().scroll_from_bottom == 0,
        LogModel::empty().status.len() == 0,
{
}

/// A line goes to the end. Only where twenty thousand lines are there already, the oldest one
/// leaves. The window and the status stay.
pub proof fn a_line_goes_to_the_end(log: LogModel, line: Seq<char>)
    requires
        log.lines.len() <= 20_000,
    ensures
        log.lines.len() < 20_000 ==> log.pushed(line).lines == log.lines.push(line),
        log.lines.len() == 20_000 ==> log.pushed(line).lines == log.lines.drop_first().push(line),
        log.pushed(line).follow_tail == log.follow_tail,
        log.pushed(line).scroll_from_bottom == log.scroll_from_bottom,
        log.pushed(line).status == log.status,
{
    assert(log.lines.len() == 20_000 ==> log.pushed(line).lines =~= log.lines.drop_first().push(
        line,
    ));
}

/// Scrolling up raises the offset by that many lines, up to the one at which the oldest line is the
/// last one shown, and stops following the tail.
pub proof fn scrolling_up_raises_the_offset(log: LogModel, n: nat)
    requires
        0 <= log.scroll_from_bottom,
    ensures
        log.scroll_from_bottom + n < log.lines.len() ==> log.scrolled_up(n).scroll_from_bottom
            == log.scroll_from_bottom + n,
        log.scroll_from_bottom + n >= log.lines.len() && log.lines.len() > 0 ==> log.scrolled_up(
            n,
        ).scroll_from_bottom == log.lines.len() - 1,
        log.lines.len() == 0 ==> log.scrolled_up(n).scroll_from_bottom == 0,
        !log.scrolled_up(n).follow_tail,
        log.scrolled_up(n).lines == log.lines,
        log.scrolled_up(n).status == log.status,
{
}

/// Scrolling down lowers the offset by that many lines. At zero the window follows the tail; before
/// that, following does not change.
pub proof fn scrolling_down_lowers_the_offset(log: LogModel, n: nat)
    requires
        0 <= log.scroll_from_bottom,
    ensures
        n < log.scroll_from_bottom ==> log.scrolled_down(n).scroll_from_bottom
            == log.scroll_from_bottom - n && log.scrolled_down(n).follow_tail == log.follow_tail,
        n >= log.scroll_from_bottom ==> log.scrolled_down(n).scroll_from_bottom == 0
            && log.scrolled_down(n).follow_tail,
        log.scrolled_down(n).lines == log.lines,
        log.scrolled_down(n).status == log.status,
{
}

/// The jumps set the window and nothing else: to the tail, which is followed, or to the offset at
/// which the oldest line is the last one shown.
pub proof fn jumps_set_the_window_only(log: LogModel)
    ensures
        log.at_tail().follow_tail,
        log.at_tail().scroll_from_bottom == 0,
        log.at_tail().lines == log.lines,
        log.at_tail().status == log.status,
        !log.at_head().follow_tail,
        log.lines.len() > 0 ==> log.at_head().scroll_from_bottom == log.lines.len() - 1,
        log.lines.len() == 0 ==> log.at_head().scroll_from_bottom == 0,
        log.at_head().lines == log.lines,
        log.at_head().status == log.status,
{
}

/// Clearing drops the lines only; a restart also follows the tail.
pub proof fn clearing_drops_the_lines_only(log: LogModel)
    ensures
        log.cleared().lines.len() == 0,
        log.cleared().follow_tail == log.follow_tail,
        log.cleared().scroll_from_bottom == log.scroll_from_bottom,
        log.cleared().status == log.status,
        log.restarted().lines.len() == 0,
        log.restarted().follow_tail,
        log.restarted().scroll_from_bottom == 0,
        log.restarted().status == log.status,
{
}

/// Two lines of a pane are its borders, and a pane shows at least one line.
pub proof fn a_pane_has_two_borders(height: u16)
    ensures
        height >= 2 ==> inner_height(height) == height - 2,
        height < 2 ==> inner_height(height) == 0,
        height >= 3 ==> page_lines(height) == height - 2,
        height < 3 ==> page_lines(height) == 1,
{
}

/// The window ends with the newest line while it follows the tail, else as many lines before it as
/// the offset says.
pub proof fn the_offset_counts_from_the_newest_line(log: LogModel)
    ensures
        log.follow_tail ==> log.window_end() == log.lines.len(),
        !log.follow_tail && log.scroll_from_bottom <= log.lines.len() ==> log.window_end()
            == log.lines.len() - log.scroll_from_bottom,
        !log.follow_tail && log.scroll_from_bottom > log.lines.len() ==> log.window_end() == 0,
{
}

/// The window holds the lines before its end: as many as fit between the borders of the pane, or
/// all where there are fewer, and never more than fit.
pub proof fn the_window_fits_between_the_borders(log: LogModel, height: u16)
    requires
        0 <= log.scroll_from_bottom,
        height >= 3,
    ensures
        log.window_end() >= height - 2 ==> log.window(height).len() == height - 2
            && log.window_start(height) == log.window_end() - (height - 2),
        log.window_end() < height - 2 ==> log.window(height).len() == log.window_end()
            && log.window_start(height) == 0,
        log.window(height).len() <= height - 2,
{
}

/// In a pane without room between its borders the window holds one line, if there is one before
/// its end.
pub proof fn a_pane_without_room_shows_a_line(log: LogModel, height: u16)
    requires
        0 <= log.scroll_from_bottom,
        height < 3,
    ensures
        log.window_end() > 0 ==> log.window(height).len() == 1 && log.window_start(height)
            == log.window_end() - 1,
        log.window_end() == 0 ==> log.window(height).len() == 0,
{
}

/// The window is a stretch of the buffer: its lines are those from its start on.
pub proof fn the_window_is_a_stretch_of_the_buffer(log: LogModel, height: u16, k: int)
    requires
        0 <= log.scroll_from_bottom,
        0 <= k < log.window(height).len(),
    ensures
        log.window(height)[k] == log.lines[log.window_start(height) + k],
        log.window_start(height) + log.window(height).len() == log.window_end(),
{
}

} // verus!
