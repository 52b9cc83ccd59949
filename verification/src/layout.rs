//! Areas of the terminal.

use ratatui::layout::{Constraint, Direction, Layout};
use vstd::prelude::*;

verus! {

/// A rectangle of terminal cells.
#[derive(Clone, Copy, Debug, PartialEq, Eq, Structural)]
pub struct Rect {
    pub x: u16,
    pub y: u16,
    pub width: u16,
    pub height: u16,
}

/// The height of the tab bar.
pub const TABS_HEIGHT: u16 = 3;

/// The least height of the log pane.
pub const LOG_MIN_HEIGHT: u16 = 4;

/// The height of the status bar.
pub const STATUS_HEIGHT: u16 = 1;

/// Three rows of the screen, from top to bottom.
#[derive(Clone, Copy, Debug, PartialEq, Eq)]
pub struct Rows {
    pub tabs: Rect,
    pub log: Rect,
    pub status: Rect,
}

/// `row` spans the width of `area`.
pub open spec fn spans_width(area: Rect, row: Rect) -> bool {
    row.x == area.x && row.width == area.width
}

/// How many lines `area` has: its bottom edge lies at `u16::MAX` at most.
pub open spec fn lines_in(area: Rect) -> int {
    if area.y + area.height <= u16::MAX {
        area.height as int
    } else {
        u16::MAX - area.y
    }
}

/// The rows follow one another without a gap, from the first line of `area` to its last.
pub open spec fn rows_stack(area: Rect, rows: Rows) -> bool {
    &&& rows.tabs.y == area.y
    &&& rows.log.y == rows.tabs.y + rows.tabs.height
    &&& rows.status.y == rows.log.y + rows.log.height
    &&& rows.status.y + rows.status.height == area.y + lines_in(area)
}

/// How the lines of an area are shared out. With room for all rows, the outer ones have their
/// heights, and the middle one what is left. Else the middle one has its least height, or as much
/// of it as there is, and the outer ones have no more than theirs.
pub open spec fn rows_share(lines: int, top: u16, middle: u16, bottom: u16, rows: Rows) -> bool {
    if top + middle + bottom <= lines {
        rows.tabs.height == top && rows.status.height == bottom
    } else {
        &&& rows.log.height == if middle <= lines {
            middle as int
        } else {
            lines
        }
        &&& rows.tabs.height <= top
        &&& rows.status.height <= bottom
    }
}

/// What holds of the rows of the screen. Which of the outer rows gives way in an area that is too
/// low is left open.
pub open spec fn screen_rows(area: Rect, rows: Rows) -> bool {
    &&& spans_width(area, rows.tabs)
    &&& spans_width(area, rows.log)
    &&& spans_width(area, rows.status)
    &&& rows_stack(area, rows)
    &&& rows_share(lines_in(area), TABS_HEIGHT, LOG_MIN_HEIGHT, STATUS_HEIGHT, rows)
}

/// Divides `area` into a row of `top` lines, one of at least `middle`, and one of `bottom`.
///
/// Calls `split` of a vertical `ratatui::layout::Layout` with the constraints `Length(top)`,
/// `Min(middle)` and `Length(bottom)`. The contract claims that each row is as wide as `area`;
/// that the rows cover the lines of `area` one after the other, since the spacing between them is
/// zero and weighs more than any height; and that `Min` is met before `Length`, and takes what
/// `Length` leaves. The bottom edge of `area` saturates at `u16::MAX`, and the lines beyond it do
/// not count. How the two `Length` rows share too few lines is not claimed: the solver walks hash
/// maps, and weighs both alike. A `middle` beyond `i16` is left out, as the layout counts it in
/// that type.
#[verifier::external_body]
fn split_rows(area: Rect, top: u16, middle: u16, bottom: u16) -> (r: Rows)
    requires
        middle <= i16::MAX,
    ensures
        spans_width(area, r.tabs),
        spans_width(area, r.log),
        spans_width(area, r.status),
        rows_stack(area, r),
        rows_share(lines_in(area), top, middle, bottom, r),
{
    let Rect { x, y, width, height } = area;
    let rows = Layout::default()
        .direction(Direction::Vertical)
        .constraints([Constraint::Length(top), Constraint::Min(middle), Constraint::Length(bottom)])
        .split(ratatui::layout::Rect { x, y, width, height });
    let own = |r: ratatui::layout::Rect| Rect { x: r.x, y: r.y, width: r.width, height: r.height };
    Rows { tabs: own(rows[0]), log: own(rows[1]), status: own(rows[2]) }
}

/// With room for all three, the tab bar and the status bar have their heights and the log pane has
/// the rest of the screen.
pub proof fn a_roomy_screen_is_divided(area: Rect, rows: Rows)
    requires
        screen_rows(area, rows),
        TABS_HEIGHT + LOG_MIN_HEIGHT + STATUS_HEIGHT <= lines_in(area),
    ensures
        rows.tabs.height == TABS_HEIGHT,
        rows.log.height == lines_in(area) - TABS_HEIGHT - STATUS_HEIGHT,
        rows.status.height == STATUS_HEIGHT,
{
}

/// On a screen of eight lines or more, the tab bar has the first three, the status bar the last
/// one, and the log pane those between. Each row is as wide as the screen.
pub proof fn the_rows_of_a_roomy_screen(area: Rect, rows: Rows)
    requires
        screen_rows(area, rows),
        area.height >= 8,
        area.y + area.height <= 65535,
    ensures
        rows.tabs == (Rect { x: area.x, y: area.y, width: area.width, height: 3 }),
        rows.log == (Rect {
            x: area.x,
            y: (area.y + 3) as u16,
            width: area.width,
            height: (area.height - 4) as u16,
        }),
        rows.status == (Rect {
            x: area.x,
            y: (area.y + area.height - 1) as u16,
            width: area.width,
            height: 1,
        }),
{
}

/// On a lower screen the log pane has four lines, or all of them, and the rows cover the screen
/// from top to bottom all the same.
pub proof fn the_rows_of_a_low_screen(area: Rect, rows: Rows)
    requires
        screen_rows(area, rows),
        area.height < 8,
        area.y + area.height <= 65535,
    ensures
        area.height >= 4 ==> rows.log.height == 4,
        area.height < 4 ==> rows.log.height == area.height,
        rows.tabs.height + rows.log.height + rows.status.height == area.height,
        rows.tabs.height <= 3,
        rows.status.height <= 1,
        rows.tabs.y == area.y,
        rows.log.y == area.y + rows.tabs.height,
        rows.status.y == area.y + rows.tabs.height + rows.log.height,
        rows.tabs.x == area.x && rows.log.x == area.x && rows.status.x == area.x,
        rows.tabs.width == area.width && rows.log.width == area.width && rows.status.width
            == area.width,
{
}

/// The lines of an area beyond the largest line number do not count.
pub proof fn an_area_ends_at_the_last_line(area: Rect, rows: Rows)
    requires
        screen_rows(area, rows),
        area.y + area.height > 65535,
    ensures
        rows.tabs.y == area.y,
        rows.tabs.height + rows.log.height + rows.status.height == 65535 - area.y,
        65535 - area.y >= 8 ==> rows.tabs.height == 3 && rows.status.height == 1,
        4 <= 65535 - area.y < 8 ==> rows.log.height == 4,
        65535 - area.y < 4 ==> rows.log.height == 65535 - area.y,
        rows.tabs.height <= 3 && rows.status.height <= 1,
        rows.log.y == area.y + rows.tabs.height,
        rows.status.y == area.y + rows.tabs.height + rows.log.height,
        rows.tabs.x == area.x && rows.log.x == area.x && rows.status.x == area.x,
        rows.tabs.width == area.width && rows.log.width == area.width && rows.status.width
            == area.width,
{
}

/// The rows of the screen: the tab bar, the log pane and the status bar.
pub fn split_screen(area: Rect) -> (r: Rows)
    ensures
        screen_rows(area, r),
{
    split_rows(area, TABS_HEIGHT, LOG_MIN_HEIGHT, STATUS_HEIGHT)
}

} // verus!
