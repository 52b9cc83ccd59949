//! What the parts of the screen show.

use vstd::prelude::*;

use crate::buffer::LogModel;
use crate::draw::{
    k8s_view, line_number, log_body, log_line, status_bar, tab_label, tab_labels, K8sView, LogBody,
    LogLine, StatusBar, TabBar,
};
use crate::layout::{Rect, Rows};
use crate::style::{colored, Color, Span, Style};
use crate::text::decimal;

verus! {

/// Text in one colour has that colour and no other property.
pub proof fn colored_text_is_plain(color: Color)
    ensures
        colored(color).fg == Some(color),
        colored(color).bg == None::<Color>,
        !colored(color).bold,
        !colored(color).italic,
{
}

/// What a piece of text, a line, a pane or a bar shows is what its fields hold.
pub proof fn parts_show_their_fields(
    span: Span,
    line: LogLine,
    body: LogBody,
    status: StatusBar,
    tabs: TabBar,
    whole: K8sView,
)
    ensures
        span@.text == span.text@ && span@.style == span.style,
        line@.number == line.number@ && line@.text == line.text@,
        body@.area == body.area && body@.title == body.title@ && body@.border == body.border
            && body@.trim == body.trim,
        body@.lines.len() == body.lines@.len(),
        forall|k: int| 0 <= k < body.lines@.len() ==> #[trigger] body@.lines[k] == body.lines@[k]@,
        status@.area == status.area && status@.content == status.content@,
        tabs@.area == tabs.area && tabs@.title == tabs.title@ && tabs@.border == tabs.border,
        tabs@.titles.len() == tabs.titles@.len(),
        forall|k: int|
            0 <= k < tabs.titles@.len() ==> #[trigger] tabs@.titles[k] == tabs.titles@[k]@,
        tabs@.selected == tabs.selected && tabs@.style == tabs.style && tabs@.highlight
            == tabs.highlight && tabs@.divider == tabs.divider@,
        whole@.tabs == whole.tabs@ && whole@.log == whole.log@ && whole@.status == whole.status@,
        whole@.rows().tabs == whole.tabs.area && whole@.rows().log == whole.log.area
            && whole@.rows().status == whole.status.area,
{
}

/// The number in front of a line counts from one. It takes six characters, or more where it needs
/// them, with blanks in front of it, and is followed by a bar between two blanks.
pub proof fn line_numbers_count_from_one(index: nat)
    ensures
        ({
            let shown = line_number(index as int);
            let digits = decimal(index + 1);
            let width = shown.len() - 3;
            &&& digits.len() >= 6 ==> width == digits.len()
            &&& digits.len() < 6 ==> width == 6
            &&& shown.subrange(width - digits.len(), width) == digits
            &&& forall|i: int| 0 <= i < width - digits.len() ==> #[trigger] shown[i] == ' '
            &&& shown[width] == ' '
            &&& shown[width + 1] == '│'
            &&& shown[width + 2] == ' '
        }),
{
    reveal_strlit(" │ ");
    let shown = line_number(index as int);
    let digits = decimal(index + 1);
    let width = shown.len() - 3;
    assert(shown.subrange(width - digits.len(), width) =~= digits);
}

/// A line is shown with its own text, and with its number in dark gray.
pub proof fn a_line_shows_its_text(log: LogModel, height: u16, index: int)
    ensures
        log_line(log, height, index).text.text == log.lines[index],
        log_line(log, height, index).number.text == line_number(index),
        log_line(log, height, index).number.style == (Style {
            fg: Some(Color::DarkGray),
            bg: None,
            bold: false,
            italic: false,
        }),
{
}

/// The log pane shows the last lines before the end of the window: as many as fit between its
/// borders, or all where there are fewer. They are in the order of the buffer, and light green
/// while the window follows the tail, else gray. Here `end` is the number of lines up to the end of
/// the window, `room` the number that fit, and `count` the number that is shown.
pub proof fn the_log_pane_shows_what_fits(
    log: LogModel,
    area: Rect,
    title: Seq<char>,
    end: int,
    room: int,
    count: int,
    k: int,
)
    requires
        log.well_formed(),
        log.follow_tail ==> end == log.lines.len(),
        !log.follow_tail && log.scroll_from_bottom <= log.lines.len() ==> end == log.lines.len()
            - log.scroll_from_bottom,
        !log.follow_tail && log.scroll_from_bottom > log.lines.len() ==> end == 0,
        area.height >= 3 ==> room == area.height - 2,
        area.height < 3 ==> room == 1,
        count <= end && count <= room && (count == end || count == room),
        0 <= k < count,
    ensures
        ({
            let shown = log_body(log, area, title);
            &&& shown.lines.len() == count
            &&& shown.lines[k].text.text == log.lines[end - count + k]
            &&& shown.lines[k].text.style == (Style {
                fg: Some(
                    if log.follow_tail {
                        Color::LightGreen
                    } else {
                        Color::Gray
                    },
                ),
                bg: None,
                bold: false,
                italic: false,
            })
            &&& shown.lines[k].number.text == line_number(end - count + k)
        }),
{
}

/// Without a line before the end of the window the log pane is empty.
pub proof fn an_empty_window_shows_nothing(log: LogModel, area: Rect, title: Seq<char>)
    requires
        log.well_formed(),
        log.lines.len() == 0 || !log.follow_tail && log.scroll_from_bottom >= log.lines.len(),
    ensures
        log_body(log, area, title).lines.len() == 0,
{
}

/// The log pane is where it was put, framed in cyan under its title between two blanks, and drops
/// the blanks at the start of wrapped lines.
pub proof fn the_frame_of_the_log_pane(log: LogModel, area: Rect, title: Seq<char>)
    ensures
        ({
            let shown = log_body(log, area, title);
            &&& shown.area == area
            &&& shown.title.len() == title.len() + 2
            &&& shown.title[0] == ' '
            &&& shown.title.last() == ' '
            &&& shown.title.subrange(1, (title.len() + 1) as int) == title
            &&& shown.border == Color::Cyan
            &&& shown.trim
        }),
{
    reveal_strlit(" ");
    assert(log_body(log, area, title).title.subrange(1, (title.len() + 1) as int) =~= title);
}

/// The status bar shows the status in yellow italics, where it was put.
pub proof fn the_status_bar_shows_the_status(status: Seq<char>, area: Rect)
    ensures
        status_bar(status, area).area == area,
        status_bar(status, area).content.text == status,
        status_bar(status, area).content.style == (Style {
            fg: Some(Color::Yellow),
            bg: None,
            bold: false,
            italic: true,
        }),
{
}

/// The title of a tab stands between two blanks. It is the name in full within the limit. Else it is
/// the start of the name, two characters short of the limit, and an ellipsis.
pub proof fn a_title_is_the_start_of_the_name(name: Seq<char>, max_chars: nat)
    ensures
        ({
            let title = tab_label(name, max_chars);
            &&& title[0] == ' '
            &&& title.last() == ' '
            &&& name.len() <= max_chars ==> {
                &&& title.len() == name.len() + 2
                &&& title.subrange(1, (name.len() + 1) as int) == name
            }
            &&& name.len() > max_chars && max_chars >= 2 ==> {
                &&& title.len() == max_chars + 1
                &&& title.subrange(1, max_chars - 1) == name.subrange(0, max_chars - 2)
                &&& title[max_chars - 1] == '…'
            }
            &&& name.len() > max_chars && max_chars < 2 ==> {
                &&& title.len() == 3
                &&& title[1] == '…'
            }
        }),
{
    reveal_strlit(" ");
    reveal_strlit("…");
    let title = tab_label(name, max_chars);
    if name.len() <= max_chars {
        assert(title.subrange(1, (name.len() + 1) as int) =~= name);
    } else if max_chars >= 2 {
        assert(title.subrange(1, max_chars - 1) =~= name.subrange(0, max_chars - 2));
    }
}

/// Each tab bears the name of its own pod: in full up to fourteen characters, else the first twelve
/// and an ellipsis.
pub proof fn each_tab_bears_its_pod(pods: Seq<Seq<char>>, i: int)
    requires
        0 <= i < pods.len(),
    ensures
        tab_labels(pods).len() == pods.len(),
        ({
            let title = tab_labels(pods)[i];
            &&& title[0] == ' '
            &&& title.last() == ' '
            &&& pods[i].len() <= 14 ==> {
                &&& title.len() == pods[i].len() + 2
                &&& title.subrange(1, (pods[i].len() + 1) as int) == pods[i]
            }
            &&& pods[i].len() > 14 ==> {
                &&& title.len() == 15
                &&& title.subrange(1, 13) == pods[i].subrange(0, 12)
                &&& title[13] == '…'
            }
        }),
{
    a_title_is_the_start_of_the_name(pods[i], 14);
}

/// The whole screen: each part in its row, the titles of the pods with the selected one, or the last
/// one where that is missing, the name of its pod over the log, and the banner with a reminder of
/// the keys.
pub proof fn the_screen_shows_the_pods(
    rows: Rows,
    namespace: Seq<char>,
    pods: Seq<Seq<char>>,
    selected: nat,
    log: LogModel,
    banner: Seq<char>,
)
    ensures
        ({
            let shown = k8s_view(rows, namespace, pods, selected as int, log, banner);
            &&& shown.tabs.area == rows.tabs
            &&& shown.log.area == rows.log
            &&& shown.status.area == rows.status
            &&& shown.tabs.title == " Pods · ns/"@ + namespace + " "@
            &&& shown.tabs.border == Color::Magenta
            &&& shown.tabs.divider == "|"@
            &&& shown.tabs.style == (Style {
                fg: Some(Color::White),
                bg: None,
                bold: false,
                italic: false,
            })
            &&& shown.tabs.highlight == (Style {
                fg: Some(Color::Black),
                bg: Some(Color::Cyan),
                bold: true,
                italic: false,
            })
            &&& shown.tabs.titles == tab_labels(pods)
            &&& pods.len() == 0 ==> {
                &&& shown.tabs.titles == seq![" (no pods in namespace) "@]
                &&& shown.tabs.selected == 0
                &&& shown.log.title == " "@ + "no pods"@ + " "@
            }
            &&& selected < pods.len() ==> {
                &&& shown.tabs.selected == selected
                &&& shown.log.title == " "@ + ("logs · "@ + pods[selected as int]) + " "@
            }
            &&& 0 < pods.len() <= selected ==> {
                &&& shown.tabs.selected == pods.len() - 1
                &&& shown.log.title == " "@ + ("logs · "@ + pods.last()) + " "@
            }
            &&& shown.log.border == Color::Cyan
            &&& shown.log.trim
            &&& shown.log.lines == log_body(log, rows.log, Seq::empty()).lines
            &&& shown.status.content.text == banner
                + "   ←/→ pod · ↑/↓ log · g tail · r reload pods · q quit"@
            &&& shown.status.content.style == (Style {
                fg: Some(Color::Yellow),
                bg: None,
                bold: false,
                italic: true,
            })
        }),
{
    assert(k8s_view(rows, namespace, pods, selected as int, log, banner).log.lines =~= log_body(
        log,
        rows.log,
        Seq::empty(),
    ).lines);
}

/// The tab that stands out bears the name of the pod that the log pane is titled with.
pub proof fn the_highlighted_tab_bears_the_titled_pod(
    rows: Rows,
    namespace: Seq<char>,
    pods: Seq<Seq<char>>,
    selected: nat,
    log: LogModel,
    banner: Seq<char>,
)
    requires
        selected < pods.len(),
    ensures
        ({
            let shown = k8s_view(rows, namespace, pods, selected as int, log, banner);
            let title = shown.tabs.titles[shown.tabs.selected];
            let pod = pods[selected as int];
            &&& pod.len() <= 14 ==> title.subrange(1, title.len() - 1) == pod
            &&& pod.len() > 14 ==> title.subrange(1, 13) == pod.subrange(0, 12)
            &&& shown.log.title == " "@ + ("logs · "@ + pod) + " "@
        }),
{
    each_tab_bears_its_pod(pods, selected as int);
    the_screen_shows_the_pods(rows, namespace, pods, selected, log, banner);
}

} // verus!
