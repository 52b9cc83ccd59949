//! What the screen shows, as plain values.

use vstd::prelude::*;

use crate::buffer::{max_of, min_of, page_lines, App, LogModel};
use crate::layout::{screen_rows, split_screen, Rect, Rows};
use crate::names::views;
use crate::style::{colored, Color, Span, SpanModel, Style};
use crate::text::{concat2, concat3, decimal, decimal_text, right_align, right_aligned};

verus! {

/// The number of characters of a pod name that a tab shows in full.
pub const TAB_CHARS: usize = 14;

/// The width of a line number.
pub const NUMBER_WIDTH: usize = 6;

/// A line of the log with its number.
#[derive(Debug, PartialEq, Eq)]
pub struct LogLine {
    pub number: Span,
    pub text: Span,
}

/// What a [`LogLine`] shows.
pub struct LogLineModel {
    pub number: SpanModel,
    pub text: SpanModel,
}

impl View for LogLine {
    type V = LogLineModel;

    open spec fn view(&self) -> LogLineModel {
        LogLineModel { number: self.number@, text: self.text@ }
    }
}

/// The log pane: a bordered box of lines, given here before the terminal wraps them.
#[derive(Debug, PartialEq, Eq)]
pub struct LogBody {
    pub area: Rect,
    pub title: String,
    pub border: Color,
    pub lines: Vec<LogLine>,
    /// Whether wrapping drops the blanks at the start of a line.
    pub trim: bool,
}

/// What a [`LogBody`] shows.
pub struct LogBodyModel {
    pub area: Rect,
    pub title: Seq<char>,
    pub border: Color,
    pub lines: Seq<LogLineModel>,
    pub trim: bool,
}

impl View for LogBody {
    type V = LogBodyModel;

    open spec fn view(&self) -> LogBodyModel {
        LogBodyModel {
            area: self.area,
            title: self.title@,
            border: self.border,
            lines: self.lines@.map_values(|l: LogLine| l@),
            trim: self.trim,
        }
    }
}

/// The status bar.
#[derive(Debug, PartialEq, Eq)]
pub struct StatusBar {
    pub area: Rect,
    pub content: Span,
}

/// What a [`StatusBar`] shows.
pub struct StatusBarModel {
    pub area: Rect,
    pub content: SpanModel,
}

impl View for StatusBar {
    type V = StatusBarModel;

    open spec fn view(&self) -> StatusBarModel {
        StatusBarModel { area: self.area, content: self.content@ }
    }
}

/// The tab bar: a bordered box with a title for each pod.
#[derive(Debug, PartialEq, Eq)]
pub struct TabBar {
    pub area: Rect,
    pub title: String,
    pub border: Color,
    pub titles: Vec<String>,
    pub selected: usize,
    pub style: Style,
    pub highlight: Style,
    pub divider: String,
}

/// What a [`TabBar`] shows.
pub struct TabBarModel {
    pub area: Rect,
    pub title: Seq<char>,
    pub border: Color,
    pub titles: Seq<Seq<char>>,
    pub selected: int,
    pub style: Style,
    pub highlight: Style,
    pub divider: Seq<char>,
}

impl View for TabBar {
    type V = TabBarModel;

    open spec fn view(&self) -> TabBarModel {
        TabBarModel {
            area: self.area,
            title: self.title@,
            border: self.border,
            titles: views(self.titles@),
            selected: self.selected as int,
            style: self.style,
            highlight: self.highlight,
            divider: self.divider@,
        }
    }
}

/// The whole screen.
#[derive(Debug, PartialEq, Eq)]
pub struct K8sView {
    pub tabs: TabBar,
    pub log: LogBody,
    pub status: StatusBar,
}

/// What a [`K8sView`] shows.
pub struct K8sViewModel {
    pub tabs: TabBarModel,
    pub log: LogBodyModel,
    pub status: StatusBarModel,
}

impl View for K8sView {
    type V = K8sViewModel;

    open spec fn view(&self) -> K8sViewModel {
        K8sViewModel { tabs: self.tabs@, log: self.log@, status: self.status@ }
    }
}

impl K8sViewModel {
    /// The rows that the parts of the screen take up.
    pub open spec fn rows(self) -> Rows {
        Rows { tabs: self.tabs.area, log: self.log.area, status: self.status.area }
    }
}

/// The number in front of the line at `index`, counted from one.
pub open spec fn line_number(index: int) -> Seq<char> {
    right_aligned(decimal((index + 1) as nat), NUMBER_WIDTH as nat) + " │ "@
}

/// The colour of the line at `index`: lines of the newest page stand out while the window follows
/// the tail.
pub open spec fn line_color(log: LogModel, height: u16, index: int) -> Color {
    if log.follow_tail && index >= max_of(log.lines.len() - page_lines(height), 0) {
        Color::LightGreen
    } else {
        Color::Gray
    }
}

/// How the line at `index` is shown.
pub open spec fn log_line(log: LogModel, height: u16, index: int) -> LogLineModel {
    LogLineModel {
        number: SpanModel { text: line_number(index), style: colored(Color::DarkGray) },
        text: SpanModel {
            text: log.lines[index],
            style: colored(line_color(log, height, index)),
        },
    }
}

/// `s` between two blanks.
pub open spec fn spaced(s: Seq<char>) -> Seq<char> {
    " "@ + s + " "@
}

/// The log pane in `area`: the lines of the window.
pub open spec fn log_body(log: LogModel, area: Rect, title: Seq<char>) -> LogBodyModel {
    let start = log.window_start(area.height);
    LogBodyModel {
        area: area,
        title: spaced(title),
        border: Color::Cyan,
        lines: Seq::new(
            (log.window_end() - start) as nat,
            |k: int| log_line(log, area.height, start + k),
        ),
        trim: true,
    }
}

/// The status bar in `area`.
pub open spec fn status_bar(status: Seq<char>, area: Rect) -> StatusBarModel {
    StatusBarModel {
        area: area,
        content: SpanModel {
            text: status,
            style: Style { fg: Some(Color::Yellow), bg: None, bold: false, italic: true },
        },
    }
}

/// The title of a tab. A name with more than `max_chars` characters is cut, and an ellipsis stands
/// for its end.
pub open spec fn tab_label(name: Seq<char>, max_chars: nat) -> Seq<char> {
    if name.len() <= max_chars {
        spaced(name)
    } else {
        spaced(name.take(max_of(max_chars - 2, 0)) + "…"@)
    }
}

/// The titles of the tabs, or a note where there is no pod.
pub open spec fn tab_labels(pods: Seq<Seq<char>>) -> Seq<Seq<char>> {
    if pods.len() == 0 {
        seq![" (no pods in namespace) "@]
    } else {
        pods.map_values(|p: Seq<char>| tab_label(p, TAB_CHARS as nat))
    }
}

/// The index of the tab that stands out.
pub open spec fn tab_index(pods: Seq<Seq<char>>, selected: int) -> int {
    if pods.len() == 0 {
        0
    } else {
        min_of(selected, pods.len() - 1)
    }
}

/// The tab bar in `area`.
pub open spec fn tab_bar(
    area: Rect,
    namespace: Seq<char>,
    pods: Seq<Seq<char>>,
    selected: int,
) -> TabBarModel {
    TabBarModel {
        area: area,
        title: " Pods · ns/"@ + namespace + " "@,
        border: Color::Magenta,
        titles: tab_labels(pods),
        selected: tab_index(pods, selected),
        style: colored(Color::White),
        highlight: Style {
            fg: Some(Color::Black),
            bg: Some(Color::Cyan),
            bold: true,
            italic: false,
        },
        divider: "|"@,
    }
}

/// The title of the log pane.
pub open spec fn log_title(pods: Seq<Seq<char>>, selected: int) -> Seq<char> {
    if pods.len() == 0 {
        "no pods"@
    } else {
        "logs · "@ + pods[tab_index(pods, selected)]
    }
}

/// The text of the status bar: the banner and a reminder of the keys.
pub open spec fn status_text(banner: Seq<char>) -> Seq<char> {
    banner + "   ←/→ pod · ↑/↓ log · g tail · r reload pods · q quit"@
}

/// The whole screen on the given rows.
pub open spec fn k8s_view(
    rows: Rows,
    namespace: Seq<char>,
    pods: Seq<Seq<char>>,
    selected: int,
    log: LogModel,
    banner: Seq<char>,
) -> K8sViewModel {
    K8sViewModel {
        tabs: tab_bar(rows.tabs, namespace, pods, selected),
        log: log_body(log, rows.log, log_title(pods, selected)),
        status: status_bar(status_text(banner), rows.status),
    }
}

/// While the window follows the tail every line in it stands out; else none does.
pub proof fn shown_lines_stand_out_together(log: LogModel, height: u16, index: int)
    requires
        log.well_formed(),
        log.window_start(height) <= index < log.window_end(),
    ensures
        line_color(log, height, index) == if log.follow_tail {
            Color::LightGreen
        } else {
            Color::Gray
        },
{
}

/// The log pane shows the lines of the window, in order, and numbers each by its place in the
/// buffer.
pub proof fn log_pane_shows_the_window(log: LogModel, area: Rect, title: Seq<char>, k: int)
    requires
        log.well_formed(),
        0 <= k < log.window(area.height).len(),
    ensures
        log_body(log, area, title).lines.len() == log.window(area.height).len(),
        log_body(log, area, title).lines[k].text.text == log.window(area.height)[k],
        log_body(log, area, title).lines[k].number.text == line_number(
            log.window_start(area.height) + k,
        ),
{
}

/// A tab is at most two characters wider than the limit on names, unless a name is cut to nothing
/// at all.
pub proof fn tab_width_is_bounded(name: Seq<char>, max_chars: nat)
    requires
        max_chars > 0 || name.len() == 0,
    ensures
        tab_label(name, max_chars).len() <= max_chars + 2,
{
    reveal_strlit(" ");
    reveal_strlit("…");
}

/// The tab that stands out is one of the tabs.
pub proof fn highlighted_tab_exists(pods: Seq<Seq<char>>, selected: nat)
    ensures
        0 <= tab_index(pods, selected as int) < tab_labels(pods).len(),
{
}

/// Shows the line at `index`.
fn draw_log_line(app: &App, area: Rect, index: usize) -> (r: LogLine)
    requires
        app@.well_formed(),
        index < app@.lines.len(),
    ensures
        r@ == log_line(app@, area.height, index as int),
{
    let page: usize = app.page_height(area).max(1);
    let digits = decimal_text(index + 1);
    let aligned = right_align(digits.as_str(), NUMBER_WIDTH);
    let is_recent = index >= app.line_count().saturating_sub(page);
    let color = if app.follows_tail() && is_recent {
        Color::LightGreen
    } else {
        Color::Gray
    };
    LogLine {
        number: Span {
            text: concat2(aligned.as_str(), " │ "),
            style: Style::colored(Color::DarkGray),
        },
        text: Span { text: app.line(index).to_owned(), style: Style::colored(color) },
    }
}

/// Shows the lines of the window, each with its number, in a box with that title.
pub fn draw_log_body(app: &App, area: Rect, title: &str) -> (r: LogBody)
    requires
        app@.well_formed(),
    ensures
        r@ == log_body(app@, area, title@),
{
    let (start, end) = app.visible_slice(area);
    let mut lines: Vec<LogLine> = Vec::new();
    let mut index: usize = start;
    while index < end
        invariant
            app@.well_formed(),
            start == app@.window_start(area.height),
            end == app@.window_end(),
            start <= index <= end,
            end <= app@.lines.len(),
            lines@.len() == index - start,
            forall|k: int|
                0 <= k < lines@.len() ==> (#[trigger] lines@[k])@ == log_line(
                    app@,
                    area.height,
                    start + k,
                ),
        decreases end - index,
    {
        lines.push(draw_log_line(app, area, index));
        index = index + 1;
    }
    let r = LogBody {
        area: area,
        title: concat3(" ", title, " "),
        border: Color::Cyan,
        lines: lines,
        trim: true,
    };
    assert(r@.lines =~= log_body(app@, area, title@).lines);
    r
}

/// Shows the status text.
pub fn draw_log_status(app: &App, area: Rect) -> (r: StatusBar)
    ensures
        r@ == status_bar(app@.status, area),
{
    StatusBar {
        area: area,
        content: Span {
            text: app.status().to_owned(),
            style: Style { fg: Some(Color::Yellow), bg: None, bold: false, italic: true },
        },
    }
}

/// The title of the tab for a pod.
pub fn tab_title(name: &str, max_chars: usize) -> (r: String)
    ensures
        r@ == tab_label(name@, max_chars as nat),
{
    if name.unicode_len() <= max_chars {
        concat3(" ", name, " ")
    } else {
        let kept = name.substring_char(0, max_chars.saturating_sub(2));
        let cut = concat2(kept, "…");
        assert(kept@ =~= name@.take(max_of(max_chars - 2, 0)));
        concat3(" ", cut.as_str(), " ")
    }
}

/// The titles of the tabs.
fn tab_titles(pods: &[String]) -> (r: Vec<String>)
    ensures
        views(r@) == tab_labels(views(pods@)),
{
    let mut titles: Vec<String> = Vec::new();
    if pods.len() == 0 {
        titles.push(" (no pods in namespace) ".to_owned());
    } else {
        let mut i: usize = 0;
        while i < pods.len()
            invariant
                i <= pods@.len(),
                titles@.len() == i,
                forall|k: int|
                    0 <= k < i ==> (#[trigger] titles@[k])@ == tab_label(
                        pods@[k]@,
                        TAB_CHARS as nat,
                    ),
            decreases pods@.len() - i,
        {
            titles.push(tab_title(pods[i].as_str(), TAB_CHARS));
            i = i + 1;
        }
    }
    assert(views(titles@) =~= tab_labels(views(pods@)));
    titles
}

/// Shows the tab bar, the log pane and the status bar on the given rows.
pub fn draw_rows(
    rows: Rows,
    namespace: &str,
    pods: &[String],
    selected: usize,
    log_app: &App,
    banner: &str,
) -> (r: K8sView)
    requires
        log_app@.well_formed(),
    ensures
        r@ == k8s_view(rows, namespace@, views(pods@), selected as int, log_app@, banner@),
{
    let tab_index: usize = if pods.len() == 0 {
        0
    } else {
        selected.min(pods.len() - 1)
    };
    let tabs = TabBar {
        area: rows.tabs,
        title: concat3(" Pods · ns/", namespace, " "),
        border: Color::Magenta,
        titles: tab_titles(pods),
        selected: tab_index,
        style: Style::colored(Color::White),
        highlight: Style {
            fg: Some(Color::Black),
            bg: Some(Color::Cyan),
            bold: true,
            italic: false,
        },
        divider: "|".to_owned(),
    };
    let log_title: String = if pods.len() == 0 {
        "no pods".to_owned()
    } else {
        concat2("logs · ", pods[tab_index].as_str())
    };
    let log = draw_log_body(log_app, rows.log, log_title.as_str());
    let mut status_app = App::new();
    status_app.set_status(
        concat2(banner, "   ←/→ pod · ↑/↓ log · g tail · r reload pods · q quit"),
    );
    let status = draw_log_status(&status_app, rows.status);
    K8sView { tabs: tabs, log: log, status: status }
}

/// Shows the tab bar, the log pane and the status bar, one below the other in `area`.
pub fn draw_k8s_view(
    area: Rect,
    namespace: &str,
    pods: &[String],
    selected: usize,
    log_app: &App,
    banner: &str,
) -> (r: K8sView)
    requires
        log_app@.well_formed(),
    ensures
        screen_rows(area, r@.rows()),
        r@ == k8s_view(
            r@.rows(),
            namespace@,
            views(pods@),
            selected as int,
            log_app@,
            banner@,
        ),
{
    let rows = split_screen(area);
    draw_rows(rows, namespace, pods, selected, log_app, banner)
}

} // verus!
