//! The viewer as a state machine: events come in, actions go out.

use vstd::prelude::*;

use crate::buffer::{max_of, min_of, App, LogModel};
use crate::draw::{draw_k8s_view, k8s_view, K8sView};
use crate::k8s::{
    copy_text, followed_log, pod_list, pod_list_request, spawn_pod_log_reader, text_of, LogRequest,
    LogRequestModel, PodListModel, PodListRequest,
};
use crate::keys::{command, is_quit, is_quit_key, key_command, Command, Key};
use crate::layout::{screen_rows, Rect};
use crate::names::{sort_names, sorted_names, sorted_names_are_ordered, views};
use crate::text::{concat2, concat3, decimal, decimal_text};

verus! {

/// The time between two redraws when nothing else happens, in milliseconds.
pub const TICK_MILLIS: u64 = 200;

/// The lines of the terminal that a page of the log leaves to bars and borders.
pub const PAGE_MARGIN: u16 = 6;

/// A direction to scroll in.
#[derive(Clone, Copy, Debug, PartialEq, Eq, Structural)]
pub enum Direction {
    Up,
    Down,
}

/// What happened.
#[derive(Debug, PartialEq, Eq)]
pub enum Event {
    /// The log reader of that number brought a line.
    Line(u64, String),
    /// A reload of the pods ended.
    Reloaded(Result<Vec<String>, String>),
    /// A key was pressed.
    Key(Key),
    /// The height of the terminal was measured, to scroll by a page.
    Height(Direction, u16),
    /// Time passed.
    Tick,
}

/// What is to be done. After every action but [`Action::Quit`] the screen is drawn anew.
#[derive(Debug, PartialEq, Eq)]
pub enum Action {
    /// Nothing more.
    Wait,
    /// Stop the log reader, if one runs, and leave.
    Quit,
    /// Stop the log reader, if one runs, and start one with that number.
    Follow(u64, LogRequest),
    /// Stop the log reader, if one runs.
    Unfollow,
    /// List the pods and report the outcome as [`Event::Reloaded`].
    ListPods(PodListRequest),
    /// Measure the terminal and report its height as [`Event::Height`].
    Measure(Direction),
}

/// [`Event`] as a value.
pub enum EventModel {
    Line(u64, Seq<char>),
    Reloaded(Result<Seq<Seq<char>>, Seq<char>>),
    Key(Key),
    Height(Direction, u16),
    Tick,
}

/// [`Action`] as a value.
pub enum ActionModel {
    Wait,
    Quit,
    Follow(u64, LogRequestModel),
    Unfollow,
    ListPods(PodListModel),
    Measure(Direction),
}

impl View for Event {
    type V = EventModel;

    open spec fn view(&self) -> EventModel {
        match self {
            Event::Line(reader, line) => EventModel::Line(*reader, line@),
            Event::Reloaded(Ok(names)) => EventModel::Reloaded(Ok(views(names@))),
            Event::Reloaded(Err(error)) => EventModel::Reloaded(Err(error@)),
            Event::Key(key) => EventModel::Key(*key),
            Event::Height(direction, height) => EventModel::Height(*direction, *height),
            Event::Tick => EventModel::Tick,
        }
    }
}

impl View for Action {
    type V = ActionModel;

    open spec fn view(&self) -> ActionModel {
        match self {
            Action::Wait => ActionModel::Wait,
            Action::Quit => ActionModel::Quit,
            Action::Follow(reader, request) => ActionModel::Follow(*reader, request@),
            Action::Unfollow => ActionModel::Unfollow,
            Action::ListPods(request) => ActionModel::ListPods(request@),
            Action::Measure(direction) => ActionModel::Measure(*direction),
        }
    }
}

/// The number of lines that a page key scrolls by on a terminal of that height.
pub open spec fn page_step(height: u16) -> int {
    max_of(height - PAGE_MARGIN, 1)
}

/// The number of the log reader that is started after the one with that number. The numbers start
/// over when they are used up.
pub open spec fn next_reader(reader: u64) -> u64 {
    if reader == u64::MAX {
        0
    } else {
        (reader + 1) as u64
    }
}

/// The banner that counts the pods.
pub open spec fn pod_banner(namespace: Seq<char>, pods: nat) -> Seq<char> {
    "local kube · ns/"@ + namespace + " · "@ + decimal(pods) + " pod(s)"@
}

/// What a [`Dashboard`] holds.
pub struct DashboardModel {
    pub namespace: Seq<char>,
    pub container: Option<Seq<char>>,
    pub tail_lines: int,
    /// The names of the pods, one for each tab.
    pub pods: Seq<Seq<char>>,
    /// The index of the selected tab.
    pub selected: int,
    pub log: LogModel,
    pub banner: Seq<char>,
    /// The pod whose log is read.
    pub followed: Option<Seq<char>>,
    /// The number of the log reader that was started last.
    pub reader: u64,
}

impl DashboardModel {
    /// The log is well-formed, the selected tab exists, the log that is read is that of the selected
    /// pod, and its window is not scrolled beyond its oldest line. Without pods no log is read and
    /// none is shown.
    pub open spec fn well_formed(self) -> bool {
        &&& self.log.well_formed()
        &&& if self.pods.len() == 0 {
            &&& self.selected == 0
            &&& self.followed == None::<Seq<char>>
            &&& self.log.lines.len() == 0
        } else {
            &&& 0 <= self.selected < self.pods.len()
            &&& self.followed == Some(self.pods[self.selected])
            &&& self.log.scroll_from_bottom <= self.log.top_offset()
        }
    }

    /// The request for the log of the selected pod.
    pub open spec fn log_request(self) -> LogRequestModel {
        followed_log(self.namespace, self.pods[self.selected], self.container, self.tail_lines)
    }

    /// The action that starts the log reader of the selected pod.
    pub open spec fn following(self) -> ActionModel {
        ActionModel::Follow(self.reader, self.log_request())
    }

    /// The log of the selected pod is read by a new log reader, and shown from its start.
    pub open spec fn refollowed(self) -> DashboardModel {
        DashboardModel {
            log: self.log.restarted(),
            followed: Some(self.pods[self.selected]),
            reader: next_reader(self.reader),
            ..self
        }
    }

    /// The banner counts the pods.
    pub open spec fn counted(self) -> DashboardModel {
        DashboardModel { banner: pod_banner(self.namespace, self.pods.len()), ..self }
    }

    /// The tab at `index` is selected and its log read.
    pub open spec fn selecting(self, index: int) -> DashboardModel {
        DashboardModel { selected: index, ..self }.refollowed().counted()
    }

    /// There are no pods any more. The scroll position of the log stays.
    pub open spec fn emptied(self) -> DashboardModel {
        DashboardModel {
            pods: Seq::empty(),
            selected: 0,
            log: self.log.cleared(),
            followed: None,
            ..self
        }.counted()
    }

    /// The state and the action after the pods were listed again.
    pub open spec fn reloaded(self, names: Seq<Seq<char>>) -> (DashboardModel, ActionModel) {
        if names.len() == 0 {
            (self.emptied(), ActionModel::Unfollow)
        } else {
            let pods = sorted_names(names);
            let next = DashboardModel { pods: pods, ..self }.selecting(
                min_of(self.selected, pods.len() - 1),
            );
            (next, next.following())
        }
    }

    /// The state and the action after a command.
    pub open spec fn commanded(self, command: Command) -> (DashboardModel, ActionModel) {
        match command {
            Command::Quit => (self, ActionModel::Quit),
            Command::FollowTail => (
                DashboardModel { log: self.log.at_tail(), ..self },
                ActionModel::Wait,
            ),
            Command::PreviousPod => if self.pods.len() == 0 {
                (self, ActionModel::Wait)
            } else {
                let next = self.selecting(max_of(self.selected - 1, 0));
                (next, next.following())
            },
            Command::NextPod => if self.selected + 1 < self.pods.len() {
                let next = self.selecting(self.selected + 1);
                (next, next.following())
            } else {
                (self, ActionModel::Wait)
            },
            Command::ReloadPods => (self, ActionModel::ListPods(pod_list(self.namespace))),
            Command::LineUp => (
                DashboardModel { log: self.log.scrolled_up(1), ..self },
                ActionModel::Wait,
            ),
            Command::LineDown => (
                DashboardModel { log: self.log.scrolled_down(1), ..self },
                ActionModel::Wait,
            ),
            Command::PageUp => (self, ActionModel::Measure(Direction::Up)),
            Command::PageDown => (self, ActionModel::Measure(Direction::Down)),
            Command::Oldest => (
                DashboardModel { log: self.log.at_head(), ..self },
                ActionModel::Wait,
            ),
            Command::Newest => (
                DashboardModel { log: self.log.at_tail(), ..self },
                ActionModel::Wait,
            ),
            Command::Ignore => (self, ActionModel::Wait),
        }
    }

    /// The log is scrolled by a page of a terminal of that height.
    pub open spec fn paged(self, direction: Direction, height: u16) -> DashboardModel {
        let n = page_step(height) as nat;
        DashboardModel {
            log: match direction {
                Direction::Up => self.log.scrolled_up(n),
                Direction::Down => self.log.scrolled_down(n),
            },
            ..self
        }
    }

    /// The state and the action after an event.
    pub open spec fn step(self, event: EventModel) -> (DashboardModel, ActionModel) {
        match event {
            EventModel::Line(reader, line) => if self.followed is Some && reader == self.reader {
                (DashboardModel { log: self.log.pushed(line), ..self }, ActionModel::Wait)
            } else {
                (self, ActionModel::Wait)
            },
            EventModel::Reloaded(Ok(names)) => self.reloaded(names),
            EventModel::Reloaded(Err(error)) => (
                DashboardModel { banner: "reload failed: "@ + error, ..self },
                ActionModel::Wait,
            ),
            EventModel::Key(key) => self.commanded(key_command(key)),
            EventModel::Height(direction, height) => (
                self.paged(direction, height),
                ActionModel::Wait,
            ),
            EventModel::Tick => (self, ActionModel::Wait),
        }
    }

    /// The state after some events.
    pub open spec fn run(self, events: Seq<EventModel>) -> DashboardModel
        decreases events.len(),
    {
        if events.len() == 0 {
            self
        } else {
            self.run(events.drop_last()).step(events.last()).0
        }
    }
}

/// The state at the start, with the pods that were listed.
pub open spec fn opened(
    namespace: Seq<char>,
    container: Option<Seq<char>>,
    tail_lines: int,
    pods: Seq<Seq<char>>,
) -> DashboardModel {
    DashboardModel {
        namespace: namespace,
        container: container,
        tail_lines: tail_lines,
        pods: pods,
        selected: 0,
        log: LogModel::empty(),
        banner: pod_banner(namespace, pods.len()),
        followed: if pods.len() == 0 {
            None
        } else {
            Some(pods[0])
        },
        reader: if pods.len() == 0 {
            0
        } else {
            1
        },
    }
}

/// The action at the start: to follow the first pod, if there is one.
pub open spec fn opening_action(dashboard: DashboardModel) -> ActionModel {
    if dashboard.pods.len() == 0 {
        ActionModel::Wait
    } else {
        dashboard.following()
    }
}

/// The banner that counts the pods.
fn count_banner(namespace: &str, pods: usize) -> (r: String)
    ensures
        r@ == pod_banner(namespace@, pods as nat),
{
    let head = concat3("local kube · ns/", namespace, " · ");
    let count = decimal_text(pods);
    concat3(head.as_str(), count.as_str(), " pod(s)")
}

/// The tabs of the pods, the log of the selected one, and a banner.
pub struct Dashboard {
    namespace: String,
    container: Option<String>,
    tail_lines: i64,
    pods: Vec<String>,
    selected: usize,
    log: App,
    banner: String,
    followed: Option<String>,
    reader: u64,
}

impl View for Dashboard {
    type V = DashboardModel;

    closed spec fn view(&self) -> DashboardModel {
        DashboardModel {
            namespace: self.namespace@,
            container: text_of(self.container),
            tail_lines: self.tail_lines as int,
            pods: views(self.pods@),
            selected: self.selected as int,
            log: self.log@,
            banner: self.banner@,
            followed: text_of(self.followed),
            reader: self.reader,
        }
    }
}

impl Dashboard {
    /// Opens the dashboard on the pods that were listed.
    pub fn open(
        namespace: String,
        container: Option<String>,
        tail_lines: u32,
        pods: Vec<String>,
    ) -> (r: (Self, Action))
        ensures
            r.0@ == opened(namespace@, text_of(container), tail_lines as int, views(pods@)),
            r.1@ == opening_action(r.0@),
            r.0@.well_formed(),
    {
        let banner = count_banner(namespace.as_str(), pods.len());
        let mut dashboard = Dashboard {
            namespace: namespace,
            container: container,
            tail_lines: tail_lines as i64,
            pods: pods,
            selected: 0,
            log: App::new(),
            banner: banner,
            followed: None,
            reader: 0,
        };
        if dashboard.pods.len() > 0 {
            let action = dashboard.restart_k8s_log_reader();
            assert(dashboard@.log.lines =~= Seq::empty());
            (dashboard, action)
        } else {
            (dashboard, Action::Wait)
        }
    }

    /// Empties the log, follows its tail and asks for a new reader of the selected pod's log. From
    /// now on only the lines of that reader are shown.
    fn restart_k8s_log_reader(&mut self) -> (r: Action)
        requires
            old(self)@.log.well_formed(),
            0 <= old(self)@.selected < old(self)@.pods.len(),
        ensures
            final(self)@ == old(self)@.refollowed(),
            r@ == final(self)@.following(),
    {
        self.log.restart();
        let pod = self.pods[self.selected].clone();
        self.followed = Some(pod.clone());
        self.reader = self.reader.wrapping_add(1);
        let request = spawn_pod_log_reader(
            self.namespace.clone(),
            pod,
            copy_text(&self.container),
            self.tail_lines,
        );
        Action::Follow(self.reader, request)
    }

    /// Makes the banner count the pods.
    fn count_pods(&mut self)
        ensures
            final(self)@ == old(self)@.counted(),
    {
        self.banner = count_banner(self.namespace.as_str(), self.pods.len());
    }

    /// Selects the tab at `index` and follows its log.
    fn select(&mut self, index: usize) -> (r: Action)
        requires
            old(self)@.log.well_formed(),
            index < old(self)@.pods.len(),
        ensures
            final(self)@ == old(self)@.selecting(index as int),
            r@ == final(self)@.following(),
    {
        self.selected = index;
        let action = self.restart_k8s_log_reader();
        self.count_pods();
        action
    }

    /// Takes over the pods that a reload brought.
    fn replace_pods(&mut self, names: Vec<String>) -> (r: Action)
        requires
            old(self)@.well_formed(),
        ensures
            (final(self)@, r@) == old(self)@.reloaded(views(names@)),
    {
        let pods = sort_names(names);
        proof {
            sorted_names_are_ordered(views(names@));
        }
        self.pods = pods;
        if self.pods.len() == 0 {
            self.followed = None;
            self.log.clear_lines();
            self.selected = 0;
            self.count_pods();
            assert(self@.pods =~= Seq::empty());
            Action::Unfollow
        } else {
            let index: usize = self.selected.min(self.pods.len() - 1);
            self.select(index)
        }
    }

    /// Carries out a command.
    fn obey(&mut self, command: Command) -> (r: Action)
        requires
            old(self)@.well_formed(),
        ensures
            (final(self)@, r@) == old(self)@.commanded(command),
    {
        match command {
            Command::Quit => Action::Quit,
            Command::FollowTail | Command::Newest => {
                self.log.snap_to_tail();
                Action::Wait
            },
            Command::PreviousPod => {
                if self.pods.len() == 0 {
                    Action::Wait
                } else {
                    self.select(self.selected.saturating_sub(1))
                }
            },
            Command::NextPod => {
                if self.pods.len() > 0 && self.selected + 1 < self.pods.len() {
                    self.select(self.selected + 1)
                } else {
                    Action::Wait
                }
            },
            Command::ReloadPods => Action::ListPods(pod_list_request(self.namespace.as_str())),
            Command::LineUp => {
                self.log.scroll_up(1);
                Action::Wait
            },
            Command::LineDown => {
                self.log.scroll_down(1);
                Action::Wait
            },
            Command::PageUp => Action::Measure(Direction::Up),
            Command::PageDown => Action::Measure(Direction::Down),
            Command::Oldest => {
                self.log.jump_to_head();
                Action::Wait
            },
            Command::Ignore => Action::Wait,
        }
    }

    /// Scrolls the log by a page of a terminal of that height.
    fn scroll_page(&mut self, direction: Direction, height: u16)
        requires
            old(self)@.well_formed(),
        ensures
            final(self)@ == old(self)@.paged(direction, height),
    {
        let lines: usize = (height.saturating_sub(PAGE_MARGIN) as usize).max(1);
        match direction {
            Direction::Up => self.log.scroll_up(lines),
            Direction::Down => self.log.scroll_down(lines),
        }
    }

    /// Takes an event and says what is to be done.
    pub fn handle(&mut self, event: Event) -> (r: Action)
        requires
            old(self)@.well_formed(),
        ensures
            (final(self)@, r@) == old(self)@.step(event@),
            final(self)@.well_formed(),
    {
        match event {
            Event::Line(reader, line) => {
                if self.followed.is_some() && reader == self.reader {
                    self.log.push_line(line);
                }
                Action::Wait
            },
            Event::Reloaded(Ok(names)) => self.replace_pods(names),
            Event::Reloaded(Err(error)) => {
                self.banner = concat2("reload failed: ", error.as_str());
                Action::Wait
            },
            Event::Key(key) => self.obey(command(key)),
            Event::Height(direction, height) => {
                self.scroll_page(direction, height);
                Action::Wait
            },
            Event::Tick => Action::Wait,
        }
    }

    /// What the screen shows in `area`.
    pub fn screen(&self, area: Rect) -> (r: K8sView)
        requires
            self@.well_formed(),
        ensures
            screen_rows(area, r@.rows()),
            r@ == k8s_view(
                r@.rows(),
                self@.namespace,
                self@.pods,
                self@.selected,
                self@.log,
                self@.banner,
            ),
    {
        draw_k8s_view(
            area,
            self.namespace.as_str(),
            self.pods.as_slice(),
            self.selected,
            &self.log,
            self.banner.as_str(),
        )
    }

    /// The names of the pods, one for each tab.
    pub fn pods(&self) -> (r: &[String])
        ensures
            views(r@) == self@.pods,
    {
        self.pods.as_slice()
    }

    /// The index of the selected tab.
    pub fn selected(&self) -> (r: usize)
        ensures
            r == self@.selected,
    {
        self.selected
    }

    /// The lines that the current log reader brought, with the scroll position.
    pub fn log(&self) -> (r: &App)
        ensures
            r@ == self@.log,
    {
        &self.log
    }

    /// The banner.
    pub fn banner(&self) -> (r: &str)
        ensures
            r@ == self@.banner,
    {
        self.banner.as_str()
    }

    /// The pod whose log is read.
    pub fn followed(&self) -> (r: &Option<String>)
        ensures
            text_of(*r) == self@.followed,
    {
        &self.followed
    }

    /// The number of the log reader that was started last.
    pub fn reader(&self) -> (r: u64)
        ensures
            r == self@.reader,
    {
        self.reader
    }
}

/// A message that stays until it is dismissed.
#[derive(Debug, PartialEq, Eq)]
pub struct ErrorScreen {
    pub title: String,
    pub text: String,
}

/// The screen shows that the client could not be made.
pub open spec fn shows_client_error(screen: ErrorScreen, error: Seq<char>) -> bool {
    &&& screen.title@ == " k8s "@
    &&& screen.text@ == "Kubernetes client error:\n\n"@ + error + "\n\nPress q to exit."@
}

/// The screen shows that the pods could not be listed.
pub open spec fn shows_list_error(screen: ErrorScreen, error: Seq<char>) -> bool {
    &&& screen.title@ == " k8s "@
    &&& screen.text@ == "List pods failed:\n\n"@ + error + "\n\nPress q to exit."@
}

impl ErrorScreen {
    /// Whether the key dismisses the message and closes the viewer.
    pub fn dismissed_by(&self, key: Key) -> (r: bool)
        ensures
            r == is_quit_key(key),
    {
        is_quit(key)
    }
}

/// What the command line asked for.
#[derive(Debug, PartialEq, Eq)]
pub struct Launch {
    pub namespace: String,
    pub container: Option<String>,
    pub tail_lines: u32,
}

/// What comes next while the viewer starts.
pub enum Opening {
    /// List the pods.
    ListPods(PodListRequest),
    /// Show a message until it is dismissed, and leave.
    Failed(ErrorScreen),
    /// Run the dashboard, with that action first.
    Running(Dashboard, Action),
}

impl Launch {
    /// What comes after the attempt to get a client.
    pub fn after_connect(&self, outcome: Result<(), String>) -> (r: Opening)
        ensures
            match outcome {
                Ok(_) => r matches Opening::ListPods(request) && request@ == pod_list(
                    self.namespace@,
                ),
                Err(error) => r matches Opening::Failed(screen) && shows_client_error(
                    screen,
                    error@,
                ),
            },
    {
        match outcome {
            Ok(_) => Opening::ListPods(pod_list_request(self.namespace.as_str())),
            Err(error) => Opening::Failed(
                ErrorScreen {
                    title: " k8s ".to_owned(),
                    text: concat3(
                        "Kubernetes client error:\n\n",
                        error.as_str(),
                        "\n\nPress q to exit.",
                    ),
                },
            ),
        }
    }

    /// What comes after the attempt to list the pods.
    pub fn after_list(self, outcome: Result<Vec<String>, String>) -> (r: Opening)
        ensures
            match outcome {
                Ok(pods) => r matches Opening::Running(dashboard, action) && dashboard@ == opened(
                    self.namespace@,
                    text_of(self.container),
                    self.tail_lines as int,
                    views(pods@),
                ) && action@ == opening_action(dashboard@) && dashboard@.well_formed(),
                Err(error) => r matches Opening::Failed(screen) && shows_list_error(
                    screen,
                    error@,
                ),
            },
    {
        match outcome {
            Ok(pods) => {
                let (dashboard, action) = Dashboard::open(
                    self.namespace,
                    self.container,
                    self.tail_lines,
                    pods,
                );
                Opening::Running(dashboard, action)
            },
            Err(error) => Opening::Failed(
                ErrorScreen {
                    title: " k8s ".to_owned(),
                    text: concat3(
                        "List pods failed:\n\n",
                        error.as_str(),
                        "\n\nPress q to exit.",
                    ),
                },
            ),
        }
    }
}

} // verus!
