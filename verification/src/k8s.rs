//! Kubernetes: the steps towards a client, the list of pods, and the reader that follows a log.

use vstd::prelude::*;

use crate::names::{sort_names, sorted_names, sorted_names_are_ordered, views};
use crate::text::concat2;

verus! {

/// The number of pods that a list asks for at most.
pub const POD_LIMIT: u32 = 500;

/// The text of an optional string.
pub open spec fn text_of(s: Option<String>) -> Option<Seq<char>> {
    match s {
        Some(s) => Some(s@),
        None => None,
    }
}

/// A copy of an optional string.
pub fn copy_text(s: &Option<String>) -> (r: Option<String>)
    ensures
        text_of(r) == text_of(*s),
{
    match s {
        Some(s) => Some(s.clone()),
        None => None,
    }
}

/// What is left to do for a client.
#[derive(Clone, Copy, Debug, PartialEq, Eq, Structural)]
pub enum ConnectStep {
    /// Read the kubeconfig file that was named.
    ReadKubeconfig,
    /// Make a configuration from the file that was read.
    LoadKubeconfig,
    /// Find a kubeconfig and make a configuration from it.
    InferKubeconfig,
    /// Make a client from the configuration.
    BuildClient,
    /// Nothing: the client is there.
    Connected,
}

/// How to get a client.
#[derive(Debug, PartialEq, Eq)]
pub struct ConnectPlan {
    /// The context of the kubeconfig to use, or its own default.
    pub context: Option<String>,
    pub first: ConnectStep,
}

/// The step after `step`, when that succeeded.
pub open spec fn following_step(step: ConnectStep) -> ConnectStep {
    match step {
        ConnectStep::ReadKubeconfig => ConnectStep::LoadKubeconfig,
        ConnectStep::LoadKubeconfig => ConnectStep::BuildClient,
        ConnectStep::InferKubeconfig => ConnectStep::BuildClient,
        ConnectStep::BuildClient => ConnectStep::Connected,
        ConnectStep::Connected => ConnectStep::Connected,
    }
}

/// What an error message says of the step that failed.
pub open spec fn step_label(step: ConnectStep) -> Seq<char> {
    match step {
        ConnectStep::ReadKubeconfig => "read kubeconfig: "@,
        ConnectStep::LoadKubeconfig => "kube config: "@,
        ConnectStep::InferKubeconfig => "kube config: "@,
        _ => "kube client: "@,
    }
}

/// The step after `n` steps that succeeded.
pub open spec fn step_after(first: ConnectStep, n: nat) -> ConnectStep
    decreases n,
{
    if n == 0 {
        first
    } else {
        following_step(step_after(first, (n - 1) as nat))
    }
}

/// The first step: to read the kubeconfig file if one was named, else to find one.
pub open spec fn first_step(kubeconfig_named: bool) -> ConnectStep {
    if kubeconfig_named {
        ConnectStep::ReadKubeconfig
    } else {
        ConnectStep::InferKubeconfig
    }
}

/// When no step fails, a client is there after three steps with a file that was named, and after
/// two without one.
pub proof fn connecting_succeeds(kubeconfig_named: bool)
    ensures
        step_after(first_step(kubeconfig_named), if kubeconfig_named {
            3
        } else {
            2
        }) == ConnectStep::Connected,
{
    reveal_with_fuel(step_after, 4);
}

/// Plans a connection with the kubeconfig and the context that were named, if any were.
pub fn connect(kubeconfig_named: bool, kube_context: Option<&str>) -> (r: ConnectPlan)
    ensures
        text_of(r.context) == match kube_context {
            Some(context) => Some(context@),
            None => None,
        },
        r.first == first_step(kubeconfig_named),
{
    let context: Option<String> = match kube_context {
        Some(context) => Some(context.to_owned()),
        None => None,
    };
    let first = if kubeconfig_named {
        ConnectStep::ReadKubeconfig
    } else {
        ConnectStep::InferKubeconfig
    };
    ConnectPlan { context: context, first: first }
}

/// What comes after `step`: the next step, or a message if it failed.
pub fn connect_next(step: ConnectStep, outcome: Result<(), String>) -> (r: Result<
    ConnectStep,
    String,
>)
    requires
        step != ConnectStep::Connected,
    ensures
        match outcome {
            Ok(_) => r == Ok::<ConnectStep, String>(following_step(step)),
            Err(error) => r matches Err(message) && message@ == step_label(step) + error@,
        },
{
    match outcome {
        Ok(_) => Ok(
            match step {
                ConnectStep::ReadKubeconfig => ConnectStep::LoadKubeconfig,
                ConnectStep::LoadKubeconfig => ConnectStep::BuildClient,
                ConnectStep::InferKubeconfig => ConnectStep::BuildClient,
                _ => ConnectStep::Connected,
            },
        ),
        Err(error) => {
            let label: &str = match step {
                ConnectStep::ReadKubeconfig => "read kubeconfig: ",
                ConnectStep::LoadKubeconfig => "kube config: ",
                ConnectStep::InferKubeconfig => "kube config: ",
                _ => "kube client: ",
            };
            Err(concat2(label, error.as_str()))
        },
    }
}

/// A request for the pods of a namespace.
#[derive(Debug, PartialEq, Eq)]
pub struct PodListRequest {
    pub namespace: String,
    pub limit: u32,
}

/// What a [`PodListRequest`] asks for.
pub struct PodListModel {
    pub namespace: Seq<char>,
    pub limit: int,
}

impl View for PodListRequest {
    type V = PodListModel;

    open spec fn view(&self) -> PodListModel {
        PodListModel { namespace: self.namespace@, limit: self.limit as int }
    }
}

/// The request for the pods of `namespace`.
pub open spec fn pod_list(namespace: Seq<char>) -> PodListModel {
    PodListModel { namespace: namespace, limit: POD_LIMIT as int }
}

/// Asks for the pods of `namespace`.
pub fn pod_list_request(namespace: &str) -> (r: PodListRequest)
    ensures
        r@ == pod_list(namespace@),
{
    PodListRequest { namespace: namespace.to_owned(), limit: POD_LIMIT }
}

/// The names among `items`, in their order. An item without a name is passed over.
pub open spec fn present_names(items: Seq<Option<String>>) -> Seq<Seq<char>>
    decreases items.len(),
{
    if items.len() == 0 {
        Seq::empty()
    } else {
        match items.last() {
            Some(name) => present_names(items.drop_last()).push(name@),
            None => present_names(items.drop_last()),
        }
    }
}

proof fn lemma_present_names_contain(items: Seq<Option<String>>, name: Seq<char>)
    ensures
        present_names(items).contains(name) <==> exists|i: int|
            0 <= i < items.len() && text_of(#[trigger] items[i]) == Some(name),
    decreases items.len(),
{
    if items.len() > 0 {
        let earlier = items.drop_last();
        lemma_present_names_contain(earlier, name);
        assert(items[items.len() - 1] == items.last());
        if present_names(items).contains(name) {
            if present_names(earlier).contains(name) {
                let i = choose|i: int|
                    0 <= i < earlier.len() && text_of(#[trigger] earlier[i]) == Some(name);
                assert(text_of(items[i]) == Some(name));
            } else {
                assert(text_of(items[items.len() - 1]) == Some(name));
            }
        }
        if exists|i: int| 0 <= i < items.len() && text_of(#[trigger] items[i]) == Some(name) {
            let i = choose|i: int|
                0 <= i < items.len() && text_of(#[trigger] items[i]) == Some(name);
            if i < earlier.len() {
                assert(text_of(earlier[i]) == Some(name));
                let k = present_names(earlier).index_of(name);
                assert(present_names(items)[k] == name);
            } else {
                assert(present_names(items).last() == name);
            }
        }
    }
}

/// The list of names holds the name of each pod that has one, and no other.
pub proof fn each_named_pod_is_listed(items: Seq<Option<String>>, name: Seq<char>)
    ensures
        sorted_names(present_names(items)).contains(name) <==> exists|i: int|
            0 <= i < items.len() && text_of(#[trigger] items[i]) == Some(name),
{
    broadcast use vstd::seq_lib::group_to_multiset_ensures;

    let names = present_names(items);
    lemma_present_names_contain(items, name);
    sorted_names_are_ordered(names);
    assert(names.contains(name) <==> names.to_multiset().count(name) > 0);
    assert(sorted_names(names).contains(name) <==> sorted_names(names).to_multiset().count(name)
        > 0);
}

/// The names among `items`, in their order.
fn collect_names(items: Vec<Option<String>>) -> (r: Vec<String>)
    ensures
        views(r@) == present_names(items@),
{
    let mut names: Vec<String> = Vec::new();
    let mut i: usize = 0;
    assert(views(names@) =~= present_names(items@.take(0)));
    while i < items.len()
        invariant
            i <= items@.len(),
            views(names@) == present_names(items@.take(i as int)),
        decreases items@.len() - i,
    {
        let ghost before = views(names@);
        assert(items@.take(i + 1).drop_last() =~= items@.take(i as int));
        if let Some(name) = &items[i] {
            names.push(name.clone());
            assert(views(names@) =~= before.push(name@));
        }
        i = i + 1;
    }
    assert(items@.take(i as int) =~= items@);
    names
}

/// The names of the pods that a request brought, in ascending order, or a message if it failed.
pub fn list_pod_names(outcome: Result<Vec<Option<String>>, String>) -> (r: Result<
    Vec<String>,
    String,
>)
    ensures
        match outcome {
            Ok(items) => r matches Ok(names) && views(names@) == sorted_names(
                present_names(items@),
            ),
            Err(error) => r matches Err(message) && message@ == "list pods: "@ + error@,
        },
{
    match outcome {
        Ok(items) => Ok(sort_names(collect_names(items))),
        Err(error) => Err(concat2("list pods: ", error.as_str())),
    }
}

/// A request for the log of a pod.
#[derive(Debug, PartialEq, Eq)]
pub struct LogRequest {
    pub namespace: String,
    pub pod: String,
    /// The container, for a pod that has several.
    pub container: Option<String>,
    /// How many lines of history come first.
    pub tail_lines: i64,
    /// Whether the log goes on as lines are written.
    pub follow: bool,
}

/// What a [`LogRequest`] asks for.
pub struct LogRequestModel {
    pub namespace: Seq<char>,
    pub pod: Seq<char>,
    pub container: Option<Seq<char>>,
    pub tail_lines: int,
    pub follow: bool,
}

impl View for LogRequest {
    type V = LogRequestModel;

    open spec fn view(&self) -> LogRequestModel {
        LogRequestModel {
            namespace: self.namespace@,
            pod: self.pod@,
            container: text_of(self.container),
            tail_lines: self.tail_lines as int,
            follow: self.follow,
        }
    }
}

/// The request that follows the log of a pod.
pub open spec fn followed_log(
    namespace: Seq<char>,
    pod: Seq<char>,
    container: Option<Seq<char>>,
    tail_lines: int,
) -> LogRequestModel {
    LogRequestModel {
        namespace: namespace,
        pod: pod,
        container: container,
        tail_lines: tail_lines,
        follow: true,
    }
}

/// What happened to a log reader.
#[derive(Debug, PartialEq, Eq)]
pub enum ReaderEvent {
    /// The log is open.
    Opened,
    /// The log could not be opened.
    OpenFailed(String),
    /// A line was read.
    Line(String),
    /// The log ended.
    Ended,
    /// The log could not be read on.
    ReadFailed,
    /// A line was handed on.
    Sent,
    /// Nobody takes lines any more.
    SendFailed,
}

/// What a log reader does next.
#[derive(Debug, PartialEq, Eq)]
pub enum ReaderStep {
    /// Read the next line.
    Read,
    /// Hand a line on.
    Send(String),
    /// Hand a last line on and stop, whether it was taken or not.
    Report(String),
    /// Stop.
    Stop,
}

/// [`ReaderEvent`] as a value.
pub enum ReaderEventModel {
    Opened,
    OpenFailed(Seq<char>),
    Line(Seq<char>),
    Ended,
    ReadFailed,
    Sent,
    SendFailed,
}

/// [`ReaderStep`] as a value.
pub enum ReaderStepModel {
    Read,
    Send(Seq<char>),
    Report(Seq<char>),
    Stop,
}

impl View for ReaderEvent {
    type V = ReaderEventModel;

    open spec fn view(&self) -> ReaderEventModel {
        match self {
            ReaderEvent::Opened => ReaderEventModel::Opened,
            ReaderEvent::OpenFailed(error) => ReaderEventModel::OpenFailed(error@),
            ReaderEvent::Line(line) => ReaderEventModel::Line(line@),
            ReaderEvent::Ended => ReaderEventModel::Ended,
            ReaderEvent::ReadFailed => ReaderEventModel::ReadFailed,
            ReaderEvent::Sent => ReaderEventModel::Sent,
            ReaderEvent::SendFailed => ReaderEventModel::SendFailed,
        }
    }
}

impl View for ReaderStep {
    type V = ReaderStepModel;

    open spec fn view(&self) -> ReaderStepModel {
        match self {
            ReaderStep::Read => ReaderStepModel::Read,
            ReaderStep::Send(line) => ReaderStepModel::Send(line@),
            ReaderStep::Report(line) => ReaderStepModel::Report(line@),
            ReaderStep::Stop => ReaderStepModel::Stop,
        }
    }
}

/// The step of a log reader after an event.
pub open spec fn reader_step(event: ReaderEventModel) -> ReaderStepModel {
    match event {
        ReaderEventModel::Opened => ReaderStepModel::Read,
        ReaderEventModel::OpenFailed(error) => ReaderStepModel::Report(
            "[k8s] log_stream: "@ + error,
        ),
        ReaderEventModel::Line(line) => ReaderStepModel::Send(line),
        ReaderEventModel::Sent => ReaderStepModel::Read,
        ReaderEventModel::Ended => ReaderStepModel::Stop,
        ReaderEventModel::ReadFailed => ReaderStepModel::Stop,
        ReaderEventModel::SendFailed => ReaderStepModel::Stop,
    }
}

/// The lines that a reader hands on when its reads bring `reads`, one after the other, and each
/// line is taken.
pub open spec fn forwarded(reads: Seq<ReaderEventModel>) -> Seq<Seq<char>>
    decreases reads.len(),
{
    if reads.len() == 0 {
        Seq::empty()
    } else {
        match reader_step(reads[0]) {
            ReaderStepModel::Send(line) => match reader_step(ReaderEventModel::Sent) {
                ReaderStepModel::Read => seq![line] + forwarded(reads.drop_first()),
                _ => seq![line],
            },
            _ => Seq::empty(),
        }
    }
}

/// A reader hands on every line of the log, in order and unchanged, up to the end of the log or
/// the first read that fails.
pub proof fn reader_forwards_each_line(lines: Seq<Seq<char>>, rest: Seq<ReaderEventModel>)
    requires
        rest.len() > 0 ==> rest[0] == ReaderEventModel::Ended || rest[0]
            == ReaderEventModel::ReadFailed,
    ensures
        forwarded(lines.map_values(|l: Seq<char>| ReaderEventModel::Line(l)) + rest) == lines,
    decreases lines.len(),
{
    let reads = lines.map_values(|l: Seq<char>| ReaderEventModel::Line(l)) + rest;
    if lines.len() == 0 {
        assert(reads =~= rest);
        assert(lines =~= Seq::empty());
    } else {
        let later = lines.drop_first();
        reader_forwards_each_line(later, rest);
        assert(reads.drop_first() =~= later.map_values(|l: Seq<char>| ReaderEventModel::Line(l))
            + rest);
        assert(lines =~= seq![lines[0]] + later);
    }
}

/// Starts to follow the log of a pod: the request to open it with.
pub fn spawn_pod_log_reader(
    namespace: String,
    pod: String,
    container: Option<String>,
    tail_lines: i64,
) -> (r: LogRequest)
    ensures
        r@ == followed_log(namespace@, pod@, text_of(container), tail_lines as int),
{
    LogRequest {
        namespace: namespace,
        pod: pod,
        container: container,
        tail_lines: tail_lines,
        follow: true,
    }
}

/// What a log reader does after an event.
pub fn reader_next(event: ReaderEvent) -> (r: ReaderStep)
    ensures
        r@ == reader_step(event@),
{
    match event {
        ReaderEvent::Opened => ReaderStep::Read,
        ReaderEvent::OpenFailed(error) => ReaderStep::Report(
            concat2("[k8s] log_stream: ", error.as_str()),
        ),
        ReaderEvent::Line(line) => ReaderStep::Send(line),
        ReaderEvent::Sent => ReaderStep::Read,
        ReaderEvent::Ended => ReaderStep::Stop,
        ReaderEvent::ReadFailed => ReaderStep::Stop,
        ReaderEvent::SendFailed => ReaderStep::Stop,
    }
}

} // verus!
