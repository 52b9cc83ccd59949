//! What is asked of the cluster, and what becomes of its answers.

use vstd::prelude::*;

use crate::k8s::{
    first_step, followed_log, following_step, pod_list, present_names, reader_step, step_label,
    text_of, ConnectStep, LogRequest, PodListRequest, ReaderEvent, ReaderEventModel, ReaderStep,
    ReaderStepModel,
};

verus! {

/// What a request, an event or a step says is what its fields hold.
pub proof fn requests_say_what_they_hold(
    some: String,
    pods: PodListRequest,
    log: LogRequest,
    text: String,
)
    ensures
        text_of(Some(some)) == Some(some@),
        text_of(None) == None::<Seq<char>>,
        pods@.namespace == pods.namespace@ && pods@.limit == pods.limit,
        log@.namespace == log.namespace@ && log@.pod == log.pod@ && log@.container == text_of(
            log.container,
        ) && log@.tail_lines == log.tail_lines && log@.follow == log.follow,
        ReaderEvent::Opened@ == ReaderEventModel::Opened,
        ReaderEvent::OpenFailed(text)@ == ReaderEventModel::OpenFailed(text@),
        ReaderEvent::Line(text)@ == ReaderEventModel::Line(text@),
        ReaderEvent::Ended@ == ReaderEventModel::Ended,
        ReaderEvent::ReadFailed@ == ReaderEventModel::ReadFailed,
        ReaderEvent::Sent@ == ReaderEventModel::Sent,
        ReaderEvent::SendFailed@ == ReaderEventModel::SendFailed,
        ReaderStep::Read@ == ReaderStepModel::Read,
        ReaderStep::Send(text)@ == ReaderStepModel::Send(text@),
        ReaderStep::Report(text)@ == ReaderStepModel::Report(text@),
        ReaderStep::Stop@ == ReaderStepModel::Stop,
{
}

/// With a kubeconfig file that was named, it is read and loaded; else one is found. Either way a
/// client is made from it.
pub proof fn the_steps_to_a_client()
    ensures
        first_step(true) == ConnectStep::ReadKubeconfig,
        first_step(false) == ConnectStep::InferKubeconfig,
        following_step(ConnectStep::ReadKubeconfig) == ConnectStep::LoadKubeconfig,
        following_step(ConnectStep::LoadKubeconfig) == ConnectStep::BuildClient,
        following_step(ConnectStep::InferKubeconfig) == ConnectStep::BuildClient,
        following_step(ConnectStep::BuildClient) == ConnectStep::Connected,
        following_step(ConnectStep::Connected) == ConnectStep::Connected,
{
}

/// A message says which step failed: reading the file, making the configuration or the client.
pub proof fn messages_say_what_failed(step: ConnectStep)
    ensures
        step_label(step) == match step {
            ConnectStep::ReadKubeconfig => "read kubeconfig: "@,
            ConnectStep::LoadKubeconfig | ConnectStep::InferKubeconfig => "kube config: "@,
            ConnectStep::BuildClient | ConnectStep::Connected => "kube client: "@,
        },
{
}

/// A list asks for five hundred pods of its namespace at most.
pub proof fn a_list_asks_for_its_namespace(namespace: Seq<char>)
    ensures
        pod_list(namespace).namespace == namespace,
        pod_list(namespace).limit == 500,
{
}

/// The names are those of the pods that have one, in the order of the pods: a further pod adds its
/// name at the end, and one without a name adds nothing.
pub proof fn a_further_pod_adds_its_name(items: Seq<Option<String>>, name: String)
    ensures
        present_names(Seq::empty()).len() == 0,
        present_names(items.push(Some(name))) == present_names(items).push(name@),
        present_names(items.push(None)) == present_names(items),
{
    assert(items.push(Some(name)).drop_last() =~= items);
    assert(items.push(None).drop_last() =~= items);
}

/// A log is asked for by its namespace, pod and container, with that much history, and goes on.
pub proof fn a_log_is_followed_as_asked(
    namespace: Seq<char>,
    pod: Seq<char>,
    container: Option<Seq<char>>,
    tail_lines: int,
)
    ensures
        ({
            let request = followed_log(namespace, pod, container, tail_lines);
            &&& request.namespace == namespace
            &&& request.pod == pod
            &&& request.container == container
            &&& request.tail_lines == tail_lines
            &&& request.follow
        }),
{
}

/// A reader hands each line on as it is and reads on after that. It stops at the end of the log, when
/// a read fails and when nobody takes its lines. A log that does not open is reported.
pub proof fn a_reader_hands_lines_on(text: Seq<char>)
    ensures
        reader_step(ReaderEventModel::Opened) == ReaderStepModel::Read,
        reader_step(ReaderEventModel::Line(text)) == ReaderStepModel::Send(text),
        reader_step(ReaderEventModel::Sent) == ReaderStepModel::Read,
        reader_step(ReaderEventModel::Ended) == ReaderStepModel::Stop,
        reader_step(ReaderEventModel::ReadFailed) == ReaderStepModel::Stop,
        reader_step(ReaderEventModel::SendFailed) == ReaderStepModel::Stop,
        reader_step(ReaderEventModel::OpenFailed(text)) == ReaderStepModel::Report(
            "[k8s] log_stream: "@ + text,
        ),
{
}

} // verus!
