use remote_log_tui::k8s::{
    connect, connect_next, list_pod_names, pod_list_request, reader_next, spawn_pod_log_reader,
    ConnectStep, LogRequest, PodListRequest, ReaderEvent, ReaderStep,
};

#[test]
fn a_named_kubeconfig_is_read_first() {
    let plan = connect(true, Some("my-ctx"));
    assert_eq!(plan.context, Some("my-ctx".to_string()));
    let mut step = plan.first;
    let mut seen = Vec::new();
    while step != ConnectStep::Connected {
        seen.push(step);
        step = connect_next(step, Ok(())).unwrap();
    }
    assert_eq!(
        seen,
        vec![
            ConnectStep::ReadKubeconfig,
            ConnectStep::LoadKubeconfig,
            ConnectStep::BuildClient
        ]
    );
}

#[test]
fn without_a_kubeconfig_one_is_inferred() {
    let plan = connect(false, None);
    assert_eq!(plan.context, None);
    assert_eq!(plan.first, ConnectStep::InferKubeconfig);
    assert_eq!(
        connect_next(plan.first, Ok(())),
        Ok(ConnectStep::BuildClient)
    );
}

#[test]
fn each_failed_step_has_its_message() {
    let table = [
        (ConnectStep::ReadKubeconfig, "read kubeconfig: boom"),
        (ConnectStep::LoadKubeconfig, "kube config: boom"),
        (ConnectStep::InferKubeconfig, "kube config: boom"),
        (ConnectStep::BuildClient, "kube client: boom"),
    ];
    for (step, message) in table {
        assert_eq!(
            connect_next(step, Err("boom".to_string())),
            Err(message.to_string())
        );
    }
}

#[test]
fn a_list_is_limited() {
    assert_eq!(
        pod_list_request("kube-system"),
        PodListRequest { namespace: "kube-system".to_string(), limit: 500 }
    );
}

#[test]
fn pod_names_are_sorted_and_nameless_pods_dropped() {
    let items = vec![
        Some("web-2".to_string()),
        None,
        Some("api".to_string()),
        Some("web-10".to_string()),
        None,
    ];
    assert_eq!(
        list_pod_names(Ok(items)),
        Ok(vec!["api".to_string(), "web-10".to_string(), "web-2".to_string()])
    );
    assert_eq!(list_pod_names(Ok(vec![None])), Ok(vec![]));
}

#[test]
fn a_failed_list_has_a_message() {
    assert_eq!(
        list_pod_names(Err("Unauthorized".to_string())),
        Err("list pods: Unauthorized".to_string())
    );
}

#[test]
fn a_reader_follows_the_log() {
    assert_eq!(
        spawn_pod_log_reader("ns".to_string(), "web".to_string(), Some("app".to_string()), 200),
        LogRequest {
            namespace: "ns".to_string(),
            pod: "web".to_string(),
            container: Some("app".to_string()),
            tail_lines: 200,
            follow: true,
        }
    );
}

#[test]
fn a_reader_hands_lines_on_until_the_end() {
    let mut reads = vec![
        ReaderEvent::Ended,
        ReaderEvent::Line("two".to_string()),
        ReaderEvent::Line("one".to_string()),
    ];
    let mut taken = Vec::new();
    let mut event = ReaderEvent::Opened;
    loop {
        event = match reader_next(event) {
            ReaderStep::Read => reads.pop().unwrap(),
            ReaderStep::Send(line) => {
                taken.push(line);
                ReaderEvent::Sent
            }
            ReaderStep::Report(line) => panic!("{line}"),
            ReaderStep::Stop => break,
        };
    }
    assert_eq!(taken, vec!["one".to_string(), "two".to_string()]);
    assert!(reads.is_empty());
}

#[test]
fn a_reader_stops_when_it_cannot_go_on() {
    assert_eq!(reader_next(ReaderEvent::ReadFailed), ReaderStep::Stop);
    assert_eq!(reader_next(ReaderEvent::SendFailed), ReaderStep::Stop);
}

#[test]
fn a_reader_reports_a_log_that_does_not_open() {
    assert_eq!(
        reader_next(ReaderEvent::OpenFailed("NotFound".to_string())),
        ReaderStep::Report("[k8s] log_stream: NotFound".to_string())
    );
}
