use bottlerocket_ecs_updater::detector::{Action, Detector, Event};
use bottlerocket_ecs_updater::model::{
    Error, Instance, Instances, SsmCommandDetails, SsmInvocationOutput,
};
use bottlerocket_ecs_updater::record::{HostUpdateRecord, InstanceState, UpdateStepStatus};
use bottlerocket_ecs_updater::updater;

fn host(id: &str, status: &str) -> Instance {
    Instance { instance_id: id.to_string(), status: status.to_string() }
}

fn page(hosts: Vec<Instance>, next_token: Option<&str>) -> Event {
    Event::Listed(Ok(Instances {
        bottlerocket_instances: hosts,
        next_token: next_token.map(|t| t.to_string()),
    }))
}

fn sent(id: &str) -> Event {
    Event::CommandSent(Ok(SsmCommandDetails {
        command_id: id.to_string(),
        status: "Pending".to_string(),
    }))
}

fn answer(id: &str, code: i64, body: &str) -> Event {
    Event::Invocation(Ok(SsmInvocationOutput {
        instance_id: id.to_string(),
        standard_output: body.to_string(),
        status: "Success".to_string(),
        response_code: code,
    }))
}

fn failure(message: &str) -> Error {
    Error { message: message.to_string() }
}

fn record(id: &str, version: &str) -> HostUpdateRecord {
    HostUpdateRecord {
        instance_id: id.to_string(),
        instance_status: "Success".to_string(),
        update_version: version.to_string(),
        current_state: InstanceState::UpdateAvailable,
        next_state: InstanceState::Drain,
        start_time: None,
        step_status: UpdateStepStatus::NotStarted,
    }
}

fn command(ids: &[&str]) -> Action {
    Action::SendCommand {
        instance_ids: ids.iter().map(|i| i.to_string()).collect(),
        params: vec![("commands".to_string(), vec!["apiclient update check".to_string()])],
        timeout: 120,
    }
}

fn ask(command_id: &str, instance_id: &str) -> Action {
    Action::GetCommandInvocation {
        command_id: command_id.to_string(),
        instance_id: instance_id.to_string(),
    }
}

fn list(cursor: Option<&str>) -> Action {
    Action::ListInstances {
        cluster: "cluster".to_string(),
        max_results: 20,
        next_token: cursor.map(|t| t.to_string()),
    }
}

fn available(version: &str) -> String {
    format!(
        "{{\"update_state\":\"Available\",\"available_updates\":[\"{0}\"],\"chosen_update\":{{\"arch\":\"x86_64\",\"version\":\"{0}\",\"variant\":\"aws-ecs-1\"}}}}",
        version
    )
}

const NONE_AVAILABLE: &str = "{\"update_state\":\"NoneAvailable\",\"available_updates\":[\"1.2.0\"],\"chosen_update\":{\"arch\":\"x86_64\",\"version\":\"1.2.0\",\"variant\":\"aws-ecs-1\"}}";

/// Takes a pass to the point where the first answer of a page of the given hosts is asked.
fn up_to_first_answer(hosts: Vec<Instance>, next_token: Option<&str>) -> (Detector, Action) {
    let (detector, _) = Detector::new("cluster".to_string());
    let (detector, _) = detector.step(page(hosts, next_token));
    let (detector, _) = detector.step(sent("c-1"));
    detector.step(Event::CommandComplete(Ok(())))
}

#[test]
fn one_active_host_with_an_update_gives_one_record() {
    let (detector, action) = Detector::new("cluster".to_string());
    assert!(!detector.is_over());
    assert_eq!(action, list(None));
    let (detector, action) = detector.step(page(vec![host("i-1", "ACTIVE")], None));
    assert_eq!(action, command(&["i-1"]));
    let (detector, action) = detector.step(sent("c-1"));
    assert_eq!(action, Action::WaitCommandComplete { command_id: "c-1".to_string() });
    let (detector, action) = detector.step(Event::CommandComplete(Ok(())));
    assert_eq!(action, ask("c-1", "i-1"));
    let (detector, action) = detector.step(answer("i-1", 0, &available("1.2.0")));
    assert!(detector.is_over());
    assert_eq!(action, Action::Finish { records: vec![record("i-1", "1.2.0")] });
}

#[test]
fn a_host_without_an_update_gives_no_record() {
    let (detector, action) = up_to_first_answer(vec![host("i-1", "ACTIVE")], None);
    assert_eq!(action, ask("c-1", "i-1"));
    let (detector, action) = detector.step(answer("i-1", 0, NONE_AVAILABLE));
    assert!(detector.is_over());
    assert_eq!(action, Action::Finish { records: vec![] });
}

#[test]
fn an_inactive_host_is_not_asked() {
    let (detector, _) = Detector::new("cluster".to_string());
    let (detector, action) = detector.step(page(vec![host("i-2", "INACTIVE")], None));
    assert_eq!(action, command(&[]));
    let (detector, action) = detector.step(sent("c-1"));
    assert_eq!(action, Action::WaitCommandComplete { command_id: "c-1".to_string() });
    let (detector, action) = detector.step(Event::CommandComplete(Ok(())));
    assert!(detector.is_over());
    assert_eq!(action, Action::Finish { records: vec![] });
}

#[test]
fn two_pages_give_their_records_in_page_order() {
    let (detector, _) = Detector::new("cluster".to_string());
    let (detector, action) = detector.step(page(vec![host("i-1", "ACTIVE")], Some("tok1")));
    assert_eq!(action, command(&["i-1"]));
    let (detector, _) = detector.step(sent("c-1"));
    let (detector, action) = detector.step(Event::CommandComplete(Ok(())));
    assert_eq!(action, ask("c-1", "i-1"));
    let (detector, action) = detector.step(answer("i-1", 0, &available("1.2.0")));
    assert!(!detector.is_over());
    assert_eq!(action, list(Some("tok1")));
    let (detector, action) = detector.step(page(vec![host("i-9", "DRAINING")], None));
    assert_eq!(action, command(&["i-9"]));
    let (detector, _) = detector.step(sent("c-2"));
    let (detector, action) = detector.step(Event::CommandComplete(Ok(())));
    assert_eq!(action, ask("c-2", "i-9"));
    let (detector, action) = detector.step(answer("i-9", 0, &available("1.3.0")));
    assert!(detector.is_over());
    assert_eq!(
        action,
        Action::Finish { records: vec![record("i-1", "1.2.0"), record("i-9", "1.3.0")] }
    );
}

#[test]
fn only_active_and_draining_hosts_are_asked() {
    let hosts = vec![
        host("i-1", "ACTIVE"),
        host("i-2", "INACTIVE"),
        host("i-3", "DRAINING"),
        host("i-4", "REGISTERING"),
        host("i-5", "active"),
        host("i-6", ""),
    ];
    assert_eq!(updater::get_instance_ids(&hosts), vec!["i-1".to_string(), "i-3".to_string()]);
    assert_eq!(updater::get_instance_ids(&[]), Vec::<String>::new());
}

#[test]
fn the_check_command_has_one_key_and_one_value() {
    assert_eq!(
        updater::check_updates_param(),
        vec![("commands".to_string(), vec!["apiclient update check".to_string()])]
    );
    assert_eq!(updater::BATCH_INSTANCE_COUNT, 20);
    assert_eq!(updater::SSM_CHECK_COMMAND_TIMEOUT_SECS, 120);
}

#[test]
fn a_nonzero_response_code_leaves_the_host_out() {
    let (detector, _) = up_to_first_answer(vec![host("i-1", "ACTIVE")], None);
    let (_, action) = detector.step(answer("i-1", 1, &available("1.2.0")));
    assert_eq!(action, Action::Finish { records: vec![] });
    let (detector, _) = up_to_first_answer(vec![host("i-1", "ACTIVE")], None);
    let (_, action) = detector.step(answer("i-1", -1, "not json at all"));
    assert_eq!(action, Action::Finish { records: vec![] });
}

#[test]
fn a_failed_fetch_does_not_keep_the_next_host_out() {
    let hosts = vec![host("i-a", "ACTIVE"), host("i-b", "ACTIVE")];
    let (detector, action) = up_to_first_answer(hosts, None);
    assert_eq!(action, ask("c-1", "i-a"));
    let (detector, action) = detector.step(Event::Invocation(Err(failure("no output"))));
    assert!(!detector.is_over());
    assert_eq!(action, ask("c-1", "i-b"));
    let (_, action) = detector.step(answer("i-b", 0, &available("1.2.0")));
    assert_eq!(action, Action::Finish { records: vec![record("i-b", "1.2.0")] });
}

#[test]
fn the_same_answer_gets_the_same_verdict_twice() {
    let output = SsmInvocationOutput {
        instance_id: "i-1".to_string(),
        standard_output: available("1.2.0"),
        status: "Success".to_string(),
        response_code: 0,
    };
    let first = updater::evaluate_output(&output);
    let second = updater::evaluate_output(&output);
    assert_eq!(first, Ok(Some(record("i-1", "1.2.0"))));
    assert_eq!(first, second);
}

#[test]
fn output_that_is_no_report_fails_the_pass() {
    let hosts = vec![host("i-a", "ACTIVE"), host("i-b", "ACTIVE")];
    let (detector, _) = up_to_first_answer(hosts, Some("tok1"));
    let (detector, action) = detector.step(answer("i-a", 0, "Some command output"));
    assert!(detector.is_over());
    assert_eq!(
        action,
        Action::Fail {
            error: updater::Error::ParseCommandOutput { instance_id: "i-a".to_string() }
        }
    );
}

#[test]
fn an_available_update_without_a_chosen_one_fails_the_pass() {
    let (detector, _) = up_to_first_answer(vec![host("i-a", "ACTIVE")], None);
    let body = "{\"update_state\":\"Available\",\"available_updates\":[\"1.2.0\"]}";
    let (detector, action) = detector.step(answer("i-a", 0, body));
    assert!(detector.is_over());
    assert_eq!(
        action,
        Action::Fail {
            error: updater::Error::MissingChosenUpdate { instance_id: "i-a".to_string() }
        }
    );
}

#[test]
fn a_page_that_cannot_be_fetched_fails_the_pass_and_drops_the_records() {
    let (detector, _) = up_to_first_answer(vec![host("i-1", "ACTIVE")], Some("tok1"));
    let (detector, action) = detector.step(answer("i-1", 0, &available("1.2.0")));
    assert_eq!(action, list(Some("tok1")));
    let (detector, action) = detector.step(Event::Listed(Err(failure("throttled"))));
    assert!(detector.is_over());
    assert_eq!(
        action,
        Action::Fail { error: updater::Error::DescribeInstances { source: failure("throttled") } }
    );
}

#[test]
fn a_command_that_cannot_be_submitted_fails_the_pass() {
    let (detector, _) = Detector::new("cluster".to_string());
    let (detector, _) = detector.step(page(vec![host("i-1", "ACTIVE")], None));
    let (detector, action) = detector.step(Event::CommandSent(Err(failure("denied"))));
    assert!(detector.is_over());
    assert_eq!(
        action,
        Action::Fail { error: updater::Error::CheckUpdateCommand { source: failure("denied") } }
    );
}

#[test]
fn a_failed_wait_fails_the_pass() {
    let (detector, _) = Detector::new("cluster".to_string());
    let (detector, _) = detector.step(page(vec![host("i-1", "ACTIVE")], None));
    let (detector, _) = detector.step(sent("c-7"));
    let (detector, action) = detector.step(Event::CommandComplete(Err(failure("gone"))));
    assert!(detector.is_over());
    assert_eq!(
        action,
        Action::Fail {
            error: updater::Error::WaitCheckUpdateComplete {
                command_id: "c-7".to_string(),
                source: failure("gone"),
            }
        }
    );
}

#[test]
fn an_event_that_was_not_asked_for_fails_the_pass() {
    let (detector, _) = Detector::new("cluster".to_string());
    let (detector, action) = detector.step(sent("c-1"));
    assert!(detector.is_over());
    assert_eq!(action, Action::Fail { error: updater::Error::UnexpectedEvent });
    let (detector, action) = detector.step(page(vec![], None));
    assert!(detector.is_over());
    assert_eq!(action, Action::Fail { error: updater::Error::UnexpectedEvent });
}

#[test]
fn an_empty_page_still_gets_its_command() {
    let (detector, _) = Detector::new("cluster".to_string());
    let (detector, action) = detector.step(page(vec![], Some("tok1")));
    assert_eq!(action, command(&[]));
    let (detector, _) = detector.step(sent("c-1"));
    let (detector, action) = detector.step(Event::CommandComplete(Ok(())));
    assert!(!detector.is_over());
    assert_eq!(action, list(Some("tok1")));
}

#[test]
fn a_failed_pass_has_its_message() {
    assert_eq!(
        updater::Error::DescribeInstances { source: failure("throttled") }.message(),
        "Failed to describe cluster instances to check for updates: throttled"
    );
    assert_eq!(
        updater::Error::CheckUpdateCommand { source: failure("denied") }.message(),
        "Failed to send check update command: denied"
    );
    assert_eq!(
        updater::Error::WaitCheckUpdateComplete { command_id: "c-7".to_string(), source: failure("gone") }
            .message(),
        "Failed to wait for ssm check update command with command_id c-7 to complete: gone"
    );
    assert_eq!(
        updater::Error::ParseCommandOutput { instance_id: "i-1".to_string() }.message(),
        "Failed to parse check update command output for instance i-1"
    );
    assert_eq!(
        updater::Error::MissingChosenUpdate { instance_id: "i-1".to_string() }.message(),
        "Update available on instance i-1 but no update was chosen"
    );
    assert_eq!(
        updater::Error::UnexpectedEvent.message(),
        "Received the result of a call that was not asked for"
    );
    assert_eq!(
        updater::Error::UnexpectedEvent.into_error(),
        failure("Received the result of a call that was not asked for")
    );
}

#[test]
fn a_pass_that_found_nothing_says_so() {
    assert_eq!(updater::nothing_to_update(&vec![]), Some("Zero instances to update!".to_string()));
    assert_eq!(updater::nothing_to_update(&vec![record("i-1", "1.2.0")]), None);
}

#[test]
fn a_failed_fetch_is_pointed_out() {
    let hosts = vec![host("i-a", "ACTIVE"), host("i-b", "ACTIVE")];
    let (detector, _) = up_to_first_answer(hosts, None);
    assert_eq!(
        detector.diagnostic(&Event::Invocation(Err(failure("no output")))),
        Some(
            "Failed to get check update command output for command id c-1 on instance i-a: no output"
                .to_string()
        )
    );
    assert_eq!(detector.diagnostic(&answer("i-a", 1, "")), None);
    assert_eq!(detector.diagnostic(&Event::Listed(Err(failure("throttled")))), None);
    let (detector, _) = detector.step(Event::Invocation(Err(failure("no output"))));
    assert_eq!(
        detector.diagnostic(&Event::Invocation(Err(failure("gone")))),
        Some(
            "Failed to get check update command output for command id c-1 on instance i-b: gone"
                .to_string()
        )
    );
    let (detector, _) = Detector::new("cluster".to_string());
    assert_eq!(detector.diagnostic(&Event::Invocation(Err(failure("no output")))), None);
}

#[test]
fn an_answer_is_filed_under_the_host_that_was_asked() {
    let (detector, action) = up_to_first_answer(vec![host("i-1", "ACTIVE")], None);
    assert_eq!(action, ask("c-1", "i-1"));
    let (_, action) = detector.step(answer("i-77", 0, &available("1.2.0")));
    assert_eq!(action, Action::Finish { records: vec![record("i-1", "1.2.0")] });
    let output = SsmInvocationOutput {
        instance_id: "i-77".to_string(),
        standard_output: "no report".to_string(),
        status: "Success".to_string(),
        response_code: 0,
    };
    assert_eq!(
        updater::evaluate_answer(&"i-1".to_string(), output),
        Err(updater::Error::ParseCommandOutput { instance_id: "i-1".to_string() })
    );
}
