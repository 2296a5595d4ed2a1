use bottlerocket_ecs_updater::json::Json;
use bottlerocket_ecs_updater::model::SsmInvocationOutput;
use bottlerocket_ecs_updater::record::{HostUpdateRecord, InstanceState, UpdateStepStatus};
use bottlerocket_ecs_updater::update_info::{
    parse_update_info, update_info_from_json, ChosenUpdate, UpdateInfo,
};
use bottlerocket_ecs_updater::updater::{apply_update_available_rule, evaluate_output, Error};

fn text(s: &str) -> Json {
    Json::Str(s.to_string())
}

fn object(members: Vec<(&str, Json)>) -> Json {
    Json::Object(members.into_iter().map(|(k, v)| (k.to_string(), v)).collect())
}

fn chosen() -> Json {
    object(vec![("arch", text("x86_64")), ("version", text("1.2.0")), ("variant", text("aws-ecs-1"))])
}

fn output(code: i64, body: &str) -> SsmInvocationOutput {
    SsmInvocationOutput {
        instance_id: "i-1".to_string(),
        standard_output: body.to_string(),
        status: "Success".to_string(),
        response_code: code,
    }
}

#[test]
fn a_full_report_is_read() {
    let body = "{\"update_state\":\"Available\",\"available_updates\":[\"1.2.0\",\"1.1.0\"],\"chosen_update\":{\"arch\":\"x86_64\",\"version\":\"1.2.0\",\"variant\":\"aws-ecs-1\"}}";
    assert_eq!(
        parse_update_info(body),
        Some(UpdateInfo {
            update_state: "Available".to_string(),
            chosen_update: Some(ChosenUpdate {
                arch: "x86_64".to_string(),
                version: "1.2.0".to_string(),
                variant: "aws-ecs-1".to_string(),
            }),
            available_updates: vec!["1.2.0".to_string(), "1.1.0".to_string()],
        })
    );
}

#[test]
fn a_report_without_a_chosen_update_is_read() {
    let expected = Some(UpdateInfo {
        update_state: "Idle".to_string(),
        chosen_update: None,
        available_updates: vec![],
    });
    assert_eq!(parse_update_info("{\"update_state\":\"Idle\",\"available_updates\":[]}"), expected);
    assert_eq!(
        parse_update_info(
            " { \"available_updates\" : [], \"chosen_update\": null, \"update_state\": \"Idle\", \"staging_partition\": null, \"active_partition\": {\"image\": {\"version\": \"1.0.0\"}}, \"tries\": 3 } "
        ),
        expected
    );
}

#[test]
fn text_that_is_no_report_is_refused() {
    assert_eq!(parse_update_info(""), None);
    assert_eq!(parse_update_info("Some command output"), None);
    assert_eq!(parse_update_info("{\"update_state\":\"Idle\",\"available_updates\":[]"), None);
    assert_eq!(parse_update_info("[]"), None);
    assert_eq!(parse_update_info("null"), None);
    assert_eq!(parse_update_info("\"Available\""), None);
    assert_eq!(parse_update_info("{}"), None);
    assert_eq!(parse_update_info("{\"update_state\":\"Idle\"}"), None);
    assert_eq!(parse_update_info("{\"available_updates\":[]}"), None);
    assert_eq!(parse_update_info("{\"update_state\":7,\"available_updates\":[]}"), None);
    assert_eq!(parse_update_info("{\"update_state\":\"Idle\",\"available_updates\":\"1.2.0\"}"), None);
    assert_eq!(parse_update_info("{\"update_state\":\"Idle\",\"available_updates\":[1]}"), None);
    assert_eq!(
        parse_update_info("{\"update_state\":\"Idle\",\"available_updates\":[],\"chosen_update\":\"1.2.0\"}"),
        None
    );
    assert_eq!(
        parse_update_info(
            "{\"update_state\":\"Idle\",\"available_updates\":[],\"chosen_update\":{\"arch\":\"x86_64\",\"version\":\"1.2.0\"}}"
        ),
        None
    );
    assert_eq!(
        parse_update_info(
            "{\"update_state\":\"Idle\",\"available_updates\":[],\"chosen_update\":{\"arch\":\"x86_64\",\"version\":1,\"variant\":\"aws-ecs-1\"}}"
        ),
        None
    );
}

#[test]
fn a_report_is_read_from_a_document() {
    let document = object(vec![
        ("update_state", text("Available")),
        ("available_updates", Json::Array(vec![text("1.2.0")])),
        ("chosen_update", chosen()),
        ("extra", Json::Number("3".to_string())),
    ]);
    assert_eq!(
        update_info_from_json(&document),
        Some(UpdateInfo {
            update_state: "Available".to_string(),
            chosen_update: Some(ChosenUpdate {
                arch: "x86_64".to_string(),
                version: "1.2.0".to_string(),
                variant: "aws-ecs-1".to_string(),
            }),
            available_updates: vec!["1.2.0".to_string()],
        })
    );
    assert_eq!(update_info_from_json(&Json::Null), None);
    assert_eq!(update_info_from_json(&Json::Bool(true)), None);
    assert_eq!(update_info_from_json(&Json::Array(vec![])), None);
    assert_eq!(
        update_info_from_json(&object(vec![
            ("update_state", text("Idle")),
            ("available_updates", Json::Array(vec![text("1.2.0"), Json::Bool(false)])),
        ])),
        None
    );
}

#[test]
fn the_rule_gives_a_record_for_an_available_update() {
    let document = object(vec![
        ("update_state", text("Available")),
        ("available_updates", Json::Array(vec![text("1.2.0")])),
        ("chosen_update", chosen()),
    ]);
    assert_eq!(
        apply_update_available_rule(&output(0, "ignored"), Some(document)),
        Ok(Some(HostUpdateRecord {
            instance_id: "i-1".to_string(),
            instance_status: "Success".to_string(),
            update_version: "1.2.0".to_string(),
            current_state: InstanceState::UpdateAvailable,
            next_state: InstanceState::Drain,
            start_time: None,
            step_status: UpdateStepStatus::NotStarted,
        }))
    );
}

#[test]
fn the_rule_leaves_out_other_states_and_failed_commands() {
    let idle = || {
        object(vec![
            ("update_state", text("Idle")),
            ("available_updates", Json::Array(vec![])),
            ("chosen_update", chosen()),
        ])
    };
    assert_eq!(apply_update_available_rule(&output(0, ""), Some(idle())), Ok(None));
    let ready = || {
        object(vec![
            ("update_state", text("Available")),
            ("available_updates", Json::Array(vec![text("1.2.0")])),
            ("chosen_update", chosen()),
        ])
    };
    assert_eq!(apply_update_available_rule(&output(2, ""), Some(ready())), Ok(None));
    assert_eq!(apply_update_available_rule(&output(2, ""), None), Ok(None));
    assert_eq!(apply_update_available_rule(&output(i64::MIN, ""), Some(Json::Null)), Ok(None));
}

#[test]
fn the_rule_fails_on_what_is_no_report() {
    let parse_error = Err(Error::ParseCommandOutput { instance_id: "i-1".to_string() });
    assert_eq!(apply_update_available_rule(&output(0, ""), None), parse_error);
    assert_eq!(apply_update_available_rule(&output(0, ""), Some(Json::Null)), parse_error);
    let unnamed = object(vec![
        ("update_state", text("Available")),
        ("available_updates", Json::Array(vec![text("1.2.0")])),
        ("chosen_update", Json::Null),
    ]);
    assert_eq!(
        apply_update_available_rule(&output(0, ""), Some(unnamed)),
        Err(Error::MissingChosenUpdate { instance_id: "i-1".to_string() })
    );
}

#[test]
fn an_answer_is_read_from_its_text() {
    assert_eq!(
        evaluate_output(&output(0, "{\"update_state\":\"Ready\",\"available_updates\":[]}")),
        Ok(None)
    );
    assert_eq!(
        evaluate_output(&output(0, "Some command output")),
        Err(Error::ParseCommandOutput { instance_id: "i-1".to_string() })
    );
    assert_eq!(evaluate_output(&output(127, "Some command output")), Ok(None));
    assert_eq!(
        evaluate_output(&output(0, "{\"update_state\":\"Available\",\"available_updates\":[]}")),
        Err(Error::MissingChosenUpdate { instance_id: "i-1".to_string() })
    );
}
