use bottlerocket_ecs_updater::integ::{
    cluster_details, cluster_parameters, cluster_settings, instance_details, resources,
    stack_infos, updater_parameters, user_data, Cluster, ClusterDetails, CreateStackResult, Error,
    InstanceDetails, Instances, Resources, Stack, StackDetails, StackInfo, StackOutput,
    StackResource,
};

fn resource(name: &str, id: Option<&str>) -> StackResource {
    StackResource {
        logical_resource_id: name.to_string(),
        physical_resource_id: id.map(|i| i.to_string()),
    }
}

fn pair(key: &str, value: &str) -> (String, String) {
    (key.to_string(), value.to_string())
}

fn output(key: Option<&str>, value: Option<&str>) -> StackOutput {
    StackOutput { output_key: key.map(|k| k.to_string()), output_value: value.map(|v| v.to_string()) }
}

fn cfn_missing(api: &str, field: &str) -> Error {
    Error::CfnMissingField { api: api.to_string(), field: field.to_string() }
}

fn shared(outputs: Vec<(String, String)>) -> StackInfo {
    StackInfo {
        stack_name: "bottlerocket-ecs-updater-integ-shared".to_string(),
        stack_status: "CREATE_COMPLETE".to_string(),
        outputs,
    }
}

#[test]
fn the_resources_of_the_shared_stack_are_found_by_name() {
    let described = Some(vec![
        resource("Subnet1", Some("subnet-1")),
        resource("Vpc", None),
        resource("EcsInstanceProfile", Some("profile-1")),
        resource("Subnet2", Some("subnet-2")),
        resource("SecurityGroup", Some("sg-1")),
        resource("Subnet1", Some("subnet-9")),
    ]);
    assert_eq!(
        resources(&described),
        Ok(Resources {
            subnet1_id: "subnet-9".to_string(),
            subnet2_id: "subnet-2".to_string(),
            security_group_id: "sg-1".to_string(),
            ecs_instance_profile_id: "profile-1".to_string(),
        })
    );
    assert_eq!(
        resources(&Some(vec![resource("Gateway", Some("igw-1"))])),
        Ok(Resources {
            subnet1_id: String::new(),
            subnet2_id: String::new(),
            security_group_id: String::new(),
            ecs_instance_profile_id: String::new(),
        })
    );
}

#[test]
fn a_resource_without_its_identifier_is_refused() {
    assert_eq!(resources(&None), Err(cfn_missing("describe_stack_resources", "stack_resources")));
    let described = Some(vec![
        resource("Subnet1", Some("subnet-1")),
        resource("SecurityGroup", None),
        resource("Subnet2", None),
    ]);
    assert_eq!(
        resources(&described),
        Err(Error::MissingPhysicalResourceId { resource_name: "SecurityGroup".to_string() })
    );
}

#[test]
fn a_cluster_needs_its_name() {
    let missing = |field: &str| {
        Err(Error::EcsMissingField { api: "create_cluster".to_string(), field: field.to_string() })
    };
    assert_eq!(cluster_details(&None), missing("cluster"));
    assert_eq!(cluster_details(&Some(Cluster { cluster_arn: None })), missing("cluster.cluster_arn"));
    assert_eq!(
        cluster_details(&Some(Cluster { cluster_arn: Some("arn:cluster".to_string()) })),
        Ok(ClusterDetails { cluster_arn: "arn:cluster".to_string() })
    );
}

#[test]
fn started_hosts_need_their_identifiers() {
    let missing = |field: &str| {
        Err(Error::Ec2MissingField { api: "run_instances".to_string(), field: field.to_string() })
    };
    assert_eq!(instance_details(&None), missing("instances"));
    assert_eq!(instance_details(&Some(vec![Some("i-1".to_string()), None])), missing("instances[].instance_id"));
    assert_eq!(
        instance_details(&Some(vec![Some("i-1".to_string()), Some("i-2".to_string())])),
        Ok(vec![
            InstanceDetails { instance_id: "i-1".to_string() },
            InstanceDetails { instance_id: "i-2".to_string() },
        ])
    );
    assert_eq!(instance_details(&Some(vec![])), Ok(vec![]));
}

#[test]
fn user_data_is_the_settings_in_base64() {
    assert_eq!(cluster_settings("updater-test-cluster"), "[settings.ecs]\ncluster = \"updater-test-cluster\"\n");
    assert_eq!(user_data("c"), "W3NldHRpbmdzLmVjc10KY2x1c3RlciA9ICJjIgo=");
    assert_eq!(user_data(""), "W3NldHRpbmdzLmVjc10KY2x1c3RlciA9ICIiCg==");
}

#[test]
fn stacks_are_read_with_their_outputs() {
    let described = Some(vec![
        Stack {
            stack_name: "shared".to_string(),
            stack_status: "CREATE_COMPLETE".to_string(),
            outputs: Some(vec![output(Some("LogGroup"), Some("logs")), output(Some("PublicSubnets"), Some("a,b"))]),
        },
        Stack { stack_name: "bare".to_string(), stack_status: "CREATE_IN_PROGRESS".to_string(), outputs: None },
    ]);
    assert_eq!(
        stack_infos(&described),
        Ok(vec![
            StackInfo {
                stack_name: "shared".to_string(),
                stack_status: "CREATE_COMPLETE".to_string(),
                outputs: vec![pair("LogGroup", "logs"), pair("PublicSubnets", "a,b")],
            },
            StackInfo {
                stack_name: "bare".to_string(),
                stack_status: "CREATE_IN_PROGRESS".to_string(),
                outputs: vec![],
            },
        ])
    );
    assert_eq!(stack_infos(&Some(vec![])), Ok(vec![]));
}

#[test]
fn stacks_with_a_faulty_output_are_refused() {
    assert_eq!(stack_infos(&None), Err(cfn_missing("describe_stacks", "stacks")));
    let stack = |outputs: Vec<StackOutput>| Stack {
        stack_name: "shared".to_string(),
        stack_status: "CREATE_COMPLETE".to_string(),
        outputs: Some(outputs),
    };
    assert_eq!(
        stack_infos(&Some(vec![stack(vec![output(Some("a"), Some("b")), output(None, None)])])),
        Err(cfn_missing("describe_stacks", "stacks.outputs.output_key"))
    );
    assert_eq!(
        stack_infos(&Some(vec![stack(vec![]), stack(vec![output(Some("a"), None), output(None, Some("b"))])])),
        Err(cfn_missing("describe_stacks", "stacks.outputs.output_value"))
    );
}

#[test]
fn an_output_is_found_by_its_key() {
    let info = shared(vec![pair("LogGroup", "old"), pair("PublicSubnets", "a,b"), pair("LogGroup", "new")]);
    assert_eq!(info.output("LogGroup"), Some("new".to_string()));
    assert_eq!(info.output("PublicSubnets"), Some("a,b".to_string()));
    assert_eq!(info.output("Vpc"), None);
    assert_eq!(shared(vec![]).output("LogGroup"), None);
}

#[test]
fn the_cluster_stack_gets_three_parameters() {
    assert_eq!(
        cluster_parameters("bottlerocket-ecs-updater-integ-shared", "updater-test-cluster", "ami-1"),
        vec![
            pair("IntegSharedResourceStack", "bottlerocket-ecs-updater-integ-shared"),
            pair("ClusterName", "updater-test-cluster"),
            pair("ImageID", "ami-1"),
        ]
    );
}

#[test]
fn the_updater_stack_gets_the_outputs_of_the_shared_stack() {
    let info = shared(vec![pair("LogGroup", "logs"), pair("PublicSubnets", "a,b")]);
    assert_eq!(
        updater_parameters("updater-test-cluster", "image:1", &info),
        Ok(vec![
            pair("ClusterName", "updater-test-cluster"),
            pair("UpdaterImage", "image:1"),
            pair("Subnets", "a,b"),
            pair("LogGroupName", "logs"),
        ])
    );
    assert_eq!(
        updater_parameters("c", "i", &shared(vec![pair("LogGroup", "logs")])),
        Err(Error::MissingPublicSubnets)
    );
    assert_eq!(
        updater_parameters("c", "i", &shared(vec![pair("PublicSubnets", "a,b")])),
        Err(Error::MissingLogGroup)
    );
    assert_eq!(updater_parameters("c", "i", &shared(vec![])), Err(Error::MissingPublicSubnets));
}

#[test]
fn provisioning_errors_have_their_messages() {
    assert_eq!(
        cfn_missing("describe_stacks", "stacks").message(),
        "Missing field `stacks` in api `describe_stacks` response"
    );
    assert_eq!(
        Error::EcsMissingField { api: "create_cluster".to_string(), field: "cluster".to_string() }.message(),
        "Missing field `cluster` in api `create_cluster` response"
    );
    assert_eq!(
        Error::Ec2MissingField { api: "run_instances".to_string(), field: "instances".to_string() }.message(),
        "Missing field `instances` in api `run_instances` response"
    );
    assert_eq!(
        Error::MissingPhysicalResourceId { resource_name: "Subnet1".to_string() }.message(),
        "Missing field `physical_resource_id` for stack resource Subnet1"
    );
    assert_eq!(Error::MissingLogGroup.message(), "Missing output LogGroup in integ shared stack");
    assert_eq!(
        Error::MissingPublicSubnets.message(),
        "Missing output PublicSubnets in integ shared stack"
    );
}

#[test]
fn the_plain_answers_hold_what_they_are_given() {
    assert_eq!(Instances { instance_ids: vec!["i-1".to_string()] }.instance_ids, vec!["i-1".to_string()]);
    assert_eq!(CreateStackResult {}, CreateStackResult {});
    assert_eq!(StackDetails { status: "CREATE_COMPLETE".to_string() }.status, "CREATE_COMPLETE");
}
