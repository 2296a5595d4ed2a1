//! What the test cluster's provisioning needs of the cloud services' answers, and the
//! parameters that it hands to its stacks.

use vstd::prelude::*;
use vstd::string::StringExecFns;

verus! {

/// The identifiers of the hosts that were started.
#[derive(Debug, Clone, PartialEq, Eq)]
pub struct Instances {
    pub instance_ids: Vec<String>,
}

/// What the creation of a stack answers: nothing that is kept.
#[derive(Debug, Clone, PartialEq, Eq)]
pub struct CreateStackResult {}

/// The resources of the shared stack that the test cluster is built on.
#[derive(Debug, Clone, PartialEq, Eq)]
pub struct Resources {
    pub subnet1_id: String,
    pub subnet2_id: String,
    pub security_group_id: String,
    pub ecs_instance_profile_id: String,
}

pub struct ResourcesView {
    pub subnet1_id: Seq<char>,
    pub subnet2_id: Seq<char>,
    pub security_group_id: Seq<char>,
    pub ecs_instance_profile_id: Seq<char>,
}

impl View for Resources {
    type V = ResourcesView;

    open spec fn view(&self) -> ResourcesView {
        ResourcesView {
            subnet1_id: self.subnet1_id@,
            subnet2_id: self.subnet2_id@,
            security_group_id: self.security_group_id@,
            ecs_instance_profile_id: self.ecs_instance_profile_id@,
        }
    }
}

/// The status of a stack.
#[derive(Debug, Clone, PartialEq, Eq)]
pub struct StackDetails {
    pub status: String,
}

/// The name of a created cluster.
#[derive(Debug, Clone, PartialEq, Eq)]
pub struct ClusterDetails {
    pub cluster_arn: String,
}

/// The identifier of a started host.
#[derive(Debug, Clone, PartialEq, Eq)]
pub struct InstanceDetails {
    pub instance_id: String,
}

/// Why an answer of a provisioning service could not be used.
#[derive(Debug, Clone, PartialEq, Eq)]
pub enum Error {
    CfnMissingField { api: String, field: String },
    EcsMissingField { api: String, field: String },
    Ec2MissingField { api: String, field: String },
    MissingPhysicalResourceId { resource_name: String },
    MissingLogGroup,
    MissingPublicSubnets,
}

/// The message of an [`Error`].
pub open spec fn message_of(error: Error) -> Seq<char> {
    match error {
        Error::CfnMissingField { api, field } => "Missing field `"@ + field@ + "` in api `"@ + api@
            + "` response"@,
        Error::EcsMissingField { api, field } => "Missing field `"@ + field@ + "` in api `"@ + api@
            + "` response"@,
        Error::Ec2MissingField { api, field } => "Missing field `"@ + field@ + "` in api `"@ + api@
            + "` response"@,
        Error::MissingPhysicalResourceId { resource_name } =>
            "Missing field `physical_resource_id` for stack resource "@ + resource_name@,
        Error::MissingLogGroup => "Missing output LogGroup in integ shared stack"@,
        Error::MissingPublicSubnets => "Missing output PublicSubnets in integ shared stack"@,
    }
}

fn missing_field_message(api: &String, field: &String) -> (text: String)
    ensures
        text@ == "Missing field `"@ + field@ + "` in api `"@ + api@ + "` response"@,
{
    let mut text = "Missing field `".to_owned();
    text.append(field.as_str());
    text.append("` in api `");
    text.append(api.as_str());
    text.append("` response");
    text
}

impl Error {
    /// The message of this error, as it is shown to the user.
    pub fn message(&self) -> (text: String)
        ensures
            text@ == message_of(*self),
    {
        match self {
            Error::CfnMissingField { api, field } => missing_field_message(api, field),
            Error::EcsMissingField { api, field } => missing_field_message(api, field),
            Error::Ec2MissingField { api, field } => missing_field_message(api, field),
            Error::MissingPhysicalResourceId { resource_name } => {
                let mut text =
                    "Missing field `physical_resource_id` for stack resource ".to_owned();
                text.append(resource_name.as_str());
                text
            },
            Error::MissingLogGroup => "Missing output LogGroup in integ shared stack".to_owned(),
            Error::MissingPublicSubnets => {
                "Missing output PublicSubnets in integ shared stack".to_owned()
            },
        }
    }
}

/// A missing field of an answer of the stack service.
pub open spec fn cfn_missing(e: Error, api_name: Seq<char>, field_name: Seq<char>) -> bool {
    e matches Error::CfnMissingField { api, field } && api@ == api_name && field@ == field_name
}

fn cfn_missing_field(api: &str, field: &str) -> (e: Error)
    ensures
        cfn_missing(e, api@, field@),
{
    Error::CfnMissingField { api: api.to_owned(), field: field.to_owned() }
}

/// One resource of a stack, as the stack service describes it.
#[derive(Debug, Clone, PartialEq, Eq)]
pub struct StackResource {
    pub logical_resource_id: String,
    pub physical_resource_id: Option<String>,
}

/// The resources at the start: every identifier is empty.
pub open spec fn no_resources() -> ResourcesView {
    ResourcesView {
        subnet1_id: Seq::empty(),
        subnet2_id: Seq::empty(),
        security_group_id: Seq::empty(),
        ecs_instance_profile_id: Seq::empty(),
    }
}

/// The resources after one more stack resource: one named `Subnet1`, `Subnet2`,
/// `SecurityGroup` or `EcsInstanceProfile` sets the identifier of that name, and fails
/// with its name where it has no physical identifier. Any other is passed over.
pub open spec fn place(found: ResourcesView, resource: StackResource) -> Result<
    ResourcesView,
    Seq<char>,
> {
    let name = resource.logical_resource_id@;
    if name == "Subnet1"@ {
        match resource.physical_resource_id {
            Some(id) => Ok(ResourcesView { subnet1_id: id@, ..found }),
            None => Err(name),
        }
    } else if name == "Subnet2"@ {
        match resource.physical_resource_id {
            Some(id) => Ok(ResourcesView { subnet2_id: id@, ..found }),
            None => Err(name),
        }
    } else if name == "SecurityGroup"@ {
        match resource.physical_resource_id {
            Some(id) => Ok(ResourcesView { security_group_id: id@, ..found }),
            None => Err(name),
        }
    } else if name == "EcsInstanceProfile"@ {
        match resource.physical_resource_id {
            Some(id) => Ok(ResourcesView { ecs_instance_profile_id: id@, ..found }),
            None => Err(name),
        }
    } else {
        Ok(found)
    }
}

/// The resources after a list of stack resources, taken in order, or the name of the first
/// one that fails.
pub open spec fn place_all(found: ResourcesView, items: Seq<StackResource>) -> Result<
    ResourcesView,
    Seq<char>,
>
    decreases items.len(),
{
    if items.len() == 0 {
        Ok(found)
    } else {
        match place(found, items[0]) {
            Ok(next) => place_all(next, items.drop_first()),
            Err(name) => Err(name),
        }
    }
}

/// Reads the resources of the shared stack out of its described resources. Where a name
/// comes twice, the later one counts. Fails where the list is missing, or where a resource
/// that is looked for has no physical identifier.
pub fn resources(stack_resources: &Option<Vec<StackResource>>) -> (found: Result<Resources, Error>)
    ensures
        match *stack_resources {
            None => found matches Err(e) && cfn_missing(
                e,
                "describe_stack_resources"@,
                "stack_resources"@,
            ),
            Some(items) => match place_all(no_resources(), items@) {
                Ok(view) => found matches Ok(r) && r@ == view,
                Err(name) => found matches Err(Error::MissingPhysicalResourceId { resource_name })
                    && resource_name@ == name,
            },
        },
{
    let items = match stack_resources {
        Some(items) => items,
        None => {
            return Err(cfn_missing_field("describe_stack_resources", "stack_resources"));
        },
    };
    let subnet1 = "Subnet1".to_owned();
    let subnet2 = "Subnet2".to_owned();
    let security_group = "SecurityGroup".to_owned();
    let ecs_instance_profile = "EcsInstanceProfile".to_owned();
    let mut found = Resources {
        subnet1_id: String::new(),
        subnet2_id: String::new(),
        security_group_id: String::new(),
        ecs_instance_profile_id: String::new(),
    };
    let mut i: usize = 0;
    assert(items@.skip(0) =~= items@);
    while i < items.len()
        invariant
            i <= items.len(),
            *stack_resources == Some(*items),
            subnet1@ == "Subnet1"@,
            subnet2@ == "Subnet2"@,
            security_group@ == "SecurityGroup"@,
            ecs_instance_profile@ == "EcsInstanceProfile"@,
            place_all(no_resources(), items@) == place_all(found@, items@.skip(i as int)),
        decreases items.len() - i,
    {
        proof {
            assert(items@.skip(i as int)[0] == items@[i as int]);
            assert(items@.skip(i as int).drop_first() =~= items@.skip(i as int + 1));
        }
        let resource = &items[i];
        let looked_for = resource.logical_resource_id == subnet1 || resource.logical_resource_id
            == subnet2 || resource.logical_resource_id == security_group
            || resource.logical_resource_id == ecs_instance_profile;
        if looked_for {
            let id = match &resource.physical_resource_id {
                Some(id) => id.clone(),
                None => {
                    return Err(
                        Error::MissingPhysicalResourceId {
                            resource_name: resource.logical_resource_id.clone(),
                        },
                    );
                },
            };
            if resource.logical_resource_id == subnet1 {
                found.subnet1_id = id;
            } else if resource.logical_resource_id == subnet2 {
                found.subnet2_id = id;
            } else if resource.logical_resource_id == security_group {
                found.security_group_id = id;
            } else {
                found.ecs_instance_profile_id = id;
            }
        }
        i += 1;
    }
    Ok(found)
}

/// A created cluster, as the container service describes it.
#[derive(Debug, Clone, PartialEq, Eq)]
pub struct Cluster {
    pub cluster_arn: Option<String>,
}

/// Reads the name of a created cluster; fails where the cluster or its name is missing.
pub fn cluster_details(cluster: &Option<Cluster>) -> (details: Result<ClusterDetails, Error>)
    ensures
        match *cluster {
            None => details matches Err(Error::EcsMissingField { api, field }) && api@
                == "create_cluster"@ && field@ == "cluster"@,
            Some(Cluster { cluster_arn: None }) => details matches Err(
                Error::EcsMissingField { api, field },
            ) && api@ == "create_cluster"@ && field@ == "cluster.cluster_arn"@,
            Some(Cluster { cluster_arn: Some(name) }) => details matches Ok(d) && d.cluster_arn@
                == name@,
        },
{
    match cluster {
        None => Err(
            Error::EcsMissingField { api: "create_cluster".to_owned(), field: "cluster".to_owned() },
        ),
        Some(cluster) => match &cluster.cluster_arn {
            None => Err(
                Error::EcsMissingField {
                    api: "create_cluster".to_owned(),
                    field: "cluster.cluster_arn".to_owned(),
                },
            ),
            Some(name) => Ok(ClusterDetails { cluster_arn: name.clone() }),
        },
    }
}

/// The identifiers of a list of started hosts, in order; `None` where one has none.
pub open spec fn started_ids(instances: Seq<Option<String>>) -> Option<Seq<Seq<char>>> {
    if forall|i: int| 0 <= i < instances.len() ==> (#[trigger] instances[i]) is Some {
        Some(Seq::new(instances.len(), |i: int| instances[i]->Some_0@))
    } else {
        None
    }
}

/// The identifiers of a sequence of started hosts, in order.
pub open spec fn detail_ids(details: Seq<InstanceDetails>) -> Seq<Seq<char>> {
    details.map_values(|d: InstanceDetails| d.instance_id@)
}

/// Reads the started hosts out of the identifiers that the compute service answered with;
/// fails where the list is missing or a host has no identifier.
pub fn instance_details(instances: &Option<Vec<Option<String>>>) -> (details: Result<
    Vec<InstanceDetails>,
    Error,
>)
    ensures
        match *instances {
            None => details matches Err(Error::Ec2MissingField { api, field }) && api@
                == "run_instances"@ && field@ == "instances"@,
            Some(items) => match started_ids(items@) {
                Some(ids) => details matches Ok(d) && detail_ids(d@) == ids,
                None => details matches Err(Error::Ec2MissingField { api, field }) && api@
                    == "run_instances"@ && field@ == "instances[].instance_id"@,
            },
        },
{
    let items = match instances {
        Some(items) => items,
        None => {
            return Err(
                Error::Ec2MissingField {
                    api: "run_instances".to_owned(),
                    field: "instances".to_owned(),
                },
            );
        },
    };
    let mut details: Vec<InstanceDetails> = Vec::new();
    let mut i: usize = 0;
    while i < items.len()
        invariant
            i <= items.len(),
            *instances == Some(*items),
            details@.len() == i,
            forall|j: int| 0 <= j < i ==> (#[trigger] items@[j]) == Some(details@[j].instance_id),
        decreases items.len() - i,
    {
        match &items[i] {
            Some(id) => {
                details.push(InstanceDetails { instance_id: id.clone() });
            },
            None => {
                assert(items@[i as int] is None);
                return Err(
                    Error::Ec2MissingField {
                        api: "run_instances".to_owned(),
                        field: "instances[].instance_id".to_owned(),
                    },
                );
            },
        }
        i += 1;
    }
    assert(detail_ids(details@) =~= started_ids(items@)->Some_0);
    Ok(details)
}

/// The standard base64 form, with padding, of the bytes of a text, as `base64::encode`
/// gives it.
pub uninterp spec fn base64_of(text: Seq<char>) -> Seq<char>;

/// Calls `base64::encode` on the bytes of the text. The claim: the result depends on the
/// text alone.
#[verifier::external_body]
fn encode_base64(text: &str) -> (encoded: String)
    ensures
        encoded@ == base64_of(text@),
{
    base64::encode(text)
}

/// The settings that make a started host join the cluster.
pub open spec fn settings_of(cluster_name: Seq<char>) -> Seq<char> {
    "[settings.ecs]\ncluster = \""@ + cluster_name + "\"\n"@
}

/// Writes the settings that make a started host join `cluster_name`.
pub fn cluster_settings(cluster_name: &str) -> (settings: String)
    ensures
        settings@ == settings_of(cluster_name@),
{
    let mut settings = "[settings.ecs]\ncluster = \"".to_owned();
    settings.append(cluster_name);
    settings.append("\"\n");
    settings
}

/// The user data of a host that is to join `cluster_name`: its settings in base64.
pub fn user_data(cluster_name: &str) -> (data: String)
    ensures
        data@ == base64_of(settings_of(cluster_name@)),
{
    let settings = cluster_settings(cluster_name);
    encode_base64(settings.as_str())
}

/// A stack with its outputs, each a key with its value, in the order of the answer.
#[derive(Debug, Clone, PartialEq, Eq)]
pub struct StackInfo {
    pub stack_name: String,
    pub stack_status: String,
    pub outputs: Vec<(String, String)>,
}

/// The value of the last output named `key`.
pub open spec fn output_of(outputs: Seq<(String, String)>, key: Seq<char>) -> Option<Seq<char>>
    decreases outputs.len(),
{
    if outputs.len() == 0 {
        None
    } else if outputs.last().0@ == key {
        Some(outputs.last().1@)
    } else {
        output_of(outputs.drop_last(), key)
    }
}

impl StackInfo {
    /// Looks an output up by its key. Where a key comes twice, the later value counts.
    pub fn output(&self, key: &str) -> (value: Option<String>)
        ensures
            crate::model::optional_text(value) == output_of(self.outputs@, key@),
    {
        let wanted = key.to_owned();
        let mut i: usize = self.outputs.len();
        assert(self.outputs@.take(i as int) =~= self.outputs@);
        while i > 0
            invariant
                i <= self.outputs.len(),
                wanted@ == key@,
                output_of(self.outputs@, key@) == output_of(self.outputs@.take(i as int), key@),
            decreases i,
        {
            i -= 1;
            proof {
                assert(self.outputs@.take(i as int + 1).last() == self.outputs@[i as int]);
                assert(self.outputs@.take(i as int + 1).drop_last() =~= self.outputs@.take(
                    i as int,
                ));
            }
            if self.outputs[i].0 == wanted {
                return Some(self.outputs[i].1.clone());
            }
        }
        None
    }
}

pub struct StackInfoView {
    pub stack_name: Seq<char>,
    pub stack_status: Seq<char>,
    pub outputs: Seq<(Seq<char>, Seq<char>)>,
}

impl View for StackInfo {
    type V = StackInfoView;

    open spec fn view(&self) -> StackInfoView {
        StackInfoView {
            stack_name: self.stack_name@,
            stack_status: self.stack_status@,
            outputs: parameter_views(self.outputs@),
        }
    }
}

/// The views of a sequence of stacks, in order.
pub open spec fn stack_views(stacks: Seq<StackInfo>) -> Seq<StackInfoView> {
    stacks.map_values(|s: StackInfo| s@)
}

/// One output of a stack, as the stack service describes it.
#[derive(Debug, Clone, PartialEq, Eq)]
pub struct StackOutput {
    pub output_key: Option<String>,
    pub output_value: Option<String>,
}

/// A stack, as the stack service describes it.
#[derive(Debug, Clone, PartialEq, Eq)]
pub struct Stack {
    pub stack_name: String,
    pub stack_status: String,
    pub outputs: Option<Vec<StackOutput>>,
}

/// The key and the value of an output, or the field that it lacks; the key is looked for
/// first.
pub open spec fn read_pair(output: StackOutput) -> Result<(Seq<char>, Seq<char>), Seq<char>> {
    match (output.output_key, output.output_value) {
        (None, _) => Err("stacks.outputs.output_key"@),
        (Some(_), None) => Err("stacks.outputs.output_value"@),
        (Some(key), Some(value)) => Ok((key@, value@)),
    }
}

/// The keys and values of a list of outputs, in order, or the field that the first faulty
/// one lacks.
pub open spec fn read_pairs(items: Seq<StackOutput>) -> Result<
    Seq<(Seq<char>, Seq<char>)>,
    Seq<char>,
>
    decreases items.len(),
{
    if items.len() == 0 {
        Ok(Seq::empty())
    } else {
        match read_pair(items[0]) {
            Err(field) => Err(field),
            Ok(first) => match read_pairs(items.drop_first()) {
                Ok(rest) => Ok(seq![first] + rest),
                Err(field) => Err(field),
            },
        }
    }
}

/// A stack with its outputs read, or the field that its first faulty output lacks. A
/// stack without a list of outputs has none.
pub open spec fn read_stack(stack: Stack) -> Result<StackInfoView, Seq<char>> {
    match stack.outputs {
        None => Ok(
            StackInfoView {
                stack_name: stack.stack_name@,
                stack_status: stack.stack_status@,
                outputs: Seq::empty(),
            },
        ),
        Some(outputs) => match read_pairs(outputs@) {
            Ok(pairs) => Ok(
                StackInfoView {
                    stack_name: stack.stack_name@,
                    stack_status: stack.stack_status@,
                    outputs: pairs,
                },
            ),
            Err(field) => Err(field),
        },
    }
}

/// The stacks of a list, in order, or the field that the first faulty output lacks.
pub open spec fn read_stacks(items: Seq<Stack>) -> Result<Seq<StackInfoView>, Seq<char>>
    decreases items.len(),
{
    if items.len() == 0 {
        Ok(Seq::empty())
    } else {
        match read_stack(items[0]) {
            Err(field) => Err(field),
            Ok(first) => match read_stacks(items.drop_first()) {
                Ok(rest) => Ok(seq![first] + rest),
                Err(field) => Err(field),
            },
        }
    }
}

fn output_pairs(items: &Vec<StackOutput>) -> (pairs: Result<Vec<(String, String)>, Error>)
    ensures
        match read_pairs(items@) {
            Ok(found) => pairs matches Ok(list) && parameter_views(list@) == found,
            Err(field) => pairs matches Err(e) && cfn_missing(e, "describe_stacks"@, field),
        },
{
    let mut list: Vec<(String, String)> = Vec::new();
    let mut i: usize = 0;
    assert(items@.skip(0) =~= items@);
    assert(parameter_views(list@) =~= Seq::empty());
    while i < items.len()
        invariant
            i <= items.len(),
            match read_pairs(items@.skip(i as int)) {
                Ok(rest) => read_pairs(items@) == Ok::<Seq<(Seq<char>, Seq<char>)>, Seq<char>>(
                    parameter_views(list@) + rest,
                ),
                Err(field) => read_pairs(items@) == Err::<Seq<(Seq<char>, Seq<char>)>, Seq<char>>(
                    field,
                ),
            },
        decreases items.len() - i,
    {
        let ghost before = list@;
        proof {
            assert(items@.skip(i as int)[0] == items@[i as int]);
            assert(items@.skip(i as int).drop_first() =~= items@.skip(i as int + 1));
        }
        let key = match &items[i].output_key {
            Some(key) => key.clone(),
            None => {
                return Err(cfn_missing_field("describe_stacks", "stacks.outputs.output_key"));
            },
        };
        let value = match &items[i].output_value {
            Some(value) => value.clone(),
            None => {
                return Err(cfn_missing_field("describe_stacks", "stacks.outputs.output_value"));
            },
        };
        list.push((key, value));
        proof {
            let first = (key@, value@);
            assert(parameter_views(list@) =~= parameter_views(before) + seq![first]);
            if read_pairs(items@.skip(i as int + 1)) is Ok {
                let rest = read_pairs(items@.skip(i as int + 1))->Ok_0;
                assert((parameter_views(before) + seq![first]) + rest =~= parameter_views(before)
                    + (seq![first] + rest));
            }
        }
        i += 1;
    }
    assert(parameter_views(list@) + Seq::<(Seq<char>, Seq<char>)>::empty() =~= parameter_views(
        list@,
    ));
    Ok(list)
}

/// Reads the stacks with their outputs out of the described stacks; fails where the list
/// is missing, or where an output lacks its key or its value.
pub fn stack_infos(stacks: &Option<Vec<Stack>>) -> (infos: Result<Vec<StackInfo>, Error>)
    ensures
        match *stacks {
            None => infos matches Err(e) && cfn_missing(e, "describe_stacks"@, "stacks"@),
            Some(items) => match read_stacks(items@) {
                Ok(found) => infos matches Ok(list) && stack_views(list@) == found,
                Err(field) => infos matches Err(e) && cfn_missing(e, "describe_stacks"@, field),
            },
        },
{
    let items = match stacks {
        Some(items) => items,
        None => {
            return Err(cfn_missing_field("describe_stacks", "stacks"));
        },
    };
    let mut list: Vec<StackInfo> = Vec::new();
    let mut i: usize = 0;
    assert(items@.skip(0) =~= items@);
    assert(stack_views(list@) =~= Seq::empty());
    while i < items.len()
        invariant
            i <= items.len(),
            *stacks == Some(*items),
            match read_stacks(items@.skip(i as int)) {
                Ok(rest) => read_stacks(items@) == Ok::<Seq<StackInfoView>, Seq<char>>(
                    stack_views(list@) + rest,
                ),
                Err(field) => read_stacks(items@) == Err::<Seq<StackInfoView>, Seq<char>>(field),
            },
        decreases items.len() - i,
    {
        let ghost before = list@;
        proof {
            assert(items@.skip(i as int)[0] == items@[i as int]);
            assert(items@.skip(i as int).drop_first() =~= items@.skip(i as int + 1));
        }
        let outputs = match &items[i].outputs {
            None => Vec::new(),
            Some(outputs) => match output_pairs(outputs) {
                Ok(pairs) => pairs,
                Err(e) => {
                    return Err(e);
                },
            },
        };
        assert(items@[i as int].outputs is None ==> parameter_views(outputs@) =~= Seq::empty());
        let info = StackInfo {
            stack_name: items[i].stack_name.clone(),
            stack_status: items[i].stack_status.clone(),
            outputs,
        };
        list.push(info);
        proof {
            assert(stack_views(list@) =~= stack_views(before) + seq![info@]);
            if read_stacks(items@.skip(i as int + 1)) is Ok {
                let rest = read_stacks(items@.skip(i as int + 1))->Ok_0;
                assert((stack_views(before) + seq![info@]) + rest =~= stack_views(before) + (
                seq![info@] + rest));
            }
        }
        i += 1;
    }
    assert(stack_views(list@) + Seq::<StackInfoView>::empty() =~= stack_views(list@));
    Ok(list)
}

/// The views of a list of parameters: each key with its value.
pub open spec fn parameter_views(parameters: Seq<(String, String)>) -> Seq<(Seq<char>, Seq<char>)> {
    parameters.map_values(|p: (String, String)| (p.0@, p.1@))
}

/// The parameters of the cluster's stack: the shared stack that it builds on, the name of
/// the cluster, and the image that its hosts run.
pub fn cluster_parameters(integ_stack_name: &str, cluster_name: &str, image_id: &str) -> (parameters:
    Vec<(String, String)>)
    ensures
        parameter_views(parameters@) == seq![
            ("IntegSharedResourceStack"@, integ_stack_name@),
            ("ClusterName"@, cluster_name@),
            ("ImageID"@, image_id@),
        ],
{
    let mut parameters: Vec<(String, String)> = Vec::new();
    parameters.push(("IntegSharedResourceStack".to_owned(), integ_stack_name.to_owned()));
    parameters.push(("ClusterName".to_owned(), cluster_name.to_owned()));
    parameters.push(("ImageID".to_owned(), image_id.to_owned()));
    assert(parameter_views(parameters@) =~= seq![
        ("IntegSharedResourceStack"@, integ_stack_name@),
        ("ClusterName"@, cluster_name@),
        ("ImageID"@, image_id@),
    ]);
    parameters
}

/// The parameters of the updater's stack, given the shared stack: the name of the cluster,
/// the updater's image, and the shared stack's outputs `PublicSubnets` and `LogGroup`.
/// Fails where the shared stack lacks one of the two outputs; `PublicSubnets` is looked
/// for first.
pub fn updater_parameters(cluster_name: &str, updater_image: &str, shared: &StackInfo) -> (parameters:
    Result<Vec<(String, String)>, Error>)
    ensures
        match (
            output_of(shared.outputs@, "PublicSubnets"@),
            output_of(shared.outputs@, "LogGroup"@),
        ) {
            (None, _) => parameters == Err::<Vec<(String, String)>, Error>(
                Error::MissingPublicSubnets,
            ),
            (Some(_), None) => parameters == Err::<Vec<(String, String)>, Error>(
                Error::MissingLogGroup,
            ),
            (Some(subnets), Some(log_group)) => parameters matches Ok(list) && parameter_views(
                list@,
            ) == seq![
                ("ClusterName"@, cluster_name@),
                ("UpdaterImage"@, updater_image@),
                ("Subnets"@, subnets),
                ("LogGroupName"@, log_group),
            ],
        },
{
    let subnets = match shared.output("PublicSubnets") {
        Some(value) => value,
        None => {
            return Err(Error::MissingPublicSubnets);
        },
    };
    let log_group = match shared.output("LogGroup") {
        Some(value) => value,
        None => {
            return Err(Error::MissingLogGroup);
        },
    };
    let mut parameters: Vec<(String, String)> = Vec::new();
    parameters.push(("ClusterName".to_owned(), cluster_name.to_owned()));
    parameters.push(("UpdaterImage".to_owned(), updater_image.to_owned()));
    parameters.push(("Subnets".to_owned(), subnets));
    parameters.push(("LogGroupName".to_owned(), log_group));
    assert(parameter_views(parameters@) =~= seq![
        ("ClusterName"@, cluster_name@),
        ("UpdaterImage"@, updater_image@),
        ("Subnets"@, subnets@),
        ("LogGroupName"@, log_group@),
    ]);
    Ok(parameters)
}

} // verus!
