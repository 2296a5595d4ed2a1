//! What the detector needs of the cloud services' answers: which region names are known,
//! and how an answer is read into the plain values of this crate. The calls themselves are
//! made by the caller.

use vstd::prelude::*;
use vstd::string::StringExecFns;
use crate::model::{
    Instance, InstanceView, Instances, SsmCommandDetails, SsmInvocationOutput,
    SsmInvocationStatus,
};

pub mod api;

verus! {

/// Seconds that a command may take where the caller names no timeout.
pub const SSM_COMMAND_DEFAULT_TIMEOUT_SECS: i64 = 60;

/// Why an answer of a cloud service could not be used.
#[derive(Debug, Clone, PartialEq, Eq)]
pub enum Error {
    /// The inventory's answer lacks a field.
    EcsMissingField { api: String, field: String },
    /// A host's invocation does not hold exactly one output segment.
    MissingPlugin { instance_id: String },
    /// The region name is not one that the signing library knows.
    ParseRegion { name: String, source: String },
    /// The command channel's answer lacks a field.
    SsmMissingField { api: String, field: String },
    /// The command channel's answer lacks a field of one host's output segment.
    SsmInvocationMissingField { instance_id: String, api: String, field: String },
}

/// The message of an [`Error`].
pub open spec fn message_of(error: Error) -> Seq<char> {
    match error {
        Error::EcsMissingField { api, field } => "Missing field in `"@ + api@ + "` response: "@
            + field@,
        Error::MissingPlugin { instance_id } =>
            "Missing command_plugin in `list_command_invocations` responses for instance '"@
            + instance_id@ + "'"@,
        Error::ParseRegion { name, source } => "Failed to parse region `"@ + name@ + "` : "@
            + source@,
        Error::SsmMissingField { api, field } => "Missing field in `"@ + api@ + "` response: "@
            + field@,
        Error::SsmInvocationMissingField { instance_id, api, field } => "Missing field in `"@
            + api@ + "` response for instance "@ + instance_id@ + ": "@ + field@,
    }
}

impl Error {
    /// The message of this error, as it is shown to the user.
    pub fn message(&self) -> (text: String)
        ensures
            text@ == message_of(*self),
    {
        match self {
            Error::EcsMissingField { api, field } => {
                let mut text = "Missing field in `".to_owned();
                text.append(api.as_str());
                text.append("` response: ");
                text.append(field.as_str());
                text
            },
            Error::MissingPlugin { instance_id } => {
                let mut text =
                    "Missing command_plugin in `list_command_invocations` responses for instance '".to_owned();
                text.append(instance_id.as_str());
                text.append("'");
                text
            },
            Error::ParseRegion { name, source } => {
                let mut text = "Failed to parse region `".to_owned();
                text.append(name.as_str());
                text.append("` : ");
                text.append(source.as_str());
                text
            },
            Error::SsmMissingField { api, field } => {
                let mut text = "Missing field in `".to_owned();
                text.append(api.as_str());
                text.append("` response: ");
                text.append(field.as_str());
                text
            },
            Error::SsmInvocationMissingField { instance_id, api, field } => {
                let mut text = "Missing field in `".to_owned();
                text.append(api.as_str());
                text.append("` response for instance ");
                text.append(instance_id.as_str());
                text.append(": ");
                text.append(field.as_str());
                text
            },
        }
    }

    /// This error as the failure of a remote service: its message is kept.
    pub fn into_error(self) -> (error: crate::model::Error)
        ensures
            error@ == message_of(self),
    {
        crate::model::Error::new(self.message())
    }
}

/// What `rusoto_core::Region`'s `from_str` makes of a region name: `Ok` with the canonical
/// name of the region, or `Err` with the message of the parse error.
pub uninterp spec fn parsed_region(name: Seq<char>) -> Result<Seq<char>, Seq<char>>;

/// The views of the two texts of a parse result.
pub open spec fn parsed_view(parsed: Result<String, String>) -> Result<Seq<char>, Seq<char>> {
    match parsed {
        Ok(name) => Ok(name@),
        Err(message) => Err(message@),
    }
}

/// Calls `from_str` of `rusoto_core::Region` through `str::parse`, and takes the region's
/// `name()` or the error's message. The claim: the outcome depends on the given name
/// alone.
#[verifier::external_body]
fn parse_region(name: &str) -> (parsed: Result<String, String>)
    ensures
        parsed_view(parsed) == parsed_region(name@),
{
    match name.parse::<rusoto_core::Region>() {
        Ok(region) => Ok(region.name().to_string()),
        Err(error) => Err(error.to_string()),
    }
}

/// The region to work in, given what the parser made of `name`: the canonical name, or the
/// failure that names both `name` and the parser's message.
pub open spec fn region_of(name: Seq<char>, parsed: Result<Seq<char>, Seq<char>>) -> Result<
    Seq<char>,
    Seq<char>,
> {
    match parsed {
        Ok(region) => Ok(region),
        Err(source) => Err("Failed to parse region `"@ + name + "` : "@ + source),
    }
}

/// Settles the region to work in from what the parser made of `name`.
pub fn settle_region(name: &str, parsed: Result<String, String>) -> (region: Result<
    String,
    crate::model::Error,
>)
    ensures
        match region_of(name@, parsed_view(parsed)) {
            Ok(text) => region matches Ok(r) && r@ == text,
            Err(text) => region matches Err(e) && e@ == text,
        },
{
    match parsed {
        Ok(region) => Ok(region),
        Err(source) => Err((Error::ParseRegion { name: name.to_owned(), source }).into_error()),
    }
}

/// The inventory service of one region.
#[derive(Debug, Clone, PartialEq, Eq)]
pub struct AwsEcsMediator {
    /// The canonical name of the region.
    pub region: String,
}

/// The command channel of one region.
#[derive(Debug, Clone, PartialEq, Eq)]
pub struct AwsSsmMediator {
    /// The canonical name of the region.
    pub region: String,
}

impl AwsEcsMediator {
    /// The inventory service of the region that `region_name` names; fails where the name
    /// is not known.
    pub fn new(region_name: &str) -> (mediator: Result<AwsEcsMediator, crate::model::Error>)
        ensures
            match region_of(region_name@, parsed_region(region_name@)) {
                Ok(text) => mediator matches Ok(m) && m.region@ == text,
                Err(text) => mediator matches Err(e) && e@ == text,
            },
    {
        match settle_region(region_name, parse_region(region_name)) {
            Ok(region) => Ok(AwsEcsMediator { region }),
            Err(error) => Err(error),
        }
    }
}

impl AwsSsmMediator {
    /// The command channel of the region that `region_name` names; fails where the name is
    /// not known.
    pub fn new(region_name: &str) -> (mediator: Result<AwsSsmMediator, crate::model::Error>)
        ensures
            match region_of(region_name@, parsed_region(region_name@)) {
                Ok(text) => mediator matches Ok(m) && m.region@ == text,
                Err(text) => mediator matches Err(e) && e@ == text,
            },
    {
        match settle_region(region_name, parse_region(region_name)) {
            Ok(region) => Ok(AwsSsmMediator { region }),
            Err(error) => Err(error),
        }
    }
}

/// The inventory service of `region`; fails where the region's name is not known.
pub fn new_ecs(region: &str) -> (mediator: Result<AwsEcsMediator, crate::model::Error>)
    ensures
        match region_of(region@, parsed_region(region@)) {
            Ok(text) => mediator matches Ok(m) && m.region@ == text,
            Err(text) => mediator matches Err(e) && e@ == text,
        },
{
    AwsEcsMediator::new(region)
}

/// The command channel of `region`; fails where the region's name is not known.
pub fn new_ssm(region: &str) -> (mediator: Result<AwsSsmMediator, crate::model::Error>)
    ensures
        match region_of(region@, parsed_region(region@)) {
            Ok(text) => mediator matches Ok(m) && m.region@ == text,
            Err(text) => mediator matches Err(e) && e@ == text,
        },
{
    AwsSsmMediator::new(region)
}

/// A missing field of an answer of the inventory.
pub open spec fn ecs_missing(e: Error, api_name: Seq<char>, field_name: Seq<char>) -> bool {
    e matches Error::EcsMissingField { api, field } && api@ == api_name && field@ == field_name
}

/// A missing field of an answer of the command channel.
pub open spec fn ssm_missing(e: Error, api_name: Seq<char>, field_name: Seq<char>) -> bool {
    e matches Error::SsmMissingField { api, field } && api@ == api_name && field@ == field_name
}

pub(crate) fn ecs_missing_field(api: &str, field: &str) -> (e: Error)
    ensures
        ecs_missing(e, api@, field@),
{
    Error::EcsMissingField { api: api.to_owned(), field: field.to_owned() }
}

pub(crate) fn ssm_missing_field(api: &str, field: &str) -> (e: Error)
    ensures
        ssm_missing(e, api@, field@),
{
    Error::SsmMissingField { api: api.to_owned(), field: field.to_owned() }
}

/// One attribute of a container instance.
#[derive(Debug, Clone, PartialEq, Eq)]
pub struct Attribute {
    pub name: String,
    pub value: Option<String>,
}

/// A container instance as the inventory describes it.
#[derive(Debug, Clone, PartialEq, Eq)]
pub struct ContainerInstance {
    pub ec2_instance_id: Option<String>,
    pub status: Option<String>,
    pub attributes: Option<Vec<Attribute>>,
}

/// Whether the attribute says that the host runs the `aws-ecs-1` variant.
pub open spec fn names_variant(attribute: Attribute) -> bool {
    attribute.name@ == "bottlerocket.variant"@ && (attribute.value matches Some(v) && v@
        == "aws-ecs-1"@)
}

/// Whether one of the attributes says that the host runs the `aws-ecs-1` variant.
pub open spec fn runs_bottlerocket(attributes: Option<Vec<Attribute>>) -> bool {
    attributes matches Some(list) && exists|i: int|
        0 <= i < list@.len() && names_variant(#[trigger] list@[i])
}

/// Tells whether a host runs the operating system that this crate updates: whether its
/// attribute `bottlerocket.variant` is `aws-ecs-1`.
pub fn is_bottlerocket(attributes: &Option<Vec<Attribute>>) -> (found: bool)
    ensures
        found == runs_bottlerocket(*attributes),
{
    match attributes {
        None => false,
        Some(list) => {
            let name = "bottlerocket.variant".to_owned();
            let variant = "aws-ecs-1".to_owned();
            let mut i: usize = 0;
            while i < list.len()
                invariant
                    i <= list.len(),
                    *attributes == Some(*list),
                    name@ == "bottlerocket.variant"@,
                    variant@ == "aws-ecs-1"@,
                    forall|j: int| 0 <= j < i ==> !names_variant(#[trigger] list@[j]),
                decreases list.len() - i,
            {
                if list[i].name == name {
                    match &list[i].value {
                        Some(v) => {
                            if *v == variant {
                                assert(names_variant(list@[i as int]));
                                assert(attributes->Some_0@[i as int] == list@[i as int]);
                                return true;
                            }
                        },
                        None => {},
                    }
                }
                i += 1;
            }
            false
        },
    }
}

/// What a described container instance gives: nothing where the host does not run the
/// variant, else the host, or the name of the field that it lacks.
pub open spec fn read_host(item: ContainerInstance) -> Option<Result<InstanceView, Seq<char>>> {
    if !runs_bottlerocket(item.attributes) {
        None
    } else {
        match (item.ec2_instance_id, item.status) {
            (None, _) => Some(Err("container_instances[].ec_2_instance_id"@)),
            (Some(_), None) => Some(Err("container_instances[].status"@)),
            (Some(id), Some(status)) => Some(
                Ok(InstanceView { instance_id: id@, status: status@ }),
            ),
        }
    }
}

/// The hosts of a list of described container instances, in order, or the field that the
/// first faulty one lacks.
pub open spec fn read_hosts(items: Seq<ContainerInstance>) -> Result<Seq<InstanceView>, Seq<char>>
    decreases items.len(),
{
    if items.len() == 0 {
        Ok(Seq::empty())
    } else {
        match read_host(items[0]) {
            Some(Err(field)) => Err(field),
            Some(Ok(host)) => match read_hosts(items.drop_first()) {
                Ok(rest) => Ok(seq![host] + rest),
                Err(field) => Err(field),
            },
            None => read_hosts(items.drop_first()),
        }
    }
}

/// Reads one page of the inventory out of the described container instances. Hosts that do
/// not run the variant are left out; a host that does and lacks its identifier or its
/// status fails the page, and so does a description without a list.
pub fn bottlerocket_instances(
    container_instances: &Option<Vec<ContainerInstance>>,
    next_token: Option<String>,
) -> (page: Result<Instances, Error>)
    ensures
        match *container_instances {
            None => page matches Err(e) && ecs_missing(
                e,
                "describe_container_instances"@,
                "container_instances"@,
            ),
            Some(items) => match read_hosts(items@) {
                Ok(hosts) => page matches Ok(p) && p@.bottlerocket_instances == hosts
                    && p@.next_token == crate::model::optional_text(next_token),
                Err(field) => page matches Err(e) && ecs_missing(
                    e,
                    "describe_container_instances"@,
                    field,
                ),
            },
        },
{
    let items = match container_instances {
        Some(items) => items,
        None => {
            return Err(ecs_missing_field("describe_container_instances", "container_instances"));
        },
    };
    let mut hosts: Vec<Instance> = Vec::new();
    let mut i: usize = 0;
    assert(items@.skip(0) =~= items@);
    assert(crate::model::instance_views(hosts@) =~= Seq::empty());
    while i < items.len()
        invariant
            i <= items.len(),
            *container_instances == Some(*items),
            match read_hosts(items@.skip(i as int)) {
                Ok(rest) => read_hosts(items@) == Ok::<Seq<InstanceView>, Seq<char>>(
                    crate::model::instance_views(hosts@) + rest,
                ),
                Err(field) => read_hosts(items@) == Err::<Seq<InstanceView>, Seq<char>>(field),
            },
        decreases items.len() - i,
    {
        let ghost before = hosts@;
        proof {
            assert(items@.skip(i as int)[0] == items@[i as int]);
            assert(items@.skip(i as int).drop_first() =~= items@.skip(i as int + 1));
        }
        if is_bottlerocket(&items[i].attributes) {
            let instance_id = match &items[i].ec2_instance_id {
                Some(id) => id.clone(),
                None => {
                    return Err(
                        ecs_missing_field(
                            "describe_container_instances",
                            "container_instances[].ec_2_instance_id",
                        ),
                    );
                },
            };
            let status = match &items[i].status {
                Some(status) => status.clone(),
                None => {
                    return Err(
                        ecs_missing_field(
                            "describe_container_instances",
                            "container_instances[].status",
                        ),
                    );
                },
            };
            hosts.push(Instance { instance_id, status });
            proof {
                let host = InstanceView { instance_id: instance_id@, status: status@ };
                assert(crate::model::instance_views(hosts@) =~= crate::model::instance_views(
                    before,
                ) + seq![host]);
                if read_hosts(items@.skip(i as int + 1)) is Ok {
                    let rest = read_hosts(items@.skip(i as int + 1))->Ok_0;
                    assert((crate::model::instance_views(before) + seq![host]) + rest
                        =~= crate::model::instance_views(before) + (seq![host] + rest));
                }
            }
        }
        i += 1;
    }
    assert(crate::model::instance_views(hosts@) + Seq::<InstanceView>::empty()
        =~= crate::model::instance_views(hosts@));
    Ok(Instances { bottlerocket_instances: hosts, next_token })
}

/// The timeout to submit a command with: the caller's, or the default where none is given.
pub fn command_timeout(timeout: Option<i64>) -> (seconds: i64)
    ensures
        seconds == match timeout {
            Some(t) => t,
            None => SSM_COMMAND_DEFAULT_TIMEOUT_SECS,
        },
{
    match timeout {
        Some(t) => t,
        None => SSM_COMMAND_DEFAULT_TIMEOUT_SECS,
    }
}

/// A submitted command as the command channel describes it.
#[derive(Debug, Clone, PartialEq, Eq)]
pub struct Command {
    pub command_id: Option<String>,
    pub status: Option<String>,
}

/// Reads the details of a submitted command; fails where the command, its identifier or
/// its status is missing, in that order.
pub fn command_details(command: &Option<Command>) -> (details: Result<SsmCommandDetails, Error>)
    ensures
        match *command {
            None => details matches Err(e) && ssm_missing(e, "send_command"@, "command"@),
            Some(Command { command_id: None, .. }) => details matches Err(e) && ssm_missing(
                e,
                "send_command"@,
                "command.command_id"@,
            ),
            Some(Command { command_id: Some(_), status: None }) => details matches Err(e)
                && ssm_missing(e, "send_command"@, "command.status"@),
            Some(Command { command_id: Some(id), status: Some(status) }) => details matches Ok(d)
                && d.command_id@ == id@ && d.status@ == status@,
        },
{
    let command = match command {
        Some(command) => command,
        None => {
            return Err(ssm_missing_field("send_command", "command"));
        },
    };
    let command_id = match &command.command_id {
        Some(id) => id.clone(),
        None => {
            return Err(ssm_missing_field("send_command", "command.command_id"));
        },
    };
    let status = match &command.status {
        Some(status) => status.clone(),
        None => {
            return Err(ssm_missing_field("send_command", "command.status"));
        },
    };
    Ok(SsmCommandDetails { command_id, status })
}

/// One output segment of an invocation.
#[derive(Debug, Clone, PartialEq, Eq)]
pub struct CommandPlugin {
    pub response_code: Option<i64>,
    pub output: Option<String>,
}

/// The invocation of a command on one host, as the command channel describes it.
#[derive(Debug, Clone, PartialEq, Eq)]
pub struct CommandInvocation {
    pub instance_id: Option<String>,
    pub status: Option<String>,
    pub command_plugins: Option<Vec<CommandPlugin>>,
}

/// What an invocation holds for the detector, or why it cannot be used: a missing field,
/// or a number of output segments other than one.
pub enum OutputReading {
    Output { instance_id: Seq<char>, standard_output: Seq<char>, status: Seq<char>, response_code: i64 },
    Missing { field: Seq<char> },
    Segments { instance_id: Seq<char> },
}

/// Reads an invocation: the host, the status and the one output segment with its response
/// code and its text are needed, and are looked for in that order.
pub open spec fn read_output(invocation: CommandInvocation) -> OutputReading {
    match (invocation.instance_id, invocation.status, invocation.command_plugins) {
        (None, _, _) => OutputReading::Missing { field: "instance_id"@ },
        (Some(_), None, _) => OutputReading::Missing { field: "command_invocations[].status"@ },
        (Some(_), Some(_), None) => OutputReading::Missing {
            field: "command_invocations[].command_plugins"@,
        },
        (Some(id), Some(status), Some(plugins)) => if plugins@.len() != 1 {
            OutputReading::Segments { instance_id: id@ }
        } else {
            match (plugins@[0].response_code, plugins@[0].output) {
                (None, _) => OutputReading::Missing {
                    field: "command_invocations[].command_plugins[0].response_code"@,
                },
                (Some(_), None) => OutputReading::Missing {
                    field: "command_invocations[].command_plugins[0].output"@,
                },
                (Some(code), Some(text)) => OutputReading::Output {
                    instance_id: id@,
                    standard_output: text@,
                    status: status@,
                    response_code: code,
                },
            }
        },
    }
}

/// Reads what a command printed and returned on one host out of its invocation. Fails
/// where a field is missing, and where the invocation does not hold exactly one output
/// segment.
pub fn invocation_output(invocation: &CommandInvocation) -> (output: Result<
    SsmInvocationOutput,
    Error,
>)
    ensures
        match read_output(*invocation) {
            OutputReading::Output { instance_id, standard_output, status, response_code } => {
                output matches Ok(o) && o@ == (crate::model::SsmInvocationOutputView {
                    instance_id,
                    standard_output,
                    status,
                    response_code,
                })
            },
            OutputReading::Missing { field } => output matches Err(e) && ssm_missing(
                e,
                "list_command_invocations"@,
                field,
            ),
            OutputReading::Segments { instance_id } => output matches Err(
                Error::MissingPlugin { instance_id: id },
            ) && id@ == instance_id,
        },
{
    let instance_id = match &invocation.instance_id {
        Some(id) => id.clone(),
        None => {
            return Err(ssm_missing_field("list_command_invocations", "instance_id"));
        },
    };
    let status = match &invocation.status {
        Some(status) => status.clone(),
        None => {
            return Err(
                ssm_missing_field("list_command_invocations", "command_invocations[].status"),
            );
        },
    };
    let plugins = match &invocation.command_plugins {
        Some(plugins) => plugins,
        None => {
            return Err(
                ssm_missing_field(
                    "list_command_invocations",
                    "command_invocations[].command_plugins",
                ),
            );
        },
    };
    if plugins.len() != 1 {
        return Err(Error::MissingPlugin { instance_id });
    }
    let response_code = match plugins[0].response_code {
        Some(code) => code,
        None => {
            return Err(
                ssm_missing_field(
                    "list_command_invocations",
                    "command_invocations[].command_plugins[0].response_code",
                ),
            );
        },
    };
    let standard_output = match &plugins[0].output {
        Some(text) => text.clone(),
        None => {
            return Err(
                ssm_missing_field(
                    "list_command_invocations",
                    "command_invocations[].command_plugins[0].output",
                ),
            );
        },
    };
    Ok(SsmInvocationOutput { instance_id, standard_output, status, response_code })
}

/// Reads what a command printed and returned on the one host that was asked about: the
/// first listed invocation is read; fails where the list is missing or empty.
pub fn host_invocation_output(invocations: &Option<Vec<CommandInvocation>>) -> (output: Result<
    SsmInvocationOutput,
    Error,
>)
    ensures
        match *invocations {
            None => output matches Err(e) && ssm_missing(
                e,
                "list_command_invocations"@,
                "command_invocations"@,
            ),
            Some(items) => if items@.len() == 0 {
                output matches Err(e) && ssm_missing(
                    e,
                    "list_command_invocations"@,
                    "command_invocations[0]"@,
                )
            } else {
                match read_output(items@[0]) {
                    OutputReading::Output {
                        instance_id,
                        standard_output,
                        status,
                        response_code,
                    } => {
                        output matches Ok(o) && o@ == (crate::model::SsmInvocationOutputView {
                            instance_id,
                            standard_output,
                            status,
                            response_code,
                        })
                    },
                    OutputReading::Missing { field } => output matches Err(e) && ssm_missing(
                        e,
                        "list_command_invocations"@,
                        field,
                    ),
                    OutputReading::Segments { instance_id } => output matches Err(
                        Error::MissingPlugin { instance_id: id },
                    ) && id@ == instance_id,
                }
            },
        },
{
    match invocations {
        None => Err(ssm_missing_field("list_command_invocations", "command_invocations")),
        Some(items) => if items.len() == 0 {
            Err(ssm_missing_field("list_command_invocations", "command_invocations[0]"))
        } else {
            invocation_output(&items[0])
        },
    }
}

/// The state of an invocation, or the field that it lacks.
pub open spec fn read_status(invocation: CommandInvocation) -> Result<
    crate::model::SsmInvocationStatusView,
    Seq<char>,
> {
    match (invocation.instance_id, invocation.status) {
        (None, _) => Err("instance_id"@),
        (Some(_), None) => Err("command_invocations[].status"@),
        (Some(id), Some(status)) => Ok(
            crate::model::SsmInvocationStatusView {
                instance_id: id@,
                invocation_status: status@,
            },
        ),
    }
}

/// The states of a list of invocations, in order, or the field that the first faulty one
/// lacks.
pub open spec fn read_statuses(items: Seq<CommandInvocation>) -> Result<
    Seq<crate::model::SsmInvocationStatusView>,
    Seq<char>,
>
    decreases items.len(),
{
    if items.len() == 0 {
        Ok(Seq::empty())
    } else {
        match read_status(items[0]) {
            Err(field) => Err(field),
            Ok(first) => match read_statuses(items.drop_first()) {
                Ok(rest) => Ok(seq![first] + rest),
                Err(field) => Err(field),
            },
        }
    }
}

/// The views of a sequence of invocation states, in order.
pub open spec fn status_views(statuses: Seq<SsmInvocationStatus>) -> Seq<
    crate::model::SsmInvocationStatusView,
> {
    statuses.map_values(|s: SsmInvocationStatus| s@)
}

/// Reads the state of a command on each host out of the listed invocations; fails where
/// the list or a field of an invocation is missing.
pub fn invocation_statuses(invocations: &Option<Vec<CommandInvocation>>) -> (statuses: Result<
    Vec<SsmInvocationStatus>,
    Error,
>)
    ensures
        match *invocations {
            None => statuses matches Err(e) && ssm_missing(
                e,
                "list_command_invocations"@,
                "command_invocations"@,
            ),
            Some(items) => match read_statuses(items@) {
                Ok(found) => statuses matches Ok(list) && status_views(list@) == found,
                Err(field) => statuses matches Err(e) && ssm_missing(
                    e,
                    "list_command_invocations"@,
                    field,
                ),
            },
        },
{
    let items = match invocations {
        Some(items) => items,
        None => {
            return Err(ssm_missing_field("list_command_invocations", "command_invocations"));
        },
    };
    let mut list: Vec<SsmInvocationStatus> = Vec::new();
    let mut i: usize = 0;
    assert(items@.skip(0) =~= items@);
    assert(status_views(list@) =~= Seq::empty());
    while i < items.len()
        invariant
            i <= items.len(),
            *invocations == Some(*items),
            match read_statuses(items@.skip(i as int)) {
                Ok(rest) => read_statuses(items@) == Ok::<
                    Seq<crate::model::SsmInvocationStatusView>,
                    Seq<char>,
                >(status_views(list@) + rest),
                Err(field) => read_statuses(items@) == Err::<
                    Seq<crate::model::SsmInvocationStatusView>,
                    Seq<char>,
                >(field),
            },
        decreases items.len() - i,
    {
        let ghost before = list@;
        proof {
            assert(items@.skip(i as int)[0] == items@[i as int]);
            assert(items@.skip(i as int).drop_first() =~= items@.skip(i as int + 1));
        }
        let instance_id = match &items[i].instance_id {
            Some(id) => id.clone(),
            None => {
                return Err(ssm_missing_field("list_command_invocations", "instance_id"));
            },
        };
        let invocation_status = match &items[i].status {
            Some(status) => status.clone(),
            None => {
                return Err(
                    ssm_missing_field("list_command_invocations", "command_invocations[].status"),
                );
            },
        };
        list.push(SsmInvocationStatus { instance_id, invocation_status });
        proof {
            let first = crate::model::SsmInvocationStatusView {
                instance_id: instance_id@,
                invocation_status: invocation_status@,
            };
            assert(status_views(list@) =~= status_views(before) + seq![first]);
            if read_statuses(items@.skip(i as int + 1)) is Ok {
                let rest = read_statuses(items@.skip(i as int + 1))->Ok_0;
                assert((status_views(before) + seq![first]) + rest =~= status_views(before) + (
                seq![first] + rest));
            }
        }
        i += 1;
    }
    assert(status_views(list@) + Seq::<crate::model::SsmInvocationStatusView>::empty()
        =~= status_views(list@));
    Ok(list)
}

/// What to do after the states of a command were asked for, while waiting for it.
#[derive(Debug, Clone, PartialEq, Eq)]
pub enum WaitStep {
    /// Some host is still at work: ask again after a pause.
    PollAgain,
    /// No host is at work any more: the wait is over.
    Complete,
    /// The states could not be fetched: the wait fails.
    Fail(crate::model::Error),
}

/// Decides how the wait for a command goes on, from the answer to one poll.
pub fn wait_step(listed: Result<Vec<SsmInvocationStatus>, crate::model::Error>) -> (next: WaitStep)
    ensures
        match listed {
            Ok(statuses) => if any_pending(statuses@) {
                next == WaitStep::PollAgain
            } else {
                next == WaitStep::Complete
            },
            Err(error) => next == WaitStep::Fail(error),
        },
{
    match listed {
        Ok(statuses) => if is_any_pending(&statuses) {
            WaitStep::PollAgain
        } else {
            WaitStep::Complete
        },
        Err(error) => WaitStep::Fail(error),
    }
}

/// Whether the command is still at work on some host.
pub open spec fn any_pending(statuses: Seq<SsmInvocationStatus>) -> bool {
    exists|i: int|
        0 <= i < statuses.len() && (#[trigger] statuses[i]).invocation_status@ == "InProgress"@
}

/// Tells whether the command is still at work on some host, that is, whether an
/// invocation is `InProgress`. Waiting for a command ends when this is false.
pub fn is_any_pending(statuses: &Vec<SsmInvocationStatus>) -> (pending: bool)
    ensures
        pending == any_pending(statuses@),
{
    let in_progress = "InProgress".to_owned();
    let mut i: usize = 0;
    while i < statuses.len()
        invariant
            i <= statuses.len(),
            in_progress@ == "InProgress"@,
            forall|j: int| 0 <= j < i ==> (#[trigger] statuses@[j]).invocation_status@
                != "InProgress"@,
        decreases statuses.len() - i,
    {
        if statuses[i].invocation_status == in_progress {
            return true;
        }
        i += 1;
    }
    false
}

} // verus!
