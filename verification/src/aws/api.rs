//! The answers of the cloud services read in bulk: the hosts of a whole cluster, and the
//! outputs of a command on all its hosts at once.

use vstd::prelude::*;
use crate::aws::{
    ecs_missing, ecs_missing_field, ssm_missing, ssm_missing_field, Command, ContainerInstance,
    Error,
};
use crate::model::texts;

verus! {

/// The identifier of a submitted command.
#[derive(Debug, Clone, PartialEq, Eq)]
pub struct SSMCommandResponse {
    pub command_id: String,
}

/// The identifiers of the hosts of a cluster.
#[derive(Debug, Clone, PartialEq, Eq)]
pub struct Instances {
    pub instance_ids: Vec<String>,
}

/// The names of the container instances of a cluster.
#[derive(Debug, Clone, PartialEq, Eq)]
pub struct ContainerInstances {
    pub container_instance_arns: Vec<String>,
}

/// What a command printed and returned on one host, with the details of its status.
#[derive(Debug, Clone, PartialEq, Eq)]
pub struct SSMInvocationResult {
    pub instance_id: String,
    pub output: String,
    pub status: String,
    pub status_details: String,
    pub response_code: i64,
}

pub struct SSMInvocationResultView {
    pub instance_id: Seq<char>,
    pub output: Seq<char>,
    pub status: Seq<char>,
    pub status_details: Seq<char>,
    pub response_code: i64,
}

impl View for SSMInvocationResult {
    type V = SSMInvocationResultView;

    open spec fn view(&self) -> SSMInvocationResultView {
        SSMInvocationResultView {
            instance_id: self.instance_id@,
            output: self.output@,
            status: self.status@,
            status_details: self.status_details@,
            response_code: self.response_code,
        }
    }
}

/// The views of a sequence of results, in order.
pub open spec fn result_views(results: Seq<SSMInvocationResult>) -> Seq<SSMInvocationResultView> {
    results.map_values(|r: SSMInvocationResult| r@)
}

/// Reads the names of the container instances of a cluster; fails where the list is
/// missing.
pub fn container_instances(arns: Option<Vec<String>>) -> (listed: Result<ContainerInstances, Error>)
    ensures
        match arns {
            Some(names) => listed matches Ok(l) && l.container_instance_arns == names,
            None => listed matches Err(e) && ecs_missing(
                e,
                "list_container_instances"@,
                "container_instance_arns"@,
            ),
        },
{
    match arns {
        Some(container_instance_arns) => Ok(ContainerInstances { container_instance_arns }),
        None => Err(ecs_missing_field("list_container_instances", "container_instance_arns")),
    }
}

/// The identifiers of a list of described container instances, in order; `None` where one
/// of them has none.
pub open spec fn read_ids(items: Seq<ContainerInstance>) -> Option<Seq<Seq<char>>> {
    if forall|i: int| 0 <= i < items.len() ==> (#[trigger] items[i]).ec2_instance_id is Some {
        Some(Seq::new(items.len(), |i: int| items[i].ec2_instance_id->Some_0@))
    } else {
        None
    }
}

/// Reads the identifiers of the hosts out of the described container instances; fails
/// where the list is missing or a container instance has no host identifier.
pub fn instances(described: &Option<Vec<ContainerInstance>>) -> (found: Result<Instances, Error>)
    ensures
        match *described {
            None => found matches Err(e) && ecs_missing(
                e,
                "describe_container_instances"@,
                "container_instances"@,
            ),
            Some(items) => match read_ids(items@) {
                Some(ids) => found matches Ok(f) && texts(f.instance_ids@) == ids,
                None => found matches Err(e) && ecs_missing(
                    e,
                    "describe_container_instances"@,
                    "ec_2_instance_id"@,
                ),
            },
        },
{
    let items = match described {
        Some(items) => items,
        None => {
            return Err(ecs_missing_field("describe_container_instances", "container_instances"));
        },
    };
    let mut instance_ids: Vec<String> = Vec::new();
    let mut i: usize = 0;
    while i < items.len()
        invariant
            i <= items.len(),
            *described == Some(*items),
            instance_ids@.len() == i,
            forall|j: int|
                0 <= j < i ==> (#[trigger] items@[j]).ec2_instance_id == Some(instance_ids@[j]),
        decreases items.len() - i,
    {
        match &items[i].ec2_instance_id {
            Some(id) => {
                instance_ids.push(id.clone());
            },
            None => {
                assert(items@[i as int].ec2_instance_id is None);
                return Err(ecs_missing_field("describe_container_instances", "ec_2_instance_id"));
            },
        }
        i += 1;
    }
    assert(texts(instance_ids@) =~= read_ids(items@)->Some_0);
    Ok(Instances { instance_ids })
}

/// Reads the identifier of a submitted command; fails where the command or its identifier
/// is missing.
pub fn command_response(command: &Option<Command>) -> (response: Result<SSMCommandResponse, Error>)
    ensures
        match *command {
            None => response matches Err(e) && ssm_missing(e, "send_command"@, "command"@),
            Some(Command { command_id: None, .. }) => response matches Err(e) && ssm_missing(
                e,
                "send_command"@,
                "command_id"@,
            ),
            Some(Command { command_id: Some(id), .. }) => response matches Ok(r) && r.command_id@
                == id@,
        },
{
    match command {
        None => Err(ssm_missing_field("send_command", "command")),
        Some(command) => match &command.command_id {
            None => Err(ssm_missing_field("send_command", "command_id")),
            Some(id) => Ok(SSMCommandResponse { command_id: id.clone() }),
        },
    }
}

/// One output segment of an invocation, with its own status.
#[derive(Debug, Clone, PartialEq, Eq)]
pub struct PluginResult {
    pub output: Option<String>,
    pub response_code: Option<i64>,
    pub status_details: Option<String>,
    pub status: Option<String>,
}

/// The invocation of a command on one host, with its output segments.
#[derive(Debug, Clone, PartialEq, Eq)]
pub struct Invocation {
    pub instance_id: Option<String>,
    pub command_plugins: Option<Vec<PluginResult>>,
}

/// Why an invocation cannot be used.
pub enum Fault {
    /// The invocation names no host.
    NoHost,
    /// The host's invocation has no list of output segments, or its one segment lacks a
    /// field.
    Field { instance_id: Seq<char>, field: Seq<char> },
    /// The host's invocation does not hold exactly one output segment.
    Segments { instance_id: Seq<char> },
}

/// Reads one invocation: its host, then its one output segment with its text, response
/// code, status details and status, looked for in that order.
pub open spec fn read_result(invocation: Invocation) -> Result<SSMInvocationResultView, Fault> {
    match (invocation.instance_id, invocation.command_plugins) {
        (None, _) => Err(Fault::NoHost),
        (Some(id), None) => Err(Fault::Field { instance_id: id@, field: "command_plugins"@ }),
        (Some(id), Some(plugins)) => if plugins@.len() != 1 {
            Err(Fault::Segments { instance_id: id@ })
        } else {
            let plugin = plugins@[0];
            match (plugin.output, plugin.response_code, plugin.status_details, plugin.status) {
                (None, _, _, _) => Err(Fault::Field { instance_id: id@, field: "output"@ }),
                (Some(_), None, _, _) => Err(
                    Fault::Field { instance_id: id@, field: "response_code"@ },
                ),
                (Some(_), Some(_), None, _) => Err(
                    Fault::Field { instance_id: id@, field: "status_details"@ },
                ),
                (Some(_), Some(_), Some(_), None) => Err(
                    Fault::Field { instance_id: id@, field: "status"@ },
                ),
                (Some(output), Some(code), Some(details), Some(status)) => Ok(
                    SSMInvocationResultView {
                        instance_id: id@,
                        output: output@,
                        status: status@,
                        status_details: details@,
                        response_code: code,
                    },
                ),
            }
        },
    }
}

/// Whether `e` reports the fault `fault` of an answer to `list_command_invocations`.
pub open spec fn reports(e: Error, fault: Fault) -> bool {
    match fault {
        Fault::NoHost => ssm_missing(e, "list_command_invocations"@, "instance_id"@),
        Fault::Field { instance_id, field } => e matches Error::SsmInvocationMissingField {
            instance_id: id,
            api,
            field: f,
        } && id@ == instance_id && api@ == "list_command_invocations"@ && f@ == field,
        Fault::Segments { instance_id } => e matches Error::MissingPlugin { instance_id: id }
            && id@ == instance_id,
    }
}

fn invocation_field_missing(instance_id: &String, field: &str) -> (e: Error)
    ensures
        reports(e, Fault::Field { instance_id: instance_id@, field: field@ }),
{
    Error::SsmInvocationMissingField {
        instance_id: instance_id.clone(),
        api: "list_command_invocations".to_owned(),
        field: field.to_owned(),
    }
}

/// Reads what a command printed and returned on one host out of its invocation.
pub fn invocation_result(invocation: &Invocation) -> (result: Result<SSMInvocationResult, Error>)
    ensures
        match read_result(*invocation) {
            Ok(found) => result matches Ok(r) && r@ == found,
            Err(fault) => result matches Err(e) && reports(e, fault),
        },
{
    let instance_id = match &invocation.instance_id {
        Some(id) => id.clone(),
        None => {
            return Err(ssm_missing_field("list_command_invocations", "instance_id"));
        },
    };
    let plugins = match &invocation.command_plugins {
        Some(plugins) => plugins,
        None => {
            return Err(invocation_field_missing(&instance_id, "command_plugins"));
        },
    };
    if plugins.len() != 1 {
        return Err(Error::MissingPlugin { instance_id });
    }
    let output = match &plugins[0].output {
        Some(output) => output.clone(),
        None => {
            return Err(invocation_field_missing(&instance_id, "output"));
        },
    };
    let response_code = match plugins[0].response_code {
        Some(code) => code,
        None => {
            return Err(invocation_field_missing(&instance_id, "response_code"));
        },
    };
    let status_details = match &plugins[0].status_details {
        Some(details) => details.clone(),
        None => {
            return Err(invocation_field_missing(&instance_id, "status_details"));
        },
    };
    let status = match &plugins[0].status {
        Some(status) => status.clone(),
        None => {
            return Err(invocation_field_missing(&instance_id, "status"));
        },
    };
    Ok(SSMInvocationResult { instance_id, output, status, status_details, response_code })
}

/// The results of a list of invocations, in order, or the fault of the first faulty one.
pub open spec fn read_results(items: Seq<Invocation>) -> Result<Seq<SSMInvocationResultView>, Fault>
    decreases items.len(),
{
    if items.len() == 0 {
        Ok(Seq::empty())
    } else {
        match read_result(items[0]) {
            Err(fault) => Err(fault),
            Ok(first) => match read_results(items.drop_first()) {
                Ok(rest) => Ok(seq![first] + rest),
                Err(fault) => Err(fault),
            },
        }
    }
}

/// Reads what a command printed and returned on each host out of the listed invocations;
/// fails where the list is missing, and with the fault of the first faulty invocation.
pub fn invocation_results(invocations: &Option<Vec<Invocation>>) -> (results: Result<
    Vec<SSMInvocationResult>,
    Error,
>)
    ensures
        match *invocations {
            None => results matches Err(e) && ssm_missing(
                e,
                "list_command_invocations"@,
                "command_invocations"@,
            ),
            Some(items) => match read_results(items@) {
                Ok(found) => results matches Ok(list) && result_views(list@) == found,
                Err(fault) => results matches Err(e) && reports(e, fault),
            },
        },
{
    let items = match invocations {
        Some(items) => items,
        None => {
            return Err(ssm_missing_field("list_command_invocations", "command_invocations"));
        },
    };
    let mut list: Vec<SSMInvocationResult> = Vec::new();
    let mut i: usize = 0;
    assert(items@.skip(0) =~= items@);
    assert(result_views(list@) =~= Seq::empty());
    while i < items.len()
        invariant
            i <= items.len(),
            *invocations == Some(*items),
            match read_results(items@.skip(i as int)) {
                Ok(rest) => read_results(items@) == Ok::<Seq<SSMInvocationResultView>, Fault>(
                    result_views(list@) + rest,
                ),
                Err(fault) => read_results(items@) == Err::<Seq<SSMInvocationResultView>, Fault>(
                    fault,
                ),
            },
        decreases items.len() - i,
    {
        let ghost before = list@;
        proof {
            assert(items@.skip(i as int)[0] == items@[i as int]);
            assert(items@.skip(i as int).drop_first() =~= items@.skip(i as int + 1));
        }
        let result = match invocation_result(&items[i]) {
            Ok(result) => result,
            Err(e) => {
                return Err(e);
            },
        };
        list.push(result);
        proof {
            assert(result_views(list@) =~= result_views(before) + seq![result@]);
            if read_results(items@.skip(i as int + 1)) is Ok {
                let rest = read_results(items@.skip(i as int + 1))->Ok_0;
                assert((result_views(before) + seq![result@]) + rest =~= result_views(before) + (
                seq![result@] + rest));
            }
        }
        i += 1;
    }
    assert(result_views(list@) + Seq::<SSMInvocationResultView>::empty() =~= result_views(list@));
    Ok(list)
}

} // verus!
