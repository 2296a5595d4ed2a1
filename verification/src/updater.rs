//! The rules of a detection pass: which hosts are asked, with which command, and what a
//! host's answer means.

use vstd::prelude::*;
use vstd::string::StringExecFns;
use crate::detector::{Action, ActionView, Event};
use crate::json::{json_document, parse_json, Json};
use crate::mediator::{EcsMediator, SsmMediator};
use crate::model::{texts, Instance, InstanceView, SsmInvocationOutput, SsmInvocationOutputView};
use crate::record::{fresh_record, HostUpdateRecord, HostUpdateRecordView};
use crate::update_info::{update_info_from_json, update_info_of};

verus! {

/// Number of hosts asked for per inventory page, which bounds the hosts of one command.
pub const BATCH_INSTANCE_COUNT: i64 = 20;

/// Seconds after which the update check command times out on a host.
pub const SSM_CHECK_COMMAND_TIMEOUT_SECS: i64 = 120;

/// Why a detection pass failed.
#[derive(Debug, Clone, PartialEq, Eq)]
pub enum Error {
    /// A page of the inventory could not be fetched.
    DescribeInstances { source: crate::model::Error },
    /// The update check command could not be submitted.
    CheckUpdateCommand { source: crate::model::Error },
    /// Waiting for the command to complete failed.
    WaitCheckUpdateComplete { command_id: String, source: crate::model::Error },
    /// What the update check printed on a host is not a report.
    ParseCommandOutput { instance_id: String },
    /// A host reports an update as available and names none.
    MissingChosenUpdate { instance_id: String },
    /// The pass was handed the result of a call that it had not asked for.
    UnexpectedEvent,
}

pub enum ErrorView {
    DescribeInstances { source: Seq<char> },
    CheckUpdateCommand { source: Seq<char> },
    WaitCheckUpdateComplete { command_id: Seq<char>, source: Seq<char> },
    ParseCommandOutput { instance_id: Seq<char> },
    MissingChosenUpdate { instance_id: Seq<char> },
    UnexpectedEvent,
}

impl View for Error {
    type V = ErrorView;

    open spec fn view(&self) -> ErrorView {
        match *self {
            Error::DescribeInstances { source } => ErrorView::DescribeInstances { source: source@ },
            Error::CheckUpdateCommand { source } => ErrorView::CheckUpdateCommand {
                source: source@,
            },
            Error::WaitCheckUpdateComplete { command_id, source } => {
                ErrorView::WaitCheckUpdateComplete { command_id: command_id@, source: source@ }
            },
            Error::ParseCommandOutput { instance_id } => ErrorView::ParseCommandOutput {
                instance_id: instance_id@,
            },
            Error::MissingChosenUpdate { instance_id } => ErrorView::MissingChosenUpdate {
                instance_id: instance_id@,
            },
            Error::UnexpectedEvent => ErrorView::UnexpectedEvent,
        }
    }
}

/// The message of a failed pass.
pub open spec fn message_of(error: ErrorView) -> Seq<char> {
    match error {
        ErrorView::DescribeInstances { source } =>
            "Failed to describe cluster instances to check for updates: "@ + source,
        ErrorView::CheckUpdateCommand { source } => "Failed to send check update command: "@
            + source,
        ErrorView::WaitCheckUpdateComplete { command_id, source } =>
            "Failed to wait for ssm check update command with command_id "@ + command_id
            + " to complete: "@ + source,
        ErrorView::ParseCommandOutput { instance_id } =>
            "Failed to parse check update command output for instance "@ + instance_id,
        ErrorView::MissingChosenUpdate { instance_id } => "Update available on instance "@
            + instance_id + " but no update was chosen"@,
        ErrorView::UnexpectedEvent => "Received the result of a call that was not asked for"@,
    }
}

impl Error {
    /// The message of this error, as it is shown to the user.
    pub fn message(&self) -> (text: String)
        ensures
            text@ == message_of(self@),
    {
        match self {
            Error::DescribeInstances { source } => {
                let mut text =
                    "Failed to describe cluster instances to check for updates: ".to_owned();
                text.append(source.message.as_str());
                text
            },
            Error::CheckUpdateCommand { source } => {
                let mut text = "Failed to send check update command: ".to_owned();
                text.append(source.message.as_str());
                text
            },
            Error::WaitCheckUpdateComplete { command_id, source } => {
                let mut text =
                    "Failed to wait for ssm check update command with command_id ".to_owned();
                text.append(command_id.as_str());
                text.append(" to complete: ");
                text.append(source.message.as_str());
                text
            },
            Error::ParseCommandOutput { instance_id } => {
                let mut text =
                    "Failed to parse check update command output for instance ".to_owned();
                text.append(instance_id.as_str());
                text
            },
            Error::MissingChosenUpdate { instance_id } => {
                let mut text = "Update available on instance ".to_owned();
                text.append(instance_id.as_str());
                text.append(" but no update was chosen");
                text
            },
            Error::UnexpectedEvent => {
                "Received the result of a call that was not asked for".to_owned()
            },
        }
    }

    /// This error as a plain failure: its message is kept.
    pub fn into_error(self) -> (error: crate::model::Error)
        ensures
            error@ == message_of(self@),
    {
        crate::model::Error::new(self.message())
    }
}

/// What is reported at the end of a pass that found nothing: `Some` with the report where
/// no host has an update waiting, `None` where some host has.
pub fn nothing_to_update(records: &Vec<HostUpdateRecord>) -> (report: Option<String>)
    ensures
        records@.len() == 0 <==> report is Some,
        report matches Some(text) ==> text@ == "Zero instances to update!"@,
{
    if records.len() == 0 {
        Some("Zero instances to update!".to_owned())
    } else {
        None
    }
}

/// Whether a host with this status can be reached by a command.
pub open spec fn is_eligible(status: Seq<char>) -> bool {
    status == "ACTIVE"@ || status == "DRAINING"@
}

/// The identifier of a host, where the host can be reached by a command.
pub open spec fn eligible_id(host: InstanceView) -> Option<Seq<char>> {
    if is_eligible(host.status) {
        Some(host.instance_id)
    } else {
        None
    }
}

/// The identifiers of the hosts that can be reached by a command, in the order of the hosts.
pub open spec fn eligible_ids(hosts: Seq<InstanceView>) -> Seq<Seq<char>> {
    hosts.filter_map(|h: InstanceView| eligible_id(h))
}

/// The identifiers of the hosts whose status is `ACTIVE` or `DRAINING`, in the order of the
/// hosts. The others are left out.
pub fn get_instance_ids(instances: &[Instance]) -> (ids: Vec<String>)
    ensures
        texts(ids@) == eligible_ids(crate::model::instance_views(instances@)),
{
    let active = "ACTIVE".to_owned();
    let draining = "DRAINING".to_owned();
    let ghost hosts = crate::model::instance_views(instances@);
    let ghost pick = |h: InstanceView| eligible_id(h);
    let mut ids: Vec<String> = Vec::new();
    let mut i: usize = 0;
    assert(hosts.take(0).filter_map(pick) =~= Seq::<Seq<char>>::empty());
    while i < instances.len()
        invariant
            i <= instances.len(),
            active@ == "ACTIVE"@,
            draining@ == "DRAINING"@,
            hosts == crate::model::instance_views(instances@),
            pick == (|h: InstanceView| eligible_id(h)),
            texts(ids@) == hosts.take(i as int).filter_map(pick),
        decreases instances.len() - i,
    {
        let ghost before = ids@;
        proof {
            hosts.lemma_filter_map_take_succ(pick, i as int);
            assert(hosts[i as int] == instances@[i as int]@);
        }
        if instances[i].status == active || instances[i].status == draining {
            ids.push(instances[i].instance_id.clone());
            assert(texts(ids@) =~= texts(before) + seq![instances@[i as int].instance_id@]);
        }
        i += 1;
    }
    assert(hosts.take(i as int) =~= hosts);
    ids
}

/// The views of the arguments of a command: each key with its list of values.
pub open spec fn param_views(params: Seq<(String, Vec<String>)>) -> Seq<(Seq<char>, Seq<Seq<char>>)> {
    params.map_values(|p: (String, Vec<String>)| (p.0@, texts(p.1@)))
}

/// The arguments of the update check: the one key `commands` with the one value
/// `apiclient update check`.
pub open spec fn check_updates_param_view() -> Seq<(Seq<char>, Seq<Seq<char>>)> {
    seq![("commands"@, seq!["apiclient update check"@])]
}

/// The arguments of the update check command, as a list of keys with their values.
pub fn check_updates_param() -> (params: Vec<(String, Vec<String>)>)
    ensures
        param_views(params@) == check_updates_param_view(),
{
    let mut values: Vec<String> = Vec::new();
    values.push("apiclient update check".to_owned());
    assert(texts(values@) =~= seq!["apiclient update check"@]);
    let mut params: Vec<(String, Vec<String>)> = Vec::new();
    params.push(("commands".to_owned(), values));
    assert(param_views(params@) =~= check_updates_param_view());
    params
}

/// The view of what the rule says of one host.
pub open spec fn verdict_view(verdict: Result<Option<HostUpdateRecord>, Error>) -> Result<
    Option<HostUpdateRecordView>,
    ErrorView,
> {
    match verdict {
        Ok(Some(record)) => Ok(Some(record@)),
        Ok(None) => Ok(None),
        Err(error) => Err(error@),
    }
}

/// What a host's answer means, given the JSON document of its output (`None` where the
/// output is no JSON document).
///
/// A response code other than zero leaves the host out, whatever it printed. Else the
/// output has to be a report: if it is none, the pass fails. A report whose state is
/// `Available` gives a record with the chosen update's version, and fails the pass where
/// it names no chosen update. Any other state leaves the host out.
pub open spec fn update_available_rule(
    output: SsmInvocationOutputView,
    document: Option<Json>,
) -> Result<Option<HostUpdateRecordView>, ErrorView> {
    if output.response_code != 0 {
        Ok(None)
    } else {
        match document {
            None => Err(ErrorView::ParseCommandOutput { instance_id: output.instance_id }),
            Some(json) => match update_info_of(json) {
                None => Err(ErrorView::ParseCommandOutput { instance_id: output.instance_id }),
                Some(info) => if info.update_state == "Available"@ {
                    match info.chosen_update {
                        Some(chosen) => Ok(
                            Some(fresh_record(output.instance_id, output.status, chosen.version)),
                        ),
                        None => Err(
                            ErrorView::MissingChosenUpdate { instance_id: output.instance_id },
                        ),
                    }
                } else {
                    Ok(None)
                },
            },
        }
    }
}

/// What a host's answer means: the rule applied to the document of its output.
pub open spec fn verdict_of(output: SsmInvocationOutputView) -> Result<
    Option<HostUpdateRecordView>,
    ErrorView,
> {
    update_available_rule(output, json_document(output.standard_output))
}

/// The answer filed under the host that was asked: the host's identifier takes the place
/// of the one that the answer came with.
pub open spec fn filed(output: SsmInvocationOutputView, instance_id: Seq<char>) -> SsmInvocationOutputView {
    SsmInvocationOutputView { instance_id, ..output }
}

/// What the answer of the host `instance_id` means.
pub open spec fn verdict_for(instance_id: Seq<char>, output: SsmInvocationOutputView) -> Result<
    Option<HostUpdateRecordView>,
    ErrorView,
> {
    verdict_of(filed(output, instance_id))
}

/// Applies the update-available rule to a host's answer, given the JSON document of its
/// output. `Ok(None)` leaves the host out; an error fails the pass.
pub fn apply_update_available_rule(output: &SsmInvocationOutput, document: Option<Json>) -> (verdict:
    Result<Option<HostUpdateRecord>, Error>)
    ensures
        verdict_view(verdict) == update_available_rule(output@, document),
{
    if output.response_code != 0 {
        return Ok(None);
    }
    let json = match document {
        Some(json) => json,
        None => {
            return Err(Error::ParseCommandOutput { instance_id: output.instance_id.clone() });
        },
    };
    let info = match update_info_from_json(&json) {
        Some(info) => info,
        None => {
            return Err(Error::ParseCommandOutput { instance_id: output.instance_id.clone() });
        },
    };
    let available = "Available".to_owned();
    if info.update_state == available {
        match info.chosen_update {
            Some(chosen) => Ok(
                Some(
                    HostUpdateRecord::new(
                        output.instance_id.clone(),
                        output.status.clone(),
                        chosen.version,
                    ),
                ),
            ),
            None => Err(Error::MissingChosenUpdate { instance_id: output.instance_id.clone() }),
        }
    } else {
        Ok(None)
    }
}

/// Decides what a host's answer means. The output is read as JSON only where the response
/// code is zero.
pub fn evaluate_output(output: &SsmInvocationOutput) -> (verdict: Result<
    Option<HostUpdateRecord>,
    Error,
>)
    ensures
        verdict_view(verdict) == verdict_of(output@),
{
    if output.response_code != 0 {
        Ok(None)
    } else {
        let document = parse_json(output.standard_output.as_str());
        apply_update_available_rule(output, document)
    }
}

/// Decides what the answer of the host `instance_id` means. The answer is filed under that
/// host, whatever identifier it came with.
pub fn evaluate_answer(instance_id: &String, output: SsmInvocationOutput) -> (verdict: Result<
    Option<HostUpdateRecord>,
    Error,
>)
    ensures
        verdict_view(verdict) == verdict_for(instance_id@, output@),
{
    let filed = SsmInvocationOutput {
        instance_id: instance_id.clone(),
        standard_output: output.standard_output,
        status: output.status,
        response_code: output.response_code,
    };
    evaluate_output(&filed)
}

/// What became of a request of the pass.
#[derive(Debug, PartialEq, Eq)]
pub enum Outcome {
    /// The call was made; this is its result, to be handed to the pass.
    Event(Event),
    /// No call was asked for: the pass is over, with its records or with a failure.
    Done(Result<Vec<HostUpdateRecord>, Error>),
}

/// Whether `outcome` is what `action` calls for: the result of the one call that the action
/// names, or the end of the pass where it names none.
pub open spec fn answers(action: ActionView, outcome: Outcome) -> bool {
    match action {
        ActionView::ListInstances { .. } => outcome matches Outcome::Event(Event::Listed(_)),
        ActionView::SendCommand { .. } => outcome matches Outcome::Event(Event::CommandSent(_)),
        ActionView::WaitCommandComplete { .. } => outcome matches Outcome::Event(
            Event::CommandComplete(_),
        ),
        ActionView::GetCommandInvocation { .. } => outcome matches Outcome::Event(
            Event::Invocation(_),
        ),
        ActionView::Finish { records } => outcome matches Outcome::Done(Ok(found))
            && crate::record::record_views(found@) == records,
        ActionView::Fail { error } => outcome matches Outcome::Done(Err(e)) && e@ == error,
    }
}

/// Watches the hosts of one cluster through the two remote services.
pub struct Updater<T: EcsMediator, S: SsmMediator> {
    cluster: String,
    ecs: T,
    ssm: S,
}

impl<T: EcsMediator, S: SsmMediator> Updater<T, S> {
    /// An updater for `cluster` that talks to the given services.
    pub fn new(cluster: String, ecs: T, ssm: S) -> (updater: Self)
        ensures
            updater.cluster_name() == cluster@,
            updater.inventory() == ecs,
            updater.channel() == ssm,
    {
        Updater { cluster, ecs, ssm }
    }

    /// The inventory that this updater asks.
    pub closed spec fn inventory(&self) -> T {
        self.ecs
    }

    /// The command channel that this updater uses.
    pub closed spec fn channel(&self) -> S {
        self.ssm
    }

    /// The cluster that this updater watches.
    pub closed spec fn cluster_name(&self) -> Seq<char> {
        self.cluster@
    }

    /// The cluster that this updater watches.
    pub fn cluster(&self) -> (cluster: String)
        ensures
            cluster@ == self.cluster_name(),
    {
        self.cluster.clone()
    }

    /// Makes the one call that `action` names and hands back its result, whatever it is;
    /// where the action ends the pass, hands back how it ended.
    pub fn perform(&self, action: Action) -> (outcome: Outcome)
        ensures
            answers(action@, outcome),
    {
        match action {
            Action::ListInstances { cluster, max_results, next_token } => Outcome::Event(
                Event::Listed(
                    self.ecs.list_bottlerocket_instances(
                        cluster.as_str(),
                        Some(max_results),
                        next_token,
                    ),
                ),
            ),
            Action::SendCommand { instance_ids, params, timeout } => Outcome::Event(
                Event::CommandSent(self.ssm.send_command(instance_ids, params, Some(timeout))),
            ),
            Action::WaitCommandComplete { command_id } => Outcome::Event(
                Event::CommandComplete(self.ssm.wait_command_complete(command_id.as_str())),
            ),
            Action::GetCommandInvocation { command_id, instance_id } => Outcome::Event(
                Event::Invocation(
                    self.ssm.get_command_invocations(command_id.as_str(), instance_id.as_str()),
                ),
            ),
            Action::Finish { records } => Outcome::Done(Ok(records)),
            Action::Fail { error } => Outcome::Done(Err(error)),
        }
    }
}

} // verus!
