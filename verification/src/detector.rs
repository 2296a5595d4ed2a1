//! One detection pass as a machine: it names the next remote call, is handed the result,
//! and names the one after, until the pass ends with its records or fails.

use vstd::prelude::*;
use vstd::string::StringExecFns;
use crate::model::{
    optional_text, texts, Instances, InstancesView, SsmCommandDetails, SsmCommandDetailsView,
    SsmInvocationOutput, SsmInvocationOutputView,
};
use crate::record::{record_views, HostUpdateRecord, HostUpdateRecordView};
use crate::updater::{
    check_updates_param, check_updates_param_view, eligible_ids, evaluate_answer,
    get_instance_ids, param_views, verdict_for, Error, ErrorView, BATCH_INSTANCE_COUNT,
    SSM_CHECK_COMMAND_TIMEOUT_SECS,
};

verus! {

/// What the pass asks of its caller next.
#[derive(Debug, Clone, PartialEq, Eq)]
pub enum Action {
    /// Fetch the page of the inventory that starts at `next_token`.
    ListInstances { cluster: String, max_results: i64, next_token: Option<String> },
    /// Submit one command for these hosts.
    SendCommand { instance_ids: Vec<String>, params: Vec<(String, Vec<String>)>, timeout: i64 },
    /// Wait until no host is still at work on the command.
    WaitCommandComplete { command_id: String },
    /// Fetch what the command printed and returned on one host.
    GetCommandInvocation { command_id: String, instance_id: String },
    /// The pass is over: these hosts have an update waiting.
    Finish { records: Vec<HostUpdateRecord> },
    /// The pass failed, and what it had collected is dropped.
    Fail { error: Error },
}

pub enum ActionView {
    ListInstances { cluster: Seq<char>, max_results: i64, next_token: Option<Seq<char>> },
    SendCommand {
        instance_ids: Seq<Seq<char>>,
        params: Seq<(Seq<char>, Seq<Seq<char>>)>,
        timeout: i64,
    },
    WaitCommandComplete { command_id: Seq<char> },
    GetCommandInvocation { command_id: Seq<char>, instance_id: Seq<char> },
    Finish { records: Seq<HostUpdateRecordView> },
    Fail { error: ErrorView },
}

impl View for Action {
    type V = ActionView;

    open spec fn view(&self) -> ActionView {
        match *self {
            Action::ListInstances { cluster, max_results, next_token } => ActionView::ListInstances {
                cluster: cluster@,
                max_results,
                next_token: optional_text(next_token),
            },
            Action::SendCommand { instance_ids, params, timeout } => ActionView::SendCommand {
                instance_ids: texts(instance_ids@),
                params: param_views(params@),
                timeout,
            },
            Action::WaitCommandComplete { command_id } => ActionView::WaitCommandComplete {
                command_id: command_id@,
            },
            Action::GetCommandInvocation { command_id, instance_id } => {
                ActionView::GetCommandInvocation {
                    command_id: command_id@,
                    instance_id: instance_id@,
                }
            },
            Action::Finish { records } => ActionView::Finish { records: record_views(records@) },
            Action::Fail { error } => ActionView::Fail { error: error@ },
        }
    }
}

/// The result of a remote call, handed back to the pass.
#[derive(Debug, PartialEq, Eq)]
pub enum Event {
    /// The answer to `ListInstances`.
    Listed(Result<Instances, crate::model::Error>),
    /// The answer to `SendCommand`.
    CommandSent(Result<SsmCommandDetails, crate::model::Error>),
    /// The answer to `WaitCommandComplete`.
    CommandComplete(Result<(), crate::model::Error>),
    /// The answer to `GetCommandInvocation`.
    Invocation(Result<SsmInvocationOutput, crate::model::Error>),
}

pub enum EventView {
    Listed(Result<InstancesView, Seq<char>>),
    CommandSent(Result<SsmCommandDetailsView, Seq<char>>),
    CommandComplete(Result<(), Seq<char>>),
    Invocation(Result<SsmInvocationOutputView, Seq<char>>),
}

impl View for Event {
    type V = EventView;

    open spec fn view(&self) -> EventView {
        match *self {
            Event::Listed(Ok(page)) => EventView::Listed(Ok(page@)),
            Event::Listed(Err(e)) => EventView::Listed(Err(e@)),
            Event::CommandSent(Ok(details)) => EventView::CommandSent(Ok(details@)),
            Event::CommandSent(Err(e)) => EventView::CommandSent(Err(e@)),
            Event::CommandComplete(Ok(_)) => EventView::CommandComplete(Ok(())),
            Event::CommandComplete(Err(e)) => EventView::CommandComplete(Err(e@)),
            Event::Invocation(Ok(output)) => EventView::Invocation(Ok(output@)),
            Event::Invocation(Err(e)) => EventView::Invocation(Err(e@)),
        }
    }
}

enum Phase {
    Listing,
    Sending { ids: Vec<String>, next_token: Option<String> },
    Waiting { command_id: String, ids: Vec<String>, next_token: Option<String> },
    Collecting { command_id: String, ids: Vec<String>, index: usize, next_token: Option<String> },
    Finished,
    Failed,
}

/// Where a pass stands.
pub enum PhaseView {
    /// A page was asked for.
    Listing,
    /// The command for the hosts `ids` of the current page was handed out; `next_token` is
    /// the cursor that the page came with.
    Sending { ids: Seq<Seq<char>>, next_token: Option<Seq<char>> },
    /// The command was submitted, and its completion is awaited.
    Waiting { command_id: Seq<char>, ids: Seq<Seq<char>>, next_token: Option<Seq<char>> },
    /// The answer of host `ids[index]` was asked for; those before it are dealt with.
    Collecting {
        command_id: Seq<char>,
        ids: Seq<Seq<char>>,
        index: int,
        next_token: Option<Seq<char>>,
    },
    /// The pass ended and handed its records out.
    Finished,
    /// The pass failed.
    Failed,
}

impl View for Phase {
    type V = PhaseView;

    closed spec fn view(&self) -> PhaseView {
        match *self {
            Phase::Listing => PhaseView::Listing,
            Phase::Sending { ids, next_token } => PhaseView::Sending {
                ids: texts(ids@),
                next_token: optional_text(next_token),
            },
            Phase::Waiting { command_id, ids, next_token } => PhaseView::Waiting {
                command_id: command_id@,
                ids: texts(ids@),
                next_token: optional_text(next_token),
            },
            Phase::Collecting { command_id, ids, index, next_token } => PhaseView::Collecting {
                command_id: command_id@,
                ids: texts(ids@),
                index: index as int,
                next_token: optional_text(next_token),
            },
            Phase::Finished => PhaseView::Finished,
            Phase::Failed => PhaseView::Failed,
        }
    }
}

/// A detection pass in progress.
pub struct Detector {
    cluster: String,
    phase: Phase,
    records: Vec<HostUpdateRecord>,
}

pub struct DetectorView {
    /// The cluster whose hosts are checked.
    pub cluster: Seq<char>,
    pub phase: PhaseView,
    /// The records collected so far, in page order and, within a page, in host order.
    pub records: Seq<HostUpdateRecordView>,
}

impl View for Detector {
    type V = DetectorView;

    closed spec fn view(&self) -> DetectorView {
        DetectorView {
            cluster: self.cluster@,
            phase: self.phase@,
            records: record_views(self.records@),
        }
    }
}

/// The pass at its start: the first page was asked for and nothing is collected.
pub open spec fn initial(cluster: Seq<char>) -> DetectorView {
    DetectorView { cluster, phase: PhaseView::Listing, records: Seq::empty() }
}

/// The request for the page at `next_token`.
pub open spec fn list_action(cluster: Seq<char>, next_token: Option<Seq<char>>) -> ActionView {
    ActionView::ListInstances { cluster, max_results: BATCH_INSTANCE_COUNT, next_token }
}

/// The pass fails: what was collected is dropped.
pub open spec fn fail(state: DetectorView, error: ErrorView) -> (DetectorView, ActionView) {
    (
        DetectorView { cluster: state.cluster, phase: PhaseView::Failed, records: Seq::empty() },
        ActionView::Fail { error },
    )
}

/// A page is done. With a cursor the next page is asked for; without one the pass ends and
/// hands out its records.
pub open spec fn turn_page(
    cluster: Seq<char>,
    records: Seq<HostUpdateRecordView>,
    next_token: Option<Seq<char>>,
) -> (DetectorView, ActionView) {
    match next_token {
        Some(token) => (
            DetectorView { cluster, phase: PhaseView::Listing, records },
            list_action(cluster, Some(token)),
        ),
        None => (
            DetectorView { cluster, phase: PhaseView::Finished, records: Seq::empty() },
            ActionView::Finish { records },
        ),
    }
}

/// The hosts before `index` are dealt with. The answer of host `index` is asked for, if
/// there is such a host; else the page is done.
pub open spec fn collect_from(
    cluster: Seq<char>,
    records: Seq<HostUpdateRecordView>,
    command_id: Seq<char>,
    ids: Seq<Seq<char>>,
    index: int,
    next_token: Option<Seq<char>>,
) -> (DetectorView, ActionView) {
    if 0 <= index < ids.len() {
        (
            DetectorView {
                cluster,
                phase: PhaseView::Collecting { command_id, ids, index, next_token },
                records,
            },
            ActionView::GetCommandInvocation { command_id, instance_id: ids[index] },
        )
    } else {
        turn_page(cluster, records, next_token)
    }
}

/// The pass after an event, and what it asks next.
///
/// A page gives one command for its eligible hosts, also where there are none. Once the
/// command is complete the hosts' answers are fetched one by one. An answer that could not
/// be fetched leaves that host out and the pass goes on; one that was fetched goes by
/// [`verdict_for`] the host in turn. A failure to fetch a page, to submit the command or
/// to wait for it fails the pass, and so does an event that does not answer the last
/// request.
pub open spec fn step(state: DetectorView, event: EventView) -> (DetectorView, ActionView) {
    match (state.phase, event) {
        (PhaseView::Listing, EventView::Listed(Ok(page))) => {
            let ids = eligible_ids(page.bottlerocket_instances);
            (
                DetectorView {
                    cluster: state.cluster,
                    phase: PhaseView::Sending { ids, next_token: page.next_token },
                    records: state.records,
                },
                ActionView::SendCommand {
                    instance_ids: ids,
                    params: check_updates_param_view(),
                    timeout: SSM_CHECK_COMMAND_TIMEOUT_SECS,
                },
            )
        },
        (PhaseView::Listing, EventView::Listed(Err(source))) => fail(
            state,
            ErrorView::DescribeInstances { source },
        ),
        (PhaseView::Sending { ids, next_token }, EventView::CommandSent(Ok(details))) => (
            DetectorView {
                cluster: state.cluster,
                phase: PhaseView::Waiting { command_id: details.command_id, ids, next_token },
                records: state.records,
            },
            ActionView::WaitCommandComplete { command_id: details.command_id },
        ),
        (PhaseView::Sending { .. }, EventView::CommandSent(Err(source))) => fail(
            state,
            ErrorView::CheckUpdateCommand { source },
        ),
        (
            PhaseView::Waiting { command_id, ids, next_token },
            EventView::CommandComplete(Ok(_)),
        ) => collect_from(state.cluster, state.records, command_id, ids, 0, next_token),
        (PhaseView::Waiting { command_id, .. }, EventView::CommandComplete(Err(source))) => fail(
            state,
            ErrorView::WaitCheckUpdateComplete { command_id, source },
        ),
        (
            PhaseView::Collecting { command_id, ids, index, next_token },
            EventView::Invocation(Ok(output)),
        ) => if !(0 <= index < ids.len()) {
            fail(state, ErrorView::UnexpectedEvent)
        } else {
            match verdict_for(ids[index], output) {
                Ok(Some(record)) => collect_from(
                    state.cluster,
                    state.records.push(record),
                    command_id,
                    ids,
                    index + 1,
                    next_token,
                ),
                Ok(None) => collect_from(
                    state.cluster,
                    state.records,
                    command_id,
                    ids,
                    index + 1,
                    next_token,
                ),
                Err(error) => fail(state, error),
            }
        },
        (
            PhaseView::Collecting { command_id, ids, index, next_token },
            EventView::Invocation(Err(_)),
        ) => if !(0 <= index < ids.len()) {
            fail(state, ErrorView::UnexpectedEvent)
        } else {
            collect_from(state.cluster, state.records, command_id, ids, index + 1, next_token)
        },
        _ => fail(state, ErrorView::UnexpectedEvent),
    }
}

/// What is to be said of an event that leaves a host out: where the answer of the host in
/// turn could not be fetched, a line that names the command, the host and the failure;
/// nothing for any other event.
pub open spec fn diagnostic_of(state: DetectorView, event: EventView) -> Option<Seq<char>> {
    match (state.phase, event) {
        (PhaseView::Collecting { command_id, ids, index, .. }, EventView::Invocation(Err(source))) => {
            if 0 <= index < ids.len() {
                Some(
                    "Failed to get check update command output for command id "@ + command_id
                        + " on instance "@ + ids[index] + ": "@ + source,
                )
            } else {
                None
            }
        },
        _ => None,
    }
}

fn clone_texts(texts: &Vec<String>) -> (copy: Vec<String>)
    ensures
        copy@ == texts@,
{
    let mut copy: Vec<String> = Vec::new();
    let mut i: usize = 0;
    while i < texts.len()
        invariant
            i <= texts.len(),
            copy@ == texts@.take(i as int),
        decreases texts.len() - i,
    {
        copy.push(texts[i].clone());
        assert(copy@ =~= texts@.take(i as int + 1));
        i += 1;
    }
    assert(texts@.take(i as int) =~= texts@);
    copy
}

fn failed(cluster: String, error: Error) -> (result: (Detector, Action))
    ensures
        result.0@ == (DetectorView {
            cluster: cluster@,
            phase: PhaseView::Failed,
            records: Seq::empty(),
        }),
        result.1@ == (ActionView::Fail { error: error@ }),
{
    let detector = Detector { cluster, phase: Phase::Failed, records: Vec::new() };
    assert(record_views(detector.records@) =~= Seq::empty());
    (detector, Action::Fail { error })
}

fn turned(cluster: String, records: Vec<HostUpdateRecord>, next_token: Option<String>) -> (result: (
    Detector,
    Action,
))
    ensures
        (result.0@, result.1@) == turn_page(
            cluster@,
            record_views(records@),
            optional_text(next_token),
        ),
{
    match next_token {
        Some(token) => {
            let action = Action::ListInstances {
                cluster: cluster.clone(),
                max_results: BATCH_INSTANCE_COUNT,
                next_token: Some(token),
            };
            (Detector { cluster, phase: Phase::Listing, records }, action)
        },
        None => {
            let detector = Detector { cluster, phase: Phase::Finished, records: Vec::new() };
            assert(record_views(detector.records@) =~= Seq::empty());
            (detector, Action::Finish { records })
        },
    }
}

fn collecting(
    cluster: String,
    records: Vec<HostUpdateRecord>,
    command_id: String,
    ids: Vec<String>,
    index: usize,
    next_token: Option<String>,
) -> (result: (Detector, Action))
    ensures
        (result.0@, result.1@) == collect_from(
            cluster@,
            record_views(records@),
            command_id@,
            texts(ids@),
            index as int,
            optional_text(next_token),
        ),
{
    if index < ids.len() {
        let action = Action::GetCommandInvocation {
            command_id: command_id.clone(),
            instance_id: ids[index].clone(),
        };
        (
            Detector {
                cluster,
                phase: Phase::Collecting { command_id, ids, index, next_token },
                records,
            },
            action,
        )
    } else {
        turned(cluster, records, next_token)
    }
}

impl Detector {
    /// Starts a pass over the hosts of `cluster`: the first page is asked for.
    pub fn new(cluster: String) -> (result: (Detector, Action))
        ensures
            result.0@ == initial(cluster@),
            result.1@ == list_action(cluster@, None),
    {
        let action = Action::ListInstances {
            cluster: cluster.clone(),
            max_results: BATCH_INSTANCE_COUNT,
            next_token: None,
        };
        let detector = Detector { cluster, phase: Phase::Listing, records: Vec::new() };
        assert(record_views(detector.records@) =~= Seq::empty());
        (detector, action)
    }

    /// Whether the pass is over, with its records handed out or with a failure.
    pub fn is_over(&self) -> (over: bool)
        ensures
            over == (self@.phase is Finished || self@.phase is Failed),
    {
        match self.phase {
            Phase::Finished => true,
            Phase::Failed => true,
            _ => false,
        }
    }

    /// The line to emit before `event` is taken, where it leaves a host out of the pass.
    pub fn diagnostic(&self, event: &Event) -> (line: Option<String>)
        ensures
            optional_text(line) == diagnostic_of(self@, event@),
    {
        match (&self.phase, event) {
            (Phase::Collecting { command_id, ids, index, .. }, Event::Invocation(Err(source))) => {
                if *index < ids.len() {
                    let mut line =
                        "Failed to get check update command output for command id ".to_owned();
                    line.append(command_id.as_str());
                    line.append(" on instance ");
                    line.append(ids[*index].as_str());
                    line.append(": ");
                    line.append(source.message.as_str());
                    Some(line)
                } else {
                    None
                }
            },
            _ => None,
        }
    }

    /// Takes the result of the call that the pass asked for last, and says what it asks
    /// next.
    pub fn step(self, event: Event) -> (result: (Detector, Action))
        ensures
            (result.0@, result.1@) == step(self@, event@),
    {
        let Detector { cluster, phase, records } = self;
        match (phase, event) {
            (Phase::Listing, Event::Listed(Ok(page))) => {
                let ids = get_instance_ids(page.bottlerocket_instances.as_slice());
                let action = Action::SendCommand {
                    instance_ids: clone_texts(&ids),
                    params: check_updates_param(),
                    timeout: SSM_CHECK_COMMAND_TIMEOUT_SECS,
                };
                (
                    Detector {
                        cluster,
                        phase: Phase::Sending { ids, next_token: page.next_token },
                        records,
                    },
                    action,
                )
            },
            (Phase::Listing, Event::Listed(Err(source))) => failed(
                cluster,
                Error::DescribeInstances { source },
            ),
            (Phase::Sending { ids, next_token }, Event::CommandSent(Ok(details))) => {
                let action = Action::WaitCommandComplete { command_id: details.command_id.clone() };
                (
                    Detector {
                        cluster,
                        phase: Phase::Waiting { command_id: details.command_id, ids, next_token },
                        records,
                    },
                    action,
                )
            },
            (Phase::Sending { .. }, Event::CommandSent(Err(source))) => failed(
                cluster,
                Error::CheckUpdateCommand { source },
            ),
            (Phase::Waiting { command_id, ids, next_token }, Event::CommandComplete(Ok(_))) => {
                collecting(cluster, records, command_id, ids, 0, next_token)
            },
            (Phase::Waiting { command_id, .. }, Event::CommandComplete(Err(source))) => failed(
                cluster,
                Error::WaitCheckUpdateComplete { command_id, source },
            ),
            (
                Phase::Collecting { command_id, ids, index, next_token },
                Event::Invocation(Ok(output)),
            ) => {
                if index >= ids.len() {
                    return failed(cluster, Error::UnexpectedEvent);
                }
                match evaluate_answer(&ids[index], output) {
                    Ok(Some(record)) => {
                        let mut records = records;
                        let ghost before = records@;
                        records.push(record);
                        assert(record_views(records@) =~= record_views(before).push(record@));
                        collecting(cluster, records, command_id, ids, index + 1, next_token)
                    },
                    Ok(None) => collecting(
                        cluster,
                        records,
                        command_id,
                        ids,
                        index + 1,
                        next_token,
                    ),
                    Err(error) => failed(cluster, error),
                }
            },
            (
                Phase::Collecting { command_id, ids, index, next_token },
                Event::Invocation(Err(_)),
            ) => {
                if index >= ids.len() {
                    return failed(cluster, Error::UnexpectedEvent);
                }
                collecting(cluster, records, command_id, ids, index + 1, next_token)
            },
            _ => failed(cluster, Error::UnexpectedEvent),
        }
    }
}

} // verus!
