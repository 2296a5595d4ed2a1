//! The plain values that travel between the detector and the two remote services.

use vstd::prelude::*;

verus! {

/// The views of the strings of a sequence, in order.
pub open spec fn texts(strings: Seq<String>) -> Seq<Seq<char>> {
    strings.map_values(|s: String| s@)
}

/// A failure reported by one of the remote services. Only its message is kept.
#[derive(Debug, Clone, PartialEq, Eq)]
pub struct Error {
    pub message: String,
}

impl View for Error {
    type V = Seq<char>;

    open spec fn view(&self) -> Seq<char> {
        self.message@
    }
}

impl Error {
    /// A failure with the given message.
    pub fn new(message: String) -> (error: Error)
        ensures
            error@ == message@,
    {
        Error { message }
    }

    /// The message of this failure.
    pub fn message(&self) -> (message: String)
        ensures
            message@ == self@,
    {
        self.message.clone()
    }
}

/// One host of the cluster.
#[derive(Debug, Clone, PartialEq, Eq)]
pub struct Instance {
    /// The identifier under which commands reach the host.
    pub instance_id: String,
    /// The lifecycle status that the inventory reports for it.
    pub status: String,
}

pub struct InstanceView {
    pub instance_id: Seq<char>,
    pub status: Seq<char>,
}

impl View for Instance {
    type V = InstanceView;

    open spec fn view(&self) -> InstanceView {
        InstanceView { instance_id: self.instance_id@, status: self.status@ }
    }
}

/// The views of a sequence of hosts, in order.
pub open spec fn instance_views(hosts: Seq<Instance>) -> Seq<InstanceView> {
    hosts.map_values(|h: Instance| h@)
}

/// One page of the inventory.
#[derive(Debug, Clone, PartialEq, Eq)]
pub struct Instances {
    /// The hosts of this page.
    pub bottlerocket_instances: Vec<Instance>,
    /// The cursor of the next page; absent on the last one.
    pub next_token: Option<String>,
}

pub struct InstancesView {
    pub bottlerocket_instances: Seq<InstanceView>,
    pub next_token: Option<Seq<char>>,
}

/// The view of an optional string.
pub open spec fn optional_text(text: Option<String>) -> Option<Seq<char>> {
    match text {
        Some(t) => Some(t@),
        None => None,
    }
}

impl View for Instances {
    type V = InstancesView;

    open spec fn view(&self) -> InstancesView {
        InstancesView {
            bottlerocket_instances: instance_views(self.bottlerocket_instances@),
            next_token: optional_text(self.next_token),
        }
    }
}

/// What the command channel answers when a command is submitted.
#[derive(Debug, Clone, PartialEq, Eq)]
pub struct SsmCommandDetails {
    pub command_id: String,
    /// The status at submission.
    pub status: String,
}

pub struct SsmCommandDetailsView {
    pub command_id: Seq<char>,
    pub status: Seq<char>,
}

impl View for SsmCommandDetails {
    type V = SsmCommandDetailsView;

    open spec fn view(&self) -> SsmCommandDetailsView {
        SsmCommandDetailsView { command_id: self.command_id@, status: self.status@ }
    }
}

/// The state of a command on one host.
#[derive(Debug, Clone, PartialEq, Eq)]
pub struct SsmInvocationStatus {
    pub instance_id: String,
    pub invocation_status: String,
}

pub struct SsmInvocationStatusView {
    pub instance_id: Seq<char>,
    pub invocation_status: Seq<char>,
}

impl View for SsmInvocationStatus {
    type V = SsmInvocationStatusView;

    open spec fn view(&self) -> SsmInvocationStatusView {
        SsmInvocationStatusView {
            instance_id: self.instance_id@,
            invocation_status: self.invocation_status@,
        }
    }
}

/// What a command printed and returned on one host.
#[derive(Debug, Clone, PartialEq, Eq)]
pub struct SsmInvocationOutput {
    pub instance_id: String,
    /// The text that the command wrote to its standard output.
    pub standard_output: String,
    /// The final status of the invocation.
    pub status: String,
    /// The exit code of the command; zero when it ran to its end.
    pub response_code: i64,
}

pub struct SsmInvocationOutputView {
    pub instance_id: Seq<char>,
    pub standard_output: Seq<char>,
    pub status: Seq<char>,
    pub response_code: i64,
}

impl View for SsmInvocationOutput {
    type V = SsmInvocationOutputView;

    open spec fn view(&self) -> SsmInvocationOutputView {
        SsmInvocationOutputView {
            instance_id: self.instance_id@,
            standard_output: self.standard_output@,
            status: self.status@,
            response_code: self.response_code,
        }
    }
}

} // verus!
