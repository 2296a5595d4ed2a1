//! What a detection pass hands on for each host that has an update waiting.

use vstd::prelude::*;

verus! {

/// Where a host stands in a rolling update.
#[derive(Debug, Clone, Copy, PartialEq, Eq)]
pub enum InstanceState {
    UpdateAvailable,
    Drain,
    Update,
}

/// How far the current step of a host's update has come.
#[derive(Debug, Clone, Copy, PartialEq, Eq)]
pub enum UpdateStepStatus {
    NotStarted,
    Running,
    Success,
    Failed,
}

/// A host with an update waiting.
#[derive(Debug, Clone, PartialEq, Eq)]
pub struct HostUpdateRecord {
    pub instance_id: String,
    /// The status of the invocation that found the update.
    pub instance_status: String,
    /// The version that the host would move to.
    pub update_version: String,
    pub current_state: InstanceState,
    pub next_state: InstanceState,
    /// When work on the host began, in seconds since the epoch; unset until it does.
    pub start_time: Option<u64>,
    pub step_status: UpdateStepStatus,
}

pub struct HostUpdateRecordView {
    pub instance_id: Seq<char>,
    pub instance_status: Seq<char>,
    pub update_version: Seq<char>,
    pub current_state: InstanceState,
    pub next_state: InstanceState,
    pub start_time: Option<u64>,
    pub step_status: UpdateStepStatus,
}

impl View for HostUpdateRecord {
    type V = HostUpdateRecordView;

    open spec fn view(&self) -> HostUpdateRecordView {
        HostUpdateRecordView {
            instance_id: self.instance_id@,
            instance_status: self.instance_status@,
            update_version: self.update_version@,
            current_state: self.current_state,
            next_state: self.next_state,
            start_time: self.start_time,
            step_status: self.step_status,
        }
    }
}

/// The views of a sequence of records, in order.
pub open spec fn record_views(records: Seq<HostUpdateRecord>) -> Seq<HostUpdateRecordView> {
    records.map_values(|r: HostUpdateRecord| r@)
}

/// The record of a host that was just found to have the update `version` waiting.
pub open spec fn fresh_record(
    instance_id: Seq<char>,
    instance_status: Seq<char>,
    version: Seq<char>,
) -> HostUpdateRecordView {
    HostUpdateRecordView {
        instance_id,
        instance_status,
        update_version: version,
        current_state: InstanceState::UpdateAvailable,
        next_state: InstanceState::Drain,
        start_time: None,
        step_status: UpdateStepStatus::NotStarted,
    }
}

impl HostUpdateRecord {
    /// The record of a host that was just found to have the update `update_version`
    /// waiting: it stands at `UpdateAvailable`, goes to `Drain` next, and no work on it has
    /// started.
    pub fn new(instance_id: String, instance_status: String, update_version: String) -> (record:
        HostUpdateRecord)
        ensures
            record@ == fresh_record(instance_id@, instance_status@, update_version@),
    {
        HostUpdateRecord {
            instance_id,
            instance_status,
            update_version,
            current_state: InstanceState::UpdateAvailable,
            next_state: InstanceState::Drain,
            start_time: None,
            step_status: UpdateStepStatus::NotStarted,
        }
    }
}

} // verus!
