//! Detection of pending operating-system updates on the hosts of a container cluster.
//!
//! The crate holds the decisions of one detection pass: which hosts of an inventory page
//! are asked, what the update check command is, how a host's answer is read, and how the
//! pass moves from page to page. The remote calls themselves are made by the caller, who
//! hands their results back as plain values.

pub mod aws;
pub mod detector;
pub mod integ;
pub mod json;
pub mod mediator;
pub mod model;
pub mod pass;
pub mod record;
pub mod update_info;
pub mod updater;

pub use crate::json::Json;
pub use crate::model::{
    Error, Instance, Instances, SsmCommandDetails, SsmInvocationOutput, SsmInvocationStatus,
};
pub use crate::update_info::{ChosenUpdate, UpdateInfo};
pub use crate::record::{HostUpdateRecord, InstanceState, UpdateStepStatus};
pub use crate::detector::{Action, Detector, Event};
pub use crate::mediator::{EcsMediator, SsmMediator};
pub use crate::updater::{Outcome, Updater};
pub use crate::aws::{new_ecs, new_ssm, AwsEcsMediator, AwsSsmMediator};
