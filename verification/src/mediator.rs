//! The two remote services that a detection pass talks to, as traits, so that the pass
//! can be run against the cloud or against a stand-in.

use vstd::prelude::*;
use crate::model::{
    Error, Instances, SsmCommandDetails, SsmInvocationOutput, SsmInvocationStatus,
};

verus! {

/// The inventory of a cluster.
pub trait EcsMediator {
    /// Fetches one page of the hosts of `cluster`, starting at `next_token`, with at most
    /// `max_results` hosts where a limit is given.
    fn list_bottlerocket_instances(
        &self,
        cluster: &str,
        max_results: Option<i64>,
        next_token: Option<String>,
    ) -> Result<Instances, Error>;
}

/// The channel over which commands reach the hosts.
pub trait SsmMediator {
    /// Submits one command for the given hosts. `params` lists each argument key with its
    /// values; `timeout` is in seconds.
    fn send_command(
        &self,
        instance_ids: Vec<String>,
        params: Vec<(String, Vec<String>)>,
        timeout: Option<i64>,
    ) -> Result<SsmCommandDetails, Error>;

    /// The state of the command on each host.
    fn list_command_invocations(&self, command_id: &str) -> Result<Vec<SsmInvocationStatus>, Error>;

    /// What the command printed and returned on one host.
    fn get_command_invocations(&self, command_id: &str, instance_id: &str) -> Result<
        SsmInvocationOutput,
        Error,
    >;

    /// Returns once no host is still at work on the command.
    fn wait_command_complete(&self, command_id: &str) -> Result<(), Error>;
}

} // verus!
