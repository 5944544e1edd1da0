use vstd::prelude::*;
use crate::ec2::PollStep;
use crate::state::ControlError;

verus! {

/// A status as the agent connectivity query reports it.
#[derive(PartialEq, Eq, Clone, Debug)]
pub enum ConnectionReport {
    Connected,
    NotConnected,
    /// A status the model does not know, by its name.
    Other(String),
}

/// Connected is `true`, not connected is `false`; no status, or an unknown
/// one, is an error.
pub open spec fn connection_outcome(report: Option<ConnectionReport>) -> Result<bool, ControlError> {
    match report {
        None => Err(ControlError::AgentStatusMissing),
        Some(ConnectionReport::Connected) => Ok(true),
        Some(ConnectionReport::NotConnected) => Ok(false),
        Some(ConnectionReport::Other(status)) => Err(ControlError::AgentStatusUnknown { status }),
    }
}

/// One tick of the agent wait: connected ends it, not connected asks for
/// another tick, and any error stops it.
pub open spec fn agent_poll_outcome(polled: Result<Option<ConnectionReport>, ControlError>) -> PollStep<()> {
    match polled {
        Err(e) => PollStep::Failed(e),
        Ok(report) => match connection_outcome(report) {
            Err(e) => PollStep::Failed(e),
            Ok(true) => PollStep::Ready(()),
            Ok(false) => PollStep::Again,
        },
    }
}

/// The agent side of a run: which instance, and how many seconds to wait
/// between two queries.
pub struct AwsSsmClient {
    pub instance_id: String,
    pub wait_secs: u64,
}

impl AwsSsmClient {
    /// Reads the status that a connectivity query returned.
    pub fn get_connection_status(&self, report: Option<ConnectionReport>) -> (r: Result<
        bool,
        ControlError,
    >)
        ensures
            r == connection_outcome(report),
    {
        match report {
            None => Err(ControlError::AgentStatusMissing),
            Some(ConnectionReport::Connected) => Ok(true),
            Some(ConnectionReport::NotConnected) => Ok(false),
            Some(ConnectionReport::Other(status)) => Err(ControlError::AgentStatusUnknown { status }),
        }
    }

    /// Decides one tick of the wait for the agent, given what the query of
    /// that tick returned.
    pub fn wait_for_connection(&self, polled: Result<Option<ConnectionReport>, ControlError>) -> (r:
        PollStep<()>)
        ensures
            r == agent_poll_outcome(polled),
    {
        match polled {
            Err(e) => PollStep::Failed(e),
            Ok(report) => match self.get_connection_status(report) {
                Err(e) => PollStep::Failed(e),
                Ok(true) => PollStep::Ready(()),
                Ok(false) => PollStep::Again,
            },
        }
    }
}

} // verus!
