use vstd::prelude::*;

verus! {

/// Lifecycle stage of a compute instance, as reported by the remote API.
#[derive(PartialEq, Eq, Structural, Clone, Copy, Debug)]
pub enum InstanceState {
    Pending,
    Running,
    ShuttingDown,
    Terminated,
    Stopping,
    Stopped,
    /// Any value the lifecycle model does not know.
    Unrecognized,
}

/// How an observed state relates to the state a run is trying to reach.
#[derive(PartialEq, Eq, Structural, Clone, Copy, Debug)]
pub enum Verdict {
    Arrived,
    InProgress,
    Abnormal,
}

/// Everything that can end a run without success.
#[derive(PartialEq, Eq, Clone, Debug)]
pub enum ControlError {
    /// Configuration error: the desired state is neither `Running` nor `Stopped`.
    InvalidDesiredState { desired: InstanceState },
    /// Configuration error: the instance identifier is empty.
    EmptyInstanceId,
    /// The remote reply names no instance.
    NotFound,
    /// The remote reply names more than one instance or reservation.
    AmbiguousResult,
    /// The remote reply names another instance than the one requested.
    IdentityMismatch,
    /// The start or stop request left the instance in a state it should not be in.
    UnexpectedState { state: InstanceState },
    /// A poll observed a state that is not on the way to the desired one.
    AbnormalTransition { current: InstanceState, desired: InstanceState },
    /// The agent status query answered nothing.
    AgentStatusMissing,
    /// The agent status query answered a status the model does not know.
    AgentStatusUnknown { status: String },
    /// A failure of the remote collaborator, passed on unchanged.
    Transport { message: String },
}

/// A desired state is valid only when it is a terminal state of the lifecycle.
pub open spec fn is_valid_desired(desired: InstanceState) -> bool {
    desired == InstanceState::Running || desired == InstanceState::Stopped
}

/// The state that, while moving toward `desired`, is a legal intermediate observation.
pub open spec fn transient_toward(desired: InstanceState) -> InstanceState {
    if desired == InstanceState::Running {
        InstanceState::Pending
    } else {
        InstanceState::Stopping
    }
}

/// The classification table: `Pending` leads to `Running`, `Stopping` leads to
/// `Stopped`, the target itself is arrival, anything else is abnormal.
pub open spec fn verdict_of(current: InstanceState, desired: InstanceState) -> Result<
    Verdict,
    ControlError,
> {
    if !is_valid_desired(desired) {
        Err(ControlError::InvalidDesiredState { desired })
    } else if current == desired {
        Ok(Verdict::Arrived)
    } else if current == transient_toward(desired) {
        Ok(Verdict::InProgress)
    } else {
        Ok(Verdict::Abnormal)
    }
}

/// Decides whether `current` has arrived at, is on the way to, or is
/// inconsistent with `desired`. A desired state other than `Running` or
/// `Stopped` is a configuration error whatever `current` is.
pub fn classify(current: InstanceState, desired: InstanceState) -> (r: Result<
    Verdict,
    ControlError,
>)
    ensures
        r == verdict_of(current, desired),
        !is_valid_desired(desired) ==> r == Err::<Verdict, ControlError>(
            ControlError::InvalidDesiredState { desired },
        ),
        is_valid_desired(desired) ==> r is Ok,
{
    match desired {
        InstanceState::Running => match current {
            InstanceState::Pending => Ok(Verdict::InProgress),
            InstanceState::Running => Ok(Verdict::Arrived),
            _ => Ok(Verdict::Abnormal),
        },
        InstanceState::Stopped => match current {
            InstanceState::Stopping => Ok(Verdict::InProgress),
            InstanceState::Stopped => Ok(Verdict::Arrived),
            _ => Ok(Verdict::Abnormal),
        },
        _ => Err(ControlError::InvalidDesiredState { desired }),
    }
}

} // verus!
