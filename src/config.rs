use vstd::prelude::*;
use crate::state::InstanceState;

verus! {

/// What the operator asked for.
#[derive(PartialEq, Eq, Structural, Clone, Copy, Debug)]
pub enum Action {
    Start,
    Stop,
}

/// The state that an action aims at.
pub open spec fn target_of(action: Action) -> InstanceState {
    match action {
        Action::Start => InstanceState::Running,
        Action::Stop => InstanceState::Stopped,
    }
}

impl Action {
    pub fn desired_state(&self) -> (r: InstanceState)
        ensures
            r == target_of(*self),
    {
        match self {
            Action::Start => InstanceState::Running,
            Action::Stop => InstanceState::Stopped,
        }
    }
}

/// A validated invocation: action, instance, overall timeout in seconds, and
/// whether to wait for the management agent after a start.
#[derive(Debug, Clone)]
pub struct Config {
    pub action: Action,
    pub instance_id: String,
    pub timeout: u64,
    pub wait_for_ssm: bool,
}

} // verus!
