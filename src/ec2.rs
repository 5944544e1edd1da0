use vstd::prelude::*;
use crate::config::Action;
use crate::instance::Instance;
use crate::state::{classify, is_valid_desired, verdict_of, ControlError, InstanceState, Verdict};

verus! {

/// What a describe call returned: the instances of each reservation, and
/// whether the reply announced a further page.
pub struct DescribeReply {
    pub reservations: Vec<Vec<Instance>>,
    pub more_pages: bool,
}

/// One state-change record of a start or stop reply.
pub struct StateChange {
    pub instance_id: String,
    pub current_state: InstanceState,
}

/// Outcome of one poll tick.
#[derive(PartialEq, Eq, Clone, Debug)]
pub enum PollStep<T> {
    /// The target was reached; the value is the accepted observation.
    Ready(T),
    /// Still on the way: wait one interval and look again.
    Again,
    /// The loop stops here with this error.
    Failed(ControlError),
}

/// A describe reply is accepted only when it names exactly one reservation
/// holding exactly one instance, with no further page.
pub open spec fn describe_outcome(reservations: Seq<Vec<Instance>>, more_pages: bool) -> Result<
    Instance,
    ControlError,
> {
    if reservations.len() == 0 {
        Err(ControlError::NotFound)
    } else if reservations.len() > 1 || more_pages {
        Err(ControlError::AmbiguousResult)
    } else if reservations[0]@.len() == 0 {
        Err(ControlError::NotFound)
    } else if reservations[0]@.len() > 1 {
        Err(ControlError::AmbiguousResult)
    } else {
        Ok(reservations[0]@[0])
    }
}

/// The states a start or stop request may leave the instance in at once.
pub open spec fn immediate_ok(action: Action, s: InstanceState) -> bool {
    match action {
        Action::Start => s == InstanceState::Pending || s == InstanceState::Running,
        Action::Stop => s == InstanceState::Stopping || s == InstanceState::Stopped,
    }
}

/// A start or stop reply is accepted only when it holds exactly one record,
/// for the requested instance, in a state the action may lead to at once.
pub open spec fn change_outcome(changes: Seq<StateChange>, id: Seq<char>, action: Action) -> Result<
    InstanceState,
    ControlError,
> {
    if changes.len() == 0 {
        Err(ControlError::NotFound)
    } else if changes.len() > 1 {
        Err(ControlError::AmbiguousResult)
    } else if changes[0].instance_id@ != id {
        Err(ControlError::IdentityMismatch)
    } else if !immediate_ok(action, changes[0].current_state) {
        Err(ControlError::UnexpectedState { state: changes[0].current_state })
    } else {
        Ok(changes[0].current_state)
    }
}

/// One tick of the instance poll: an invalid target fails whatever was
/// fetched, a failed fetch or an abnormal observation stops the loop, arrival
/// hands the snapshot back, progress asks for more.
pub open spec fn poll_outcome(fetched: Result<Instance, ControlError>, desired: InstanceState) -> PollStep<
    Instance,
> {
    if !is_valid_desired(desired) {
        PollStep::Failed(ControlError::InvalidDesiredState { desired })
    } else {
        match fetched {
        Err(e) => PollStep::Failed(e),
        Ok(inst) => match verdict_of(inst.state, desired) {
            Err(e) => PollStep::Failed(e),
            Ok(Verdict::Arrived) => PollStep::Ready(inst),
            Ok(Verdict::InProgress) => PollStep::Again,
            Ok(Verdict::Abnormal) => PollStep::Failed(
                ControlError::AbnormalTransition { current: inst.state, desired },
            ),
        },
        }
    }
}

/// Checks a start or stop reply against the instance that was asked for.
fn check_state_change(changes: Vec<StateChange>, instance_id: &String, action: Action) -> (r: Result<
    InstanceState,
    ControlError,
>)
    ensures
        r == change_outcome(changes@, instance_id@, action),
{
    let mut changes = changes;
    if changes.len() == 0 {
        return Err(ControlError::NotFound);
    } else if changes.len() > 1 {
        return Err(ControlError::AmbiguousResult);
    }
    let ghost all = changes@;
    let change = match changes.pop() {
        Some(c) => c,
        None => return Err(ControlError::NotFound),
    };
    assert(change == all[0]);
    if !change.instance_id.eq(instance_id) {
        return Err(ControlError::IdentityMismatch);
    }
    let s = change.current_state;
    let ok = match action {
        Action::Start => s == InstanceState::Pending || s == InstanceState::Running,
        Action::Stop => s == InstanceState::Stopping || s == InstanceState::Stopped,
    };
    if !ok {
        return Err(ControlError::UnexpectedState { state: s });
    }
    Ok(s)
}

/// The instance side of a run: which instance, which state to reach, and
/// how many seconds to wait between two polls.
pub struct AwsEc2Client {
    pub instance_id: String,
    pub target_state: InstanceState,
    pub wait_secs: u64,
}

impl AwsEc2Client {
    /// Sets up the instance side of a run. A target other than `Running` or
    /// `Stopped` is a configuration error, raised here before any polling.
    pub fn new(instance_id: &str, target_state: InstanceState, wait_secs: u64) -> (r: Result<
        Self,
        ControlError,
    >)
        ensures
            !is_valid_desired(target_state) ==> r == Err::<Self, ControlError>(
                ControlError::InvalidDesiredState { desired: target_state },
            ),
            is_valid_desired(target_state) ==> r is Ok,
            r is Ok ==> r->Ok_0.instance_id@ == instance_id@ && r->Ok_0.target_state
                == target_state && r->Ok_0.wait_secs == wait_secs,
    {
        match target_state {
            InstanceState::Running | InstanceState::Stopped => Ok(
                AwsEc2Client { instance_id: instance_id.to_owned(), target_state, wait_secs },
            ),
            _ => Err(ControlError::InvalidDesiredState { desired: target_state }),
        }
    }

    /// Picks the one instance out of a describe reply.
    pub fn get_instance(&self, reply: DescribeReply) -> (r: Result<Instance, ControlError>)
        ensures
            r == describe_outcome(reply.reservations@, reply.more_pages),
    {
        let mut reservations = reply.reservations;
        if reservations.len() == 0 {
            return Err(ControlError::NotFound);
        } else if reservations.len() > 1 || reply.more_pages {
            return Err(ControlError::AmbiguousResult);
        }
        let ghost outer = reservations@;
        let mut instances = match reservations.pop() {
            Some(v) => v,
            None => return Err(ControlError::NotFound),
        };
        assert(instances == outer[0]);
        if instances.len() == 0 {
            return Err(ControlError::NotFound);
        } else if instances.len() > 1 {
            return Err(ControlError::AmbiguousResult);
        }
        let ghost inner = instances@;
        match instances.pop() {
            Some(i) => {
                assert(i == inner[0]);
                Ok(i)
            },
            None => Err(ControlError::NotFound),
        }
    }

    /// Checks the reply of a start request.
    pub fn start_instance(&self, changes: Vec<StateChange>) -> (r: Result<
        InstanceState,
        ControlError,
    >)
        ensures
            r == change_outcome(changes@, self.instance_id@, Action::Start),
    {
        check_state_change(changes, &self.instance_id, Action::Start)
    }

    /// Checks the reply of a stop request.
    pub fn stop_instance(&self, changes: Vec<StateChange>) -> (r: Result<
        InstanceState,
        ControlError,
    >)
        ensures
            r == change_outcome(changes@, self.instance_id@, Action::Stop),
    {
        check_state_change(changes, &self.instance_id, Action::Stop)
    }

    /// Decides one tick of the wait for the target state, given what the
    /// fetch of that tick returned.
    pub fn wait_for_state(&self, fetched: Result<Instance, ControlError>) -> (r: PollStep<Instance>)
        ensures
            r == poll_outcome(fetched, self.target_state),
            !is_valid_desired(self.target_state) ==> r == PollStep::<Instance>::Failed(
                ControlError::InvalidDesiredState { desired: self.target_state },
            ),
    {
        if let Err(e) = classify(InstanceState::Pending, self.target_state) {
            return PollStep::Failed(e);
        }
        match fetched {
            Err(e) => PollStep::Failed(e),
            Ok(inst) => match classify(inst.state, self.target_state) {
                Err(e) => PollStep::Failed(e),
                Ok(Verdict::Arrived) => PollStep::Ready(inst),
                Ok(Verdict::InProgress) => PollStep::Again,
                Ok(Verdict::Abnormal) => PollStep::Failed(
                    ControlError::AbnormalTransition {
                        current: inst.state,
                        desired: self.target_state,
                    },
                ),
            },
        }
    }

    /// Runs the instance poll over the fetches of successive ticks, in order,
    /// and stops at the first tick that is not `Again`. Returns that tick's
    /// outcome and how many fetches were used; `Again` with every fetch used
    /// when none of them settled the loop. An invalid target fails before
    /// any fetch is used.
    pub fn poll_fetches(&self, fetches: Vec<Result<Instance, ControlError>>) -> (r: (
        PollStep<Instance>,
        usize,
    ))
        ensures
            !is_valid_desired(self.target_state) ==> r == (
                PollStep::<Instance>::Failed(
                    ControlError::InvalidDesiredState { desired: self.target_state },
                ),
                0usize,
            ),
            r.1 <= fetches@.len(),
            forall|j: int|
                0 <= j < r.1 - 1 ==> poll_outcome(#[trigger] fetches@[j], self.target_state)
                    is Again,
            r.0 is Again ==> r.1 == fetches@.len() && (r.1 == 0 || poll_outcome(
                fetches@[r.1 - 1],
                self.target_state,
            ) is Again),
            is_valid_desired(self.target_state) && !(r.0 is Again) ==> r.1 >= 1 && r.0 == poll_outcome(
                fetches@[r.1 - 1],
                self.target_state,
            ),
    {
        if let Err(e) = classify(InstanceState::Pending, self.target_state) {
            return (PollStep::Failed(e), 0);
        }
        let ghost all = fetches@;
        let n = fetches.len();
        assert(all.len() == n);
        let mut rest = fetches;
        let mut used: usize = 0;
        while rest.len() > 0
            invariant
                is_valid_desired(self.target_state),
                all == fetches@,
                all.len() <= usize::MAX,
                used + rest@.len() == all.len(),
                rest@ == all.subrange(used as int, all.len() as int),
                forall|j: int| 0 <= j < used ==> poll_outcome(#[trigger] all[j], self.target_state)
                    is Again,
            decreases rest@.len(),
        {
            let fetched = rest.remove(0);
            assert(fetched == all[used as int]);
            used = used + 1;
            let step = self.wait_for_state(fetched);
            match step {
                PollStep::Again => {
                    assert(rest@ =~= all.subrange(used as int, all.len() as int));
                },
                _ => {
                    return (step, used);
                },
            }
        }
        (PollStep::Again, used)
    }
}

} // verus!
