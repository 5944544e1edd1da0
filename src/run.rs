use vstd::prelude::*;
use crate::config::{target_of, Action, Config};
use crate::ec2::{
    change_outcome, describe_outcome, poll_outcome, AwsEc2Client, DescribeReply, PollStep,
    StateChange,
};
use crate::instance::Instance;
use crate::ssm::{agent_poll_outcome, AwsSsmClient, ConnectionReport};
use crate::state::{ControlError, InstanceState};

verus! {

/// Seconds between two polls, of the instance state and of the agent alike.
pub const POLL_INTERVAL_SECS: u64 = 10;

/// Where a run stands.
#[derive(PartialEq, Eq, Structural, Clone, Copy, Debug)]
pub enum Phase {
    /// The start or stop request is out; its reply is awaited.
    Requesting,
    /// Waiting for the instance to reach the target state.
    Polling,
    /// The instance runs; waiting for the agent to connect.
    AwaitingAgent,
    Finished,
}

/// What the caller observed since the last command.
pub enum Event {
    /// The reply to the start or stop request.
    ActionReply(Result<Vec<StateChange>, ControlError>),
    /// The reply to a describe call, made one interval after the last command.
    Described(Result<DescribeReply, ControlError>),
    /// The reply to an agent query, made one interval after the last command.
    AgentReply(Result<Option<ConnectionReport>, ControlError>),
    /// The overall deadline elapsed; whatever was in flight is cancelled.
    DeadlineElapsed,
}

/// How a run ended.
#[derive(PartialEq, Eq, Clone, Debug)]
pub enum Outcome {
    /// The instance runs. A failed agent wait is kept as a warning only.
    Started { instance: Instance, agent_warning: Option<ControlError> },
    Stopped,
    Failed(ControlError),
    TimedOut,
}

/// What the caller is to do next.
#[derive(PartialEq, Eq, Clone, Debug)]
pub enum Command {
    RequestStart,
    RequestStop,
    /// Wait one interval, then describe the instance.
    Describe,
    /// Wait one interval, then query the agent.
    QueryAgent,
    /// The run is over.
    Finish(Outcome),
}

/// Process exit status: success 0, overall timeout 1, any other failure 2.
pub open spec fn exit_code_of(o: Outcome) -> u8 {
    match o {
        Outcome::Started { .. } => 0,
        Outcome::Stopped => 0,
        Outcome::TimedOut => 1,
        Outcome::Failed(_) => 2,
    }
}

impl Outcome {
    pub fn exit_code(&self) -> (r: u8)
        ensures
            r == exit_code_of(*self),
    {
        match self {
            Outcome::Started { .. } => 0,
            Outcome::Stopped => 0,
            Outcome::TimedOut => 1,
            Outcome::Failed(_) => 2,
        }
    }
}

/// One run: start or stop an instance, wait for it, and after a start
/// optionally wait for its agent.
pub struct Run {
    pub action: Action,
    pub wait_for_agent: bool,
    pub ec2: AwsEc2Client,
    pub ssm: AwsSsmClient,
    pub phase: Phase,
    /// The accepted snapshot, held while the agent is awaited.
    pub arrived: Option<Instance>,
}

/// The same run in another phase, holding `arrived`.
pub open spec fn moved(run: Run, phase: Phase, arrived: Option<Instance>) -> Run {
    Run {
        action: run.action,
        wait_for_agent: run.wait_for_agent,
        ec2: run.ec2,
        ssm: run.ssm,
        phase,
        arrived,
    }
}

/// The event that a run in its phase waits for; the deadline may come at any
/// time before the end.
pub open spec fn expects(run: Run, event: Event) -> bool {
    match event {
        Event::ActionReply(_) => run.phase == Phase::Requesting,
        Event::Described(_) => run.phase == Phase::Polling,
        Event::AgentReply(_) => run.phase == Phase::AwaitingAgent,
        Event::DeadlineElapsed => run.phase != Phase::Finished,
    }
}

/// Ends the run with `outcome`.
pub open spec fn finish(run: Run, outcome: Outcome) -> (Run, Command) {
    (moved(run, Phase::Finished, None), Command::Finish(outcome))
}

/// The next phase and command of a run, given the event it waited for.
pub open spec fn transition(run: Run, event: Event) -> (Run, Command) {
    match event {
        Event::DeadlineElapsed => finish(run, Outcome::TimedOut),
        Event::ActionReply(reply) => {
            let checked = match reply {
                Err(e) => Err(e),
                Ok(changes) => change_outcome(changes@, run.ec2.instance_id@, run.action),
            };
            match checked {
                Err(e) => finish(run, Outcome::Failed(e)),
                Ok(_) => (moved(run, Phase::Polling, None), Command::Describe),
            }
        },
        Event::Described(reply) => {
            let fetched = match reply {
                Err(e) => Err(e),
                Ok(d) => describe_outcome(d.reservations@, d.more_pages),
            };
            match poll_outcome(fetched, run.ec2.target_state) {
                PollStep::Failed(e) => finish(run, Outcome::Failed(e)),
                PollStep::Again => (run, Command::Describe),
                PollStep::Ready(inst) => if run.action == Action::Stop {
                    finish(run, Outcome::Stopped)
                } else if run.wait_for_agent {
                    (moved(run, Phase::AwaitingAgent, Some(inst)), Command::QueryAgent)
                } else {
                    finish(run, Outcome::Started { instance: inst, agent_warning: None })
                },
            }
        },
        Event::AgentReply(polled) => match agent_poll_outcome(polled) {
            PollStep::Again => (run, Command::QueryAgent),
            PollStep::Ready(_) => finish(
                run,
                Outcome::Started { instance: run.arrived->0, agent_warning: None },
            ),
            PollStep::Failed(e) => finish(
                run,
                Outcome::Started { instance: run.arrived->0, agent_warning: Some(e) },
            ),
        },
    }
}

impl Run {
    /// A run is consistent when its instance side aims at the state of its
    /// action, and an accepted snapshot is held exactly while the agent is
    /// awaited.
    pub open spec fn wf(self) -> bool {
        &&& self.ec2.target_state == target_of(self.action)
        &&& (self.phase == Phase::AwaitingAgent <==> self.arrived is Some)
    }

    /// Sets up a run and gives its first command: the start or stop request.
    /// An empty instance identifier ends the run before any remote call.
    pub fn new(config: Config) -> (r: (Run, Command))
        ensures
            r.0.wf(),
            r.0.action == config.action,
            r.0.wait_for_agent == config.wait_for_ssm,
            r.0.ec2.instance_id@ == config.instance_id@,
            r.0.ssm.instance_id@ == config.instance_id@,
            r.0.ec2.wait_secs == POLL_INTERVAL_SECS,
            r.0.ssm.wait_secs == POLL_INTERVAL_SECS,
            config.instance_id@.len() == 0 ==> r.0.phase == Phase::Finished && r.1 == Command::Finish(
                Outcome::Failed(ControlError::EmptyInstanceId),
            ),
            config.instance_id@.len() > 0 ==> r.0.phase == Phase::Requesting,
            config.instance_id@.len() > 0 && config.action == Action::Start ==> r.1
                == Command::RequestStart,
            config.instance_id@.len() > 0 && config.action == Action::Stop ==> r.1
                == Command::RequestStop,
    {
        let empty = config.instance_id.as_str().is_empty();
        let ec2 = AwsEc2Client::new(
            config.instance_id.as_str(),
            config.action.desired_state(),
            POLL_INTERVAL_SECS,
        ).unwrap();
        let ssm = AwsSsmClient { instance_id: config.instance_id, wait_secs: POLL_INTERVAL_SECS };
        let phase = if empty {
            Phase::Finished
        } else {
            Phase::Requesting
        };
        let run = Run {
            action: config.action,
            wait_for_agent: config.wait_for_ssm,
            ec2,
            ssm,
            phase,
            arrived: None,
        };
        let cmd = if empty {
            Command::Finish(Outcome::Failed(ControlError::EmptyInstanceId))
        } else {
            match config.action {
                Action::Start => Command::RequestStart,
                Action::Stop => Command::RequestStop,
            }
        };
        (run, cmd)
    }

    /// Whether the run waits for this kind of event now.
    pub fn expects(&self, event: &Event) -> (r: bool)
        ensures
            r == expects(*self, *event),
    {
        match event {
            Event::ActionReply(_) => self.phase == Phase::Requesting,
            Event::Described(_) => self.phase == Phase::Polling,
            Event::AgentReply(_) => self.phase == Phase::AwaitingAgent,
            Event::DeadlineElapsed => self.phase != Phase::Finished,
        }
    }

    /// Takes one event and gives the next command.
    pub fn step(self, event: Event) -> (r: (Run, Command))
        requires
            self.wf(),
            expects(self, event),
        ensures
            r == transition(self, event),
            r.0.wf(),
    {
        let Run { action, wait_for_agent, ec2, ssm, phase, arrived } = self;
        match event {
            Event::DeadlineElapsed => {
                let run = Run { action, wait_for_agent, ec2, ssm, phase: Phase::Finished, arrived: None };
                (run, Command::Finish(Outcome::TimedOut))
            },
            Event::ActionReply(reply) => {
                let checked = match reply {
                    Err(e) => Err(e),
                    Ok(changes) => match action {
                        Action::Start => ec2.start_instance(changes),
                        Action::Stop => ec2.stop_instance(changes),
                    },
                };
                match checked {
                    Err(e) => {
                        let run = Run { action, wait_for_agent, ec2, ssm, phase: Phase::Finished, arrived: None };
                        (run, Command::Finish(Outcome::Failed(e)))
                    },
                    Ok(_) => {
                        let run = Run { action, wait_for_agent, ec2, ssm, phase: Phase::Polling, arrived: None };
                        (run, Command::Describe)
                    },
                }
            },
            Event::Described(reply) => {
                let fetched = match reply {
                    Err(e) => Err(e),
                    Ok(d) => ec2.get_instance(d),
                };
                match ec2.wait_for_state(fetched) {
                    PollStep::Failed(e) => {
                        let run = Run { action, wait_for_agent, ec2, ssm, phase: Phase::Finished, arrived: None };
                        (run, Command::Finish(Outcome::Failed(e)))
                    },
                    PollStep::Again => {
                        let run = Run { action, wait_for_agent, ec2, ssm, phase, arrived };
                        (run, Command::Describe)
                    },
                    PollStep::Ready(inst) => {
                        match action {
                            Action::Stop => {
                                let run = Run { action, wait_for_agent, ec2, ssm, phase: Phase::Finished, arrived: None };
                                (run, Command::Finish(Outcome::Stopped))
                            },
                            Action::Start => if wait_for_agent {
                                let run = Run {
                                    action,
                                    wait_for_agent,
                                    ec2,
                                    ssm,
                                    phase: Phase::AwaitingAgent,
                                    arrived: Some(inst),
                                };
                                (run, Command::QueryAgent)
                            } else {
                                let run = Run { action, wait_for_agent, ec2, ssm, phase: Phase::Finished, arrived: None };
                                (run, Command::Finish(Outcome::Started { instance: inst, agent_warning: None }))
                            },
                        }
                    },
                }
            },
            Event::AgentReply(polled) => {
                let step = ssm.wait_for_connection(polled);
                match step {
                    PollStep::Again => {
                        let run = Run { action, wait_for_agent, ec2, ssm, phase, arrived };
                        (run, Command::QueryAgent)
                    },
                    _ => {
                        let instance = arrived.unwrap();
                        let agent_warning = match step {
                            PollStep::Failed(e) => Some(e),
                            _ => None,
                        };
                        let run = Run { action, wait_for_agent, ec2, ssm, phase: Phase::Finished, arrived: None };
                        (run, Command::Finish(Outcome::Started { instance, agent_warning }))
                    },
                }
            },
        }
    }
}

/// While the instance keeps reporting `Pending` on its way to `Running`,
/// each describe reply only asks for another describe, so no arrival and no
/// failure is reached; when the overall deadline then elapses the run ends
/// timed out, which exits with status 1.
pub proof fn lemma_pending_until_deadline(run: Run, reply: DescribeReply)
    requires
        run.wf(),
        run.phase == Phase::Polling,
        run.action == Action::Start,
        describe_outcome(reply.reservations@, reply.more_pages) is Ok,
        describe_outcome(reply.reservations@, reply.more_pages)->Ok_0.state
            == InstanceState::Pending,
    ensures
        transition(run, Event::Described(Ok(reply))) == (run, Command::Describe),
        transition(run, Event::DeadlineElapsed) == finish(run, Outcome::TimedOut),
        exit_code_of(Outcome::TimedOut) == 1,
{
}

/// Once the instance runs, the agent wait can only end in success: a failed
/// agent query is kept as a warning beside the started instance, and the run
/// still exits with status 0.
pub proof fn lemma_agent_failure_is_warning(
    run: Run,
    polled: Result<Option<ConnectionReport>, ControlError>,
)
    requires
        run.wf(),
        run.phase == Phase::AwaitingAgent,
    ensures
        ({
            let (next, cmd) = transition(run, Event::AgentReply(polled));
            &&& cmd is Finish ==> exit_code_of(cmd->Finish_0) == 0
            &&& !(cmd is Finish) ==> next == run && cmd == Command::QueryAgent
        }),
        polled is Err ==> transition(run, Event::AgentReply(polled)) == finish(
            run,
            Outcome::Started { instance: run.arrived->0, agent_warning: Some(polled->Err_0) },
        ),
{
}

} // verus!
