use ec2_power::config::{Action, Config};
use ec2_power::ec2::{DescribeReply, StateChange};
use ec2_power::instance::Instance;
use ec2_power::run::{Command, Event, Outcome, Phase, Run, POLL_INTERVAL_SECS};
use ec2_power::ssm::ConnectionReport;
use ec2_power::state::{ControlError, InstanceState};

fn config(action: Action, wait_for_ssm: bool) -> Config {
    Config { action, instance_id: "i-0abc".to_string(), timeout: 120, wait_for_ssm }
}

fn described(state: InstanceState, public: Option<&str>) -> Event {
    let instance = Instance {
        state,
        public_ipv4: public.map(|s| s.to_string()),
        private_ipv4: Some("10.0.0.5".to_string()),
        ipv6: None,
    };
    Event::Described(Ok(DescribeReply { reservations: vec![vec![instance]], more_pages: false }))
}

fn accepted(state: InstanceState) -> Event {
    Event::ActionReply(Ok(vec![StateChange { instance_id: "i-0abc".to_string(), current_state: state }]))
}

fn feed(run: Run, event: Event) -> (Run, Command) {
    assert!(run.expects(&event));
    run.step(event)
}

#[test]
fn start_then_running_reports_addresses() {
    let (run, cmd) = Run::new(config(Action::Start, false));
    assert_eq!(cmd, Command::RequestStart);
    assert_eq!(run.ec2.wait_secs, POLL_INTERVAL_SECS);
    let (run, cmd) = feed(run, accepted(InstanceState::Pending));
    assert_eq!(cmd, Command::Describe);
    let (run, cmd) = feed(run, described(InstanceState::Pending, None));
    assert_eq!(cmd, Command::Describe);
    let (run, cmd) = feed(run, described(InstanceState::Pending, None));
    assert_eq!(cmd, Command::Describe);
    let (run, cmd) = feed(run, described(InstanceState::Running, Some("1.2.3.4")));
    assert_eq!(run.phase, Phase::Finished);
    match cmd {
        Command::Finish(outcome) => {
            assert_eq!(outcome.exit_code(), 0);
            match outcome {
                Outcome::Started { instance, agent_warning } => {
                    assert_eq!(instance.ipv4_address_public(), Some("1.2.3.4"));
                    assert_eq!(agent_warning, None);
                }
                other => panic!("unexpected outcome {:?}", other),
            }
        }
        other => panic!("unexpected command {:?}", other),
    }
}

#[test]
fn always_pending_then_deadline_times_out() {
    let (run, _) = Run::new(config(Action::Start, false));
    let (mut run, _) = feed(run, accepted(InstanceState::Pending));
    for _ in 0..12 {
        let (next, cmd) = feed(run, described(InstanceState::Pending, None));
        assert_eq!(cmd, Command::Describe);
        assert_eq!(next.phase, Phase::Polling);
        run = next;
    }
    let (run, cmd) = feed(run, Event::DeadlineElapsed);
    assert_eq!(run.phase, Phase::Finished);
    assert_eq!(cmd, Command::Finish(Outcome::TimedOut));
    assert_eq!(Outcome::TimedOut.exit_code(), 1);
}

#[test]
fn agent_transport_error_is_only_a_warning() {
    let (run, _) = Run::new(config(Action::Start, true));
    let (run, _) = feed(run, accepted(InstanceState::Pending));
    let (run, cmd) = feed(run, described(InstanceState::Running, Some("1.2.3.4")));
    assert_eq!(cmd, Command::QueryAgent);
    assert_eq!(run.phase, Phase::AwaitingAgent);
    let (run, cmd) = feed(run, Event::AgentReply(Ok(Some(ConnectionReport::NotConnected))));
    assert_eq!(cmd, Command::QueryAgent);
    let err = ControlError::Transport { message: "access denied".to_string() };
    let (_, cmd) = feed(run, Event::AgentReply(Err(err.clone())));
    match cmd {
        Command::Finish(outcome) => {
            assert_eq!(outcome.exit_code(), 0);
            match outcome {
                Outcome::Started { instance, agent_warning } => {
                    assert_eq!(agent_warning, Some(err));
                    assert_eq!(instance.ipv4_address_public(), Some("1.2.3.4"));
                }
                other => panic!("unexpected outcome {:?}", other),
            }
        }
        other => panic!("unexpected command {:?}", other),
    }
}

#[test]
fn agent_connected_finishes_start() {
    let (run, _) = Run::new(config(Action::Start, true));
    let (run, _) = feed(run, accepted(InstanceState::Running));
    let (run, _) = feed(run, described(InstanceState::Running, None));
    let (_, cmd) = feed(run, Event::AgentReply(Ok(Some(ConnectionReport::Connected))));
    match cmd {
        Command::Finish(Outcome::Started { agent_warning, .. }) => assert_eq!(agent_warning, None),
        other => panic!("unexpected command {:?}", other),
    }
}

#[test]
fn stop_run_reaches_stopped() {
    let (run, cmd) = Run::new(config(Action::Stop, true));
    assert_eq!(cmd, Command::RequestStop);
    let (run, cmd) = feed(run, accepted(InstanceState::Stopping));
    assert_eq!(cmd, Command::Describe);
    let (run, cmd) = feed(run, described(InstanceState::Stopping, None));
    assert_eq!(cmd, Command::Describe);
    let (run, cmd) = feed(run, described(InstanceState::Stopped, None));
    assert_eq!(cmd, Command::Finish(Outcome::Stopped));
    assert!(!run.expects(&Event::DeadlineElapsed));
}

#[test]
fn rejected_start_fails_with_exit_two() {
    let (run, _) = Run::new(config(Action::Start, false));
    let (run, cmd) = feed(run, accepted(InstanceState::Terminated));
    let outcome = Outcome::Failed(ControlError::UnexpectedState { state: InstanceState::Terminated });
    assert_eq!(outcome.exit_code(), 2);
    assert_eq!(cmd, Command::Finish(outcome));
    assert_eq!(run.phase, Phase::Finished);
}

#[test]
fn abnormal_poll_fails_run() {
    let (run, _) = Run::new(config(Action::Start, false));
    let (run, _) = feed(run, accepted(InstanceState::Pending));
    let (_, cmd) = feed(run, described(InstanceState::Stopped, None));
    assert_eq!(
        cmd,
        Command::Finish(Outcome::Failed(ControlError::AbnormalTransition {
            current: InstanceState::Stopped,
            desired: InstanceState::Running,
        }))
    );
}

#[test]
fn empty_instance_id_fails_before_any_request() {
    let (run, cmd) = Run::new(Config {
        action: Action::Start,
        instance_id: String::new(),
        timeout: 120,
        wait_for_ssm: false,
    });
    assert_eq!(cmd, Command::Finish(Outcome::Failed(ControlError::EmptyInstanceId)));
    assert_eq!(run.phase, Phase::Finished);
}
