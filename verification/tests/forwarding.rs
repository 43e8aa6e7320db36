use gateway::cmdline::Args;
use gateway::forwarder::{Action, Event, Forwarder, SetupError, State};
use gateway::plan::{config_steps, default_plan, ConfigStep};

/// Walk a fresh forwarder through its whole startup, asserting that each
/// handed-out call is one configuration step, until the start call
/// succeeds. Returns the running forwarder together with the applied steps
/// in the order they were handed out.
fn start_forwarder(args: Args) -> (Forwarder, Vec<ConfigStep>) {
    let plan = default_plan();
    let mut f = Forwarder::new(&plan, &args).expect("distinct ports must be accepted");
    assert_eq!(f.state, State::Configuring { applied: 0 });
    let mut applied: Vec<ConfigStep> = Vec::new();
    let mut actions = f.step(Event::Boot);
    loop {
        assert_eq!(actions.len(), 1);
        match &actions[0] {
            Action::Apply(step) => {
                applied.push(*step);
                actions = f.step(Event::Applied);
            }
            Action::Start => {
                actions = f.step(Event::Started);
                break;
            }
            other => panic!("unexpected startup action {:?}", other),
        }
    }
    assert!(matches!(actions.as_slice(), [Action::Receive]));
    assert_eq!(f.state, State::Draining);
    (f, applied)
}

#[test]
fn default_arguments() {
    let args = Args::default();
    assert_eq!(args.interval, 100);
    assert_eq!(args.print_level, 0);
    assert_eq!(args.publish_port, 31337);
    assert_eq!(args.listen_port, 31338);
}

#[test]
fn equal_endpoints_rejected() {
    let plan = default_plan();
    let ok = Forwarder::new(&plan, &Args::default());
    assert!(ok.is_ok());
    let clash = Args { listen_port: 31337, publish_port: 31337, ..Args::default() };
    match Forwarder::new(&plan, &clash) {
        Err(SetupError::IdenticalEndpoints) => {}
        Ok(_) => panic!("identical endpoints must be rejected"),
    }
    let clash_elsewhere = Args { listen_port: 9000, publish_port: 9000, interval: 250, print_level: 2 };
    assert!(Forwarder::new(&plan, &clash_elsewhere).is_err());
}

#[test]
fn startup_applies_plan_in_order() {
    let (f, applied) = start_forwarder(Args::default());
    let expected = config_steps(&default_plan());
    assert_eq!(applied, expected);
    assert!(matches!(applied[0], ConfigStep::Board(_)));
    assert_eq!(f.listen_port, 31338);
    assert_eq!(f.publish_port, 31337);
    assert_eq!(f.polling_interval_ms, 100);
}

#[test]
fn batch_of_two_forwarded_in_order() {
    let (mut f, _) = start_forwarder(Args::default());
    let packet_a = vec![0xA1, 0xA2, 0xA3];
    let packet_b = vec![0xB1];
    let actions = f.step(Event::Batch(vec![packet_a.clone(), packet_b.clone()]));
    assert_eq!(actions.len(), 3);
    match (&actions[0], &actions[1], &actions[2]) {
        (Action::Send(first), Action::Send(second), Action::Receive) => {
            assert_eq!(first, &packet_a);
            assert_eq!(second, &packet_b);
        }
        other => panic!("unexpected drain actions {:?}", other),
    }
    assert_eq!(f.state, State::Draining);
    let actions = f.step(Event::Empty);
    assert!(matches!(actions.as_slice(), [Action::Poll]));
    assert_eq!(f.state, State::Polling);
}

#[test]
fn empty_drain_sends_nothing() {
    let (mut f, _) = start_forwarder(Args::default());
    let actions = f.step(Event::Empty);
    assert_eq!(actions.len(), 1);
    assert!(matches!(actions[0], Action::Poll));
    assert_eq!(f.state, State::Polling);
}

#[test]
fn timeout_is_not_fatal() {
    let (mut f, _) = start_forwarder(Args::default());
    let actions = f.step(Event::Empty);
    assert!(matches!(actions.as_slice(), [Action::Poll]));
    let actions = f.step(Event::Timeout);
    assert!(matches!(actions.as_slice(), [Action::Receive]));
    assert_eq!(f.state, State::Draining);
}

#[test]
fn idle_second_sends_nothing_and_keeps_running() {
    // One second of idle looping at the default 100 ms interval: ten
    // iterations of an empty drain followed by a poll timeout.
    let (mut f, _) = start_forwarder(Args::default());
    let mut sends = 0;
    for _ in 0..10 {
        for action in f.step(Event::Empty) {
            if matches!(action, Action::Send(_)) {
                sends += 1;
            }
        }
        for action in f.step(Event::Timeout) {
            if matches!(action, Action::Send(_)) {
                sends += 1;
            }
        }
        assert_ne!(f.state, State::Stopped);
    }
    assert_eq!(sends, 0);
    assert_eq!(f.state, State::Draining);
}

#[test]
fn datagram_returns_control_to_drain() {
    let (mut f, _) = start_forwarder(Args::default());
    f.step(Event::Empty);
    let actions = f.step(Event::Datagram(vec![1, 2, 3, 4]));
    assert!(matches!(actions.as_slice(), [Action::Receive]));
    assert_eq!(f.state, State::Draining);
}

#[test]
fn listen_failure_is_not_fatal() {
    let (mut f, _) = start_forwarder(Args::default());
    f.step(Event::Empty);
    let actions = f.step(Event::ListenFailed);
    assert!(matches!(actions.as_slice(), [Action::Receive]));
    assert_eq!(f.state, State::Draining);
}

#[test]
fn receive_failure_is_fatal() {
    let (mut f, _) = start_forwarder(Args::default());
    let actions = f.step(Event::ReceiveFailed);
    assert!(actions.is_empty());
    assert_eq!(f.state, State::Stopped);
}

#[test]
fn send_failure_is_fatal() {
    let (mut f, _) = start_forwarder(Args::default());
    f.step(Event::Batch(vec![vec![7]]));
    let actions = f.step(Event::SendFailed);
    assert!(actions.is_empty());
    assert_eq!(f.state, State::Stopped);
}

#[test]
fn configuration_failure_aborts_before_start() {
    let plan = default_plan();
    let mut f = Forwarder::new(&plan, &Args::default()).unwrap();
    let actions = f.step(Event::Boot);
    assert!(matches!(actions.as_slice(), [Action::Apply(ConfigStep::Board(_))]));
    let actions = f.step(Event::ApplyFailed);
    assert!(actions.is_empty());
    assert_eq!(f.state, State::Stopped);
}

#[test]
fn start_failure_is_fatal() {
    let plan = default_plan();
    let mut f = Forwarder::new(&plan, &Args::default()).unwrap();
    let mut actions = f.step(Event::Boot);
    while matches!(actions.as_slice(), [Action::Apply(_)]) {
        actions = f.step(Event::Applied);
    }
    assert!(matches!(actions.as_slice(), [Action::Start]));
    let actions = f.step(Event::StartFailed);
    assert!(actions.is_empty());
    assert_eq!(f.state, State::Stopped);
}

#[test]
fn empty_batch_sends_nothing_and_drains_again() {
    let (mut f, _) = start_forwarder(Args::default());
    let actions = f.step(Event::Batch(Vec::new()));
    assert!(matches!(actions.as_slice(), [Action::Receive]));
    assert_eq!(f.state, State::Draining);
}

#[test]
fn out_of_protocol_event_is_fatal() {
    let (mut f, _) = start_forwarder(Args::default());
    let actions = f.step(Event::Boot);
    assert!(actions.is_empty());
    assert_eq!(f.state, State::Stopped);
}
