use std::cell::RefCell;
use std::time::Duration;

use trippy_core::{
    ChannelConfig, CompletionReason, IcmpExtensionParseMode, IpAddr, MaxInflight, MaxRounds,
    MultipathStrategy, PacketSize, PayloadPattern, Port, PortDirection, PrivilegeMode, Protocol,
    RunAction, RunEvent, RunPhase, Sequence, StateConfig, StrategyConfig, TimeToLive, TraceId,
    TraceState, Tracer, TracerError, TracerRound, TypeOfService,
};

fn make_tracer(source_addr: Option<IpAddr>, interface: Option<&str>, drop_privileges: bool, max_samples: usize) -> Tracer {
    Tracer::new(
        interface.map(|s| s.to_string()),
        source_addr,
        IpAddr::V4(0x0101_0101),
        PrivilegeMode::Privileged,
        Protocol::Udp,
        PacketSize(84),
        PayloadPattern(0xAB),
        TypeOfService(0x10),
        IcmpExtensionParseMode::Enabled,
        Duration::from_millis(10),
        Duration::from_millis(1000),
        TraceId(4242),
        MaxRounds::new(3),
        TimeToLive(1),
        TimeToLive(64),
        Duration::from_millis(100),
        MaxInflight(24),
        Sequence(33434),
        MultipathStrategy::Paris,
        PortDirection::FixedDest(Port(33434)),
        Duration::from_secs(1),
        Duration::from_secs(2),
        max_samples,
        64,
        drop_privileges,
    )
}

fn round(ttl: u8) -> TracerRound {
    TracerRound { largest_ttl: TimeToLive(ttl), reason: CompletionReason::TargetFound }
}

fn expected_channel(source: IpAddr) -> ChannelConfig {
    ChannelConfig {
        privilege_mode: PrivilegeMode::Privileged,
        protocol: Protocol::Udp,
        source_addr: source,
        target_addr: IpAddr::V4(0x0101_0101),
        packet_size: PacketSize(84),
        payload_pattern: PayloadPattern(0xAB),
        initial_sequence: Sequence(33434),
        tos: TypeOfService(0x10),
        icmp_extension_parse_mode: IcmpExtensionParseMode::Enabled,
        read_timeout: Duration::from_millis(10),
        tcp_connect_timeout: Duration::from_millis(1000),
    }
}

fn expected_strategy() -> StrategyConfig {
    StrategyConfig {
        target_addr: IpAddr::V4(0x0101_0101),
        protocol: Protocol::Udp,
        trace_identifier: TraceId(4242),
        max_rounds: MaxRounds::new(3),
        first_ttl: TimeToLive(1),
        max_ttl: TimeToLive(64),
        grace_duration: Duration::from_millis(100),
        max_inflight: MaxInflight(24),
        initial_sequence: Sequence(33434),
        multipath_strategy: MultipathStrategy::Paris,
        port_direction: PortDirection::FixedDest(Port(33434)),
        min_round_duration: Duration::from_secs(1),
        max_round_duration: Duration::from_secs(2),
    }
}

#[test]
fn getters_return_the_configuration() {
    let t = make_tracer(Some(IpAddr::V4(0x0A00_0001)), Some("eth0"), true, 256);
    assert_eq!(t.max_flows(), 64);
    assert_eq!(t.max_samples(), 256);
    assert_eq!(t.privilege_mode(), PrivilegeMode::Privileged);
    assert_eq!(t.protocol(), Protocol::Udp);
    assert_eq!(t.interface(), Some("eth0"));
    assert_eq!(t.source_addr(), None);
    assert_eq!(t.target_addr(), IpAddr::V4(0x0101_0101));
    assert_eq!(t.packet_size(), PacketSize(84));
    assert_eq!(t.payload_pattern(), PayloadPattern(0xAB));
    assert_eq!(t.initial_sequence(), Sequence(33434));
    assert_eq!(t.tos(), TypeOfService(0x10));
    assert_eq!(t.icmp_extension_parse_mode(), IcmpExtensionParseMode::Enabled);
    assert_eq!(t.read_timeout(), Duration::from_millis(10));
    assert_eq!(t.tcp_connect_timeout(), Duration::from_millis(1000));
    assert_eq!(t.trace_identifier(), TraceId(4242));
    assert_eq!(t.max_rounds().map(|m| m.get()), Some(3));
    assert_eq!(t.first_ttl(), TimeToLive(1));
    assert_eq!(t.max_ttl(), TimeToLive(64));
    assert_eq!(t.grace_duration(), Duration::from_millis(100));
    assert_eq!(t.max_inflight(), MaxInflight(24));
    assert_eq!(t.multipath_strategy(), MultipathStrategy::Paris);
    assert_eq!(t.port_direction(), PortDirection::FixedDest(Port(33434)));
    assert_eq!(t.min_round_duration(), Duration::from_secs(1));
    assert_eq!(t.max_round_duration(), Duration::from_secs(2));
}

#[test]
fn new_tracer_has_fresh_state() {
    let t = make_tracer(None, None, false, 8);
    assert_eq!(t.interface(), None);
    let s = t.snapshot();
    assert_eq!(s.config(), StateConfig { max_samples: 8, max_flows: 64 });
    assert_eq!(s.round_count(), 0);
    assert!(s.samples().is_empty());
    assert_eq!(s.error(), None);
}

#[test]
fn run_discovers_source_when_none_configured() {
    let t = make_tracer(None, Some("en0"), false, 8);
    let (phase, action) = t.start_run();
    assert_eq!(phase, RunPhase::ResolvingSource);
    assert_eq!(
        action,
        RunAction::DiscoverSource {
            target_addr: IpAddr::V4(0x0101_0101),
            port_direction: PortDirection::FixedDest(Port(33434)),
            interface: Some("en0".to_string()),
        }
    );
}

#[test]
fn run_validates_configured_source() {
    let t = make_tracer(Some(IpAddr::V6(1)), None, false, 8);
    let (phase, action) = t.start_run();
    assert_eq!(phase, RunPhase::ResolvingSource);
    assert_eq!(action, RunAction::ValidateSource(IpAddr::V6(1)));
}

#[test]
fn successful_run_with_privilege_drop() {
    let mut t = make_tracer(None, None, true, 2);
    let (phase, _) = t.start_run();
    let (phase, action) = t.run_step(phase, RunEvent::SourceResolved(IpAddr::V4(0x0A00_0002)));
    assert_eq!(phase, RunPhase::Connecting);
    assert_eq!(action, RunAction::Connect(expected_channel(IpAddr::V4(0x0A00_0002))));
    assert_eq!(t.source_addr(), Some(IpAddr::V4(0x0A00_0002)));
    let (phase, action) = t.run_step(phase, RunEvent::ChannelConnected);
    assert_eq!(phase, RunPhase::DroppingPrivileges);
    assert_eq!(action, RunAction::DropPrivileges);
    let (phase, action) = t.run_step(phase, RunEvent::PrivilegesDropped);
    assert_eq!(phase, RunPhase::Tracing);
    assert_eq!(action, RunAction::RunStrategy(expected_strategy()));
    let mut phase = phase;
    for ttl in 1..=3 {
        let (p, a) = t.run_step(phase, RunEvent::RoundCompleted(round(ttl)));
        assert_eq!(p, RunPhase::Tracing);
        assert_eq!(a, RunAction::Continue);
        phase = p;
    }
    let (phase, action) = t.run_step(phase, RunEvent::StrategyCompleted);
    assert_eq!(phase, RunPhase::Completed);
    assert_eq!(action, RunAction::Finish(Ok(())));
    let s = t.snapshot();
    assert_eq!(s.round_count(), 3);
    assert_eq!(s.samples(), &[round(2), round(3)]);
    assert_eq!(s.error(), None);
}

#[test]
fn successful_run_without_privilege_drop() {
    let mut t = make_tracer(Some(IpAddr::V4(7)), None, false, 8);
    let (phase, _) = t.start_run();
    let (phase, action) = t.run_step(phase, RunEvent::SourceResolved(IpAddr::V4(7)));
    assert_eq!(action, RunAction::Connect(expected_channel(IpAddr::V4(7))));
    let (phase, action) = t.run_step(phase, RunEvent::ChannelConnected);
    assert_eq!(phase, RunPhase::Tracing);
    assert_eq!(action, RunAction::RunStrategy(expected_strategy()));
    let (phase, action) = t.run_step(phase, RunEvent::StrategyCompleted);
    assert_eq!(phase, RunPhase::Completed);
    assert_eq!(action, RunAction::Finish(Ok(())));
    assert_eq!(t.snapshot().round_count(), 0);
}

#[test]
fn second_source_resolution_fails() {
    let mut t = make_tracer(None, None, false, 8);
    let (_, _) = t.run_step(RunPhase::ResolvingSource, RunEvent::SourceResolved(IpAddr::V4(1)));
    let (phase, action) = t.run_step(RunPhase::ResolvingSource, RunEvent::SourceResolved(IpAddr::V4(2)));
    assert_eq!(phase, RunPhase::Failed);
    assert_eq!(
        action,
        RunAction::Finish(Err(TracerError::Other("failed to set source_addr".to_string())))
    );
    assert_eq!(t.source_addr(), Some(IpAddr::V4(1)));
    assert_eq!(t.snapshot().error(), Some("failed to set source_addr"));
}

#[test]
fn operation_failure_is_recorded() {
    let mut t = make_tracer(None, None, false, 8);
    let err = TracerError::Operation("address not available".to_string());
    let (phase, action) = t.run_step(RunPhase::Connecting, RunEvent::OperationFailed(err.clone()));
    assert_eq!(phase, RunPhase::Failed);
    assert_eq!(action, RunAction::Finish(Err(err)));
    assert_eq!(t.snapshot().error(), Some("address not available"));
}

#[test]
fn finished_run_ignores_events() {
    let mut t = make_tracer(None, None, false, 8);
    let (phase, action) = t.run_step(RunPhase::Completed, RunEvent::RoundCompleted(round(1)));
    assert_eq!(phase, RunPhase::Completed);
    assert_eq!(action, RunAction::Continue);
    let (phase, action) = t.run_step(
        RunPhase::Failed,
        RunEvent::OperationFailed(TracerError::Operation("late".to_string())),
    );
    assert_eq!(phase, RunPhase::Failed);
    assert_eq!(action, RunAction::Continue);
    let s = t.snapshot();
    assert_eq!(s.round_count(), 0);
    assert_eq!(s.error(), None);
}

#[test]
fn out_of_order_event_is_ignored() {
    let mut t = make_tracer(None, None, true, 8);
    let (phase, action) = t.run_step(RunPhase::Connecting, RunEvent::RoundCompleted(round(5)));
    assert_eq!(phase, RunPhase::Connecting);
    assert_eq!(action, RunAction::Continue);
    assert_eq!(t.snapshot().round_count(), 0);
}

#[test]
fn clear_resets_state_and_keeps_source() {
    let mut t = make_tracer(None, None, false, 4);
    let (p, _) = t.run_step(RunPhase::ResolvingSource, RunEvent::SourceResolved(IpAddr::V4(3)));
    let (p, _) = t.run_step(p, RunEvent::ChannelConnected);
    let (p, _) = t.run_step(p, RunEvent::RoundCompleted(round(9)));
    let _ = t.run_step(p, RunEvent::OperationFailed(TracerError::Operation("boom".to_string())));
    assert_eq!(t.snapshot().round_count(), 1);
    assert_eq!(t.snapshot().error(), Some("boom"));
    t.clear();
    let s = t.snapshot();
    assert_eq!(s.round_count(), 0);
    assert!(s.samples().is_empty());
    assert_eq!(s.error(), None);
    assert_eq!(s.config(), StateConfig { max_samples: 4, max_flows: 64 });
    assert_eq!(t.source_addr(), Some(IpAddr::V4(3)));
}

#[test]
fn state_keeps_last_samples() {
    let mut s = TraceState::new(StateConfig { max_samples: 3, max_flows: 1 });
    for ttl in 1..=5 {
        s.update_from_round(&round(ttl));
    }
    assert_eq!(s.samples(), &[round(3), round(4), round(5)]);
    assert_eq!(s.round_count(), 5);
}

#[test]
fn state_with_zero_samples_keeps_none() {
    let mut s = TraceState::new(StateConfig { max_samples: 0, max_flows: 1 });
    s.update_from_round(&round(1));
    assert!(s.samples().is_empty());
    assert_eq!(s.round_count(), 1);
}

#[test]
fn state_error_set_and_cleared() {
    let mut s = TraceState::new(StateConfig { max_samples: 1, max_flows: 1 });
    s.set_error(Some("bad".to_string()));
    assert_eq!(s.error(), Some("bad"));
    let copy = s.duplicate();
    assert_eq!(copy.error(), Some("bad"));
    s.set_error(None);
    assert_eq!(s.error(), None);
    assert_eq!(copy.error(), Some("bad"));
}

#[test]
fn duplicate_copies_everything() {
    let mut s = TraceState::new(StateConfig { max_samples: 5, max_flows: 2 });
    s.update_from_round(&round(1));
    s.update_from_round(&round(2));
    let copy = s.duplicate();
    assert_eq!(copy.samples(), s.samples());
    assert_eq!(copy.round_count(), 2);
    assert_eq!(copy.config(), s.config());
}

#[test]
fn max_rounds_is_never_zero() {
    assert!(MaxRounds::new(0).is_none());
    assert_eq!(MaxRounds::new(3).map(|m| m.get()), Some(3));
}

#[test]
fn error_message_is_its_text() {
    assert_eq!(TracerError::Other("x".to_string()).message(), "x");
    assert_eq!(TracerError::Operation("y".to_string()).message(), "y");
}

#[test]
fn run_and_clear_keep_configuration() {
    let mut t = make_tracer(None, Some("lo"), true, 2);
    let (p, _) = t.run_step(RunPhase::ResolvingSource, RunEvent::SourceResolved(IpAddr::V4(5)));
    let (p, _) = t.run_step(p, RunEvent::ChannelConnected);
    let (p, _) = t.run_step(p, RunEvent::PrivilegesDropped);
    let (p, _) = t.run_step(p, RunEvent::RoundCompleted(round(4)));
    let _ = t.run_step(p, RunEvent::StrategyCompleted);
    t.clear();
    assert_eq!(t.interface(), Some("lo"));
    assert_eq!(t.max_samples(), 2);
    assert_eq!(t.max_flows(), 64);
    assert_eq!(t.trace_identifier(), TraceId(4242));
    assert_eq!(t.port_direction(), PortDirection::FixedDest(Port(33434)));
    assert_eq!(t.max_round_duration(), Duration::from_secs(2));
    assert_eq!(t.snapshot().config(), StateConfig { max_samples: 2, max_flows: 64 });
}

#[test]
fn take_round_records_then_calls_handler() {
    let mut t = make_tracer(None, None, false, 2);
    let seen = RefCell::new(Vec::new());
    let handler = |r: &TracerRound| seen.borrow_mut().push(*r);
    t.take_round(round(1), &handler);
    t.take_round(round(2), &handler);
    t.take_round(round(3), &handler);
    assert_eq!(*seen.borrow(), vec![round(1), round(2), round(3)]);
    let s = t.snapshot();
    assert_eq!(s.round_count(), 3);
    assert_eq!(s.samples(), &[round(2), round(3)]);
}

#[test]
fn equal_tracers_meet_equal_events_alike() {
    let events = vec![
        RunEvent::SourceResolved(IpAddr::V4(8)),
        RunEvent::ChannelConnected,
        RunEvent::PrivilegesDropped,
        RunEvent::RoundCompleted(round(2)),
        RunEvent::OperationFailed(TracerError::Operation("lost".to_string())),
    ];
    let mut t1 = make_tracer(None, Some("eth1"), true, 4);
    let mut t2 = make_tracer(None, Some("eth1"), true, 4);
    let (mut p1, a1) = t1.start_run();
    let (mut p2, a2) = t2.start_run();
    assert_eq!(a1, a2);
    for e in events {
        let (q1, b1) = t1.run_step(p1, e.clone());
        let (q2, b2) = t2.run_step(p2, e);
        assert_eq!(q1, q2);
        assert_eq!(b1, b2);
        p1 = q1;
        p2 = q2;
    }
    assert_eq!(t1.source_addr(), t2.source_addr());
    let (s1, s2) = (t1.snapshot(), t2.snapshot());
    assert_eq!(s1.samples(), s2.samples());
    assert_eq!(s1.round_count(), s2.round_count());
    assert_eq!(s1.error(), s2.error());
}

#[test]
fn source_stays_first_resolved_over_history() {
    let mut t = make_tracer(None, None, false, 4);
    assert_eq!(t.source_addr(), None);
    let _ = t.run_step(RunPhase::ResolvingSource, RunEvent::SourceResolved(IpAddr::V4(11)));
    t.clear();
    assert_eq!(t.source_addr(), Some(IpAddr::V4(11)));
    let _ = t.run_step(RunPhase::ResolvingSource, RunEvent::SourceResolved(IpAddr::V4(12)));
    t.take_round(round(1), &|_: &TracerRound| ());
    t.clear();
    assert_eq!(t.source_addr(), Some(IpAddr::V4(11)));
}
