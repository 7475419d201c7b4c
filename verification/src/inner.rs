use vstd::prelude::*;
use vstd::string::StringExecFns;

use std::time::Duration;

use crate::config::{ChannelConfig, StrategyConfig};
use crate::model::{
    channel_config_of, cleared, initial_view, state_config_of, strategy_config_of,
    TracerSettings, TracerView,
};
use crate::run::{
    is_next_action, is_start_action, next_phase, next_view, RunAction, RunEvent, RunPhase,
};
use crate::state::{after_round, opt_text, with_error, StateConfig, TraceState};
use crate::types::{
    IcmpExtensionParseMode, IpAddr, MaxInflight, MaxRounds, MultipathStrategy, PacketSize,
    PayloadPattern, PortDirection, PrivilegeMode, Protocol, Sequence, TimeToLive, TraceId,
    TracerError, TracerRound, TypeOfService,
};

verus! {

/// The configuration and the state of a tracer.
#[derive(Debug)]
pub struct TracerInner {
    source_addr: Option<IpAddr>,
    interface: Option<String>,
    target_addr: IpAddr,
    privilege_mode: PrivilegeMode,
    protocol: Protocol,
    packet_size: PacketSize,
    payload_pattern: PayloadPattern,
    tos: TypeOfService,
    icmp_extension_parse_mode: IcmpExtensionParseMode,
    read_timeout: Duration,
    tcp_connect_timeout: Duration,
    trace_identifier: TraceId,
    max_rounds: Option<MaxRounds>,
    first_ttl: TimeToLive,
    max_ttl: TimeToLive,
    grace_duration: Duration,
    max_inflight: MaxInflight,
    initial_sequence: Sequence,
    multipath_strategy: MultipathStrategy,
    port_direction: PortDirection,
    min_round_duration: Duration,
    max_round_duration: Duration,
    max_samples: usize,
    max_flows: usize,
    drop_privileges: bool,
    state: TraceState,
    src: Option<IpAddr>,
}

impl View for TracerInner {
    type V = TracerView;

    closed spec fn view(&self) -> TracerView {
        TracerView {
            settings: TracerSettings {
                interface: opt_text(self.interface),
                source_addr: self.source_addr,
                target_addr: self.target_addr,
                privilege_mode: self.privilege_mode,
                protocol: self.protocol,
                packet_size: self.packet_size,
                payload_pattern: self.payload_pattern,
                tos: self.tos,
                icmp_extension_parse_mode: self.icmp_extension_parse_mode,
                read_timeout: self.read_timeout,
                tcp_connect_timeout: self.tcp_connect_timeout,
                trace_identifier: self.trace_identifier,
                max_rounds: self.max_rounds,
                first_ttl: self.first_ttl,
                max_ttl: self.max_ttl,
                grace_duration: self.grace_duration,
                max_inflight: self.max_inflight,
                initial_sequence: self.initial_sequence,
                multipath_strategy: self.multipath_strategy,
                port_direction: self.port_direction,
                min_round_duration: self.min_round_duration,
                max_round_duration: self.max_round_duration,
                max_samples: self.max_samples,
                max_flows: self.max_flows,
                drop_privileges: self.drop_privileges,
            },
            src: self.src,
            state: self.state@,
        }
    }
}

impl TracerInner {
    /// A tracer with the given configuration, no resolved source address and
    /// a fresh trace state.
    #[allow(clippy::too_many_arguments)]
    pub fn new(
        interface: Option<String>,
        source_addr: Option<IpAddr>,
        target_addr: IpAddr,
        privilege_mode: PrivilegeMode,
        protocol: Protocol,
        packet_size: PacketSize,
        payload_pattern: PayloadPattern,
        tos: TypeOfService,
        icmp_extension_parse_mode: IcmpExtensionParseMode,
        read_timeout: Duration,
        tcp_connect_timeout: Duration,
        trace_identifier: TraceId,
        max_rounds: Option<MaxRounds>,
        first_ttl: TimeToLive,
        max_ttl: TimeToLive,
        grace_duration: Duration,
        max_inflight: MaxInflight,
        initial_sequence: Sequence,
        multipath_strategy: MultipathStrategy,
        port_direction: PortDirection,
        min_round_duration: Duration,
        max_round_duration: Duration,
        max_samples: usize,
        max_flows: usize,
        drop_privileges: bool,
    ) -> (r: TracerInner)
        ensures
            r@ == initial_view(TracerSettings {
                interface: opt_text(interface),
                source_addr,
                target_addr,
                privilege_mode,
                protocol,
                packet_size,
                payload_pattern,
                tos,
                icmp_extension_parse_mode,
                read_timeout,
                tcp_connect_timeout,
                trace_identifier,
                max_rounds,
                first_ttl,
                max_ttl,
                grace_duration,
                max_inflight,
                initial_sequence,
                multipath_strategy,
                port_direction,
                min_round_duration,
                max_round_duration,
                max_samples,
                max_flows,
                drop_privileges,
            }),
    {
        TracerInner {
            source_addr,
            interface,
            target_addr,
            privilege_mode,
            protocol,
            packet_size,
            payload_pattern,
            tos,
            icmp_extension_parse_mode,
            read_timeout,
            tcp_connect_timeout,
            trace_identifier,
            max_rounds,
            first_ttl,
            max_ttl,
            grace_duration,
            max_inflight,
            initial_sequence,
            multipath_strategy,
            port_direction,
            min_round_duration,
            max_round_duration,
            max_samples,
            max_flows,
            drop_privileges,
            state: TraceState::new(Self::make_state_config(max_flows, max_samples)),
            src: None,
        }
    }

    /// A copy of the trace state.
    pub fn snapshot(&self) -> (r: TraceState)
        ensures
            r@ == self@.state,
    {
        self.state.duplicate()
    }

    /// Replaces the trace state with a fresh one of the same limits.
    pub fn clear(&mut self)
        ensures
            final(self)@ == cleared(old(self)@),
    {
        self.state = TraceState::new(Self::make_state_config(self.max_flows, self.max_samples));
    }

    pub fn max_flows(&self) -> (r: usize)
        ensures
            r == self@.settings.max_flows,
    {
        self.max_flows
    }

    pub fn max_samples(&self) -> (r: usize)
        ensures
            r == self@.settings.max_samples,
    {
        self.max_samples
    }

    pub fn privilege_mode(&self) -> (r: PrivilegeMode)
        ensures
            r == self@.settings.privilege_mode,
    {
        self.privilege_mode
    }

    pub fn protocol(&self) -> (r: Protocol)
        ensures
            r == self@.settings.protocol,
    {
        self.protocol
    }

    pub fn interface(&self) -> (r: Option<&str>)
        ensures
            match r {
                Some(t) => self@.settings.interface == Some(t@),
                None => self@.settings.interface is None,
            },
    {
        match &self.interface {
            Some(i) => Some(i.as_str()),
            None => None,
        }
    }

    /// The source address that a run resolved, if one did.
    pub fn source_addr(&self) -> (r: Option<IpAddr>)
        ensures
            r == self@.src,
    {
        self.src
    }

    pub fn target_addr(&self) -> (r: IpAddr)
        ensures
            r == self@.settings.target_addr,
    {
        self.target_addr
    }

    pub fn packet_size(&self) -> (r: PacketSize)
        ensures
            r == self@.settings.packet_size,
    {
        self.packet_size
    }

    pub fn payload_pattern(&self) -> (r: PayloadPattern)
        ensures
            r == self@.settings.payload_pattern,
    {
        self.payload_pattern
    }

    pub fn initial_sequence(&self) -> (r: Sequence)
        ensures
            r == self@.settings.initial_sequence,
    {
        self.initial_sequence
    }

    pub fn tos(&self) -> (r: TypeOfService)
        ensures
            r == self@.settings.tos,
    {
        self.tos
    }

    pub fn icmp_extension_parse_mode(&self) -> (r: IcmpExtensionParseMode)
        ensures
            r == self@.settings.icmp_extension_parse_mode,
    {
        self.icmp_extension_parse_mode
    }

    pub fn read_timeout(&self) -> (r: Duration)
        ensures
            r == self@.settings.read_timeout,
    {
        self.read_timeout
    }

    pub fn tcp_connect_timeout(&self) -> (r: Duration)
        ensures
            r == self@.settings.tcp_connect_timeout,
    {
        self.tcp_connect_timeout
    }

    pub fn trace_identifier(&self) -> (r: TraceId)
        ensures
            r == self@.settings.trace_identifier,
    {
        self.trace_identifier
    }

    pub fn max_rounds(&self) -> (r: Option<MaxRounds>)
        ensures
            r == self@.settings.max_rounds,
    {
        self.max_rounds
    }

    pub fn first_ttl(&self) -> (r: TimeToLive)
        ensures
            r == self@.settings.first_ttl,
    {
        self.first_ttl
    }

    pub fn max_ttl(&self) -> (r: TimeToLive)
        ensures
            r == self@.settings.max_ttl,
    {
        self.max_ttl
    }

    pub fn grace_duration(&self) -> (r: Duration)
        ensures
            r == self@.settings.grace_duration,
    {
        self.grace_duration
    }

    pub fn max_inflight(&self) -> (r: MaxInflight)
        ensures
            r == self@.settings.max_inflight,
    {
        self.max_inflight
    }

    pub fn multipath_strategy(&self) -> (r: MultipathStrategy)
        ensures
            r == self@.settings.multipath_strategy,
    {
        self.multipath_strategy
    }

    pub fn port_direction(&self) -> (r: PortDirection)
        ensures
            r == self@.settings.port_direction,
    {
        self.port_direction
    }

    pub fn min_round_duration(&self) -> (r: Duration)
        ensures
            r == self@.settings.min_round_duration,
    {
        self.min_round_duration
    }

    pub fn max_round_duration(&self) -> (r: Duration)
        ensures
            r == self@.settings.max_round_duration,
    {
        self.max_round_duration
    }

    /// The first phase and action of a run.
    pub fn start_run(&self) -> (r: (RunPhase, RunAction))
        ensures
            r.0 == RunPhase::ResolvingSource,
            is_start_action(self@, r.1),
    {
        match self.source_addr {
            None => {
                let interface = match &self.interface {
                    Some(i) => Some(i.clone()),
                    None => None,
                };
                (
                    RunPhase::ResolvingSource,
                    RunAction::DiscoverSource {
                        target_addr: self.target_addr,
                        port_direction: self.port_direction,
                        interface,
                    },
                )
            },
            Some(addr) => (RunPhase::ResolvingSource, RunAction::ValidateSource(addr)),
        }
    }

    /// Takes in what the outside work of a run in `phase` reported, and gives
    /// the next phase and what to do next.
    pub fn run_step(&mut self, phase: RunPhase, event: RunEvent) -> (r: (RunPhase, RunAction))
        ensures
            r.0 == next_phase(old(self)@, phase, event),
            is_next_action(old(self)@, phase, event, r.1),
            final(self)@ == next_view(old(self)@, phase, event),
    {
        match phase {
            RunPhase::Completed | RunPhase::Failed => {
                return (phase, RunAction::Continue);
            },
            _ => {},
        }
        match event {
            RunEvent::OperationFailed(err) => {
                let err = self.handle_error(err);
                (RunPhase::Failed, RunAction::Finish(Err(err)))
            },
            RunEvent::SourceResolved(addr) => match phase {
                RunPhase::ResolvingSource => {
                    if self.src.is_none() {
                        self.src = Some(addr);
                        let config = self.make_channel_config(addr);
                        (RunPhase::Connecting, RunAction::Connect(config))
                    } else {
                        let text = String::from_str("failed to set source_addr");
                        let err = self.handle_error(TracerError::Other(text));
                        (RunPhase::Failed, RunAction::Finish(Err(err)))
                    }
                },
                _ => (phase, RunAction::Continue),
            },
            RunEvent::ChannelConnected => match phase {
                RunPhase::Connecting => {
                    if self.drop_privileges {
                        (RunPhase::DroppingPrivileges, RunAction::DropPrivileges)
                    } else {
                        (RunPhase::Tracing, RunAction::RunStrategy(self.make_strategy_config()))
                    }
                },
                _ => (phase, RunAction::Continue),
            },
            RunEvent::PrivilegesDropped => match phase {
                RunPhase::DroppingPrivileges => {
                    (RunPhase::Tracing, RunAction::RunStrategy(self.make_strategy_config()))
                },
                _ => (phase, RunAction::Continue),
            },
            RunEvent::RoundCompleted(round) => match phase {
                RunPhase::Tracing => {
                    self.handler(&round);
                    (RunPhase::Tracing, RunAction::Continue)
                },
                _ => (phase, RunAction::Continue),
            },
            RunEvent::StrategyCompleted => match phase {
                RunPhase::Tracing => (RunPhase::Completed, RunAction::Finish(Ok(()))),
                _ => (phase, RunAction::Continue),
            },
        }
    }

    /// Takes a round that the strategy completed into the trace state, then
    /// calls `func` with it.
    pub fn take_round<F: Fn(&TracerRound)>(&mut self, round: TracerRound, func: &F)
        requires
            call_requires(*func, (&round,)),
        ensures
            final(self)@ == next_view(old(self)@, RunPhase::Tracing, RunEvent::RoundCompleted(round)),
            call_ensures(*func, (&round,), ()),
    {
        self.handler(&round);
        func(&round);
    }

    /// Takes a completed round into the trace state.
    fn handler(&mut self, round: &TracerRound)
        ensures
            final(self)@ == (TracerView { state: after_round(old(self)@.state, *round), ..old(self)@ }),
    {
        self.state.update_from_round(round);
    }

    /// Records `err` as the error of the trace and hands it back.
    fn handle_error(&mut self, err: TracerError) -> (r: TracerError)
        ensures
            r == err,
            final(self)@ == (TracerView {
                state: with_error(old(self)@.state, Some(err.text())),
                ..old(self)@
            }),
    {
        let message = err.message();
        self.state.set_error(Some(message));
        err
    }

    fn make_state_config(max_flows: usize, max_samples: usize) -> (r: StateConfig)
        ensures
            r == state_config_of(max_flows, max_samples),
    {
        StateConfig { max_samples, max_flows }
    }

    fn make_channel_config(&self, source_addr: IpAddr) -> (r: ChannelConfig)
        ensures
            r == channel_config_of(self@.settings, source_addr),
    {
        ChannelConfig {
            privilege_mode: self.privilege_mode,
            protocol: self.protocol,
            source_addr,
            target_addr: self.target_addr,
            packet_size: self.packet_size,
            payload_pattern: self.payload_pattern,
            initial_sequence: self.initial_sequence,
            tos: self.tos,
            icmp_extension_parse_mode: self.icmp_extension_parse_mode,
            read_timeout: self.read_timeout,
            tcp_connect_timeout: self.tcp_connect_timeout,
        }
    }

    fn make_strategy_config(&self) -> (r: StrategyConfig)
        ensures
            r == strategy_config_of(self@.settings),
    {
        StrategyConfig {
            target_addr: self.target_addr,
            protocol: self.protocol,
            trace_identifier: self.trace_identifier,
            max_rounds: self.max_rounds,
            first_ttl: self.first_ttl,
            max_ttl: self.max_ttl,
            grace_duration: self.grace_duration,
            max_inflight: self.max_inflight,
            initial_sequence: self.initial_sequence,
            multipath_strategy: self.multipath_strategy,
            port_direction: self.port_direction,
            min_round_duration: self.min_round_duration,
            max_round_duration: self.max_round_duration,
        }
    }
}

} // verus!
