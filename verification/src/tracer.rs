use vstd::prelude::*;

use std::time::Duration;

use crate::inner::TracerInner;
use crate::model::{cleared, initial_view, TracerSettings, TracerView};
use crate::run::{
    is_next_action, is_start_action, next_phase, next_view, RunAction, RunEvent, RunPhase,
};
use crate::state::{opt_text, TraceState};
use crate::types::{
    IcmpExtensionParseMode, IpAddr, MaxInflight, MaxRounds, MultipathStrategy, PacketSize,
    PayloadPattern, PortDirection, PrivilegeMode, Protocol, Sequence, TimeToLive, TraceId,
    TracerRound, TypeOfService,
};

verus! {

/// A traceroute tracer: its configuration, the source address that a run
/// resolved, and the state of the trace.
///
/// A run alternates outside work (resolving the source address, connecting
/// the channel, dropping privileges, running the strategy) with decisions:
/// [`Tracer::start_run`] gives the first action, and [`Tracer::run_step`]
/// takes what the outside work reported and gives the next one.
#[derive(Debug)]
pub struct Tracer {
    inner: TracerInner,
}

impl View for Tracer {
    type V = TracerView;

    closed spec fn view(&self) -> TracerView {
        self.inner@
    }
}

impl Tracer {
    /// Create a `Tracer` with the given configuration, no resolved source
    /// address and a fresh trace state.
    #[allow(clippy::too_many_arguments)]
    pub fn new(
        interface: Option<String>,
        source_addr: Option<IpAddr>,
        target_addr: IpAddr,
        privilege_mode: PrivilegeMode,
        protocol: Protocol,
        packet_size: PacketSize,
        payload_pattern: PayloadPattern,
        tos: TypeOfService,
        icmp_extension_parse_mode: IcmpExtensionParseMode,
        read_timeout: Duration,
        tcp_connect_timeout: Duration,
        trace_identifier: TraceId,
        max_rounds: Option<MaxRounds>,
        first_ttl: TimeToLive,
        max_ttl: TimeToLive,
        grace_duration: Duration,
        max_inflight: MaxInflight,
        initial_sequence: Sequence,
        multipath_strategy: MultipathStrategy,
        port_direction: PortDirection,
        min_round_duration: Duration,
        max_round_duration: Duration,
        max_samples: usize,
        max_flows: usize,
        drop_privileges: bool,
    ) -> (r: Tracer)
        ensures
            r@ == initial_view(TracerSettings {
                interface: opt_text(interface),
                source_addr,
                target_addr,
                privilege_mode,
                protocol,
                packet_size,
                payload_pattern,
                tos,
                icmp_extension_parse_mode,
                read_timeout,
                tcp_connect_timeout,
                trace_identifier,
                max_rounds,
                first_ttl,
                max_ttl,
                grace_duration,
                max_inflight,
                initial_sequence,
                multipath_strategy,
                port_direction,
                min_round_duration,
                max_round_duration,
                max_samples,
                max_flows,
                drop_privileges
            }),
    {
        Tracer {
            inner: TracerInner::new(
                interface,
                source_addr,
                target_addr,
                privilege_mode,
                protocol,
                packet_size,
                payload_pattern,
                tos,
                icmp_extension_parse_mode,
                read_timeout,
                tcp_connect_timeout,
                trace_identifier,
                max_rounds,
                first_ttl,
                max_ttl,
                grace_duration,
                max_inflight,
                initial_sequence,
                multipath_strategy,
                port_direction,
                min_round_duration,
                max_round_duration,
                max_samples,
                max_flows,
                drop_privileges,
            ),
        }
    }

    /// The first phase and action of a run: discover a source address when
    /// none is configured, else validate the configured one.
    pub fn start_run(&self) -> (r: (RunPhase, RunAction))
        ensures
            r.0 == RunPhase::ResolvingSource,
            is_start_action(self@, r.1),
    {
        self.inner.start_run()
    }

    /// Takes in what the outside work of a run in `phase` reported, and gives
    /// the next phase and what to do next.
    pub fn run_step(&mut self, phase: RunPhase, event: RunEvent) -> (r: (RunPhase, RunAction))
        ensures
            r.0 == next_phase(old(self)@, phase, event),
            is_next_action(old(self)@, phase, event, r.1),
            final(self)@ == next_view(old(self)@, phase, event),
    {
        self.inner.run_step(phase, event)
    }

    /// Takes a round that the strategy completed into the trace state, then
    /// calls `func` with it, as a run with a round handler does for each
    /// completed round.
    pub fn take_round<F: Fn(&TracerRound)>(&mut self, round: TracerRound, func: &F)
        requires
            call_requires(*func, (&round,)),
        ensures
            final(self)@ == next_view(old(self)@, RunPhase::Tracing, RunEvent::RoundCompleted(round)),
            call_ensures(*func, (&round,), ()),
    {
        self.inner.take_round(round, func)
    }

    /// Take a snapshot of the tracer state.
    pub fn snapshot(&self) -> (r: TraceState)
        ensures
            r@ == self@.state,
    {
        self.inner.snapshot()
    }

    /// Clear the tracer state.
    pub fn clear(&mut self)
        ensures
            final(self)@ == cleared(old(self)@),
    {
        self.inner.clear()
    }

    pub fn interface(&self) -> (r: Option<&str>)
        ensures
            match r {
                Some(t) => self@.settings.interface == Some(t@),
                None => self@.settings.interface is None,
            },
    {
        self.inner.interface()
    }

    pub fn max_flows(&self) -> (r: usize)
        ensures
            r == self@.settings.max_flows,
    {
        self.inner.max_flows()
    }

    pub fn max_samples(&self) -> (r: usize)
        ensures
            r == self@.settings.max_samples,
    {
        self.inner.max_samples()
    }

    pub fn privilege_mode(&self) -> (r: PrivilegeMode)
        ensures
            r == self@.settings.privilege_mode,
    {
        self.inner.privilege_mode()
    }

    pub fn protocol(&self) -> (r: Protocol)
        ensures
            r == self@.settings.protocol,
    {
        self.inner.protocol()
    }

    /// The source address that a run resolved, if one did.
    pub fn source_addr(&self) -> (r: Option<IpAddr>)
        ensures
            r == self@.src,
    {
        self.inner.source_addr()
    }

    pub fn target_addr(&self) -> (r: IpAddr)
        ensures
            r == self@.settings.target_addr,
    {
        self.inner.target_addr()
    }

    pub fn packet_size(&self) -> (r: PacketSize)
        ensures
            r == self@.settings.packet_size,
    {
        self.inner.packet_size()
    }

    pub fn payload_pattern(&self) -> (r: PayloadPattern)
        ensures
            r == self@.settings.payload_pattern,
    {
        self.inner.payload_pattern()
    }

    pub fn initial_sequence(&self) -> (r: Sequence)
        ensures
            r == self@.settings.initial_sequence,
    {
        self.inner.initial_sequence()
    }

    pub fn tos(&self) -> (r: TypeOfService)
        ensures
            r == self@.settings.tos,
    {
        self.inner.tos()
    }

    pub fn icmp_extension_parse_mode(&self) -> (r: IcmpExtensionParseMode)
        ensures
            r == self@.settings.icmp_extension_parse_mode,
    {
        self.inner.icmp_extension_parse_mode()
    }

    pub fn read_timeout(&self) -> (r: Duration)
        ensures
            r == self@.settings.read_timeout,
    {
        self.inner.read_timeout()
    }

    pub fn tcp_connect_timeout(&self) -> (r: Duration)
        ensures
            r == self@.settings.tcp_connect_timeout,
    {
        self.inner.tcp_connect_timeout()
    }

    pub fn trace_identifier(&self) -> (r: TraceId)
        ensures
            r == self@.settings.trace_identifier,
    {
        self.inner.trace_identifier()
    }

    pub fn max_rounds(&self) -> (r: Option<MaxRounds>)
        ensures
            r == self@.settings.max_rounds,
    {
        self.inner.max_rounds()
    }

    pub fn first_ttl(&self) -> (r: TimeToLive)
        ensures
            r == self@.settings.first_ttl,
    {
        self.inner.first_ttl()
    }

    pub fn max_ttl(&self) -> (r: TimeToLive)
        ensures
            r == self@.settings.max_ttl,
    {
        self.inner.max_ttl()
    }

    pub fn grace_duration(&self) -> (r: Duration)
        ensures
            r == self@.settings.grace_duration,
    {
        self.inner.grace_duration()
    }

    pub fn max_inflight(&self) -> (r: MaxInflight)
        ensures
            r == self@.settings.max_inflight,
    {
        self.inner.max_inflight()
    }

    pub fn multipath_strategy(&self) -> (r: MultipathStrategy)
        ensures
            r == self@.settings.multipath_strategy,
    {
        self.inner.multipath_strategy()
    }

    pub fn port_direction(&self) -> (r: PortDirection)
        ensures
            r == self@.settings.port_direction,
    {
        self.inner.port_direction()
    }

    pub fn min_round_duration(&self) -> (r: Duration)
        ensures
            r == self@.settings.min_round_duration,
    {
        self.inner.min_round_duration()
    }

    pub fn max_round_duration(&self) -> (r: Duration)
        ensures
            r == self@.settings.max_round_duration,
    {
        self.inner.max_round_duration()
    }
}

} // verus!
