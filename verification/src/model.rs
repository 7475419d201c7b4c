use vstd::prelude::*;

use std::time::Duration;

use crate::config::{ChannelConfig, StrategyConfig};
use crate::state::{fresh_state, StateConfig, TraceStateView};
use crate::types::{
    IcmpExtensionParseMode, IpAddr, MaxInflight, MaxRounds, MultipathStrategy, PacketSize,
    PayloadPattern, PortDirection, PrivilegeMode, Protocol, Sequence, TimeToLive, TraceId,
    TypeOfService,
};

verus! {

/// What a tracer is configured with; it never changes after construction.
pub struct TracerSettings {
    pub interface: Option<Seq<char>>,
    pub source_addr: Option<IpAddr>,
    pub target_addr: IpAddr,
    pub privilege_mode: PrivilegeMode,
    pub protocol: Protocol,
    pub packet_size: PacketSize,
    pub payload_pattern: PayloadPattern,
    pub tos: TypeOfService,
    pub icmp_extension_parse_mode: IcmpExtensionParseMode,
    pub read_timeout: Duration,
    pub tcp_connect_timeout: Duration,
    pub trace_identifier: TraceId,
    pub max_rounds: Option<MaxRounds>,
    pub first_ttl: TimeToLive,
    pub max_ttl: TimeToLive,
    pub grace_duration: Duration,
    pub max_inflight: MaxInflight,
    pub initial_sequence: Sequence,
    pub multipath_strategy: MultipathStrategy,
    pub port_direction: PortDirection,
    pub min_round_duration: Duration,
    pub max_round_duration: Duration,
    pub max_samples: usize,
    pub max_flows: usize,
    pub drop_privileges: bool,
}

/// A tracer: its settings, the source address that a run resolved (once
/// set, it stays), and the state of the trace.
pub struct TracerView {
    pub settings: TracerSettings,
    pub src: Option<IpAddr>,
    pub state: TraceStateView,
}

/// The limits of the trace state of a tracer.
pub open spec fn state_config_of(max_flows: usize, max_samples: usize) -> StateConfig {
    StateConfig { max_samples, max_flows }
}

/// A tracer just made with `settings`: no resolved source address and a
/// fresh trace state with the tracer's limits.
pub open spec fn initial_view(settings: TracerSettings) -> TracerView {
    TracerView {
        settings,
        src: None,
        state: fresh_state(state_config_of(settings.max_flows, settings.max_samples)),
    }
}

/// The tracer `v` after its trace state is cleared: a fresh state with the
/// tracer's limits, all else unchanged.
pub open spec fn cleared(v: TracerView) -> TracerView {
    TracerView {
        state: fresh_state(state_config_of(v.settings.max_flows, v.settings.max_samples)),
        ..v
    }
}

/// The channel configuration of a tracer whose source address is `source_addr`.
pub open spec fn channel_config_of(s: TracerSettings, source_addr: IpAddr) -> ChannelConfig {
    ChannelConfig {
        privilege_mode: s.privilege_mode,
        protocol: s.protocol,
        source_addr,
        target_addr: s.target_addr,
        packet_size: s.packet_size,
        payload_pattern: s.payload_pattern,
        initial_sequence: s.initial_sequence,
        tos: s.tos,
        icmp_extension_parse_mode: s.icmp_extension_parse_mode,
        read_timeout: s.read_timeout,
        tcp_connect_timeout: s.tcp_connect_timeout,
    }
}

/// The strategy configuration of a tracer.
pub open spec fn strategy_config_of(s: TracerSettings) -> StrategyConfig {
    StrategyConfig {
        target_addr: s.target_addr,
        protocol: s.protocol,
        trace_identifier: s.trace_identifier,
        max_rounds: s.max_rounds,
        first_ttl: s.first_ttl,
        max_ttl: s.max_ttl,
        grace_duration: s.grace_duration,
        max_inflight: s.max_inflight,
        initial_sequence: s.initial_sequence,
        multipath_strategy: s.multipath_strategy,
        port_direction: s.port_direction,
        min_round_duration: s.min_round_duration,
        max_round_duration: s.max_round_duration,
    }
}

} // verus!
