//! The core of a traceroute tracer, verified with Verus: its configuration,
//! the state of a trace built up round by round, and the decisions of a run,
//! which alternates outside work (resolving the source address, connecting
//! the channel, dropping privileges, running the tracing strategy) with
//! steps of a state machine.
use vstd::prelude::*;

pub mod config;
mod inner;
pub mod laws;
pub mod model;
pub mod run;
pub mod state;
pub mod tracer;
pub mod types;

pub use config::{ChannelConfig, StrategyConfig};
pub use run::{RunAction, RunEvent, RunPhase};
pub use state::{StateConfig, TraceState};
pub use tracer::Tracer;
pub use types::{
    CompletionReason, IcmpExtensionParseMode, IpAddr, MaxInflight, MaxRounds, MultipathStrategy,
    PacketSize, PayloadPattern, Port, PortDirection, PrivilegeMode, Protocol, Sequence,
    TimeToLive, TraceId, TracerError, TracerRound, TypeOfService,
};

verus! {

} // verus!
