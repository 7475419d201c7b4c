use vstd::prelude::*;

use crate::config::{ChannelConfig, StrategyConfig};
use crate::model::{channel_config_of, strategy_config_of, TracerView};
use crate::state::{after_round, opt_text, with_error};
use crate::types::{IpAddr, PortDirection, TracerError, TracerErrorView, TracerRound};

verus! {

/// Where a run of a tracer stands.
#[derive(Debug, Clone, Copy, PartialEq, Eq)]
pub enum RunPhase {
    /// Waiting for the source address to be discovered or validated.
    ResolvingSource,
    /// Waiting for the channel to be connected.
    Connecting,
    /// Waiting for the privileges of the process to be dropped.
    DroppingPrivileges,
    /// The strategy runs and completes rounds.
    Tracing,
    /// The run ended without error.
    Completed,
    /// The run ended with an error.
    Failed,
}

/// What the outside work of a run reports back.
#[derive(Debug, Clone, PartialEq, Eq)]
pub enum RunEvent {
    /// The source address was discovered or validated.
    SourceResolved(IpAddr),
    /// The channel is connected.
    ChannelConnected,
    /// The privileges of the process were dropped.
    PrivilegesDropped,
    /// The strategy completed a round.
    RoundCompleted(TracerRound),
    /// The strategy ran all its rounds.
    StrategyCompleted,
    /// The outside work failed with this error.
    OperationFailed(TracerError),
}

/// What a run asks to be done next.
#[derive(Debug, PartialEq, Eq)]
pub enum RunAction {
    /// Discover a source address that reaches `target_addr`.
    DiscoverSource { target_addr: IpAddr, port_direction: PortDirection, interface: Option<String> },
    /// Check that the configured source address can be used.
    ValidateSource(IpAddr),
    /// Connect the channel with this configuration.
    Connect(ChannelConfig),
    /// Drop the privileges of the process.
    DropPrivileges,
    /// Run the strategy with this configuration, reporting each completed round.
    RunStrategy(StrategyConfig),
    /// Nothing new to do: go on with what is under way.
    Continue,
    /// The run is over, with this outcome.
    Finish(Result<(), TracerError>),
}

/// What an action is, with its texts taken by content.
pub enum RunActionView {
    DiscoverSource { target_addr: IpAddr, port_direction: PortDirection, interface: Option<Seq<char>> },
    ValidateSource(IpAddr),
    Connect(ChannelConfig),
    DropPrivileges,
    RunStrategy(StrategyConfig),
    Continue,
    Finish(Result<(), TracerErrorView>),
}

impl View for RunAction {
    type V = RunActionView;

    open spec fn view(&self) -> RunActionView {
        match self {
            RunAction::DiscoverSource { target_addr, port_direction, interface } => RunActionView::DiscoverSource {
                target_addr: *target_addr,
                port_direction: *port_direction,
                interface: opt_text(*interface),
            },
            RunAction::ValidateSource(a) => RunActionView::ValidateSource(*a),
            RunAction::Connect(c) => RunActionView::Connect(*c),
            RunAction::DropPrivileges => RunActionView::DropPrivileges,
            RunAction::RunStrategy(c) => RunActionView::RunStrategy(*c),
            RunAction::Continue => RunActionView::Continue,
            RunAction::Finish(Ok(())) => RunActionView::Finish(Ok(())),
            RunAction::Finish(Err(e)) => RunActionView::Finish(Err(e@)),
        }
    }
}

/// Whether a run in `phase` is still under way.
pub open spec fn is_active(phase: RunPhase) -> bool {
    !(phase is Completed || phase is Failed)
}

/// The text of the error of a run that resolves a source address when the
/// tracer already holds one.
pub open spec fn source_taken_text() -> Seq<char> {
    "failed to set source_addr"@
}

/// The first action of a run: discover a source address when none is
/// configured, else validate the configured one.
pub open spec fn is_start_action(v: TracerView, a: RunAction) -> bool {
    match v.settings.source_addr {
        Some(addr) => a == RunAction::ValidateSource(addr),
        None => a matches RunAction::DiscoverSource { target_addr, port_direction, interface }
            && target_addr == v.settings.target_addr
            && port_direction == v.settings.port_direction
            && opt_text(interface) == v.settings.interface,
    }
}

/// The phase after `event` arrives in `phase`.
pub open spec fn next_phase(v: TracerView, phase: RunPhase, event: RunEvent) -> RunPhase {
    if !is_active(phase) {
        phase
    } else if event is OperationFailed {
        RunPhase::Failed
    } else {
        match (phase, event) {
            (RunPhase::ResolvingSource, RunEvent::SourceResolved(_)) => if v.src is None {
                RunPhase::Connecting
            } else {
                RunPhase::Failed
            },
            (RunPhase::Connecting, RunEvent::ChannelConnected) => if v.settings.drop_privileges {
                RunPhase::DroppingPrivileges
            } else {
                RunPhase::Tracing
            },
            (RunPhase::DroppingPrivileges, RunEvent::PrivilegesDropped) => RunPhase::Tracing,
            (RunPhase::Tracing, RunEvent::StrategyCompleted) => RunPhase::Completed,
            _ => phase,
        }
    }
}

/// The tracer after `event` arrives in `phase`: a resolved source address is
/// kept when the tracer holds none yet, a completed round goes into the trace
/// state, and a failure is recorded as the error of the trace.
pub open spec fn next_view(v: TracerView, phase: RunPhase, event: RunEvent) -> TracerView {
    if !is_active(phase) {
        v
    } else {
        match (phase, event) {
            (_, RunEvent::OperationFailed(e)) => TracerView {
                state: with_error(v.state, Some(e.text())),
                ..v
            },
            (RunPhase::ResolvingSource, RunEvent::SourceResolved(addr)) => if v.src is None {
                TracerView { src: Some(addr), ..v }
            } else {
                TracerView { state: with_error(v.state, Some(source_taken_text())), ..v }
            },
            (RunPhase::Tracing, RunEvent::RoundCompleted(round)) => TracerView {
                state: after_round(v.state, round),
                ..v
            },
            _ => v,
        }
    }
}

/// Whether `a` is the action that follows `event` in `phase`.
pub open spec fn is_next_action(v: TracerView, phase: RunPhase, event: RunEvent, a: RunAction) -> bool {
    if !is_active(phase) {
        a == RunAction::Continue
    } else {
        match (phase, event) {
            (_, RunEvent::OperationFailed(e)) => a == RunAction::Finish(Err(e)),
            (RunPhase::ResolvingSource, RunEvent::SourceResolved(addr)) => if v.src is None {
                a == RunAction::Connect(channel_config_of(v.settings, addr))
            } else {
                a matches RunAction::Finish(Err(TracerError::Other(text))) && text@ == source_taken_text()
            },
            (RunPhase::Connecting, RunEvent::ChannelConnected) => if v.settings.drop_privileges {
                a == RunAction::DropPrivileges
            } else {
                a == RunAction::RunStrategy(strategy_config_of(v.settings))
            },
            (RunPhase::DroppingPrivileges, RunEvent::PrivilegesDropped) => a == RunAction::RunStrategy(
                strategy_config_of(v.settings),
            ),
            (RunPhase::Tracing, RunEvent::StrategyCompleted) => a == RunAction::Finish(Ok(())),
            _ => a == RunAction::Continue,
        }
    }
}

} // verus!
