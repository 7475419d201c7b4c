use vstd::prelude::*;

use crate::model::{
    channel_config_of, cleared, initial_view, state_config_of, strategy_config_of, TracerSettings,
    TracerView,
};
use crate::run::{
    is_active, is_next_action, is_start_action, next_phase, next_view, source_taken_text,
    RunAction, RunEvent, RunPhase,
};
use crate::state::{
    after_round, fresh_state, opt_text, retained, with_error, StateConfig, TraceStateView,
};
use crate::types::{IpAddr, TracerError, TracerRound};

verus! {

/// The state after `s` takes in `rounds`, first to last.
pub open spec fn apply_rounds(s: TraceStateView, rounds: Seq<TracerRound>) -> TraceStateView
    decreases rounds.len(),
{
    if rounds.len() == 0 {
        s
    } else {
        apply_rounds(after_round(s, rounds[0]), rounds.drop_first())
    }
}

/// The tracer and phase after the events `events` arrive, first to last,
/// in a run that stands in `phase`.
pub open spec fn replay(v: TracerView, phase: RunPhase, events: Seq<RunEvent>) -> (TracerView, RunPhase)
    decreases events.len(),
{
    if events.len() == 0 {
        (v, phase)
    } else {
        replay(next_view(v, phase, events[0]), next_phase(v, phase, events[0]), events.drop_first())
    }
}

/// The events of a run in which every outside operation succeeds: the source
/// address `addr` is resolved, the channel connects, the privileges are
/// dropped when the tracer is configured to drop them, the strategy completes
/// `rounds` and then finishes.
pub open spec fn successful_run(v: TracerView, addr: IpAddr, rounds: Seq<TracerRound>) -> Seq<RunEvent> {
    seq![RunEvent::SourceResolved(addr), RunEvent::ChannelConnected]
        + (if v.settings.drop_privileges { seq![RunEvent::PrivilegesDropped] } else { Seq::empty() })
        + round_events(rounds)
        + seq![RunEvent::StrategyCompleted]
}

/// One completed-round event for each round.
pub open spec fn round_events(rounds: Seq<TracerRound>) -> Seq<RunEvent> {
    rounds.map_values(|r: TracerRound| RunEvent::RoundCompleted(r))
}

/// No event of a run changes what the tracer is configured with.
pub proof fn lemma_step_keeps_settings(v: TracerView, phase: RunPhase, event: RunEvent)
    ensures
        next_view(v, phase, event).settings == v.settings,
{
}

/// Once a tracer holds a resolved source address, no event changes it.
pub proof fn lemma_source_set_once(v: TracerView, phase: RunPhase, event: RunEvent)
    requires
        v.src is Some,
    ensures
        next_view(v, phase, event).src == v.src,
{
}

/// A run that resolves a source address when the tracer already holds one
/// fails: the tracer keeps its address, the trace records the error
/// "failed to set source_addr", and the run finishes with that error.
pub proof fn lemma_second_source_fails(v: TracerView, addr: IpAddr, a: RunAction)
    requires
        v.src is Some,
        is_next_action(v, RunPhase::ResolvingSource, RunEvent::SourceResolved(addr), a),
    ensures
        next_phase(v, RunPhase::ResolvingSource, RunEvent::SourceResolved(addr)) == RunPhase::Failed,
        next_view(v, RunPhase::ResolvingSource, RunEvent::SourceResolved(addr))
            == (TracerView { state: with_error(v.state, Some(source_taken_text())), ..v }),
        a matches RunAction::Finish(Err(TracerError::Other(text))) && text@ == source_taken_text(),
{
}

/// When the outside work of a run under way fails, the run fails with that
/// very error, and the trace records its text; nothing else changes.
pub proof fn lemma_failure_recorded(v: TracerView, phase: RunPhase, err: TracerError, a: RunAction)
    requires
        is_active(phase),
        is_next_action(v, phase, RunEvent::OperationFailed(err), a),
    ensures
        next_phase(v, phase, RunEvent::OperationFailed(err)) == RunPhase::Failed,
        next_view(v, phase, RunEvent::OperationFailed(err))
            == (TracerView { state: with_error(v.state, Some(err.text())), ..v }),
        a == RunAction::Finish(Err(err)),
{
}

/// A finished run ignores any further event.
pub proof fn lemma_finished_run_ignores_events(v: TracerView, phase: RunPhase, event: RunEvent, a: RunAction)
    requires
        !is_active(phase),
        is_next_action(v, phase, event, a),
    ensures
        next_phase(v, phase, event) == phase,
        next_view(v, phase, event) == v,
        a == RunAction::Continue,
{
}

/// Privileges are dropped after the channel connects, and only when the
/// tracer is configured to drop them; the strategy runs after that, with the
/// tracer's strategy configuration.
pub proof fn lemma_privileges_dropped_after_connect(v: TracerView, a: RunAction, b: RunAction)
    requires
        is_next_action(v, RunPhase::Connecting, RunEvent::ChannelConnected, a),
        is_next_action(v, RunPhase::DroppingPrivileges, RunEvent::PrivilegesDropped, b),
    ensures
        (a == RunAction::DropPrivileges) == v.settings.drop_privileges,
        !v.settings.drop_privileges ==> a == RunAction::RunStrategy(strategy_config_of(v.settings)),
        b == RunAction::RunStrategy(strategy_config_of(v.settings)),
{
}

/// The channel is connected with the source address that the run resolved.
pub proof fn lemma_channel_uses_resolved_source(v: TracerView, addr: IpAddr, a: RunAction)
    requires
        v.src is None,
        is_next_action(v, RunPhase::ResolvingSource, RunEvent::SourceResolved(addr), a),
    ensures
        a == RunAction::Connect(channel_config_of(v.settings, addr)),
        next_view(v, RunPhase::ResolvingSource, RunEvent::SourceResolved(addr)).src == Some(addr),
{
}

/// The limits of the trace state stay those of the tracer, whatever event arrives.
pub proof fn lemma_state_config_kept(v: TracerView, phase: RunPhase, event: RunEvent)
    requires
        v.state.config == state_config_of(v.settings.max_flows, v.settings.max_samples),
    ensures
        next_view(v, phase, event).state.config
            == state_config_of(v.settings.max_flows, v.settings.max_samples),
{
}

/// Clearing gives the trace state of a tracer just made with the same
/// settings, keeps everything else, and clearing twice is clearing once.
pub proof fn lemma_clear_restores_initial_state(v: TracerView)
    ensures
        cleared(v).state == initial_view(v.settings).state,
        cleared(v).settings == v.settings,
        cleared(v).src == v.src,
        cleared(cleared(v)) == cleared(v),
{
}

/// A trace state never keeps more rounds than its limit.
pub proof fn lemma_samples_bounded(s: TraceStateView, round: TracerRound)
    ensures
        after_round(s, round).samples.len() <= s.config.max_samples,
        after_round(s, round).samples.last() == round || s.config.max_samples == 0,
{
}

/// Keeping the last `m` items of `x` and then of that followed by `y` keeps
/// the last `m` items of `x` followed by `y`.
proof fn lemma_retained_append(x: Seq<TracerRound>, y: Seq<TracerRound>, m: nat)
    ensures
        retained(retained(x, m) + y, m) == retained(x + y, m),
{
    if x.len() > m {
        let z = retained(x, m);
        assert(z.len() == m);
        if y.len() == 0 {
            assert(z + y =~= z);
            assert(x + y =~= x);
        } else {
            let lhs = retained(z + y, m);
            let rhs = retained(x + y, m);
            assert(lhs.len() == rhs.len());
            assert forall|i: int| 0 <= i < lhs.len() implies lhs[i] == rhs[i] by {
                if y.len() + i < m {
                    assert(lhs[i] == z[y.len() + i]);
                    assert(rhs[i] == x[x.len() - m + y.len() + i]);
                } else {
                    assert(lhs[i] == y[y.len() + i - m]);
                    assert(rhs[i] == y[y.len() + i - m]);
                }
            }
            assert(lhs =~= rhs);
        }
    }
}

/// After a state takes in rounds, it keeps the last of its kept rounds
/// followed by the new ones, up to its limit, and counts the new rounds.
pub proof fn lemma_apply_rounds(s: TraceStateView, rounds: Seq<TracerRound>)
    ensures
        apply_rounds(s, rounds).config == s.config,
        apply_rounds(s, rounds).error == s.error,
        rounds.len() > 0 ==> apply_rounds(s, rounds).samples
            == retained(s.samples + rounds, s.config.max_samples as nat),
        apply_rounds(s, rounds).round_count == (if s.round_count + rounds.len() < u64::MAX {
            s.round_count + rounds.len()
        } else {
            u64::MAX as int
        }),
    decreases rounds.len(),
{
    if rounds.len() > 0 {
        let m = s.config.max_samples as nat;
        let s1 = after_round(s, rounds[0]);
        let rest = rounds.drop_first();
        lemma_apply_rounds(s1, rest);
        if rest.len() > 0 {
            lemma_retained_append(s.samples.push(rounds[0]), rest, m);
            assert(s.samples.push(rounds[0]) + rest =~= s.samples + rounds);
        } else {
            assert(s.samples.push(rounds[0]) =~= s.samples + rounds);
        }
    }
}

/// A fresh trace state that takes in rounds keeps exactly the last
/// `max_samples` of them (all of them when there are fewer), counts them,
/// and records no error.
pub proof fn lemma_fresh_state_keeps_last_rounds(config: StateConfig, rounds: Seq<TracerRound>)
    ensures
        apply_rounds(fresh_state(config), rounds).samples == retained(rounds, config.max_samples as nat),
        apply_rounds(fresh_state(config), rounds).round_count
            == (if rounds.len() < u64::MAX { rounds.len() as int } else { u64::MAX as int }),
        apply_rounds(fresh_state(config), rounds).error is None,
        apply_rounds(fresh_state(config), rounds).config == config,
{
    lemma_apply_rounds(fresh_state(config), rounds);
    assert(Seq::<TracerRound>::empty() + rounds =~= rounds);
}

/// Replaying `a` and then `b` is replaying `a + b`.
proof fn lemma_replay_append(v: TracerView, phase: RunPhase, a: Seq<RunEvent>, b: Seq<RunEvent>)
    ensures
        replay(v, phase, a + b) == replay(replay(v, phase, a).0, replay(v, phase, a).1, b),
    decreases a.len(),
{
    if a.len() > 0 {
        assert((a + b).drop_first() =~= a.drop_first() + b);
        assert((a + b)[0] == a[0]);
        lemma_replay_append(next_view(v, phase, a[0]), next_phase(v, phase, a[0]), a.drop_first(), b);
    } else {
        assert(a + b =~= b);
    }
}

/// While tracing, completed rounds go into the trace state and the run goes on.
proof fn lemma_replay_rounds(v: TracerView, rounds: Seq<TracerRound>)
    ensures
        replay(v, RunPhase::Tracing, round_events(rounds))
            == (TracerView { state: apply_rounds(v.state, rounds), ..v }, RunPhase::Tracing),
    decreases rounds.len(),
{
    if rounds.len() > 0 {
        let v1 = TracerView { state: after_round(v.state, rounds[0]), ..v };
        assert(round_events(rounds).drop_first() =~= round_events(rounds.drop_first()));
        lemma_replay_rounds(v1, rounds.drop_first());
    } else {
        assert(round_events(rounds) =~= Seq::<RunEvent>::empty());
    }
}

/// A run of a tracer with no resolved source address in which every outside
/// operation succeeds completes; the tracer then holds the resolved address,
/// its trace state has taken in every completed round, and its settings are
/// unchanged.
pub proof fn lemma_successful_run(v: TracerView, addr: IpAddr, rounds: Seq<TracerRound>)
    requires
        v.src is None,
    ensures
        replay(v, RunPhase::ResolvingSource, successful_run(v, addr, rounds)) == (
            TracerView { src: Some(addr), state: apply_rounds(v.state, rounds), ..v },
            RunPhase::Completed,
        ),
{
    let start = seq![RunEvent::SourceResolved(addr), RunEvent::ChannelConnected];
    let privileges: Seq<RunEvent> = if v.settings.drop_privileges {
        seq![RunEvent::PrivilegesDropped]
    } else {
        Seq::empty()
    };
    let end = seq![RunEvent::StrategyCompleted];
    let v1 = TracerView { src: Some(addr), ..v };
    lemma_replay_append(v, RunPhase::ResolvingSource, start + privileges + round_events(rounds), end);
    lemma_replay_append(v, RunPhase::ResolvingSource, start + privileges, round_events(rounds));
    lemma_replay_append(v, RunPhase::ResolvingSource, start, privileges);
    let p1 = if v.settings.drop_privileges { RunPhase::DroppingPrivileges } else { RunPhase::Tracing };
    assert(start[0] == RunEvent::SourceResolved(addr));
    assert(start.drop_first() =~= seq![RunEvent::ChannelConnected]);
    assert(start.drop_first()[0] == RunEvent::ChannelConnected);
    assert(start.drop_first().drop_first() =~= Seq::<RunEvent>::empty());
    assert(replay(v1, p1, Seq::<RunEvent>::empty()) == (v1, p1));
    assert(replay(v1, RunPhase::Connecting, start.drop_first()) == (v1, p1));
    assert(replay(v, RunPhase::ResolvingSource, start) == (v1, p1));
    if v.settings.drop_privileges {
        assert(privileges[0] == RunEvent::PrivilegesDropped);
        assert(privileges.drop_first() =~= Seq::<RunEvent>::empty());
        assert(replay(v1, RunPhase::Tracing, Seq::<RunEvent>::empty()) == (v1, RunPhase::Tracing));
        assert(replay(v1, p1, privileges) == (v1, RunPhase::Tracing));
    } else {
        assert(privileges =~= Seq::<RunEvent>::empty());
        assert(replay(v1, p1, privileges) == (v1, RunPhase::Tracing));
    }
    assert(replay(v, RunPhase::ResolvingSource, start + privileges) == (v1, RunPhase::Tracing));
    lemma_replay_rounds(v1, rounds);
    let v2 = TracerView { state: apply_rounds(v.state, rounds), ..v1 };
    assert(end[0] == RunEvent::StrategyCompleted);
    assert(end.drop_first() =~= Seq::<RunEvent>::empty());
    assert(replay(v2, RunPhase::Completed, Seq::<RunEvent>::empty()) == (v2, RunPhase::Completed));
    assert(replay(v2, RunPhase::Tracing, end) == (v2, RunPhase::Completed));
}

/// A tracer just made that runs successfully through `rounds` ends with a
/// trace state that keeps exactly the last `max_samples` of them, counts
/// them all, and records no error.
pub proof fn lemma_new_tracer_run_keeps_last_rounds(
    settings: TracerSettings,
    addr: IpAddr,
    rounds: Seq<TracerRound>,
)
    ensures
        ({
            let (v, phase) = replay(
                initial_view(settings),
                RunPhase::ResolvingSource,
                successful_run(initial_view(settings), addr, rounds),
            );
            &&& phase == RunPhase::Completed
            &&& v.src == Some(addr)
            &&& v.state.samples == retained(rounds, settings.max_samples as nat)
            &&& v.state.round_count == (if rounds.len() < u64::MAX { rounds.len() as int } else { u64::MAX as int })
            &&& v.state.error is None
        }),
{
    lemma_successful_run(initial_view(settings), addr, rounds);
    lemma_fresh_state_keeps_last_rounds(state_config_of(settings.max_flows, settings.max_samples), rounds);
}

/// An operation on a tracer: a step of a run, a completed round taken in
/// with its handler, or clearing the trace state.
pub enum TracerOp {
    Step(RunPhase, RunEvent),
    TakeRound(TracerRound),
    Clear,
}

/// The tracer after `op`.
pub open spec fn apply_op(v: TracerView, op: TracerOp) -> TracerView {
    match op {
        TracerOp::Step(phase, event) => next_view(v, phase, event),
        TracerOp::TakeRound(round) => next_view(v, RunPhase::Tracing, RunEvent::RoundCompleted(round)),
        TracerOp::Clear => cleared(v),
    }
}

/// The tracer after the operations `ops`, first to last.
pub open spec fn apply_ops(v: TracerView, ops: Seq<TracerOp>) -> TracerView
    decreases ops.len(),
{
    if ops.len() == 0 {
        v
    } else {
        apply_ops(apply_op(v, ops[0]), ops.drop_first())
    }
}

/// The address of the first source resolution among `ops`, if any.
pub open spec fn first_resolved(ops: Seq<TracerOp>) -> Option<IpAddr>
    decreases ops.len(),
{
    if ops.len() == 0 {
        None
    } else {
        match ops[0] {
            TracerOp::Step(RunPhase::ResolvingSource, RunEvent::SourceResolved(addr)) => Some(addr),
            _ => first_resolved(ops.drop_first()),
        }
    }
}

/// Over any history of runs, rounds and clears, the resolved source address
/// of a tracer is the one it already held, else the first one that a run
/// resolved: once set, it never changes.
pub proof fn lemma_source_over_history(v: TracerView, ops: Seq<TracerOp>)
    ensures
        apply_ops(v, ops).src == (if v.src is Some { v.src } else { first_resolved(ops) }),
    decreases ops.len(),
{
    if ops.len() > 0 {
        let v1 = apply_op(v, ops[0]);
        lemma_source_over_history(v1, ops.drop_first());
    }
}

/// A tracer just made holds no resolved source address until a run resolves
/// one; from then on it holds the first address resolved, whatever runs,
/// rounds and clears follow.
pub proof fn lemma_new_tracer_source(settings: TracerSettings, ops: Seq<TracerOp>)
    ensures
        apply_ops(initial_view(settings), ops).src == first_resolved(ops),
{
    lemma_source_over_history(initial_view(settings), ops);
}

/// Whether `actions` are the actions of a run in `phase` of tracer `v` as
/// the events `events` arrive, one action for each event.
pub open spec fn is_run_trace(
    v: TracerView,
    phase: RunPhase,
    events: Seq<RunEvent>,
    actions: Seq<RunAction>,
) -> bool
    decreases events.len(),
{
    &&& actions.len() == events.len()
    &&& events.len() > 0 ==> {
        &&& is_next_action(v, phase, events[0], actions[0])
        &&& is_run_trace(
            next_view(v, phase, events[0]),
            next_phase(v, phase, events[0]),
            events.drop_first(),
            actions.drop_first(),
        )
    }
}

/// The first action of a run is fixed by the tracer (texts taken by content).
pub proof fn lemma_start_deterministic(v: TracerView, a1: RunAction, a2: RunAction)
    requires
        is_start_action(v, a1),
        is_start_action(v, a2),
    ensures
        a1@ == a2@,
{
}

/// The action that follows an event is fixed by the tracer, the phase and
/// the event (texts taken by content).
pub proof fn lemma_step_deterministic(
    v: TracerView,
    phase: RunPhase,
    event: RunEvent,
    a1: RunAction,
    a2: RunAction,
)
    requires
        is_next_action(v, phase, event, a1),
        is_next_action(v, phase, event, a2),
    ensures
        a1@ == a2@,
{
}

/// Two runs of equal tracers that start in the same phase and meet the same
/// events give the same actions (texts taken by content); the phase they
/// end in and the tracer they leave are `replay` of the same inputs.
pub proof fn lemma_runs_deterministic(
    v: TracerView,
    phase: RunPhase,
    events: Seq<RunEvent>,
    actions1: Seq<RunAction>,
    actions2: Seq<RunAction>,
)
    requires
        is_run_trace(v, phase, events, actions1),
        is_run_trace(v, phase, events, actions2),
    ensures
        actions1.len() == actions2.len(),
        forall|i: int| 0 <= i < actions1.len() ==> #[trigger] actions1[i]@ == actions2[i]@,
    decreases events.len(),
{
    if events.len() > 0 {
        lemma_step_deterministic(v, phase, events[0], actions1[0], actions2[0]);
        lemma_runs_deterministic(
            next_view(v, phase, events[0]),
            next_phase(v, phase, events[0]),
            events.drop_first(),
            actions1.drop_first(),
            actions2.drop_first(),
        );
        assert forall|i: int| 0 <= i < actions1.len() implies #[trigger] actions1[i]@ == actions2[i]@ by {
            if i > 0 {
                assert(actions1[i] == actions1.drop_first()[i - 1]);
                assert(actions2[i] == actions2.drop_first()[i - 1]);
            }
        }
    }
}

/// The channel that a run connects, once it has resolved the source address
/// `addr`, carries that address and every channel setting of the tracer
/// unchanged.
pub proof fn lemma_channel_carries_settings(v: TracerView, addr: IpAddr, a: RunAction)
    requires
        v.src is None,
        is_next_action(v, RunPhase::ResolvingSource, RunEvent::SourceResolved(addr), a),
    ensures
        a matches RunAction::Connect(c) && {
            &&& c.source_addr == addr
            &&& c.privilege_mode == v.settings.privilege_mode
            &&& c.protocol == v.settings.protocol
            &&& c.target_addr == v.settings.target_addr
            &&& c.packet_size == v.settings.packet_size
            &&& c.payload_pattern == v.settings.payload_pattern
            &&& c.initial_sequence == v.settings.initial_sequence
            &&& c.tos == v.settings.tos
            &&& c.icmp_extension_parse_mode == v.settings.icmp_extension_parse_mode
            &&& c.read_timeout == v.settings.read_timeout
            &&& c.tcp_connect_timeout == v.settings.tcp_connect_timeout
        },
{
}

/// The strategy that a run starts, whether or not privileges are dropped
/// first, carries every strategy setting of the tracer unchanged.
pub proof fn lemma_strategy_carries_settings(v: TracerView, phase: RunPhase, event: RunEvent, a: RunAction)
    requires
        (phase == RunPhase::Connecting && event == RunEvent::ChannelConnected && !v.settings.drop_privileges)
            || (phase == RunPhase::DroppingPrivileges && event == RunEvent::PrivilegesDropped),
        is_next_action(v, phase, event, a),
    ensures
        a matches RunAction::RunStrategy(c) && {
            &&& c.target_addr == v.settings.target_addr
            &&& c.protocol == v.settings.protocol
            &&& c.trace_identifier == v.settings.trace_identifier
            &&& c.max_rounds == v.settings.max_rounds
            &&& c.first_ttl == v.settings.first_ttl
            &&& c.max_ttl == v.settings.max_ttl
            &&& c.grace_duration == v.settings.grace_duration
            &&& c.max_inflight == v.settings.max_inflight
            &&& c.initial_sequence == v.settings.initial_sequence
            &&& c.multipath_strategy == v.settings.multipath_strategy
            &&& c.port_direction == v.settings.port_direction
            &&& c.min_round_duration == v.settings.min_round_duration
            &&& c.max_round_duration == v.settings.max_round_duration
        },
{
}

/// A tracer just made reports exactly the settings it was made with, holds
/// no resolved source address, and its trace state is empty, with the
/// tracer's `max_samples` and `max_flows` as its limits.
pub proof fn lemma_new_tracer_reports_settings(s: TracerSettings)
    ensures
        initial_view(s).settings == s,
        initial_view(s).src is None,
        initial_view(s).state.config.max_samples == s.max_samples,
        initial_view(s).state.config.max_flows == s.max_flows,
        initial_view(s).state.samples.len() == 0,
        initial_view(s).state.round_count == 0,
        initial_view(s).state.error is None,
{
}

/// A cleared tracer keeps its settings and source address, and its trace
/// state is empty, with the tracer's `max_samples` and `max_flows` as limits.
pub proof fn lemma_cleared_state_limits(v: TracerView)
    ensures
        cleared(v).settings == v.settings,
        cleared(v).src == v.src,
        cleared(v).state.config.max_samples == v.settings.max_samples,
        cleared(v).state.config.max_flows == v.settings.max_flows,
        cleared(v).state.samples.len() == 0,
        cleared(v).state.round_count == 0,
        cleared(v).state.error is None,
{
}

/// A run of a tracer configured with a source address starts by validating
/// that address, whatever the interface; only a tracer configured without
/// one starts by discovering an address that reaches its target, through
/// its port direction and interface.
pub proof fn lemma_start_validates_configured_source(v: TracerView, a: RunAction)
    requires
        is_start_action(v, a),
    ensures
        v.settings.source_addr matches Some(x) ==> a == RunAction::ValidateSource(x),
        v.settings.source_addr is None ==> (a matches RunAction::DiscoverSource {
            target_addr,
            port_direction,
            interface,
        } && target_addr == v.settings.target_addr && port_direction == v.settings.port_direction
            && match interface {
            Some(i) => v.settings.interface == Some(i@),
            None => v.settings.interface is None,
        }),
{
}

/// Taking in a round keeps the last rounds of the kept ones followed by the
/// new one: as many as fit in the limit, oldest first, and counts it; the
/// limits and the error stay.
pub proof fn lemma_round_kept_last(s: TraceStateView, round: TracerRound)
    ensures
        ({
            let full = s.samples.push(round);
            let out = after_round(s, round).samples;
            &&& out.len() == (if full.len() <= s.config.max_samples { full.len() as int } else {
                s.config.max_samples as int
            })
            &&& forall|i: int| 0 <= i < out.len() ==> #[trigger] out[i] == full[full.len() - out.len() + i]
        }),
        s.round_count < u64::MAX ==> after_round(s, round).round_count == s.round_count + 1,
        after_round(s, round).config == s.config,
        after_round(s, round).error == s.error,
{
}

/// Recording an error sets exactly that error and nothing else.
pub proof fn lemma_error_recorded(s: TraceStateView, error: Option<Seq<char>>)
    ensures
        with_error(s, error).error == error,
        with_error(s, error).samples == s.samples,
        with_error(s, error).round_count == s.round_count,
        with_error(s, error).config == s.config,
{
}

/// A fresh state with limits `config` keeps no round, counts none and
/// records no error.
pub proof fn lemma_fresh_state_empty(config: StateConfig)
    ensures
        fresh_state(config).config == config,
        fresh_state(config).samples.len() == 0,
        fresh_state(config).round_count == 0,
        fresh_state(config).error is None,
{
}

/// The text of a present string is its content; an absent string has none.
pub proof fn lemma_opt_text(s: Option<String>)
    ensures
        s matches Some(t) ==> opt_text(s) == Some(t@),
        s is None ==> opt_text(s) is None,
{
}

/// The text of an error is the string it carries, whatever its kind; the
/// error of a second source resolution reads "failed to set source_addr".
pub proof fn lemma_error_text(s: String)
    ensures
        TracerError::Other(s).text() == s@,
        TracerError::Operation(s).text() == s@,
        source_taken_text() == "failed to set source_addr"@,
{
}

/// A run whose strategy completes finishes without error, and the tracer is
/// left as it was.
pub proof fn lemma_strategy_completion_succeeds(v: TracerView, a: RunAction)
    requires
        is_next_action(v, RunPhase::Tracing, RunEvent::StrategyCompleted, a),
    ensures
        a == RunAction::Finish(Ok(())),
        next_phase(v, RunPhase::Tracing, RunEvent::StrategyCompleted) == RunPhase::Completed,
        next_view(v, RunPhase::Tracing, RunEvent::StrategyCompleted) == v,
{
}

/// While tracing, a completed round goes into the trace state, oldest
/// rounds leaving beyond the limit, and the run goes on with no new action;
/// nothing else of the tracer changes.
pub proof fn lemma_round_recorded(v: TracerView, round: TracerRound, a: RunAction)
    requires
        is_next_action(v, RunPhase::Tracing, RunEvent::RoundCompleted(round), a),
    ensures
        a == RunAction::Continue,
        next_phase(v, RunPhase::Tracing, RunEvent::RoundCompleted(round)) == RunPhase::Tracing,
        next_view(v, RunPhase::Tracing, RunEvent::RoundCompleted(round)).settings == v.settings,
        next_view(v, RunPhase::Tracing, RunEvent::RoundCompleted(round)).src == v.src,
        v.state.config.max_samples > 0 ==> next_view(
            v,
            RunPhase::Tracing,
            RunEvent::RoundCompleted(round),
        ).state.samples.last() == round,
        v.state.round_count < u64::MAX ==> next_view(
            v,
            RunPhase::Tracing,
            RunEvent::RoundCompleted(round),
        ).state.round_count == v.state.round_count + 1,
        next_view(v, RunPhase::Tracing, RunEvent::RoundCompleted(round)).state.error == v.state.error,
{
}

} // verus!
