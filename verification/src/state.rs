use vstd::prelude::*;

use crate::types::TracerRound;

verus! {

/// The limits a trace state is made with.
#[derive(Debug, Clone, Copy, PartialEq, Eq)]
pub struct StateConfig {
    /// How many of the most recent rounds the state keeps.
    pub max_samples: usize,
    /// How many flows the state tracks.
    pub max_flows: usize,
}

/// What a trace state holds: its limits, the rounds it keeps (oldest first),
/// how many rounds it has taken in, and the error of the trace if one was
/// recorded.
pub struct TraceStateView {
    pub config: StateConfig,
    pub samples: Seq<TracerRound>,
    pub round_count: u64,
    pub error: Option<Seq<char>>,
}

/// The text held by an optional string.
pub open spec fn opt_text(s: Option<String>) -> Option<Seq<char>> {
    match s {
        Some(t) => Some(t@),
        None => None,
    }
}

/// The last `max` items of `samples` (all of them when there are no more than `max`).
pub open spec fn retained(samples: Seq<TracerRound>, max: nat) -> Seq<TracerRound> {
    if samples.len() <= max {
        samples
    } else {
        samples.subrange(samples.len() - max, samples.len() as int)
    }
}

/// The state of a trace that has taken in no round and recorded no error.
pub open spec fn fresh_state(config: StateConfig) -> TraceStateView {
    TraceStateView { config, samples: Seq::empty(), round_count: 0, error: None }
}

/// The state after `s` takes in `round`: the round joins the kept rounds,
/// the oldest beyond the limit leave, and the round count goes up by one
/// (staying at its largest value once there).
pub open spec fn after_round(s: TraceStateView, round: TracerRound) -> TraceStateView {
    TraceStateView {
        samples: retained(s.samples.push(round), s.config.max_samples as nat),
        round_count: if s.round_count < u64::MAX { (s.round_count + 1) as u64 } else { s.round_count },
        ..s
    }
}

/// The state after `s` records `error` (or forgets its error, for `None`).
pub open spec fn with_error(s: TraceStateView, error: Option<Seq<char>>) -> TraceStateView {
    TraceStateView { error, ..s }
}

/// The state of a trace, built up from the rounds that the tracer completes.
#[derive(Debug, Clone)]
pub struct TraceState {
    config: StateConfig,
    samples: Vec<TracerRound>,
    round_count: u64,
    error: Option<String>,
}

impl View for TraceState {
    type V = TraceStateView;

    closed spec fn view(&self) -> TraceStateView {
        TraceStateView {
            config: self.config,
            samples: self.samples@,
            round_count: self.round_count,
            error: opt_text(self.error),
        }
    }
}

impl TraceState {
    /// A fresh state with the given limits.
    pub fn new(config: StateConfig) -> (r: TraceState)
        ensures
            r@ == fresh_state(config),
    {
        TraceState { config, samples: Vec::new(), round_count: 0, error: None }
    }

    /// Takes in a completed round.
    pub fn update_from_round(&mut self, round: &TracerRound)
        ensures
            final(self)@ == after_round(old(self)@, *round),
    {
        let ghost full = old(self).samples@.push(*round);
        self.samples.push(*round);
        if self.round_count < u64::MAX {
            self.round_count = self.round_count + 1;
        }
        let max: usize = self.config.max_samples;
        let ghost count = self.round_count;
        let ghost error = self.error;
        let ghost mut dropped: int = 0;
        while self.samples.len() > max
            invariant
                max == self.config.max_samples,
                self.config == old(self).config,
                self.round_count == count,
                self.error == error,
                0 <= dropped <= full.len(),
                self.samples@ == full.subrange(dropped, full.len() as int),
                self.samples@.len() > max ==> dropped < full.len() - max,
                self.samples@.len() <= max ==> dropped == (if full.len() <= max { 0 } else { full.len() - max }),
            decreases self.samples@.len(),
        {
            self.samples.remove(0);
            proof {
                dropped = dropped + 1;
            }
        }
        assert(self.samples@ == retained(full, max as nat));
    }

    /// Records the error of the trace, or forgets it for `None`.
    pub fn set_error(&mut self, error: Option<String>)
        ensures
            final(self)@ == with_error(old(self)@, opt_text(error)),
    {
        self.error = error;
    }

    /// A copy of this state.
    pub fn duplicate(&self) -> (r: TraceState)
        ensures
            r@ == self@,
    {
        let error = match &self.error {
            Some(e) => Some(e.clone()),
            None => None,
        };
        let mut samples: Vec<TracerRound> = Vec::new();
        let n: usize = self.samples.len();
        for i in 0..n
            invariant
                n == self.samples@.len(),
                samples@ == self.samples@.subrange(0, i as int),
        {
            samples.push(self.samples[i]);
        }
        assert(samples@ == self.samples@);
        TraceState { config: self.config, samples, round_count: self.round_count, error }
    }

    /// The limits this state was made with.
    pub fn config(&self) -> (r: StateConfig)
        ensures
            r == self@.config,
    {
        self.config
    }

    /// The rounds the state keeps, oldest first.
    pub fn samples(&self) -> (r: &[TracerRound])
        ensures
            r@ == self@.samples,
    {
        self.samples.as_slice()
    }

    /// How many rounds the state has taken in.
    pub fn round_count(&self) -> (r: u64)
        ensures
            r == self@.round_count,
    {
        self.round_count
    }

    /// The recorded error of the trace, if any.
    pub fn error(&self) -> (r: Option<&str>)
        ensures
            match r {
                Some(t) => self@.error == Some(t@),
                None => self@.error is None,
            },
    {
        match &self.error {
            Some(e) => Some(e.as_str()),
            None => None,
        }
    }
}

} // verus!
