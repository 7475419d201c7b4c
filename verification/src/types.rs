use vstd::prelude::*;

verus! {

/// Whether tracing runs with raw sockets (privileged) or without.
#[derive(Debug, Clone, Copy, PartialEq, Eq)]
pub enum PrivilegeMode {
    Privileged,
    Unprivileged,
}

/// The protocol of the probes.
#[derive(Debug, Clone, Copy, PartialEq, Eq)]
pub enum Protocol {
    Icmp,
    Udp,
    Tcp,
}

/// How multiple paths (ECMP) are handled.
#[derive(Debug, Clone, Copy, PartialEq, Eq)]
pub enum MultipathStrategy {
    Classic,
    Paris,
    Dublin,
}

/// Whether ICMP extensions in replies are parsed.
#[derive(Debug, Clone, Copy, PartialEq, Eq)]
pub enum IcmpExtensionParseMode {
    Disabled,
    Enabled,
}

/// A network port.
#[derive(Debug, Clone, Copy, PartialEq, Eq)]
pub struct Port(pub u16);

/// Which of the source and destination ports stay fixed.
#[derive(Debug, Clone, Copy, PartialEq, Eq)]
pub enum PortDirection {
    /// Neither port is fixed.
    Neither,
    FixedSrc(Port),
    FixedDest(Port),
    FixedBoth(Port, Port),
}

/// The size in bytes of a probe packet.
#[derive(Debug, Clone, Copy, PartialEq, Eq)]
pub struct PacketSize(pub u16);

/// The byte that fills a probe payload.
#[derive(Debug, Clone, Copy, PartialEq, Eq)]
pub struct PayloadPattern(pub u8);

/// The type-of-service (DSCP and ECN) byte of probes.
#[derive(Debug, Clone, Copy, PartialEq, Eq)]
pub struct TypeOfService(pub u8);

/// The identifier that marks the probes of one trace.
#[derive(Debug, Clone, Copy, PartialEq, Eq)]
pub struct TraceId(pub u16);

/// A time-to-live (hop limit).
#[derive(Debug, Clone, Copy, PartialEq, Eq)]
pub struct TimeToLive(pub u8);

/// The largest number of probes in flight at once.
#[derive(Debug, Clone, Copy, PartialEq, Eq)]
pub struct MaxInflight(pub u8);

/// A probe sequence number.
#[derive(Debug, Clone, Copy, PartialEq, Eq)]
pub struct Sequence(pub u16);

/// An IP address: an IPv4 address as its 32 bits, an IPv6 address as its 128 bits.
#[derive(Debug, Clone, Copy, PartialEq, Eq)]
pub enum IpAddr {
    V4(u32),
    V6(u128),
}

/// The largest number of tracing rounds to run; never zero.
#[derive(Debug, Clone, Copy, PartialEq, Eq)]
pub struct MaxRounds(usize);

impl MaxRounds {
    /// The number of rounds this limit stands for.
    pub closed spec fn count(self) -> nat {
        self.0 as nat
    }

    #[verifier::type_invariant]
    spec fn is_positive(self) -> bool {
        self.0 > 0
    }

    /// A limit of `rounds` rounds, or `None` when `rounds` is zero.
    pub fn new(rounds: usize) -> (r: Option<MaxRounds>)
        ensures
            rounds == 0 <==> r is None,
            r matches Some(m) ==> m.count() == rounds,
    {
        if rounds == 0 {
            None
        } else {
            Some(MaxRounds(rounds))
        }
    }

    /// The number of rounds.
    pub fn get(&self) -> (r: usize)
        ensures
            r == self.count(),
            r > 0,
    {
        proof {
            use_type_invariant(self);
        }
        self.0
    }
}

/// Why a tracing round ended.
#[derive(Debug, Clone, Copy, PartialEq, Eq)]
pub enum CompletionReason {
    TargetFound,
    RoundTimeLimitExceeded,
}

/// What a completed tracing round reports.
#[derive(Debug, Clone, Copy, PartialEq, Eq)]
pub struct TracerRound {
    pub largest_ttl: TimeToLive,
    pub reason: CompletionReason,
}

/// An error of a trace.
#[derive(Debug, Clone, PartialEq, Eq)]
pub enum TracerError {
    /// An error raised by the tracer itself, with its description.
    Other(String),
    /// An outside operation of a run failed (discovering or validating the
    /// source address, connecting the channel, dropping privileges, running
    /// the strategy); the text describes the failure.
    Operation(String),
}

/// What an error is: its kind and the text it carries.
pub enum TracerErrorView {
    Other(Seq<char>),
    Operation(Seq<char>),
}

impl View for TracerError {
    type V = TracerErrorView;

    open spec fn view(&self) -> TracerErrorView {
        match self {
            TracerError::Other(s) => TracerErrorView::Other(s@),
            TracerError::Operation(s) => TracerErrorView::Operation(s@),
        }
    }
}

impl TracerError {
    /// The description the error carries.
    pub open spec fn text(&self) -> Seq<char> {
        match self {
            TracerError::Other(s) => s@,
            TracerError::Operation(s) => s@,
        }
    }

    /// The description of the error, as recorded in a trace state.
    pub fn message(&self) -> (r: String)
        ensures
            r@ == self.text(),
    {
        match self {
            TracerError::Other(s) => s.clone(),
            TracerError::Operation(s) => s.clone(),
        }
    }
}

} // verus!
