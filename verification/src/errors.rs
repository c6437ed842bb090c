//! The kinds of failure that cross the core's boundaries, and what becomes
//! of each when it reaches the one place where failures turn into responses.

use crate::buffer::LostDaemon;
use crate::cache::NoCapacity;
use crate::lock::Poisoned;
use crate::router::NotRecognized;
use crate::svc::load_shed::Overloaded;
use crate::timeout::Elapsed;
use vstd::prelude::*;

verus! {

/// A failure, by its kind.
#[derive(Clone, Debug)]
pub enum ErrorKind {
    /// Discovery refused to resolve the target.
    DiscoveryRejected,
    /// A cache of this capacity was full.
    NoCapacity(usize),
    /// Too many requests were under way.
    Overloaded,
    /// A retry was due and the budget had none left.
    BudgetExhausted,
    /// The daemon of a buffer is gone.
    LostDaemon,
    /// A lock was poisoned by an earlier failure.
    Poisoned,
    /// The request has no routing key.
    NotRecognized,
    /// An answer did not come in time.
    Timeout,
    /// No connection could be made.
    ConnectFailed,
    /// Any other failure, by its message.
    Inner(String),
}

/// What is done about a failure.
#[derive(Clone, Copy, Debug, PartialEq, Eq, Structural)]
pub enum Synthesis {
    /// A response with this status and without a body is made up.
    Respond(u16),
    /// The last response from upstream is passed on.
    PassThrough,
    /// The connection is torn down; the process goes on.
    TearDown,
}

/// What is done about a failure of each kind.
pub open spec fn synthesis_of(kind: ErrorKind) -> Synthesis {
    match kind {
        ErrorKind::Overloaded => Synthesis::Respond(503),
        ErrorKind::BudgetExhausted => Synthesis::PassThrough,
        ErrorKind::Timeout => Synthesis::Respond(504),
        ErrorKind::ConnectFailed => Synthesis::Respond(502),
        ErrorKind::NotRecognized => Synthesis::Respond(502),
        ErrorKind::NoCapacity(_) => Synthesis::Respond(502),
        ErrorKind::Poisoned => Synthesis::TearDown,
        ErrorKind::LostDaemon => Synthesis::TearDown,
        ErrorKind::DiscoveryRejected => Synthesis::Respond(502),
        ErrorKind::Inner(_) => Synthesis::Respond(502),
    }
}

/// What a log line says of a failure of each kind.
pub open spec fn message_of(kind: ErrorKind) -> Seq<char> {
    match kind {
        ErrorKind::DiscoveryRejected => "discovery rejected"@,
        ErrorKind::NoCapacity(_) => "router capacity reached"@,
        ErrorKind::Overloaded => "service overloaded"@,
        ErrorKind::BudgetExhausted => "retry budget exhausted"@,
        ErrorKind::LostDaemon => "buffer daemon task was lost"@,
        ErrorKind::Poisoned => "lock poisoned"@,
        ErrorKind::NotRecognized => "request not recognized"@,
        ErrorKind::Timeout => "request timed out"@,
        ErrorKind::ConnectFailed => "connect failed"@,
        ErrorKind::Inner(inner) => inner@,
    }
}

impl ErrorKind {
    /// What is done about this failure.
    pub fn synthesize(&self) -> (synthesis: Synthesis)
        ensures
            synthesis == synthesis_of(*self),
    {
        match self {
            ErrorKind::Overloaded => Synthesis::Respond(503),
            ErrorKind::BudgetExhausted => Synthesis::PassThrough,
            ErrorKind::Timeout => Synthesis::Respond(504),
            ErrorKind::Poisoned => Synthesis::TearDown,
            ErrorKind::LostDaemon => Synthesis::TearDown,
            _ => Synthesis::Respond(502),
        }
    }

    /// What a log line says of this failure.
    pub fn message(&self) -> (text: String)
        ensures
            text@ == message_of(*self),
    {
        match self {
            ErrorKind::DiscoveryRejected => "discovery rejected".to_owned(),
            ErrorKind::NoCapacity(_) => "router capacity reached".to_owned(),
            ErrorKind::Overloaded => "service overloaded".to_owned(),
            ErrorKind::BudgetExhausted => "retry budget exhausted".to_owned(),
            ErrorKind::LostDaemon => "buffer daemon task was lost".to_owned(),
            ErrorKind::Poisoned => "lock poisoned".to_owned(),
            ErrorKind::NotRecognized => "request not recognized".to_owned(),
            ErrorKind::Timeout => "request timed out".to_owned(),
            ErrorKind::ConnectFailed => "connect failed".to_owned(),
            ErrorKind::Inner(inner) => inner.clone(),
        }
    }

    /// Whether this failure ends the connection it came up on.
    pub fn is_fatal_to_connection(&self) -> (fatal: bool)
        ensures
            fatal == (synthesis_of(*self) == Synthesis::TearDown),
    {
        match self {
            ErrorKind::Poisoned => true,
            ErrorKind::LostDaemon => true,
            _ => false,
        }
    }

    pub fn from_no_capacity(error: NoCapacity) -> (kind: ErrorKind)
        ensures
            kind == ErrorKind::NoCapacity(error.0),
    {
        ErrorKind::NoCapacity(error.0)
    }

    pub fn from_overloaded(error: Overloaded) -> (kind: ErrorKind)
        ensures
            kind == ErrorKind::Overloaded,
    {
        ErrorKind::Overloaded
    }

    pub fn from_lost_daemon(error: LostDaemon) -> (kind: ErrorKind)
        ensures
            kind == ErrorKind::LostDaemon,
    {
        ErrorKind::LostDaemon
    }

    pub fn from_poisoned(error: &Poisoned) -> (kind: ErrorKind)
        ensures
            kind == ErrorKind::Poisoned,
    {
        ErrorKind::Poisoned
    }

    pub fn from_not_recognized(error: NotRecognized) -> (kind: ErrorKind)
        ensures
            kind == ErrorKind::NotRecognized,
    {
        ErrorKind::NotRecognized
    }

    pub fn from_elapsed(error: Elapsed) -> (kind: ErrorKind)
        ensures
            kind == ErrorKind::Timeout,
    {
        ErrorKind::Timeout
    }
}

} // verus!
