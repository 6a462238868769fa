//! The messages that travel from caller threads and from the resolution
//! engine to the reactor thread.

use vstd::prelude::*;

verus! {

/// Identity of a socket, as the resolution engine and the reactor know it.
pub type Socket = i64;

/// The identity that stands for "no socket". It is never registered.
pub const SOCKET_BAD: i64 = -1;

/// The directions in which a socket is watched.
#[derive(Clone, Copy, Debug, PartialEq, Eq, Structural)]
pub struct Interest {
    pub readable: bool,
    pub writable: bool,
}

impl Interest {
    /// No direction at all: the engine is done with the socket.
    pub open spec fn is_none(&self) -> bool {
        !self.readable && !self.writable
    }

    /// Whether no direction is set.
    pub fn is_empty(&self) -> (b: bool)
        ensures
            b == self.is_none(),
    {
        !self.readable && !self.writable
    }
}

/// A host can be looked up if its name is not empty.
pub open spec fn valid_host(host: Seq<char>) -> bool {
    host.len() > 0
}

/// Whether `host` can be looked up.
pub fn is_valid_host(host: &str) -> (ok: bool)
    ensures
        ok == valid_host(host@),
{
    !host.is_empty()
}

/// Why a request ended without an address.
#[derive(Clone, Copy, Debug, PartialEq, Eq, Structural)]
pub enum ResolveError {
    /// The host cannot be resolved; an empty name is such a host.
    Unresolvable,
    /// Every retry timed out.
    RetriesExhausted,
    /// The engine reported some other failure.
    Engine,
}

/// How the engine said that a lookup failed.
#[derive(Clone, Copy, Debug, PartialEq, Eq, Structural)]
pub enum EngineFailure {
    /// The name does not exist.
    NotFound,
    /// The name exists but has no address.
    NoData,
    /// The name is malformed.
    BadName,
    /// No server answered within the tries allowed.
    TimedOut,
    /// Anything else.
    Other,
}

/// The error that a request's callback gets for the engine's failure.
pub open spec fn resolve_error(failure: EngineFailure) -> ResolveError {
    match failure {
        EngineFailure::NotFound => ResolveError::Unresolvable,
        EngineFailure::NoData => ResolveError::Unresolvable,
        EngineFailure::BadName => ResolveError::Unresolvable,
        EngineFailure::TimedOut => ResolveError::RetriesExhausted,
        EngineFailure::Other => ResolveError::Engine,
    }
}

/// What a request's callback gets for the engine's answer `found`: the
/// first address if there is one, and an error if the lookup failed or
/// gave no address.
pub open spec fn completion_of<A>(found: Result<Option<A>, EngineFailure>) -> Result<
    A,
    ResolveError,
> {
    match found {
        Ok(Some(address)) => Ok(address),
        Ok(None) => Err(ResolveError::Unresolvable),
        Err(failure) => Err(resolve_error(failure)),
    }
}

/// What a request's callback is to be called with, given the engine's
/// answer: the first address that it found, or nothing, or its failure.
pub fn complete<A>(found: Result<Option<A>, EngineFailure>) -> (r: Result<A, ResolveError>)
    ensures
        r == completion_of(found),
{
    match found {
        Ok(Some(address)) => Ok(address),
        Ok(None) => Err(ResolveError::Unresolvable),
        Err(EngineFailure::TimedOut) => Err(ResolveError::RetriesExhausted),
        Err(EngineFailure::Other) => Err(ResolveError::Engine),
        Err(_) => Err(ResolveError::Unresolvable),
    }
}

/// One unit of work for the reactor thread. `C` is the completion callback
/// of a request; the bridge moves it and never looks inside.
#[derive(Debug, PartialEq, Eq)]
pub enum Msg<C> {
    /// Look `host` up and hand the result to `cb`.
    Resolve { host: String, cb: C },
    /// The engine wants `sock` watched in the given directions, or, with
    /// both flags false, not watched any more.
    SocketEvent { sock: Socket, readable: bool, writable: bool },
    /// Stop the reactor.
    Quit,
}

} // verus!
