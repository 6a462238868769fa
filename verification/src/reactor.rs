//! The reactor's vocabulary: how the bridge's directions of interest map to
//! the reactor's event sets and back, and the reactor's configuration.

use crate::message::Interest;
use crate::resolver::StartPlan;
use rotor::Config as RotorConfig;
use vstd::prelude::*;

verus! {

/// `rotor::EventSet`, the reactor's set of event kinds. Proofs see
/// nothing of a value but what `event_kinds` says it holds.
#[verifier::external_type_specification]
#[verifier::external_body]
pub struct ExEventSet(rotor::EventSet);

/// `rotor::Config`, the reactor's configuration. Proofs see nothing
/// inside a value; it is only carried to the reactor.
#[verifier::external_type_specification]
#[verifier::external_body]
pub struct ExLoopConfig(RotorConfig);

/// The kind "readable", by the reactor's flag for it.
pub const READABLE: usize = 1;

/// The kind "writable", by the reactor's flag for it.
pub const WRITABLE: usize = 2;

/// The kinds that a `rotor::EventSet` holds, each by its flag. Nothing is
/// assumed of it but what the wrappers below say: what the three
/// constructors and `|` put into a set, and what the two tests find in it.
pub uninterp spec fn event_kinds(events: rotor::EventSet) -> Set<usize>;

/// The configuration that `loop_config_with` builds for room for `slab`
/// machines and `notify` pending wakeup signals. Nothing is assumed of it
/// but that it depends on the two numbers alone.
pub uninterp spec fn loop_config_for(slab: usize, notify: usize) -> RotorConfig;

/// `rotor::EventSet::none` gives the set without any kind.
#[verifier::external_body]
fn events_none() -> (e: rotor::EventSet)
    ensures
        event_kinds(e) == Set::<usize>::empty(),
{
    rotor::EventSet::none()
}

/// `rotor::EventSet::readable` gives the set that holds "readable" alone.
#[verifier::external_body]
fn events_readable() -> (e: rotor::EventSet)
    ensures
        event_kinds(e) == Set::<usize>::empty().insert(READABLE),
{
    rotor::EventSet::readable()
}

/// `rotor::EventSet::writable` gives the set that holds "writable" alone.
#[verifier::external_body]
fn events_writable() -> (e: rotor::EventSet)
    ensures
        event_kinds(e) == Set::<usize>::empty().insert(WRITABLE),
{
    rotor::EventSet::writable()
}

/// `|` on `rotor::EventSet` gives the union of the two sets.
#[verifier::external_body]
fn events_union(a: rotor::EventSet, b: rotor::EventSet) -> (e: rotor::EventSet)
    ensures
        event_kinds(e) == event_kinds(a).union(event_kinds(b)),
{
    a | b
}

/// `rotor::EventSet::is_readable` says whether the set holds "readable".
#[verifier::external_body]
fn events_is_readable(e: &rotor::EventSet) -> (b: bool)
    ensures
        b == event_kinds(*e).contains(READABLE),
{
    e.is_readable()
}

/// `rotor::EventSet::is_writable` says whether the set holds "writable".
#[verifier::external_body]
fn events_is_writable(e: &rotor::EventSet) -> (b: bool)
    ensures
        b == event_kinds(*e).contains(WRITABLE),
{
    e.is_writable()
}

/// `rotor::Config::new`, then `slab_capacity` on the result and
/// `notify_capacity` on its `mio` part: a fresh configuration with the two
/// capacities set. The three only fill in fields, so the result depends on
/// nothing but the two numbers; that is all the contract claims.
#[verifier::external_body]
fn loop_config_with(slab: usize, notify: usize) -> (c: RotorConfig)
    ensures
        c == loop_config_for(slab, notify),
{
    let mut c = RotorConfig::new();
    c.slab_capacity(slab);
    c.mio().notify_capacity(notify);
    c
}

/// The kinds that stand for the directions of `interest`.
pub open spec fn interest_kinds(interest: Interest) -> Set<usize> {
    let none = Set::<usize>::empty();
    let r = if interest.readable {
        none.insert(READABLE)
    } else {
        none
    };
    if interest.writable {
        r.insert(WRITABLE)
    } else {
        r
    }
}

/// The directions that the kinds of `kinds` stand for.
pub open spec fn kinds_interest(kinds: Set<usize>) -> Interest {
    Interest { readable: kinds.contains(READABLE), writable: kinds.contains(WRITABLE) }
}

/// The event set under which a socket is registered for `interest`.
pub fn interest_events(interest: Interest) -> (e: rotor::EventSet)
    ensures
        event_kinds(e) == interest_kinds(interest),
{
    let mut e = events_none();
    if interest.readable {
        e = events_union(e, events_readable());
    }
    if interest.writable {
        e = events_union(e, events_writable());
    }
    proof {
        assert(event_kinds(e) =~= interest_kinds(interest));
    }
    e
}

/// The directions in which the reactor found a socket ready.
pub fn events_interest(e: &rotor::EventSet) -> (interest: Interest)
    ensures
        interest == kinds_interest(event_kinds(*e)),
{
    Interest { readable: events_is_readable(e), writable: events_is_writable(e) }
}

/// The reactor's configuration for a start plan.
pub fn loop_config(plan: &StartPlan) -> (c: RotorConfig)
    ensures
        c == loop_config_for(plan.slab_capacity, plan.notify_capacity),
{
    loop_config_with(plan.slab_capacity, plan.notify_capacity)
}

} // verus!
