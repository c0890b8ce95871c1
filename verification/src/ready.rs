//! Readiness sets, which the `mio` crate provides.
use mio::Ready;
use vstd::prelude::*;

verus! {

/// The type `mio::Ready`: a set of readiness events.
#[verifier::external_type_specification]
#[verifier::external_body]
pub struct ExReady(mio::Ready);

/// The events that a readiness set holds, each by the position of its bit.
pub uninterp spec fn ready_events(ready: Ready) -> Set<int>;

/// The event of being readable.
pub open spec fn read_event() -> int {
    0
}

/// The event of being writable.
pub open spec fn write_event() -> int {
    1
}

/// Only the two events that sockets report are in the set.
pub open spec fn socket_events(events: Set<int>) -> bool {
    events.subset_of(set![read_event(), write_event()])
}

/// `Ready::empty` returns the set without events.
pub assume_specification[ Ready::empty ]() -> (ready: Ready)
    ensures
        ready_events(ready) == Set::<int>::empty(),
;

/// `Ready::readable` returns the set whose one event is the lowest bit.
pub assume_specification[ Ready::readable ]() -> (ready: Ready)
    ensures
        ready_events(ready) == set![read_event()],
;

/// `Ready::writable` returns the set whose one event is the second bit.
pub assume_specification[ Ready::writable ]() -> (ready: Ready)
    ensures
        ready_events(ready) == set![write_event()],
;

/// The operator `|` of `Ready`: the bits of either operand.
#[verifier::external_body]
pub(crate) fn ready_or(a: Ready, b: Ready) -> (ready: Ready)
    ensures
        ready_events(ready) == ready_events(a).union(ready_events(b)),
{
    a | b
}

/// The operator `&` of `Ready`: the bits of both operands.
#[verifier::external_body]
fn ready_and(a: Ready, b: Ready) -> (ready: Ready)
    ensures
        ready_events(ready) == ready_events(a).intersect(ready_events(b)),
{
    a & b
}

/// The operator `!` of `Ready`: every bit of a `usize` that the operand has not.
#[verifier::external_body]
fn ready_not(a: Ready) -> (ready: Ready)
    ensures
        ready_events(ready) == Set::new(
            |i: int| 0 <= i < usize::BITS && !ready_events(a).contains(i),
        ),
{
    !a
}

/// `a` without the events of `b`.
pub(crate) fn without_events(a: Ready, b: Ready) -> (ready: Ready)
    requires
        socket_events(ready_events(a)),
    ensures
        ready_events(ready) == ready_events(a).difference(ready_events(b)),
{
    let ready = ready_and(a, ready_not(b));
    ready
}

} // verus!
