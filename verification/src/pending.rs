//! The per-CPU pending-unlock list.
//!
//! The list records, across a register transfer, which processes' saved-context
//! locks the transfer left held so that the post-switch trampoline can release
//! them. It is kept in an `arrayvec::ArrayVec` of capacity 2, exactly the two
//! slots a transfer needs (the outgoing and the incoming process); the calls
//! into that crate stand behind the trusted wrappers below.

use vstd::prelude::*;
use arrayvec::ArrayVec;

verus! {

#[verifier::external_type_specification]
#[verifier::external_body]
#[verifier::reject_recursive_types(T)]
pub struct ExArrayVec<T, const CAP: usize>(ArrayVec<T, CAP>);

/// The entries a pending-unlock list holds, oldest first.
pub uninterp spec fn pending_seq(v: ArrayVec<usize, 2>) -> Seq<usize>;

/// Relies on `arrayvec::ArrayVec::new`: a freshly made vector is empty.
#[verifier::external_body]
pub(crate) fn pending_new() -> (v: ArrayVec<usize, 2>)
    ensures
        pending_seq(v) == Seq::<usize>::empty(),
{
    ArrayVec::new()
}

/// Relies on `arrayvec::ArrayVec::push`: appends one element at the end.
/// It panics only on a full vector, which the bound here rules out.
#[verifier::external_body]
pub(crate) fn pending_push(v: &mut ArrayVec<usize, 2>, x: usize)
    requires
        pending_seq(*old(v)).len() < 2,
    ensures
        pending_seq(*final(v)) == pending_seq(*old(v)).push(x),
{
    v.push(x)
}

/// Relies on `arrayvec::ArrayVec::drain`: removing the full range empties the
/// vector and yields the removed elements front to back.
#[verifier::external_body]
pub(crate) fn pending_drain(v: &mut ArrayVec<usize, 2>) -> (r: Vec<usize>)
    ensures
        r@ == pending_seq(*old(v)),
        pending_seq(*final(v)) == Seq::<usize>::empty(),
{
    v.drain(..).collect()
}

} // verus!
