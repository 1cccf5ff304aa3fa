//! The parse-decision step: given the bytes accumulated so far on one
//! connection, decide whether they form a complete request.
//!
//! The decision is a pure predicate over an immutable snapshot of the buffer,
//! kept behind the [`ParsePolicy`] trait so that real framing logic (a fixed
//! terminator, a length prefix) can replace the reference policy without
//! touching the read loop. The reference policy declares every buffer
//! complete.

use vstd::prelude::*;

verus! {

/// The reference completeness predicate: any byte sequence, including the
/// empty one, is a complete request.
pub open spec fn request_complete(bytes: Seq<u8>) -> bool {
    true
}

/// A request-framing policy: the read loop's sole termination condition.
///
/// `complete_spec` is the mathematical statement of the policy; `is_complete`
/// is its executable form, required to agree with it. Because the decision is
/// a function of the buffer contents alone, it is side-effect-free and
/// idempotent on a given buffer snapshot.
pub trait ParsePolicy: Sized {
    /// Which byte sequences the policy holds to be complete requests.
    spec fn complete_spec(&self, bytes: Seq<u8>) -> bool;

    /// Decide completeness of the current buffer contents.
    fn is_complete(&self, buffer: &Vec<u8>) -> (complete: bool)
        ensures
            complete == self.complete_spec(buffer@),
    ;
}

/// The reference policy: every buffer is already a complete request.
pub struct AlwaysComplete;

impl ParsePolicy for AlwaysComplete {
    open spec fn complete_spec(&self, bytes: Seq<u8>) -> bool {
        request_complete(bytes)
    }

    fn is_complete(&self, buffer: &Vec<u8>) -> (complete: bool) {
        parse_request(buffer)
    }
}

/// The reference parse decision: declares any received byte sequence complete.
pub fn parse_request(buffer: &Vec<u8>) -> (complete: bool)
    ensures
        complete == request_complete(buffer@),
{
    true
}

/// Idempotence of the parse decision: two invocations on the same buffer
/// snapshot yield the same result, because each result is pinned to the
/// policy's predicate on those bytes.
pub proof fn lemma_parse_decision_idempotent<P: ParsePolicy>(
    policy: P,
    bytes: Seq<u8>,
    first: bool,
    second: bool,
)
    requires
        first == policy.complete_spec(bytes),
        second == policy.complete_spec(bytes),
    ensures
        first == second,
{
}

} // verus!
