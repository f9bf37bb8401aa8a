//! The structured failure acknowledgement: a downstream remote failure
//! is returned as data in the node's own call result, never raised as a
//! fatal error of the node itself.

use vstd::prelude::*;

verus! {

/// The exact payload text carrying a remote failure detail.
pub open spec fn ack_fail_json(detail: Seq<char>) -> Seq<char> {
    "{\"error\":\""@ + detail + "\"}"@
}

/// Builds the failure acknowledgement payload for `detail`.
pub fn make_ack_fail(detail: &str) -> (r: String)
    ensures
        r@ == ack_fail_json(detail@),
{
    let mut s = String::from_str("{\"error\":\"");
    s.append(detail);
    s.append("\"}");
    s
}

} // verus!
