//! Assembly of the response payload from a collected span sequence: for
//! each match span, the inner slice of the matched bytes — past the four
//! leading bytes and short of the final byte — followed by one space.

use vstd::prelude::*;
use vstd::slice::{slice_subrange, slice_to_vec};

verus! {

/// Whether every span in `spans` lies within a buffer of length `limit`
/// and covers at least five bytes, so that its inner slice is well formed.
pub open spec fn spans_sliceable(spans: Seq<(usize, usize)>, limit: int) -> bool {
    forall|i: int|
        0 <= i < spans.len() ==> (#[trigger] spans[i]).0 + 5 <= spans[i].1 && spans[i].1 <= limit
}

/// The accumulated payload of the spans of `text` from index `i` onward:
/// the bytes of each span past its first four and short of its last one,
/// each followed by one space byte.
pub open spec fn payload_from(text: Seq<u8>, spans: Seq<(usize, usize)>, i: int) -> Seq<u8>
    decreases spans.len() - i,
{
    if i < 0 || i >= spans.len() {
        Seq::empty()
    } else {
        text.subrange(spans[i].0 + 4, spans[i].1 - 1) + seq![32u8] + payload_from(text, spans, i + 1)
    }
}

fn payload_tail(text: &[u8], spans: &Vec<(usize, usize)>, i: usize) -> (r: Vec<u8>)
    requires
        spans_sliceable(spans@, text@.len() as int),
        i <= spans@.len(),
    ensures
        r@ == payload_from(text@, spans@, i as int),
    decreases spans@.len() - i,
{
    if i >= spans.len() {
        Vec::new()
    } else {
        let (s, e) = spans[i];
        let piece = slice_subrange(text, s + 4, e - 1);
        let mut out = slice_to_vec(piece);
        out.push(32u8);
        let mut rest = payload_tail(text, spans, i + 1);
        out.append(&mut rest);
        out
    }
}

/// Build the response payload of a collected span sequence over `text`:
/// for each span in order, the bytes between its start plus four and its
/// end minus one, followed by one space.
///
/// Every span must lie within `text` and cover at least five bytes.
pub fn response_payload(text: &[u8], spans: &Vec<(usize, usize)>) -> (r: Vec<u8>)
    requires
        spans_sliceable(spans@, text@.len() as int),
    ensures
        r@ == payload_from(text@, spans@, 0),
{
    payload_tail(text, spans, 0)
}

} // verus!
