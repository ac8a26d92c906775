//! The match iterator: a lazy, forward-only scan that yields successive
//! non-overlapping match spans of a pattern over a byte buffer.

use vstd::prelude::*;

use crate::engine::MatchEngine;
use crate::native::found_span;

verus! {

/// The scan position after a match `(s, e)` was reported at or after
/// `start` in a buffer of length `limit`.
///
/// The scan resumes at the end of the match; a zero-length match advances
/// one byte instead, so the scan always moves forward.  The two clamps only
/// keep the position within `start + 1 ..= limit + 1` and are never felt on
/// spans the engine actually reports, which satisfy `start <= s <= e <=
/// limit`.
pub open spec fn step_start(start: int, s: int, e: int, limit: int) -> int {
    let advanced = if e == s {
        e + 1
    } else {
        e
    };
    let forward = if advanced > start + 1 {
        advanced
    } else {
        start + 1
    };
    if forward > limit + 1 {
        limit + 1
    } else {
        forward
    }
}

/// The sequence of spans a scan of `pat` over `text` yields from byte
/// offset `start` onward: the leftmost match from `start`, then the spans
/// from the stepped position after it.
pub open spec fn spans_from(pat: Seq<char>, text: Seq<u8>, start: int) -> Seq<(int, int)>
    decreases text.len() + 1 - start,
{
    if start < 0 || start > text.len() {
        Seq::empty()
    } else {
        match found_span(pat, text, start) {
            Option::None => Seq::empty(),
            Option::Some(span) => seq![span] + spans_from(
                pat,
                text,
                step_start(start, span.0, span.1, text.len() as int),
            ),
        }
    }
}

/// The full span sequence of a scan of `pat` over `text` from the start of
/// the buffer.
pub open spec fn match_spans(pat: Seq<char>, text: Seq<u8>) -> Seq<(int, int)> {
    spans_from(pat, text, 0)
}

/// Every span lies within a buffer of length `limit` and is well formed,
/// and consecutive spans are ordered and non-overlapping.
pub open spec fn spans_ordered(spans: Seq<(int, int)>, limit: int) -> bool {
    &&& (forall|i: int|
        0 <= i < spans.len() ==> 0 <= (#[trigger] spans[i]).0 && spans[i].0 <= spans[i].1
            && spans[i].1 <= limit)
    &&& (forall|i: int|
        0 <= i && i + 1 < spans.len() ==> (#[trigger] spans[i]).1 <= spans[i + 1].0)
}

proof fn lemma_ordered_push(spans: Seq<(int, int)>, span: (int, int), limit: int)
    requires
        spans_ordered(spans, limit),
        0 <= span.0 <= span.1 <= limit,
        spans.len() > 0 ==> spans.last().1 <= span.0,
    ensures
        spans_ordered(spans.push(span), limit),
{
    let grown = spans.push(span);
    assert forall|i: int| 0 <= i && i + 1 < grown.len() implies (#[trigger] grown[i]).1 <= grown[i
        + 1].0 by {
        if i + 1 < spans.len() {
            assert(grown[i] == spans[i]);
            assert(grown[i + 1] == spans[i + 1]);
        } else {
            assert(grown[i] == spans.last());
            assert(grown[i + 1] == span);
        }
    }
}

proof fn lemma_prefix_of_concat(a: Seq<(int, int)>, b: Seq<(int, int)>)
    ensures
        a.is_prefix_of(a + b),
{
    assert(a =~= (a + b).subrange(0, a.len() as int));
}

/// A lazy, forward-only, non-restartable scan over the match spans of one
/// pattern in one byte buffer.
///
/// Each successful advance yields the leftmost match at or after the
/// current scan position and moves the position past it, so the yielded
/// spans never overlap; once the scan reports no further match it is
/// exhausted for good.  The engine and the buffer are borrowed for the
/// lifetime of the scan.
pub struct FindMatches<'r, 't> {
    re: &'r MatchEngine,
    text: &'t [u8],
    last_match_end: usize,
    done: bool,
    prior: Ghost<Seq<(int, int)>>,
}

impl<'r, 't> FindMatches<'r, 't> {
    /// The pattern text of the engine this scan runs.
    pub closed spec fn pattern(self) -> Seq<char> {
        self.re.pattern()
    }

    /// The byte buffer this scan runs over.
    pub closed spec fn subject(self) -> Seq<u8> {
        self.text@
    }

    /// The spans this scan has yielded so far, oldest first.
    pub closed spec fn yielded(self) -> Seq<(int, int)> {
        self.prior@
    }

    /// Whether this scan has reported the end of the sequence.
    pub closed spec fn exhausted(self) -> bool {
        self.done
    }

    spec fn remaining(self) -> Seq<(int, int)> {
        if self.done {
            Seq::empty()
        } else {
            spans_from(self.pattern(), self.subject(), self.last_match_end as int)
        }
    }

    #[verifier::type_invariant]
    spec fn wf(self) -> bool {
        &&& self.last_match_end <= self.text@.len()
        &&& spans_ordered(self.prior@, self.text@.len() as int)
        &&& (!self.done && self.prior@.len() > 0 ==> self.prior@.last().1
            <= self.last_match_end as int)
        &&& match_spans(self.pattern(), self.subject()) == self.prior@ + self.remaining()
    }

    pub(crate) fn begin(re: &'r MatchEngine, text: &'t [u8]) -> (r: FindMatches<'r, 't>)
        ensures
            r.pattern() == re.pattern(),
            r.subject() == text@,
            r.yielded() == Seq::<(int, int)>::empty(),
            !r.exhausted(),
    {
        let r = FindMatches {
            re,
            text,
            last_match_end: 0,
            done: false,
            prior: Ghost(Seq::empty()),
        };
        proof {
            assert(match_spans(r.pattern(), r.subject()) =~= r.prior@ + r.remaining());
        }
        r
    }

    /// Advance the scan one step.
    ///
    /// Yields the leftmost match span at or after the current position and
    /// moves the position past it; a zero-length match advances the
    /// position one byte instead.  Yields `None` exactly when the yielded
    /// spans are the whole span sequence of the pattern over the buffer,
    /// and every later advance yields `None` again.
    pub fn next(&mut self) -> (r: Option<(usize, usize)>)
        ensures
            final(self).pattern() == old(self).pattern(),
            final(self).subject() == old(self).subject(),
            old(self).exhausted() ==> r is None,
            spans_ordered(final(self).yielded(), old(self).subject().len() as int),
            final(self).yielded().is_prefix_of(match_spans(old(self).pattern(), old(self).subject())),
            match r {
                Option::None => {
                    &&& final(self).exhausted()
                    &&& final(self).yielded() == old(self).yielded()
                    &&& match_spans(old(self).pattern(), old(self).subject()) == old(self).yielded()
                },
                Option::Some(span) => {
                    &&& final(self).yielded() == old(self).yielded().push(
                        (span.0 as int, span.1 as int),
                    )
                    &&& span.0 <= span.1 <= old(self).subject().len()
                    &&& old(self).yielded().len() > 0 ==> old(self).yielded().last().1 <= span.0 as int
                },
            },
    {
        proof {
            use_type_invariant(&*self);
        }
        if self.done {
            proof {
                lemma_prefix_of_concat(self.prior@, self.remaining());
            }
            return None;
        }
        let start = self.last_match_end;
        let found = self.re.find_at(self.text, start);
        match found {
            None => {
                proof {
                    assert(spans_from(self.pattern(), self.subject(), start as int)
                        =~= Seq::<(int, int)>::empty());
                    assert(match_spans(self.pattern(), self.subject()) =~= self.prior@);
                    lemma_prefix_of_concat(self.prior@, Seq::empty());
                    assert(self.prior@ + Seq::<(int, int)>::empty() =~= self.prior@);
                }
                self.done = true;
                None
            },
            Some((s, e)) => {
                let limit = self.text.len();
                let (new_pos, new_done): (usize, bool) = if s == e {
                    if e < limit {
                        (e + 1, false)
                    } else {
                        (start, true)
                    }
                } else {
                    (e, false)
                };
                let ghost new_prior = self.prior@.push((s as int, e as int));
                proof {
                    lemma_ordered_push(self.prior@, (s as int, e as int), limit as int);
                    let stepped = step_start(start as int, s as int, e as int, limit as int);
                    let tail = spans_from(self.pattern(), self.subject(), stepped);
                    assert(spans_from(self.pattern(), self.subject(), start as int) == seq![
                        (s as int, e as int),
                    ] + tail);
                    if new_done {
                        assert(stepped == limit + 1);
                        assert(tail =~= Seq::<(int, int)>::empty());
                    } else {
                        assert(stepped == new_pos as int);
                    }
                    let new_tail = if new_done {
                        Seq::<(int, int)>::empty()
                    } else {
                        tail
                    };
                    assert(match_spans(self.pattern(), self.subject()) =~= new_prior + new_tail);
                    lemma_prefix_of_concat(new_prior, new_tail);
                }
                *self = FindMatches {
                    re: self.re,
                    text: self.text,
                    last_match_end: new_pos,
                    done: new_done,
                    prior: Ghost(new_prior),
                };
                Some((s, e))
            },
        }
    }
}

/// Idempotence law: the span sequence of a scan is a function of the
/// pattern and the subject alone, so a scan run to exhaustion twice over
/// the same pair has yielded identical sequences (`next` ensures that a
/// scan yields `None` exactly when its yielded spans equal `match_spans`
/// of its pattern and subject).
pub proof fn lemma_rescan_identical(
    pat: Seq<char>,
    text: Seq<u8>,
    first: Seq<(int, int)>,
    second: Seq<(int, int)>,
)
    requires
        first == match_spans(pat, text),
        second == match_spans(pat, text),
    ensures
        first == second,
{
}

} // verus!
