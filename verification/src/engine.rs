//! The match engine binding: owns the compiled matching program and answers
//! match queries against caller-supplied byte buffers.

use vstd::prelude::*;

use crate::error::MatchError;
use crate::native::{
    compile_fault_code, compile_fault_offset, compiled_pattern, compiles, found_span,
    pcre_compile, pcre_find_at,
};
use crate::scan::{match_spans, FindMatches};

verus! {

/// A compiled pattern together with the engine state needed to run it.
///
/// The engine exclusively owns its compiled program and the reusable match
/// state behind it; dropping the engine releases both.  An engine may be
/// moved between threads, but one engine instance must not run two match
/// calls at once.
pub struct MatchEngine {
    native: pcre2::bytes::Regex,
}

impl MatchEngine {
    /// The pattern text this engine was built from.
    pub closed spec fn pattern(self) -> Seq<char> {
        compiled_pattern(self.native)
    }

    /// Compile `pattern` with full-Unicode matching semantics and prepare it
    /// for repeated execution.
    ///
    /// Exactly the patterns the engine accepts yield an engine object, and
    /// it remembers the pattern it was built from; a rejected pattern yields
    /// the error the engine reported, with its native code and the byte
    /// offset of the bad token.
    pub fn new(pattern: &str) -> (r: Result<MatchEngine, MatchError>)
        ensures
            (r is Ok) == compiles(pattern@),
            r matches Ok(re) ==> re.pattern() == pattern@,
            r matches Err(e) ==> e.code_val() == compile_fault_code(pattern@) && e.offset_val()
                == Some(compile_fault_offset(pattern@)),
    {
        match pcre_compile(pattern) {
            Ok(native) => Ok(MatchEngine { native }),
            Err(e) => Err(MatchError::from_native(e)),
        }
    }

    /// Whether the pattern matches anywhere in `text`, at offset 0 or later.
    ///
    /// True exactly when a scan of `text` yields at least one span.
    pub fn is_match(&self, text: &[u8]) -> (r: bool)
        ensures
            r == (found_span(self.pattern(), text@, 0) is Some),
            r == (match_spans(self.pattern(), text@).len() > 0),
    {
        let found = self.find_at(text, 0);
        proof {
            if found_span(self.pattern(), text@, 0) is None {
                assert(match_spans(self.pattern(), text@) =~= Seq::<(int, int)>::empty());
            }
        }
        found.is_some()
    }

    /// A lazy scan over the non-overlapping match spans of the pattern in
    /// `text`, starting at the beginning of the buffer.
    pub fn find_iter<'r, 't>(&'r self, text: &'t [u8]) -> (r: FindMatches<'r, 't>)
        ensures
            r.pattern() == self.pattern(),
            r.subject() == text@,
            r.yielded() == Seq::<(int, int)>::empty(),
            !r.exhausted(),
    {
        FindMatches::begin(self, text)
    }

    /// Scan `text` to exhaustion and collect every match span, oldest
    /// first.
    ///
    /// The result is exactly the span sequence of the pattern over `text`,
    /// so any two such scans of the same pattern and text collect the same
    /// spans.
    pub fn find_spans(&self, text: &[u8]) -> (r: Vec<(usize, usize)>)
        ensures
            r@.len() == match_spans(self.pattern(), text@).len(),
            forall|i: int|
                0 <= i < r@.len() ==> ((#[trigger] r@[i]).0 as int, r@[i].1 as int) == match_spans(
                    self.pattern(),
                    text@,
                )[i],
    {
        let whole = Ghost(match_spans(self.pattern(), text@));
        let mut it = self.find_iter(text);
        let mut out: Vec<(usize, usize)> = Vec::new();
        loop
            invariant
                whole@ == match_spans(self.pattern(), text@),
                it.pattern() == self.pattern(),
                it.subject() == text@,
                it.yielded().is_prefix_of(whole@),
                out@.len() == it.yielded().len(),
                forall|i: int|
                    0 <= i < out@.len() ==> ((#[trigger] out@[i]).0 as int, out@[i].1 as int)
                        == it.yielded()[i],
            decreases whole@.len() - it.yielded().len(),
        {
            match it.next() {
                None => {
                    return out;
                },
                Some(span) => {
                    out.push(span);
                },
            }
        }
    }

    /// The leftmost match of the pattern in `text` at or after byte offset
    /// `start`, or `None` when no match exists from there onward.
    pub(crate) fn find_at(&self, text: &[u8], start: usize) -> (r: Option<(usize, usize)>)
        requires
            start <= text@.len(),
        ensures
            (r is Some) == (found_span(self.pattern(), text@, start as int) is Some),
            r matches Some(span) ==> found_span(self.pattern(), text@, start as int) == Some(
                ((span.0 as int, span.1 as int)),
            ) && start <= span.0 && span.0 <= span.1 && span.1 <= text@.len(),
    {
        pcre_find_at(&self.native, text, start)
    }
}

} // verus!
