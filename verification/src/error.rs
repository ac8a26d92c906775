//! The error surface: a compile error of the matching engine, carrying the
//! native diagnostic code and the byte offset within the pattern at which
//! compilation failed.

use vstd::prelude::*;

use crate::native::{error_code_of, error_offset_of, error_text_of, pcre_error_text};

verus! {

/// A pattern-compilation error.
///
/// Immutable once constructed.  It owns its diagnostic value outright, so it
/// may be kept and rendered after the engine that produced it is gone.
#[derive(Debug)]
pub struct MatchError {
    native: pcre2::Error,
}

impl MatchError {
    /// The native diagnostic code this error carries.
    pub closed spec fn code_val(self) -> int {
        error_code_of(self.native)
    }

    /// The pattern byte offset this error carries, if any.
    pub closed spec fn offset_val(self) -> Option<int> {
        error_offset_of(self.native)
    }

    /// The rendered diagnostic text of this error.
    pub closed spec fn text_val(self) -> Seq<char> {
        error_text_of(self.native)
    }

    pub(crate) fn from_native(e: pcre2::Error) -> (r: MatchError)
        ensures
            r.code_val() == error_code_of(e),
            r.offset_val() == error_offset_of(e),
            r.text_val() == error_text_of(e),
    {
        MatchError { native: e }
    }

    /// The native diagnostic code.
    pub fn code(&self) -> (r: i32)
        ensures
            r as int == self.code_val(),
    {
        self.native.code()
    }

    /// The byte offset within the pattern at which the failure was detected,
    /// when the engine reported one.
    pub fn offset(&self) -> (r: Option<usize>)
        ensures
            (r is Some) == (self.offset_val() is Some),
            r matches Some(off) ==> self.offset_val() == Some(off as int),
    {
        self.native.offset()
    }

    /// A human-readable description of the failure, rendered from the
    /// engine's diagnostic subsystem.  The text is for diagnostics only and
    /// is never parsed.
    pub fn message(&self) -> (r: String)
        ensures
            r@ == self.text_val(),
    {
        pcre_error_text(&self.native)
    }
}

} // verus!
