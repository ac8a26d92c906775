//! The boundary to the native matching engine.
//!
//! Everything the library knows about the engine is stated here: the two
//! engine types are declared opaque, a handful of uninterpreted names stand
//! for what the engine computes, and each call the library makes goes through
//! one wrapper whose contract says what the engine's own source promises.

use vstd::prelude::*;

verus! {

/// The compiled matching program of the engine (opaque to the verifier).
#[verifier::external_type_specification]
#[verifier::external_body]
pub struct ExPcreRegex(pcre2::bytes::Regex);

/// The engine's diagnostic value for a failed operation (opaque to the
/// verifier).
#[verifier::external_type_specification]
#[verifier::external_body]
pub struct ExPcreError(pcre2::Error);

/// Whether the engine accepts `pat` as a well-formed pattern.  Acceptance is
/// a function of the pattern text alone, under the fixed option set below.
pub uninterp spec fn compiles(pat: Seq<char>) -> bool;

/// The native diagnostic code the engine reports when it rejects `pat`.
pub uninterp spec fn compile_fault_code(pat: Seq<char>) -> int;

/// The byte offset within `pat` at which the engine reports the rejection.
pub uninterp spec fn compile_fault_offset(pat: Seq<char>) -> int;

/// The pattern text a compiled matching program was built from.
pub uninterp spec fn compiled_pattern(re: pcre2::bytes::Regex) -> Seq<char>;

/// The span the engine reports when asked for the leftmost match of `pat`
/// in `text` at or after byte offset `start`: `None` when no match exists
/// from `start` onward, and the `(start, end)` byte offsets of the match
/// otherwise.  The result is a function of pattern, text and offset alone.
pub uninterp spec fn found_span(pat: Seq<char>, text: Seq<u8>, start: int) -> Option<(int, int)>;

/// The native diagnostic code a diagnostic value carries.
pub uninterp spec fn error_code_of(e: pcre2::Error) -> int;

/// The pattern byte offset a diagnostic value carries, if any.
pub uninterp spec fn error_offset_of(e: pcre2::Error) -> Option<int>;

/// The human-readable rendering of a diagnostic value.
pub uninterp spec fn error_text_of(e: pcre2::Error) -> Seq<char>;

/// Relies on `pcre2::bytes::RegexBuilder::build`, with the full-Unicode
/// option set (`ucp`, `utf`) and mandatory acceleration (`jit`): a
/// well-formed pattern compiles to a matching program that remembers its
/// pattern text; a malformed one comes back as a compile error carrying the
/// native code and the offset of the bad token (`Error::compile` always
/// stores an offset).  A failure of acceleration or of engine bookkeeping is
/// not a property of the pattern text and aborts instead, as the engine
/// treats such faults as fatal.
#[verifier::external_body]
pub(crate) fn pcre_compile(pattern: &str) -> (r: Result<pcre2::bytes::Regex, pcre2::Error>)
    ensures
        (r is Ok) == compiles(pattern@),
        r matches Ok(re) ==> compiled_pattern(re) == pattern@,
        r matches Err(e) ==> error_code_of(e) == compile_fault_code(pattern@)
            && error_offset_of(e) == Some(compile_fault_offset(pattern@)),
{
    let built = pcre2::bytes::RegexBuilder::new()
        .ucp(true)
        .utf(true)
        .jit(true)
        .build(pattern);
    match built {
        Ok(re) => Ok(re),
        Err(e) => {
            if !(matches!(e.kind(), pcre2::ErrorKind::Compile)) {
                None::<()>.expect("fatal engine fault while preparing the pattern");
            }
            Err(e)
        }
    }
}

/// Relies on `pcre2::bytes::Regex::find_at`: reports the leftmost match of
/// the compiled pattern in `text` at or after `start`, or `None` when there
/// is none; the reported byte offsets satisfy `start <= s <= e <= len`.  A
/// reported matching fault is distinct from the no-match result and is not a
/// function of the inputs; it aborts, as the engine treats it as fatal.
#[verifier::external_body]
pub(crate) fn pcre_find_at(re: &pcre2::bytes::Regex, text: &[u8], start: usize) -> (r: Option<(
    usize,
    usize,
)>)
    requires
        start <= text@.len(),
    ensures
        (r is Some) == (found_span(compiled_pattern(*re), text@, start as int) is Some),
        r matches Some(span) ==> found_span(compiled_pattern(*re), text@, start as int) == Some(
            ((span.0 as int, span.1 as int)),
        ) && start <= span.0 && span.0 <= span.1 && span.1 <= text@.len(),
{
    let found = re.find_at(text, start).expect("fatal engine fault during a match attempt");
    found.map(|m| (m.start(), m.end()))
}

/// Relies on `pcre2::Error::code`: hands out the stored native code.
pub assume_specification[ pcre2::Error::code ](e: &pcre2::Error) -> (r: i32)
    ensures
        r as int == error_code_of(*e),
;

/// Relies on `pcre2::Error::offset`: hands out the stored pattern offset.
pub assume_specification[ pcre2::Error::offset ](e: &pcre2::Error) -> (r: Option<usize>)
    ensures
        (r is Some) == (error_offset_of(*e) is Some),
        r matches Some(off) ==> error_offset_of(*e) == Some(off as int),
;

/// Relies on the `Display` rendering of `pcre2::Error`, which fetches the
/// native diagnostic message for the stored code: the text is a function of
/// the diagnostic value alone.
#[verifier::external_body]
pub(crate) fn pcre_error_text(e: &pcre2::Error) -> (r: String)
    ensures
        r@ == error_text_of(*e),
{
    format!("{}", e)
}

} // verus!
