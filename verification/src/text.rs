//! The text side of the bridge: the destination of formatted output, and the
//! reading of bytes as text.
//!
//! `std::fmt::Formatter` is opaque to the verifier. What the contracts need of
//! it is a single observation, [`written`]: the text that the sink behind a
//! formatter has taken so far. Every contract in this module is taken as
//! given: it states what the standard library documents of the call inside.

use vstd::prelude::*;
use vstd::utf8::*;

verus! {

/// `std::fmt::Formatter`, declared so that it can stand in signatures.
#[verifier::external_type_specification]
#[verifier::external_body]
pub struct ExFormatter<'a>(std::fmt::Formatter<'a>);

/// `std::fmt::Error`, the one failure that formatted output knows: a struct
/// without fields, declared as such, so that it has a single value.
#[verifier::external_type_specification]
pub struct ExFmtError(std::fmt::Error);

/// The text that the sink behind `dest` has taken so far, oldest first.
///
/// A sink only ever takes more text: nothing it has taken is changed or given
/// back. The wrappers below say how each call moves this value.
pub uninterp spec fn written(dest: std::fmt::Formatter<'_>) -> Seq<char>;

/// `std::fmt::Formatter::write_str`.
///
/// The method reports success only when the whole slice has been written, so
/// on `Ok` the sink holds what it held before, followed by `text`. On `Err`
/// the sink may have taken any part of the slice; what it held before is
/// still in front.
#[verifier::external_body]
pub(crate) fn write_text(
    dest: &mut std::fmt::Formatter<'_>,
    text: &str,
) -> (answer: Result<(), std::fmt::Error>)
    ensures
        answer is Ok ==> written(*final(dest)) == written(*old(dest)) + text@,
        written(*old(dest)).is_prefix_of(written(*final(dest))),
{
    dest.write_str(text)
}

/// `write!` with the format `{:?}`: the value's own `Debug` rendering, made
/// with default formatting options, goes to the sink behind `dest`.
///
/// Nothing is known of the text a `Debug` impl produces, nor of whether it
/// succeeds. It can only add to the sink.
#[verifier::external_body]
pub(crate) fn write_debug<T: std::fmt::Debug>(
    dest: &mut std::fmt::Formatter<'_>,
    value: &T,
) -> (answer: Result<(), std::fmt::Error>)
    ensures
        written(*old(dest)).is_prefix_of(written(*final(dest))),
{
    write!(dest, "{:?}", value)
}

/// `core::str::from_utf8`, with its error dropped.
///
/// The function checks that the bytes are valid UTF-8 and then reads the same
/// bytes as a string slice, whose characters are therefore the decoding of the
/// bytes; it fails exactly when the bytes are not valid UTF-8.
#[verifier::external_body]
pub(crate) fn text_of(bytes: &[u8]) -> (text: Option<&str>)
    ensures
        text is Some <==> valid_utf8(bytes@),
        text is Some ==> text.unwrap()@ == decode_utf8(bytes@),
{
    core::str::from_utf8(bytes).ok()
}

} // verus!
