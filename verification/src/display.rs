//! Rendering: `Display` writes a wrapper's value as JSON, `Debug` names the
//! wrapper around the value's own debug text.

use crate::bridge::SinkBridge;
use crate::engine::{engine_compact, engine_pretty};
use crate::text::{write_debug, write_text, written};
use crate::{Json, JsonPretty};
use vstd::prelude::*;

verus! {

/// The result of a rendering for an outcome of the engine: success stays
/// success, and every failure, whatever it was, becomes the one failure that
/// formatted output knows.
pub fn format_outcome(
    outcome: Result<(), serde_json::Error>,
) -> (result: Result<(), std::fmt::Error>)
    ensures
        outcome is Ok ==> result == Ok::<(), std::fmt::Error>(()),
        outcome is Err ==> result == Err::<(), std::fmt::Error>(std::fmt::Error),
{
    match outcome {
        Ok(()) => Ok(()),
        Err(_) => Err(std::fmt::Error),
    }
}

/// Renders `to_serialize` as JSON into `fmt`, indented if `IS_PRETTY` and
/// compact if not, through a bridge made for this one call.
///
/// The engine and the destination decide whether the rendering succeeds, and
/// [`format_outcome`] says what is returned for each outcome. Text that the
/// destination held before the call is still in front after it; a failed
/// rendering may have added a part of the output.
pub fn write_serialized<T: serde::Serialize, const IS_PRETTY: bool>(
    fmt: &mut std::fmt::Formatter<'_>,
    to_serialize: &T,
) -> (result: Result<(), std::fmt::Error>)
    ensures
        written(*old(fmt)).is_prefix_of(written(*final(fmt))),
{
    let writer = SinkBridge { dest: fmt };
    if IS_PRETTY {
        format_outcome(engine_pretty(writer, to_serialize))
    } else {
        format_outcome(engine_compact(writer, to_serialize))
    }
}

/// Writes `opening`, then the debug text of `value`, then a closing bracket,
/// and stops at the first part that does not succeed.
///
/// On success the destination holds what it held before, then exactly these
/// three parts, where the middle one is whatever the value's `Debug` impl
/// wrote. Text that the destination held before the call stays in front in
/// any case.
pub fn write_wrapped<T: std::fmt::Debug>(
    fmt: &mut std::fmt::Formatter<'_>,
    opening: &str,
    value: &T,
) -> (result: Result<(), std::fmt::Error>)
    ensures
        result is Ok ==> exists|inner: Seq<char>|
            written(*final(fmt)) == written(*old(fmt)) + opening@ + inner + ")"@,
        written(*old(fmt)).is_prefix_of(written(*final(fmt))),
{
    match write_text(fmt, opening) {
        Ok(()) => {},
        Err(failure) => {
            return Err(failure);
        },
    }
    let ghost opened = written(*fmt);
    match write_debug(fmt, value) {
        Ok(()) => {},
        Err(failure) => {
            return Err(failure);
        },
    }
    let ghost filled = written(*fmt);
    let result = write_text(fmt, ")");
    proof {
        let inner = filled.subrange(opened.len() as int, filled.len() as int);
        assert(filled =~= opened + inner);
    }
    result
}

/// Display this value as JSON.
impl<T: serde::Serialize> std::fmt::Display for Json<T> {
    fn fmt(&self, fmt: &mut std::fmt::Formatter<'_>) -> (result: Result<(), std::fmt::Error>)
        ensures
            written(*old(fmt)).is_prefix_of(written(*final(fmt))),
    {
        write_serialized::<_, false>(fmt, &self.0)
    }
}

/// Display this value as pretty JSON.
impl<T: serde::Serialize> std::fmt::Display for JsonPretty<T> {
    fn fmt(&self, fmt: &mut std::fmt::Formatter<'_>) -> (result: Result<(), std::fmt::Error>)
        ensures
            written(*old(fmt)).is_prefix_of(written(*final(fmt))),
    {
        write_serialized::<_, true>(fmt, &self.0)
    }
}

impl<T: std::fmt::Debug> std::fmt::Debug for JsonPretty<T> {
    fn fmt(&self, fmt: &mut std::fmt::Formatter<'_>) -> (result: Result<(), std::fmt::Error>)
        ensures
            result is Ok ==> exists|inner: Seq<char>|
                written(*final(fmt)) == written(*old(fmt)) + "JsonPretty("@ + inner + ")"@,
            written(*old(fmt)).is_prefix_of(written(*final(fmt))),
    {
        write_wrapped(fmt, "JsonPretty(", &self.0)
    }
}

impl<T: std::fmt::Debug> std::fmt::Debug for Json<T> {
    fn fmt(&self, fmt: &mut std::fmt::Formatter<'_>) -> (result: Result<(), std::fmt::Error>)
        ensures
            result is Ok ==> exists|inner: Seq<char>|
                written(*final(fmt)) == written(*old(fmt)) + "Json("@ + inner + ")"@,
            written(*old(fmt)).is_prefix_of(written(*final(fmt))),
    {
        write_wrapped(fmt, "Json(", &self.0)
    }
}

} // verus!
