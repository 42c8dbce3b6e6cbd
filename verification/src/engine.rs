//! The JSON engine, `serde_json`, behind its two streaming entry points.
//!
//! The engine walks a value's `Serialize` impl and writes the JSON bytes to the
//! writer it is given, here always a [`SinkBridge`]. What it writes, and
//! whether it succeeds, is decided by the value's impl and by the destination:
//! the contracts promise only what holds of every run.

use crate::bridge::SinkBridge;
use crate::text::written;
use vstd::prelude::*;

verus! {

/// `serde_json::Error`, the engine's failure.
#[verifier::external_type_specification]
#[verifier::external_body]
pub struct ExEngineError(serde_json::Error);

/// `serde_json::to_writer`: the value as compact JSON, written to the bridge.
///
/// The engine owns the bridge for the call and can reach the destination only
/// through the bridge's `write` and `flush`, each of which leaves the earlier
/// text in front. So, whatever the outcome, the destination ends with the text
/// it began with, followed by whatever the bridge forwarded.
#[verifier::external_body]
pub(crate) fn engine_compact<T: serde::Serialize>(
    bridge: SinkBridge<'_, '_>,
    value: &T,
) -> (outcome: Result<(), serde_json::Error>)
    ensures
        written(*old(bridge.dest)).is_prefix_of(written(*final(bridge.dest))),
{
    serde_json::to_writer(bridge, value)
}

/// `serde_json::to_writer_pretty`: the value as indented JSON, written to the
/// bridge.
///
/// As for the compact entry point: whatever the outcome, the destination ends
/// with the text it began with, followed by whatever the bridge forwarded.
#[verifier::external_body]
pub(crate) fn engine_pretty<T: serde::Serialize>(
    bridge: SinkBridge<'_, '_>,
    value: &T,
) -> (outcome: Result<(), serde_json::Error>)
    ensures
        written(*old(bridge.dest)).is_prefix_of(written(*final(bridge.dest))),
{
    serde_json::to_writer_pretty(bridge, value)
}

} // verus!
