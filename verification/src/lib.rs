//! JSON as a `Display` impl, for any type that implements `Serialize`.
//!
//! [`Json`] and [`JsonPretty`] wrap a value. Formatting a wrapper with `{}`
//! writes the value's JSON, compact or indented, straight into the formatter:
//! the bytes that `serde_json` produces pass through a [`bridge::SinkBridge`]
//! chunk by chunk, and no `String` is built on the way.
//!
//! ```rust
//! use dyson::Json;
//!
//! let arr = [[1, 2], [20, 30], [40, 50]];
//! let json = Json(arr);
//! assert_eq!(json.to_string(), "[[1,2],[20,30],[40,50]]");
//! ```
//!
//! The modules:
//!
//! - [`bridge`] is the byte sink in front of the formatter. Its `write` is
//!   proved to hand each chunk on whole, as the text it encodes, or to refuse
//!   it and leave the destination alone.
//! - [`chunks`] holds the laws of a run of chunks: what arrives is the text of
//!   all the bytes taken together, wherever the engine cut them.
//! - [`display`] holds the `Display` and `Debug` impls and the rendering
//!   routine that both modes share.
//! - [`text`] and [`engine`] are the edges to `std::fmt` and to `serde_json`:
//!   the contracts there are taken as given, not proved.

use vstd::prelude::*;

pub mod bridge;
pub mod chunks;
pub mod display;
pub mod engine;
pub mod text;

verus! {

/// A wrapper over a value that shows it as compact JSON.
///
/// ```rust
/// use dyson::Json;
/// use std::collections::HashMap;
///
/// let mut map = HashMap::new();
/// map.insert("hey", "there");
///
/// let json = Json(&map);
/// assert_eq!(json.to_string(), r#"{"hey":"there"}"#);
/// ```
pub struct Json<T>(pub T);

/// A wrapper over a value that shows it as indented JSON.
///
/// ```rust
/// use dyson::JsonPretty;
/// use std::collections::HashMap;
///
/// let mut map = HashMap::new();
/// map.insert("hey", "there");
///
/// let json = JsonPretty(&map);
/// assert_eq!(json.to_string(), "{\n  \"hey\": \"there\"\n}");
/// ```
pub struct JsonPretty<T>(pub T);

impl<T> Json<T> {
    /// Gives the wrapped value back, as it was wrapped.
    pub fn into_inner(self) -> (inner: T)
        ensures
            inner == self.0,
    {
        self.0
    }
}

impl<T> JsonPretty<T> {
    /// Gives the wrapped value back, as it was wrapped.
    pub fn into_inner(self) -> (inner: T)
        ensures
            inner == self.0,
    {
        self.0
    }
}

} // verus!
