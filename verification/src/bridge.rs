//! The sink bridge: a byte sink in front of a text destination.
//!
//! A JSON engine writes bytes, chunk by chunk, to an `std::io::Write`.
//! Formatted output takes text. [`SinkBridge`] stands between the two: each
//! chunk it is given is read as UTF-8 text and handed on to the destination
//! at once, and nothing is kept in between.

use crate::text::{text_of, write_text, written};
use vstd::prelude::*;
use vstd::utf8::*;

verus! {

/// `std::io::Error`, the failure of a byte sink.
#[verifier::external_type_specification]
#[verifier::external_body]
pub struct ExIoError(std::io::Error);

/// `std::io::ErrorKind`, the list of the kinds of failure of a byte sink: an
/// enum whose variants have no fields, declared as such.
#[verifier::external_type_specification]
pub struct ExErrorKind(std::io::ErrorKind);

/// The failure that `std::io::Error::from` makes of a kind: an error that
/// holds the kind and nothing else.
pub uninterp spec fn simple_failure(kind: std::io::ErrorKind) -> std::io::Error;

/// `std::io::Error::from` on an `std::io::ErrorKind`.
///
/// The conversion makes the simple error of that kind, with no payload and no
/// code of the operating system, so the result depends on the kind alone.
#[verifier::external_body]
pub(crate) fn failure_of(kind: std::io::ErrorKind) -> (failure: std::io::Error)
    ensures
        failure == simple_failure(kind),
{
    std::io::Error::from(kind)
}

/// The failure that the bridge reports, whatever went wrong: the kind `Other`,
/// with no detail.
pub open spec fn generic_failure() -> std::io::Error {
    simple_failure(std::io::ErrorKind::Other)
}

/// A byte sink that forwards to the text destination `dest`.
///
/// The bridge lives for one rendering and holds nothing but the destination.
pub struct SinkBridge<'a, 'b> {
    pub dest: &'a mut std::fmt::Formatter<'b>,
}

impl<'a, 'b> SinkBridge<'a, 'b> {
    /// The text that the destination holds now.
    pub open spec fn text(&self) -> Seq<char> {
        written(*self.dest)
    }
}

/// What the byte sink reports for a chunk of `consumed` bytes, once the
/// destination has answered: all of the chunk if the destination took the
/// text, the generic failure if it did not. The failure of the destination
/// itself is not handed on.
pub fn write_outcome(
    consumed: usize,
    answer: Result<(), std::fmt::Error>,
) -> (outcome: Result<usize, std::io::Error>)
    ensures
        answer is Ok ==> outcome == Ok::<usize, std::io::Error>(consumed),
        answer is Err ==> outcome == Err::<usize, std::io::Error>(generic_failure()),
{
    match answer {
        Ok(()) => Ok(consumed),
        Err(_) => Err(failure_of(std::io::ErrorKind::Other)),
    }
}

impl<'a, 'b> std::io::Write for SinkBridge<'a, 'b> {
    /// Forwards one chunk.
    ///
    /// A chunk that is not valid UTF-8 is refused before the destination sees
    /// any of it. A chunk of text goes to the destination whole; if the
    /// destination takes it, all of its bytes count as consumed and the
    /// destination holds the decoded chunk after what it held before. Every
    /// failure is the generic one, whether the chunk was no text or the
    /// destination refused it. Whatever happens, the text that was there
    /// stays in front, and the bridge still writes to the destination it was
    /// made for.
    fn write(&mut self, buf: &[u8]) -> (outcome: Result<usize, std::io::Error>)
        ensures
            outcome is Ok ==> valid_utf8(buf@),
            outcome is Ok ==> outcome.unwrap() == buf@.len(),
            outcome is Ok ==> final(self).text() == old(self).text() + decode_utf8(buf@),
            !valid_utf8(buf@) ==> outcome is Err && final(self).text() == old(self).text(),
            outcome is Err ==> outcome == Err::<usize, std::io::Error>(generic_failure()),
            old(self).text().is_prefix_of(final(self).text()),
            *final(final(self).dest) == *final(old(self).dest),
    {
        match text_of(buf) {
            Some(text) => {
                let answer = write_text(self.dest, text);
                write_outcome(buf.len(), answer)
            },
            None => Err(failure_of(std::io::ErrorKind::Other)),
        }
    }

    /// Succeeds at once: the bridge buffers nothing, so there is nothing to
    /// flush, and the destination is left as it is.
    fn flush(&mut self) -> (outcome: Result<(), std::io::Error>)
        ensures
            outcome is Ok,
            *final(self) == *old(self),
    {
        Ok(())
    }
}

} // verus!
