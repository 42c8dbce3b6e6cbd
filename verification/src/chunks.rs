//! What a run of chunks adds to the destination, and why the cuts between
//! the chunks do not matter.
//!
//! An engine is free to cut its output into chunks wherever it likes, as long
//! as each chunk is text. The bridge forwards every chunk on its own, so the
//! destination receives the decoded chunks one after another. The laws here
//! say that this is the decoding of all the bytes taken together: the text a
//! caller would get by collecting the bytes in a buffer first and reading the
//! buffer as text.

use vstd::prelude::*;
use vstd::utf8::*;

verus! {

/// Every chunk is valid UTF-8 on its own.
pub open spec fn all_text(chunks: Seq<Seq<u8>>) -> bool {
    forall|i: int| 0 <= i < chunks.len() ==> valid_utf8(#[trigger] chunks[i])
}

/// The text that the bridge hands to the destination for a run of chunks
/// that the destination takes: each chunk decoded by itself, in order.
pub open spec fn forwarded(chunks: Seq<Seq<u8>>) -> Seq<char>
    decreases chunks.len(),
{
    if chunks.len() == 0 {
        Seq::empty()
    } else {
        decode_utf8(chunks.first()) + forwarded(chunks.drop_first())
    }
}

/// Decoding two pieces of text and joining the results is decoding the
/// joined bytes.
pub proof fn lemma_decode_joined(head: Seq<u8>, tail: Seq<u8>)
    requires
        valid_utf8(head),
        valid_utf8(tail),
    ensures
        valid_utf8(head + tail),
        decode_utf8(head + tail) == decode_utf8(head) + decode_utf8(tail),
    decreases head.len(),
{
    if head.len() == 0 {
        assert(head + tail =~= tail);
        assert(decode_utf8(head) + decode_utf8(tail) =~= decode_utf8(tail));
    } else {
        let rest = pop_first_scalar(head);
        lemma_decode_joined(rest, tail);
        assert(pop_first_scalar(head + tail) =~= rest + tail);
        assert(decode_utf8(head + tail) =~= decode_utf8(head) + decode_utf8(tail));
    }
}

/// Streaming gives the text of the whole: for chunks that are each text, the
/// bytes taken together are text, and what the bridge forwards chunk by chunk
/// is the decoding of all of them at once.
pub proof fn lemma_forwarded_is_whole(chunks: Seq<Seq<u8>>)
    requires
        all_text(chunks),
    ensures
        valid_utf8(chunks.flatten()),
        forwarded(chunks) == decode_utf8(chunks.flatten()),
    decreases chunks.len(),
{
    if chunks.len() == 0 {
        assert(decode_utf8(chunks.flatten()) =~= Seq::<char>::empty());
    } else {
        let rest = chunks.drop_first();
        assert forall|i: int| 0 <= i < rest.len() implies valid_utf8(#[trigger] rest[i]) by {
            assert(rest[i] == chunks[i + 1]);
        }
        lemma_forwarded_is_whole(rest);
        assert(valid_utf8(chunks[0]));
        lemma_decode_joined(chunks.first(), rest.flatten());
    }
}

/// Chunking independence: two runs of chunks that carry the same bytes, cut
/// in different places, put the same text at the destination.
pub proof fn lemma_chunking_independent(one: Seq<Seq<u8>>, other: Seq<Seq<u8>>)
    requires
        all_text(one),
        all_text(other),
        one.flatten() == other.flatten(),
    ensures
        forwarded(one) == forwarded(other),
{
    lemma_forwarded_is_whole(one);
    lemma_forwarded_is_whole(other);
}

/// One more chunk adds its own decoding after what the earlier chunks gave:
/// the step that each successful `write` of the bridge takes.
pub proof fn lemma_forwarded_push(chunks: Seq<Seq<u8>>, next: Seq<u8>)
    ensures
        forwarded(chunks.push(next)) == forwarded(chunks) + decode_utf8(next),
    decreases chunks.len(),
{
    let longer = chunks.push(next);
    if chunks.len() == 0 {
        assert(longer.drop_first() =~= chunks);
        assert(forwarded(longer) =~= decode_utf8(next) + forwarded(chunks));
        assert(forwarded(longer) =~= forwarded(chunks) + decode_utf8(next));
    } else {
        assert(longer.drop_first() =~= chunks.drop_first().push(next));
        lemma_forwarded_push(chunks.drop_first(), next);
        assert(forwarded(longer) =~= forwarded(chunks) + decode_utf8(next));
    }
}

/// Every byte of every chunk is below 0x80, and so stands for one character.
pub open spec fn all_ascii(chunks: Seq<Seq<u8>>) -> bool {
    forall|i: int, j: int|
        0 <= i < chunks.len() && 0 <= j < chunks[i].len() ==> #[trigger] chunks[i][j] < 0x80
}

/// Output made of such bytes alone can be cut anywhere, down to single bytes:
/// every chunk is text.
pub proof fn lemma_ascii_chunks_are_text(chunks: Seq<Seq<u8>>)
    requires
        all_ascii(chunks),
    ensures
        all_text(chunks),
{
    assert forall|i: int| 0 <= i < chunks.len() implies valid_utf8(#[trigger] chunks[i]) by {
        let chunk = chunks[i];
        assert forall|j: int| 0 <= j < chunk.len() implies #[trigger] is_leading_byte_width_1(
            chunk[j],
        ) by {
            assert(chunks[i][j] < 0x80);
        }
        assert(valid_utf8(chunk.subrange(0, 0)));
        partial_valid_utf8_extend_ascii_block(chunk, 0, chunk.len() as int);
        assert(chunk.subrange(0, chunk.len() as int) =~= chunk);
    }
}

} // verus!
