//! Body relay: each chunk of a body is handed on as it comes, byte for byte.
//!
//! A body is a sequence of chunks. The relay never holds more than one chunk:
//! it copies what is left in the chunk into a buffer of its own and passes
//! that on.

use vstd::prelude::*;

verus! {

/// `bytes::Buf::remaining` on a byte slice: the number of bytes that the
/// buffer still holds, which for a slice is its length.
#[verifier::external_body]
fn buf_remaining(chunk: &Vec<u8>) -> (n: usize)
    ensures
        n == chunk@.len(),
{
    let buf: &[u8] = chunk.as_slice();
    bytes::Buf::remaining(&buf)
}

/// `bytes::Buf::copy_to_bytes` on a byte slice: a new buffer with the first
/// `len` bytes of the slice. The outside function panics when asked for more
/// than the slice holds, so `len` may not exceed the length.
#[verifier::external_body]
fn buf_copy_to_bytes(chunk: &Vec<u8>, len: usize) -> (out: Vec<u8>)
    requires
        len <= chunk@.len(),
    ensures
        out@ == chunk@.subrange(0, len as int),
{
    let mut buf: &[u8] = chunk.as_slice();
    bytes::Buf::copy_to_bytes(&mut buf, len).to_vec()
}

/// Copies one chunk for the other side. The copy holds the same bytes in
/// the same order; an empty chunk gives an empty copy.
pub fn relay_chunk(chunk: &Vec<u8>) -> (out: Vec<u8>)
    ensures
        out@ == chunk@,
{
    let len = buf_remaining(chunk);
    let out = buf_copy_to_bytes(chunk, len);
    assert(chunk@.subrange(0, len as int) =~= chunk@);
    out
}

/// The bytes of a body: its chunks, one after the other.
pub open spec fn body_bytes(chunks: Seq<Seq<u8>>) -> Seq<u8>
    decreases chunks.len(),
{
    if chunks.len() == 0 {
        Seq::empty()
    } else {
        body_bytes(chunks.drop_last()) + chunks.last()
    }
}

/// `sent` is what a relay hands on for the chunks `received`: one chunk for
/// each, equal to it.
pub open spec fn relayed(received: Seq<Seq<u8>>, sent: Seq<Seq<u8>>) -> bool {
    &&& sent.len() == received.len()
    &&& forall|i: int| 0 <= i < received.len() ==> #[trigger] sent[i] == received[i]
}

/// A relayed body is the body received: the same bytes, none lost, none
/// added, whatever its size and however it was cut into chunks. A body
/// without chunks is relayed as a body without bytes.
pub proof fn relayed_body_is_identical(received: Seq<Seq<u8>>, sent: Seq<Seq<u8>>)
    requires
        relayed(received, sent),
    ensures
        body_bytes(sent) == body_bytes(received),
        received.len() == 0 ==> body_bytes(sent) == Seq::<u8>::empty(),
        body_bytes(sent).len() == body_bytes(received).len(),
{
    assert(sent =~= received);
}

/// Cutting a body at another place does not change its bytes: the bytes of
/// two runs of chunks, one after the other, are the bytes of the first
/// followed by the bytes of the second.
pub proof fn body_bytes_of_concatenation(first: Seq<Seq<u8>>, second: Seq<Seq<u8>>)
    ensures
        body_bytes(first + second) == body_bytes(first) + body_bytes(second),
    decreases second.len(),
{
    if second.len() == 0 {
        assert(first + second =~= first);
        assert(body_bytes(first) + body_bytes(second) =~= body_bytes(first));
    } else {
        body_bytes_of_concatenation(first, second.drop_last());
        assert((first + second).drop_last() =~= first + second.drop_last());
        assert((first + second).last() == second.last());
        assert(body_bytes(first + second) =~= body_bytes(first) + body_bytes(second));
    }
}

/// Relays a whole body that is already at hand, chunk by chunk.
pub fn relay_chunks(chunks: &Vec<Vec<u8>>) -> (out: Vec<Vec<u8>>)
    ensures
        relayed(chunks.deep_view(), out.deep_view()),
        body_bytes(out.deep_view()) == body_bytes(chunks.deep_view()),
{
    let mut out: Vec<Vec<u8>> = Vec::new();
    let mut i: usize = 0;
    while i < chunks.len()
        invariant
            i <= chunks.len(),
            out.len() == i,
            forall|j: int| 0 <= j < i ==> #[trigger] out[j]@ == chunks[j]@,
        decreases chunks.len() - i,
    {
        let copy = relay_chunk(&chunks[i]);
        out.push(copy);
        i = i + 1;
    }
    proof {
        let received = chunks.deep_view();
        let sent = out.deep_view();
        assert(sent.len() == received.len());
        assert forall|j: int| 0 <= j < received.len() implies #[trigger] sent[j] == received[j] by {
            assert(out[j]@ == chunks[j]@);
        }
        relayed_body_is_identical(received, sent);
    }
    out
}

} // verus!
