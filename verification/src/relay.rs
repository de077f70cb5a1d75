//! The relay of the child's output streams, modelled over the sequence of
//! chunks each blocking read returns.
//!
//! One relay task drains one stream: it reads chunk after chunk until a
//! zero-length read, writing each chunk — verbatim for stdout, decorated
//! for stderr — to the invoker's corresponding stream. Within one stream
//! the relayed bytes are exactly the child's bytes in order, whatever the
//! chunk boundaries; stripping the stderr decoration recovers the child's
//! stderr bytes exactly.

use vstd::prelude::*;
use crate::decor::DecorationMode;
use crate::decor::append_bytes;
use crate::decor::decorate_chunk;
use crate::decor::decorate_spec;
use crate::decor::lemma_strip_decorate;
use crate::decor::strip_spec;

verus! {

/// The concatenation of a sequence of byte chunks.
pub open spec fn concat_chunks(chunks: Seq<Seq<u8>>) -> Seq<u8>
    decreases chunks.len(),
{
    if chunks.len() == 0 {
        Seq::empty()
    } else {
        concat_chunks(chunks.drop_last()) + chunks.last()
    }
}

/// The views of a vector of byte chunks.
pub open spec fn chunk_views(chunks: Seq<Vec<u8>>) -> Seq<Seq<u8>> {
    chunks.map(|i: int, c: Vec<u8>| c@)
}

/// The stdout relay: forwards every chunk verbatim, so the invoker's
/// stdout receives exactly the bytes the child wrote, in order, for every
/// way the stream was cut into chunks.
pub fn relay_stdout_chunks(chunks: &Vec<Vec<u8>>) -> (out: Vec<u8>)
    ensures
        out@ == concat_chunks(chunk_views(chunks@)),
{
    let views = Ghost(chunk_views(chunks@));
    let mut out: Vec<u8> = Vec::new();
    let mut i: usize = 0;
    while i < chunks.len()
        invariant
            i <= chunks@.len(),
            views@ == chunk_views(chunks@),
            out@ == concat_chunks(views@.take(i as int)),
        decreases chunks@.len() - i,
    {
        append_bytes(&mut out, chunks[i].as_slice());
        proof {
            assert(views@.take(i as int + 1).drop_last() =~= views@.take(i as int));
            assert(views@.take(i as int + 1).last() == chunks@[i as int]@);
        }
        i = i + 1;
    }
    proof {
        assert(views@.take(chunks@.len() as int) =~= views@);
    }
    out
}

/// The decorated form of every chunk of a stderr stream.
pub open spec fn decorated_views(chunks: Seq<Seq<u8>>, mode: DecorationMode) -> Seq<Seq<u8>> {
    chunks.map(|i: int, c: Seq<u8>| decorate_spec(c, mode))
}

/// The stderr relay: decorates every chunk before forwarding it, so the
/// invoker's stderr receives the concatenation of the decorated chunks.
/// In plain mode each chunk is one line of the child's stderr.
pub fn relay_stderr_chunks(chunks: &Vec<Vec<u8>>, mode: DecorationMode) -> (out: Vec<u8>)
    ensures
        out@ == concat_chunks(decorated_views(chunk_views(chunks@), mode)),
{
    let decorated = Ghost(decorated_views(chunk_views(chunks@), mode));
    let mut out: Vec<u8> = Vec::new();
    let mut i: usize = 0;
    while i < chunks.len()
        invariant
            i <= chunks@.len(),
            decorated@ == decorated_views(chunk_views(chunks@), mode),
            out@ == concat_chunks(decorated@.take(i as int)),
        decreases chunks@.len() - i,
    {
        let piece = decorate_chunk(&chunks[i], mode);
        append_bytes(&mut out, piece.as_slice());
        proof {
            assert(decorated@.take(i as int + 1).drop_last() =~= decorated@.take(i as int));
            assert(decorated@.take(i as int + 1).last() == decorate_spec(chunks@[i as int]@, mode));
        }
        i = i + 1;
    }
    proof {
        assert(decorated@.take(chunks@.len() as int) =~= decorated@);
    }
    out
}

/// Stripping the decoration from each relayed stderr chunk recovers the
/// child's stderr stream exactly: the concatenation of the stripped chunks
/// equals the concatenation of the original chunks, in either decoration
/// mode.
pub proof fn lemma_stderr_roundtrip(chunks: Seq<Seq<u8>>, mode: DecorationMode)
    ensures
        concat_chunks(
            decorated_views(chunks, mode).map(|i: int, d: Seq<u8>| strip_spec(d, mode)),
        ) == concat_chunks(chunks),
{
    let stripped = decorated_views(chunks, mode).map(|i: int, d: Seq<u8>| strip_spec(d, mode));
    assert forall|i: int| 0 <= i < chunks.len() implies stripped[i] == chunks[i] by {
        lemma_strip_decorate(chunks[i], mode);
    }
    assert(stripped =~= chunks);
}

} // verus!
