//! The publishing side of the pipe: from reads to outbound chunks.
//!
//! The archive producer writes into a bounded pipe; the consumer reads it
//! with a buffer of fixed size and sends each read on as one chunk. What
//! stands here is the consumer's rule for one read, and what follows from it
//! for a whole stream.
use vstd::prelude::*;

verus! {

/// The capacity of the pipe between the producer and the consumer, in bytes.
pub const PIPE_CAPACITY: usize = 8192;

/// The size of the consumer's read buffer, and so the largest chunk, in bytes.
pub const CHUNK_SIZE: usize = 8192;

/// What one read from the pipe returned.
#[derive(Debug, Clone, Copy, PartialEq, Eq, Structural)]
pub enum PipeRead {
    /// So many bytes were read into the front of the buffer. None means that
    /// the producer has closed its end and everything has been read.
    Bytes { count: usize },
    /// The read failed.
    Failed,
}

/// What the consumer sends on after one read.
#[derive(Debug, Clone, PartialEq, Eq)]
pub enum Outbound {
    /// One element of the outbound sequence.
    Chunk { data: Vec<u8> },
    /// The outbound sequence ends here.
    End,
}

/// The mathematical content of an [`Outbound`].
pub enum OutboundView {
    Chunk { data: Seq<u8> },
    End,
}

impl View for Outbound {
    type V = OutboundView;

    open spec fn view(&self) -> OutboundView {
        match *self {
            Outbound::Chunk { data } => OutboundView::Chunk { data: data@ },
            Outbound::End => OutboundView::End,
        }
    }
}

impl PipeRead {
    /// The number of bytes that the read took out of the pipe.
    pub open spec fn taken(self) -> int {
        match self {
            PipeRead::Bytes { count } => count as int,
            PipeRead::Failed => 0,
        }
    }
}

/// The consumer's rule: a read of some bytes sends exactly those bytes on as
/// one chunk; a read of no bytes ends the sequence; so does a failed read.
pub open spec fn outbound_of(buffer: Seq<u8>, read: PipeRead) -> OutboundView {
    match read {
        PipeRead::Bytes { count } => if count == 0 {
            OutboundView::End
        } else {
            OutboundView::Chunk { data: buffer.take(count as int) }
        },
        PipeRead::Failed => OutboundView::End,
    }
}

/// One read as the consumer sees it: the buffer after the read, and what the
/// read returned.
pub struct ReadStep {
    pub buffer: Seq<u8>,
    pub read: PipeRead,
}

/// The chunks that a series of reads sends on: one for each read, up to the
/// first read that ends the sequence.
pub open spec fn chunks_of(reads: Seq<ReadStep>) -> Seq<Seq<u8>>
    decreases reads.len(),
{
    if reads.len() == 0 {
        Seq::empty()
    } else {
        match outbound_of(reads[0].buffer, reads[0].read) {
            OutboundView::Chunk { data } => seq![data] + chunks_of(reads.drop_first()),
            OutboundView::End => Seq::empty(),
        }
    }
}

/// All bytes of a series of chunks, in order.
pub open spec fn bytes_of(chunks: Seq<Seq<u8>>) -> Seq<u8>
    decreases chunks.len(),
{
    if chunks.len() == 0 {
        Seq::empty()
    } else {
        chunks[0] + bytes_of(chunks.drop_first())
    }
}

/// The bytes that a series of reads took out of the pipe, up to the first
/// read that took none or failed.
pub open spec fn bytes_read(reads: Seq<ReadStep>) -> Seq<u8>
    decreases reads.len(),
{
    if reads.len() == 0 {
        Seq::empty()
    } else {
        match reads[0].read {
            PipeRead::Bytes { count } => if count == 0 {
                Seq::empty()
            } else {
                reads[0].buffer.take(count as int) + bytes_read(reads.drop_first())
            },
            PipeRead::Failed => Seq::empty(),
        }
    }
}

/// Applies the consumer's rule to one read.
///
/// `buffer` is the read buffer after the read. A read cannot return more
/// bytes than the buffer holds.
pub fn next_outbound(buffer: &[u8], read: PipeRead) -> (out: Outbound)
    requires
        read matches PipeRead::Bytes { count } ==> count <= buffer@.len(),
    ensures
        out@ == outbound_of(buffer@, read),
{
    match read {
        PipeRead::Bytes { count } => {
            if count == 0 {
                Outbound::End
            } else {
                let mut data: Vec<u8> = Vec::new();
                let mut i: usize = 0;
                while i < count
                    invariant
                        i <= count <= buffer@.len(),
                        data@ == buffer@.take(i as int),
                    decreases count - i,
                {
                    data.push(buffer[i]);
                    assert(data@ =~= buffer@.take(i + 1));
                    i += 1;
                }
                Outbound::Chunk { data }
            }
        },
        PipeRead::Failed => Outbound::End,
    }
}

/// Whether every read of a series returned no more bytes than its buffer holds.
pub open spec fn reads_fit(reads: Seq<ReadStep>) -> bool {
    forall|i: int| 0 <= i < reads.len() ==> (#[trigger] reads[i]).read.taken() <= reads[i].buffer.len()
}

/// The stream is sent on as it was read: the chunks, put end to end, are
/// the bytes that the reads took out of the pipe, in the order of the reads.
/// Where no read returned more than its buffer holds, no chunk is empty and
/// none is longer than the buffer it was read into.
pub proof fn lemma_chunks_keep_the_stream(reads: Seq<ReadStep>)
    ensures
        bytes_of(chunks_of(reads)) == bytes_read(reads),
        chunks_of(reads).len() <= reads.len(),
        forall|i: int|
            0 <= i < chunks_of(reads).len() ==> {
                &&& (#[trigger] reads[i]).read.taken() > 0
                &&& chunks_of(reads)[i] == reads[i].buffer.take(reads[i].read.taken())
            },
        reads_fit(reads) ==> forall|i: int|
            0 <= i < chunks_of(reads).len() ==> 0 < chunks_of(reads)[i].len() <= (
            #[trigger] reads[i]).buffer.len(),
    decreases reads.len(),
{
    let chunks = chunks_of(reads);
    if reads.len() > 0 {
        let rest = reads.drop_first();
        lemma_chunks_keep_the_stream(rest);
        match outbound_of(reads[0].buffer, reads[0].read) {
            OutboundView::Chunk { data } => {
                assert(chunks == seq![data] + chunks_of(rest));
                assert(chunks.drop_first() =~= chunks_of(rest));
                assert(chunks[0] == data);
                assert forall|i: int| 0 <= i < chunks.len() implies {
                    &&& (#[trigger] reads[i]).read.taken() > 0
                    &&& chunks[i] == reads[i].buffer.take(reads[i].read.taken())
                } by {
                    if i > 0 {
                        assert(chunks[i] == chunks_of(rest)[i - 1]);
                        assert(rest[i - 1] == reads[i]);
                    }
                }
                if reads_fit(reads) {
                    assert forall|i: int| 0 <= i < chunks.len() implies 0 < chunks[i].len() <= (
                    #[trigger] reads[i]).buffer.len() by {
                        assert(reads[i].read.taken() <= reads[i].buffer.len());
                        assert(chunks[i] == reads[i].buffer.take(reads[i].read.taken()));
                    }
                }
            },
            OutboundView::End => {
                assert(chunks.len() == 0);
            },
        }
    } else {
        assert(chunks.len() == 0);
    }
}

/// The sequence ends at the first read of no bytes, and at the first failed
/// read: nothing that is read after it is sent on.
pub proof fn lemma_end_of_stream_ends_the_sequence(
    before: Seq<ReadStep>,
    last: ReadStep,
    after: Seq<ReadStep>,
)
    requires
        last.read == (PipeRead::Bytes { count: 0 }) || last.read == PipeRead::Failed,
        chunks_of(before).len() == before.len(),
    ensures
        chunks_of(before.push(last) + after) == chunks_of(before),
    decreases before.len(),
{
    let all = before.push(last) + after;
    if before.len() == 0 {
        assert(all[0] == last);
        assert(chunks_of(before) =~= Seq::<Seq<u8>>::empty());
    } else {
        assert(all[0] == before[0]);
        assert(all.drop_first() =~= before.drop_first().push(last) + after);
        match outbound_of(before[0].buffer, before[0].read) {
            OutboundView::Chunk { data } => {
                assert(chunks_of(before) == seq![data] + chunks_of(before.drop_first()));
                lemma_end_of_stream_ends_the_sequence(before.drop_first(), last, after);
            },
            OutboundView::End => {
                assert(chunks_of(before) =~= Seq::<Seq<u8>>::empty());
            },
        }
    }
}

} // verus!
