use vstd::prelude::*;
use std::sync::Arc;
use vstd::std_specs::convert::FromSpecImpl;
use crate::buffer::{
    bitrate_supported, is_bitrate_supported, payloads, BufferView, CompressedBuffer,
};
use crate::error::{bare, caused, ErrorKind, ErrorView, VoiceError};
use crate::source::{
    chunk_views, consumed_source, take_outcome, Chunk, ChunkView, PySource, Source, SourceView,
};

verus! {

/// The cause reported when the encoder did not return one packet per chunk.
pub open spec fn packet_count_differs() -> Seq<char> {
    "the encoder must return one packet for each chunk"@
}

/// The packets of a buffer as the chunks that a reader over it gives.
pub open spec fn as_chunks(packets: Seq<Seq<u8>>) -> Seq<ChunkView> {
    Seq::new(packets.len(), |i: int| ChunkView::Packet(packets[i]))
}

/// The reader that `into_source` makes over a buffer.
pub open spec fn fresh_reader(buffer: BufferView) -> SourceView {
    SourceView::Cached { packets: buffer.packets, cursor: 0 }
}

/// A source that was read to its end and waits for the encoder: the chunks
/// it gave, in order, and the bitrate to encode them at.
#[derive(Debug)]
pub struct CompressionJob {
    chunks: Vec<Chunk>,
    bitrate: i32,
}

/// A compression job as a mathematical value.
pub struct JobView {
    pub chunks: Seq<ChunkView>,
    pub bitrate: i32,
}

impl View for CompressionJob {
    type V = JobView;

    closed spec fn view(&self) -> JobView {
        JobView { chunks: chunk_views(self.chunks@), bitrate: self.bitrate }
    }
}

/// What `from_source` returns for a handle that holds `input` and for this
/// bitrate.
pub open spec fn compress_outcome(input: Option<SourceView>, bitrate: i32) -> Result<
    JobView,
    ErrorView,
> {
    match input {
        None => Err(consumed_source()),
        Some(s) => if !bitrate_supported(bitrate) {
            Err(bare(ErrorKind::InvalidBitrate))
        } else {
            match s.drain_outcome() {
                Ok(chunks) => Ok(JobView { chunks, bitrate }),
                Err(e) => Err(e),
            }
        },
    }
}

/// What a handle holds after `from_source`: nothing, unless it held a
/// source and the bitrate was refused, in which case it still holds it.
pub open spec fn after_compress(input: Option<SourceView>, bitrate: i32) -> Option<SourceView> {
    if bitrate_supported(bitrate) {
        None
    } else {
        input
    }
}

/// The cause reported when a handle that holds no buffer any more is asked
/// for a source.
pub open spec fn already_converted() -> Seq<char> {
    "CompressedSource already converted to source."@
}

/// What `finish` returns for this job and these packets.
pub open spec fn finish_outcome(job: JobView, packets: Seq<Seq<u8>>) -> Result<
    BufferView,
    ErrorView,
> {
    if packets.len() != job.chunks.len() {
        Err(caused(ErrorKind::CompressionError, packet_count_differs()))
    } else {
        CompressedBuffer::assemble_outcome(packets, job.bitrate)
    }
}

/// What `finish_framed` returns for this job and these bytes.
pub open spec fn finish_framed_outcome(job: JobView, bytes: Seq<u8>) -> Result<
    BufferView,
    ErrorView,
> {
    match CompressedBuffer::parse_outcome(bytes, job.bitrate) {
        Ok(buffer) => if buffer.packets.len() != job.chunks.len() {
            Err(caused(ErrorKind::CompressionError, packet_count_differs()))
        } else {
            Ok(buffer)
        },
        Err(e) => Err(e),
    }
}

impl CompressionJob {
    /// The chunks to encode, in order.
    pub fn chunks(&self) -> (c: &Vec<Chunk>)
        ensures
            chunk_views(c@) == self@.chunks,
    {
        &self.chunks
    }

    /// The bitrate to encode at.
    pub fn bitrate(&self) -> (b: i32)
        ensures
            b == self@.bitrate,
    {
        self.bitrate
    }

    /// Stores what the encoder made of the job's chunks, one packet for each
    /// and in the same order, as a compressed source.
    pub fn finish(self, packets: &Vec<Vec<u8>>) -> (r: Result<PyCompressedSource, VoiceError>)
        ensures
            match r {
                Ok(h) => h@ is Some && finish_outcome(self@, payloads(packets@)) == Ok::<
                    BufferView,
                    ErrorView,
                >(h@->0),
                Err(e) => finish_outcome(self@, payloads(packets@)) == Err::<BufferView, ErrorView>(
                    e@,
                ),
            },
    {
        if packets.len() != self.chunks.len() {
            return Err(
                VoiceError::CompressionError(
                    "the encoder must return one packet for each chunk".to_owned(),
                ),
            );
        }
        match CompressedBuffer::assemble(packets, self.bitrate) {
            Ok(buffer) => Ok(PyCompressedSource::from(buffer)),
            Err(e) => Err(e),
        }
    }
}

impl CompressionJob {
    /// Stores what the encoder made of the job's chunks where it comes as
    /// one framed byte stream: one packet for each chunk, in the same
    /// order, each behind its two-byte length.
    pub fn finish_framed(self, framed: Vec<u8>) -> (r: Result<PyCompressedSource, VoiceError>)
        ensures
            match r {
                Ok(h) => h@ is Some && finish_framed_outcome(self@, framed@) == Ok::<
                    BufferView,
                    ErrorView,
                >(h@->0),
                Err(e) => finish_framed_outcome(self@, framed@) == Err::<BufferView, ErrorView>(e@),
            },
    {
        match CompressedBuffer::parse(framed, self.bitrate) {
            Ok(buffer) => {
                if buffer.len() != self.chunks.len() {
                    Err(
                        VoiceError::CompressionError(
                            "the encoder must return one packet for each chunk".to_owned(),
                        ),
                    )
                } else {
                    Ok(PyCompressedSource::from(buffer))
                }
            },
            Err(e) => Err(e),
        }
    }
}

/// A handle to a compressed buffer. The buffer is shared by the handle and
/// by every source made from it, and lives as long as any of them.
#[derive(Debug)]
pub struct PyCompressedSource {
    compressed: Option<Arc<CompressedBuffer>>,
}

impl View for PyCompressedSource {
    type V = Option<BufferView>;

    closed spec fn view(&self) -> Option<BufferView> {
        match self.compressed {
            Some(buffer) => Some(buffer@),
            None => None,
        }
    }
}

impl From<CompressedBuffer> for PyCompressedSource {
    /// A handle that holds `memory`.
    fn from(memory: CompressedBuffer) -> (h: Self)
        ensures
            h@ == Some(memory@),
    {
        Self { compressed: Some(Arc::new(memory)) }
    }
}

impl FromSpecImpl<CompressedBuffer> for PyCompressedSource {
    open spec fn obeys_from_spec() -> bool {
        true
    }

    closed spec fn from_spec(v: CompressedBuffer) -> Self {
        PyCompressedSource { compressed: Some(Arc::new(v)) }
    }
}

impl PyCompressedSource {
    /// Whether the handle has let go of its buffer.
    pub open spec fn consumed(&self) -> bool {
        self@ is None
    }

    /// A compressed source cannot be made from nothing: it comes from a
    /// source, by `from_source`. Always fails with `UseAsyncConstructor`.
    pub fn new() -> (r: Result<Self, VoiceError>)
        ensures
            r is Err,
            r->Err_0@ == bare(ErrorKind::UseAsyncConstructor),
    {
        Err(VoiceError::UseAsyncConstructor)
    }

    /// Makes a source that reads the buffer from its first packet. The
    /// buffer is shared, not copied, and the handle is left as it is: it
    /// can be asked again, any number of times, and each source has a
    /// cursor of its own. Fails with `ConsumedSource` only on a handle that
    /// has let go of its buffer.
    pub fn into_source(&mut self) -> (r: Result<Source, VoiceError>)
        ensures
            final(self)@ == old(self)@,
            match r {
                Ok(s) => s.wf() && old(self)@ is Some && s@ == fresh_reader(old(self)@->0),
                Err(e) => old(self)@ is None && e@ == caused(
                    ErrorKind::ConsumedSource,
                    already_converted(),
                ),
            },
    {
        match &self.compressed {
            Some(compressed) => Ok(Source::from_buffer(compressed)),
            None => Err(
                VoiceError::ConsumedSource(
                    "CompressedSource already converted to source.".to_owned(),
                ),
            ),
        }
    }

    /// Lets go of the handle's share of the buffer. The sources made from
    /// it keep theirs, and the buffer lives as long as any of them; the
    /// handle itself gives no further source.
    pub fn release(&mut self)
        ensures
            final(self).consumed(),
    {
        self.compressed = None;
    }

    /// Begins the compression of the source that `input` holds, at `bitrate`.
    ///
    /// A source that was already handed on is refused with
    /// `ConsumedSource`, whatever the bitrate. A bitrate that the codec does
    /// not support is refused with `InvalidBitrate`, and the source stays
    /// where it is. Otherwise the source is taken out of `input` and read to
    /// its end: its chunks come back as a job for the encoder, or its
    /// reader's failure as `SourceDecodeError`.
    pub fn from_source(input: &mut PySource, bitrate: i32) -> (r: Result<
        CompressionJob,
        VoiceError,
    >)
        requires
            old(input).wf(),
        ensures
            final(input).wf(),
            final(input)@ == after_compress(old(input)@, bitrate),
            match r {
                Ok(job) => compress_outcome(old(input)@, bitrate) == Ok::<JobView, ErrorView>(
                    job@,
                ),
                Err(e) => compress_outcome(old(input)@, bitrate) == Err::<JobView, ErrorView>(e@),
            },
    {
        if input.is_consumed() {
            return Err(VoiceError::ConsumedSource("the source was already handed on".to_owned()));
        }
        if !is_bitrate_supported(bitrate) {
            return Err(VoiceError::InvalidBitrate);
        }
        let mut source = match input.take() {
            Ok(s) => s,
            Err(e) => {
                return Err(e);
            },
        };
        match source.drain() {
            Ok(chunks) => Ok(CompressionJob { chunks, bitrate }),
            Err(reason) => Err(reason),
        }
    }
}

/// Every source made from a buffer gives the buffer's packets, all of them
/// and in order, wherever the cursor of any other source over the same
/// buffer stands: two of them decode to the same audio.
pub proof fn sources_of_one_buffer_agree(buffer: BufferView, other: SourceView)
    requires
        other matches SourceView::Cached { packets, cursor } && packets == buffer.packets,
        other.wf(),
    ensures
        fresh_reader(buffer).wf(),
        fresh_reader(buffer).pending() == as_chunks(buffer.packets),
        fresh_reader(buffer).drain_outcome() == Ok::<Seq<ChunkView>, ErrorView>(
            as_chunks(buffer.packets),
        ),
        fresh_reader(buffer) == other.after_seek(0),
{
    assert(fresh_reader(buffer).pending() =~= as_chunks(buffer.packets));
}

/// Once a source was compressed, every further use of its handle reports
/// `ConsumedSource`: taking the source out, and compressing it again at any
/// bitrate whatever.
pub proof fn compressed_source_is_consumed(input: Option<SourceView>, bitrate: i32, again: i32)
    requires
        compress_outcome(input, bitrate) is Ok,
    ensures
        after_compress(input, bitrate) is None,
        take_outcome(after_compress(input, bitrate)) == Err::<SourceView, ErrorView>(
            consumed_source(),
        ),
        compress_outcome(after_compress(input, bitrate), again) == Err::<JobView, ErrorView>(
            consumed_source(),
        ),
{
}

/// A bitrate that the codec does not support is refused without the source
/// being taken: the handle holds afterwards what it held before.
pub proof fn refused_bitrate_keeps_source(input: Option<SourceView>, bitrate: i32)
    requires
        !bitrate_supported(bitrate),
    ensures
        after_compress(input, bitrate) == input,
        input is Some ==> compress_outcome(input, bitrate) == Err::<JobView, ErrorView>(
            bare(ErrorKind::InvalidBitrate),
        ),
        input is None ==> compress_outcome(input, bitrate) == Err::<JobView, ErrorView>(
            consumed_source(),
        ),
{
}

} // verus!
