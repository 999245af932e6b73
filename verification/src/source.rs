use vstd::prelude::*;
use std::sync::Arc;
use crate::buffer::CompressedBuffer;
use crate::error::{caused, ErrorKind, ErrorView, VoiceError};

verus! {

/// Bytes in one frame of raw audio: 20 ms of 16-bit stereo samples at 48 kHz.
pub const FRAME_BYTES: usize = 3840;

/// One unit of audio pulled from a source.
#[derive(Debug)]
pub enum Chunk {
    /// A full frame of raw samples, still to be encoded.
    Pcm(Vec<u8>),
    /// A packet that is already encoded for the wire.
    Packet(Vec<u8>),
}

/// A chunk as a mathematical value.
pub enum ChunkView {
    Pcm(Seq<u8>),
    Packet(Seq<u8>),
}

impl View for Chunk {
    type V = ChunkView;

    open spec fn view(&self) -> ChunkView {
        match self {
            Chunk::Pcm(b) => ChunkView::Pcm(b@),
            Chunk::Packet(b) => ChunkView::Packet(b@),
        }
    }
}

/// The chunks of a list, as mathematical values.
pub open spec fn chunk_views(chunks: Seq<Chunk>) -> Seq<ChunkView> {
    Seq::new(chunks.len(), |i: int| chunks[i]@)
}

/// The frame of raw audio that begins at byte `start` of `data`: the bytes
/// that are there, then zeros up to the frame's length.
pub open spec fn pcm_frame(data: Seq<u8>, start: int) -> Seq<u8> {
    Seq::new(
        FRAME_BYTES as nat,
        |i: int|
            if start + i < data.len() {
                data[start + i]
            } else {
                0u8
            },
    )
}

/// A source as a mathematical value.
pub enum SourceView {
    /// A reader of raw audio: its bytes, how many of them were read, and the
    /// failure, if any, that the reader ends in.
    Raw { data: Seq<u8>, cursor: int, fault: Option<Seq<char>> },
    /// A reader over a compressed buffer's packets: the packets and how many
    /// of them were read.
    Cached { packets: Seq<Seq<u8>>, cursor: int },
}

impl SourceView {
    /// The cursor stands within what the reader reads.
    pub open spec fn wf(self) -> bool {
        match self {
            SourceView::Raw { data, cursor, fault } => 0 <= cursor <= data.len(),
            SourceView::Cached { packets, cursor } => 0 <= cursor <= packets.len(),
        }
    }

    /// How many chunks the source has yet to give.
    pub open spec fn remaining(self) -> int {
        match self {
            SourceView::Raw { data, cursor, fault } => (data.len() - cursor + FRAME_BYTES - 1)
                / (FRAME_BYTES as int),
            SourceView::Cached { packets, cursor } => packets.len() - cursor,
        }
    }

    /// The failure that the source's reader ends in, if any.
    pub open spec fn fault(self) -> Option<Seq<char>> {
        match self {
            SourceView::Raw { data, cursor, fault } => fault,
            SourceView::Cached { packets, cursor } => None,
        }
    }

    /// Chunk `k` of those the source has yet to give.
    pub open spec fn upcoming(self, k: int) -> ChunkView {
        match self {
            SourceView::Raw { data, cursor, fault } => ChunkView::Pcm(
                pcm_frame(data, cursor + k * FRAME_BYTES),
            ),
            SourceView::Cached { packets, cursor } => ChunkView::Packet(packets[cursor + k]),
        }
    }

    /// All the chunks the source has yet to give, in order.
    pub open spec fn pending(self) -> Seq<ChunkView> {
        Seq::new(self.remaining() as nat, |k: int| self.upcoming(k))
    }

    /// The source after one pull.
    pub open spec fn after_pull(self) -> SourceView {
        match self {
            SourceView::Raw { data, cursor, fault } => SourceView::Raw {
                data,
                cursor: if cursor + FRAME_BYTES <= data.len() {
                    cursor + FRAME_BYTES
                } else {
                    data.len() as int
                },
                fault,
            },
            SourceView::Cached { packets, cursor } => SourceView::Cached {
                packets,
                cursor: if cursor < packets.len() {
                    cursor + 1
                } else {
                    cursor
                },
            },
        }
    }

    /// What one pull returns: the next chunk while there is one, then the
    /// reader's failure if it ends in one, else the end of the audio.
    pub open spec fn pull_outcome(self) -> Result<Option<ChunkView>, ErrorView> {
        if self.remaining() > 0 {
            Ok(Some(self.upcoming(0)))
        } else if self.fault() is Some {
            Err(caused(ErrorKind::SourceDecodeError, self.fault()->0))
        } else {
            Ok(None)
        }
    }

    /// What reading the source to its end returns: all its pending chunks,
    /// or the reader's failure if it ends in one.
    pub open spec fn drain_outcome(self) -> Result<Seq<ChunkView>, ErrorView> {
        if self.fault() is Some {
            Err(caused(ErrorKind::SourceDecodeError, self.fault()->0))
        } else {
            Ok(self.pending())
        }
    }

    /// The source once it was read to its end.
    pub open spec fn finished(self) -> SourceView {
        match self {
            SourceView::Raw { data, cursor, fault } => SourceView::Raw {
                data,
                cursor: data.len() as int,
                fault,
            },
            SourceView::Cached { packets, cursor } => SourceView::Cached {
                packets,
                cursor: packets.len() as int,
            },
        }
    }

    /// The source after a seek to chunk `position`.
    pub open spec fn after_seek(self, position: int) -> SourceView {
        match self {
            SourceView::Cached { packets, cursor } => if position <= packets.len() {
                SourceView::Cached { packets, cursor: position }
            } else {
                self
            },
            _ => self,
        }
    }

    /// Whether a seek to chunk `position` is possible: only a reader over a
    /// compressed buffer can seek, and only to a packet it holds or its end.
    pub open spec fn can_seek(self, position: int) -> bool {
        self matches SourceView::Cached { packets, cursor } && position <= packets.len()
    }
}

/// A pull takes the first pending chunk and leaves the others pending.
pub proof fn pull_consumes_first(s: SourceView)
    requires
        s.wf(),
        s.remaining() > 0,
    ensures
        s.after_pull().wf(),
        s.after_pull().remaining() == s.remaining() - 1,
        s.after_pull().pending() == s.pending().skip(1),
        s.after_pull().fault() == s.fault(),
{
    let t = s.after_pull();
    match s {
        SourceView::Raw { data, cursor, fault } => {
            if cursor + FRAME_BYTES <= data.len() {
                assert(t.remaining() == s.remaining() - 1);
            } else {
                assert(s.remaining() == 1);
                assert(t.remaining() == 0);
            }
            assert forall|k: int| 0 <= k < t.remaining() implies t.upcoming(k) == s.upcoming(
                k + 1,
            ) by {
                assert(cursor + FRAME_BYTES + k * FRAME_BYTES == cursor + (k + 1) * FRAME_BYTES)
                    by (nonlinear_arith);
            }
        },
        SourceView::Cached { packets, cursor } => {},
    }
    assert(t.pending() =~= s.pending().skip(1));
}

/// A source with nothing left to give is at its end, and stays there.
pub proof fn wf_bounds_remaining(s: SourceView)
    requires
        s.wf(),
    ensures
        s.remaining() >= 0,
        s.remaining() == 0 ==> s.after_pull() == s && s.finished() == s,
        s.after_pull().finished() == s.finished(),
        s.finished().remaining() == 0,
{
}

/// A stateful, single-pass producer of audio: a reader, a cursor into what
/// it reads, and the failure it ends in, if any.
#[derive(Debug)]
pub struct Source {
    raw: Vec<u8>,
    cached: Option<Arc<CompressedBuffer>>,
    cursor: usize,
    fault: Option<String>,
}

impl View for Source {
    type V = SourceView;

    closed spec fn view(&self) -> SourceView {
        match self.cached {
            Some(buffer) => SourceView::Cached { packets: buffer@.packets, cursor: self.cursor as int },
            None => SourceView::Raw {
                data: self.raw@,
                cursor: self.cursor as int,
                fault: match self.fault {
                    Some(text) => Some(text@),
                    None => None,
                },
            },
        }
    }
}

/// `Arc::clone`: hands out another handle to the allocation that `buffer`
/// points to. The new handle points to the very same buffer; nothing is
/// copied and the buffer is not changed.
#[verifier::external_body]
fn share(buffer: &Arc<CompressedBuffer>) -> (handle: Arc<CompressedBuffer>)
    ensures
        handle == *buffer,
{
    Arc::clone(buffer)
}

impl Source {
    /// The part of the invariant that concerns what stands behind the
    /// reader: one over a compressed buffer holds no raw bytes and has no
    /// failure to end in.
    pub closed spec fn backed(&self) -> bool {
        self.cached is Some ==> self.raw@.len() == 0 && self.fault is None
    }

    /// The invariant that every constructor establishes and every method keeps.
    pub open spec fn wf(&self) -> bool {
        self@.wf() && self.backed()
    }

    /// A reader of the raw audio in `data` that ends cleanly.
    pub fn from_pcm(data: Vec<u8>) -> (s: Source)
        ensures
            s.wf(),
            s@ == (SourceView::Raw { data: data@, cursor: 0, fault: None }),
    {
        Source { raw: data, cached: None, cursor: 0, fault: None }
    }

    /// A reader of the raw audio in `data` whose provider fails, for
    /// `cause`, once `data` has been read.
    pub fn from_failing_pcm(data: Vec<u8>, cause: String) -> (s: Source)
        ensures
            s.wf(),
            s@ == (SourceView::Raw { data: data@, cursor: 0, fault: Some(cause@) }),
    {
        Source { raw: data, cached: None, cursor: 0, fault: Some(cause) }
    }

    /// A new reader over `buffer`, at its first packet. The buffer is shared,
    /// not copied, and each reader has a cursor of its own.
    pub fn from_buffer(buffer: &Arc<CompressedBuffer>) -> (s: Source)
        ensures
            s.wf(),
            s@ == (SourceView::Cached { packets: buffer@.packets, cursor: 0 }),
    {
        Source { raw: Vec::new(), cached: Some(share(buffer)), cursor: 0, fault: None }
    }

    /// Whether the source has no chunk left to give.
    pub fn is_exhausted(&self) -> (done: bool)
        requires
            self.wf(),
        ensures
            done == (self@.remaining() == 0),
    {
        match &self.cached {
            Some(buffer) => self.cursor >= buffer.len(),
            None => self.cursor >= self.raw.len(),
        }
    }

    /// Pulls the next chunk: a zero-padded frame of raw audio, or the next
    /// packet of a compressed buffer. At the end of the audio it returns
    /// `None`, or the reader's failure if it ends in one.
    pub fn pull(&mut self) -> (r: Result<Option<Chunk>, VoiceError>)
        requires
            old(self).wf(),
        ensures
            final(self).wf(),
            final(self)@ == old(self)@.after_pull(),
            match r {
                Ok(Some(c)) => old(self)@.pull_outcome() == Ok::<Option<ChunkView>, ErrorView>(
                    Some(c@),
                ),
                Ok(None) => old(self)@.pull_outcome() == Ok::<Option<ChunkView>, ErrorView>(None),
                Err(e) => old(self)@.pull_outcome() == Err::<Option<ChunkView>, ErrorView>(e@),
            },
    {
        if self.is_exhausted() {
            return match &self.fault {
                Some(text) => Err(VoiceError::SourceDecodeError(text.clone())),
                None => Ok(None),
            };
        }
        let start = self.cursor;
        match &self.cached {
            Some(buffer) => {
                let count = buffer.len();
                let packet = buffer.packet(start);
                self.cursor = if start < count {
                    start + 1
                } else {
                    start
                };
                match packet {
                    Some(bytes) => Ok(Some(Chunk::Packet(bytes))),
                    None => Ok(None),
                }
            },
            None => {
                let total = self.raw.len();
                let mut frame: Vec<u8> = Vec::new();
                let mut i: usize = 0;
                while i < FRAME_BYTES
                    invariant
                        i <= FRAME_BYTES,
                        start < total,
                        total == self.raw@.len(),
                        frame@ == pcm_frame(self.raw@, start as int).take(i as int),
                    decreases FRAME_BYTES - i,
                {
                    let byte = if i < total - start {
                        self.raw[start + i]
                    } else {
                        0u8
                    };
                    frame.push(byte);
                    i = i + 1;
                    proof {
                        assert(frame@ =~= pcm_frame(self.raw@, start as int).take(i as int));
                    }
                }
                proof {
                    assert(frame@ =~= pcm_frame(self.raw@, start as int));
                }
                self.cursor = if total - start >= FRAME_BYTES {
                    start + FRAME_BYTES
                } else {
                    total
                };
                Ok(Some(Chunk::Pcm(frame)))
            },
        }
    }

    /// Moves a reader over a compressed buffer to chunk `position`, so that
    /// the audio can be replayed from there. Returns whether it moved: a
    /// reader of raw audio cannot seek, and no reader can seek past its end.
    pub fn seek(&mut self, position: usize) -> (moved: bool)
        requires
            old(self).wf(),
        ensures
            final(self).wf(),
            moved == old(self)@.can_seek(position as int),
            final(self)@ == old(self)@.after_seek(position as int),
    {
        let within = match &self.cached {
            Some(buffer) => position <= buffer.len(),
            None => false,
        };
        if within {
            self.cursor = position;
        }
        within
    }

    /// Reads the source to its end. Returns every chunk it had yet to give,
    /// in order, or the reader's failure if it ends in one.
    pub fn drain(&mut self) -> (r: Result<Vec<Chunk>, VoiceError>)
        requires
            old(self).wf(),
        ensures
            final(self).wf(),
            final(self)@ == old(self)@.finished(),
            match r {
                Ok(chunks) => old(self)@.drain_outcome() == Ok::<Seq<ChunkView>, ErrorView>(
                    chunk_views(chunks@),
                ),
                Err(e) => old(self)@.drain_outcome() == Err::<Seq<ChunkView>, ErrorView>(e@),
            },
    {
        let mut chunks: Vec<Chunk> = Vec::new();
        loop
            invariant
                self.wf(),
                self@.fault() == old(self)@.fault(),
                self@.finished() == old(self)@.finished(),
                self@.remaining() >= 0,
                chunk_views(chunks@) + self@.pending() == old(self)@.pending(),
            decreases self@.remaining(),
        {
            proof {
                wf_bounds_remaining(self@);
                if self@.remaining() > 0 {
                    pull_consumes_first(self@);
                }
            }
            let ghost before = self@;
            let ghost got = chunk_views(chunks@);
            match self.pull() {
                Ok(Some(chunk)) => {
                    chunks.push(chunk);
                    proof {
                        assert(chunk_views(chunks@) =~= got.push(before.upcoming(0)));
                        assert(before.pending() =~= seq![before.upcoming(0)] + before.pending().skip(
                            1,
                        ));
                        assert(chunk_views(chunks@) + self@.pending() =~= got + before.pending());
                    }
                },
                Ok(None) => {
                    proof {
                        assert(chunk_views(chunks@) =~= old(self)@.pending());
                    }
                    return Ok(chunks);
                },
                Err(e) => {
                    return Err(e);
                },
            }
        }
    }
}

/// The cause reported when a handle is asked for a source it no longer holds.
pub open spec fn source_handed_on() -> Seq<char> {
    "the source was already handed on"@
}

/// The error for a handle that no longer holds its source.
pub open spec fn consumed_source() -> ErrorView {
    caused(ErrorKind::ConsumedSource, source_handed_on())
}

/// What taking the source out of a handle returns: the source it holds, or
/// `ConsumedSource` when it holds none.
pub open spec fn take_outcome(held: Option<SourceView>) -> Result<SourceView, ErrorView> {
    match held {
        Some(s) => Ok(s),
        None => Err(consumed_source()),
    }
}

/// The handle through which a caller holds a source. Handing the source to
/// playback or to compression empties the handle; an empty handle gives no
/// source again.
#[derive(Debug)]
pub struct PySource {
    source: Option<Source>,
}

impl View for PySource {
    type V = Option<SourceView>;

    closed spec fn view(&self) -> Option<SourceView> {
        match self.source {
            Some(s) => Some(s@),
            None => None,
        }
    }
}

impl PySource {
    /// The invariant: the source held, if any, is well formed.
    pub closed spec fn wf(&self) -> bool {
        self.source matches Some(s) ==> s.wf()
    }

    /// Whether the source was already handed on.
    pub open spec fn consumed(&self) -> bool {
        self@ is None
    }

    /// What the invariant says of the held source as a mathematical value.
    pub proof fn wf_of_view(&self)
        requires
            self.wf(),
        ensures
            self@ matches Some(s) ==> s.wf() && s.remaining() >= 0,
    {
    }

    /// A handle that holds `source`.
    pub fn new(source: Source) -> (h: PySource)
        requires
            source.wf(),
        ensures
            h.wf(),
            h@ == Some(source@),
    {
        PySource { source: Some(source) }
    }

    /// Whether the source was already handed on.
    pub fn is_consumed(&self) -> (gone: bool)
        ensures
            gone == self.consumed(),
    {
        self.source.is_none()
    }

    /// Hands the source on. The first call gives the source and empties the
    /// handle; every later call reports `ConsumedSource`.
    pub fn take(&mut self) -> (r: Result<Source, VoiceError>)
        requires
            old(self).wf(),
        ensures
            final(self).wf(),
            final(self).consumed(),
            match r {
                Ok(s) => s.wf() && take_outcome(old(self)@) == Ok::<SourceView, ErrorView>(s@),
                Err(e) => take_outcome(old(self)@) == Err::<SourceView, ErrorView>(e@),
            },
    {
        match self.source.take() {
            Some(s) => Ok(s),
            None => Err(VoiceError::ConsumedSource("the source was already handed on".to_owned())),
        }
    }
}

} // verus!
