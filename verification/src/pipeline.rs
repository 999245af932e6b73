use vstd::prelude::*;
use crate::error::{ErrorView, VoiceError};
use crate::machine::unit_outcome;
use crate::source::{consumed_source, Chunk, ChunkView, PySource, Source, SourceView};

verus! {

/// Most chunks that the pipeline hands out ahead of the transport.
pub const MAX_AHEAD: usize = 4;

/// What one pull on the pipeline gave.
#[derive(Debug)]
pub enum Pull {
    /// The next chunk of the attached source, and the generation it was
    /// pulled in: what is made of the chunk is sent under that number.
    Chunk(Chunk, u64),
    /// The transport is `MAX_AHEAD` chunks behind: nothing was pulled.
    Busy,
    /// The attached source came to its end and was detached.
    Finished,
    /// The attached source's reader failed and the source was detached.
    Failed(VoiceError),
    /// No source is attached.
    Idle,
    /// The session is not live, so nothing may flow.
    Paused,
}

/// A pull's result as a mathematical value.
pub enum PullView {
    Chunk(ChunkView, u64),
    Busy,
    Finished,
    Failed(ErrorView),
    Idle,
    Paused,
}

impl View for Pull {
    type V = PullView;

    open spec fn view(&self) -> PullView {
        match self {
            Pull::Chunk(c, g) => PullView::Chunk(c@, *g),
            Pull::Busy => PullView::Busy,
            Pull::Finished => PullView::Finished,
            Pull::Failed(e) => PullView::Failed(e@),
            Pull::Idle => PullView::Idle,
            Pull::Paused => PullView::Paused,
        }
    }
}

/// The generation that follows `generation`. It differs from it, always.
pub open spec fn next_generation(generation: u64) -> u64 {
    if generation == u64::MAX {
        0
    } else {
        (generation + 1) as u64
    }
}

/// The pipeline as a mathematical value: the attached source, if any, how
/// many chunks were handed out that the transport has not yet sent, and
/// the generation, which changes whenever what plays is replaced or
/// dropped.
pub struct PipelineView {
    pub current: Option<SourceView>,
    pub ahead: int,
    pub generation: u64,
}

impl PipelineView {
    /// At most `MAX_AHEAD` chunks are in flight, and the attached source,
    /// if any, is well formed.
    pub open spec fn wf(self) -> bool {
        &&& 0 <= self.ahead <= MAX_AHEAD
        &&& self.current matches Some(s) ==> s.wf()
    }

    /// The pipeline as it is made: nothing attached, nothing in flight.
    pub open spec fn empty() -> PipelineView {
        PipelineView { current: None, ahead: 0, generation: 0 }
    }

    /// Nothing is attached and nothing is in flight.
    pub open spec fn idle(self) -> bool {
        self.current is None && self.ahead == 0
    }

    /// The pipeline after `source` was attached: whatever played before is
    /// gone, and so is every chunk of it that was still in flight. What was
    /// pulled before belongs to an earlier generation from now on.
    pub open spec fn on_attach(self, source: SourceView) -> PipelineView {
        PipelineView {
            current: Some(source),
            ahead: 0,
            generation: next_generation(self.generation),
        }
    }

    /// The pipeline after what it played was dropped. An idle pipeline
    /// stays as it is.
    pub open spec fn released(self) -> PipelineView {
        if self.idle() {
            self
        } else {
            PipelineView { current: None, ahead: 0, generation: next_generation(self.generation) }
        }
    }

    /// The pipeline after one pull.
    pub open spec fn on_pull(self) -> PipelineView {
        match self.current {
            None => self,
            Some(s) => if self.ahead >= MAX_AHEAD {
                self
            } else if s.remaining() > 0 {
                PipelineView { current: Some(s.after_pull()), ahead: self.ahead + 1, ..self }
            } else {
                PipelineView { current: None, ..self }
            },
        }
    }

    /// What one pull gives.
    pub open spec fn pull_outcome(self) -> PullView {
        match self.current {
            None => PullView::Idle,
            Some(s) => if self.ahead >= MAX_AHEAD {
                PullView::Busy
            } else {
                match s.pull_outcome() {
                    Ok(Some(c)) => PullView::Chunk(c, self.generation),
                    Ok(None) => PullView::Finished,
                    Err(e) => PullView::Failed(e),
                }
            },
        }
    }

    /// The pipeline after the transport sent one chunk.
    pub open spec fn on_sent(self) -> PipelineView {
        PipelineView {
            ahead: if self.ahead > 0 {
                self.ahead - 1
            } else {
                0
            },
            ..self
        }
    }
}

/// Feeds the transport from one source at a time, never more than
/// `MAX_AHEAD` chunks ahead of it.
#[derive(Debug)]
pub struct AudioPipeline {
    current: Option<Source>,
    ahead: usize,
    generation: u64,
}

impl View for AudioPipeline {
    type V = PipelineView;

    closed spec fn view(&self) -> PipelineView {
        PipelineView {
            current: match self.current {
                Some(s) => Some(s@),
                None => None,
            },
            ahead: self.ahead as int,
            generation: self.generation,
        }
    }
}

impl AudioPipeline {
    /// The invariant that every constructor establishes and every method keeps.
    pub closed spec fn wf(&self) -> bool {
        &&& self@.wf()
        &&& self.current matches Some(s) ==> s.wf()
    }

    /// What the invariant says of the pipeline as a mathematical value.
    pub proof fn wf_of_view(&self)
        requires
            self.wf(),
        ensures
            self@.wf(),
    {
    }

    /// A pipeline with nothing attached.
    pub fn new() -> (p: AudioPipeline)
        ensures
            p.wf(),
            p@ == PipelineView::empty(),
    {
        AudioPipeline { current: None, ahead: 0, generation: 0 }
    }

    /// Whether a source is attached.
    pub fn is_attached(&self) -> (attached: bool)
        ensures
            attached == (self@.current is Some),
    {
        self.current.is_some()
    }

    /// How many chunks are in flight.
    pub fn in_flight(&self) -> (n: usize)
        ensures
            n == self@.ahead,
    {
        self.ahead
    }

    /// The generation that chunks are pulled in now.
    pub fn generation(&self) -> (g: u64)
        ensures
            g == self@.generation,
    {
        self.generation
    }

    /// Takes the source out of `handle` and plays it from now on. A source
    /// that was playing is stopped and dropped, together with what was in
    /// flight of it. Fails with `ConsumedSource`, changing nothing, when the
    /// handle's source was already handed on.
    pub fn attach(&mut self, handle: &mut PySource) -> (r: Result<(), VoiceError>)
        requires
            old(self).wf(),
            old(handle).wf(),
        ensures
            final(self).wf(),
            final(handle).wf(),
            final(handle).consumed(),
            match old(handle)@ {
                Some(s) => r is Ok && final(self)@ == old(self)@.on_attach(s),
                None => unit_outcome(r) == Err::<(), ErrorView>(consumed_source())
                    && final(self)@ == old(self)@,
            },
    {
        match handle.take() {
            Ok(source) => {
                self.current = Some(source);
                self.ahead = 0;
                self.generation = Self::following(self.generation);
                Ok(())
            },
            Err(e) => Err(e),
        }
    }

    /// The generation after `generation`.
    fn following(generation: u64) -> (g: u64)
        ensures
            g == next_generation(generation),
    {
        if generation == u64::MAX {
            0
        } else {
            generation + 1
        }
    }

    /// Pulls the next chunk for the transport, unless the transport is
    /// `MAX_AHEAD` chunks behind. A source that ends, cleanly or in a
    /// failure, is detached.
    pub fn pull(&mut self) -> (r: Pull)
        requires
            old(self).wf(),
        ensures
            final(self).wf(),
            final(self)@ == old(self)@.on_pull(),
            r@ == old(self)@.pull_outcome(),
    {
        if self.ahead >= MAX_AHEAD {
            return match &self.current {
                Some(_) => Pull::Busy,
                None => Pull::Idle,
            };
        }
        let pulled = match &mut self.current {
            Some(source) => {
                proof {
                    crate::source::wf_bounds_remaining(source@);
                }
                source.pull()
            },
            None => {
                return Pull::Idle;
            },
        };
        match pulled {
            Ok(Some(chunk)) => {
                self.ahead = self.ahead + 1;
                Pull::Chunk(chunk, self.generation)
            },
            Ok(None) => {
                self.current = None;
                Pull::Finished
            },
            Err(e) => {
                self.current = None;
                Pull::Failed(e)
            },
        }
    }

    /// Takes in that the transport sent one chunk.
    pub fn sent(&mut self)
        requires
            old(self).wf(),
        ensures
            final(self).wf(),
            final(self)@ == old(self)@.on_sent(),
    {
        if self.ahead > 0 {
            self.ahead = self.ahead - 1;
        }
    }

    /// Drops the attached source, if any, and what was in flight of it.
    /// What was pulled before belongs to an earlier generation afterwards.
    pub fn detach(&mut self)
        requires
            old(self).wf(),
        ensures
            final(self).wf(),
            final(self)@ == old(self)@.released(),
    {
        if self.current.is_some() || self.ahead > 0 {
            self.current = None;
            self.ahead = 0;
            self.generation = Self::following(self.generation);
        }
    }
}

/// After a source is attached, the pipeline gives that source's chunks and
/// no others, whatever was attached or in flight before, and gives them in
/// a generation of their own.
pub proof fn attach_preempts(before: PipelineView, source: SourceView)
    requires
        before.wf(),
        source.wf(),
    ensures
        before.on_attach(source).wf(),
        before.on_attach(source).current == Some(source),
        before.on_attach(source).ahead == 0,
        before.on_attach(source).generation != before.generation,
        source.remaining() > 0 ==> before.on_attach(source).pull_outcome() == PullView::Chunk(
            source.pending()[0],
            before.on_attach(source).generation,
        ),
{
}

} // verus!
