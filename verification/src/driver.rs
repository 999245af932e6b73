use vstd::prelude::*;
use crate::error::{bare, ErrorKind, ErrorView, VoiceError};
use crate::machine::{unit_outcome, SessionMachine};
use crate::pipeline::{AudioPipeline, PipelineView, Pull, PullView};
use crate::session::{
    ConnectionInfo, InfoView, Phase, Reaction, ReactionView, SessionState, SessionView, StateView,
};
use crate::source::{consumed_source, PySource, SourceView};
use crate::transport::{Frame, FrameView};

verus! {

/// An initialised driver as a mathematical value: the state of its session
/// and its pipeline.
pub struct CoreView {
    pub state: StateView,
    pub pipeline: PipelineView,
}

/// The connection parameters made of the arguments of `connect`.
pub open spec fn parameters_of(
    token: Seq<char>,
    endpoint: Seq<char>,
    session_id: Seq<char>,
    guild_id: u64,
    channel_id: u64,
    user_id: u64,
) -> InfoView {
    InfoView { token, endpoint, session_id, guild_id, channel_id, user_id }
}

/// What `send` returned, as a mathematical value.
pub open spec fn sent_outcome(r: Result<Option<Frame>, VoiceError>) -> Result<
    Option<FrameView>,
    ErrorView,
> {
    match r {
        Ok(Some(f)) => Ok(Some(f@)),
        Ok(None) => Ok(None),
        Err(e) => Err(e@),
    }
}

/// The error of a command on a driver without a session, or without
/// anything at all.
pub open spec fn not_connected() -> ErrorView {
    bare(ErrorKind::NotConnected)
}

impl CoreView {
    /// A driver has a pipeline in use only while it has a session.
    pub open spec fn wf(self) -> bool {
        &&& self.state.wf()
        &&& self.pipeline.wf()
        &&& !self.state.in_session() ==> self.pipeline.idle()
    }

    /// The driver as `make_driver` leaves one that held `before`: an idle
    /// session, and a pipeline with nothing in it. Generations go on from
    /// where they were, so that nothing pulled before can be sent after.
    pub open spec fn reset(before: Option<CoreView>) -> CoreView {
        CoreView {
            state: StateView::Idle,
            pipeline: match before {
                Some(core) => core.pipeline.released(),
                None => PipelineView::empty(),
            },
        }
    }

    /// What `make_driver` asks for on a driver that held `before`: a
    /// session, or a handshake under way, leaves a transport to release.
    pub open spec fn reset_reaction(before: Option<CoreView>) -> ReactionView {
        match before {
            Some(core) => if core.state.vacant() {
                ReactionView::Nothing
            } else {
                ReactionView::Discard
            },
            None => ReactionView::Nothing,
        }
    }

    /// The driver in session state `state`: it keeps `pipeline` while it
    /// has a session and releases it otherwise.
    pub open spec fn settled(state: StateView, pipeline: PipelineView) -> CoreView {
        CoreView {
            state,
            pipeline: if state.in_session() {
                pipeline
            } else {
                pipeline.released()
            },
        }
    }

    /// The driver after `connect(info)`.
    pub open spec fn on_connect(self, info: InfoView) -> CoreView {
        Self::settled(self.state.on_connect(info), self.pipeline)
    }

    /// The driver after a key exchange that yielded `key`.
    pub open spec fn on_key_exchanged(self, key: Seq<u8>) -> CoreView {
        Self::settled(self.state.on_key_exchanged(key), self.pipeline)
    }

    /// The driver after a handshake that failed.
    pub open spec fn on_handshake_failed(self) -> CoreView {
        Self::settled(self.state.on_handshake_failed(), self.pipeline)
    }

    /// The driver after the transport reported the link lost.
    pub open spec fn on_link_lost(self) -> CoreView {
        Self::settled(self.state.on_link_lost(), self.pipeline)
    }

    /// The driver after a keepalive went unanswered.
    pub open spec fn on_keepalive_missed(self) -> CoreView {
        Self::settled(self.state.on_keepalive_missed(), self.pipeline)
    }

    /// The driver after a keepalive was answered.
    pub open spec fn on_keepalive_acked(self) -> CoreView {
        Self::settled(self.state.on_keepalive_acked(), self.pipeline)
    }

    /// The driver after `leave()`.
    pub open spec fn on_leave(self) -> CoreView {
        Self::settled(self.state.on_leave(), self.pipeline)
    }

    /// What `play` reports for a handle that holds `held`.
    pub open spec fn play_outcome(self, held: Option<SourceView>) -> Result<(), ErrorView> {
        if !self.state.in_session() {
            Err(not_connected())
        } else if held is None {
            Err(consumed_source())
        } else {
            Ok(())
        }
    }

    /// The driver after `play` with a handle that holds `held`.
    pub open spec fn on_play(self, held: Option<SourceView>) -> CoreView {
        if self.state.in_session() && held is Some {
            CoreView { pipeline: self.pipeline.on_attach(held->0), ..self }
        } else {
            self
        }
    }

    /// What the handle holds after `play`.
    pub open spec fn held_after_play(self, held: Option<SourceView>) -> Option<SourceView> {
        if self.state.in_session() {
            None
        } else {
            held
        }
    }

    /// What `next_chunk` gives: the pipeline's next pull while the session
    /// is live; nothing flows otherwise.
    pub open spec fn next_chunk_outcome(self) -> PullView {
        if self.state is Connected {
            self.pipeline.pull_outcome()
        } else {
            PullView::Paused
        }
    }

    /// The driver after `next_chunk`.
    pub open spec fn on_next_chunk(self) -> CoreView {
        if self.state is Connected {
            CoreView { pipeline: self.pipeline.on_pull(), ..self }
        } else {
            self
        }
    }

    /// Whether a payload of generation `generation` is sent: the session is
    /// live and the payload stems from what plays now.
    pub open spec fn sends(self, generation: u64) -> bool {
        self.state is Connected && generation == self.pipeline.generation
    }

    /// What `send` returns for a payload of generation `generation`: the
    /// numbered frame; nothing for a payload of an earlier generation,
    /// which is dropped; an error without a live session, or when the
    /// counters are used up.
    pub open spec fn send_outcome(self, payload: Seq<u8>, generation: u64) -> Result<
        Option<FrameView>,
        ErrorView,
    > {
        if !(self.state is Connected) {
            Err(not_connected())
        } else if generation != self.pipeline.generation {
            Ok(None)
        } else {
            match self.state.send_outcome(payload) {
                Ok(frame) => Ok(Some(frame)),
                Err(e) => Err(e),
            }
        }
    }

    /// The driver after `send` of a payload of generation `generation`.
    pub open spec fn on_send(self, generation: u64) -> CoreView {
        if self.sends(generation) {
            Self::settled(
                self.state.on_send(),
                if self.state.can_send() {
                    self.pipeline.on_sent()
                } else {
                    self.pipeline
                },
            )
        } else {
            self
        }
    }
}

/// The session machine and the pipeline of an initialised driver.
#[derive(Debug)]
struct DriverCore {
    machine: SessionMachine,
    pipeline: AudioPipeline,
}

impl DriverCore {
    spec fn view(&self) -> CoreView {
        CoreView { state: self.machine@, pipeline: self.pipeline@ }
    }

    spec fn wf(&self) -> bool {
        &&& self.machine.wf()
        &&& self.pipeline.wf()
        &&& self.view().wf()
    }

    /// Releases the pipeline where the session is gone.
    fn settle(&mut self)
        requires
            old(self).machine.wf(),
            old(self).pipeline.wf(),
        ensures
            final(self).wf(),
            final(self).view() == CoreView::settled(old(self).machine@, old(self).pipeline@),
    {
        let keep = match self.machine.phase() {
            Phase::Connected | Phase::Reconnecting => true,
            _ => false,
        };
        if !keep {
            self.pipeline.detach();
        }
        proof {
            self.pipeline.wf_of_view();
        }
    }
}

/// The façade over one voice connection. It holds at most one session and
/// the pipeline that plays into it, and takes the lifecycle commands one
/// at a time. Before `make_driver` it holds nothing: commands then report
/// `NotConnected` and events are ignored.
#[derive(Debug)]
pub struct PyDriver {
    driver: Option<DriverCore>,
}

impl View for PyDriver {
    type V = Option<CoreView>;

    closed spec fn view(&self) -> Option<CoreView> {
        match self.driver {
            Some(core) => Some(core.view()),
            None => None,
        }
    }
}

impl PyDriver {
    /// The invariant that every constructor establishes and every method keeps.
    pub closed spec fn wf(&self) -> bool {
        self.driver matches Some(core) ==> core.wf()
    }

    /// Whether `make_driver` has been called.
    pub open spec fn initialized(&self) -> bool {
        self@ is Some
    }

    /// What the invariant says of the driver as a mathematical value.
    pub proof fn wf_of_view(&self)
        requires
            self.wf(),
        ensures
            self@ matches Some(core) ==> core.wf(),
    {
    }

    /// A driver that is not initialised yet.
    pub fn new() -> (d: Self)
        ensures
            d.wf(),
            d@ is None,
    {
        PyDriver { driver: None }
    }

    /// Initialises the driver: whatever it held before, it now holds an
    /// idle session machine and a pipeline with nothing in it. Where it
    /// held a session, or a handshake was under way, the reaction is
    /// `Discard`: the transport of that session is to be released.
    pub fn make_driver(&mut self) -> (r: Reaction)
        requires
            old(self).wf(),
        ensures
            final(self).wf(),
            final(self)@ == Some(CoreView::reset(old(self)@)),
            r@ == CoreView::reset_reaction(old(self)@),
    {
        let (pipeline, reaction) = match self.driver.take() {
            Some(core) => {
                let reaction = match core.machine.phase() {
                    Phase::Idle | Phase::Disconnected => Reaction::Nothing,
                    _ => Reaction::Discard,
                };
                let mut pipeline = core.pipeline;
                pipeline.detach();
                (pipeline, reaction)
            },
            None => (AudioPipeline::new(), Reaction::Nothing),
        };
        proof {
            pipeline.wf_of_view();
        }
        self.driver = Some(DriverCore { machine: SessionMachine::new(), pipeline });
        reaction
    }

    /// Whether `make_driver` has been called.
    pub fn is_initialized(&self) -> (yes: bool)
        ensures
            yes == self.initialized(),
    {
        self.driver.is_some()
    }

    /// The phase of the session, if the driver is initialised.
    pub fn phase(&self) -> (p: Option<Phase>)
        ensures
            match self@ {
                Some(core) => p == Some(core.state.phase()),
                None => p is None,
            },
    {
        match &self.driver {
            Some(core) => Some(core.machine.phase()),
            None => None,
        }
    }

    /// The state of the session, to look at, if the driver is initialised.
    pub fn state(&self) -> (s: Option<&SessionState>)
        ensures
            match self@ {
                Some(core) => s is Some && s->0@ == core.state,
                None => s is None,
            },
    {
        match &self.driver {
            Some(core) => Some(core.machine.state()),
            None => None,
        }
    }

    /// Whether a source is attached to the pipeline.
    pub fn is_playing(&self) -> (playing: bool)
        ensures
            playing == (self@ matches Some(core) && core.pipeline.current is Some),
    {
        match &self.driver {
            Some(core) => core.pipeline.is_attached(),
            None => false,
        }
    }

    /// How many chunks were pulled that the transport has not sent yet.
    pub fn in_flight(&self) -> (n: usize)
        ensures
            n == (match self@ {
                Some(core) => core.pipeline.ahead,
                None => 0,
            }),
    {
        match &self.driver {
            Some(core) => core.pipeline.in_flight(),
            None => 0,
        }
    }

    /// The generation that chunks are pulled in now, if the driver is
    /// initialised.
    pub fn generation(&self) -> (g: Option<u64>)
        ensures
            match self@ {
                Some(core) => g == Some(core.pipeline.generation),
                None => g is None,
            },
    {
        match &self.driver {
            Some(core) => Some(core.pipeline.generation()),
            None => None,
        }
    }

    /// The parameters for the handshake that is due, if one is.
    pub fn handshake_parameters(&self) -> (p: Option<ConnectionInfo>)
        ensures
            match self@ {
                Some(core) => match core.state.parameters() {
                    Some(info) => p is Some && p->0@ == info,
                    None => p is None,
                },
                None => p is None,
            },
    {
        match &self.driver {
            Some(core) => core.machine.handshake_parameters(),
            None => None,
        }
    }

    /// Asks for a session with the relay at `endpoint`.
    ///
    /// The command is accepted only while the driver has no session and is
    /// setting none up (else `AlreadyConnected`), and only with parameters
    /// that are all non-empty and non-zero (else `ConnectionError`). On
    /// acceptance the driver waits for the handshake, which is to be made
    /// with exactly these parameters; its result comes in through
    /// `key_exchanged` and `keepalive_acked`, or through `handshake_failed`.
    /// A driver that is not initialised reports `NotConnected`.
    pub fn connect(
        &mut self,
        token: String,
        endpoint: String,
        session_id: String,
        guild_id: u64,
        channel_id: u64,
        user_id: u64,
    ) -> (res: Result<(), VoiceError>)
        requires
            old(self).wf(),
        ensures
            final(self).wf(),
            match old(self)@ {
                Some(core) => final(self)@ == Some(
                    core.on_connect(
                        parameters_of(
                            token@,
                            endpoint@,
                            session_id@,
                            guild_id,
                            channel_id,
                            user_id,
                        ),
                    ),
                ) && unit_outcome(res) == core.state.connect_outcome(
                    parameters_of(token@, endpoint@, session_id@, guild_id, channel_id, user_id),
                ),
                None => final(self)@ is None && unit_outcome(res) == Err::<(), ErrorView>(
                    not_connected(),
                ),
            },
    {
        match &mut self.driver {
            Some(core) => {
                let res = core.machine.connect(
                    ConnectionInfo { token, endpoint, session_id, guild_id, channel_id, user_id },
                );
                core.settle();
                res
            },
            None => Err(VoiceError::NotConnected),
        }
    }

    /// Takes in a key exchange that the relay completed with `key`. The
    /// session is live once the first keepalive is answered after it. On a
    /// driver that is not initialised the key belongs to nothing.
    pub fn key_exchanged(&mut self, key: Vec<u8>) -> (r: Reaction)
        requires
            old(self).wf(),
        ensures
            final(self).wf(),
            match old(self)@ {
                Some(core) => final(self)@ == Some(core.on_key_exchanged(key@)) && r@
                    == core.state.key_exchanged_reaction(key@),
                None => final(self)@ is None && r@ == ReactionView::Discard,
            },
    {
        match &mut self.driver {
            Some(core) => {
                let r = core.machine.key_exchanged(key);
                core.settle();
                r
            },
            None => Reaction::Discard,
        }
    }

    /// Takes in a handshake that timed out or was rejected, with the reason.
    /// A first handshake that fails leaves the driver without a session; a
    /// re-handshake is retried within the budget.
    pub fn handshake_failed(&mut self, reason: String) -> (r: Reaction)
        requires
            old(self).wf(),
        ensures
            final(self).wf(),
            match old(self)@ {
                Some(core) => final(self)@ == Some(core.on_handshake_failed()) && r@
                    == core.state.handshake_failed_reaction(reason@),
                None => final(self)@ is None && r@ == ReactionView::Nothing,
            },
    {
        match &mut self.driver {
            Some(core) => {
                let r = core.machine.handshake_failed(reason);
                core.settle();
                r
            },
            None => Reaction::Nothing,
        }
    }

    /// Takes in the transport's report that the link is lost. The pipeline
    /// keeps its source and its place while the session is restored.
    pub fn link_lost(&mut self) -> (r: Reaction)
        requires
            old(self).wf(),
        ensures
            final(self).wf(),
            match old(self)@ {
                Some(core) => final(self)@ == Some(core.on_link_lost()) && r@
                    == core.state.link_lost_reaction(),
                None => final(self)@ is None && r@ == ReactionView::Nothing,
            },
    {
        match &mut self.driver {
            Some(core) => {
                let r = core.machine.link_lost();
                core.settle();
                r
            },
            None => Reaction::Nothing,
        }
    }

    /// Takes in a keepalive that went unanswered.
    pub fn keepalive_missed(&mut self) -> (r: Reaction)
        requires
            old(self).wf(),
        ensures
            final(self).wf(),
            match old(self)@ {
                Some(core) => final(self)@ == Some(core.on_keepalive_missed()) && r@
                    == core.state.keepalive_missed_reaction(),
                None => final(self)@ is None && r@ == ReactionView::Nothing,
            },
    {
        match &mut self.driver {
            Some(core) => {
                let r = core.machine.keepalive_missed();
                core.settle();
                r
            },
            None => Reaction::Nothing,
        }
    }

    /// Takes in a keepalive that was answered. The first one after a key
    /// exchange makes the session live.
    pub fn keepalive_acked(&mut self) -> (r: Reaction)
        requires
            old(self).wf(),
        ensures
            final(self).wf(),
            match old(self)@ {
                Some(core) => final(self)@ == Some(core.on_keepalive_acked()) && r@
                    == core.state.keepalive_acked_reaction(),
                None => final(self)@ is None && r@ == ReactionView::Nothing,
            },
    {
        match &mut self.driver {
            Some(core) => {
                let r = core.machine.keepalive_acked();
                core.settle();
                r
            },
            None => Reaction::Nothing,
        }
    }

    /// Decides on an inbound packet: it is let through only while the
    /// session is live and only if it passed authentication.
    pub fn receive(&self, packet: Vec<u8>, authentic: bool) -> (r: Option<Vec<u8>>)
        ensures
            match self@ {
                Some(core) => if core.state.admits(authentic) {
                    r is Some && r->0@ == packet@
                } else {
                    r is None
                },
                None => r is None,
            },
    {
        match &self.driver {
            Some(core) => core.machine.receive(packet, authentic),
            None => None,
        }
    }

    /// Ends the session and releases the pipeline. Also cancels a handshake
    /// that is under way. Without a session, and on a driver that is not
    /// initialised, it reports `NotConnected`.
    pub fn leave(&mut self) -> (res: Result<(), VoiceError>)
        requires
            old(self).wf(),
        ensures
            final(self).wf(),
            match old(self)@ {
                Some(core) => final(self)@ == Some(core.on_leave()) && unit_outcome(res)
                    == core.state.leave_outcome(),
                None => final(self)@ is None && unit_outcome(res) == Err::<(), ErrorView>(
                    not_connected(),
                ),
            },
    {
        match &mut self.driver {
            Some(core) => {
                let res = core.machine.leave();
                core.settle();
                res
            },
            None => Err(VoiceError::NotConnected),
        }
    }

    /// Plays the source that `source` holds, in place of whatever plays now.
    ///
    /// Without a session, and on a driver that is not initialised, it
    /// reports `NotConnected` and leaves the handle alone. With a session,
    /// the source is taken out of the handle; a handle that holds none any
    /// more gets `ConsumedSource`.
    pub fn play(&mut self, source: &mut PySource) -> (res: Result<(), VoiceError>)
        requires
            old(self).wf(),
            old(source).wf(),
        ensures
            final(self).wf(),
            final(source).wf(),
            match old(self)@ {
                Some(core) => {
                    &&& final(self)@ == Some(core.on_play(old(source)@))
                    &&& final(source)@ == core.held_after_play(old(source)@)
                    &&& unit_outcome(res) == core.play_outcome(old(source)@)
                },
                None => {
                    &&& final(self)@ is None
                    &&& final(source)@ == old(source)@
                    &&& unit_outcome(res) == Err::<(), ErrorView>(not_connected())
                },
            },
    {
        match &mut self.driver {
            Some(core) => {
                match core.machine.phase() {
                    Phase::Connected | Phase::Reconnecting => {
                        let res = core.pipeline.attach(source);
                        proof {
                            core.pipeline.wf_of_view();
                        }
                        res
                    },
                    _ => Err(VoiceError::NotConnected),
                }
            },
            None => Err(VoiceError::NotConnected),
        }
    }

    /// Pulls the next chunk to encode, seal and send, together with the
    /// generation to send it under. Chunks flow only while the session is
    /// live; while it is being restored the pipeline waits where it is.
    pub fn next_chunk(&mut self) -> (r: Pull)
        requires
            old(self).wf(),
        ensures
            final(self).wf(),
            match old(self)@ {
                Some(core) => final(self)@ == Some(core.on_next_chunk()) && r@
                    == core.next_chunk_outcome(),
                None => final(self)@ is None && r@ == PullView::Paused,
            },
    {
        match &mut self.driver {
            Some(core) => {
                match core.machine.phase() {
                    Phase::Connected => {
                        let r = core.pipeline.pull();
                        proof {
                            core.pipeline.wf_of_view();
                        }
                        r
                    },
                    _ => Pull::Paused,
                }
            },
            None => Pull::Paused,
        }
    }

    /// Numbers a sealed payload as the next frame of the live session and
    /// counts one chunk less in flight.
    ///
    /// `generation` is the one that the payload's chunk was pulled in. A
    /// payload of an earlier generation stems from a source that was
    /// replaced or dropped since: it is not sent, no number is used on it,
    /// and `Ok(None)` comes back.
    pub fn send(&mut self, payload: Vec<u8>, generation: u64) -> (res: Result<
        Option<Frame>,
        VoiceError,
    >)
        requires
            old(self).wf(),
        ensures
            final(self).wf(),
            match old(self)@ {
                Some(core) => final(self)@ == Some(core.on_send(generation)) && sent_outcome(res)
                    == core.send_outcome(payload@, generation),
                None => final(self)@ is None && sent_outcome(res) == Err::<
                    Option<FrameView>,
                    ErrorView,
                >(not_connected()),
            },
    {
        match &mut self.driver {
            Some(core) => {
                match core.machine.phase() {
                    Phase::Connected => {},
                    _ => {
                        return Err(VoiceError::NotConnected);
                    },
                }
                if generation != core.pipeline.generation() {
                    return Ok(None);
                }
                let res = core.machine.send(payload);
                if res.is_ok() {
                    core.pipeline.sent();
                }
                core.settle();
                match res {
                    Ok(frame) => Ok(Some(frame)),
                    Err(e) => Err(e),
                }
            },
            None => Err(VoiceError::NotConnected),
        }
    }
}

/// The driver after a handshake with these parameters that the relay
/// answers with `key` and a keepalive.
pub open spec fn connected_with(d: CoreView, info: InfoView, key: Seq<u8>) -> CoreView {
    d.on_connect(info).on_key_exchanged(key).on_keepalive_acked()
}

/// A driver that connected, left and connects again ends where the first
/// connect ended, with the same reports on the way: the session that was
/// left leaves nothing behind. This holds whatever the relay answers, as
/// long as it answers both handshakes alike.
pub proof fn reconnect_is_identical(d: CoreView, info: InfoView, key: Seq<u8>)
    requires
        d.wf(),
        d.state.connect_outcome(info) is Ok,
    ensures
        ({
            let first = connected_with(d, info, key);
            let left = first.on_leave();
            &&& left.state.connect_outcome(info) == d.state.connect_outcome(info)
            &&& left.on_connect(info) == d.on_connect(info)
            &&& left.on_connect(info).state.key_exchanged_reaction(key) == d.on_connect(
                info,
            ).state.key_exchanged_reaction(key)
            &&& left.on_connect(info).on_key_exchanged(key).state.keepalive_acked_reaction()
                == d.on_connect(info).on_key_exchanged(key).state.keepalive_acked_reaction()
            &&& connected_with(left, info, key) == first
            &&& key.len() > 0 ==> first.state == StateView::Connected(SessionView::fresh(info, key))
        }),
        ({
            let first = d.on_connect(info).on_handshake_failed();
            let second = first.on_leave().on_connect(info).on_handshake_failed();
            second == first
        }),
{
}

/// Whatever a session did before it was left, the next one starts as a
/// first one does: with the session that the handshake makes, fresh
/// counters, nothing attached and nothing in flight.
pub proof fn left_session_leaves_nothing(d: CoreView, info: InfoView, key: Seq<u8>)
    requires
        d.wf(),
        !d.state.vacant(),
    ensures
        d.on_leave().state == StateView::Disconnected,
        d.on_leave().pipeline.idle(),
        d.on_leave().state.connect_outcome(info) == CoreView::reset(None).state.connect_outcome(
            info,
        ),
        info.acceptable() ==> connected_with(d.on_leave(), info, key).state == connected_with(
            CoreView::reset(None),
            info,
            key,
        ).state,
        connected_with(d.on_leave(), info, key).pipeline.idle(),
{
}

/// Every command and every event keeps the driver's invariant.
pub proof fn transitions_keep_invariant(
    before: Option<CoreView>,
    d: CoreView,
    info: InfoView,
    key: Seq<u8>,
    held: Option<SourceView>,
    generation: u64,
)
    requires
        d.wf(),
        before matches Some(core) ==> core.wf(),
        held matches Some(s) ==> s.wf(),
    ensures
        CoreView::reset(before).wf(),
        d.on_connect(info).wf(),
        d.on_key_exchanged(key).wf(),
        d.on_handshake_failed().wf(),
        d.on_link_lost().wf(),
        d.on_keepalive_missed().wf(),
        d.on_keepalive_acked().wf(),
        d.on_leave().wf(),
        d.on_play(held).wf(),
        d.on_next_chunk().wf(),
        d.on_send(generation).wf(),
{
    if let Some(s) = d.pipeline.current {
        if s.remaining() > 0 {
            crate::source::pull_consumes_first(s);
        }
    }
}

/// Commands out of place are reported and change nothing: `leave` and
/// `play` without a session give `NotConnected`, and `connect` during a
/// session gives `AlreadyConnected`.
pub proof fn misuse_is_reported(d: CoreView, info: InfoView, held: Option<SourceView>)
    requires
        d.wf(),
    ensures
        d.state.vacant() ==> d.state.leave_outcome() == Err::<(), ErrorView>(not_connected())
            && d.on_leave() == d,
        !d.state.in_session() ==> d.play_outcome(held) == Err::<(), ErrorView>(not_connected())
            && d.on_play(held) == d && d.held_after_play(held) == held,
        !d.state.vacant() ==> d.state.connect_outcome(info) == Err::<(), ErrorView>(
            bare(ErrorKind::AlreadyConnected),
        ) && d.on_connect(info) == d,
{
}

/// Once a source is replaced, nothing made of the old one is sent: a
/// payload under the old generation is dropped, uses no frame number and
/// changes nothing. The same holds once the source was dropped with its
/// session.
pub proof fn replaced_source_cannot_send(
    d: CoreView,
    source: SourceView,
    payload: Seq<u8>,
    info: InfoView,
    key: Seq<u8>,
)
    requires
        d.wf(),
        source.wf(),
        d.state is Connected,
    ensures
        ({
            let after = d.on_play(Some(source));
            &&& after.send_outcome(payload, d.pipeline.generation) == Ok::<
                Option<FrameView>,
                ErrorView,
            >(None)
            &&& after.on_send(d.pipeline.generation) == after
        }),
        ({
            let again = connected_with(d.on_play(Some(source)).on_leave(), info, key);
            again.state is Connected ==> again.send_outcome(
                payload,
                d.on_play(Some(source)).pipeline.generation,
            ) == Ok::<Option<FrameView>, ErrorView>(None)
        }),
{
}

} // verus!
