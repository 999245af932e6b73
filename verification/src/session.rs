use vstd::prelude::*;
use crate::error::{bare, caused, ErrorKind, ErrorView, VoiceError};
use crate::transport::{Counters, FrameView, KEEPALIVE_LIMIT};

verus! {

/// Failed re-handshakes that a lost session is allowed before it is given up.
pub const MAX_RETRIES: u32 = 5;

/// Wait before the first re-handshake, in milliseconds.
pub const BASE_DELAY_MS: u64 = 250;

/// Longest wait between two re-handshakes, in milliseconds.
pub const MAX_DELAY_MS: u64 = 8000;

/// The lifecycle phase of a voice session.
#[derive(Clone, Copy, Debug, PartialEq, Eq, Structural)]
pub enum Phase {
    Idle,
    Handshaking,
    Connected,
    Reconnecting,
    Disconnected,
}

/// What the caller supplies to reach the relay. The values go to the
/// handshake as they are.
#[derive(Debug)]
pub struct ConnectionInfo {
    pub token: String,
    pub endpoint: String,
    pub session_id: String,
    pub guild_id: u64,
    pub channel_id: u64,
    pub user_id: u64,
}

/// Connection parameters as a mathematical value.
pub struct InfoView {
    pub token: Seq<char>,
    pub endpoint: Seq<char>,
    pub session_id: Seq<char>,
    pub guild_id: u64,
    pub channel_id: u64,
    pub user_id: u64,
}

impl InfoView {
    /// Every text is non-empty and every identifier is non-zero.
    pub open spec fn acceptable(self) -> bool {
        &&& self.token.len() > 0
        &&& self.endpoint.len() > 0
        &&& self.session_id.len() > 0
        &&& self.guild_id != 0
        &&& self.channel_id != 0
        &&& self.user_id != 0
    }
}

impl View for ConnectionInfo {
    type V = InfoView;

    open spec fn view(&self) -> InfoView {
        InfoView {
            token: self.token@,
            endpoint: self.endpoint@,
            session_id: self.session_id@,
            guild_id: self.guild_id,
            channel_id: self.channel_id,
            user_id: self.user_id,
        }
    }
}

impl ConnectionInfo {
    /// Whether a handshake may be attempted with these parameters.
    pub fn is_acceptable(&self) -> (ok: bool)
        ensures
            ok == self@.acceptable(),
    {
        !self.token.as_str().is_empty() && !self.endpoint.as_str().is_empty()
            && !self.session_id.as_str().is_empty() && self.guild_id != 0 && self.channel_id != 0
            && self.user_id != 0
    }

    /// A copy of these parameters.
    pub fn duplicate(&self) -> (copy: ConnectionInfo)
        ensures
            copy@ == self@,
    {
        ConnectionInfo {
            token: self.token.clone(),
            endpoint: self.endpoint.clone(),
            session_id: self.session_id.clone(),
            guild_id: self.guild_id,
            channel_id: self.channel_id,
            user_id: self.user_id,
        }
    }
}

/// One live voice connection: who is connected where, the negotiated key,
/// the frame counters and the keepalives that went unanswered in a row.
#[derive(Debug)]
pub struct Session {
    pub info: ConnectionInfo,
    pub key: Vec<u8>,
    pub counters: Counters,
    pub missed: u32,
}

/// A session as a mathematical value.
pub struct SessionView {
    pub info: InfoView,
    pub key: Seq<u8>,
    pub counters: Counters,
    pub missed: u32,
}

impl SessionView {
    /// A session always has acceptable parameters and a key, and has not yet
    /// missed as many keepalives as count as a loss.
    pub open spec fn wf(self) -> bool {
        &&& self.info.acceptable()
        &&& self.key.len() > 0
        &&& self.missed < KEEPALIVE_LIMIT
    }

    /// The session as the handshake leaves it: nothing sent, nothing missed.
    pub open spec fn fresh(info: InfoView, key: Seq<u8>) -> SessionView {
        SessionView { info, key, counters: Counters { sequence: 0, timestamp: 0 }, missed: 0 }
    }

    /// The session after a re-handshake: a new key, the counters as they were.
    pub open spec fn rekeyed(self, key: Seq<u8>) -> SessionView {
        SessionView { key, missed: 0, ..self }
    }
}

impl View for Session {
    type V = SessionView;

    open spec fn view(&self) -> SessionView {
        SessionView {
            info: self.info@,
            key: self.key@,
            counters: self.counters,
            missed: self.missed,
        }
    }
}

/// The state of the machine that governs one driver's session.
#[derive(Debug)]
pub enum SessionState {
    /// No session was ever asked for.
    Idle,
    /// A handshake with these parameters is under way. The key is there
    /// once the key exchange succeeded; the first keepalive is then still
    /// to be answered.
    Handshaking(ConnectionInfo, Option<Vec<u8>>),
    /// The session is live.
    Connected(Session),
    /// The link was lost; so many re-handshakes have failed since. The key
    /// is there once the current re-handshake exchanged one.
    Reconnecting(Session, u32, Option<Vec<u8>>),
    /// The session ended, by `leave` or by a failure that was not recovered.
    Disconnected,
}

/// The machine's state as a mathematical value.
pub enum StateView {
    Idle,
    Handshaking(InfoView, Option<Seq<u8>>),
    Connected(SessionView),
    Reconnecting(SessionView, u32, Option<Seq<u8>>),
    Disconnected,
}

/// A key that may not be there yet, as a mathematical value.
pub open spec fn key_view(key: Option<Vec<u8>>) -> Option<Seq<u8>> {
    match key {
        Some(k) => Some(k@),
        None => None,
    }
}

/// A key that is there is not empty.
pub open spec fn key_usable(key: Option<Seq<u8>>) -> bool {
    key matches Some(k) ==> k.len() > 0
}

impl View for SessionState {
    type V = StateView;

    open spec fn view(&self) -> StateView {
        match self {
            SessionState::Idle => StateView::Idle,
            SessionState::Handshaking(info, key) => StateView::Handshaking(info@, key_view(*key)),
            SessionState::Connected(s) => StateView::Connected(s@),
            SessionState::Reconnecting(s, n, key) => StateView::Reconnecting(
                s@,
                *n,
                key_view(*key),
            ),
            SessionState::Disconnected => StateView::Disconnected,
        }
    }
}

/// What the machine asks of its environment after an event.
#[derive(Debug)]
pub enum Reaction {
    /// The key is exchanged: the session is live once the first keepalive
    /// is answered.
    Pending,
    /// The session is live: frames may flow.
    Established,
    /// Attempt a re-handshake with the cached parameters after this many
    /// milliseconds.
    Retry(u64),
    /// The session is over; the command that waited for it fails with this.
    Failed(VoiceError),
    /// The event belongs to a session that no longer exists: release
    /// whatever transport came with it.
    Discard,
    /// Nothing to do.
    Nothing,
}

/// A reaction as a mathematical value.
pub enum ReactionView {
    Pending,
    Established,
    Retry(u64),
    Failed(ErrorView),
    Discard,
    Nothing,
}

impl View for Reaction {
    type V = ReactionView;

    open spec fn view(&self) -> ReactionView {
        match self {
            Reaction::Pending => ReactionView::Pending,
            Reaction::Established => ReactionView::Established,
            Reaction::Retry(ms) => ReactionView::Retry(*ms),
            Reaction::Failed(e) => ReactionView::Failed(e@),
            Reaction::Discard => ReactionView::Discard,
            Reaction::Nothing => ReactionView::Nothing,
        }
    }
}

/// The cause reported when connection parameters are blank or zero.
pub open spec fn blank_parameters() -> Seq<char> {
    "connection parameters must be non-empty and non-zero"@
}

/// The cause reported when the relay completes a handshake without a key.
pub open spec fn missing_key() -> Seq<char> {
    "the relay supplied no session key"@
}

/// The cause reported when a session's frame counters are used up.
pub open spec fn counters_spent() -> Seq<char> {
    "the session's frame counters are exhausted"@
}

/// `BASE_DELAY_MS` doubled `failures` times.
pub open spec fn doubled(failures: nat) -> nat
    decreases failures,
{
    if failures == 0 {
        BASE_DELAY_MS as nat
    } else {
        2 * doubled((failures - 1) as nat)
    }
}

/// The wait before the re-handshake that follows `failures` failed ones:
/// exponential, capped at `MAX_DELAY_MS`.
pub open spec fn retry_delay(failures: nat) -> nat {
    if doubled(failures) < MAX_DELAY_MS {
        doubled(failures)
    } else {
        MAX_DELAY_MS as nat
    }
}

/// Doubling never shrinks the delay.
pub proof fn doubled_grows(a: nat, b: nat)
    requires
        a <= b,
    ensures
        doubled(a) <= doubled(b),
        doubled(a) >= BASE_DELAY_MS,
    decreases b,
{
    if b > 0 {
        if a < b {
            doubled_grows(a, (b - 1) as nat);
        } else {
            doubled_grows((a - 1) as nat, (b - 1) as nat);
        }
    }
}

/// Computes the wait before the next re-handshake.
pub fn retry_delay_ms(failures: u32) -> (ms: u64)
    ensures
        ms == retry_delay(failures as nat),
        BASE_DELAY_MS <= ms <= MAX_DELAY_MS,
{
    let mut delay: u64 = BASE_DELAY_MS;
    let mut done: u32 = 0;
    while done < failures && delay < MAX_DELAY_MS
        invariant
            done <= failures,
            delay == doubled(done as nat) || (delay == MAX_DELAY_MS && doubled(done as nat)
                >= MAX_DELAY_MS),
            BASE_DELAY_MS <= delay <= MAX_DELAY_MS,
        decreases failures - done,
    {
        proof {
            doubled_grows(done as nat, done as nat);
        }
        delay = if delay >= MAX_DELAY_MS / 2 {
            MAX_DELAY_MS
        } else {
            delay * 2
        };
        done = done + 1;
    }
    proof {
        doubled_grows(done as nat, failures as nat);
    }
    delay
}

impl StateView {
    /// The invariant of the machine's state.
    pub open spec fn wf(self) -> bool {
        match self {
            StateView::Idle => true,
            StateView::Handshaking(info, key) => info.acceptable() && key_usable(key),
            StateView::Connected(s) => s.wf(),
            StateView::Reconnecting(s, failures, key) => s.wf() && failures < MAX_RETRIES
                && key_usable(key),
            StateView::Disconnected => true,
        }
    }

    /// The lifecycle phase that the state belongs to.
    pub open spec fn phase(self) -> Phase {
        match self {
            StateView::Idle => Phase::Idle,
            StateView::Handshaking(_, _) => Phase::Handshaking,
            StateView::Connected(_) => Phase::Connected,
            StateView::Reconnecting(_, _, _) => Phase::Reconnecting,
            StateView::Disconnected => Phase::Disconnected,
        }
    }

    /// No session exists and none is being set up.
    pub open spec fn vacant(self) -> bool {
        self is Idle || self is Disconnected
    }

    /// A session exists, live or being restored.
    pub open spec fn in_session(self) -> bool {
        self is Connected || self is Reconnecting
    }

    /// The counters of the session, while there is one.
    pub open spec fn counters(self) -> Option<Counters> {
        match self {
            StateView::Connected(s) => Some(s.counters),
            StateView::Reconnecting(s, _, _) => Some(s.counters),
            _ => None,
        }
    }

    /// The parameters that a handshake is, or was last, made with.
    pub open spec fn parameters(self) -> Option<InfoView> {
        match self {
            StateView::Handshaking(info, _) => Some(info),
            StateView::Reconnecting(s, _, _) => Some(s.info),
            _ => None,
        }
    }

    /// The state after `connect(info)`.
    pub open spec fn on_connect(self, info: InfoView) -> StateView {
        if self.vacant() && info.acceptable() {
            StateView::Handshaking(info, None)
        } else {
            self
        }
    }

    /// What `connect(info)` reports.
    pub open spec fn connect_outcome(self, info: InfoView) -> Result<(), ErrorView> {
        if !self.vacant() {
            Err(bare(ErrorKind::AlreadyConnected))
        } else if !info.acceptable() {
            Err(caused(ErrorKind::ConnectionError, blank_parameters()))
        } else {
            Ok(())
        }
    }

    /// The state after a key exchange that yielded `key`.
    pub open spec fn on_key_exchanged(self, key: Seq<u8>) -> StateView {
        match self {
            StateView::Handshaking(info, _) => if key.len() > 0 {
                StateView::Handshaking(info, Some(key))
            } else {
                StateView::Disconnected
            },
            StateView::Reconnecting(s, failures, _) => if key.len() > 0 {
                StateView::Reconnecting(s, failures, Some(key))
            } else {
                self.on_handshake_failed()
            },
            _ => self,
        }
    }

    /// What the machine asks for after a key exchange that yielded `key`.
    pub open spec fn key_exchanged_reaction(self, key: Seq<u8>) -> ReactionView {
        match self {
            StateView::Handshaking(_, _) => if key.len() > 0 {
                ReactionView::Pending
            } else {
                ReactionView::Failed(caused(ErrorKind::ConnectionError, missing_key()))
            },
            StateView::Reconnecting(_, _, _) => if key.len() > 0 {
                ReactionView::Pending
            } else {
                self.handshake_failed_reaction(missing_key())
            },
            _ => ReactionView::Discard,
        }
    }

    /// The state after a handshake that failed.
    pub open spec fn on_handshake_failed(self) -> StateView {
        match self {
            StateView::Handshaking(_, _) => StateView::Disconnected,
            StateView::Reconnecting(s, failures, _) => if failures + 1 < MAX_RETRIES {
                StateView::Reconnecting(s, (failures + 1) as u32, None)
            } else {
                StateView::Disconnected
            },
            _ => self,
        }
    }

    /// What the machine asks for after a handshake that failed for `reason`.
    pub open spec fn handshake_failed_reaction(self, reason: Seq<char>) -> ReactionView {
        match self {
            StateView::Handshaking(_, _) => ReactionView::Failed(
                caused(ErrorKind::ConnectionError, reason),
            ),
            StateView::Reconnecting(s, failures, _) => if failures + 1 < MAX_RETRIES {
                ReactionView::Retry(retry_delay((failures + 1) as nat) as u64)
            } else {
                ReactionView::Failed(caused(ErrorKind::ConnectionError, reason))
            },
            _ => ReactionView::Nothing,
        }
    }

    /// The state after the transport reported the link lost.
    pub open spec fn on_link_lost(self) -> StateView {
        match self {
            StateView::Connected(s) => StateView::Reconnecting(
                SessionView { missed: 0, ..s },
                0,
                None,
            ),
            _ => self,
        }
    }

    /// What the machine asks for after the transport reported the link lost.
    pub open spec fn link_lost_reaction(self) -> ReactionView {
        match self {
            StateView::Connected(_) => ReactionView::Retry(retry_delay(0) as u64),
            _ => ReactionView::Nothing,
        }
    }

    /// The state after a keepalive went unanswered.
    pub open spec fn on_keepalive_missed(self) -> StateView {
        match self {
            StateView::Connected(s) => if s.missed + 1 < KEEPALIVE_LIMIT {
                StateView::Connected(SessionView { missed: (s.missed + 1) as u32, ..s })
            } else {
                self.on_link_lost()
            },
            _ => self,
        }
    }

    /// What the machine asks for after a keepalive went unanswered.
    pub open spec fn keepalive_missed_reaction(self) -> ReactionView {
        match self {
            StateView::Connected(s) => if s.missed + 1 < KEEPALIVE_LIMIT {
                ReactionView::Nothing
            } else {
                self.link_lost_reaction()
            },
            _ => ReactionView::Nothing,
        }
    }

    /// The state after a keepalive was answered. The first answer after a
    /// key exchange makes the session live: a new one with fresh counters,
    /// a restored one with the counters it had.
    pub open spec fn on_keepalive_acked(self) -> StateView {
        match self {
            StateView::Handshaking(info, Some(key)) => StateView::Connected(
                SessionView::fresh(info, key),
            ),
            StateView::Reconnecting(s, _, Some(key)) => StateView::Connected(s.rekeyed(key)),
            StateView::Connected(s) => StateView::Connected(SessionView { missed: 0, ..s }),
            _ => self,
        }
    }

    /// What the machine asks for after a keepalive was answered.
    pub open spec fn keepalive_acked_reaction(self) -> ReactionView {
        match self {
            StateView::Handshaking(_, Some(_)) => ReactionView::Established,
            StateView::Reconnecting(_, _, Some(_)) => ReactionView::Established,
            _ => ReactionView::Nothing,
        }
    }

    /// Whether an inbound packet is let through: only a live session
    /// receives, and only what passed authentication.
    pub open spec fn admits(self, authentic: bool) -> bool {
        self is Connected && authentic
    }

    /// The state after `leave()`.
    pub open spec fn on_leave(self) -> StateView {
        if self.vacant() {
            self
        } else {
            StateView::Disconnected
        }
    }

    /// What `leave()` reports.
    pub open spec fn leave_outcome(self) -> Result<(), ErrorView> {
        if self.vacant() {
            Err(bare(ErrorKind::NotConnected))
        } else {
            Ok(())
        }
    }

    /// Whether a frame can be sent: the session is live and its counters
    /// have room.
    pub open spec fn can_send(self) -> bool {
        self matches StateView::Connected(s) && s.counters.has_room()
    }

    /// The state after `send`.
    pub open spec fn on_send(self) -> StateView {
        match self {
            StateView::Connected(s) => if s.counters.has_room() {
                StateView::Connected(SessionView { counters: s.counters.advanced(), ..s })
            } else {
                StateView::Disconnected
            },
            _ => self,
        }
    }

    /// What `send(payload)` returns.
    pub open spec fn send_outcome(self, payload: Seq<u8>) -> Result<FrameView, ErrorView> {
        match self {
            StateView::Connected(s) => if s.counters.has_room() {
                Ok(
                    FrameView {
                        sequence: s.counters.sequence,
                        timestamp: s.counters.timestamp,
                        payload,
                    },
                )
            } else {
                Err(caused(ErrorKind::ConnectionError, counters_spent()))
            },
            _ => Err(bare(ErrorKind::NotConnected)),
        }
    }
}

/// Within a session the frame counters never go back, whatever happens to
/// the session, and each frame sent moves them forward.
pub proof fn counters_never_go_back(d: StateView, key: Seq<u8>)
    requires
        d.wf(),
        d.counters() is Some,
    ensures
        no_earlier(d, d.on_key_exchanged(key)),
        no_earlier(d, d.on_handshake_failed()),
        no_earlier(d, d.on_link_lost()),
        no_earlier(d, d.on_keepalive_missed()),
        no_earlier(d, d.on_keepalive_acked()),
        no_earlier(d, d.on_send()),
        d.can_send() ==> d.on_send().counters()->0.sequence > d.counters()->0.sequence
            && d.on_send().counters()->0.timestamp > d.counters()->0.timestamp,
{
}

/// Where both states have a session, the second one's counters are not
/// behind the first one's.
pub open spec fn no_earlier(before: StateView, after: StateView) -> bool {
    before.counters() is Some && after.counters() is Some ==> {
        &&& before.counters()->0.sequence <= after.counters()->0.sequence
        &&& before.counters()->0.timestamp <= after.counters()->0.timestamp
    }
}

} // verus!
