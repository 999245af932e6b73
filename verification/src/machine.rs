use vstd::prelude::*;
use crate::error::{ErrorView, VoiceError};
use crate::session::{
    retry_delay_ms, ConnectionInfo, Phase, Reaction, Session, SessionState, StateView,
    MAX_RETRIES,
};
use crate::transport::{Counters, Frame, FrameView, KEEPALIVE_LIMIT};

verus! {

/// What a command that returns nothing reported, as a mathematical value.
pub open spec fn unit_outcome(r: Result<(), VoiceError>) -> Result<(), ErrorView> {
    match r {
        Ok(_) => Ok(()),
        Err(e) => Err(e@),
    }
}

/// What a command that returns a frame reported, as a mathematical value.
pub open spec fn frame_outcome(r: Result<Frame, VoiceError>) -> Result<FrameView, ErrorView> {
    match r {
        Ok(f) => Ok(f@),
        Err(e) => Err(e@),
    }
}

/// The state machine of one voice session. Commands and transport events
/// come in; the new state and what to do next come out.
#[derive(Debug)]
pub struct SessionMachine {
    state: SessionState,
}

impl View for SessionMachine {
    type V = StateView;

    closed spec fn view(&self) -> StateView {
        self.state@
    }
}

impl SessionMachine {
    /// The invariant that every constructor establishes and every method keeps.
    pub open spec fn wf(&self) -> bool {
        self@.wf()
    }

    /// A machine that was never asked for a session.
    pub fn new() -> (m: SessionMachine)
        ensures
            m@ == StateView::Idle,
            m.wf(),
    {
        SessionMachine { state: SessionState::Idle }
    }

    /// The phase the machine is in.
    pub fn phase(&self) -> (p: Phase)
        ensures
            p == self@.phase(),
    {
        match &self.state {
            SessionState::Idle => Phase::Idle,
            SessionState::Handshaking(_, _) => Phase::Handshaking,
            SessionState::Connected(_) => Phase::Connected,
            SessionState::Reconnecting(_, _, _) => Phase::Reconnecting,
            SessionState::Disconnected => Phase::Disconnected,
        }
    }

    /// The current state, to look at.
    pub fn state(&self) -> (s: &SessionState)
        ensures
            s@ == self@,
    {
        &self.state
    }

    /// The parameters that a handshake is to be made with: those just
    /// supplied while handshaking, those of the lost session while
    /// reconnecting, none otherwise. The caller does not supply them again.
    pub fn handshake_parameters(&self) -> (p: Option<ConnectionInfo>)
        ensures
            match self@.parameters() {
                Some(info) => p is Some && p->0@ == info,
                None => p is None,
            },
    {
        match &self.state {
            SessionState::Handshaking(info, _) => Some(info.duplicate()),
            SessionState::Reconnecting(s, _, _) => Some(s.info.duplicate()),
            _ => None,
        }
    }

    /// Starts a session. Accepted only while no session exists or is being
    /// set up, and only with acceptable parameters; the machine then waits
    /// for the handshake's result. Otherwise the state is left as it was.
    pub fn connect(&mut self, info: ConnectionInfo) -> (r: Result<(), VoiceError>)
        requires
            old(self).wf(),
        ensures
            final(self).wf(),
            final(self)@ == old(self)@.on_connect(info@),
            unit_outcome(r) == old(self)@.connect_outcome(info@),
    {
        match &self.state {
            SessionState::Idle | SessionState::Disconnected => {
                if info.is_acceptable() {
                    self.state = SessionState::Handshaking(info, None);
                    Ok(())
                } else {
                    Err(
                        VoiceError::ConnectionError(
                            "connection parameters must be non-empty and non-zero".to_owned(),
                        ),
                    )
                }
            },
            _ => Err(VoiceError::AlreadyConnected),
        }
    }

    /// Takes in a key exchange that the relay completed with `key`.
    ///
    /// The key is kept until the first keepalive is answered; only then is
    /// the session live. An empty key counts as a failed handshake. Outside
    /// a handshake the key belongs to a session that is gone.
    pub fn key_exchanged(&mut self, key: Vec<u8>) -> (r: Reaction)
        requires
            old(self).wf(),
        ensures
            final(self).wf(),
            final(self)@ == old(self)@.on_key_exchanged(key@),
            r@ == old(self)@.key_exchanged_reaction(key@),
    {
        if key.len() == 0 {
            match &self.state {
                SessionState::Handshaking(_, _) | SessionState::Reconnecting(_, _, _) => {
                    return self.handshake_failed("the relay supplied no session key".to_owned());
                },
                _ => {
                    return Reaction::Discard;
                },
            }
        }
        let mut prev = SessionState::Disconnected;
        core::mem::swap(&mut self.state, &mut prev);
        match prev {
            SessionState::Handshaking(info, _) => {
                self.state = SessionState::Handshaking(info, Some(key));
                Reaction::Pending
            },
            SessionState::Reconnecting(s, failures, _) => {
                self.state = SessionState::Reconnecting(s, failures, Some(key));
                Reaction::Pending
            },
            other => {
                self.state = other;
                Reaction::Discard
            },
        }
    }

    /// Takes in a handshake that timed out or that the relay rejected.
    ///
    /// A first handshake that fails ends the session with the reason. A
    /// re-handshake that fails is tried again after a longer wait, until
    /// `MAX_RETRIES` of them have failed; then the session ends with the
    /// last reason.
    pub fn handshake_failed(&mut self, reason: String) -> (r: Reaction)
        requires
            old(self).wf(),
        ensures
            final(self).wf(),
            final(self)@ == old(self)@.on_handshake_failed(),
            r@ == old(self)@.handshake_failed_reaction(reason@),
    {
        let mut prev = SessionState::Disconnected;
        core::mem::swap(&mut self.state, &mut prev);
        match prev {
            SessionState::Handshaking(_, _) => Reaction::Failed(
                VoiceError::ConnectionError(reason),
            ),
            SessionState::Reconnecting(s, failures, _) => {
                if failures + 1 < MAX_RETRIES {
                    self.state = SessionState::Reconnecting(s, failures + 1, None);
                    Reaction::Retry(retry_delay_ms(failures + 1))
                } else {
                    Reaction::Failed(VoiceError::ConnectionError(reason))
                }
            },
            other => {
                self.state = other;
                Reaction::Nothing
            },
        }
    }

    /// Takes in the transport's report that the link is lost. A live session
    /// starts reconnecting, with its parameters and counters kept.
    pub fn link_lost(&mut self) -> (r: Reaction)
        requires
            old(self).wf(),
        ensures
            final(self).wf(),
            final(self)@ == old(self)@.on_link_lost(),
            r@ == old(self)@.link_lost_reaction(),
    {
        let mut prev = SessionState::Disconnected;
        core::mem::swap(&mut self.state, &mut prev);
        match prev {
            SessionState::Connected(s) => {
                self.state = SessionState::Reconnecting(
                    Session { info: s.info, key: s.key, counters: s.counters, missed: 0 },
                    0,
                    None,
                );
                Reaction::Retry(retry_delay_ms(0))
            },
            other => {
                self.state = other;
                Reaction::Nothing
            },
        }
    }

    /// Takes in a keepalive that went unanswered. The `KEEPALIVE_LIMIT`th in
    /// a row counts as the loss of the link.
    pub fn keepalive_missed(&mut self) -> (r: Reaction)
        requires
            old(self).wf(),
        ensures
            final(self).wf(),
            final(self)@ == old(self)@.on_keepalive_missed(),
            r@ == old(self)@.keepalive_missed_reaction(),
    {
        let lost = match &mut self.state {
            SessionState::Connected(s) => {
                if s.missed + 1 < KEEPALIVE_LIMIT {
                    s.missed = s.missed + 1;
                    false
                } else {
                    true
                }
            },
            _ => false,
        };
        if lost {
            self.link_lost()
        } else {
            Reaction::Nothing
        }
    }

    /// Takes in a keepalive that was answered. After a key exchange the
    /// first answer makes the session live; in a live session the count of
    /// missed keepalives starts again.
    pub fn keepalive_acked(&mut self) -> (r: Reaction)
        requires
            old(self).wf(),
        ensures
            final(self).wf(),
            final(self)@ == old(self)@.on_keepalive_acked(),
            r@ == old(self)@.keepalive_acked_reaction(),
    {
        let mut prev = SessionState::Disconnected;
        core::mem::swap(&mut self.state, &mut prev);
        match prev {
            SessionState::Handshaking(info, Some(key)) => {
                self.state = SessionState::Connected(
                    Session { info, key, counters: Counters::new(), missed: 0 },
                );
                Reaction::Established
            },
            SessionState::Reconnecting(s, _, Some(key)) => {
                self.state = SessionState::Connected(
                    Session { info: s.info, key, counters: s.counters, missed: 0 },
                );
                Reaction::Established
            },
            SessionState::Connected(s) => {
                self.state = SessionState::Connected(
                    Session { info: s.info, key: s.key, counters: s.counters, missed: 0 },
                );
                Reaction::Nothing
            },
            other => {
                self.state = other;
                Reaction::Nothing
            },
        }
    }

    /// Decides on an inbound packet: it is let through only while the
    /// session is live and only if it passed authentication; else it is
    /// dropped.
    pub fn receive(&self, packet: Vec<u8>, authentic: bool) -> (r: Option<Vec<u8>>)
        ensures
            self@.admits(authentic) ==> r is Some && r->0@ == packet@,
            !self@.admits(authentic) ==> r is None,
    {
        match &self.state {
            SessionState::Connected(_) => if authentic {
                Some(packet)
            } else {
                None
            },
            _ => None,
        }
    }

    /// Ends the session, whether it is live, being restored or still being
    /// set up. Without a session there is nothing to leave.
    pub fn leave(&mut self) -> (r: Result<(), VoiceError>)
        requires
            old(self).wf(),
        ensures
            final(self).wf(),
            final(self)@ == old(self)@.on_leave(),
            unit_outcome(r) == old(self)@.leave_outcome(),
    {
        match &self.state {
            SessionState::Idle | SessionState::Disconnected => Err(VoiceError::NotConnected),
            _ => {
                self.state = SessionState::Disconnected;
                Ok(())
            },
        }
    }

    /// Numbers a sealed payload as the session's next frame. Only a live
    /// session sends. One whose counters are used up ends, since a number
    /// may not be handed out twice.
    pub fn send(&mut self, payload: Vec<u8>) -> (r: Result<Frame, VoiceError>)
        requires
            old(self).wf(),
        ensures
            final(self).wf(),
            final(self)@ == old(self)@.on_send(),
            frame_outcome(r) == old(self)@.send_outcome(payload@),
    {
        let stamped = match &mut self.state {
            SessionState::Connected(s) => s.counters.stamp(payload),
            _ => {
                return Err(VoiceError::NotConnected);
            },
        };
        match stamped {
            Some(frame) => Ok(frame),
            None => {
                self.state = SessionState::Disconnected;
                Err(
                    VoiceError::ConnectionError(
                        "the session's frame counters are exhausted".to_owned(),
                    ),
                )
            },
        }
    }
}

} // verus!
