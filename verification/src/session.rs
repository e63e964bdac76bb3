//! The session: what the client decides on each event of the handshake and
//! of steady operation. The caller owns the socket and the clock; it reports
//! what happened and carries out what is decided here.

use crate::bytes::{be_value, bytes2int, copy_range, take_eight};
use crate::cipher::{decrypt, opened};
use crate::clock::{fresh, is_fresh};
use crate::keystream::CipherError;
use crate::recent::{offered_is_held, remembered, RecentPayloads};
use vstd::prelude::*;

verus! {

/// Status from the peer: the subscription was accepted.
pub const STATUS_ACCEPTED: u8 = 0x02;

/// Status to the peer: a message was received.
pub const STATUS_ACK: u8 = 0x06;

/// Status to the peer: a datagram did not validate.
pub const STATUS_INVALID: u8 = 0x15;

/// Status from the peer: the subscription was refused, or has ended.
pub const STATUS_END: u8 = 0x19;

/// Status to the peer: a datagram could not be decrypted.
pub const STATUS_DECRYPT_FAILED: u8 = 0x1A;

/// The length of a datagram with no content: timestamp, signature and nonce.
pub const MIN_DATAGRAM: usize = 24;

/// The length of a control datagram: one status byte of content.
pub const CONTROL_DATAGRAM: usize = 25;

/// How often the socket is polled for the answer to one request.
pub const AUTH_POLLS: u8 = 10;

/// The pause before each poll for the answer, in milliseconds.
pub const POLL_PAUSE_MS: u64 = 100;

/// The pause between two ticks of steady operation, in milliseconds.
pub const TICK_MS: u64 = 1;

/// The pause after a failure, in milliseconds.
pub const BACKOFF_MS: u64 = 5_000;

/// The pause before the session is rebuilt after a datagram that did not
/// validate, in milliseconds.
pub const INVALID_PAUSE_MS: u64 = 2_000;

/// The content of an envelope: all but its last eight bytes.
pub open spec fn content_of(envelope: Seq<u8>) -> Seq<u8> {
    envelope.subrange(0, envelope.len() - 8)
}

/// The time of sending that an envelope carries in its last eight bytes.
pub open spec fn timestamp_of(envelope: Seq<u8>) -> u64 {
    be_value(envelope.subrange(envelope.len() - 8, envelope.len() as int)) as u64
}

/// What a datagram received during the handshake means.
#[derive(Clone, Copy, Debug, PartialEq, Eq, Structural)]
pub enum AuthOutcome {
    /// The peer accepted the subscription.
    Subscribed,
    /// The pad is right, but the peer refused the subscription.
    Rejected,
    /// The answer did not validate: the local pad is wrong or damaged.
    PadMismatch,
    /// The answer could not be decrypted for another reason.
    DecryptFailed,
    /// The peer sent a status that this client does not know.
    UnknownStatus(u8),
    /// Not an answer: another length, or another sender.
    Ignored,
}

/// The meaning of a datagram received during the handshake. Only a control
/// datagram from the peer is opened; its first byte is the status.
pub open spec fn auth_outcome(from_peer: bool, datagram: Seq<u8>, pad: Seq<u8>) -> AuthOutcome {
    if !from_peer || datagram.len() != CONTROL_DATAGRAM {
        AuthOutcome::Ignored
    } else {
        match opened(datagram, pad) {
            Ok(envelope) => if envelope[0] == STATUS_ACCEPTED {
                AuthOutcome::Subscribed
            } else if envelope[0] == STATUS_END {
                AuthOutcome::Rejected
            } else {
                AuthOutcome::UnknownStatus(envelope[0])
            },
            Err(e) => if e == CipherError::InvalidData {
                AuthOutcome::PadMismatch
            } else {
                AuthOutcome::DecryptFailed
            },
        }
    }
}

/// Reads a datagram received during the handshake.
pub fn auth_answer(from_peer: bool, datagram: &Vec<u8>, pad: &Vec<u8>) -> (outcome: AuthOutcome)
    ensures
        outcome == auth_outcome(from_peer, datagram@, pad@),
{
    if !from_peer || datagram.len() != CONTROL_DATAGRAM {
        return AuthOutcome::Ignored;
    }
    match decrypt(datagram, pad) {
        Ok(message) => {
            let status: u8 = message[0];
            if status == STATUS_ACCEPTED {
                AuthOutcome::Subscribed
            } else if status == STATUS_END {
                AuthOutcome::Rejected
            } else {
                AuthOutcome::UnknownStatus(status)
            }
        },
        Err(e) => match e {
            CipherError::InvalidData => AuthOutcome::PadMismatch,
            CipherError::PadUnreadable => AuthOutcome::DecryptFailed,
        },
    }
}

/// What happened during the handshake.
#[derive(Clone, Copy, Debug, PartialEq, Eq, Structural)]
pub enum AuthEvent {
    /// The subscription request was sent.
    RequestSent,
    /// The subscription request could not be sent.
    RequestFailed,
    /// A poll found no datagram.
    NothingPending,
    /// A poll failed with a socket error.
    ReceiveFailed,
    /// A poll brought a datagram with this meaning.
    Answer(AuthOutcome),
}

/// What the client does next during the handshake.
#[derive(Clone, Copy, Debug, PartialEq, Eq, Structural)]
pub enum AuthStep {
    /// Subscribed: start operating.
    Operate,
    /// Wait, then send the subscription request again.
    Restart { wait_ms: u64 },
    /// Wait, then poll again; `polls` polls have been made for this request.
    Poll { polls: u8, wait_ms: u64 },
}

/// The step that goes on polling after `wait_ms`, or sends the request again
/// where the polls for it are used up.
pub open spec fn poll_on(polls: u8, wait_ms: u64) -> AuthStep {
    if polls + 1 >= AUTH_POLLS {
        AuthStep::Restart { wait_ms }
    } else {
        AuthStep::Poll { polls: (polls + 1) as u8, wait_ms: (wait_ms + POLL_PAUSE_MS) as u64 }
    }
}

/// The next step of the handshake, after `polls` earlier polls for the
/// current request. Once the request is sent the client polls for the answer,
/// and an accepted subscription ends the handshake. A failure to send or to
/// receive, a refusal, and an answer that does not open, each send the
/// request again after the backoff. Silence and an unknown status go on
/// polling; a datagram that is no answer goes on polling after the backoff.
pub open spec fn auth_step(polls: u8, event: AuthEvent) -> AuthStep {
    match event {
        AuthEvent::RequestSent => AuthStep::Poll { polls: 0, wait_ms: POLL_PAUSE_MS },
        AuthEvent::RequestFailed => AuthStep::Restart { wait_ms: BACKOFF_MS },
        AuthEvent::NothingPending => poll_on(polls, 0),
        AuthEvent::ReceiveFailed => AuthStep::Restart { wait_ms: BACKOFF_MS },
        AuthEvent::Answer(outcome) => match outcome {
            AuthOutcome::Subscribed => AuthStep::Operate,
            AuthOutcome::Rejected => AuthStep::Restart { wait_ms: BACKOFF_MS },
            AuthOutcome::PadMismatch => AuthStep::Restart { wait_ms: BACKOFF_MS },
            AuthOutcome::DecryptFailed => AuthStep::Restart { wait_ms: BACKOFF_MS },
            AuthOutcome::UnknownStatus(_) => poll_on(polls, 0),
            AuthOutcome::Ignored => poll_on(polls, BACKOFF_MS),
        },
    }
}

fn keep_polling(polls: u8, wait_ms: u64) -> (step: AuthStep)
    requires
        wait_ms <= BACKOFF_MS,
    ensures
        step == poll_on(polls, wait_ms),
{
    if polls >= AUTH_POLLS - 1 {
        AuthStep::Restart { wait_ms }
    } else {
        AuthStep::Poll { polls: polls + 1, wait_ms: wait_ms + POLL_PAUSE_MS }
    }
}

/// What the client makes of a datagram received while it operates.
#[derive(Clone, Copy, Debug, PartialEq, Eq, Structural)]
pub enum Verdict {
    /// Not from the peer: discarded.
    WrongSender,
    /// Too short to hold any content: discarded unopened.
    TooShort,
    /// The same bytes were received before: discarded unopened.
    Duplicate,
    /// The signature is wrong: the peer is told, and the session is rebuilt.
    Invalid,
    /// The datagram could not be decrypted: the peer is told.
    DecryptFailed,
    /// The timestamp lies outside the tolerance: discarded.
    Stale,
    /// The peer ended the subscription: the session is rebuilt.
    Deauthenticated,
    /// A control datagram with another status.
    Control(u8),
    /// A message for the application, to be acknowledged.
    Message,
}

impl Verdict {
    /// The status byte that is sent back to the peer, if any.
    pub open spec fn reply_status(self) -> Option<u8> {
        match self {
            Verdict::Invalid => Some(STATUS_INVALID),
            Verdict::DecryptFailed => Some(STATUS_DECRYPT_FAILED),
            Verdict::Message => Some(STATUS_ACK),
            _ => None,
        }
    }

    /// Whether the session is rebuilt: a new socket, a new handshake, an
    /// empty memory.
    pub open spec fn rebuilds(self) -> bool {
        self == Verdict::Invalid || self == Verdict::Deauthenticated
    }

    /// The status byte to send back to the peer, if any.
    pub fn reply(self) -> (status: Option<u8>)
        ensures
            status == self.reply_status(),
    {
        match self {
            Verdict::Invalid => Some(STATUS_INVALID),
            Verdict::DecryptFailed => Some(STATUS_DECRYPT_FAILED),
            Verdict::Message => Some(STATUS_ACK),
            _ => None,
        }
    }

    /// Tells whether the session must be rebuilt.
    pub fn ends_session(self) -> (rebuild: bool)
        ensures
            rebuild == self.rebuilds(),
    {
        match self {
            Verdict::Invalid => true,
            Verdict::Deauthenticated => true,
            _ => false,
        }
    }
}

/// The verdict on a datagram received while operating, and the content that
/// goes to the application (empty unless the verdict is `Message`). `seen`
/// is the memory before the datagram arrived.
pub open spec fn judged(
    seen: Seq<Seq<u8>>,
    from_peer: bool,
    datagram: Seq<u8>,
    pad: Seq<u8>,
    now: u64,
) -> (Verdict, Seq<u8>) {
    if !from_peer {
        (Verdict::WrongSender, Seq::empty())
    } else if datagram.len() <= MIN_DATAGRAM {
        (Verdict::TooShort, Seq::empty())
    } else if seen.contains(datagram) {
        (Verdict::Duplicate, Seq::empty())
    } else {
        match opened(datagram, pad) {
            Err(e) => if e == CipherError::InvalidData {
                (Verdict::Invalid, Seq::empty())
            } else {
                (Verdict::DecryptFailed, Seq::empty())
            },
            Ok(envelope) => if !fresh(timestamp_of(envelope), now) {
                (Verdict::Stale, Seq::empty())
            } else if datagram.len() == CONTROL_DATAGRAM {
                if envelope[0] == STATUS_END {
                    (Verdict::Deauthenticated, Seq::empty())
                } else {
                    (Verdict::Control(envelope[0]), Seq::empty())
                }
            } else {
                (Verdict::Message, content_of(envelope))
            },
        }
    }
}

/// The memory after a datagram arrived: a datagram from the peer that is long
/// enough is offered to it, whatever becomes of it later.
pub open spec fn memory_after(seen: Seq<Seq<u8>>, from_peer: bool, datagram: Seq<u8>) -> Seq<
    Seq<u8>,
> {
    if from_peer && datagram.len() > MIN_DATAGRAM {
        remembered(seen, datagram)
    } else {
        seen
    }
}

/// Where the session stands.
#[derive(Clone, Copy, Debug, PartialEq, Eq, Structural)]
pub enum Phase {
    /// A fresh socket is to be bound.
    Recovery,
    /// The subscription was requested, or is to be.
    Authentication,
    /// Subscribed: datagrams are drained on every tick.
    Operate,
}

/// The state of one run of the client.
pub struct Session {
    /// Where the session stands.
    pub phase: Phase,
    /// The polls made for the current subscription request.
    pub polls: u8,
    /// The datagrams accepted from the peer of late.
    pub recent: RecentPayloads,
}

impl Session {
    /// The memory is within its bound.
    pub open spec fn wf(&self) -> bool {
        self.recent.wf()
    }

    /// A session that has yet to bind its socket.
    pub fn new() -> (session: Session)
        ensures
            session.wf(),
            session.phase == Phase::Recovery,
            session.polls == 0,
            session.recent@ == Seq::<Seq<u8>>::empty(),
    {
        Session { phase: Phase::Recovery, polls: 0, recent: RecentPayloads::new() }
    }

    /// A fresh socket was bound: the handshake starts, with an empty memory.
    pub fn bound(&mut self)
        ensures
            final(self).wf(),
            final(self).phase == Phase::Authentication,
            final(self).polls == 0,
            final(self).recent@ == Seq::<Seq<u8>>::empty(),
    {
        self.phase = Phase::Authentication;
        self.polls = 0;
        self.recent.clear();
    }

    /// Takes an event of the handshake and decides the next step. The count
    /// of polls goes on while the client polls and starts again with each
    /// request; an accepted subscription moves the session to `Operate`.
    pub fn authenticate(&mut self, event: AuthEvent) -> (step: AuthStep)
        ensures
            step == auth_step(old(self).polls, event),
            final(self).recent == old(self).recent,
            final(self).phase == (if step == AuthStep::Operate {
                Phase::Operate
            } else {
                Phase::Authentication
            }),
            final(self).polls == (match step {
                AuthStep::Poll { polls, wait_ms } => polls,
                _ => 0u8,
            }),
    {
        let step: AuthStep = match event {
            AuthEvent::RequestSent => AuthStep::Poll { polls: 0, wait_ms: POLL_PAUSE_MS },
            AuthEvent::RequestFailed => AuthStep::Restart { wait_ms: BACKOFF_MS },
            AuthEvent::NothingPending => keep_polling(self.polls, 0),
            AuthEvent::ReceiveFailed => AuthStep::Restart { wait_ms: BACKOFF_MS },
            AuthEvent::Answer(outcome) => match outcome {
                AuthOutcome::Subscribed => AuthStep::Operate,
                AuthOutcome::Rejected => AuthStep::Restart { wait_ms: BACKOFF_MS },
                AuthOutcome::PadMismatch => AuthStep::Restart { wait_ms: BACKOFF_MS },
                AuthOutcome::DecryptFailed => AuthStep::Restart { wait_ms: BACKOFF_MS },
                AuthOutcome::UnknownStatus(_) => keep_polling(self.polls, 0),
                AuthOutcome::Ignored => keep_polling(self.polls, BACKOFF_MS),
            },
        };
        match step {
            AuthStep::Operate => {
                self.phase = Phase::Operate;
                self.polls = 0;
            },
            AuthStep::Restart { wait_ms: _ } => {
                self.phase = Phase::Authentication;
                self.polls = 0;
            },
            AuthStep::Poll { polls, wait_ms: _ } => {
                self.phase = Phase::Authentication;
                self.polls = polls;
            },
        }
        step
    }

    /// Takes a datagram received while operating. Returns the verdict and
    /// the content for the application, remembers the datagram where it came
    /// from the peer and is long enough, and moves the session to `Recovery`
    /// where the verdict ends it.
    pub fn receive(&mut self, from_peer: bool, datagram: &Vec<u8>, pad: &Vec<u8>, now: u64) -> (out:
        (Verdict, Vec<u8>))
        requires
            old(self).wf(),
        ensures
            final(self).wf(),
            out.0 == judged(old(self).recent@, from_peer, datagram@, pad@, now).0,
            out.1@ == judged(old(self).recent@, from_peer, datagram@, pad@, now).1,
            final(self).recent@ == memory_after(old(self).recent@, from_peer, datagram@),
            final(self).polls == old(self).polls,
            final(self).phase == (if out.0.rebuilds() {
                Phase::Recovery
            } else {
                old(self).phase
            }),
    {
        if !from_peer {
            return (Verdict::WrongSender, Vec::new());
        }
        if datagram.len() <= MIN_DATAGRAM {
            return (Verdict::TooShort, Vec::new());
        }
        if !self.recent.remember(datagram) {
            return (Verdict::Duplicate, Vec::new());
        }
        let message: Vec<u8> = match decrypt(datagram, pad) {
            Ok(message) => message,
            Err(e) => match e {
                CipherError::InvalidData => {
                    self.phase = Phase::Recovery;
                    return (Verdict::Invalid, Vec::new());
                },
                CipherError::PadUnreadable => {
                    return (Verdict::DecryptFailed, Vec::new());
                },
            },
        };
        let split: usize = message.len() - 8;
        let timestamp: [u8; 8] = take_eight(&message, split);
        let msgtime: u64 = bytes2int(&timestamp);
        if !is_fresh(msgtime, now) {
            return (Verdict::Stale, Vec::new());
        }
        if datagram.len() == CONTROL_DATAGRAM {
            let status: u8 = message[0];
            if status == STATUS_END {
                self.phase = Phase::Recovery;
                return (Verdict::Deauthenticated, Vec::new());
            }
            return (Verdict::Control(status), Vec::new());
        }
        (Verdict::Message, copy_range(&message, 0, split))
    }
}

/// What happened on one receive while operating.
#[derive(Clone, Copy, Debug, PartialEq, Eq, Structural)]
pub enum DrainEvent {
    /// No datagram is pending.
    NothingPending,
    /// The receive failed with a socket error.
    ReceiveFailed,
    /// A datagram came, with this verdict.
    Judged(Verdict),
}

/// What the client does after one receive while operating.
#[derive(Clone, Copy, Debug, PartialEq, Eq, Structural)]
pub enum DrainStep {
    /// Receive again at once.
    Again,
    /// Wait, then receive again.
    Retry { wait_ms: u64 },
    /// Leave the drain until the next tick.
    Tick,
    /// Wait, then rebuild the session: bind a fresh socket.
    Rebuild { wait_ms: u64 },
}

/// The step after one receive while operating. With nothing pending the
/// drain ends until the next tick, and a socket error is retried after the
/// backoff. A datagram that is too short, a message, and one that could not
/// be decrypted leave the client draining; a datagram from a stranger, a
/// duplicate, a stale one and a control status end the drain for this tick.
/// One that does not validate rebuilds the session after a pause, and the end
/// of the subscription rebuilds it at once.
pub open spec fn drain_step(event: DrainEvent) -> DrainStep {
    match event {
        DrainEvent::NothingPending => DrainStep::Tick,
        DrainEvent::ReceiveFailed => DrainStep::Retry { wait_ms: BACKOFF_MS },
        DrainEvent::Judged(verdict) => match verdict {
            Verdict::WrongSender => DrainStep::Tick,
            Verdict::TooShort => DrainStep::Again,
            Verdict::Duplicate => DrainStep::Tick,
            Verdict::Invalid => DrainStep::Rebuild { wait_ms: INVALID_PAUSE_MS },
            Verdict::DecryptFailed => DrainStep::Again,
            Verdict::Stale => DrainStep::Tick,
            Verdict::Deauthenticated => DrainStep::Rebuild { wait_ms: 0 },
            Verdict::Control(_) => DrainStep::Tick,
            Verdict::Message => DrainStep::Again,
        },
    }
}

/// Decides what follows one receive while operating.
pub fn drain(event: DrainEvent) -> (step: DrainStep)
    ensures
        step == drain_step(event),
        step is Rebuild <==> (event matches DrainEvent::Judged(verdict) && verdict.rebuilds()),
{
    match event {
        DrainEvent::NothingPending => DrainStep::Tick,
        DrainEvent::ReceiveFailed => DrainStep::Retry { wait_ms: BACKOFF_MS },
        DrainEvent::Judged(verdict) => match verdict {
            Verdict::WrongSender => DrainStep::Tick,
            Verdict::TooShort => DrainStep::Again,
            Verdict::Duplicate => DrainStep::Tick,
            Verdict::Invalid => DrainStep::Rebuild { wait_ms: INVALID_PAUSE_MS },
            Verdict::DecryptFailed => DrainStep::Again,
            Verdict::Stale => DrainStep::Tick,
            Verdict::Deauthenticated => DrainStep::Rebuild { wait_ms: 0 },
            Verdict::Control(_) => DrainStep::Tick,
            Verdict::Message => DrainStep::Again,
        },
    }
}

/// Duplicate suppression: the same raw bytes, received from the peer a second
/// time, are a duplicate whatever became of them the first time, and they
/// leave the memory as it is. So of two deliveries of one datagram at most
/// the first reaches the application.
pub proof fn second_delivery_is_duplicate(
    seen: Seq<Seq<u8>>,
    datagram: Seq<u8>,
    pad: Seq<u8>,
    now: u64,
    later: u64,
)
    requires
        seen.len() <= crate::recent::RECENT_CAPACITY,
        datagram.len() > MIN_DATAGRAM,
    ensures
        judged(memory_after(seen, true, datagram), true, datagram, pad, later).0
            == Verdict::Duplicate,
        memory_after(memory_after(seen, true, datagram), true, datagram) == memory_after(
            seen,
            true,
            datagram,
        ),
        judged(seen, true, datagram, pad, now).0 == Verdict::Message ==> !seen.contains(datagram),
{
    offered_is_held(seen, datagram);
}

/// A datagram of less than the least length is discarded unopened, whatever
/// it holds, and leaves the memory as it is.
pub proof fn short_datagram_is_discarded(
    seen: Seq<Seq<u8>>,
    datagram: Seq<u8>,
    pad: Seq<u8>,
    now: u64,
)
    requires
        datagram.len() <= MIN_DATAGRAM,
    ensures
        judged(seen, true, datagram, pad, now) == (Verdict::TooShort, Seq::<u8>::empty()),
        memory_after(seen, true, datagram) == seen,
{
}

} // verus!
