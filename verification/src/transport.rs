//! The decisions of the sender: what to do after one attempt to send a
//! datagram, and what an outgoing envelope holds.

use crate::bytes::{be_bytes, int2bytes};
use crate::cipher::{encrypt, nonce_of, opened, sealed};
use crate::keystream::CipherError;
use vstd::prelude::*;

verus! {

/// How one attempt to send a datagram ended.
#[derive(Clone, Copy, Debug, PartialEq, Eq, Structural)]
pub enum SendAttempt {
    /// The socket took this many bytes.
    Sent(usize),
    /// The operation was interrupted.
    Interrupted,
    /// The transmit buffer is full.
    WouldBlock,
    /// Any other socket error.
    Failed,
}

/// What the sender does after an attempt.
#[derive(Clone, Copy, Debug, PartialEq, Eq, Structural)]
pub enum SendVerdict {
    /// The datagram left in full.
    Done,
    /// Send the whole datagram again.
    Retry,
    /// Hand the error to the caller.
    GiveUp,
}

/// The verdict on an attempt to send `len` bytes.
pub open spec fn send_verdict(attempt: SendAttempt, len: usize) -> SendVerdict {
    match attempt {
        SendAttempt::Sent(n) => if n < len {
            SendVerdict::Retry
        } else {
            SendVerdict::Done
        },
        SendAttempt::Interrupted => SendVerdict::Retry,
        SendAttempt::WouldBlock => SendVerdict::GiveUp,
        SendAttempt::Failed => SendVerdict::GiveUp,
    }
}

/// Decides what follows an attempt to send a datagram of `len` bytes: a
/// short send and an interruption are tried again, every other error is
/// handed up at once.
pub fn sendraw(attempt: SendAttempt, len: usize) -> (verdict: SendVerdict)
    ensures
        verdict == send_verdict(attempt, len),
{
    match attempt {
        SendAttempt::Sent(n) => {
            if n < len {
                SendVerdict::Retry
            } else {
                SendVerdict::Done
            }
        },
        SendAttempt::Interrupted => SendVerdict::Retry,
        SendAttempt::WouldBlock => SendVerdict::GiveUp,
        SendAttempt::Failed => SendVerdict::GiveUp,
    }
}

/// The envelope of a payload: the payload, then the time of sending as eight
/// bytes, most significant first.
pub open spec fn envelope_of(payload: Seq<u8>, now: u64) -> Seq<u8> {
    payload + be_bytes(now)
}

/// Appends the time of sending to a payload.
pub fn stamp(payload: &Vec<u8>, now: u64) -> (envelope: Vec<u8>)
    ensures
        envelope@ == envelope_of(payload@, now),
{
    let time: [u8; 8] = int2bytes(&now);
    let mut envelope: Vec<u8> = Vec::new();
    let mut x: usize = 0;
    while x < payload.len()
        invariant
            x <= payload@.len(),
            envelope@ == payload@.take(x as int),
        decreases payload@.len() - x,
    {
        envelope.push(payload[x]);
        proof {
            assert(envelope@ =~= payload@.take(x + 1));
        }
        x += 1;
    }
    let mut y: usize = 0;
    while y < 8
        invariant
            y <= 8,
            time@ == be_bytes(now),
            envelope@ == payload@ + time@.take(y as int),
        decreases 8 - y,
    {
        proof {
            assert(payload@.take(payload@.len() as int) =~= payload@);
        }
        envelope.push(time[y]);
        proof {
            assert(envelope@ =~= payload@ + time@.take(y + 1));
        }
        y += 1;
    }
    proof {
        assert(time@.take(8) =~= time@);
    }
    envelope
}

/// Makes the datagram that carries `bytes`, sent at `now`: stamps the bytes
/// and seals the envelope under a fresh nonce. Fails exactly when the pad is
/// empty; whatever nonce was drawn, the datagram opens to the envelope.
pub fn sendbytes(bytes: &Vec<u8>, now: u64, pad: &Vec<u8>) -> (result: Result<
    Vec<u8>,
    CipherError,
>)
    requires
        bytes@.len() + 24 <= usize::MAX,
    ensures
        result is Err <==> pad@.len() == 0,
        result is Err ==> result->Err_0 == CipherError::PadUnreadable,
        result is Ok ==> result->Ok_0@.len() == bytes@.len() + 24,
        result is Ok ==> sealed(envelope_of(bytes@, now), pad@, nonce_of(result->Ok_0@)) == Ok::<
            Seq<u8>,
            CipherError,
        >(result->Ok_0@),
        result is Ok ==> opened(result->Ok_0@, pad@) == Ok::<Seq<u8>, CipherError>(
            envelope_of(bytes@, now),
        ),
{
    let stampedbytes: Vec<u8> = stamp(bytes, now);
    encrypt(&stampedbytes, pad)
}

/// Makes the datagram for a reply to a message, sent at `now`. An empty
/// reply is none: nothing is sent. Any other reply is stamped and sealed as
/// `sendbytes` does.
pub fn sendreply(reply: &Vec<u8>, now: u64, pad: &Vec<u8>) -> (result: Option<
    Result<Vec<u8>, CipherError>,
>)
    requires
        reply@.len() + 24 <= usize::MAX,
    ensures
        result is None <==> reply@.len() == 0,
        result is Some ==> (result->Some_0 is Err <==> pad@.len() == 0),
        result matches Some(Err(e)) ==> e == CipherError::PadUnreadable,
        result matches Some(Ok(datagram)) ==> datagram@.len() == reply@.len() + 24 && sealed(
            envelope_of(reply@, now),
            pad@,
            nonce_of(datagram@),
        ) == Ok::<Seq<u8>, CipherError>(datagram@) && opened(datagram@, pad@) == Ok::<
            Seq<u8>,
            CipherError,
        >(envelope_of(reply@, now)),
{
    if reply.len() == 0 {
        None
    } else {
        Some(sendbytes(reply, now, pad))
    }
}

} // verus!
