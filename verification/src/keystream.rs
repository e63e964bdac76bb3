//! The keystream generator: a secret seed and a key of any length, drawn from
//! a shared pad at positions chosen by a chain of hashes.

use crate::bytes::{be_value, bytes2int, take_eight};
use vstd::prelude::*;

verus! {

/// The 32-byte SHA3-256 digest of `input`, as `tiny_keccak::sha3_256`
/// computes it.
pub uninterp spec fn sha3_256_digest(input: Seq<u8>) -> Seq<u8>;

/// `tiny_keccak::sha3_256` absorbs the whole of `data` into a fresh SHA3-256
/// sponge and returns the 32 bytes it squeezes out. The digest depends on the
/// bytes of `data` alone.
#[verifier::external_body]
fn sha3_256(data: &[u8]) -> (digest: [u8; 32])
    ensures
        digest@ == sha3_256_digest(data@),
{
    tiny_keccak::sha3_256(data)
}

/// Why a cryptographic operation failed.
#[derive(Clone, Copy, Debug, PartialEq, Eq, Structural)]
pub enum CipherError {
    /// The pad holds no byte to read.
    PadUnreadable,
    /// The datagram does not carry the signature that its contents call for.
    InvalidData,
}

/// The first eight bytes of the SHA3-256 digest of `input`.
pub open spec fn hash_head(input: Seq<u8>) -> Seq<u8> {
    Seq::new(8, |i: int| sha3_256_digest(input)[i])
}

/// The pad byte that a hash selects: the hash, read as a big-endian integer,
/// reduced modulo the pad's length.
pub open spec fn pad_byte(h: Seq<u8>, pad: Seq<u8>) -> u8 {
    pad[be_value(h) % (pad.len() as int)]
}

/// What one round of the chain hashes: the root, the running hash, and the
/// byte drawn in the round before, if there was one.
pub open spec fn round_input(root: Seq<u8>, running: Seq<u8>, drawn: Seq<u8>) -> Seq<u8> {
    if drawn.len() >= 1 {
        root + running + seq![drawn.last()]
    } else {
        root + running
    }
}

/// The chain after `rounds` rounds: the running hash, which starts as the
/// root, and the bytes drawn from the pad so far.
pub open spec fn chain(root: Seq<u8>, pad: Seq<u8>, rounds: nat) -> (Seq<u8>, Seq<u8>)
    decreases rounds,
{
    if rounds == 0 {
        (root, Seq::empty())
    } else {
        let before = chain(root, pad, (rounds - 1) as nat);
        let h = hash_head(round_input(root, before.0, before.1));
        (h, before.1.push(pad_byte(h, pad)))
    }
}

/// The bytes that `rounds` rounds of the chain draw from the pad.
pub open spec fn drawn_bytes(root: Seq<u8>, pad: Seq<u8>, rounds: nat) -> Seq<u8> {
    chain(root, pad, rounds).1
}

/// The secret seed of a nonce: eight bytes drawn by a chain rooted at the
/// nonce.
pub open spec fn seed_of(nonce: Seq<u8>, pad: Seq<u8>) -> Seq<u8> {
    drawn_bytes(nonce, pad, 8)
}

/// The key of a seed: `len` bytes drawn by a chain rooted at the seed.
pub open spec fn key_of(seed: Seq<u8>, pad: Seq<u8>, len: nat) -> Seq<u8> {
    drawn_bytes(seed, pad, len)
}

/// A chain draws one byte in each round.
pub proof fn drawn_bytes_len(root: Seq<u8>, pad: Seq<u8>, rounds: nat)
    ensures
        drawn_bytes(root, pad, rounds).len() == rounds,
    decreases rounds,
{
    if rounds > 0 {
        drawn_bytes_len(root, pad, (rounds - 1) as nat);
    }
}

/// Computes the first eight bytes of the SHA3-256 digest of `input`.
pub fn hash8(input: &Vec<u8>) -> (h: [u8; 8])
    ensures
        h@ == hash_head(input@),
{
    let digest: [u8; 32] = sha3_256(input.as_slice());
    let h: [u8; 8] = [
        digest[0],
        digest[1],
        digest[2],
        digest[3],
        digest[4],
        digest[5],
        digest[6],
        digest[7],
    ];
    proof {
        assert(h@ =~= hash_head(input@));
    }
    h
}

/// Runs the chain for `rounds` rounds from `root` and returns the bytes it
/// draws from the pad.
pub fn draw(root: &[u8; 8], pad: &Vec<u8>, rounds: usize) -> (out: Vec<u8>)
    requires
        pad@.len() > 0,
    ensures
        out@ == drawn_bytes(root@, pad@, rounds as nat),
        out@.len() == rounds,
{
    let mut out: Vec<u8> = Vec::new();
    let mut running: [u8; 8] = *root;
    let pad_len: usize = pad.len();
    let modulus: u64 = pad_len as u64;
    let mut x: usize = 0;
    while x < rounds
        invariant
            x <= rounds,
            modulus == pad_len == pad@.len(),
            modulus > 0,
            out@.len() == x,
            chain(root@, pad@, x as nat) == (running@, out@),
        decreases rounds - x,
    {
        let mut input: Vec<u8> = Vec::new();
        input.extend_from_slice(root.as_slice());
        input.extend_from_slice(running.as_slice());
        if x >= 1 {
            input.push(out[x - 1]);
        }
        proof {
            assert(input@ =~= round_input(root@, running@, out@));
        }
        let ghost before = (running@, out@);
        running = hash8(&input);
        let at: u64 = bytes2int(&running) % modulus;
        assert(at < pad_len);
        assert(at == be_value(running@) % (pad@.len() as int));
        let place: usize = at as usize;
        out.push(pad[place]);
        x += 1;
        proof {
            assert(chain(root@, pad@, (x - 1) as nat) == before);
            assert(pad@[place as int] == pad_byte(running@, pad@));
            assert(chain(root@, pad@, x as nat).0 == running@);
            assert(chain(root@, pad@, x as nat).1 == out@);
        }
    }
    out
}

/// What `keygen` returns: the key and the seed, or why there is none.
pub open spec fn derived(nonce: Seq<u8>, pad: Seq<u8>, len: nat) -> Result<
    (Seq<u8>, Seq<u8>),
    CipherError,
> {
    if pad.len() == 0 {
        Err(CipherError::PadUnreadable)
    } else {
        Ok((key_of(seed_of(nonce, pad), pad, len), seed_of(nonce, pad)))
    }
}

/// Derives the single-use key of `keysize` bytes and the eight-byte secret
/// seed that belong to `nonce` under `pad`. Fails exactly when the pad is
/// empty.
pub fn keygen(nonce: &[u8; 8], pad: &Vec<u8>, keysize: &usize) -> (result: Result<
    (Vec<u8>, Vec<u8>),
    CipherError,
>)
    ensures
        match result {
            Ok((key, seed)) => derived(nonce@, pad@, *keysize as nat) == Ok::<
                (Seq<u8>, Seq<u8>),
                CipherError,
            >((key@, seed@)),
            Err(e) => derived(nonce@, pad@, *keysize as nat) == Err::<
                (Seq<u8>, Seq<u8>),
                CipherError,
            >(e),
        },
        result is Ok ==> result->Ok_0.0@.len() == *keysize && result->Ok_0.1@.len() == 8,
{
    if pad.len() == 0 {
        return Err(CipherError::PadUnreadable);
    }
    let seed: Vec<u8> = draw(nonce, pad, 8);
    let seed_root: [u8; 8] = take_eight(&seed, 0);
    proof {
        assert(seed@.subrange(0, 8) =~= seed@);
    }
    let key: Vec<u8> = draw(&seed_root, pad, *keysize);
    Ok((key, seed))
}

} // verus!
