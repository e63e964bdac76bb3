//! Sealing and opening of datagrams: a signature over seed, message and key,
//! and the exclusive-or of message and signature with the key.

use crate::bytes::{copy_range, int2bytes, same_eight, take_eight};
use crate::keystream::{drawn_bytes_len, hash8, hash_head, key_of, keygen, seed_of, CipherError};
use vstd::prelude::*;

verus! {

/// `rand::random` returns a value of the asked type from the thread's random
/// number generator. Nothing is claimed of the number.
#[verifier::external_body]
fn random_u64() -> (n: u64) {
    rand::random::<u64>()
}

/// The byte-wise exclusive-or of `a` with `b`, as long as `a`.
pub open spec fn xor_bytes(a: Seq<u8>, b: Seq<u8>) -> Seq<u8> {
    Seq::new(a.len(), |i: int| a[i] ^ b[i])
}

/// The signature that binds a seed, a message and a key: the first eight
/// bytes of the hash of the three, one after the other.
pub open spec fn signature_of(seed: Seq<u8>, message: Seq<u8>, key: Seq<u8>) -> Seq<u8> {
    hash_head(seed + message + key)
}

/// The datagram that seals `message` under `nonce`: message and signature,
/// both encrypted with the key, and then the nonce in the clear.
pub open spec fn sealed(message: Seq<u8>, pad: Seq<u8>, nonce: Seq<u8>) -> Result<
    Seq<u8>,
    CipherError,
> {
    if pad.len() == 0 {
        Err(CipherError::PadUnreadable)
    } else {
        let seed = seed_of(nonce, pad);
        let key = key_of(seed, pad, message.len() + 8);
        Ok(xor_bytes(message + signature_of(seed, message, key), key) + nonce)
    }
}

/// The nonce that a datagram carries: its last eight bytes.
pub open spec fn nonce_of(payload: Seq<u8>) -> Seq<u8> {
    payload.subrange(payload.len() - 8, payload.len() as int)
}

/// What opening a datagram gives: the message it seals, or the reason why it
/// seals none. A datagram too short to hold a signature and a nonce is
/// invalid whatever the pad.
pub open spec fn opened(payload: Seq<u8>, pad: Seq<u8>) -> Result<Seq<u8>, CipherError> {
    if payload.len() < 16 {
        Err(CipherError::InvalidData)
    } else if pad.len() == 0 {
        Err(CipherError::PadUnreadable)
    } else {
        let len = payload.len() - 8;
        let seed = seed_of(nonce_of(payload), pad);
        let key = key_of(seed, pad, len as nat);
        let combined = xor_bytes(payload.subrange(0, len), key);
        let message = combined.subrange(0, len - 8);
        if combined.subrange(len - 8, len) == signature_of(seed, message, key) {
            Ok(message)
        } else {
            Err(CipherError::InvalidData)
        }
    }
}

/// Computes the byte-wise exclusive-or of two byte strings of one length.
pub fn xor(a: &Vec<u8>, b: &Vec<u8>) -> (out: Vec<u8>)
    requires
        a@.len() == b@.len(),
    ensures
        out@ == xor_bytes(a@, b@),
{
    let mut out: Vec<u8> = Vec::new();
    let mut x: usize = 0;
    while x < a.len()
        invariant
            x <= a@.len(),
            a@.len() == b@.len(),
            out@.len() == x,
            forall|i: int| 0 <= i < x ==> out@[i] == a@[i] ^ b@[i],
        decreases a@.len() - x,
    {
        out.push(a[x] ^ b[x]);
        x += 1;
    }
    proof {
        assert(out@ =~= xor_bytes(a@, b@));
    }
    out
}

/// Computes the signature of a message under a seed and a key.
pub fn sign(seed: &Vec<u8>, message: &Vec<u8>, key: &Vec<u8>) -> (signature: [u8; 8])
    ensures
        signature@ == signature_of(seed@, message@, key@),
{
    let mut input: Vec<u8> = Vec::new();
    input.extend_from_slice(seed.as_slice());
    input.extend_from_slice(message.as_slice());
    input.extend_from_slice(key.as_slice());
    proof {
        assert(input@ =~= seed@ + message@ + key@);
    }
    hash8(&input)
}

/// Seals `message` under the given nonce. Fails exactly when the pad is
/// empty.
pub fn seal(message: &Vec<u8>, pad: &Vec<u8>, nonce: &[u8; 8]) -> (result: Result<
    Vec<u8>,
    CipherError,
>)
    requires
        message@.len() + 16 <= usize::MAX,
    ensures
        match result {
            Ok(datagram) => sealed(message@, pad@, nonce@) == Ok::<Seq<u8>, CipherError>(
                datagram@,
            ),
            Err(e) => sealed(message@, pad@, nonce@) == Err::<Seq<u8>, CipherError>(e),
        },
        result is Ok ==> result->Ok_0@.len() == message@.len() + 16,
{
    let keysize: usize = message.len() + 8;
    let (key, seed) = match keygen(nonce, pad, &keysize) {
        Ok((k, s)) => (k, s),
        Err(e) => return Err(e),
    };
    let signature: [u8; 8] = sign(&seed, message, &key);
    let mut combined: Vec<u8> = Vec::new();
    combined.extend_from_slice(message.as_slice());
    combined.extend_from_slice(signature.as_slice());
    proof {
        assert(combined@ =~= message@ + signature@);
    }
    let mut payload: Vec<u8> = xor(&combined, &key);
    let ghost cipher_text = payload@;
    payload.extend_from_slice(nonce.as_slice());
    proof {
        assert(payload@ =~= cipher_text + nonce@);
    }
    Ok(payload)
}

/// Seals `message` under a fresh random nonce. Fails exactly when the pad is
/// empty. Whatever nonce was drawn, the datagram is the sealing of the
/// message under the nonce that it carries, and it opens to the message.
pub fn encrypt(message: &Vec<u8>, pad: &Vec<u8>) -> (result: Result<Vec<u8>, CipherError>)
    requires
        message@.len() + 16 <= usize::MAX,
    ensures
        result is Err <==> pad@.len() == 0,
        result is Err ==> result->Err_0 == CipherError::PadUnreadable,
        result is Ok ==> result->Ok_0@.len() == message@.len() + 16,
        result is Ok ==> sealed(message@, pad@, nonce_of(result->Ok_0@)) == Ok::<
            Seq<u8>,
            CipherError,
        >(result->Ok_0@),
        result is Ok ==> opened(result->Ok_0@, pad@) == Ok::<Seq<u8>, CipherError>(message@),
{
    let nonce: u64 = random_u64();
    let noncebytes: [u8; 8] = int2bytes(&nonce);
    let result = seal(message, pad, &noncebytes);
    proof {
        if pad@.len() > 0 {
            open_after_seal(message@, pad@, noncebytes@);
            assert(nonce_of(result->Ok_0@) =~= noncebytes@);
        }
    }
    result
}

/// Opens a datagram: derives seed and key from the nonce that it carries,
/// decrypts, and returns the message if the signature is the one that the
/// message calls for.
pub fn decrypt(payload: &Vec<u8>, pad: &Vec<u8>) -> (result: Result<Vec<u8>, CipherError>)
    ensures
        match result {
            Ok(message) => opened(payload@, pad@) == Ok::<Seq<u8>, CipherError>(message@),
            Err(e) => opened(payload@, pad@) == Err::<Seq<u8>, CipherError>(e),
        },
        result is Ok ==> result->Ok_0@.len() == payload@.len() - 16,
{
    if payload.len() < 16 {
        return Err(CipherError::InvalidData);
    }
    let keysize: usize = payload.len() - 8;
    let noncebytes: [u8; 8] = take_eight(payload, keysize);
    let ciphertext: Vec<u8> = copy_range(payload, 0, keysize);
    let (key, seed) = match keygen(&noncebytes, pad, &keysize) {
        Ok((k, s)) => (k, s),
        Err(e) => return Err(e),
    };
    let verimessage: Vec<u8> = xor(&ciphertext, &key);
    let signature: [u8; 8] = take_eight(&verimessage, keysize - 8);
    let message: Vec<u8> = copy_range(&verimessage, 0, keysize - 8);
    let rightsum: [u8; 8] = sign(&seed, &message, &key);
    if same_eight(&signature, &rightsum) {
        Ok(message)
    } else {
        Err(CipherError::InvalidData)
    }
}

/// Exclusive-or with one key, done twice, gives the bytes back.
pub proof fn xor_twice(a: Seq<u8>, key: Seq<u8>)
    requires
        a.len() == key.len(),
    ensures
        xor_bytes(xor_bytes(a, key), key) == a,
{
    assert forall|i: int| 0 <= i < a.len() implies (a[i] ^ key[i]) ^ key[i] == a[i] by {
        let x = a[i];
        let k = key[i];
        assert((x ^ k) ^ k == x) by (bit_vector);
    }
    assert(xor_bytes(xor_bytes(a, key), key) =~= a);
}

/// Round trip: under a pad that holds at least one byte, the datagram that
/// seals a message under any nonce of eight bytes opens to that message.
pub proof fn open_after_seal(message: Seq<u8>, pad: Seq<u8>, nonce: Seq<u8>)
    requires
        pad.len() > 0,
        nonce.len() == 8,
    ensures
        sealed(message, pad, nonce) is Ok,
        opened(sealed(message, pad, nonce)->Ok_0, pad) == Ok::<Seq<u8>, CipherError>(message),
{
    let seed = seed_of(nonce, pad);
    let key = key_of(seed, pad, message.len() + 8);
    let signature = signature_of(seed, message, key);
    let plain = message + signature;
    let cipher_text = xor_bytes(plain, key);
    let datagram = cipher_text + nonce;
    let len = datagram.len() - 8;
    drawn_bytes_len(seed, pad, message.len() + 8);
    assert(nonce_of(datagram) =~= nonce);
    assert(datagram.subrange(0, len) =~= cipher_text);
    xor_twice(plain, key);
    assert(plain.subrange(0, len - 8) =~= message);
    assert(plain.subrange(len - 8, len) =~= signature);
}

/// A datagram that opens to a message is the sealing of that message under
/// the nonce that the datagram carries: no other bytes open to it.
pub proof fn opened_is_sealed(payload: Seq<u8>, pad: Seq<u8>)
    requires
        opened(payload, pad) is Ok,
    ensures
        sealed(opened(payload, pad)->Ok_0, pad, nonce_of(payload)) == Ok::<Seq<u8>, CipherError>(
            payload,
        ),
{
    let len = payload.len() - 8;
    let nonce = nonce_of(payload);
    let seed = seed_of(nonce, pad);
    let key = key_of(seed, pad, len as nat);
    let cipher_text = payload.subrange(0, len);
    let combined = xor_bytes(cipher_text, key);
    let message = combined.subrange(0, len - 8);
    let signature = signature_of(seed, message, key);
    drawn_bytes_len(seed, pad, len as nat);
    assert(combined =~= message + signature);
    xor_twice(cipher_text, key);
    assert(payload =~= cipher_text + nonce);
}

/// Tamper detection, as far as it holds of every input: a datagram that
/// differs from a sealed one but carries its nonce never opens to the message
/// that was sealed. It fails to validate, or opens to another message whose
/// own sealing it is.
pub proof fn tampered_never_opens_to_sealed_message(
    message: Seq<u8>,
    pad: Seq<u8>,
    nonce: Seq<u8>,
    forged: Seq<u8>,
)
    requires
        pad.len() > 0,
        nonce.len() == 8,
        forged.len() >= 8,
        nonce_of(forged) == nonce,
        Ok::<Seq<u8>, CipherError>(forged) != sealed(message, pad, nonce),
    ensures
        opened(forged, pad) != Ok::<Seq<u8>, CipherError>(message),
{
    if opened(forged, pad) == Ok::<Seq<u8>, CipherError>(message) {
        opened_is_sealed(forged, pad);
    }
}

/// Tamper detection in the signature: a datagram that agrees with a sealed
/// one in length, in nonce and in the encrypted message, and differs from it
/// in the encrypted signature, does not validate.
pub proof fn tampered_signature_rejected(
    message: Seq<u8>,
    pad: Seq<u8>,
    nonce: Seq<u8>,
    forged: Seq<u8>,
)
    requires
        pad.len() > 0,
        nonce.len() == 8,
        forged.len() == message.len() + 16,
        nonce_of(forged) == nonce,
        forged.subrange(0, message.len() as int) == sealed(message, pad, nonce)->Ok_0.subrange(
            0,
            message.len() as int,
        ),
        forged != sealed(message, pad, nonce)->Ok_0,
    ensures
        opened(forged, pad) == Err::<Seq<u8>, CipherError>(CipherError::InvalidData),
{
    let len = forged.len() - 8;
    let seed = seed_of(nonce, pad);
    let key = key_of(seed, pad, len as nat);
    let genuine = sealed(message, pad, nonce)->Ok_0;
    let combined = xor_bytes(forged.subrange(0, len), key);
    drawn_bytes_len(seed, pad, len as nat);
    xor_twice(message + signature_of(seed, message, key), key);
    assert forall|i: int| 0 <= i < message.len() implies combined[i] == message[i] by {
        assert(forged[i] == forged.subrange(0, message.len() as int)[i]);
        assert(genuine[i] == genuine.subrange(0, message.len() as int)[i]);
        assert(genuine[i] == (message + signature_of(seed, message, key))[i] ^ key[i]);
        let m = message[i];
        let k = key[i];
        assert((m ^ k) ^ k == m) by (bit_vector);
    }
    assert(combined.subrange(0, len - 8) =~= message);
    if opened(forged, pad) is Ok {
        opened_is_sealed(forged, pad);
    }
}

} // verus!
