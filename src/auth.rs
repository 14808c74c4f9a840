//! Wallet authentication: the challenge a wallet signs, and the check of its
//! signed proof against the stored challenge, the clock and the domain.

use crate::codec::{ascii_chars, base64_decode, decimal, token_bytes, u64_to_string};
use ed25519_dalek::{Signature, Verifier, VerifyingKey};
use vstd::prelude::*;
use vstd::string::{StrSliceExecFns, StringExecFns};
use vstd::utf8::{encode_utf8, encode_utf8_decode_utf8};

verus! {

/// The challenge that a wallet signs to prove that it owns its address.
pub struct TonProofChallenge {
    pub domain: String,
    /// Unix seconds.
    pub timestamp: i64,
    pub payload: String,
}

/// The outcome of a proof check.
pub struct AuthResponse {
    pub valid: bool,
    pub address: Option<String>,
}

/// The signed part of a proof.
pub struct ProofPayload {
    /// Unix seconds at signing.
    pub timestamp: i64,
    pub domain: String,
    /// The challenge text that was signed.
    pub payload: String,
    /// The ed25519 signature, in standard base64.
    pub signature: String,
}

/// A wallet's proof of ownership: its address (the base64 public key) and
/// the signed challenge.
pub struct TonProofRequest {
    pub address: String,
    pub proof: ProofPayload,
}

/// Why a proof is refused, in the order the checks run.
#[derive(Clone, Copy, Debug, PartialEq, Eq, Structural)]
pub enum ProofError {
    WalletMismatch,
    KeyNotFound,
    InvalidPayload,
    TooLate,
    InvalidDomain,
    InvalidSignatureSize,
    InvalidSignatureArray,
    InvalidPkBytes,
    InvalidPkLength,
    InvalidPublicKey,
    InvalidSignature,
}

impl ProofError {
    /// The message that the API answers with.
    pub fn message(&self) -> &'static str {
        match self {
            ProofError::WalletMismatch => "Wallet header mismatch",
            ProofError::KeyNotFound => "Key not found",
            ProofError::InvalidPayload => "Invalid payload",
            ProofError::TooLate => "Too late",
            ProofError::InvalidDomain => "Invalid domain",
            ProofError::InvalidSignatureSize => "Invalid signature size",
            ProofError::InvalidSignatureArray => "Invalid signature_array",
            ProofError::InvalidPkBytes => "Invalid pk bytes",
            ProofError::InvalidPkLength => "could not convert slice to array",
            ProofError::InvalidPublicKey => "Invalid public key",
            ProofError::InvalidSignature => "Invalid signature",
        }
    }
}

/// The wallet address that an `Authorization: Wallet <address>` header
/// value names: the text after the `Wallet ` scheme.
pub fn wallet_from_header(value: &str) -> (r: Option<String>)
    ensures
        r is Some <==> (value@.len() >= 7 && value@.subrange(0, 7) == "Wallet "@),
        r matches Some(w) ==> w@ == value@.subrange(7, value@.len() as int),
{
    let scheme = "Wallet ";
    proof {
        reveal_strlit("Wallet ");
    }
    let n = value.unicode_len();
    if n < 7 {
        return None;
    }
    let mut i: usize = 0;
    while i < 7
        invariant
            i <= 7,
            n == value@.len(),
            n >= 7,
            scheme@ == "Wallet "@,
            scheme@.len() == 7,
            forall|j: int| 0 <= j < i ==> value@[j] == scheme@[j],
        decreases 7 - i,
    {
        if value.get_char(i) != scheme.get_char(i) {
            assert(value@.subrange(0, 7)[i as int] != scheme@[i as int]);
            return None;
        }
        i = i + 1;
    }
    assert(value@.subrange(0, 7) =~= scheme@);
    Some(String::from_str(value.substring_char(7, n)))
}

/// The challenge text for a random `nonce`: `nonce_<decimal>`.
pub fn challenge_payload(nonce: u64) -> (r: String)
    ensures
        r@ == "nonce_"@ + ascii_chars(decimal(nonce as nat)),
{
    let mut payload = String::from_str("nonce_");
    let digits = u64_to_string(nonce);
    payload.append(digits.as_str());
    payload
}

/// How far, in seconds, a proof's timestamp may lie from the server's clock.
pub const PROOF_WINDOW_SECS: i64 = 300;

/// Whether 32 bytes are the compressed form of a curve point, as an ed25519
/// public key must be.
pub uninterp spec fn ed25519_key_valid(pk: Seq<u8>) -> bool;

/// Whether `sig` is a valid ed25519 signature of `msg` under the key `pk`.
pub uninterp spec fn ed25519_signature_valid(pk: Seq<u8>, msg: Seq<u8>, sig: Seq<u8>) -> bool;

/// Relies on `ed25519_dalek::VerifyingKey::from_bytes` (fails when the key
/// does not decompress to a curve point), `Signature::from_bytes` and
/// `Verifier::verify` on the key: `None` for an invalid key, else whether the
/// signature verifies. Both depend on the bytes alone.
#[verifier::external_body]
fn ed25519_verify(pk: &[u8], msg: &[u8], sig: &[u8]) -> (r: Option<bool>)
    requires
        pk@.len() == 32,
        sig@.len() == 64,
    ensures
        r is None <==> !ed25519_key_valid(pk@),
        r matches Some(ok) ==> ok == ed25519_signature_valid(pk@, msg@, sig@),
{
    let pk: &[u8; 32] = pk.try_into().unwrap();
    let sig: &[u8; 64] = sig.try_into().unwrap();
    match VerifyingKey::from_bytes(pk) {
        Ok(key) => Some(key.verify(msg, &Signature::from_bytes(sig)).is_ok()),
        Err(_) => None,
    }
}

/// The verdict on a proof. Checks run in order: the header's wallet is the
/// request's address; a challenge is stored for it and is what was signed;
/// the proof was signed within the window around `now`; it names our
/// domain; the signature is base64 of 64 bytes; the address is base64 of a
/// valid 32-byte key; the signature verifies over the challenge's bytes.
pub open spec fn proof_check_spec(
    wallet: Seq<char>,
    address: Seq<char>,
    proof_timestamp: i64,
    proof_domain: Seq<char>,
    proof_payload: Seq<char>,
    signature: Seq<char>,
    stored: Option<Seq<char>>,
    now: i64,
    domain: Seq<char>,
) -> Result<(), ProofError> {
    if wallet != address {
        Err(ProofError::WalletMismatch)
    } else if stored is None {
        Err(ProofError::KeyNotFound)
    } else if stored->Some_0 != proof_payload {
        Err(ProofError::InvalidPayload)
    } else if proof_timestamp - now > PROOF_WINDOW_SECS || now - proof_timestamp
        > PROOF_WINDOW_SECS {
        Err(ProofError::TooLate)
    } else if proof_domain != domain {
        Err(ProofError::InvalidDomain)
    } else {
        match token_bytes(signature) {
            None => Err(ProofError::InvalidSignatureSize),
            Some(sig) => if sig.len() != 64 {
                Err(ProofError::InvalidSignatureArray)
            } else {
                match token_bytes(address) {
                    None => Err(ProofError::InvalidPkBytes),
                    Some(pk) => if pk.len() != 32 {
                        Err(ProofError::InvalidPkLength)
                    } else if !ed25519_key_valid(pk) {
                        Err(ProofError::InvalidPublicKey)
                    } else if !ed25519_signature_valid(pk, encode_utf8(proof_payload), sig) {
                        Err(ProofError::InvalidSignature)
                    } else {
                        Ok(())
                    },
                }
            },
        }
    }
}

/// Whether two texts are equal, compared byte by byte.
fn same_text(a: &str, b: &str) -> (r: bool)
    ensures
        r == (a@ == b@),
{
    let x = a.as_bytes();
    let y = b.as_bytes();
    proof {
        encode_utf8_decode_utf8(a@);
        encode_utf8_decode_utf8(b@);
    }
    if x.len() != y.len() {
        return false;
    }
    let mut i: usize = 0;
    while i < x.len()
        invariant
            i <= x@.len(),
            x@.len() == y@.len(),
            x@ == encode_utf8(a@),
            y@ == encode_utf8(b@),
            forall|j: int| 0 <= j < i ==> x@[j] == y@[j],
        decreases x@.len() - i,
    {
        if x[i] != y[i] {
            return false;
        }
        i = i + 1;
    }
    assert(x@ =~= y@);
    true
}

/// Checks a wallet's signed proof. `wallet` is the address from the request
/// header, `stored_payload` the challenge stored for it, `now` the server's
/// clock in Unix seconds and `domain` the domain the proof must name.
pub fn verify_ton_proof(
    wallet: &str,
    req: &TonProofRequest,
    stored_payload: Option<&str>,
    now: i64,
    domain: &str,
) -> (r: Result<(), ProofError>)
    ensures
        r == proof_check_spec(
            wallet@,
            req.address@,
            req.proof.timestamp,
            req.proof.domain@,
            req.proof.payload@,
            req.proof.signature@,
            match stored_payload {
                Some(s) => Some(s@),
                None => None,
            },
            now,
            domain@,
        ),
{
    if !same_text(wallet, req.address.as_str()) {
        return Err(ProofError::WalletMismatch);
    }
    let stored = match stored_payload {
        Some(s) => s,
        None => return Err(ProofError::KeyNotFound),
    };
    if !same_text(stored, req.proof.payload.as_str()) {
        return Err(ProofError::InvalidPayload);
    }
    let diff: i128 = req.proof.timestamp as i128 - now as i128;
    if diff > PROOF_WINDOW_SECS as i128 || -diff > PROOF_WINDOW_SECS as i128 {
        return Err(ProofError::TooLate);
    }
    if !same_text(req.proof.domain.as_str(), domain) {
        return Err(ProofError::InvalidDomain);
    }
    let sig = match base64_decode(req.proof.signature.as_str()) {
        Some(b) => b,
        None => return Err(ProofError::InvalidSignatureSize),
    };
    proof {
        assert(token_bytes(req.proof.signature@) == Some(sig@));
    }
    if sig.len() != 64 {
        return Err(ProofError::InvalidSignatureArray);
    }
    let pk = match base64_decode(req.address.as_str()) {
        Some(b) => b,
        None => return Err(ProofError::InvalidPkBytes),
    };
    proof {
        assert(token_bytes(req.address@) == Some(pk@));
    }
    if pk.len() != 32 {
        return Err(ProofError::InvalidPkLength);
    }
    match ed25519_verify(pk.as_slice(), req.proof.payload.as_str().as_bytes(), sig.as_slice()) {
        None => Err(ProofError::InvalidPublicKey),
        Some(false) => Err(ProofError::InvalidSignature),
        Some(true) => Ok(()),
    }
}

} // verus!
