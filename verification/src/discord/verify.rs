//! Checks the Ed25519 signature that Discord puts on every interaction request.
use vstd::prelude::*;
use vstd::string::StringSliceAdditionalSpecFns;

verus! {

#[derive(Debug, Clone, Copy, PartialEq, Eq, Structural)]
pub enum VerifyError {
    InvalidPublicKey,
    MissingSignature,
    InvalidSignature,
}

impl VerifyError {
    pub open spec fn message_spec(self) -> Seq<char> {
        match self {
            VerifyError::InvalidPublicKey => "discord public key is malformed"@,
            VerifyError::MissingSignature => "discord request signature is missing"@,
            VerifyError::InvalidSignature => "discord request signature is invalid"@,
        }
    }

    pub fn message(self) -> (r: &'static str)
        ensures
            r@ == self.message_spec(),
    {
        match self {
            VerifyError::InvalidPublicKey => "discord public key is malformed",
            VerifyError::MissingSignature => "discord request signature is missing",
            VerifyError::InvalidSignature => "discord request signature is invalid",
        }
    }
}

/// The value of one hexadecimal digit (either case), if the byte is one.
pub open spec fn hex_value(b: u8) -> Option<int> {
    if 0x30 <= b <= 0x39 {
        Some(b - 0x30)
    } else if 0x41 <= b <= 0x46 {
        Some(b - 0x41 + 10)
    } else if 0x61 <= b <= 0x66 {
        Some(b - 0x61 + 10)
    } else {
        None
    }
}

/// Text that decodes as hex: an even number of bytes, each a hex digit.
pub open spec fn is_hex(text: Seq<u8>) -> bool {
    &&& text.len() % 2 == 0
    &&& forall|i: int| 0 <= i < text.len() ==> (#[trigger] hex_value(text[i])) is Some
}

/// The bytes that hex text stands for, two digits per byte, high digit first.
pub open spec fn hex_bytes(text: Seq<u8>) -> Seq<u8> {
    Seq::new(
        text.len() / 2,
        |i: int|
            (hex_value(text[2 * i]).unwrap() * 16 + hex_value(text[2 * i + 1]).unwrap()) as u8,
    )
}

/// Whether these 32 bytes are the compressed form of a point on the Ed25519 curve, i.e. a
/// public key that `ed25519_dalek::VerifyingKey::from_bytes` accepts.
pub uninterp spec fn ed25519_key_accepted(key: Seq<u8>) -> bool;

/// Whether `ed25519_dalek`'s (non-strict) verification accepts this 64-byte signature on the
/// message under the given 32-byte public key.
pub uninterp spec fn ed25519_signature_accepted(key: Seq<u8>, signature: Seq<u8>, message: Seq<u8>) -> bool;

/// Calls `hex::decode` on the UTF-8 bytes of `text`. The crate's source returns an error
/// when the length is odd or a byte is not in `0-9`, `a-f` or `A-F`; otherwise each pair of
/// digits becomes one byte, high digit first. The error itself is dropped.
#[verifier::external_body]
fn hex_decode(text: &str) -> (r: Option<Vec<u8>>)
    ensures
        r is Some <==> is_hex(text.spec_bytes()),
        r matches Some(v) ==> v@ == hex_bytes(text.spec_bytes()),
{
    hex::decode(text).ok()
}

/// Builds an `ed25519_dalek::VerifyingKey` from 32 bytes with `VerifyingKey::from_bytes`
/// and, when that succeeds, checks the 64-byte signature (made an `ed25519::Signature` by
/// `Signature::from_bytes`, which cannot fail) on the message with `Verifier::verify`.
/// Claimed: `None` exactly when the key is refused, else whether the signature verifies; both
/// are named, not stated, since the curve arithmetic behind them takes pages to write down.
#[verifier::external_body]
fn ed25519_verify(key: &[u8], signature: &[u8], message: &[u8]) -> (r: Option<bool>)
    requires
        key.len() == 32,
        signature.len() == 64,
    ensures
        r is Some <==> ed25519_key_accepted(key@),
        r matches Some(ok) ==> ok == ed25519_signature_accepted(key@, signature@, message@),
{
    let key: [u8; 32] = key.try_into().unwrap();
    let signature: [u8; 64] = signature.try_into().unwrap();
    match ed25519_dalek::VerifyingKey::from_bytes(&key) {
        Ok(k) => Some(
            ed25519_dalek::Verifier::verify(
                &k,
                message,
                &ed25519_dalek::Signature::from_bytes(&signature),
            ).is_ok(),
        ),
        Err(_) => None,
    }
}

/// Hex text that decodes to exactly `n` bytes.
pub open spec fn decode_fixed_spec(text: Seq<u8>, n: nat) -> Option<Seq<u8>> {
    if is_hex(text) && hex_bytes(text).len() == n {
        Some(hex_bytes(text))
    } else {
        None
    }
}

fn decode_fixed(text: &str, n: usize) -> (r: Option<Vec<u8>>)
    ensures
        match decode_fixed_spec(text.spec_bytes(), n as nat) {
            Some(b) => r matches Some(v) && v@ == b,
            None => r is None,
        },
{
    match hex_decode(text) {
        Some(v) => {
            if v.len() == n {
                Some(v)
            } else {
                None
            }
        },
        None => None,
    }
}

/// What a request with both headers present comes to: the key must be 32 bytes of hex, the
/// signature 64 bytes of hex, the key a curve point, and the signature must verify on the
/// timestamp followed by the body.
pub open spec fn verify_outcome(key_hex: Seq<u8>, signature_hex: Seq<u8>, message: Seq<u8>) -> Result<
    (),
    VerifyError,
> {
    match decode_fixed_spec(key_hex, 32) {
        None => Err(VerifyError::InvalidPublicKey),
        Some(key) => match decode_fixed_spec(signature_hex, 64) {
            None => Err(VerifyError::InvalidSignature),
            Some(signature) => if !ed25519_key_accepted(key) {
                Err(VerifyError::InvalidPublicKey)
            } else if ed25519_signature_accepted(key, signature, message) {
                Ok(())
            } else {
                Err(VerifyError::InvalidSignature)
            },
        },
    }
}

/// Checks a Discord interaction request: both the signature and the timestamp header must be
/// present, and the hex signature must verify under the hex public key on the timestamp's
/// bytes followed by the body.
pub fn verify_discord_request(
    public_key_hex: &str,
    signature_hex: Option<&str>,
    timestamp: Option<&str>,
    body: &[u8],
) -> (r: Result<(), VerifyError>)
    ensures
        match (signature_hex, timestamp) {
            (Some(s), Some(t)) => r == verify_outcome(
                public_key_hex.spec_bytes(),
                s.spec_bytes(),
                t.spec_bytes() + body@,
            ),
            _ => r == Err::<(), VerifyError>(VerifyError::MissingSignature),
        },
{
    let signature = match signature_hex {
        Some(s) => s,
        None => return Err(VerifyError::MissingSignature),
    };
    let timestamp = match timestamp {
        Some(t) => t,
        None => return Err(VerifyError::MissingSignature),
    };
    let key = match decode_fixed(public_key_hex, 32) {
        Some(k) => k,
        None => return Err(VerifyError::InvalidPublicKey),
    };
    let sig = match decode_fixed(signature, 64) {
        Some(s) => s,
        None => return Err(VerifyError::InvalidSignature),
    };
    let stamp = timestamp.as_bytes();
    let mut message: Vec<u8> = Vec::new();
    let mut i: usize = 0;
    while i < stamp.len()
        invariant
            i <= stamp@.len(),
            message@ == stamp@.subrange(0, i as int),
        decreases stamp@.len() - i,
    {
        message.push(stamp[i]);
        i += 1;
    }
    let mut j: usize = 0;
    while j < body.len()
        invariant
            j <= body@.len(),
            message@ == stamp@ + body@.subrange(0, j as int),
        decreases body@.len() - j,
    {
        message.push(body[j]);
        j += 1;
    }
    proof {
        assert(body@.subrange(0, body@.len() as int) == body@);
    }
    match ed25519_verify(key.as_slice(), sig.as_slice(), message.as_slice()) {
        None => Err(VerifyError::InvalidPublicKey),
        Some(true) => Ok(()),
        Some(false) => Err(VerifyError::InvalidSignature),
    }
}

} // verus!
