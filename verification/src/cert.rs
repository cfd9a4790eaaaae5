//! Key pairs: drawing a secret, and deriving the public key that belongs to
//! it. Keys travel as base64 text.

use vstd::prelude::*;
use vstd::string::*;
use crate::text::{is_whitespace, lemma_trimmed_is_fixed, trim, trimmed};

verus! {

/// The bytes of a key.
pub const KEY_LEN: usize = 32;

/// The text that the standard base64 engine (RFC 4648 alphabet, padded)
/// encodes bytes to.
pub uninterp spec fn base64_text(bytes: Seq<u8>) -> Seq<char>;

/// The bytes that the standard base64 engine decodes from a text, if it
/// accepts the text.
pub uninterp spec fn base64_bytes(text: Seq<char>) -> Option<Seq<u8>>;

/// The X25519 public key of a secret of 32 bytes: the secret, clamped, times
/// the base point, in Montgomery form.
pub uninterp spec fn x25519_public(secret: Seq<u8>) -> Seq<u8>;

#[verifier::external_type_specification]
#[verifier::external_body]
pub struct ExBase64DecodeError(base64::DecodeError);

/// Why a private key was turned down.
#[derive(Clone, Copy, Debug, PartialEq, Eq, Structural)]
pub enum CertError {
    /// The text is not base64.
    InvalidEncoding,
    /// The text decodes to another number of bytes than a key has.
    InvalidLength,
}

impl CertError {
    pub open spec fn spec_message(self) -> Seq<char> {
        match self {
            CertError::InvalidEncoding => "private key is not valid base64"@,
            CertError::InvalidLength => "private key must be 32 bytes"@,
        }
    }

    /// The text shown to the operator.
    pub fn message(&self) -> (text: String)
        ensures
            text@ == self.spec_message(),
    {
        match self {
            CertError::InvalidEncoding => String::from_str("private key is not valid base64"),
            CertError::InvalidLength => String::from_str("private key must be 32 bytes"),
        }
    }
}

/// A character of padded standard base64: a letter or digit of ASCII, `+`,
/// `/`, or the padding `=`.
pub open spec fn is_base64_char(c: char) -> bool {
    let code = c as u32;
    ||| 0x41 <= code <= 0x5a
    ||| 0x61 <= code <= 0x7a
    ||| 0x30 <= code <= 0x39
    ||| code == 0x2b
    ||| code == 0x2f
    ||| code == 0x3d
}

/// The length of the padded encoding of so many bytes: four characters for
/// every three bytes, the last group filled up.
pub open spec fn base64_len(bytes: int) -> int {
    4 * ((bytes + 2) / 3)
}

/// `Engine::encode` of `base64::engine::general_purpose::STANDARD`.
/// Trusted: the text is the named one; it has the padded length; it is made
/// of the alphabet's characters and the padding; and the same engine decodes
/// it to the bytes it was made from. Lengths whose encoded size would not
/// fit are left out.
#[verifier::external_body]
fn base64_encode(bytes: &[u8]) -> (text: String)
    requires
        bytes@.len() <= 0x3000_0000,
    ensures
        text@ == base64_text(bytes@),
        text@.len() == base64_len(bytes@.len() as int),
        forall|i: int| 0 <= i < text@.len() ==> is_base64_char(#[trigger] text@[i]),
        base64_bytes(text@) == Some(bytes@),
{
    base64::Engine::encode(&base64::engine::general_purpose::STANDARD, bytes)
}

/// `Engine::decode` of `base64::engine::general_purpose::STANDARD`.
/// Trusted: the outcome is the named function of the text.
#[verifier::external_body]
fn base64_decode(text: &str) -> (decoded: Result<Vec<u8>, base64::DecodeError>)
    ensures
        match decoded {
            Ok(bytes) => base64_bytes(text@) == Some(bytes@),
            Err(_) => base64_bytes(text@) is None,
        },
{
    base64::Engine::decode(&base64::engine::general_purpose::STANDARD, text)
}

/// `x25519_dalek::PublicKey::from` on the `StaticSecret` made `from` the
/// bytes, then `to_bytes`. Trusted: the result is the named function of the
/// secret.
#[verifier::external_body]
fn x25519_derive(secret: [u8; 32]) -> (public: [u8; 32])
    ensures
        public@ == x25519_public(secret@),
{
    x25519_dalek::PublicKey::from(&x25519_dalek::StaticSecret::from(secret)).to_bytes()
}

/// `x25519_dalek::StaticSecret::random_from_rng` on `rand::rngs::OsRng`,
/// then `to_bytes`. Nothing is claimed of the bytes drawn.
#[verifier::external_body]
fn random_secret() -> (secret: [u8; 32]) {
    x25519_dalek::StaticSecret::random_from_rng(rand::rngs::OsRng).to_bytes()
}

/// The public key, as base64 text, of a secret: there is one exactly when
/// the secret has the bytes of a key.
pub open spec fn spec_public_from_secret(secret: Seq<u8>) -> Result<Seq<char>, CertError> {
    if secret.len() == 32 {
        Ok(base64_text(x25519_public(secret)))
    } else {
        Err(CertError::InvalidLength)
    }
}

/// The public key, as base64 text, of a private key given as base64 text.
/// White space around the private key is passed over.
pub open spec fn spec_public_from_private(private_key: Seq<char>) -> Result<Seq<char>, CertError> {
    match base64_bytes(trimmed(private_key)) {
        None => Err(CertError::InvalidEncoding),
        Some(secret) => spec_public_from_secret(secret),
    }
}

/// Derives the public key of a secret, and writes it as base64 text of 44
/// characters. A secret of another length than a key's is turned down.
pub fn public_from_secret(decoded: &[u8]) -> (outcome: Result<String, CertError>)
    ensures
        match outcome {
            Ok(public_key) => {
                &&& spec_public_from_secret(decoded@) == Ok::<Seq<char>, CertError>(public_key@)
                &&& public_key@.len() == 44
            },
            Err(error) => spec_public_from_secret(decoded@) == Err::<Seq<char>, CertError>(error),
        },
{
    if decoded.len() != KEY_LEN {
        return Err(CertError::InvalidLength);
    }
    let mut secret: [u8; 32] = [0u8; 32];
    let mut i: usize = 0;
    while i < KEY_LEN
        invariant
            i <= KEY_LEN,
            decoded@.len() == KEY_LEN,
            forall|j: int| 0 <= j < i ==> secret@[j] == decoded@[j],
        decreases KEY_LEN - i,
    {
        secret[i] = decoded[i];
        i += 1;
    }
    assert(secret@ =~= decoded@);
    let public = x25519_derive(secret);
    Ok(base64_encode(public.as_slice()))
}

/// Derives the public key of a private key.
pub fn generate_public_from_private(priv_b64: &str) -> (outcome: Result<String, CertError>)
    ensures
        match outcome {
            Ok(public_key) => {
                &&& spec_public_from_private(priv_b64@) == Ok::<Seq<char>, CertError>(
                    public_key@,
                )
                &&& public_key@.len() == 44
            },
            Err(error) => spec_public_from_private(priv_b64@) == Err::<Seq<char>, CertError>(
                error,
            ),
        },
{
    match base64_decode(trim(priv_b64)) {
        Ok(decoded) => public_from_secret(decoded.as_slice()),
        Err(_) => Err(CertError::InvalidEncoding),
    }
}

/// No character of base64 is white space.
pub proof fn lemma_base64_has_no_whitespace(c: char)
    requires
        is_base64_char(c),
    ensures
        !is_whitespace(c),
{
}

/// The private key is the encoding of 32 bytes, and the public key is the
/// one derived from it.
pub open spec fn sound_pair(private_key: Seq<char>, public_key: Seq<char>) -> bool {
    &&& base64_bytes(private_key) matches Some(secret)
    &&& secret.len() == 32
    &&& spec_public_from_private(private_key) == Ok::<Seq<char>, CertError>(public_key)
}

/// Draws a key pair: the private key and the public key, both as base64
/// text of 44 characters. However the secret falls, the pair is sound: the
/// private key is the encoding of 32 bytes, and the public key is the one
/// derived from it.
pub fn generate_keys() -> (outcome: Result<(String, String), CertError>)
    ensures
        outcome matches Ok(pair) && sound_pair(pair.0@, pair.1@) && pair.0@.len() == 44
            && pair.1@.len() == 44,
{
    let secret = random_secret();
    let priv_b64 = base64_encode(secret.as_slice());
    proof {
        lemma_base64_has_no_whitespace(priv_b64@.first());
        lemma_base64_has_no_whitespace(priv_b64@.last());
        lemma_trimmed_is_fixed(priv_b64@);
    }
    match generate_public_from_private(priv_b64.as_str()) {
        Ok(pub_b64) => Ok((priv_b64, pub_b64)),
        Err(error) => Err(error),
    }
}

} // verus!
