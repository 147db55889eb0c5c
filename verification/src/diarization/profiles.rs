//! Voice profiles: the consent rule and retention setting of the profile
//! manager, and the SHA-256 fingerprint that stands in for an embedding.
//!
//! Voice profiles are biometric data: a profile is created only with the
//! user's consent (when consent is required), and embeddings are stored only
//! as SHA-256 hashes, written as 64 lower-case hexadecimal digits.

use vstd::prelude::*;
use sha2::Digest;
use crate::diarization::errors::DiarizationError;

verus! {

/// Configuration of voice profile management.
#[derive(Clone, Copy, Debug)]
pub struct ProfileManagerConfig {
    /// Delete profiles not seen for this many days (`None`: never).
    pub auto_delete_after_days: Option<u32>,
    /// Require explicit consent before creating profiles.
    pub require_consent: bool,
}

impl Default for ProfileManagerConfig {
    /// Ninety days of retention, consent required.
    fn default() -> (r: Self)
        ensures
            r.auto_delete_after_days == Some(90u32),
            r.require_consent,
    {
        ProfileManagerConfig { auto_delete_after_days: Some(90), require_consent: true }
    }
}

/// A profile may be created: consent was given or is not required.
pub open spec fn may_create_profile(config: ProfileManagerConfig, consent_given: bool) -> bool {
    !config.require_consent || consent_given
}

/// Checks the consent rule before a profile is created.
pub fn check_profile_consent(config: &ProfileManagerConfig, consent_given: bool) -> (r: Result<(), DiarizationError>)
    ensures
        r is Ok <==> may_create_profile(*config, consent_given),
        r matches Err(e) ==> (e matches DiarizationError::ConsentRequired(m) && m@
            == "User consent required to create voice profile"@),
{
    if config.require_consent && !consent_given {
        return Err(
            DiarizationError::ConsentRequired(String::from_str("User consent required to create voice profile")),
        );
    }
    Ok(())
}

/// The SHA-256 digest of `bytes` (`sha2::Sha256::digest`).
pub uninterp spec fn sha256(bytes: Seq<u8>) -> Seq<u8>;

/// `sha2::Sha256::digest`. The crate computes the SHA-256 digest, whose output
/// size is 32 bytes; the digest itself is only named.
#[verifier::external_body]
fn sha256_digest(bytes: &[u8]) -> (d: Vec<u8>)
    ensures
        d@ == sha256(bytes@),
        d@.len() == 32,
{
    sha2::Sha256::digest(bytes).to_vec()
}

/// The lower-case hexadecimal digit of `n` (below 16).
pub open spec fn hex_digit(n: u8) -> char {
    if n < 10 {
        (n + 48) as char
    } else {
        (n + 87) as char
    }
}

/// `bytes` in lower-case hexadecimal, two digits per byte, high digit first.
pub open spec fn lower_hex(bytes: Seq<u8>) -> Seq<char>
    decreases bytes.len(),
{
    if bytes.len() == 0 {
        Seq::empty()
    } else {
        lower_hex(bytes.drop_last()) + seq![hex_digit(bytes.last() / 16), hex_digit(bytes.last() % 16)]
    }
}

/// The lower-case hexadecimal digit of `n`.
fn hex_digit_exec(n: u8) -> (c: char)
    requires
        n < 16,
    ensures
        c == hex_digit(n),
{
    if n < 10 {
        (n + 48) as char
    } else {
        (n + 87) as char
    }
}

/// `bytes` in lower-case hexadecimal.
pub fn to_lower_hex(bytes: &Vec<u8>) -> (r: String)
    ensures
        r@ == lower_hex(bytes@),
{
    let mut out: Vec<char> = Vec::new();
    let mut i: usize = 0;
    while i < bytes.len()
        invariant
            i <= bytes.len(),
            out@ == lower_hex(bytes@.take(i as int)),
        decreases bytes.len() - i,
    {
        let b = bytes[i];
        out.push(hex_digit_exec(b / 16));
        out.push(hex_digit_exec(b % 16));
        assert(bytes@.take(i + 1).drop_last() == bytes@.take(i as int));
        i = i + 1;
    }
    assert(bytes@.take(bytes.len() as int) == bytes@);
    crate::text::string_of(&out)
}

/// The fingerprint stored in place of a voice embedding: the SHA-256 digest of
/// its bytes, in lower-case hexadecimal.
pub fn hash_embedding_bytes(bytes: &[u8]) -> (r: String)
    ensures
        r@ == lower_hex(sha256(bytes@)),
        r@.len() == 64,
{
    let digest = sha256_digest(bytes);
    let r = to_lower_hex(&digest);
    proof {
        lemma_lower_hex_len(digest@);
    }
    r
}

/// Two hexadecimal digits per byte.
pub proof fn lemma_lower_hex_len(bytes: Seq<u8>)
    ensures
        lower_hex(bytes).len() == 2 * bytes.len(),
    decreases bytes.len(),
{
    if bytes.len() > 0 {
        lemma_lower_hex_len(bytes.drop_last());
    }
}

} // verus!
