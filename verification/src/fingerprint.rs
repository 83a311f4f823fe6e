//! Computing the fingerprint of a host attribute snapshot.

use vstd::prelude::*;
use vstd::utf8::encode_utf8;
use crate::attributes::HostAttributes;
use crate::attributes::canonical_spec;
use crate::attributes::canonical_string;
use crate::attributes::resolved;
use crate::digest::sha256_digest;
use crate::digest::sha256_of;
use crate::hex::encode_hex;
use crate::hex::hex_of;
use crate::hex::is_lower_hex_digit;
use crate::hex::lemma_hex_of_props;
use crate::provider::query_host_attributes;

verus! {

/// The fingerprint of a snapshot: the SHA-256 digest of the UTF-8 bytes of
/// its canonical string, rendered as lowercase hexadecimal.
pub open spec fn fingerprint_spec(a: HostAttributes) -> Seq<char> {
    hex_of(sha256_of(encode_utf8(canonical_spec(a))))
}

/// The single failure kind: the host attribute provider could not be queried
/// at all. Missing individual attributes are not failures; they fall back to
/// `unknown` inside the snapshot.
pub enum FingerprintError {
    SystemQueryFailure(String),
}

impl FingerprintError {
    /// The human-readable description carried by the failure.
    pub open spec fn message_spec(self) -> Seq<char> {
        match self {
            FingerprintError::SystemQueryFailure(m) => m@,
        }
    }

    /// Returns the human-readable description carried by the failure.
    pub fn message(self) -> (r: String)
        ensures
            r@ == self.message_spec(),
    {
        match self {
            FingerprintError::SystemQueryFailure(m) => m,
        }
    }
}

/// Computes the fingerprint of a snapshot: always a 64-character lowercase
/// hexadecimal string, determined by the snapshot alone.
pub fn compute_fingerprint(a: &HostAttributes) -> (r: String)
    ensures
        r@ == fingerprint_spec(*a),
        r@.len() == 64,
        forall|i: int| 0 <= i < r@.len() ==> is_lower_hex_digit(#[trigger] r@[i]),
{
    let canonical = canonical_string(a);
    let digest = sha256_digest(canonical.as_str().as_bytes());
    let r = encode_hex(&digest);
    proof {
        lemma_hex_of_props(digest@);
    }
    r
}

/// Law: the fingerprint depends on the four resolved attribute values alone,
/// so repeated computations over one snapshot always agree.
pub proof fn lemma_fingerprint_deterministic(a: HostAttributes, b: HostAttributes)
    requires
        resolved(a.hostname) == resolved(b.hostname),
        resolved(a.os_name) == resolved(b.os_name),
        a.cpu_count == b.cpu_count,
        a.total_memory_bytes == b.total_memory_bytes,
    ensures
        fingerprint_spec(a) == fingerprint_spec(b),
{
    assert(canonical_spec(a) == canonical_spec(b));
}

/// Computes the fingerprint of a provider query outcome. A snapshot yields
/// its fingerprint; a failed query surfaces `SystemQueryFailure` carrying the
/// provider's description — never a panic, never a default fingerprint.
pub fn fingerprint_from_query(q: Result<HostAttributes, String>) -> (r: Result<
    String,
    FingerprintError,
>)
    ensures
        match q {
            Ok(a) => r matches Ok(f) && f@ == fingerprint_spec(a),
            Err(m) => r matches Err(e) && e matches FingerprintError::SystemQueryFailure(d)
                && d@ == m@,
        },
{
    match q {
        Ok(a) => Ok(compute_fingerprint(&a)),
        Err(m) => Err(FingerprintError::SystemQueryFailure(m)),
    }
}

/// Queries the live host and returns its fingerprint. The underlying system
/// queries are total, so the result is always `Ok`: the fingerprint of the
/// snapshot the queries produced, 64 lowercase hexadecimal characters.
pub fn get_hw_fingerprint() -> (r: Result<String, String>)
    ensures
        r matches Ok(f) && f@.len() == 64 && (forall|i: int|
            0 <= i < f@.len() ==> is_lower_hex_digit(#[trigger] f@[i])) && (exists|a: HostAttributes|
            f@ == #[trigger] fingerprint_spec(a)),
{
    let attrs = query_host_attributes();
    let f = compute_fingerprint(&attrs);
    proof {
        assert(f@ == fingerprint_spec(attrs));
    }
    Ok(f)
}

} // verus!
