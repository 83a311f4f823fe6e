//! The host attribute snapshot and its canonical string.

use vstd::prelude::*;
use vstd::string::StringExecFns;
use crate::decimal::dec_spec;
use crate::decimal::push_dec;

verus! {

/// One immutable snapshot of the four host attributes the fingerprint reads.
/// A `None` hostname or OS name means the platform reported no value.
pub struct HostAttributes {
    pub hostname: Option<String>,
    pub os_name: Option<String>,
    pub cpu_count: u64,
    pub total_memory_bytes: u64,
}

/// An absent textual attribute resolves to the literal `unknown`, so a
/// degraded host still fingerprints reproducibly.
pub open spec fn resolved(field: Option<String>) -> Seq<char> {
    match field {
        Option::Some(s) => s@,
        Option::None => "unknown"@,
    }
}

/// The canonical string: the four resolved attributes in fixed order, joined
/// by the ASCII hyphen.
pub open spec fn canonical_spec(a: HostAttributes) -> Seq<char> {
    resolved(a.hostname) + "-"@ + resolved(a.os_name) + "-"@ + dec_spec(a.cpu_count as int) + "-"@
        + dec_spec(a.total_memory_bytes as int)
}

/// Builds the canonical string for a snapshot.
pub fn canonical_string(a: &HostAttributes) -> (r: String)
    ensures
        r@ == canonical_spec(*a),
{
    let mut r = match &a.hostname {
        Option::Some(h) => h.clone(),
        Option::None => String::from_str("unknown"),
    };
    r.append("-");
    match &a.os_name {
        Option::Some(o) => r.append(o.as_str()),
        Option::None => r.append("unknown"),
    };
    r.append("-");
    push_dec(&mut r, a.cpu_count);
    r.append("-");
    push_dec(&mut r, a.total_memory_bytes);
    proof {
        assert(r@ =~= canonical_spec(*a));
    }
    r
}

/// Law: with no hostname reported, the canonical string opens with the
/// fallback `unknown` in the hostname position, followed by the delimiter.
pub proof fn lemma_hostname_fallback(a: HostAttributes)
    requires
        a.hostname is None,
    ensures
        canonical_spec(a).len() >= 8,
        canonical_spec(a).subrange(0, 7) == "unknown"@,
        canonical_spec(a)[7] == '-',
{
    reveal_strlit("unknown");
    reveal_strlit("-");
    assert(canonical_spec(a).subrange(0, 7) =~= "unknown"@);
}

/// Law: with no OS name reported, the canonical string carries the fallback
/// `unknown` in the OS-name position, right after the first delimiter.
pub proof fn lemma_os_name_fallback(a: HostAttributes)
    requires
        a.os_name is None,
    ensures
        canonical_spec(a).len() >= resolved(a.hostname).len() + 8,
        canonical_spec(a).subrange(
            resolved(a.hostname).len() as int + 1,
            resolved(a.hostname).len() as int + 8,
        ) == "unknown"@,
{
    reveal_strlit("unknown");
    reveal_strlit("-");
    let h = resolved(a.hostname).len() as int;
    assert(canonical_spec(a).subrange(h + 1, h + 8) =~= "unknown"@);
}

} // verus!
