//! Sensitivity laws: varying one attribute while the others are held fixed
//! changes the canonical string. The digest itself is computed by SHA-256,
//! whose collision behaviour is outside what can be proved here; these laws
//! show the hash input already separates the snapshots.

use vstd::prelude::*;
use crate::attributes::HostAttributes;
use crate::attributes::canonical_spec;
use crate::attributes::resolved;
use crate::decimal::dec_spec;
use crate::decimal::lemma_dec_injective;

verus! {

/// Equal sequences stay equal when a shared suffix is removed.
proof fn lemma_append_right_cancel(a: Seq<char>, b: Seq<char>, t: Seq<char>)
    requires
        a + t == b + t,
    ensures
        a == b,
{
    assert((a + t).len() == a.len() + t.len());
    assert((b + t).len() == b.len() + t.len());
    assert(a.len() == b.len());
    assert forall|i: int| 0 <= i < a.len() implies a[i] == b[i] by {
        assert((a + t)[i] == a[i]);
        assert((b + t)[i] == b[i]);
    }
    assert(a =~= b);
}

/// Equal sequences stay equal when a shared prefix is removed.
proof fn lemma_append_left_cancel(p: Seq<char>, a: Seq<char>, b: Seq<char>)
    requires
        p + a == p + b,
    ensures
        a == b,
{
    assert((p + a).len() == p.len() + a.len());
    assert((p + b).len() == p.len() + b.len());
    assert(a.len() == b.len());
    assert forall|i: int| 0 <= i < a.len() implies a[i] == b[i] by {
        assert((p + a)[p.len() + i] == a[i]);
        assert((p + b)[p.len() + i] == b[i]);
    }
    assert(a =~= b);
}

/// Law: two snapshots that agree on everything but the resolved hostname
/// have distinct canonical strings.
pub proof fn lemma_sensitive_to_hostname(a: HostAttributes, b: HostAttributes)
    requires
        resolved(a.hostname) != resolved(b.hostname),
        resolved(a.os_name) == resolved(b.os_name),
        a.cpu_count == b.cpu_count,
        a.total_memory_bytes == b.total_memory_bytes,
    ensures
        canonical_spec(a) != canonical_spec(b),
{
    if canonical_spec(a) == canonical_spec(b) {
        let d = "-"@;
        let ha = resolved(a.hostname);
        let hb = resolved(b.hostname);
        let o = resolved(a.os_name);
        let dc = dec_spec(a.cpu_count as int);
        let dm = dec_spec(a.total_memory_bytes as int);
        lemma_append_right_cancel(ha + d + o + d + dc + d, hb + d + o + d + dc + d, dm);
        lemma_append_right_cancel(ha + d + o + d + dc, hb + d + o + d + dc, d);
        lemma_append_right_cancel(ha + d + o + d, hb + d + o + d, dc);
        lemma_append_right_cancel(ha + d + o, hb + d + o, d);
        lemma_append_right_cancel(ha + d, hb + d, o);
        lemma_append_right_cancel(ha, hb, d);
        assert(false);
    }
}

/// Law: two snapshots that agree on everything but the resolved OS name have
/// distinct canonical strings.
pub proof fn lemma_sensitive_to_os_name(a: HostAttributes, b: HostAttributes)
    requires
        resolved(a.hostname) == resolved(b.hostname),
        resolved(a.os_name) != resolved(b.os_name),
        a.cpu_count == b.cpu_count,
        a.total_memory_bytes == b.total_memory_bytes,
    ensures
        canonical_spec(a) != canonical_spec(b),
{
    if canonical_spec(a) == canonical_spec(b) {
        let d = "-"@;
        let h = resolved(a.hostname);
        let oa = resolved(a.os_name);
        let ob = resolved(b.os_name);
        let dc = dec_spec(a.cpu_count as int);
        let dm = dec_spec(a.total_memory_bytes as int);
        lemma_append_right_cancel(h + d + oa + d + dc + d, h + d + ob + d + dc + d, dm);
        lemma_append_right_cancel(h + d + oa + d + dc, h + d + ob + d + dc, d);
        lemma_append_right_cancel(h + d + oa + d, h + d + ob + d, dc);
        lemma_append_right_cancel(h + d + oa, h + d + ob, d);
        lemma_append_left_cancel(h + d, oa, ob);
        assert(false);
    }
}

/// Law: two snapshots that agree on everything but the CPU count have
/// distinct canonical strings.
pub proof fn lemma_sensitive_to_cpu_count(a: HostAttributes, b: HostAttributes)
    requires
        resolved(a.hostname) == resolved(b.hostname),
        resolved(a.os_name) == resolved(b.os_name),
        a.cpu_count != b.cpu_count,
        a.total_memory_bytes == b.total_memory_bytes,
    ensures
        canonical_spec(a) != canonical_spec(b),
{
    if canonical_spec(a) == canonical_spec(b) {
        let d = "-"@;
        let h = resolved(a.hostname);
        let o = resolved(a.os_name);
        let ca = dec_spec(a.cpu_count as int);
        let cb = dec_spec(b.cpu_count as int);
        let dm = dec_spec(a.total_memory_bytes as int);
        lemma_append_right_cancel(h + d + o + d + ca + d, h + d + o + d + cb + d, dm);
        lemma_append_right_cancel(h + d + o + d + ca, h + d + o + d + cb, d);
        lemma_append_left_cancel(h + d + o + d, ca, cb);
        lemma_dec_injective(a.cpu_count as int, b.cpu_count as int);
        assert(false);
    }
}

/// Law: two snapshots that agree on everything but the total memory have
/// distinct canonical strings.
pub proof fn lemma_sensitive_to_total_memory(a: HostAttributes, b: HostAttributes)
    requires
        resolved(a.hostname) == resolved(b.hostname),
        resolved(a.os_name) == resolved(b.os_name),
        a.cpu_count == b.cpu_count,
        a.total_memory_bytes != b.total_memory_bytes,
    ensures
        canonical_spec(a) != canonical_spec(b),
{
    if canonical_spec(a) == canonical_spec(b) {
        let d = "-"@;
        let h = resolved(a.hostname);
        let o = resolved(a.os_name);
        let dc = dec_spec(a.cpu_count as int);
        let ma = dec_spec(a.total_memory_bytes as int);
        let mb = dec_spec(b.total_memory_bytes as int);
        lemma_append_left_cancel(h + d + o + d + dc + d, ma, mb);
        lemma_dec_injective(a.total_memory_bytes as int, b.total_memory_bytes as int);
        assert(false);
    }
}

} // verus!
