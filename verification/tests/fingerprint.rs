use hw_fingerprint::attributes::HostAttributes;
use hw_fingerprint::attributes::canonical_string;
use hw_fingerprint::decimal::decimal_string;
use hw_fingerprint::fingerprint::FingerprintError;
use hw_fingerprint::fingerprint::compute_fingerprint;
use hw_fingerprint::fingerprint::fingerprint_from_query;
use hw_fingerprint::fingerprint::get_hw_fingerprint;
use hw_fingerprint::hex::encode_hex;
use hw_fingerprint::provider::query_host_attributes;

fn attrs(hostname: Option<&str>, os_name: Option<&str>, cpu: u64, mem: u64) -> HostAttributes {
    HostAttributes {
        hostname: hostname.map(|s| s.to_string()),
        os_name: os_name.map(|s| s.to_string()),
        cpu_count: cpu,
        total_memory_bytes: mem,
    }
}

fn is_lower_hex(s: &str) -> bool {
    s.chars().all(|c| "0123456789abcdef".contains(c))
}

#[test]
fn determinism_repeated_calls() {
    let a = attrs(Some("dev-box"), Some("Linux"), 8, 16777216000);
    let first = compute_fingerprint(&a);
    for _ in 0..5 {
        assert_eq!(compute_fingerprint(&a), first);
    }
}

#[test]
fn sensitivity_hostname() {
    let base = attrs(Some("dev-box"), Some("Linux"), 8, 16777216000);
    let changed = attrs(Some("dev-box2"), Some("Linux"), 8, 16777216000);
    assert_ne!(compute_fingerprint(&base), compute_fingerprint(&changed));
}

#[test]
fn sensitivity_os_name() {
    let base = attrs(Some("dev-box"), Some("Linux"), 8, 16777216000);
    let changed = attrs(Some("dev-box"), Some("FreeBSD"), 8, 16777216000);
    assert_ne!(compute_fingerprint(&base), compute_fingerprint(&changed));
}

#[test]
fn sensitivity_cpu_count() {
    let base = attrs(Some("dev-box"), Some("Linux"), 8, 16777216000);
    let changed = attrs(Some("dev-box"), Some("Linux"), 16, 16777216000);
    assert_ne!(compute_fingerprint(&base), compute_fingerprint(&changed));
}

#[test]
fn sensitivity_total_memory() {
    let base = attrs(Some("dev-box"), Some("Linux"), 8, 16777216000);
    let changed = attrs(Some("dev-box"), Some("Linux"), 8, 16777216001);
    assert_ne!(compute_fingerprint(&base), compute_fingerprint(&changed));
}

#[test]
fn fallback_hostname_position() {
    let a = attrs(None, Some("Linux"), 8, 16777216000);
    assert_eq!(canonical_string(&a), "unknown-Linux-8-16777216000");
}

#[test]
fn fallback_os_name_position() {
    let a = attrs(Some("dev-box"), None, 8, 16777216000);
    assert_eq!(canonical_string(&a), "dev-box-unknown-8-16777216000");
}

#[test]
fn format_invariants() {
    let snapshots = vec![
        attrs(Some("dev-box"), Some("Linux"), 8, 16777216000),
        attrs(None, None, 0, 0),
        attrs(Some(""), Some(""), u64::MAX, u64::MAX),
        attrs(Some("a-b-c"), Some("x-y"), 1, 2),
    ];
    for a in &snapshots {
        let f = compute_fingerprint(a);
        assert_eq!(f.len(), 64);
        assert!(is_lower_hex(&f));
    }
}

#[test]
fn golden_dev_box() {
    let a = attrs(Some("dev-box"), Some("Linux"), 8, 16777216000);
    assert_eq!(canonical_string(&a), "dev-box-Linux-8-16777216000");
    assert_eq!(
        compute_fingerprint(&a),
        "a093aafb36523661106b8f8c2bd8de369edfa76467c475fb4952eb9bbefde3c0"
    );
}

#[test]
fn golden_degraded_host() {
    let a = attrs(None, None, 0, 0);
    assert_eq!(canonical_string(&a), "unknown-unknown-0-0");
    assert_eq!(
        compute_fingerprint(&a),
        "af887dd954fe0a4b876b233db448953b3d9955a6b00aa1c6e0dec9f979834e02"
    );
}

#[test]
fn failed_query_surfaces_system_query_failure() {
    let r = fingerprint_from_query(Err("platform interface unreachable".to_string()));
    match r {
        Ok(_) => panic!("a failed query must not yield a fingerprint"),
        Err(FingerprintError::SystemQueryFailure(d)) => {
            assert_eq!(d, "platform interface unreachable");
        }
    }
}

#[test]
fn failed_query_message_is_kept() {
    let r = fingerprint_from_query(Err("no system facts".to_string()));
    let e = r.err().expect("the failure must propagate");
    assert_eq!(e.message(), "no system facts");
}

#[test]
fn successful_query_computes_fingerprint() {
    let a = attrs(Some("dev-box"), Some("Linux"), 8, 16777216000);
    let expected = compute_fingerprint(&a);
    let r = fingerprint_from_query(Ok(a));
    assert_eq!(r.ok().expect("a snapshot must yield a fingerprint"), expected);
}

#[test]
fn decimal_rendering() {
    assert_eq!(decimal_string(0), "0");
    assert_eq!(decimal_string(7), "7");
    assert_eq!(decimal_string(10), "10");
    assert_eq!(decimal_string(16777216000), "16777216000");
    assert_eq!(decimal_string(u64::MAX), "18446744073709551615");
}

#[test]
fn hex_rendering() {
    assert_eq!(encode_hex(&vec![]), "");
    assert_eq!(encode_hex(&vec![0x00, 0xff, 0x1a]), "00ff1a");
    assert_eq!(encode_hex(&vec![0xde, 0xad, 0xbe, 0xef]), "deadbeef");
}

#[test]
fn live_host_fingerprint() {
    let r = get_hw_fingerprint();
    let f = r.ok().expect("the live query is total");
    assert_eq!(f.len(), 64);
    assert!(is_lower_hex(&f));
}

#[test]
fn live_query_is_stable() {
    let a = query_host_attributes();
    let b = query_host_attributes();
    assert_eq!(compute_fingerprint(&a), compute_fingerprint(&b));
}
