use bbb::{is_manifest_path, may_scan, MAX_SCAN_DEPTH};

#[test]
fn manifest_suffix_is_recognised() {
    assert!(is_manifest_path("game/depot/eso.mnf"));
    assert!(is_manifest_path(".mnf"));
    assert!(!is_manifest_path("game/depot/eso.mnf.bak"));
    assert!(!is_manifest_path("mnf"));
    assert!(!is_manifest_path("eso.MNF"));
    assert!(!is_manifest_path(""));
}

#[test]
fn scan_depth_is_limited() {
    assert_eq!(MAX_SCAN_DEPTH, 4);
    assert!(may_scan(0));
    assert!(may_scan(4));
    assert!(!may_scan(5));
}
