use ark_core::version_banner;

#[test]
fn check_aspd_version() {
    let stdout = version_banner();
    assert!(stdout.starts_with("bark-aspd"))
}
