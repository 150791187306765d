use prudent::expect_copy_ptr;
use prudent::version::{is_compatible_linted_version, verify_linted_version, LINTED_VERSION};

#[test]
fn own_linted_version_is_compatible() {
    assert!(is_compatible_linted_version(LINTED_VERSION));
    verify_linted_version(LINTED_VERSION);
}

#[test]
fn pre_release_suffix_is_tolerated() {
    assert!(is_compatible_linted_version("0.0.3"));
    assert!(is_compatible_linted_version("0.0.3-beta"));
    assert!(is_compatible_linted_version("0.0.3-rc.2"));
}

#[test]
fn numeric_prefix_is_strict() {
    assert!(!is_compatible_linted_version("0.0.2"));
    assert!(!is_compatible_linted_version("0.0.4-beta"));
    assert!(!is_compatible_linted_version("1.0.3"));
    assert!(!is_compatible_linted_version("0.0."));
    assert!(!is_compatible_linted_version(""));
    assert!(!is_compatible_linted_version("v0.0.3"));
}

#[test]
fn copy_values_pass_the_copy_check() {
    expect_copy_ptr(&5u8);
    expect_copy_ptr(&(true, 'x'));
}
