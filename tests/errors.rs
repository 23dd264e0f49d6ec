use cargo_image_runner::Error;

#[test]
fn test_error_display_messages() {
    assert_eq!(Error::config("bad value").message(), "Configuration error: bad value");
    assert_eq!(Error::bootloader("fetch failed").message(), "Bootloader error: fetch failed");
    assert_eq!(Error::image_build("write error").message(), "Image build error: write error");
    assert_eq!(Error::runner("not found").message(), "Runner error: not found");
    assert_eq!(Error::firmware("missing file").message(), "Firmware error: missing file");
    assert_eq!(Error::template("bad syntax").message(), "Template error: bad syntax");
    assert_eq!(
        Error::feature_not_enabled("grub").message(),
        "Feature 'grub' is not enabled. Enable it in Cargo.toml features."
    );
    assert_eq!(Error::unsupported("bios + fat").message(), "Unsupported combination: bios + fat");
}

#[test]
fn test_error_file_not_found() {
    let err = Error::FileNotFound("/missing/file.txt".to_string());
    assert_eq!(err.message(), "File not found: /missing/file.txt");
}

#[test]
fn test_error_missing_config() {
    let err = Error::MissingConfig("boot.type".to_string());
    assert_eq!(err.message(), "Missing required configuration field: boot.type");
}

#[test]
fn test_error_invalid_config() {
    let err = Error::InvalidConfig {
        field: "boot.type".to_string(),
        value: "unknown".to_string(),
    };
    assert_eq!(err.message(), "Invalid configuration value for boot.type: unknown");
}

#[test]
fn error_number_texts() {
    let err = Error::TestFailed { expected: Some(-2147483648), actual: 2147483647 };
    assert_eq!(err.message(), "test failed: expected -2147483648, got 2147483647");
    let err = Error::TestFailed { expected: Some(0), actual: 10 };
    assert_eq!(err.message(), "test failed: expected 0, got 10");
}
