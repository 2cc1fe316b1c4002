use fluxel_host::window::wide_nul;
use fluxel_host::{WindowConfig, WindowError};

#[test]
fn rejects_zero_client_extent() {
    assert_eq!(
        WindowConfig::new("Fluxel", 0, 720).unwrap_err(),
        WindowError::ZeroClientExtent
    );
    assert_eq!(
        WindowConfig::new("Fluxel", 1280, 0).unwrap_err(),
        WindowError::ZeroClientExtent
    );
}

#[test]
fn rejects_embedded_nul_in_title() {
    assert_eq!(
        WindowConfig::new("Fluxel\0Host", 1280, 720).unwrap_err(),
        WindowError::TitleContainsNul
    );
}

#[test]
fn nul_title_is_reported_before_a_zero_extent() {
    assert_eq!(
        WindowConfig::new("a\0", 0, 0).unwrap_err(),
        WindowError::TitleContainsNul
    );
    assert_eq!(
        WindowConfig::new("\0", 1, 1).unwrap_err(),
        WindowError::TitleContainsNul
    );
}

#[test]
fn accepted_config_keeps_its_title_and_extent() {
    let config = WindowConfig::new("Fluxel Host", 1280, 720).unwrap();
    assert_eq!(config.title(), "Fluxel Host");
    assert_eq!(config.client_width(), 1280);
    assert_eq!(config.client_height(), 720);
    let copy = config.clone();
    assert_eq!(copy, config);
    let empty = WindowConfig::new("", 1, 1).unwrap();
    assert_eq!(empty.title(), "");
}

#[test]
fn window_error_messages_name_the_failure() {
    assert_eq!(
        WindowError::ZeroClientExtent.message(),
        "window client extent must be non-zero"
    );
    assert_eq!(
        WindowError::TitleContainsNul.message(),
        "window title must not contain an embedded NUL"
    );
    assert_eq!(
        WindowError::UnsupportedPlatform.message(),
        "the requested minimal Fluxel window operation is not supported on this platform"
    );
    assert_eq!(
        WindowError::Platform("class registration failed".to_string()).message(),
        "native window operation failed: class registration failed"
    );
}

#[test]
fn wide_nul_encodes_utf16_and_terminates() {
    assert_eq!(wide_nul(""), vec![0u16]);
    assert_eq!(wide_nul("Fx"), vec![0x46u16, 0x78, 0]);
    assert_eq!(wide_nul("é€"), vec![0x00e9u16, 0x20ac, 0]);
    assert_eq!(wide_nul("\u{1F600}"), vec![0xd83du16, 0xde00, 0]);
    assert_eq!(wide_nul("\u{10FFFF}"), vec![0xdbffu16, 0xdfff, 0]);
    let sample = "Fluxel \u{1F680} host";
    let mut expected: Vec<u16> = sample.encode_utf16().collect();
    expected.push(0);
    assert_eq!(wide_nul(sample), expected);
}
