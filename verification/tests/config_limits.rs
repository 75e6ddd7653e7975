use tealdrive::config::{AppConfig, RootId, WireProtocol};
use tealdrive::limits::Limits;

#[test]
fn app_config_default_is_safe() {
    let config = AppConfig::default();

    assert_eq!(
        config.security.production_wire_protocol,
        WireProtocol::Tdrv1Binary
    );
    assert!(config.account_policy.reject_root);
    assert!(config.account_policy.reject_system_accounts);
    assert!(config.session.secure_cookies);
    assert_eq!(config.roots[0].root_id, RootId::new("home"));
}

#[test]
fn default_limits_match_v1_architecture() {
    let limits = Limits::default();

    assert_eq!(limits.max_frame_payload, 1024 * 1024);
    assert_eq!(limits.max_control_payload, 256 * 1024);
    assert_eq!(limits.max_decompressed_control_payload, 4 * 1024 * 1024);
    assert_eq!(limits.max_chunk_size, 256 * 1024);
    assert_eq!(limits.max_in_flight_upload, 1024 * 1024);
    assert_eq!(limits.max_directory_page_size, 500);
    assert_eq!(limits.default_directory_page_size, 200);
    assert_eq!(limits.max_text_edit_size, 5 * 1024 * 1024);
}
