use niri::service_channel::{
    is_supported_service_client_type, FILE_CHOOSER_PORTAL_BACKEND,
    GLOBAL_SHORTCUTS_PORTAL_BACKEND, PORTAL_BACKEND,
};

#[test]
fn accepts_mutter_service_client_types() {
    assert!(is_supported_service_client_type(PORTAL_BACKEND));
    assert!(is_supported_service_client_type(
        FILE_CHOOSER_PORTAL_BACKEND
    ));
    assert!(is_supported_service_client_type(
        GLOBAL_SHORTCUTS_PORTAL_BACKEND
    ));
}

#[test]
fn rejects_unknown_service_client_types() {
    assert!(!is_supported_service_client_type(0));
    assert!(!is_supported_service_client_type(4));
    assert!(!is_supported_service_client_type(u32::MAX));
}

#[test]
fn service_client_type_numbers_match_mutter() {
    assert_eq!(PORTAL_BACKEND, 1);
    assert_eq!(FILE_CHOOSER_PORTAL_BACKEND, 2);
    assert_eq!(GLOBAL_SHORTCUTS_PORTAL_BACKEND, 3);
}
