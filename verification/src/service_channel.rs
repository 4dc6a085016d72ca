use vstd::prelude::*;

verus! {

/// Mutter's service client type for portal backends.
pub const PORTAL_BACKEND: u32 = 1;

/// Mutter's service client type for the file chooser portal backend.
pub const FILE_CHOOSER_PORTAL_BACKEND: u32 = 2;

/// Mutter's service client type for the global shortcuts portal backend.
pub const GLOBAL_SHORTCUTS_PORTAL_BACKEND: u32 = 3;

/// Whether `OpenWaylandServiceConnection` serves clients of `service_client_type`.
pub fn is_supported_service_client_type(service_client_type: u32) -> (res: bool)
    ensures
        res == (service_client_type == PORTAL_BACKEND || service_client_type
            == FILE_CHOOSER_PORTAL_BACKEND || service_client_type
            == GLOBAL_SHORTCUTS_PORTAL_BACKEND),
{
    service_client_type == PORTAL_BACKEND || service_client_type == FILE_CHOOSER_PORTAL_BACKEND
        || service_client_type == GLOBAL_SHORTCUTS_PORTAL_BACKEND
}

} // verus!
