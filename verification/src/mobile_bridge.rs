//! What the running platform can do: capabilities, permissions and background sync.
use crate::error::RelayError;
use crate::models::{
    BackgroundSyncMode, BackgroundSyncState, RuntimeCapabilities, RuntimePermissions,
    RuntimePlatform,
};
use vstd::prelude::*;

verus! {

/// The platform facts that the runtime consults. A bridge cannot be copied: the runtime owns
/// the one bridge of a process, so every reader sees the permissions that the last request
/// left there.
#[derive(Debug)]
pub struct RuntimeBridge {
    pub platform: RuntimePlatform,
    pub capabilities: RuntimeCapabilities,
    pub permissions: RuntimePermissions,
}

/// The state of background sync on a platform, given whether the user enabled it.
pub open spec fn spec_background_sync_state(platform: RuntimePlatform, enabled: bool) -> (
    bool,
    bool,
    bool,
    BackgroundSyncMode,
    Seq<char>,
) {
    match platform {
        RuntimePlatform::Android => (
            true,
            enabled,
            enabled,
            BackgroundSyncMode::ForegroundService,
            "Android keeps sync alive through a foreground service when enabled."@,
        ),
        RuntimePlatform::Ios => (
            true,
            enabled,
            enabled,
            BackgroundSyncMode::AppRefresh,
            "iOS background sync is best-effort and resumes fully when the app returns to the foreground."@,
        ),
        RuntimePlatform::Windows | RuntimePlatform::Macos | RuntimePlatform::Linux => (
            false,
            enabled,
            true,
            BackgroundSyncMode::Desktop,
            "Desktop builds stay active while the app is running and do not use a mobile background sync toggle."@,
        ),
        RuntimePlatform::Unknown => (
            false,
            enabled,
            false,
            BackgroundSyncMode::Unsupported,
            "Background sync state is unavailable on this platform."@,
        ),
    }
}

impl RuntimeBridge {
    /// The bridge of a build starts with the platform's capabilities and initial permissions.
    pub fn new(platform: RuntimePlatform) -> (bridge: RuntimeBridge)
        ensures
            bridge.platform == platform,
            bridge.capabilities == RuntimeCapabilities::spec_for_platform(platform),
            bridge.permissions == RuntimePermissions::spec_for_platform(
                platform,
                RuntimeCapabilities::spec_for_platform(platform),
            ),
    {
        let capabilities = RuntimeCapabilities::for_platform(platform);
        let permissions = RuntimePermissions::for_platform(platform, &capabilities);
        RuntimeBridge { platform, capabilities, permissions }
    }

    pub fn platform(&self) -> (platform: RuntimePlatform)
        ensures
            platform == self.platform,
    {
        self.platform
    }

    pub fn capabilities(&self) -> (capabilities: RuntimeCapabilities)
        ensures
            capabilities == self.capabilities,
    {
        self.capabilities
    }

    pub fn permissions(&self) -> (permissions: RuntimePermissions)
        ensures
            permissions == self.permissions,
    {
        self.permissions
    }

    /// Asks for every permission; the bridge then holds them as granted.
    pub fn request_permissions(&mut self) -> (granted: RuntimePermissions)
        ensures
            granted == RuntimePermissions::spec_granted_for(old(self).capabilities),
            final(self).permissions == granted,
            final(self).platform == old(self).platform,
            final(self).capabilities == old(self).capabilities,
    {
        let granted = RuntimePermissions::granted_for(&self.capabilities);
        self.permissions = granted;
        granted
    }

    pub fn background_sync_state(&self, enabled: bool) -> (state: BackgroundSyncState)
        ensures
            ({
                let (supported, on, active, mode, message) = spec_background_sync_state(
                    self.platform,
                    enabled,
                );
                &&& state.supported == supported
                &&& state.enabled == on
                &&& state.active == active
                &&& state.mode == mode
                &&& state.message matches Some(m) && m@ == message
            }),
    {
        match self.platform {
            RuntimePlatform::Android => BackgroundSyncState {
                supported: true,
                enabled,
                active: enabled,
                mode: BackgroundSyncMode::ForegroundService,
                message: Some(
                    String::from_str(
                        "Android keeps sync alive through a foreground service when enabled.",
                    ),
                ),
            },
            RuntimePlatform::Ios => BackgroundSyncState {
                supported: true,
                enabled,
                active: enabled,
                mode: BackgroundSyncMode::AppRefresh,
                message: Some(
                    String::from_str(
                        "iOS background sync is best-effort and resumes fully when the app returns to the foreground.",
                    ),
                ),
            },
            RuntimePlatform::Windows | RuntimePlatform::Macos | RuntimePlatform::Linux => {
                BackgroundSyncState {
                    supported: false,
                    enabled,
                    active: true,
                    mode: BackgroundSyncMode::Desktop,
                    message: Some(
                        String::from_str(
                            "Desktop builds stay active while the app is running and do not use a mobile background sync toggle.",
                        ),
                    ),
                }
            },
            RuntimePlatform::Unknown => BackgroundSyncState {
                supported: false,
                enabled,
                active: false,
                mode: BackgroundSyncMode::Unsupported,
                message: Some(
                    String::from_str("Background sync state is unavailable on this platform."),
                ),
            },
        }
    }

    /// Hands files to the platform's share sheet. No build of this version has one: the call
    /// reports why.
    pub fn share_paths(&self, paths: &Vec<String>) -> (r: Result<(), RelayError>)
        ensures
            r == Err::<(), RelayError>(
                if paths@.len() == 0 {
                    RelayError::NoTransferFiles
                } else if self.platform.spec_is_mobile() {
                    RelayError::ShareSheetUnavailable
                } else {
                    RelayError::ShareOnlyOnMobile
                },
            ),
    {
        if paths.len() == 0 {
            return Err(RelayError::NoTransferFiles);
        }
        match self.platform {
            RuntimePlatform::Android | RuntimePlatform::Ios => Err(
                RelayError::ShareSheetUnavailable,
            ),
            _ => Err(RelayError::ShareOnlyOnMobile),
        }
    }

    /// Exports files through the platform's file picker. No build of this version has one:
    /// the call reports why.
    pub fn export_paths(&self, paths: &Vec<String>) -> (r: Result<(), RelayError>)
        ensures
            r == Err::<(), RelayError>(
                if paths@.len() == 0 {
                    RelayError::NoTransferFiles
                } else if self.platform.spec_is_mobile() {
                    RelayError::FileExportUnavailable
                } else {
                    RelayError::FileExportOnlyOnMobile
                },
            ),
    {
        if paths.len() == 0 {
            return Err(RelayError::NoTransferFiles);
        }
        match self.platform {
            RuntimePlatform::Android | RuntimePlatform::Ios => Err(
                RelayError::FileExportUnavailable,
            ),
            _ => Err(RelayError::FileExportOnlyOnMobile),
        }
    }
}

} // verus!
