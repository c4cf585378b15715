//! The data model shared by the relay runtime, the transport and the user interface.
//!
//! Instants are held as milliseconds since the Unix epoch (`i64`).
use crate::text::{ascii_lowercase_starts_with_zh, starts_with_zh_ignoring_ascii_case};
use crate::net::IpAddress;
use vstd::prelude::*;

verus! {

pub const PROTOCOL_VERSION: &'static str = "relayclip/v1";

pub const TRANSFER_RETENTION_HOURS: i64 = 24;

pub const CLIPBOARD_HISTORY_RETENTION_HOURS: i64 = 72;

pub const CLIPBOARD_HISTORY_LIMIT: usize = 60;

/// The abstract value of a string: its characters.
pub type StringView = Seq<char>;

/// The characters of every string in a sequence.
pub open spec fn strings_view(v: Seq<String>) -> Seq<StringView> {
    v.map_values(|s: String| s@)
}

/// The characters of an optional string.
pub open spec fn opt_string_view(o: Option<String>) -> Option<StringView> {
    match o {
        Some(s) => Some(s@),
        None => None,
    }
}

/// Copies a vector of strings.
pub fn copy_strings(v: &Vec<String>) -> (r: Vec<String>)
    ensures
        r@ == v@,
{
    let mut r: Vec<String> = Vec::new();
    let mut i: usize = 0;
    while i < v.len()
        invariant
            i <= v.len(),
            r@ == v@.subrange(0, i as int),
        decreases v.len() - i,
    {
        r.push(v[i].clone());
        i = i + 1;
    }
    assert(r@ == v@);
    r
}

/// Copies an optional string.
pub fn copy_opt_string(o: &Option<String>) -> (r: Option<String>)
    ensures
        r == *o,
{
    match o {
        Some(s) => Some(s.clone()),
        None => None,
    }
}

/// The capability tags that every build of this protocol advertises.
pub open spec fn spec_capabilities() -> Seq<StringView> {
    seq!["text_utf8"@, "image_png"@, "file_refs"@]
}

/// The capability tags that every build of this protocol advertises.
pub fn capabilities() -> (r: Vec<String>)
    ensures
        strings_view(r@) == spec_capabilities(),
{
    let mut r: Vec<String> = Vec::new();
    r.push(String::from_str("text_utf8"));
    r.push(String::from_str("image_png"));
    r.push(String::from_str("file_refs"));
    assert(strings_view(r@) =~= spec_capabilities());
    r
}

/// The user interface language.
#[derive(Clone, Copy, Debug, PartialEq, Eq, Structural)]
pub enum AppLanguage {
    En,
    ZhCn,
}

impl AppLanguage {
    /// The language for a locale tag such as `zh-CN` or `en-US`: Chinese when the tag starts
    /// with `zh` in any ASCII case, English otherwise.
    pub open spec fn spec_from_locale_tag(locale: StringView) -> AppLanguage {
        if starts_with_zh_ignoring_ascii_case(locale) {
            AppLanguage::ZhCn
        } else {
            AppLanguage::En
        }
    }

    pub fn from_locale_tag(locale: &str) -> (language: AppLanguage)
        ensures
            language == Self::spec_from_locale_tag(locale@),
    {
        if ascii_lowercase_starts_with_zh(locale) {
            AppLanguage::ZhCn
        } else {
            AppLanguage::En
        }
    }
}

/// The platform that a build runs on.
#[derive(Clone, Copy, Debug, PartialEq, Eq, Structural)]
pub enum RuntimePlatform {
    Windows,
    Macos,
    Linux,
    Android,
    Ios,
    Unknown,
}

impl RuntimePlatform {
    pub open spec fn spec_is_mobile(self) -> bool {
        self is Android || self is Ios
    }

    pub fn is_mobile(self) -> (mobile: bool)
        ensures
            mobile == self.spec_is_mobile(),
    {
        match self {
            RuntimePlatform::Android | RuntimePlatform::Ios => true,
            _ => false,
        }
    }

    /// The platform named by a target operating system as Rust spells it
    /// (`std::env::consts::OS`).
    pub open spec fn spec_from_target_os(os: StringView) -> RuntimePlatform {
        if os == "windows"@ {
            RuntimePlatform::Windows
        } else if os == "macos"@ {
            RuntimePlatform::Macos
        } else if os == "linux"@ {
            RuntimePlatform::Linux
        } else if os == "android"@ {
            RuntimePlatform::Android
        } else if os == "ios"@ {
            RuntimePlatform::Ios
        } else {
            RuntimePlatform::Unknown
        }
    }

    pub fn from_target_os(os: &str) -> (platform: RuntimePlatform)
        ensures
            platform == Self::spec_from_target_os(os@),
    {
        let s = String::from_str(os);
        if s == String::from_str("windows") {
            RuntimePlatform::Windows
        } else if s == String::from_str("macos") {
            RuntimePlatform::Macos
        } else if s == String::from_str("linux") {
            RuntimePlatform::Linux
        } else if s == String::from_str("android") {
            RuntimePlatform::Android
        } else if s == String::from_str("ios") {
            RuntimePlatform::Ios
        } else {
            RuntimePlatform::Unknown
        }
    }
}

/// The label that a device advertises for the operating system a build targets.
pub open spec fn spec_platform_label(os: StringView) -> StringView {
    if os == "windows"@ {
        "Windows"@
    } else if os == "macos"@ {
        "macOS"@
    } else if os == "ios"@ {
        "iOS"@
    } else if os == "android"@ {
        "Android"@
    } else {
        os
    }
}

pub fn platform_label(os: &str) -> (label: String)
    ensures
        label@ == spec_platform_label(os@),
{
    let s = String::from_str(os);
    if s == String::from_str("windows") {
        String::from_str("Windows")
    } else if s == String::from_str("macos") {
        String::from_str("macOS")
    } else if s == String::from_str("ios") {
        String::from_str("iOS")
    } else if s == String::from_str("android") {
        String::from_str("Android")
    } else {
        s
    }
}

/// The locale the system is set to. Calls `sys_locale::get_locale`; the answer depends on
/// the machine, so nothing is stated of it.
#[verifier::external_body]
fn system_locale() -> (r: Option<String>) {
    sys_locale::get_locale()
}

impl AppLanguage {
    /// The language for the system's locale, if it has one: as `from_locale_tag` says, and
    /// English without a locale.
    pub fn for_locale(locale: Option<String>) -> (language: AppLanguage)
        ensures
            language == match locale {
                Some(tag) => Self::spec_from_locale_tag(tag@),
                None => AppLanguage::En,
            },
    {
        match locale {
            Some(tag) => Self::from_locale_tag(tag.as_str()),
            None => AppLanguage::En,
        }
    }

    /// The language of the system's locale.
    pub fn detect_system() -> (language: AppLanguage) {
        Self::for_locale(system_locale())
    }
}

/// The language a new device starts with: the system's.
pub fn default_app_language() -> (language: AppLanguage) {
    AppLanguage::detect_system()
}

/// What the running build can do.
#[derive(Clone, Copy, Debug, PartialEq, Eq, Structural)]
pub struct RuntimeCapabilities {
    pub tray: bool,
    pub autostart: bool,
    pub clipboard_monitor: bool,
    pub clipboard_files: bool,
    pub open_cache_directory: bool,
    pub share_externally: bool,
    pub export_to_files: bool,
    pub background_sync: bool,
    pub native_discovery: bool,
}

impl RuntimeCapabilities {
    pub open spec fn none() -> RuntimeCapabilities {
        RuntimeCapabilities {
            tray: false,
            autostart: false,
            clipboard_monitor: false,
            clipboard_files: false,
            open_cache_directory: false,
            share_externally: false,
            export_to_files: false,
            background_sync: false,
            native_discovery: false,
        }
    }

    /// Desktop builds have the tray, autostart, the clipboard monitor, file clipboards,
    /// the cache directory and native discovery; mobile builds only background sync;
    /// an unknown platform nothing.
    pub open spec fn spec_for_platform(platform: RuntimePlatform) -> RuntimeCapabilities {
        match platform {
            RuntimePlatform::Windows | RuntimePlatform::Macos | RuntimePlatform::Linux => {
                RuntimeCapabilities {
                    tray: true,
                    autostart: true,
                    clipboard_monitor: true,
                    clipboard_files: true,
                    open_cache_directory: true,
                    share_externally: false,
                    export_to_files: false,
                    background_sync: false,
                    native_discovery: true,
                }
            },
            RuntimePlatform::Android | RuntimePlatform::Ios => RuntimeCapabilities {
                background_sync: true,
                ..Self::none()
            },
            RuntimePlatform::Unknown => Self::none(),
        }
    }

    pub fn for_platform(platform: RuntimePlatform) -> (capabilities: RuntimeCapabilities)
        ensures
            capabilities == Self::spec_for_platform(platform),
    {
        match platform {
            RuntimePlatform::Windows | RuntimePlatform::Macos | RuntimePlatform::Linux => {
                RuntimeCapabilities {
                    tray: true,
                    autostart: true,
                    clipboard_monitor: true,
                    clipboard_files: true,
                    open_cache_directory: true,
                    share_externally: false,
                    export_to_files: false,
                    background_sync: false,
                    native_discovery: true,
                }
            },
            RuntimePlatform::Android | RuntimePlatform::Ios => RuntimeCapabilities {
                tray: false,
                autostart: false,
                clipboard_monitor: false,
                clipboard_files: false,
                open_cache_directory: false,
                share_externally: false,
                export_to_files: false,
                background_sync: true,
                native_discovery: false,
            },
            RuntimePlatform::Unknown => RuntimeCapabilities {
                tray: false,
                autostart: false,
                clipboard_monitor: false,
                clipboard_files: false,
                open_cache_directory: false,
                share_externally: false,
                export_to_files: false,
                background_sync: false,
                native_discovery: false,
            },
        }
    }
}

#[derive(Clone, Copy, Debug, PartialEq, Eq, Structural)]
pub enum RuntimePermissionState {
    Granted,
    Denied,
    Prompt,
    Unsupported,
}

/// The permission state of each feature.
#[derive(Clone, Copy, Debug, PartialEq, Eq, Structural)]
pub struct RuntimePermissions {
    pub notifications: RuntimePermissionState,
    pub local_network: RuntimePermissionState,
    pub clipboard: RuntimePermissionState,
    pub background_sync: RuntimePermissionState,
    pub file_access: RuntimePermissionState,
}

/// `state` where `supported` holds, `Unsupported` elsewhere.
pub open spec fn permission_if(supported: bool, state: RuntimePermissionState) -> RuntimePermissionState {
    if supported {
        state
    } else {
        RuntimePermissionState::Unsupported
    }
}

impl RuntimePermissions {
    /// The permissions a build starts with: each supported feature is granted on desktop and
    /// awaits a prompt on mobile.
    pub open spec fn spec_for_platform(
        platform: RuntimePlatform,
        capabilities: RuntimeCapabilities,
    ) -> RuntimePermissions {
        let initial = if platform.spec_is_mobile() {
            RuntimePermissionState::Prompt
        } else {
            RuntimePermissionState::Granted
        };
        RuntimePermissions {
            notifications: permission_if(
                capabilities.share_externally || capabilities.background_sync,
                initial,
            ),
            local_network: permission_if(
                capabilities.native_discovery || platform.spec_is_mobile(),
                initial,
            ),
            clipboard: permission_if(
                capabilities.clipboard_monitor || capabilities.clipboard_files,
                initial,
            ),
            background_sync: permission_if(capabilities.background_sync, initial),
            file_access: permission_if(
                capabilities.export_to_files || capabilities.open_cache_directory,
                initial,
            ),
        }
    }

    pub fn for_platform(platform: RuntimePlatform, capabilities: &RuntimeCapabilities) -> (permissions: RuntimePermissions)
        ensures
            permissions == Self::spec_for_platform(platform, *capabilities),
    {
        let mobile = platform.is_mobile();
        let initial = if mobile {
            RuntimePermissionState::Prompt
        } else {
            RuntimePermissionState::Granted
        };
        RuntimePermissions {
            notifications: if capabilities.share_externally || capabilities.background_sync {
                initial
            } else {
                RuntimePermissionState::Unsupported
            },
            local_network: if capabilities.native_discovery || mobile {
                initial
            } else {
                RuntimePermissionState::Unsupported
            },
            clipboard: if capabilities.clipboard_monitor || capabilities.clipboard_files {
                initial
            } else {
                RuntimePermissionState::Unsupported
            },
            background_sync: if capabilities.background_sync {
                initial
            } else {
                RuntimePermissionState::Unsupported
            },
            file_access: if capabilities.export_to_files || capabilities.open_cache_directory {
                initial
            } else {
                RuntimePermissionState::Unsupported
            },
        }
    }

    /// The permissions after the user granted every request.
    pub open spec fn spec_granted_for(capabilities: RuntimeCapabilities) -> RuntimePermissions {
        let granted = RuntimePermissionState::Granted;
        RuntimePermissions {
            notifications: permission_if(
                capabilities.share_externally || capabilities.background_sync,
                granted,
            ),
            local_network: permission_if(
                capabilities.native_discovery || capabilities.background_sync,
                granted,
            ),
            clipboard: permission_if(
                capabilities.clipboard_monitor || capabilities.clipboard_files,
                granted,
            ),
            background_sync: permission_if(capabilities.background_sync, granted),
            file_access: permission_if(
                capabilities.export_to_files || capabilities.open_cache_directory,
                granted,
            ),
        }
    }

    pub fn granted_for(capabilities: &RuntimeCapabilities) -> (permissions: RuntimePermissions)
        ensures
            permissions == Self::spec_granted_for(*capabilities),
    {
        RuntimePermissions {
            notifications: if capabilities.share_externally || capabilities.background_sync {
                RuntimePermissionState::Granted
            } else {
                RuntimePermissionState::Unsupported
            },
            local_network: if capabilities.native_discovery || capabilities.background_sync {
                RuntimePermissionState::Granted
            } else {
                RuntimePermissionState::Unsupported
            },
            clipboard: if capabilities.clipboard_monitor || capabilities.clipboard_files {
                RuntimePermissionState::Granted
            } else {
                RuntimePermissionState::Unsupported
            },
            background_sync: if capabilities.background_sync {
                RuntimePermissionState::Granted
            } else {
                RuntimePermissionState::Unsupported
            },
            file_access: if capabilities.export_to_files || capabilities.open_cache_directory {
                RuntimePermissionState::Granted
            } else {
                RuntimePermissionState::Unsupported
            },
        }
    }
}

/// Whether a permission state names a feature that the build supports.
pub open spec fn is_supported(state: RuntimePermissionState) -> bool {
    state != RuntimePermissionState::Unsupported
}

/// Granting every request on a known platform grants exactly the features that the
/// platform's initial permissions list as supported, and nothing else.
pub proof fn granting_covers_exactly_the_supported_features(platform: RuntimePlatform)
    requires
        platform != RuntimePlatform::Unknown,
    ensures
        ({
            let caps = RuntimeCapabilities::spec_for_platform(platform);
            let initial = RuntimePermissions::spec_for_platform(platform, caps);
            let granted = RuntimePermissions::spec_granted_for(caps);
            &&& is_supported(initial.notifications) == (granted.notifications
                == RuntimePermissionState::Granted)
            &&& is_supported(initial.local_network) == (granted.local_network
                == RuntimePermissionState::Granted)
            &&& is_supported(initial.clipboard) == (granted.clipboard
                == RuntimePermissionState::Granted)
            &&& is_supported(initial.background_sync) == (granted.background_sync
                == RuntimePermissionState::Granted)
            &&& is_supported(initial.file_access) == (granted.file_access
                == RuntimePermissionState::Granted)
        }),
{
}

#[derive(Clone, Copy, Debug, PartialEq, Eq, Structural)]
pub enum BackgroundSyncMode {
    Desktop,
    ForegroundOnly,
    ForegroundService,
    AppRefresh,
    Unsupported,
}

#[derive(Clone, Debug)]
pub struct BackgroundSyncState {
    pub supported: bool,
    pub enabled: bool,
    pub active: bool,
    pub mode: BackgroundSyncMode,
    pub message: Option<String>,
}

/// The value that the settings take for background sync when a stored state predates it.
pub fn default_background_sync_enabled() -> (enabled: bool)
    ensures
        enabled,
{
    true
}

/// A remark that the user gave to a peer device.
#[derive(Clone, Debug)]
pub struct DeviceRemark {
    pub device_id: String,
    pub remark: String,
}

impl DeviceRemark {
    pub fn copy(&self) -> (r: DeviceRemark)
        ensures
            r == *self,
    {
        DeviceRemark { device_id: self.device_id.clone(), remark: self.remark.clone() }
    }
}

/// The remarks as a map from device to remark.
pub open spec fn remarks_map(remarks: Seq<DeviceRemark>) -> Map<StringView, StringView> {
    Map::new(
        |id: StringView| exists|i: int| 0 <= i < remarks.len() && remarks[i].device_id@ == id,
        |id: StringView|
            remarks[choose|i: int| 0 <= i < remarks.len() && remarks[i].device_id@ == id].remark@,
    )
}

/// Each entry of distinct remarks is the map's value for its device.
pub proof fn lemma_remarks_map_entry(remarks: Seq<DeviceRemark>, k: int)
    requires
        remarks_unique(remarks),
        0 <= k < remarks.len(),
    ensures
        remarks_map(remarks).contains_key(remarks[k].device_id@),
        remarks_map(remarks)[remarks[k].device_id@] == remarks[k].remark@,
{
    let id = remarks[k].device_id@;
    assert(exists|i: int| 0 <= i < remarks.len() && remarks[i].device_id@ == id);
    let c = choose|i: int| 0 <= i < remarks.len() && remarks[i].device_id@ == id;
    if c != k {
        if c < k {
            assert(remarks[c].device_id@ != remarks[k].device_id@);
        } else {
            assert(remarks[k].device_id@ != remarks[c].device_id@);
        }
    }
}

/// No device has two remarks.
pub open spec fn remarks_unique(remarks: Seq<DeviceRemark>) -> bool {
    forall|i: int, j: int|
        0 <= i < j < remarks.len() ==> remarks[i].device_id@ != remarks[j].device_id@
}

/// Replacing the remark of a device in distinct remarks.
pub proof fn lemma_remarks_set(rs: Seq<DeviceRemark>, i: int, new: Seq<DeviceRemark>)
    requires
        remarks_unique(rs),
        0 <= i < rs.len(),
        new.len() == rs.len(),
        new[i].device_id@ == rs[i].device_id@,
        forall|j: int| 0 <= j < rs.len() && j != i ==> new[j] == rs[j],
    ensures
        remarks_unique(new),
        remarks_map(new) == remarks_map(rs).insert(rs[i].device_id@, new[i].remark@),
{
    let m = remarks_map(rs).insert(rs[i].device_id@, new[i].remark@);
    assert forall|a: int, b: int| 0 <= a < b < new.len() implies new[a].device_id@ != new[b].device_id@ by {
        assert(rs[a].device_id@ != rs[b].device_id@);
    }
    assert forall|id: StringView| remarks_map(new).contains_key(id) <==> m.contains_key(id) by {
        if remarks_map(new).contains_key(id) {
            let k = choose|k: int| 0 <= k < new.len() && new[k].device_id@ == id;
            if k != i {
                assert(rs[k].device_id@ == id);
            }
        }
        if remarks_map(rs).contains_key(id) {
            let k = choose|k: int| 0 <= k < rs.len() && rs[k].device_id@ == id;
            if k != i {
                assert(new[k].device_id@ == id);
            }
        }
    }
    assert forall|id: StringView| #[trigger] remarks_map(new).contains_key(id) implies remarks_map(new)[id] == m[id] by {
        let k = choose|k: int| 0 <= k < new.len() && new[k].device_id@ == id;
        lemma_remarks_map_entry(new, k);
        if k != i {
            lemma_remarks_map_entry(rs, k);
        }
    }
    assert(remarks_map(new) =~= m);
}

/// Removing the remark of a device from distinct remarks.
pub proof fn lemma_remarks_remove(rs: Seq<DeviceRemark>, i: int, new: Seq<DeviceRemark>)
    requires
        remarks_unique(rs),
        0 <= i < rs.len(),
        new == rs.remove(i),
    ensures
        remarks_unique(new),
        remarks_map(new) == remarks_map(rs).remove(rs[i].device_id@),
{
    let m = remarks_map(rs).remove(rs[i].device_id@);
    assert forall|a: int, b: int| 0 <= a < b < new.len() implies new[a].device_id@ != new[b].device_id@ by {
        if a < i {
            if b >= i {
                assert(rs[a].device_id@ != rs[b + 1].device_id@);
            }
        } else {
            assert(rs[a + 1].device_id@ != rs[b + 1].device_id@);
        }
    }
    assert forall|id: StringView| remarks_map(new).contains_key(id) <==> m.contains_key(id) by {
        if remarks_map(new).contains_key(id) {
            let k = choose|k: int| 0 <= k < new.len() && new[k].device_id@ == id;
            if k < i {
                assert(rs[k] == new[k]);
                assert(rs[k].device_id@ != rs[i].device_id@);
            } else {
                assert(rs[k + 1] == new[k]);
                assert(rs[i].device_id@ != rs[k + 1].device_id@);
            }
        }
        if m.contains_key(id) {
            let k = choose|k: int| 0 <= k < rs.len() && rs[k].device_id@ == id;
            if k < i {
                assert(new[k] == rs[k]);
            } else {
                assert(k != i);
                assert(new[k - 1] == rs[k]);
            }
        }
    }
    assert forall|id: StringView| #[trigger] remarks_map(new).contains_key(id) implies remarks_map(new)[id] == m[id] by {
        let k = choose|k: int| 0 <= k < new.len() && new[k].device_id@ == id;
        lemma_remarks_map_entry(new, k);
        if k < i {
            assert(rs[k] == new[k]);
            lemma_remarks_map_entry(rs, k);
        } else {
            assert(rs[k + 1] == new[k]);
            lemma_remarks_map_entry(rs, k + 1);
        }
    }
    assert(remarks_map(new) =~= m);
}

/// Adding the remark of a device that had none to distinct remarks.
pub proof fn lemma_remarks_push(rs: Seq<DeviceRemark>, new: Seq<DeviceRemark>)
    requires
        remarks_unique(rs),
        new.len() == rs.len() + 1,
        forall|j: int| 0 <= j < rs.len() ==> new[j] == rs[j],
        forall|j: int| 0 <= j < rs.len() ==> rs[j].device_id@ != new[rs.len() as int].device_id@,
    ensures
        remarks_unique(new),
        remarks_map(new) == remarks_map(rs).insert(
            new[rs.len() as int].device_id@,
            new[rs.len() as int].remark@,
        ),
{
    let n = rs.len() as int;
    let m = remarks_map(rs).insert(new[n].device_id@, new[n].remark@);
    assert forall|a: int, b: int| 0 <= a < b < new.len() implies new[a].device_id@ != new[b].device_id@ by {
        if b < n {
            assert(rs[a].device_id@ != rs[b].device_id@);
        }
    }
    assert forall|id: StringView| remarks_map(new).contains_key(id) <==> m.contains_key(id) by {
        if remarks_map(new).contains_key(id) {
            let k = choose|k: int| 0 <= k < new.len() && new[k].device_id@ == id;
            if k < n {
                assert(rs[k].device_id@ == id);
            }
        }
        if remarks_map(rs).contains_key(id) {
            let k = choose|k: int| 0 <= k < rs.len() && rs[k].device_id@ == id;
            assert(new[k].device_id@ == id);
        }
        if id == new[n].device_id@ {
            assert(new[n].device_id@ == id);
        }
    }
    assert forall|id: StringView| #[trigger] remarks_map(new).contains_key(id) implies remarks_map(new)[id] == m[id] by {
        let k = choose|k: int| 0 <= k < new.len() && new[k].device_id@ == id;
        lemma_remarks_map_entry(new, k);
        if k < n {
            lemma_remarks_map_entry(rs, k);
        }
    }
    assert(remarks_map(new) =~= m);
}

/// Removing a device without a remark leaves the remarks as they are.
pub proof fn lemma_remarks_absent(rs: Seq<DeviceRemark>, id: StringView)
    requires
        forall|j: int| 0 <= j < rs.len() ==> rs[j].device_id@ != id,
    ensures
        remarks_map(rs).remove(id) == remarks_map(rs),
{
    assert(remarks_map(rs).remove(id) =~= remarks_map(rs));
}

#[derive(Clone, Debug)]
pub struct AppSettings {
    pub device_name: String,
    pub launch_on_login: bool,
    pub background_sync_enabled: bool,
    pub discovery_enabled: bool,
    pub sync_enabled: bool,
    pub active_device_ids: Vec<String>,
    pub device_remarks: Vec<DeviceRemark>,
    pub blocked_auto_pair_device_ids: Vec<String>,
    pub language: AppLanguage,
}

pub struct AppSettingsView {
    pub device_name: StringView,
    pub launch_on_login: bool,
    pub background_sync_enabled: bool,
    pub discovery_enabled: bool,
    pub sync_enabled: bool,
    pub active_device_ids: Seq<StringView>,
    pub device_remarks: Seq<DeviceRemark>,
    pub blocked_auto_pair_device_ids: Seq<StringView>,
    pub language: AppLanguage,
}

impl View for AppSettings {
    type V = AppSettingsView;

    open spec fn view(&self) -> AppSettingsView {
        AppSettingsView {
            device_name: self.device_name@,
            launch_on_login: self.launch_on_login,
            background_sync_enabled: self.background_sync_enabled,
            discovery_enabled: self.discovery_enabled,
            sync_enabled: self.sync_enabled,
            active_device_ids: strings_view(self.active_device_ids@),
            device_remarks: self.device_remarks@,
            blocked_auto_pair_device_ids: strings_view(self.blocked_auto_pair_device_ids@),
            language: self.language,
        }
    }
}

/// Copies a list of remarks.
pub fn copy_remarks(v: &Vec<DeviceRemark>) -> (r: Vec<DeviceRemark>)
    ensures
        r@ == v@,
{
    let mut r: Vec<DeviceRemark> = Vec::new();
    let mut i: usize = 0;
    while i < v.len()
        invariant
            i <= v.len(),
            r@ == v@.subrange(0, i as int),
        decreases v.len() - i,
    {
        r.push(v[i].copy());
        i = i + 1;
    }
    assert(r@ == v@);
    r
}

impl AppSettings {
    pub fn copy(&self) -> (r: AppSettings)
        ensures
            r@ == self@,
    {
        AppSettings {
            device_name: self.device_name.clone(),
            launch_on_login: self.launch_on_login,
            background_sync_enabled: self.background_sync_enabled,
            discovery_enabled: self.discovery_enabled,
            sync_enabled: self.sync_enabled,
            active_device_ids: copy_strings(&self.active_device_ids),
            device_remarks: copy_remarks(&self.device_remarks),
            blocked_auto_pair_device_ids: copy_strings(&self.blocked_auto_pair_device_ids),
            language: self.language,
        }
    }
}

#[derive(Clone, Debug)]
pub struct LocalDevice {
    pub device_id: String,
    pub device_name: String,
    pub platform: String,
    pub protocol_version: String,
    pub capabilities: Vec<String>,
    pub fingerprint: String,
}

pub struct LocalDeviceView {
    pub device_id: StringView,
    pub device_name: StringView,
    pub platform: StringView,
    pub protocol_version: StringView,
    pub capabilities: Seq<StringView>,
    pub fingerprint: StringView,
}

impl View for LocalDevice {
    type V = LocalDeviceView;

    open spec fn view(&self) -> LocalDeviceView {
        LocalDeviceView {
            device_id: self.device_id@,
            device_name: self.device_name@,
            platform: self.platform@,
            protocol_version: self.protocol_version@,
            capabilities: strings_view(self.capabilities@),
            fingerprint: self.fingerprint@,
        }
    }
}

impl LocalDevice {
    pub fn copy(&self) -> (r: LocalDevice)
        ensures
            r@ == self@,
    {
        LocalDevice {
            device_id: self.device_id.clone(),
            device_name: self.device_name.clone(),
            platform: self.platform.clone(),
            protocol_version: self.protocol_version.clone(),
            capabilities: copy_strings(&self.capabilities),
            fingerprint: self.fingerprint.clone(),
        }
    }
}

#[derive(Clone, Copy, Debug, PartialEq, Eq, Structural)]
pub enum ClipboardPayloadKind {
    Text,
    Image,
}

impl ClipboardPayloadKind {
    /// The number that the wire format gives the kind.
    pub open spec fn spec_transport_kind(self) -> i32 {
        match self {
            ClipboardPayloadKind::Text => 1,
            ClipboardPayloadKind::Image => 2,
        }
    }

    pub fn as_transport_kind(&self) -> (kind: i32)
        ensures
            kind == self.spec_transport_kind(),
    {
        match self {
            ClipboardPayloadKind::Text => 1,
            ClipboardPayloadKind::Image => 2,
        }
    }
}

#[derive(Clone, Debug)]
pub struct ClipboardPayload {
    pub kind: ClipboardPayloadKind,
    pub mime: String,
    pub size: usize,
    pub hash: String,
}

impl ClipboardPayload {
    pub fn copy(&self) -> (r: ClipboardPayload)
        ensures
            r == *self,
    {
        ClipboardPayload {
            kind: self.kind,
            mime: self.mime.clone(),
            size: self.size,
            hash: self.hash.clone(),
        }
    }
}

pub fn copy_opt_payload(o: &Option<ClipboardPayload>) -> (r: Option<ClipboardPayload>)
    ensures
        r == *o,
{
    match o {
        Some(p) => Some(p.copy()),
        None => None,
    }
}

/// A device as the user interface lists it.
#[derive(Clone, Debug)]
pub struct TrustedDevice {
    pub device_id: String,
    pub name: String,
    pub remark: Option<String>,
    pub platform: String,
    pub fingerprint: String,
    pub auto_trusted: bool,
    pub capabilities: Vec<String>,
    pub last_seen: Option<i64>,
    pub last_sync_at: Option<i64>,
    pub last_sync_status: Option<String>,
    pub addresses: Vec<IpAddress>,
    pub host_name: Option<String>,
    pub port: Option<u16>,
    pub is_online: bool,
    pub is_active: bool,
}

pub struct TrustedDeviceView {
    pub device_id: StringView,
    pub name: StringView,
    pub remark: Option<StringView>,
    pub platform: StringView,
    pub fingerprint: StringView,
    pub auto_trusted: bool,
    pub capabilities: Seq<StringView>,
    pub last_seen: Option<i64>,
    pub last_sync_at: Option<i64>,
    pub last_sync_status: Option<StringView>,
    pub addresses: Seq<IpAddress>,
    pub host_name: Option<StringView>,
    pub port: Option<u16>,
    pub is_online: bool,
    pub is_active: bool,
}

impl View for TrustedDevice {
    type V = TrustedDeviceView;

    open spec fn view(&self) -> TrustedDeviceView {
        TrustedDeviceView {
            device_id: self.device_id@,
            name: self.name@,
            remark: opt_string_view(self.remark),
            platform: self.platform@,
            fingerprint: self.fingerprint@,
            auto_trusted: self.auto_trusted,
            capabilities: strings_view(self.capabilities@),
            last_seen: self.last_seen,
            last_sync_at: self.last_sync_at,
            last_sync_status: opt_string_view(self.last_sync_status),
            addresses: self.addresses@,
            host_name: opt_string_view(self.host_name),
            port: self.port,
            is_online: self.is_online,
            is_active: self.is_active,
        }
    }
}

/// Everything the user interface shows at once.
#[derive(Clone, Debug)]
pub struct AppStateSnapshot {
    pub local_device: LocalDevice,
    pub settings: AppSettings,
    pub devices: Vec<TrustedDevice>,
    pub sync_status: SyncStatus,
    pub runtime_platform: RuntimePlatform,
    pub capabilities: RuntimeCapabilities,
    pub permissions: RuntimePermissions,
}

#[derive(Clone, Copy, Debug, PartialEq, Eq, Structural)]
pub enum SyncState {
    Idle,
    Discovering,
    Connected,
    Syncing,
    Paused,
    Error,
}

/// The relay's summary state, as the user interface shows it.
#[derive(Clone, Debug)]
pub struct SyncStatus {
    pub state: SyncState,
    pub message: Option<String>,
    pub updated_at: i64,
    pub last_payload: Option<ClipboardPayload>,
}

impl SyncStatus {
    /// A status with no payload, stamped with the time the call reads from the clock.
    pub fn new(state: SyncState, message: Option<String>) -> (status: SyncStatus)
        ensures
            status.state == state,
            status.message == message,
            status.last_payload is None,
    {
        SyncStatus::new_at(state, message, crate::clock::utc_now_millis())
    }

    /// A status with no payload, stamped with `now`.
    pub fn new_at(state: SyncState, message: Option<String>, now: i64) -> (status: SyncStatus)
        ensures
            status == (SyncStatus { state, message, updated_at: now, last_payload: None }),
    {
        SyncStatus { state, message, updated_at: now, last_payload: None }
    }

    pub fn copy(&self) -> (r: SyncStatus)
        ensures
            r == *self,
    {
        SyncStatus {
            state: self.state,
            message: copy_opt_string(&self.message),
            updated_at: self.updated_at,
            last_payload: copy_opt_payload(&self.last_payload),
        }
    }
}

/// A partial update of the settings: each field that is given replaces the setting.
#[derive(Clone, Debug)]
pub struct SettingsPatch {
    pub device_name: Option<String>,
    pub launch_on_login: Option<bool>,
    pub background_sync_enabled: Option<bool>,
    pub discovery_enabled: Option<bool>,
    pub sync_enabled: Option<bool>,
    pub language: Option<AppLanguage>,
}

#[derive(Clone, Debug)]
pub struct StoredTrustedDevice {
    pub device_id: String,
    pub name: String,
    pub platform: String,
    pub fingerprint: String,
    pub auto_trusted: bool,
    pub capabilities: Vec<String>,
    pub last_seen: Option<i64>,
    pub last_sync_at: Option<i64>,
    pub last_sync_status: Option<String>,
    pub host_name: Option<String>,
}

/// What the application keeps on disk.
#[derive(Clone, Debug)]
pub struct PersistentState {
    pub local_device: LocalDevice,
    pub trusted_devices: Vec<StoredTrustedDevice>,
    pub settings: AppSettings,
    pub certificate_der_b64: String,
    pub private_key_der_b64: String,
}

#[derive(Clone, Copy, Debug, PartialEq, Eq, Structural)]
pub enum ClipboardHistoryKind {
    Text,
    Image,
    FileRefs,
}

#[derive(Clone, Copy, Debug, PartialEq, Eq, Structural)]
pub enum ClipboardHistorySource {
    Local,
    Remote,
    Transfer,
}

#[derive(Clone, Debug)]
pub struct ClipboardHistoryEntry {
    pub entry_id: String,
    pub kind: ClipboardHistoryKind,
    pub source: ClipboardHistorySource,
    pub origin_device_id: String,
    pub origin_device_name: String,
    pub display_name: String,
    pub preview_text: Option<String>,
    pub mime: Option<String>,
    pub hash: String,
    pub size: u64,
    pub file_count: Option<u32>,
    pub created_at: i64,
    pub payload_path: Option<String>,
    pub transfer_id: Option<String>,
    pub top_level_names: Vec<String>,
}

impl ClipboardHistoryEntry {
    /// The same entry: every field alike.
    pub open spec fn same_as(&self, other: &ClipboardHistoryEntry) -> bool {
        &&& self.entry_id == other.entry_id
        &&& self.kind == other.kind
        &&& self.source == other.source
        &&& self.origin_device_id == other.origin_device_id
        &&& self.origin_device_name == other.origin_device_name
        &&& self.display_name == other.display_name
        &&& self.preview_text == other.preview_text
        &&& self.mime == other.mime
        &&& self.hash == other.hash
        &&& self.size == other.size
        &&& self.file_count == other.file_count
        &&& self.created_at == other.created_at
        &&& self.payload_path == other.payload_path
        &&& self.transfer_id == other.transfer_id
        &&& self.top_level_names@ == other.top_level_names@
    }

    pub fn copy(&self) -> (r: ClipboardHistoryEntry)
        ensures
            r.same_as(self),
    {
        ClipboardHistoryEntry {
            entry_id: self.entry_id.clone(),
            kind: self.kind,
            source: self.source,
            origin_device_id: self.origin_device_id.clone(),
            origin_device_name: self.origin_device_name.clone(),
            display_name: self.display_name.clone(),
            preview_text: copy_opt_string(&self.preview_text),
            mime: copy_opt_string(&self.mime),
            hash: self.hash.clone(),
            size: self.size,
            file_count: self.file_count,
            created_at: self.created_at,
            payload_path: copy_opt_string(&self.payload_path),
            transfer_id: copy_opt_string(&self.transfer_id),
            top_level_names: copy_strings(&self.top_level_names),
        }
    }
}

#[derive(Clone, Copy, Debug, PartialEq, Eq, Structural)]
pub enum TransferDirection {
    Outbound,
    Inbound,
}

#[derive(Clone, Copy, Debug, PartialEq, Eq, Structural)]
pub enum TransferKind {
    FileRefs,
}

#[derive(Clone, Copy, Debug, PartialEq, Eq, Structural)]
pub enum TransferStage {
    Preparing,
    Queued,
    Downloading,
    Verifying,
    Ready,
    Failed,
    Canceled,
}

impl TransferStage {
    pub open spec fn spec_is_terminal(self) -> bool {
        self is Ready || self is Failed || self is Canceled
    }

    pub fn is_terminal(&self) -> (terminal: bool)
        ensures
            terminal == self.spec_is_terminal(),
    {
        match self {
            TransferStage::Ready | TransferStage::Failed | TransferStage::Canceled => true,
            _ => false,
        }
    }
}

#[derive(Clone, Copy, Debug, PartialEq, Eq, Structural)]
pub enum ReadyActionState {
    PendingPrompt,
    Dismissed,
    Placed,
}

#[derive(Clone, Copy, Debug, PartialEq, Eq, Structural)]
pub enum TransferAction {
    PlaceOnClipboard,
    ShareExternally,
    ExportToFiles,
}

#[derive(Clone, Copy, Debug, PartialEq, Eq, Structural)]
pub enum TransferEntryKind {
    File,
    Directory,
}

#[derive(Clone, Debug)]
pub struct TransferEntry {
    pub relative_path: String,
    pub entry_kind: TransferEntryKind,
    pub size: u64,
    pub modified_at: Option<i64>,
}

impl TransferEntry {
    pub fn copy(&self) -> (r: TransferEntry)
        ensures
            r == *self,
    {
        TransferEntry {
            relative_path: self.relative_path.clone(),
            entry_kind: self.entry_kind,
            size: self.size,
            modified_at: self.modified_at,
        }
    }
}

pub fn copy_entries(v: &Vec<TransferEntry>) -> (r: Vec<TransferEntry>)
    ensures
        r@ == v@,
{
    let mut r: Vec<TransferEntry> = Vec::new();
    let mut i: usize = 0;
    while i < v.len()
        invariant
            i <= v.len(),
            r@ == v@.subrange(0, i as int),
        decreases v.len() - i,
    {
        r.push(v[i].copy());
        i = i + 1;
    }
    assert(r@ == v@);
    r
}

#[derive(Clone, Debug)]
pub struct TransferJob {
    pub transfer_id: String,
    pub peer_device_id: String,
    pub direction: TransferDirection,
    pub kind: TransferKind,
    pub display_name: String,
    pub total_bytes: u64,
    pub completed_bytes: u64,
    pub total_entries: u32,
    pub completed_entries: u32,
    pub stage: TransferStage,
    pub started_at: i64,
    pub finished_at: Option<i64>,
    pub error_message: Option<String>,
    pub warning_message: Option<String>,
    pub ready_to_paste: bool,
    pub ready_action_state: ReadyActionState,
    pub staging_path: Option<String>,
    pub entries: Vec<TransferEntry>,
    pub top_level_names: Vec<String>,
    pub available_actions: Vec<TransferAction>,
}

pub struct TransferJobView {
    pub transfer_id: StringView,
    pub peer_device_id: StringView,
    pub direction: TransferDirection,
    pub kind: TransferKind,
    pub display_name: StringView,
    pub total_bytes: u64,
    pub completed_bytes: u64,
    pub total_entries: u32,
    pub completed_entries: u32,
    pub stage: TransferStage,
    pub started_at: i64,
    pub finished_at: Option<i64>,
    pub error_message: Option<StringView>,
    pub warning_message: Option<StringView>,
    pub ready_to_paste: bool,
    pub ready_action_state: ReadyActionState,
    pub staging_path: Option<StringView>,
    pub entries: Seq<TransferEntry>,
    pub top_level_names: Seq<StringView>,
    pub available_actions: Seq<TransferAction>,
}

impl View for TransferJob {
    type V = TransferJobView;

    open spec fn view(&self) -> TransferJobView {
        TransferJobView {
            transfer_id: self.transfer_id@,
            peer_device_id: self.peer_device_id@,
            direction: self.direction,
            kind: self.kind,
            display_name: self.display_name@,
            total_bytes: self.total_bytes,
            completed_bytes: self.completed_bytes,
            total_entries: self.total_entries,
            completed_entries: self.completed_entries,
            stage: self.stage,
            started_at: self.started_at,
            finished_at: self.finished_at,
            error_message: opt_string_view(self.error_message),
            warning_message: opt_string_view(self.warning_message),
            ready_to_paste: self.ready_to_paste,
            ready_action_state: self.ready_action_state,
            staging_path: opt_string_view(self.staging_path),
            entries: self.entries@,
            top_level_names: strings_view(self.top_level_names@),
            available_actions: self.available_actions@,
        }
    }
}

pub fn copy_actions(v: &Vec<TransferAction>) -> (r: Vec<TransferAction>)
    ensures
        r@ == v@,
{
    let mut r: Vec<TransferAction> = Vec::new();
    let mut i: usize = 0;
    while i < v.len()
        invariant
            i <= v.len(),
            r@ == v@.subrange(0, i as int),
        decreases v.len() - i,
    {
        r.push(v[i]);
        i = i + 1;
    }
    assert(r@ == v@);
    r
}

impl TransferJob {
    pub fn copy(&self) -> (r: TransferJob)
        ensures
            r@ == self@,
    {
        TransferJob {
            transfer_id: self.transfer_id.clone(),
            peer_device_id: self.peer_device_id.clone(),
            direction: self.direction,
            kind: self.kind,
            display_name: self.display_name.clone(),
            total_bytes: self.total_bytes,
            completed_bytes: self.completed_bytes,
            total_entries: self.total_entries,
            completed_entries: self.completed_entries,
            stage: self.stage,
            started_at: self.started_at,
            finished_at: self.finished_at,
            error_message: copy_opt_string(&self.error_message),
            warning_message: copy_opt_string(&self.warning_message),
            ready_to_paste: self.ready_to_paste,
            ready_action_state: self.ready_action_state,
            staging_path: copy_opt_string(&self.staging_path),
            entries: copy_entries(&self.entries),
            top_level_names: copy_strings(&self.top_level_names),
            available_actions: copy_actions(&self.available_actions),
        }
    }
}

} // verus!
