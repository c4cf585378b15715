//! The relay's state and the decisions it makes: which peers are online, which are paired,
//! where clipboards go, what the status line says, how transfers progress and what the
//! clipboard history keeps. The caller performs the network and disk work around these
//! decisions and hands the outcomes back.
use crate::error::RelayError;
use crate::ids::{fresh_uuid, is_uuid_text};
use crate::i18n;
use crate::mobile_bridge::RuntimeBridge;
use crate::models::{
    TransferEntryKind,
    copy_entries,
    TransferEntry, TransferKind,
    AppSettingsView, AppStateSnapshot, TrustedDevice, TrustedDeviceView,
    ClipboardHistoryKind, ClipboardHistorySource, ClipboardPayloadKind,
    copy_opt_payload, copy_opt_string, copy_strings, lemma_remarks_absent, lemma_remarks_map_entry,
    lemma_remarks_push, lemma_remarks_remove, lemma_remarks_set, opt_string_view, remarks_map,
    ClipboardPayload, DeviceRemark, SettingsPatch, PROTOCOL_VERSION, TransferJobView, TransferStage, TransferDirection, TransferAction, ReadyActionState, remarks_unique, strings_view, AppLanguage, BackgroundSyncState,
    ClipboardHistoryEntry, LocalDevice, PersistentState, RuntimeCapabilities,
    RuntimePermissions, RuntimePlatform, StringView, SyncState, SyncStatus, TransferJob,
};
use crate::net::{preferred_socket_addr, spec_preferred_socket_addr, IpAddress, SocketAddress};
use crate::transport::{
    envelope_from_packet, kind_from_i32, spec_kind_from_i32, ClipboardEnvelope, DevicePairingUpdate, IncomingTransferOffer,
};
use crate::clipboard::{packet_from_remote, MAX_IMAGE_BYTES};
use crate::seqs::{is_first_match, insertion_sorted, lemma_first_greater_at,
    contains_str, first_index, lemma_filter_members, lemma_filter_push, position_of_str,
    queue_contains_str, str_is_not, without_str,
};
use std::collections::VecDeque;
use crate::clipboard::ClipboardPacket;
use crate::transfers::{candidates_under, PathStamp, hash_paths, spec_file_list_hash, spec_payload_path_candidates, spec_path_push, spec_relative_path_to_native, spec_transfer_payload_dir, path_push, relative_path_to_native, transfer_payload_dir, PreparedTransfer, PreparedTransferEntry, chars_less, chars_lt, file_name, spec_file_name, LocalFileClipboard};
use vstd::utf8::{decode_utf8, valid_utf8};
use crate::text::{decode_utf8_text, chars_of, is_whitespace, spec_is_whitespace, string_from_chars};
use vstd::prelude::*;

verus! {

/// The mDNS service type under which devices advertise the relay.
pub const SERVICE_TYPE: &'static str = "_relayclip._tcp.local.";

/// How many recent clipboard hashes are remembered to suppress echoes.
pub const RECENT_HASH_LIMIT: usize = 32;

/// A peer that mDNS discovery resolved.
#[derive(Clone, Debug)]
pub struct DiscoveredPeer {
    pub service_fullname: String,
    pub device_id: String,
    pub name: String,
    pub platform: String,
    pub protocol_version: String,
    pub capabilities: Vec<String>,
    pub fingerprint: String,
    pub host_name: Option<String>,
    pub addresses: Vec<IpAddress>,
    pub port: u16,
}

/// What the relay knows of a peer that is or was on the network.
#[derive(Clone, Debug)]
pub struct DevicePresence {
    pub device_id: String,
    pub name: String,
    pub platform: String,
    pub fingerprint: String,
    pub capabilities: Vec<String>,
    pub host_name: Option<String>,
    pub addresses: Vec<IpAddress>,
    pub port: u16,
    pub is_online: bool,
    pub last_seen: i64,
    pub last_sync_at: Option<i64>,
    pub last_sync_status: Option<String>,
}

/// A peer that clipboards can be sent to.
#[derive(Clone, Debug)]
pub struct ActiveTarget {
    pub device_id: String,
    pub fingerprint: String,
    pub socket_addr: SocketAddress,
}

pub struct ActiveTargetView {
    pub device_id: StringView,
    pub fingerprint: StringView,
    pub socket_addr: SocketAddress,
}

impl View for ActiveTarget {
    type V = ActiveTargetView;

    open spec fn view(&self) -> ActiveTargetView {
        ActiveTargetView {
            device_id: self.device_id@,
            fingerprint: self.fingerprint@,
            socket_addr: self.socket_addr,
        }
    }
}

/// The mDNS service name under which a device was found.
#[derive(Clone, Debug)]
pub struct ServiceEntry {
    pub fullname: String,
    pub device_id: String,
}

/// Who changed whether a device is paired.
#[derive(Clone, Copy, Debug, PartialEq, Eq, Structural)]
pub enum PairingChangeSource {
    Manual,
    Remote,
    Auto,
}

impl PairingChangeSource {
    /// A pairing that the user or the peer changed blocks automatic pairing when it unpairs
    /// and lifts the block when it pairs; an automatic pairing leaves the block as it is.
    pub open spec fn spec_blocked_auto_pair_state(self, paired: bool) -> Option<bool> {
        match self {
            PairingChangeSource::Auto => None,
            _ => Some(!paired),
        }
    }

    pub fn blocked_auto_pair_state(self, paired: bool) -> (r: Option<bool>)
        ensures
            r == self.spec_blocked_auto_pair_state(paired),
    {
        match (self, paired) {
            (PairingChangeSource::Manual, false) | (PairingChangeSource::Remote, false) => Some(
                true,
            ),
            (PairingChangeSource::Manual, true) | (PairingChangeSource::Remote, true) => Some(
                false,
            ),
            (PairingChangeSource::Auto, _) => None,
        }
    }
}

/// The relay's state.
pub struct RelayRuntime {
    pub persistent: PersistentState,
    pub bridge: RuntimeBridge,
    pub transfer_jobs: Vec<TransferJob>,
    pub clipboard_history: Vec<ClipboardHistoryEntry>,
    pub presence: Vec<DevicePresence>,
    pub active_device_ids: Vec<String>,
    pub service_map: Vec<ServiceEntry>,
    pub recent_hashes: VecDeque<String>,
    pub sync_status: SyncStatus,
    pub listen_port: u16,
    pub sequence: u64,
}

/// No device is present twice.
pub open spec fn presence_ids_unique(p: Seq<DevicePresence>) -> bool {
    forall|i: int, j: int| 0 <= i < j < p.len() ==> p[i].device_id@ != p[j].device_id@
}

/// No string occurs twice.
pub open spec fn strings_unique(v: Seq<String>) -> bool {
    forall|i: int, j: int| 0 <= i < j < v.len() ==> v[i]@ != v[j]@
}

/// No service name occurs twice.
pub open spec fn services_unique(v: Seq<ServiceEntry>) -> bool {
    forall|i: int, j: int| 0 <= i < j < v.len() ==> v[i].fullname@ != v[j].fullname@
}

/// The string occurs in the vector.
pub open spec fn has_str(v: Seq<String>, s: StringView) -> bool {
    exists|i: int| 0 <= i < v.len() && v[i]@ == s
}

/// The presence entries of a device.
pub open spec fn device_is(id: StringView) -> spec_fn(DevicePresence) -> bool {
    |d: DevicePresence| d.device_id@ == id
}

/// The position of a device's presence entry, if it has one.
pub open spec fn presence_index(p: Seq<DevicePresence>, id: StringView) -> Option<int> {
    first_index(p, device_is(id))
}

/// The device is present and online.
pub open spec fn online_in(p: Seq<DevicePresence>, id: StringView) -> bool {
    exists|k: int| 0 <= k < p.len() && p[k].device_id@ == id && p[k].is_online
}

/// The device can be dialed: it has a port and an address.
pub open spec fn routable(d: DevicePresence) -> bool {
    spec_preferred_socket_addr(d.addresses@, d.port) is Some
}

/// The target for a present device, when it can be dialed.
pub open spec fn spec_target_of(d: DevicePresence) -> Option<ActiveTargetView> {
    match spec_preferred_socket_addr(d.addresses@, d.port) {
        Some(addr) => Some(
            ActiveTargetView { device_id: d.device_id@, fingerprint: d.fingerprint@, socket_addr: addr },
        ),
        None => None,
    }
}

/// The targets for a list of paired devices: each one that is present, online and can be
/// dialed, in the order of the list.
pub open spec fn targets_for(ids: Seq<String>, p: Seq<DevicePresence>) -> Seq<ActiveTargetView>
    decreases ids.len(),
{
    if ids.len() == 0 {
        Seq::empty()
    } else {
        let rest = targets_for(ids.drop_last(), p);
        match presence_index(p, ids.last()@) {
            Some(k) => if p[k].is_online && spec_target_of(p[k]) is Some {
                rest.push(spec_target_of(p[k])->0)
            } else {
                rest
            },
            None => rest,
        }
    }
}

/// An online peer other than this device.
pub open spec fn online_peer(local: StringView) -> spec_fn(DevicePresence) -> bool {
    |d: DevicePresence| d.is_online && d.device_id@ != local
}

/// A paired device that is online.
pub open spec fn paired_online(p: Seq<DevicePresence>) -> spec_fn(String) -> bool {
    |id: String| online_in(p, id@)
}

/// The status line that the relay shows: its state and message.
pub open spec fn spec_sync_summary(
    sync_enabled: bool,
    language: AppLanguage,
    local: StringView,
    active: Seq<String>,
    p: Seq<DevicePresence>,
) -> (SyncState, Seq<char>) {
    let paired_online_count = active.filter(paired_online(p)).len();
    let online_peer_count = p.filter(online_peer(local)).len();
    if !sync_enabled {
        (SyncState::Paused, i18n::spec_paused(language))
    } else if paired_online_count > 0 {
        (SyncState::Connected, i18n::spec_paired_devices_ready(language, paired_online_count as usize))
    } else if active.len() > 0 {
        (SyncState::Idle, i18n::spec_paired_devices_offline(language))
    } else if online_peer_count > 0 {
        (SyncState::Idle, i18n::spec_available_peers(language, online_peer_count as usize))
    } else {
        (SyncState::Discovering, i18n::spec_looking_for_peers(language))
    }
}

impl RelayRuntime {
    /// What every operation keeps: no device is present twice, paired twice or remarked
    /// twice, no service name is recorded twice, and the recent hashes are distinct and
    /// at most `RECENT_HASH_LIMIT`.
    pub open spec fn inv(&self) -> bool {
        &&& presence_ids_unique(self.presence@)
        &&& strings_unique(self.active_device_ids@)
        &&& services_unique(self.service_map@)
        &&& strings_unique(self.recent_hashes@)
        &&& self.recent_hashes@.len() <= RECENT_HASH_LIMIT
        &&& remarks_unique(self.persistent.settings.device_remarks@)
    }

    pub open spec fn local_id(&self) -> StringView {
        self.persistent.local_device.device_id@
    }

    pub open spec fn spec_language(&self) -> AppLanguage {
        self.persistent.settings.language
    }

    /// Everything but the pairing list and the status line is unchanged.
    pub open spec fn same_but_pairing_and_status(&self, other: &Self) -> bool {
        &&& self.persistent.local_device == other.persistent.local_device
        &&& self.persistent.settings.device_name == other.persistent.settings.device_name
        &&& self.persistent.settings.sync_enabled == other.persistent.settings.sync_enabled
        &&& self.persistent.settings.language == other.persistent.settings.language
        &&& self.persistent.settings.device_remarks == other.persistent.settings.device_remarks
        &&& self.presence == other.presence
        &&& self.transfer_jobs == other.transfer_jobs
        &&& self.clipboard_history == other.clipboard_history
        &&& self.service_map == other.service_map
        &&& self.recent_hashes == other.recent_hashes
        &&& self.bridge == other.bridge
        &&& self.listen_port == other.listen_port
        &&& self.sequence == other.sequence
    }

    /// The relay for a stored state and the jobs and history kept beside it: nothing is
    /// present or paired yet, and the status says whether sync is advertised or paused.
    pub fn new(
        persistent: PersistentState,
        transfer_jobs: Vec<TransferJob>,
        clipboard_history: Vec<ClipboardHistoryEntry>,
        bridge: RuntimeBridge,
        now: i64,
    ) -> (runtime: RelayRuntime)
        requires
            remarks_unique(persistent.settings.device_remarks@),
        ensures
            runtime.inv(),
            runtime.persistent == persistent,
            runtime.transfer_jobs == transfer_jobs,
            runtime.clipboard_history == clipboard_history,
            runtime.bridge == bridge,
            runtime.presence@.len() == 0,
            runtime.active_device_ids@.len() == 0,
            runtime.service_map@.len() == 0,
            runtime.recent_hashes@.len() == 0,
            runtime.listen_port == 0,
            runtime.sequence == 1,
            runtime.sync_status.updated_at == now,
            runtime.sync_status.last_payload is None,
            persistent.settings.sync_enabled ==> runtime.sync_status.state == SyncState::Discovering
                && opt_string_view(runtime.sync_status.message) == Some(
                i18n::spec_advertising(persistent.settings.language),
            ),
            !persistent.settings.sync_enabled ==> runtime.sync_status.state == SyncState::Paused
                && opt_string_view(runtime.sync_status.message) == Some(
                i18n::spec_paused(persistent.settings.language),
            ),
    {
        let language = persistent.settings.language;
        let sync_status = if persistent.settings.sync_enabled {
            SyncStatus::new_at(SyncState::Discovering, Some(i18n::advertising(language)), now)
        } else {
            SyncStatus::new_at(SyncState::Paused, Some(i18n::paused(language)), now)
        };
        RelayRuntime {
            persistent,
            bridge,
            transfer_jobs,
            clipboard_history,
            presence: Vec::new(),
            active_device_ids: Vec::new(),
            service_map: Vec::new(),
            recent_hashes: VecDeque::new(),
            sync_status,
            listen_port: 0,
            sequence: 1,
        }
    }

    pub fn local_device(&self) -> (device: LocalDevice)
        ensures
            device@ == self.persistent.local_device@,
    {
        self.persistent.local_device.copy()
    }

    pub fn language(&self) -> (language: AppLanguage)
        ensures
            language == self.spec_language(),
    {
        self.persistent.settings.language
    }

    pub fn runtime_platform(&self) -> (platform: RuntimePlatform)
        ensures
            platform == self.bridge.platform,
    {
        self.bridge.platform()
    }

    pub fn runtime_capabilities(&self) -> (capabilities: RuntimeCapabilities)
        ensures
            capabilities == self.bridge.capabilities,
    {
        self.bridge.capabilities()
    }

    pub fn runtime_permissions(&self) -> (permissions: RuntimePermissions)
        ensures
            permissions == self.bridge.permissions,
    {
        self.bridge.permissions()
    }

    pub fn request_runtime_permissions(&mut self) -> (granted: RuntimePermissions)
        ensures
            granted == RuntimePermissions::spec_granted_for(old(self).bridge.capabilities),
            final(self).bridge.permissions == granted,
            final(self).bridge.platform == old(self).bridge.platform,
            final(self).bridge.capabilities == old(self).bridge.capabilities,
            final(self).persistent == old(self).persistent,
            final(self).presence == old(self).presence,
            final(self).active_device_ids == old(self).active_device_ids,
            final(self).service_map == old(self).service_map,
            final(self).recent_hashes == old(self).recent_hashes,
    {
        self.bridge.request_permissions()
    }

    /// The state of background sync under the user's setting.
    pub fn background_sync_state(&self) -> (state: BackgroundSyncState)
        ensures
            ({
                let (supported, on, active, mode, message) =
                    crate::mobile_bridge::spec_background_sync_state(
                    self.bridge.platform,
                    self.persistent.settings.background_sync_enabled,
                );
                &&& state.supported == supported
                &&& state.enabled == on
                &&& state.active == active
                &&& state.mode == mode
                &&& state.message matches Some(m) && m@ == message
            }),
    {
        self.bridge.background_sync_state(self.persistent.settings.background_sync_enabled)
    }

    pub fn is_sync_enabled(&self) -> (enabled: bool)
        ensures
            enabled == self.persistent.settings.sync_enabled,
    {
        self.persistent.settings.sync_enabled
    }

    pub fn listen_port(&self) -> (port: u16)
        ensures
            port == self.listen_port,
    {
        self.listen_port
    }

    /// Whether the device is paired.
    pub fn is_paired_device(&self, device_id: &str) -> (paired: bool)
        ensures
            paired == has_str(self.active_device_ids@, device_id@),
    {
        contains_str(&self.active_device_ids, device_id)
    }

    /// Whether automatic pairing is blocked for the device.
    pub fn is_auto_pair_blocked(&self, device_id: &str) -> (blocked: bool)
        ensures
            blocked == has_str(self.persistent.settings.blocked_auto_pair_device_ids@, device_id@),
    {
        contains_str(&self.persistent.settings.blocked_auto_pair_device_ids, device_id)
    }

    /// Marks a device paired or unpaired. Pairing makes the device the one active device, in
    /// place of any paired before; an unpaired device is no longer in the pairing list.
    pub fn set_device_paired_state(&mut self, device_id: &str, paired: bool)
        requires
            old(self).inv(),
        ensures
            final(self).inv(),
            paired ==> strings_view(final(self).active_device_ids@) == seq![device_id@],
            paired ==> has_str(final(self).active_device_ids@, device_id@),
            !paired ==> final(self).active_device_ids@ == old(self).active_device_ids@.filter(
                str_is_not(device_id@),
            ),
            !paired ==> !has_str(final(self).active_device_ids@, device_id@),
            final(self).same_but_pairing_and_status(old(self)),
            final(self).persistent == old(self).persistent,
            final(self).sync_status == old(self).sync_status,
    {
        if paired {
            let mut only: Vec<String> = Vec::new();
            only.push(String::from_str(device_id));
            self.active_device_ids = only;
            proof {
                let v = self.active_device_ids@;
                assert(v[0]@ == device_id@);
                assert(strings_view(v) =~= seq![device_id@]);
            }
        } else {
            let kept = without_str(&self.active_device_ids, device_id);
            proof {
                lemma_filter_members(old(self).active_device_ids@, str_is_not(device_id@));
                lemma_filter_unique(old(self).active_device_ids@, str_is_not(device_id@));
                assert forall|i: int| 0 <= i < kept@.len() implies kept@[i]@ != device_id@ by {
                    assert(kept@.contains(kept@[i]));
                }
            }
            self.active_device_ids = kept;
        }
    }
    /// Blocks automatic pairing for a device, or lifts the block.
    pub fn set_auto_pair_blocked_state(&mut self, device_id: &str, blocked: bool)
        requires
            old(self).inv(),
        ensures
            final(self).inv(),
            blocked ==> strings_view(final(self).persistent.settings.blocked_auto_pair_device_ids@)
                == if has_str(old(self).persistent.settings.blocked_auto_pair_device_ids@, device_id@) {
                strings_view(old(self).persistent.settings.blocked_auto_pair_device_ids@)
            } else {
                strings_view(old(self).persistent.settings.blocked_auto_pair_device_ids@).push(
                    device_id@,
                )
            },
            blocked ==> has_str(final(self).persistent.settings.blocked_auto_pair_device_ids@, device_id@),
            !blocked ==> final(self).persistent.settings.blocked_auto_pair_device_ids@ == old(
                self,
            ).persistent.settings.blocked_auto_pair_device_ids@.filter(str_is_not(device_id@)),
            !blocked ==> !has_str(final(self).persistent.settings.blocked_auto_pair_device_ids@, device_id@),
            final(self).same_but_pairing_and_status(old(self)),
            final(self).active_device_ids == old(self).active_device_ids,
            final(self).sync_status == old(self).sync_status,
            final(self).persistent.settings.active_device_ids == old(self).persistent.settings.active_device_ids,
            final(self).persistent.settings.discovery_enabled == old(self).persistent.settings.discovery_enabled,
            final(self).persistent.settings.launch_on_login == old(self).persistent.settings.launch_on_login,
            final(self).persistent.settings.background_sync_enabled == old(self).persistent.settings.background_sync_enabled,
    {
        if blocked {
            if contains_str(&self.persistent.settings.blocked_auto_pair_device_ids, device_id) {
                return;
            }
            self.persistent.settings.blocked_auto_pair_device_ids.push(String::from_str(device_id));
            proof {
                let v = self.persistent.settings.blocked_auto_pair_device_ids@;
                assert(v[v.len() - 1]@ == device_id@);
                assert(strings_view(v) =~= strings_view(
                    old(self).persistent.settings.blocked_auto_pair_device_ids@,
                ).push(device_id@));
            }
        } else {
            let kept = without_str(&self.persistent.settings.blocked_auto_pair_device_ids, device_id);
            proof {
                lemma_filter_members(
                    old(self).persistent.settings.blocked_auto_pair_device_ids@,
                    str_is_not(device_id@),
                );
                assert forall|i: int| 0 <= i < kept@.len() implies kept@[i]@ != device_id@ by {
                    assert(kept@.contains(kept@[i]));
                }
            }
            self.persistent.settings.blocked_auto_pair_device_ids = kept;
        }
    }

    /// Applies a pairing change and the block on automatic pairing that it implies.
    pub fn apply_pairing_state(&mut self, device_id: &str, paired: bool, source: PairingChangeSource)
        requires
            old(self).inv(),
        ensures
            final(self).inv(),
            has_str(final(self).active_device_ids@, device_id@) == paired,
            paired ==> strings_view(final(self).active_device_ids@) == seq![device_id@],
            !paired ==> final(self).active_device_ids@ == old(self).active_device_ids@.filter(
                str_is_not(device_id@),
            ),
            match source.spec_blocked_auto_pair_state(paired) {
                Some(blocked) => has_str(
                    final(self).persistent.settings.blocked_auto_pair_device_ids@,
                    device_id@,
                ) == blocked,
                None => final(self).persistent.settings.blocked_auto_pair_device_ids
                    == old(self).persistent.settings.blocked_auto_pair_device_ids,
            },
            final(self).same_but_pairing_and_status(old(self)),
            final(self).sync_status == old(self).sync_status,
    {
        self.set_device_paired_state(device_id, paired);
        if let Some(blocked) = source.blocked_auto_pair_state(paired) {
            self.set_auto_pair_blocked_state(device_id, blocked);
        }
    }

    /// The target for a device, or why it cannot be dialed.
    pub fn resolve_active_target(&self, device_id: &str) -> (r: Result<ActiveTarget, RelayError>)
        requires
            self.inv(),
        ensures
            match presence_index(self.presence@, device_id@) {
                None => r == Err::<ActiveTarget, RelayError>(RelayError::UnknownDevice),
                Some(k) => if !self.presence@[k].is_online {
                    r == Err::<ActiveTarget, RelayError>(RelayError::DeviceOffline)
                } else {
                    match spec_target_of(self.presence@[k]) {
                        Some(t) => r matches Ok(target) && target@ == t,
                        None => r == Err::<ActiveTarget, RelayError>(RelayError::NoRoutableAddress),
                    }
                },
            },
            match r {
                Ok(t) => self.spec_resolve(device_id@) == Ok::<ActiveTargetView, RelayError>(t@),
                Err(e) => self.spec_resolve(device_id@) == Err::<ActiveTargetView, RelayError>(e),
            },
    {
        let Some(k) = find_presence(&self.presence, device_id) else {
            return Err(RelayError::UnknownDevice);
        };
        let device = &self.presence[k];
        if !device.is_online {
            return Err(RelayError::DeviceOffline);
        }
        match active_target_from_presence(device) {
            Some(target) => Ok(target),
            None => Err(RelayError::NoRoutableAddress),
        }
    }

    /// The targets that a clipboard is relayed to: the paired devices that are online and
    /// can be dialed, in pairing order.
    pub fn active_targets(&self) -> (targets: Vec<ActiveTarget>)
        requires
            self.inv(),
        ensures
            targets@.map_values(|t: ActiveTarget| t@) == targets_for(
                self.active_device_ids@,
                self.presence@,
            ),
    {
        let mut targets: Vec<ActiveTarget> = Vec::new();
        let mut i: usize = 0;
        while i < self.active_device_ids.len()
            invariant
                i <= self.active_device_ids@.len(),
                targets@.map_values(|t: ActiveTarget| t@) == targets_for(
                    self.active_device_ids@.subrange(0, i as int),
                    self.presence@,
                ),
            decreases self.active_device_ids.len() - i,
        {
            let ghost prefix = self.active_device_ids@.subrange(0, i + 1);
            assert(prefix.drop_last() =~= self.active_device_ids@.subrange(0, i as int));
            assert(prefix.last() == self.active_device_ids@[i as int]);
            let id = &self.active_device_ids[i];
            if let Some(k) = find_presence(&self.presence, id.as_str()) {
                let device = &self.presence[k];
                if device.is_online {
                    if let Some(target) = active_target_from_presence(device) {
                        targets.push(target);
                        assert(targets@.map_values(|t: ActiveTarget| t@) =~= targets_for(
                            self.active_device_ids@.subrange(0, i as int),
                            self.presence@,
                        ).push(spec_target_of(self.presence@[k as int])->0));
                    }
                }
            }
            i = i + 1;
        }
        assert(self.active_device_ids@.subrange(0, i as int) =~= self.active_device_ids@);
        targets
    }

    /// Everything but the status line is unchanged.
    pub open spec fn same_but_status(&self, other: &Self) -> bool {
        &&& self.persistent == other.persistent
        &&& self.bridge == other.bridge
        &&& self.transfer_jobs == other.transfer_jobs
        &&& self.clipboard_history == other.clipboard_history
        &&& self.presence == other.presence
        &&& self.active_device_ids == other.active_device_ids
        &&& self.service_map == other.service_map
        &&& self.recent_hashes == other.recent_hashes
        &&& self.listen_port == other.listen_port
        &&& self.sequence == other.sequence
    }

    /// The status line that the current state calls for.
    pub open spec fn spec_summary(&self) -> (SyncState, Seq<char>) {
        spec_sync_summary(
            self.persistent.settings.sync_enabled,
            self.persistent.settings.language,
            self.local_id(),
            self.active_device_ids@,
            self.presence@,
        )
    }

    /// The status line is the summary of the state, written at `now`, keeping `payload`.
    pub open spec fn status_is_summary(&self, payload: Option<ClipboardPayload>, now: i64) -> bool {
        &&& self.sync_status.state == self.spec_summary().0
        &&& opt_string_view(self.sync_status.message) == Some(self.spec_summary().1)
        &&& self.sync_status.updated_at == now
        &&& self.sync_status.last_payload == payload
    }

    /// The device that automatic pairing would pair: the only online peer, when no paired
    /// device is online, and the peer is neither paired, nor blocked, nor without an address.
    pub open spec fn spec_auto_pair_candidate(&self) -> Option<StringView> {
        candidate_of(
            self.presence@,
            self.active_device_ids@,
            self.persistent.settings.blocked_auto_pair_device_ids@,
            self.local_id(),
        )
    }

    /// Sets the status line; a payload replaces the last one, no payload keeps it.
    pub fn set_sync_status(
        &mut self,
        state: SyncState,
        message: Option<String>,
        last_payload: Option<ClipboardPayload>,
        now: i64,
    )
        ensures
            final(self).sync_status == (SyncStatus {
                state,
                message,
                updated_at: now,
                last_payload: if last_payload is Some {
                    last_payload
                } else {
                    old(self).sync_status.last_payload
                },
            }),
            final(self).same_but_status(old(self)),
    {
        self.sync_status.state = state;
        self.sync_status.message = message;
        self.sync_status.updated_at = now;
        if last_payload.is_some() {
            self.sync_status.last_payload = last_payload;
        }
    }

    /// How many paired devices are online.
    fn count_paired_online(&self) -> (count: usize)
        ensures
            count == self.active_device_ids@.filter(paired_online(self.presence@)).len(),
    {
        let ghost p = paired_online(self.presence@);
        let mut count: usize = 0;
        let mut i: usize = 0;
        assert(self.active_device_ids@.subrange(0, 0).filter(p) =~= Seq::<String>::empty()) by {
            reveal(Seq::filter);
        }
        while i < self.active_device_ids.len()
            invariant
                i <= self.active_device_ids@.len(),
                p == paired_online(self.presence@),
                count == self.active_device_ids@.subrange(0, i as int).filter(p).len(),
                count <= i,
            decreases self.active_device_ids.len() - i,
        {
            proof {
                assert(self.active_device_ids@.subrange(0, i + 1) =~= self.active_device_ids@.subrange(
                    0,
                    i as int,
                ).push(self.active_device_ids@[i as int]));
                lemma_filter_push(
                    self.active_device_ids@.subrange(0, i as int),
                    p,
                    self.active_device_ids@[i as int],
                );
            }
            if is_device_online(&self.presence, self.active_device_ids[i].as_str()) {
                count = count + 1;
            }
            i = i + 1;
        }
        assert(self.active_device_ids@.subrange(0, i as int) =~= self.active_device_ids@);
        count
    }

    /// How many peers other than this device are online, and the position of the last one.
    fn count_online_peers(&self) -> (r: (usize, usize))
        ensures
            r.0 == self.presence@.filter(online_peer(self.local_id())).len(),
            r.0 > 0 ==> r.1 < self.presence@.len() && self.presence@.filter(
                online_peer(self.local_id()),
            ).last() == self.presence@[r.1 as int],
    {
        let ghost p = online_peer(self.local_id());
        let local = &self.persistent.local_device.device_id;
        let mut count: usize = 0;
        let mut last: usize = 0;
        let mut i: usize = 0;
        assert(self.presence@.subrange(0, 0).filter(p) =~= Seq::<DevicePresence>::empty()) by {
            reveal(Seq::filter);
        }
        while i < self.presence.len()
            invariant
                i <= self.presence@.len(),
                local@ == self.local_id(),
                p == online_peer(self.local_id()),
                count == self.presence@.subrange(0, i as int).filter(p).len(),
                count <= i,
                count > 0 ==> last < i && self.presence@.subrange(0, i as int).filter(p).last()
                    == self.presence@[last as int],
            decreases self.presence.len() - i,
        {
            proof {
                assert(self.presence@.subrange(0, i + 1) =~= self.presence@.subrange(
                    0,
                    i as int,
                ).push(self.presence@[i as int]));
                lemma_filter_push(self.presence@.subrange(0, i as int), p, self.presence@[i as int]);
            }
            if self.presence[i].is_online && !(self.presence[i].device_id == *local) {
                count = count + 1;
                last = i;
            }
            i = i + 1;
        }
        assert(self.presence@.subrange(0, i as int) =~= self.presence@);
        (count, last)
    }

    /// Sets the status line to what the state calls for, keeping the last payload.
    pub fn refresh_sync_summary(&mut self, now: i64)
        requires
            old(self).inv(),
        ensures
            final(self).inv(),
            final(self).same_but_status(old(self)),
            final(self).status_is_summary(old(self).sync_status.last_payload, now),
    {
        let language = self.persistent.settings.language;
        let payload = copy_opt_payload(&self.sync_status.last_payload);
        if !self.persistent.settings.sync_enabled {
            self.set_sync_status(SyncState::Paused, Some(i18n::paused(language)), payload, now);
            return;
        }
        let paired_online_count = self.count_paired_online();
        if paired_online_count > 0 {
            self.set_sync_status(
                SyncState::Connected,
                Some(i18n::paired_devices_ready(language, paired_online_count)),
                payload,
                now,
            );
            return;
        }
        if self.active_device_ids.len() > 0 {
            self.set_sync_status(
                SyncState::Idle,
                Some(i18n::paired_devices_offline(language)),
                payload,
                now,
            );
            return;
        }
        let (online_peer_count, _) = self.count_online_peers();
        if online_peer_count > 0 {
            self.set_sync_status(
                SyncState::Idle,
                Some(i18n::available_peers(language, online_peer_count)),
                payload,
                now,
            );
            return;
        }
        self.set_sync_status(
            SyncState::Discovering,
            Some(i18n::looking_for_peers(language)),
            payload,
            now,
        );
    }

    /// The device that automatic pairing would pair.
    pub fn single_auto_pair_candidate(&self) -> (r: Option<String>)
        requires
            self.inv(),
        ensures
            opt_string_view(r) == self.spec_auto_pair_candidate(),
    {
        let (count, last) = self.count_online_peers();
        if count != 1 {
            return None;
        }
        let ghost online = self.presence@.filter(online_peer(self.local_id()));
        assert(online[0] == self.presence@[last as int]);
        let mut j: usize = 0;
        while j < self.active_device_ids.len()
            invariant
                j <= self.active_device_ids@.len(),
                forall|k: int|
                    0 <= k < j ==> !online_in(self.presence@, #[trigger] self.active_device_ids@[k]@),
            decreases self.active_device_ids.len() - j,
        {
            if is_device_online(&self.presence, self.active_device_ids[j].as_str()) {
                return None;
            }
            j = j + 1;
        }
        let candidate = &self.presence[last];
        if contains_str(&self.active_device_ids, candidate.device_id.as_str()) {
            return None;
        }
        if self.is_auto_pair_blocked(candidate.device_id.as_str()) {
            return None;
        }
        if active_target_from_presence(candidate).is_none() {
            return None;
        }
        Some(candidate.device_id.clone())
    }

    /// The result of resolving a device's target.
    pub open spec fn spec_resolve(&self, device_id: StringView) -> Result<ActiveTargetView, RelayError> {
        match presence_index(self.presence@, device_id) {
            None => Err(RelayError::UnknownDevice),
            Some(k) => if !self.presence@[k].is_online {
                Err(RelayError::DeviceOffline)
            } else {
                match spec_target_of(self.presence@[k]) {
                    Some(t) => Ok(t),
                    None => Err(RelayError::NoRoutableAddress),
                }
            },
        }
    }

    /// The pairing change of `device_id` to `paired` by `source` took `old` to `self`.
    pub open spec fn pairing_applied(
        &self,
        old: &Self,
        device_id: StringView,
        paired: bool,
        source: PairingChangeSource,
    ) -> bool {
        &&& has_str(self.active_device_ids@, device_id) == paired
        &&& paired ==> strings_view(self.active_device_ids@) == seq![device_id]
        &&& !paired ==> self.active_device_ids@ == old.active_device_ids@.filter(
            str_is_not(device_id),
        )
        &&& match source.spec_blocked_auto_pair_state(paired) {
            Some(blocked) => has_str(
                self.persistent.settings.blocked_auto_pair_device_ids@,
                device_id,
            ) == blocked,
            None => self.persistent.settings.blocked_auto_pair_device_ids
                == old.persistent.settings.blocked_auto_pair_device_ids,
        }
        &&& self.same_but_pairing_and_status(old)
    }

    /// Pairs or unpairs a device, refreshes the status line, and names the peer to tell when
    /// `sync_peer` asks for it. A device cannot pair with itself; pairing a peer that cannot
    /// be dialed fails when the peer is to be told, unpairing it does not.
    pub fn set_device_pairing_internal(
        &mut self,
        device_id: &str,
        paired: bool,
        source: PairingChangeSource,
        sync_peer: bool,
        now: i64,
    ) -> (r: Result<Option<ActiveTarget>, RelayError>)
        requires
            old(self).inv(),
        ensures
            final(self).inv(),
            device_id@ == old(self).local_id() ==> r == Err::<Option<ActiveTarget>, RelayError>(
                RelayError::CannotPairSelf,
            ),
            device_id@ != old(self).local_id() && sync_peer && paired && old(self).spec_resolve(
                device_id@,
            ) is Err ==> r == Err::<Option<ActiveTarget>, RelayError>(
                old(self).spec_resolve(device_id@)->Err_0,
            ),
            r is Err ==> *final(self) == *old(self),
            r matches Ok(target) ==> {
                &&& final(self).pairing_applied(old(self), device_id@, paired, source)
                &&& final(self).status_is_summary(old(self).sync_status.last_payload, now)
                &&& match target {
                    Some(t) => sync_peer && old(self).spec_resolve(device_id@) == Ok::<
                        ActiveTargetView,
                        RelayError,
                    >(t@),
                    None => !sync_peer || old(self).spec_resolve(device_id@) is Err,
                }
            },
            r is Err <==> (device_id@ == old(self).local_id() || (sync_peer && paired && old(
                self,
            ).spec_resolve(device_id@) is Err)),
    {
        if self.persistent.local_device.device_id == String::from_str(device_id) {
            return Err(RelayError::CannotPairSelf);
        }
        let target = if sync_peer {
            match self.resolve_active_target(device_id) {
                Ok(target) => Some(target),
                Err(error) => {
                    if !paired {
                        None
                    } else {
                        return Err(error);
                    }
                },
            }
        } else {
            None
        };
        let ghost before = *self;
        self.apply_pairing_state(device_id, paired, source);
        let ghost applied = *self;
        self.refresh_sync_summary(now);
        assert(self.pairing_applied(&before, device_id@, paired, source));
        Ok(target)
    }

    /// The candidate named by automatic pairing can be paired and dialed.
    pub proof fn lemma_candidate_resolvable(&self)
        requires
            self.inv(),
            self.spec_auto_pair_candidate() is Some,
        ensures
            self.spec_auto_pair_candidate()->0 != self.local_id(),
            self.spec_resolve(self.spec_auto_pair_candidate()->0) is Ok,
            !has_str(self.active_device_ids@, self.spec_auto_pair_candidate()->0),
            !has_str(self.persistent.settings.blocked_auto_pair_device_ids@, self.spec_auto_pair_candidate()->0),
    {
        let p = self.presence@;
        let online = p.filter(online_peer(self.local_id()));
        let c = online[0];
        lemma_filter_members(p, online_peer(self.local_id()));
        assert(online.contains(c));
        let m = choose|m: int| 0 <= m < p.len() && p[m] == c;
        assert forall|j: int| 0 <= j < m implies !device_is(c.device_id@)(#[trigger] p[j]) by {
            assert(p[j].device_id@ != p[m].device_id@);
        }
        crate::seqs::lemma_first_index_found(p, device_is(c.device_id@), m);
    }

    /// Pairs the device when automatic pairing names it; returns the peer to tell.
    pub fn auto_pair_device_if_only_online_peer(&mut self, device_id: &str, now: i64) -> (r: Option<ActiveTarget>)
        requires
            old(self).inv(),
        ensures
            final(self).inv(),
            old(self).spec_auto_pair_candidate() == Some(device_id@) ==> {
                &&& final(self).pairing_applied(old(self), device_id@, true, PairingChangeSource::Auto)
                &&& final(self).status_is_summary(old(self).sync_status.last_payload, now)
                &&& r matches Some(t) && old(self).spec_resolve(device_id@) == Ok::<
                    ActiveTargetView,
                    RelayError,
                >(t@)
            },
            old(self).spec_auto_pair_candidate() != Some(device_id@) ==> r is None && *final(self)
                == *old(self),
    {
        let candidate = self.single_auto_pair_candidate();
        match candidate {
            Some(c) => {
                if !(c == String::from_str(device_id)) {
                    return None;
                }
                proof {
                    self.lemma_candidate_resolvable();
                }
                match self.set_device_pairing_internal(device_id, true, PairingChangeSource::Auto, true, now) {
                    Ok(target) => target,
                    Err(_) => None,
                }
            },
            None => None,
        }
    }

    /// Pairs the device that automatic pairing names, if any; returns the peer to tell.
    pub fn auto_pair_single_online_peer(&mut self, now: i64) -> (r: Option<ActiveTarget>)
        requires
            old(self).inv(),
        ensures
            final(self).inv(),
            match old(self).spec_auto_pair_candidate() {
                Some(c) => {
                    &&& final(self).pairing_applied(old(self), c, true, PairingChangeSource::Auto)
                    &&& final(self).status_is_summary(old(self).sync_status.last_payload, now)
                    &&& r matches Some(t) && old(self).spec_resolve(c) == Ok::<
                        ActiveTargetView,
                        RelayError,
                    >(t@)
                },
                None => r is None && *final(self) == *old(self),
            },
    {
        let Some(device_id) = self.single_auto_pair_candidate() else {
            return None;
        };
        proof {
            self.lemma_candidate_resolvable();
        }
        match self.set_device_pairing_internal(device_id.as_str(), true, PairingChangeSource::Auto, true, now) {
            Ok(target) => target,
            Err(_) => None,
        }
    }

    /// Records the outcome of relaying to a device: its entry notes when and how the last
    /// sync went, and the status line shows `status_message` in state `state`.
    fn record_device_outcome(
        &mut self,
        device_id: &str,
        state: SyncState,
        status_message: String,
        payload: Option<ClipboardPayload>,
        now: i64,
    )
        requires
            old(self).inv(),
        ensures
            final(self).inv(),
            match presence_index(old(self).presence@, device_id@) {
                Some(k) => final(self).presence@ == old(self).presence@.update(
                    k,
                    (DevicePresence {
                        last_sync_at: Some(now),
                        last_sync_status: Some(status_message),
                        ..old(self).presence@[k]
                    }),
                ),
                None => final(self).presence == old(self).presence,
            },
            final(self).sync_status == (SyncStatus {
                state,
                message: Some(status_message),
                updated_at: now,
                last_payload: if payload is Some {
                    payload
                } else {
                    old(self).sync_status.last_payload
                },
            }),
            final(self).persistent == old(self).persistent,
            final(self).active_device_ids == old(self).active_device_ids,
            final(self).service_map == old(self).service_map,
            final(self).recent_hashes == old(self).recent_hashes,
            final(self).transfer_jobs == old(self).transfer_jobs,
            final(self).clipboard_history == old(self).clipboard_history,
            final(self).bridge == old(self).bridge,
            final(self).listen_port == old(self).listen_port,
            final(self).sequence == old(self).sequence,
    {
        if let Some(k) = find_presence(&self.presence, device_id) {
            let mut entry = self.presence.remove(k);
            entry.last_sync_at = Some(now);
            entry.last_sync_status = Some(status_message.clone());
            self.presence.insert(k, entry);
            proof {
                assert(self.presence@ =~= old(self).presence@.update(k as int, entry));
                assert forall|i: int, j: int|
                    0 <= i < j < self.presence@.len() implies self.presence@[i].device_id@
                    != self.presence@[j].device_id@ by {
                    assert(old(self).presence@[i].device_id@ != old(self).presence@[j].device_id@);
                }
            }
        }
        self.set_sync_status(state, Some(status_message), payload, now);
    }

    /// Records that relaying to a device succeeded.
    pub fn record_device_sync(
        &mut self,
        device_id: &str,
        status_message: String,
        payload: Option<ClipboardPayload>,
        now: i64,
    )
        requires
            old(self).inv(),
        ensures
            final(self).inv(),
            match presence_index(old(self).presence@, device_id@) {
                Some(k) => final(self).presence@ == old(self).presence@.update(
                    k,
                    (DevicePresence {
                        last_sync_at: Some(now),
                        last_sync_status: Some(status_message),
                        ..old(self).presence@[k]
                    }),
                ),
                None => final(self).presence == old(self).presence,
            },
            final(self).sync_status == (SyncStatus {
                state: SyncState::Connected,
                message: Some(status_message),
                updated_at: now,
                last_payload: if payload is Some {
                    payload
                } else {
                    old(self).sync_status.last_payload
                },
            }),
            final(self).persistent == old(self).persistent,
            final(self).active_device_ids == old(self).active_device_ids,
            final(self).transfer_jobs == old(self).transfer_jobs,
            final(self).clipboard_history == old(self).clipboard_history,
            final(self).recent_hashes == old(self).recent_hashes,
    {
        self.record_device_outcome(device_id, SyncState::Connected, status_message, payload, now);
    }

    /// Records that relaying to a device failed.
    pub fn record_device_failure(
        &mut self,
        device_id: &str,
        status_message: String,
        payload: Option<ClipboardPayload>,
        now: i64,
    )
        requires
            old(self).inv(),
        ensures
            final(self).inv(),
            match presence_index(old(self).presence@, device_id@) {
                Some(k) => final(self).presence@ == old(self).presence@.update(
                    k,
                    (DevicePresence {
                        last_sync_at: Some(now),
                        last_sync_status: Some(status_message),
                        ..old(self).presence@[k]
                    }),
                ),
                None => final(self).presence == old(self).presence,
            },
            final(self).sync_status == (SyncStatus {
                state: SyncState::Error,
                message: Some(status_message),
                updated_at: now,
                last_payload: if payload is Some {
                    payload
                } else {
                    old(self).sync_status.last_payload
                },
            }),
            final(self).persistent == old(self).persistent,
            final(self).active_device_ids == old(self).active_device_ids,
            final(self).transfer_jobs == old(self).transfer_jobs,
            final(self).clipboard_history == old(self).clipboard_history,
            final(self).recent_hashes == old(self).recent_hashes,
    {
        self.record_device_outcome(device_id, SyncState::Error, status_message, payload, now);
    }

    /// Replaces the entry of a device, or adds one.
    fn upsert_presence(&mut self, entry: DevicePresence)
        requires
            old(self).inv(),
        ensures
            final(self).inv(),
            presence_upserted(old(self).presence@, final(self).presence@, entry.device_id@, entry@),
            presence_index(final(self).presence@, entry.device_id@) is Some,
            final(self).presence@[presence_index(final(self).presence@, entry.device_id@)->0]
                == entry,
            final(self).persistent == old(self).persistent,
            final(self).active_device_ids == old(self).active_device_ids,
            final(self).service_map == old(self).service_map,
            final(self).recent_hashes == old(self).recent_hashes,
            final(self).transfer_jobs == old(self).transfer_jobs,
            final(self).clipboard_history == old(self).clipboard_history,
            final(self).sync_status == old(self).sync_status,
            final(self).bridge == old(self).bridge,
            final(self).listen_port == old(self).listen_port,
            final(self).sequence == old(self).sequence,
    {
        let ghost id = entry.device_id@;
        match find_presence(&self.presence, entry.device_id.as_str()) {
            Some(k) => {
                self.presence.set(k, entry);
                proof {
                    assert forall|i: int, j: int|
                        0 <= i < j < self.presence@.len() implies self.presence@[i].device_id@
                        != self.presence@[j].device_id@ by {
                        assert(old(self).presence@[i].device_id@ != old(self).presence@[j].device_id@);
                    }
                    assert forall|j: int| 0 <= j < k implies !device_is(id)(#[trigger] self.presence@[j]) by {
                        assert(old(self).presence@[j].device_id@ != old(self).presence@[k as int].device_id@);
                    }
                    crate::seqs::lemma_first_index_found(self.presence@, device_is(id), k as int);
                }
            },
            None => {
                let ghost n = self.presence@.len();
                self.presence.push(entry);
                proof {
                    assert forall|j: int| 0 <= j < n implies !device_is(id)(#[trigger] self.presence@[j]) by {
                        assert(self.presence@[j] == old(self).presence@[j]);
                    }
                    crate::seqs::lemma_first_index_found(self.presence@, device_is(id), n as int);
                    assert forall|i: int, j: int|
                        0 <= i < j < self.presence@.len() implies self.presence@[i].device_id@
                        != self.presence@[j].device_id@ by {
                        if j == n {
                            assert(self.presence@[i] == old(self).presence@[i]);
                        }
                    }
                }
            },
        }
    }

    /// Records the mDNS service name under which a device was found.
    fn upsert_service(&mut self, fullname: String, device_id: String)
        requires
            old(self).inv(),
        ensures
            final(self).inv(),
            final(self).presence == old(self).presence,
            final(self).persistent == old(self).persistent,
            final(self).active_device_ids == old(self).active_device_ids,
            final(self).recent_hashes == old(self).recent_hashes,
            final(self).transfer_jobs == old(self).transfer_jobs,
            final(self).clipboard_history == old(self).clipboard_history,
            final(self).sync_status == old(self).sync_status,
            final(self).bridge == old(self).bridge,
            final(self).listen_port == old(self).listen_port,
            final(self).sequence == old(self).sequence,
            exists|k: int|
                0 <= k < final(self).service_map@.len() && final(self).service_map@[k].fullname@
                    == fullname@ && final(self).service_map@[k].device_id@ == device_id@,
            forall|k: int|
                0 <= k < old(self).service_map@.len() && old(self).service_map@[k].fullname@
                    != fullname@ ==> final(self).service_map@.contains(old(self).service_map@[k]),
    {
        let mut i: usize = 0;
        while i < self.service_map.len()
            invariant
                i <= self.service_map@.len(),
                *self == *old(self),
                old(self).inv(),
                forall|j: int| 0 <= j < i ==> self.service_map@[j].fullname@ != fullname@,
            decreases self.service_map.len() - i,
        {
            if self.service_map[i].fullname == fullname {
                let ghost before = self.service_map@;
                self.service_map.set(i, ServiceEntry { fullname, device_id });
                proof {
                    assert forall|a: int, b: int|
                        0 <= a < b < self.service_map@.len() implies self.service_map@[a].fullname@
                        != self.service_map@[b].fullname@ by {
                        assert(before[a].fullname@ != before[b].fullname@);
                    }
                    assert forall|k: int|
                        0 <= k < before.len() && before[k].fullname@ != fullname@ implies
                        self.service_map@.contains(before[k]) by {
                        assert(self.service_map@[k] == before[k]);
                    }
                    assert(self.service_map@[i as int].fullname@ == fullname@);
                }
                return;
            }
            i = i + 1;
        }
        let ghost before = self.service_map@;
        self.service_map.push(ServiceEntry { fullname, device_id });
        proof {
            assert(self.service_map@[before.len() as int].fullname@ == fullname@);
            assert forall|a: int, b: int|
                0 <= a < b < self.service_map@.len() implies self.service_map@[a].fullname@
                != self.service_map@[b].fullname@ by {
                if b < before.len() {
                    assert(before[a].fullname@ != before[b].fullname@);
                }
            }
            assert forall|k: int|
                0 <= k < before.len() && before[k].fullname@ != fullname@ implies
                self.service_map@.contains(before[k]) by {
                assert(self.service_map@[k] == before[k]);
            }
        }
    }

    /// Records a peer that discovery resolved, then pairs it automatically when it is the
    /// only peer to pair with; returns the peer to tell about a new pairing. Peers of another
    /// protocol version are ignored.
    pub fn upsert_discovered_device(&mut self, peer: DiscoveredPeer, now: i64) -> (r: Option<ActiveTarget>)
        requires
            old(self).inv(),
        ensures
            final(self).inv(),
            peer.protocol_version@ != PROTOCOL_VERSION@ ==> r is None && *final(self) == *old(self),
            peer.protocol_version@ == PROTOCOL_VERSION@ ==> {
                &&& presence_upserted(
                    old(self).presence@,
                    final(self).presence@,
                    peer.device_id@,
                    spec_discovered_presence(peer, presence_of(old(self).presence@, peer.device_id@), now),
                )
                &&& exists|k: int|
                    0 <= k < final(self).service_map@.len() && final(self).service_map@[k].fullname@
                        == peer.service_fullname@ && final(self).service_map@[k].device_id@
                        == peer.device_id@
                &&& final(self).status_is_summary(old(self).sync_status.last_payload, now)
                &&& final(self).persistent.local_device == old(self).persistent.local_device
                &&& final(self).persistent.settings.device_remarks == old(self).persistent.settings.device_remarks
                &&& final(self).persistent.settings.blocked_auto_pair_device_ids == old(self).persistent.settings.blocked_auto_pair_device_ids
                &&& final(self).transfer_jobs == old(self).transfer_jobs
                &&& final(self).clipboard_history == old(self).clipboard_history
                &&& final(self).recent_hashes == old(self).recent_hashes
                &&& if candidate_of(
                    final(self).presence@,
                    old(self).active_device_ids@,
                    old(self).persistent.settings.blocked_auto_pair_device_ids@,
                    old(self).local_id(),
                ) == Some(peer.device_id@) {
                    &&& strings_view(final(self).active_device_ids@) == seq![peer.device_id@]
                    &&& r matches Some(t) && t.device_id@ == peer.device_id@
                } else {
                    &&& final(self).active_device_ids == old(self).active_device_ids
                    &&& r is None
                }
            },
    {
        if !(peer.protocol_version == String::from_str(PROTOCOL_VERSION)) {
            return None;
        }
        let ghost id = peer.device_id@;
        let ghost previous = presence_of(self.presence@, peer.device_id@);
        let (last_sync_at, last_sync_status) = match find_presence(&self.presence, peer.device_id.as_str()) {
            Some(k) => (self.presence[k].last_sync_at, copy_opt_string(&self.presence[k].last_sync_status)),
            None => (None, None),
        };
        let device_id = peer.device_id.clone();
        let entry = DevicePresence {
            device_id: peer.device_id,
            name: peer.name,
            platform: peer.platform,
            fingerprint: peer.fingerprint,
            capabilities: peer.capabilities,
            host_name: peer.host_name,
            addresses: peer.addresses,
            port: peer.port,
            is_online: true,
            last_seen: now,
            last_sync_at,
            last_sync_status,
        };
        assert(entry@ == spec_discovered_presence(peer, previous, now));
        self.upsert_presence(entry);
        let id_for_service = device_id.clone();
        self.upsert_service(peer.service_fullname, id_for_service);
        let ghost mid = *self;
        match self.auto_pair_device_if_only_online_peer(device_id.as_str(), now) {
            Some(target) => {
                proof {
                    mid.lemma_candidate_resolvable();
                }
                Some(target)
            },
            None => {
                self.refresh_sync_summary(now);
                None
            },
        }
    }

    /// The position of the service entry with the given name.
    pub open spec fn service_index(sm: Seq<ServiceEntry>, fullname: StringView) -> Option<int> {
        first_index(sm, service_is(fullname))
    }

    /// A presence list without a device's entry.
    pub open spec fn presence_without(p: Seq<DevicePresence>, id: StringView) -> Seq<DevicePresence> {
        match presence_index(p, id) {
            Some(k) => p.remove(k),
            None => p,
        }
    }

    /// Forgets the device whose mDNS service went away, then pairs automatically the only
    /// peer left to pair with, if any; returns the peer to tell about a new pairing.
    pub fn mark_device_offline(&mut self, fullname: &str, now: i64) -> (r: Option<ActiveTarget>)
        requires
            old(self).inv(),
        ensures
            final(self).inv(),
            final(self).service_map@ == match Self::service_index(old(self).service_map@, fullname@) {
                Some(i) => old(self).service_map@.remove(i),
                None => old(self).service_map@,
            },
            final(self).presence@ == match Self::service_index(old(self).service_map@, fullname@) {
                Some(i) => Self::presence_without(
                    old(self).presence@,
                    old(self).service_map@[i].device_id@,
                ),
                None => old(self).presence@,
            },
            final(self).status_is_summary(old(self).sync_status.last_payload, now),
            final(self).persistent.local_device == old(self).persistent.local_device,
            final(self).persistent.settings.device_remarks == old(self).persistent.settings.device_remarks,
            final(self).persistent.settings.blocked_auto_pair_device_ids == old(self).persistent.settings.blocked_auto_pair_device_ids,
            final(self).transfer_jobs == old(self).transfer_jobs,
            final(self).clipboard_history == old(self).clipboard_history,
            final(self).recent_hashes == old(self).recent_hashes,
            match candidate_of(
                final(self).presence@,
                old(self).active_device_ids@,
                old(self).persistent.settings.blocked_auto_pair_device_ids@,
                old(self).local_id(),
            ) {
                Some(c) => {
                    &&& strings_view(final(self).active_device_ids@) == seq![c]
                    &&& r matches Some(t) && t.device_id@ == c
                },
                None => final(self).active_device_ids == old(self).active_device_ids && r is None,
            },
    {
        let found = find_service(&self.service_map, fullname);
        if let Some(k) = found {
            let entry = self.service_map.remove(k);
            proof {
                assert forall|a: int, b: int|
                    0 <= a < b < self.service_map@.len() implies self.service_map@[a].fullname@
                    != self.service_map@[b].fullname@ by {
                    if a < k {
                        if b < k {
                        } else {
                            assert(old(self).service_map@[a].fullname@ != old(self).service_map@[b + 1].fullname@);
                        }
                    } else {
                        assert(old(self).service_map@[a + 1].fullname@ != old(self).service_map@[b + 1].fullname@);
                    }
                }
            }
            if let Some(m) = find_presence(&self.presence, entry.device_id.as_str()) {
                let ghost before = self.presence@;
                self.presence.remove(m);
                proof {
                    assert forall|a: int, b: int|
                        0 <= a < b < self.presence@.len() implies self.presence@[a].device_id@
                        != self.presence@[b].device_id@ by {
                        if a < m {
                            if b >= m {
                                assert(before[a].device_id@ != before[b + 1].device_id@);
                            }
                        } else {
                            assert(before[a + 1].device_id@ != before[b + 1].device_id@);
                        }
                    }
                }
            }
        }
        let ghost mid = *self;
        match self.auto_pair_single_online_peer(now) {
            Some(target) => {
                proof {
                    mid.lemma_candidate_resolvable();
                }
                Some(target)
            },
            None => {
                self.refresh_sync_summary(now);
                None
            },
        }
    }

    /// Records where a peer that paired with this device can be reached.
    pub fn apply_pairing_route_hint(&mut self, update: &DevicePairingUpdate, peer_ip: Option<IpAddress>, now: i64)
        requires
            old(self).inv(),
        ensures
            final(self).inv(),
            !update.paired ==> *final(self) == *old(self),
            update.paired ==> presence_upserted(
                old(self).presence@,
                final(self).presence@,
                update.origin_device_id@,
                spec_hinted_presence(
                    *update,
                    peer_ip,
                    presence_of(old(self).presence@, update.origin_device_id@),
                    now,
                ),
            ),
            final(self).persistent == old(self).persistent,
            final(self).active_device_ids == old(self).active_device_ids,
            final(self).service_map == old(self).service_map,
            final(self).recent_hashes == old(self).recent_hashes,
            final(self).transfer_jobs == old(self).transfer_jobs,
            final(self).clipboard_history == old(self).clipboard_history,
            final(self).sync_status == old(self).sync_status,
            final(self).bridge == old(self).bridge,
            final(self).listen_port == old(self).listen_port,
            final(self).sequence == old(self).sequence,
    {
        if !update.paired {
            return;
        }
        let ghost previous = presence_of(self.presence@, update.origin_device_id@);
        let found = find_presence(&self.presence, update.origin_device_id.as_str());
        let addresses = match peer_ip {
            Some(ip) => {
                let mut v: Vec<IpAddress> = Vec::new();
                v.push(ip);
                v
            },
            None => match found {
                Some(k) => copy_addresses(&self.presence[k].addresses),
                None => Vec::new(),
            },
        };
        let port = match update.origin_listen_port {
            Some(p) if p > 0 => p,
            _ => match found {
                Some(k) if self.presence[k].port > 0 => self.presence[k].port,
                _ => 0,
            },
        };
        let name = if crate::text::is_blank(update.origin_device_name.as_str()) {
            match found {
                Some(k) => self.presence[k].name.clone(),
                None => update.origin_device_id.clone(),
            }
        } else {
            update.origin_device_name.clone()
        };
        let platform = if crate::text::is_blank(update.origin_platform.as_str()) {
            match found {
                Some(k) => self.presence[k].platform.clone(),
                None => String::from_str("Unknown"),
            }
        } else {
            update.origin_platform.clone()
        };
        let fingerprint = if crate::text::is_blank(update.origin_fingerprint.as_str()) {
            match found {
                Some(k) => self.presence[k].fingerprint.clone(),
                None => String::new(),
            }
        } else {
            update.origin_fingerprint.clone()
        };
        let capabilities = if update.origin_capabilities.len() == 0 {
            match found {
                Some(k) => copy_strings(&self.presence[k].capabilities),
                None => Vec::new(),
            }
        } else {
            copy_strings(&update.origin_capabilities)
        };
        let (host_name, last_sync_at, last_sync_status) = match found {
            Some(k) => (
                copy_opt_string(&self.presence[k].host_name),
                self.presence[k].last_sync_at,
                copy_opt_string(&self.presence[k].last_sync_status),
            ),
            None => (None, None, None),
        };
        let entry = DevicePresence {
            device_id: update.origin_device_id.clone(),
            name,
            platform,
            fingerprint,
            capabilities,
            host_name,
            addresses,
            port,
            is_online: true,
            last_seen: now,
            last_sync_at,
            last_sync_status,
        };
        proof {
            let h = spec_hinted_presence(*update, peer_ip, previous, now);
            assert(entry@.addresses =~= h.addresses);
            assert(entry@.device_id == h.device_id);
            assert(entry@.name == h.name);
            assert(entry@.platform == h.platform);
            assert(entry@.fingerprint == h.fingerprint);
            assert(entry@.capabilities == h.capabilities);
            assert(entry@.host_name == h.host_name);
            assert(entry@.port == h.port);
            assert(entry@.last_sync_at == h.last_sync_at);
            assert(entry@.last_sync_status == h.last_sync_status);
        }
        assert(entry@ == spec_hinted_presence(*update, peer_ip, previous, now));
        self.upsert_presence(entry);
    }

    /// Accepts a peer's pairing change: the update must come from another device and be
    /// addressed to this one. The peer's route is recorded and the pairing applied without
    /// telling the peer back.
    pub fn accept_remote_device_pairing_update(
        &mut self,
        update: &DevicePairingUpdate,
        peer_ip: Option<IpAddress>,
        now: i64,
    ) -> (r: Result<(), RelayError>)
        requires
            old(self).inv(),
        ensures
            final(self).inv(),
            update.target_device_id@ != old(self).local_id() ==> r == Err::<(), RelayError>(
                RelayError::PairingUpdateNotAddressedHere,
            ),
            update.target_device_id@ == old(self).local_id() && update.origin_device_id@
                == old(self).local_id() ==> r == Err::<(), RelayError>(RelayError::CannotPairSelf),
            r is Err ==> *final(self) == *old(self),
            r is Ok <==> (update.target_device_id@ == old(self).local_id()
                && update.origin_device_id@ != old(self).local_id()),
            r is Ok ==> {
                &&& update.paired ==> presence_upserted(
                    old(self).presence@,
                    final(self).presence@,
                    update.origin_device_id@,
                    spec_hinted_presence(
                        *update,
                        peer_ip,
                        presence_of(old(self).presence@, update.origin_device_id@),
                        now,
                    ),
                )
                &&& !update.paired ==> final(self).presence == old(self).presence
                &&& has_str(final(self).active_device_ids@, update.origin_device_id@)
                    == update.paired
                &&& has_str(
                    final(self).persistent.settings.blocked_auto_pair_device_ids@,
                    update.origin_device_id@,
                ) == !update.paired
                &&& final(self).status_is_summary(old(self).sync_status.last_payload, now)
            },
    {
        let local = &self.persistent.local_device.device_id;
        if !(update.target_device_id == *local) {
            return Err(RelayError::PairingUpdateNotAddressedHere);
        }
        if update.origin_device_id == *local {
            return Err(RelayError::CannotPairSelf);
        }
        self.apply_pairing_route_hint(update, peer_ip, now);
        let result = self.set_device_pairing_internal(
            update.origin_device_id.as_str(),
            update.paired,
            PairingChangeSource::Remote,
            false,
            now,
        );
        match result {
            Ok(_) => Ok(()),
            Err(e) => Err(e),
        }
    }

    /// The update that tells a peer this device paired with it or unpaired from it.
    pub fn build_device_pairing_update(&self, target_device_id: String, paired: bool) -> (update: DevicePairingUpdate)
        ensures
            update.origin_device_id@ == self.persistent.local_device.device_id@,
            update.target_device_id == target_device_id,
            update.paired == paired,
            update.origin_device_name@ == self.persistent.local_device.device_name@,
            update.origin_platform@ == self.persistent.local_device.platform@,
            update.origin_capabilities@ == self.persistent.local_device.capabilities@,
            update.origin_fingerprint@ == self.persistent.local_device.fingerprint@,
            update.origin_listen_port == if self.listen_port > 0 {
                Some(self.listen_port)
            } else {
                None
            },
    {
        let local_device = self.local_device();
        DevicePairingUpdate {
            origin_device_id: local_device.device_id,
            target_device_id,
            paired,
            origin_device_name: local_device.device_name,
            origin_platform: local_device.platform,
            origin_capabilities: copy_strings(&self.persistent.local_device.capabilities),
            origin_fingerprint: local_device.fingerprint,
            origin_listen_port: if self.listen_port > 0 {
                Some(self.listen_port)
            } else {
                None
            },
        }
    }

    /// The remarks as a map from device to remark.
    pub open spec fn spec_remarks(&self) -> Map<StringView, StringView> {
        remarks_map(self.persistent.settings.device_remarks@)
    }

    /// The remark the user gave a device.
    pub fn device_remark_for(&self, device_id: &str) -> (remark: Option<String>)
        requires
            self.inv(),
        ensures
            opt_string_view(remark) == if self.spec_remarks().contains_key(device_id@) {
                Some(self.spec_remarks()[device_id@])
            } else {
                None
            },
    {
        let remarks = &self.persistent.settings.device_remarks;
        let target = String::from_str(device_id);
        let mut i: usize = 0;
        while i < remarks.len()
            invariant
                i <= remarks@.len(),
                target@ == device_id@,
                remarks@ == self.persistent.settings.device_remarks@,
                remarks_unique(remarks@),
                forall|j: int| 0 <= j < i ==> remarks@[j].device_id@ != device_id@,
            decreases remarks.len() - i,
        {
            if remarks[i].device_id == target {
                proof {
                    lemma_remarks_map_entry(remarks@, i as int);
                }
                return Some(remarks[i].remark.clone());
            }
            i = i + 1;
        }
        None
    }

    /// The name under which a device is shown: this device's own name, the user's remark,
    /// the name the peer advertises, or else its id.
    pub open spec fn spec_device_name_for(&self, device_id: StringView) -> StringView {
        if device_id == self.local_id() {
            self.persistent.local_device.device_name@
        } else if self.spec_remarks().contains_key(device_id) {
            self.spec_remarks()[device_id]
        } else {
            match presence_of(self.presence@, device_id) {
                Some(d) => d.name@,
                None => device_id,
            }
        }
    }

    pub fn device_name_for(&self, device_id: &str) -> (name: String)
        requires
            self.inv(),
        ensures
            name@ == self.spec_device_name_for(device_id@),
    {
        if self.persistent.local_device.device_id == String::from_str(device_id) {
            return self.persistent.local_device.device_name.clone();
        }
        if let Some(remark) = self.device_remark_for(device_id) {
            return remark;
        }
        match find_presence(&self.presence, device_id) {
            Some(k) => self.presence[k].name.clone(),
            None => String::from_str(device_id),
        }
    }

    /// Gives a peer a remark, or takes it away: a remark that is blank once trimmed removes
    /// it. This device cannot have a remark.
    pub fn set_device_remark(&mut self, device_id: &str, remark: Option<String>) -> (r: Result<(), RelayError>)
        requires
            old(self).inv(),
        ensures
            final(self).inv(),
            r is Err <==> device_id@ == old(self).local_id(),
            r is Err ==> r == Err::<(), RelayError>(RelayError::CannotRemarkSelf) && *final(self)
                == *old(self),
            r is Ok ==> final(self).spec_remarks() == match normalized_remark(remark) {
                Some(text) => old(self).spec_remarks().insert(device_id@, text),
                None => old(self).spec_remarks().remove(device_id@),
            },
            final(self).persistent.local_device == old(self).persistent.local_device,
            final(self).persistent.settings.active_device_ids == old(self).persistent.settings.active_device_ids,
            final(self).persistent.settings.blocked_auto_pair_device_ids == old(self).persistent.settings.blocked_auto_pair_device_ids,
            final(self).persistent.settings.sync_enabled == old(self).persistent.settings.sync_enabled,
            final(self).persistent.settings.language == old(self).persistent.settings.language,
            final(self).presence == old(self).presence,
            final(self).active_device_ids == old(self).active_device_ids,
            final(self).service_map == old(self).service_map,
            final(self).recent_hashes == old(self).recent_hashes,
            final(self).transfer_jobs == old(self).transfer_jobs,
            final(self).clipboard_history == old(self).clipboard_history,
            final(self).sync_status == old(self).sync_status,
            final(self).bridge == old(self).bridge,
    {
        if self.persistent.local_device.device_id == String::from_str(device_id) {
            return Err(RelayError::CannotRemarkSelf);
        }
        let normalized = match remark {
            Some(value) => {
                proof {
                    crate::text::lemma_trim_empty(value@);
                }
                if crate::text::is_blank(value.as_str()) {
                    None
                } else {
                    Some(crate::text::trim(value.as_str()))
                }
            },
            None => None,
        };
        assert(opt_string_view(normalized) == normalized_remark(remark));
        let ghost old_map = self.spec_remarks();
        let ghost rs = self.persistent.settings.device_remarks@;
        let target = String::from_str(device_id);
        let mut i: usize = 0;
        let n = self.persistent.settings.device_remarks.len();
        while i < n
            invariant
                n == self.persistent.settings.device_remarks@.len(),
                i <= n,
                *self == *old(self),
                rs == self.persistent.settings.device_remarks@,
                old(self).inv(),
                target@ == device_id@,
                device_id@ != old(self).local_id(),
                opt_string_view(normalized) == normalized_remark(remark),
                forall|j: int| 0 <= j < i ==> rs[j].device_id@ != device_id@,
            decreases n - i,
        {
            if self.persistent.settings.device_remarks[i].device_id == target {
                match normalized {
                    Some(text) => {
                        self.persistent.settings.device_remarks.set(
                            i,
                            DeviceRemark { device_id: target, remark: text },
                        );
                        proof {
                            lemma_remarks_set(rs, i as int, self.persistent.settings.device_remarks@);
                        }
                    },
                    None => {
                        self.persistent.settings.device_remarks.remove(i);
                        proof {
                            lemma_remarks_remove(rs, i as int, self.persistent.settings.device_remarks@);
                        }
                    },
                }
                return Ok(());
            }
            i = i + 1;
        }
        match normalized {
            Some(text) => {
                self.persistent.settings.device_remarks.push(DeviceRemark { device_id: target, remark: text });
                proof {
                    lemma_remarks_push(rs, self.persistent.settings.device_remarks@);
                }
            },
            None => {
                proof {
                    lemma_remarks_absent(rs, device_id@);
                }
            },
        }
        Ok(())
    }

    /// Turns sync on or off and refreshes the status line.
    pub fn toggle_sync(&mut self, enabled: bool, now: i64)
        requires
            old(self).inv(),
        ensures
            final(self).inv(),
            final(self).persistent.settings.sync_enabled == enabled,
            final(self).persistent.local_device == old(self).persistent.local_device,
            final(self).persistent.settings.device_remarks == old(self).persistent.settings.device_remarks,
            final(self).persistent.settings.language == old(self).persistent.settings.language,
            final(self).presence == old(self).presence,
            final(self).active_device_ids == old(self).active_device_ids,
            final(self).transfer_jobs == old(self).transfer_jobs,
            final(self).clipboard_history == old(self).clipboard_history,
            final(self).status_is_summary(old(self).sync_status.last_payload, now),
    {
        self.persistent.settings.sync_enabled = enabled;
        self.refresh_sync_summary(now);
    }

    /// Renames the device when the trimmed name is not blank and differs.
    fn rename_device(&mut self, device_name: Option<String>) -> (renamed: bool)
        requires
            old(self).inv(),
        ensures
            final(self).inv(),
            renamed == spec_new_device_name(device_name, old(self).persistent.settings.device_name@) is Some,
            match spec_new_device_name(device_name, old(self).persistent.settings.device_name@) {
                Some(name) => final(self).persistent.settings.device_name@ == name
                    && final(self).persistent.local_device.device_name@ == name,
                None => final(self).persistent.settings.device_name == old(self).persistent.settings.device_name
                    && final(self).persistent.local_device.device_name == old(self).persistent.local_device.device_name,
            },
            final(self).persistent.settings.launch_on_login == old(self).persistent.settings.launch_on_login,
            final(self).persistent.settings.background_sync_enabled == old(self).persistent.settings.background_sync_enabled,
            final(self).persistent.settings.discovery_enabled == old(self).persistent.settings.discovery_enabled,
            final(self).persistent.settings.sync_enabled == old(self).persistent.settings.sync_enabled,
            final(self).persistent.settings.language == old(self).persistent.settings.language,
            final(self).persistent.local_device.device_id == old(self).persistent.local_device.device_id,
            final(self).persistent.local_device.platform == old(self).persistent.local_device.platform,
            final(self).persistent.local_device.fingerprint == old(self).persistent.local_device.fingerprint,
            final(self).persistent.settings.device_remarks == old(self).persistent.settings.device_remarks,
            final(self).persistent.settings.active_device_ids == old(self).persistent.settings.active_device_ids,
            final(self).persistent.settings.blocked_auto_pair_device_ids == old(self).persistent.settings.blocked_auto_pair_device_ids,
            final(self).presence == old(self).presence,
            final(self).active_device_ids == old(self).active_device_ids,
            final(self).service_map == old(self).service_map,
            final(self).recent_hashes == old(self).recent_hashes,
            final(self).transfer_jobs == old(self).transfer_jobs,
            final(self).clipboard_history == old(self).clipboard_history,
            final(self).sync_status == old(self).sync_status,
            final(self).bridge == old(self).bridge,
    {
        match device_name {
            Some(device_name) => {
                let trimmed = crate::text::trim(device_name.as_str());
                proof {
                    crate::text::lemma_trim_empty(device_name@);
                }
                if !crate::text::is_blank(device_name.as_str()) && !(trimmed == self.persistent.settings.device_name) {
                    self.persistent.settings.device_name = trimmed.clone();
                    self.persistent.local_device.device_name = trimmed;
                    true
                } else {
                    false
                }
            },
            None => false,
        }
    }

    /// Applies the switches of a settings patch; says whether discovery was switched.
    fn apply_setting_flags(
        &mut self,
        launch_on_login: Option<bool>,
        background_sync_enabled: Option<bool>,
        discovery_enabled: Option<bool>,
        sync_enabled: Option<bool>,
        language: Option<AppLanguage>,
    ) -> (rediscover: bool)
        requires
            old(self).inv(),
        ensures
            final(self).inv(),
            rediscover == match discovery_enabled {
                Some(d) => d != old(self).persistent.settings.discovery_enabled,
                None => false,
            },
            final(self).persistent.settings.launch_on_login == match launch_on_login {
                Some(v) => v,
                None => old(self).persistent.settings.launch_on_login,
            },
            final(self).persistent.settings.background_sync_enabled == match background_sync_enabled {
                Some(v) => v,
                None => old(self).persistent.settings.background_sync_enabled,
            },
            final(self).persistent.settings.discovery_enabled == match discovery_enabled {
                Some(v) => v,
                None => old(self).persistent.settings.discovery_enabled,
            },
            final(self).persistent.settings.sync_enabled == match sync_enabled {
                Some(v) => v,
                None => old(self).persistent.settings.sync_enabled,
            },
            final(self).persistent.settings.language == match language {
                Some(v) => v,
                None => old(self).persistent.settings.language,
            },
            final(self).persistent.settings.device_name == old(self).persistent.settings.device_name,
            final(self).persistent.local_device == old(self).persistent.local_device,
            final(self).persistent.settings.device_remarks == old(self).persistent.settings.device_remarks,
            final(self).persistent.settings.active_device_ids == old(self).persistent.settings.active_device_ids,
            final(self).persistent.settings.blocked_auto_pair_device_ids == old(self).persistent.settings.blocked_auto_pair_device_ids,
            final(self).presence == old(self).presence,
            final(self).active_device_ids == old(self).active_device_ids,
            final(self).service_map == old(self).service_map,
            final(self).recent_hashes == old(self).recent_hashes,
            final(self).transfer_jobs == old(self).transfer_jobs,
            final(self).clipboard_history == old(self).clipboard_history,
            final(self).sync_status == old(self).sync_status,
            final(self).bridge == old(self).bridge,
    {
        let settings = &self.persistent.settings;
        let new_launch = match launch_on_login {
            Some(v) => v,
            None => settings.launch_on_login,
        };
        let new_background = match background_sync_enabled {
            Some(v) => v,
            None => settings.background_sync_enabled,
        };
        let new_discovery = match discovery_enabled {
            Some(v) => v,
            None => settings.discovery_enabled,
        };
        let new_sync = match sync_enabled {
            Some(v) => v,
            None => settings.sync_enabled,
        };
        let new_language = match language {
            Some(v) => v,
            None => settings.language,
        };
        let rediscover = new_discovery != settings.discovery_enabled;
        self.persistent.settings.launch_on_login = new_launch;
        self.persistent.settings.background_sync_enabled = new_background;
        self.persistent.settings.discovery_enabled = new_discovery;
        self.persistent.settings.sync_enabled = new_sync;
        self.persistent.settings.language = new_language;
        rediscover
    }

    /// Applies a settings patch. A new device name is trimmed and taken only when it is not
    /// blank and differs; renaming the device or switching discovery calls for discovery to be
    /// restarted, and the result then says whether it should run.
    pub fn update_settings(&mut self, patch: SettingsPatch) -> (restart: Option<bool>)
        requires
            old(self).inv(),
        ensures
            final(self).inv(),
            ({
                let renamed = spec_new_device_name(patch.device_name, old(self).persistent.settings.device_name@);
                let rediscover = match patch.discovery_enabled {
                    Some(d) => d != old(self).persistent.settings.discovery_enabled,
                    None => false,
                };
                &&& match renamed {
                    Some(name) => final(self).persistent.settings.device_name@ == name
                        && final(self).persistent.local_device.device_name@ == name,
                    None => final(self).persistent.settings.device_name == old(self).persistent.settings.device_name
                        && final(self).persistent.local_device.device_name == old(self).persistent.local_device.device_name,
                }
                &&& restart == if renamed is Some || rediscover {
                    Some(final(self).persistent.settings.discovery_enabled)
                } else {
                    None
                }
            }),
            final(self).persistent.settings.launch_on_login == match patch.launch_on_login {
                Some(v) => v,
                None => old(self).persistent.settings.launch_on_login,
            },
            final(self).persistent.settings.background_sync_enabled == match patch.background_sync_enabled {
                Some(v) => v,
                None => old(self).persistent.settings.background_sync_enabled,
            },
            final(self).persistent.settings.discovery_enabled == match patch.discovery_enabled {
                Some(v) => v,
                None => old(self).persistent.settings.discovery_enabled,
            },
            final(self).persistent.settings.sync_enabled == match patch.sync_enabled {
                Some(v) => v,
                None => old(self).persistent.settings.sync_enabled,
            },
            final(self).persistent.settings.language == match patch.language {
                Some(v) => v,
                None => old(self).persistent.settings.language,
            },
            final(self).persistent.local_device.device_id == old(self).persistent.local_device.device_id,
            final(self).persistent.local_device.platform == old(self).persistent.local_device.platform,
            final(self).persistent.local_device.fingerprint == old(self).persistent.local_device.fingerprint,
            final(self).persistent.settings.device_remarks == old(self).persistent.settings.device_remarks,
            final(self).persistent.settings.active_device_ids == old(self).persistent.settings.active_device_ids,
            final(self).persistent.settings.blocked_auto_pair_device_ids == old(self).persistent.settings.blocked_auto_pair_device_ids,
            final(self).presence == old(self).presence,
            final(self).active_device_ids == old(self).active_device_ids,
            final(self).service_map == old(self).service_map,
            final(self).recent_hashes == old(self).recent_hashes,
            final(self).transfer_jobs == old(self).transfer_jobs,
            final(self).clipboard_history == old(self).clipboard_history,
            final(self).sync_status == old(self).sync_status,
            final(self).bridge == old(self).bridge,
    {
        let renamed = self.rename_device(patch.device_name);
        let rediscover = self.apply_setting_flags(
            patch.launch_on_login,
            patch.background_sync_enabled,
            patch.discovery_enabled,
            patch.sync_enabled,
            patch.language,
        );
        let restart_discovery = renamed || rediscover;
        if restart_discovery {
            Some(self.persistent.settings.discovery_enabled)
        } else {
            None
        }
    }

    /// Whether a clipboard with this hash was seen recently.
    pub fn is_recent_hash(&self, hash: &str) -> (recent: bool)
        ensures
            recent == has_str(self.recent_hashes@, hash@),
    {
        queue_contains_str(&self.recent_hashes, hash)
    }

    /// Remembers a clipboard hash: a new one goes first and the oldest beyond the limit is
    /// forgotten; one already remembered stays where it is.
    pub fn remember_hash(&mut self, hash: String)
        requires
            old(self).inv(),
        ensures
            final(self).inv(),
            has_str(final(self).recent_hashes@, hash@),
            strings_view(final(self).recent_hashes@) == if has_str(old(self).recent_hashes@, hash@) {
                strings_view(old(self).recent_hashes@)
            } else {
                (seq![hash@] + strings_view(old(self).recent_hashes@)).take(
                    if old(self).recent_hashes@.len() < RECENT_HASH_LIMIT {
                        old(self).recent_hashes@.len() + 1int
                    } else {
                        RECENT_HASH_LIMIT as int
                    },
                )
            },
            final(self).persistent == old(self).persistent,
            final(self).presence == old(self).presence,
            final(self).active_device_ids == old(self).active_device_ids,
            final(self).service_map == old(self).service_map,
            final(self).transfer_jobs == old(self).transfer_jobs,
            final(self).clipboard_history == old(self).clipboard_history,
            final(self).sync_status == old(self).sync_status,
            final(self).bridge == old(self).bridge,
    {
        if queue_contains_str(&self.recent_hashes, hash.as_str()) {
            return;
        }
        let ghost h = hash@;
        self.recent_hashes.push_front(hash);
        if self.recent_hashes.len() > RECENT_HASH_LIMIT {
            let _ = self.recent_hashes.pop_back();
        }
        proof {
            let old_v = old(self).recent_hashes@;
            let v = self.recent_hashes@;
            let n: int = if old_v.len() < RECENT_HASH_LIMIT {
                old_v.len() + 1int
            } else {
                RECENT_HASH_LIMIT as int
            };
            assert(v.len() == n);
            assert forall|i: int| 0 <= i < n implies #[trigger] v[i] == old_v.insert(0, v[0])[i] by {}
            assert(strings_view(v) =~= (seq![h] + strings_view(old_v)).take(n));
            assert(v[0]@ == h);
            assert forall|a: int, b: int| 0 <= a < b < v.len() implies v[a]@ != v[b]@ by {
                if a == 0 {
                    assert(v[b] == old_v[b - 1]);
                } else {
                    assert(v[a] == old_v[a - 1]);
                    assert(v[b] == old_v[b - 1]);
                }
            }
        }
    }

    /// Applies a change to the job of a transfer; returns the changed job.
    fn change_transfer_job(&mut self, transfer_id: &str, change: JobChange, now: i64) -> (r: Option<TransferJob>)
        ensures
            match job_index(old(self).transfer_jobs@, transfer_id@) {
                Some(k) => {
                    &&& final(self).transfer_jobs@.len() == old(self).transfer_jobs@.len()
                    &&& final(self).transfer_jobs@[k]@ == spec_changed_job(
                        old(self).transfer_jobs@[k]@,
                        change,
                        now,
                    )
                    &&& forall|i: int|
                        0 <= i < old(self).transfer_jobs@.len() && i != k
                            ==> final(self).transfer_jobs@[i] == old(self).transfer_jobs@[i]
                    &&& r matches Some(job) && job@ == final(self).transfer_jobs@[k]@
                },
                None => final(self).transfer_jobs == old(self).transfer_jobs && r is None,
            },
            final(self).persistent == old(self).persistent,
            final(self).presence == old(self).presence,
            final(self).active_device_ids == old(self).active_device_ids,
            final(self).service_map == old(self).service_map,
            final(self).recent_hashes == old(self).recent_hashes,
            final(self).clipboard_history == old(self).clipboard_history,
            final(self).sync_status == old(self).sync_status,
            final(self).bridge == old(self).bridge,
            final(self).listen_port == old(self).listen_port,
            final(self).sequence == old(self).sequence,
    {
        match find_job(&self.transfer_jobs, transfer_id) {
            Some(k) => {
                let mut job = self.transfer_jobs.remove(k);
                change_job(&mut job, change, now);
                let copy = job.copy();
                self.transfer_jobs.insert(k, job);
                Some(copy)
            },
            None => None,
        }
    }

    /// Moves a transfer to a stage, recording where its files are staged when given.
    pub fn set_transfer_stage(
        &mut self,
        transfer_id: &str,
        stage: TransferStage,
        staging_path: Option<String>,
        now: i64,
    ) -> (r: Option<TransferJob>)
        ensures
            match job_index(old(self).transfer_jobs@, transfer_id@) {
                Some(k) => {
                    &&& final(self).transfer_jobs@.len() == old(self).transfer_jobs@.len()
                    &&& final(self).transfer_jobs@[k]@ == spec_changed_job(
                        old(self).transfer_jobs@[k]@,
                        JobChange::Stage { stage, staging_path },
                        now,
                    )
                    &&& forall|i: int|
                        0 <= i < old(self).transfer_jobs@.len() && i != k
                            ==> final(self).transfer_jobs@[i] == old(self).transfer_jobs@[i]
                    &&& r matches Some(job) && job@ == final(self).transfer_jobs@[k]@
                },
                None => final(self).transfer_jobs == old(self).transfer_jobs && r is None,
            },
            final(self).persistent == old(self).persistent,
            final(self).presence == old(self).presence,
            final(self).active_device_ids == old(self).active_device_ids,
            final(self).recent_hashes == old(self).recent_hashes,
            final(self).clipboard_history == old(self).clipboard_history,
            final(self).sync_status == old(self).sync_status,
            final(self).service_map == old(self).service_map,
            final(self).bridge == old(self).bridge,
    {
        self.change_transfer_job(transfer_id, JobChange::Stage { stage, staging_path }, now)
    }

    /// Finishes a transfer in `stage`, unless it was canceled and this is not a cancellation;
    /// returns the job as it then stands.
    pub fn finish_transfer(
        &mut self,
        transfer_id: &str,
        stage: TransferStage,
        error_message: Option<String>,
        effect: FinishEffect,
        now: i64,
    ) -> (r: Option<TransferJob>)
        ensures
            match job_index(old(self).transfer_jobs@, transfer_id@) {
                Some(k) => {
                    &&& final(self).transfer_jobs@.len() == old(self).transfer_jobs@.len()
                    &&& final(self).transfer_jobs@[k]@ == spec_changed_job(
                        old(self).transfer_jobs@[k]@,
                        JobChange::Finish { stage, error_message, effect },
                        now,
                    )
                    &&& forall|i: int|
                        0 <= i < old(self).transfer_jobs@.len() && i != k
                            ==> final(self).transfer_jobs@[i] == old(self).transfer_jobs@[i]
                    &&& r matches Some(job) && job@ == final(self).transfer_jobs@[k]@
                },
                None => final(self).transfer_jobs == old(self).transfer_jobs && r is None,
            },
            final(self).persistent == old(self).persistent,
            final(self).presence == old(self).presence,
            final(self).active_device_ids == old(self).active_device_ids,
            final(self).recent_hashes == old(self).recent_hashes,
            final(self).clipboard_history == old(self).clipboard_history,
            final(self).sync_status == old(self).sync_status,
            final(self).service_map == old(self).service_map,
            final(self).bridge == old(self).bridge,
    {
        self.change_transfer_job(
            transfer_id,
            JobChange::Finish { stage, error_message, effect },
            now,
        )
    }

    /// A received transfer finished: its files wait for the user.
    pub fn complete_incoming_transfer(&mut self, transfer_id: &str, now: i64) -> (r: Option<TransferJob>)
        ensures
            match job_index(old(self).transfer_jobs@, transfer_id@) {
                Some(k) => final(self).transfer_jobs@[k]@ == spec_changed_job(
                    old(self).transfer_jobs@[k]@,
                    JobChange::Finish {
                        stage: TransferStage::Ready,
                        error_message: None,
                        effect: FinishEffect::AwaitPrompt,
                    },
                    now,
                ) && (r matches Some(job) && job@ == final(self).transfer_jobs@[k]@),
                None => final(self).transfer_jobs == old(self).transfer_jobs && r is None,
            },
            final(self).transfer_jobs@.len() == old(self).transfer_jobs@.len(),
            forall|i: int|
                0 <= i < old(self).transfer_jobs@.len() && job_index(old(self).transfer_jobs@, transfer_id@)
                    != Some(i) ==> final(self).transfer_jobs@[i] == old(self).transfer_jobs@[i],
            final(self).persistent == old(self).persistent,
            final(self).presence == old(self).presence,
            final(self).active_device_ids == old(self).active_device_ids,
            final(self).recent_hashes == old(self).recent_hashes,
            final(self).clipboard_history == old(self).clipboard_history,
            final(self).sync_status == old(self).sync_status,
    {
        self.finish_transfer(transfer_id, TransferStage::Ready, None, FinishEffect::AwaitPrompt, now)
    }

    /// A sent transfer finished: nothing is left to place.
    pub fn complete_outbound_transfer(&mut self, transfer_id: &str, now: i64)
        ensures
            match job_index(old(self).transfer_jobs@, transfer_id@) {
                Some(k) => final(self).transfer_jobs@[k]@ == spec_changed_job(
                    old(self).transfer_jobs@[k]@,
                    JobChange::Finish {
                        stage: TransferStage::Ready,
                        error_message: None,
                        effect: FinishEffect::Placed,
                    },
                    now,
                ),
                None => final(self).transfer_jobs == old(self).transfer_jobs,
            },
            final(self).transfer_jobs@.len() == old(self).transfer_jobs@.len(),
            forall|i: int|
                0 <= i < old(self).transfer_jobs@.len() && job_index(old(self).transfer_jobs@, transfer_id@)
                    != Some(i) ==> final(self).transfer_jobs@[i] == old(self).transfer_jobs@[i],
            final(self).persistent == old(self).persistent,
            final(self).presence == old(self).presence,
            final(self).active_device_ids == old(self).active_device_ids,
            final(self).recent_hashes == old(self).recent_hashes,
            final(self).clipboard_history == old(self).clipboard_history,
            final(self).sync_status == old(self).sync_status,
    {
        let _ = self.finish_transfer(transfer_id, TransferStage::Ready, None, FinishEffect::Placed, now);
    }

    /// A transfer failed with `message`.
    pub fn fail_transfer(&mut self, transfer_id: &str, message: String, now: i64) -> (r: Option<TransferJob>)
        ensures
            match job_index(old(self).transfer_jobs@, transfer_id@) {
                Some(k) => final(self).transfer_jobs@[k]@ == spec_changed_job(
                    old(self).transfer_jobs@[k]@,
                    JobChange::Finish {
                        stage: TransferStage::Failed,
                        error_message: Some(message),
                        effect: FinishEffect::NotReady,
                    },
                    now,
                ) && (r matches Some(job) && job@ == final(self).transfer_jobs@[k]@),
                None => final(self).transfer_jobs == old(self).transfer_jobs && r is None,
            },
            final(self).transfer_jobs@.len() == old(self).transfer_jobs@.len(),
            forall|i: int|
                0 <= i < old(self).transfer_jobs@.len() && job_index(old(self).transfer_jobs@, transfer_id@)
                    != Some(i) ==> final(self).transfer_jobs@[i] == old(self).transfer_jobs@[i],
            final(self).persistent == old(self).persistent,
            final(self).presence == old(self).presence,
            final(self).active_device_ids == old(self).active_device_ids,
            final(self).recent_hashes == old(self).recent_hashes,
            final(self).clipboard_history == old(self).clipboard_history,
            final(self).sync_status == old(self).sync_status,
    {
        self.finish_transfer(
            transfer_id,
            TransferStage::Failed,
            Some(message),
            FinishEffect::NotReady,
            now,
        )
    }

    /// The user or the relay canceled a transfer.
    pub fn cancel_transfer(&mut self, transfer_id: &str, now: i64)
        ensures
            match job_index(old(self).transfer_jobs@, transfer_id@) {
                Some(k) => final(self).transfer_jobs@[k]@ == spec_changed_job(
                    old(self).transfer_jobs@[k]@,
                    JobChange::Finish {
                        stage: TransferStage::Canceled,
                        error_message: None,
                        effect: FinishEffect::NotReady,
                    },
                    now,
                ),
                None => final(self).transfer_jobs == old(self).transfer_jobs,
            },
            final(self).transfer_jobs@.len() == old(self).transfer_jobs@.len(),
            forall|i: int|
                0 <= i < old(self).transfer_jobs@.len() && job_index(old(self).transfer_jobs@, transfer_id@)
                    != Some(i) ==> final(self).transfer_jobs@[i] == old(self).transfer_jobs@[i],
            final(self).persistent == old(self).persistent,
            final(self).presence == old(self).presence,
            final(self).active_device_ids == old(self).active_device_ids,
            final(self).recent_hashes == old(self).recent_hashes,
            final(self).clipboard_history == old(self).clipboard_history,
            final(self).sync_status == old(self).sync_status,
    {
        let _ = self.finish_transfer(transfer_id, TransferStage::Canceled, None, FinishEffect::NotReady, now);
    }

    /// The user canceled a transfer from the list.
    pub fn cancel_transfer_job(&mut self, transfer_id: &str, now: i64)
        ensures
            match job_index(old(self).transfer_jobs@, transfer_id@) {
                Some(k) => final(self).transfer_jobs@[k]@ == spec_changed_job(
                    old(self).transfer_jobs@[k]@,
                    JobChange::Finish {
                        stage: TransferStage::Canceled,
                        error_message: None,
                        effect: FinishEffect::NotReady,
                    },
                    now,
                ),
                None => final(self).transfer_jobs == old(self).transfer_jobs,
            },
            final(self).transfer_jobs@.len() == old(self).transfer_jobs@.len(),
            forall|i: int|
                0 <= i < old(self).transfer_jobs@.len() && job_index(old(self).transfer_jobs@, transfer_id@)
                    != Some(i) ==> final(self).transfer_jobs@[i] == old(self).transfer_jobs@[i],
            final(self).persistent == old(self).persistent,
            final(self).presence == old(self).presence,
            final(self).clipboard_history == old(self).clipboard_history,
    {
        self.cancel_transfer(transfer_id, now);
    }

    /// More of a transfer arrived.
    pub fn increment_transfer_progress(&mut self, transfer_id: &str, bytes_delta: u64, entries_delta: u32)
        ensures
            match job_index(old(self).transfer_jobs@, transfer_id@) {
                Some(k) => final(self).transfer_jobs@[k]@ == spec_changed_job(
                    old(self).transfer_jobs@[k]@,
                    JobChange::Progress { bytes: bytes_delta, entries: entries_delta },
                    0,
                ),
                None => final(self).transfer_jobs == old(self).transfer_jobs,
            },
            forall|i: int|
                0 <= i < old(self).transfer_jobs@.len() && Some(i) != job_index(
                    old(self).transfer_jobs@,
                    transfer_id@,
                ) ==> final(self).transfer_jobs@[i] == old(self).transfer_jobs@[i],
            final(self).transfer_jobs@.len() == old(self).transfer_jobs@.len(),
            forall|i: int|
                0 <= i < old(self).transfer_jobs@.len() && job_index(old(self).transfer_jobs@, transfer_id@)
                    != Some(i) ==> final(self).transfer_jobs@[i] == old(self).transfer_jobs@[i],
            final(self).persistent == old(self).persistent,
            final(self).presence == old(self).presence,
            final(self).clipboard_history == old(self).clipboard_history,
            final(self).sync_status == old(self).sync_status,
    {
        let _ = self.change_transfer_job(
            transfer_id,
            JobChange::Progress { bytes: bytes_delta, entries: entries_delta },
            0,
        );
    }

    /// The user placed, shared or exported a received transfer's files.
    pub fn mark_transfer_placed(&mut self, transfer_id: &str)
        ensures
            match job_index(old(self).transfer_jobs@, transfer_id@) {
                Some(k) => final(self).transfer_jobs@[k]@ == spec_changed_job(
                    old(self).transfer_jobs@[k]@,
                    JobChange::Placed,
                    0,
                ),
                None => final(self).transfer_jobs == old(self).transfer_jobs,
            },
            final(self).transfer_jobs@.len() == old(self).transfer_jobs@.len(),
            forall|i: int|
                0 <= i < old(self).transfer_jobs@.len() && job_index(old(self).transfer_jobs@, transfer_id@)
                    != Some(i) ==> final(self).transfer_jobs@[i] == old(self).transfer_jobs@[i],
            final(self).persistent == old(self).persistent,
            final(self).presence == old(self).presence,
            final(self).clipboard_history == old(self).clipboard_history,
            final(self).sync_status == old(self).sync_status,
    {
        let _ = self.change_transfer_job(transfer_id, JobChange::Placed, 0);
    }

    /// The user dismissed a received transfer's prompt.
    pub fn dismiss_transfer_job(&mut self, transfer_id: &str)
        ensures
            match job_index(old(self).transfer_jobs@, transfer_id@) {
                Some(k) => final(self).transfer_jobs@[k]@ == spec_changed_job(
                    old(self).transfer_jobs@[k]@,
                    JobChange::Dismissed,
                    0,
                ),
                None => final(self).transfer_jobs == old(self).transfer_jobs,
            },
            final(self).transfer_jobs@.len() == old(self).transfer_jobs@.len(),
            forall|i: int|
                0 <= i < old(self).transfer_jobs@.len() && job_index(old(self).transfer_jobs@, transfer_id@)
                    != Some(i) ==> final(self).transfer_jobs@[i] == old(self).transfer_jobs@[i],
            final(self).persistent == old(self).persistent,
            final(self).presence == old(self).presence,
            final(self).clipboard_history == old(self).clipboard_history,
            final(self).sync_status == old(self).sync_status,
    {
        let _ = self.change_transfer_job(transfer_id, JobChange::Dismissed, 0);
    }

    /// The job of a transfer.
    pub fn find_transfer_job(&self, transfer_id: &str) -> (r: Option<TransferJob>)
        ensures
            match job_index(self.transfer_jobs@, transfer_id@) {
                Some(k) => r matches Some(job) && job@ == self.transfer_jobs@[k]@,
                None => r is None,
            },
    {
        match find_job(&self.transfer_jobs, transfer_id) {
            Some(k) => Some(self.transfer_jobs[k].copy()),
            None => None,
        }
    }

    /// The job of a received transfer that is ready, for the user to act on; refused when
    /// there is no such job or it is not a received transfer that is ready.
    pub fn ready_inbound_job(&self, transfer_id: &str, purpose: ReadyPurpose) -> (r: Result<TransferJob, RelayError>)
        ensures
            match job_index(self.transfer_jobs@, transfer_id@) {
                None => r == Err::<TransferJob, RelayError>(RelayError::TransferNotFound),
                Some(k) => {
                    let job = self.transfer_jobs@[k];
                    if job.direction == TransferDirection::Inbound && job.stage == TransferStage::Ready {
                        r matches Ok(found) && found@ == job@
                    } else {
                        r == Err::<TransferJob, RelayError>(
                            match purpose {
                                ReadyPurpose::Place => RelayError::NotReadyToPlace,
                                ReadyPurpose::Share => RelayError::NotReadyToShare,
                                ReadyPurpose::Export => RelayError::NotReadyToExport,
                            },
                        )
                    }
                },
            },
    {
        let Some(job) = self.find_transfer_job(transfer_id) else {
            return Err(RelayError::TransferNotFound);
        };
        if job.direction != TransferDirection::Inbound || job.stage != TransferStage::Ready {
            return Err(
                match purpose {
                    ReadyPurpose::Place => RelayError::NotReadyToPlace,
                    ReadyPurpose::Share => RelayError::NotReadyToShare,
                    ReadyPurpose::Export => RelayError::NotReadyToExport,
                },
            );
        }
        Ok(job)
    }

    /// Replaces the job of a transfer, or adds it.
    pub fn upsert_transfer_job(&mut self, job: TransferJob)
        ensures
            final(self).transfer_jobs@ == match job_index(old(self).transfer_jobs@, job.transfer_id@) {
                Some(k) => old(self).transfer_jobs@.update(k, job),
                None => old(self).transfer_jobs@.push(job),
            },
            final(self).persistent == old(self).persistent,
            final(self).presence == old(self).presence,
            final(self).active_device_ids == old(self).active_device_ids,
            final(self).recent_hashes == old(self).recent_hashes,
            final(self).clipboard_history == old(self).clipboard_history,
            final(self).sync_status == old(self).sync_status,
            final(self).service_map == old(self).service_map,
            final(self).bridge == old(self).bridge,
    {
        match find_job(&self.transfer_jobs, job.transfer_id.as_str()) {
            Some(k) => self.transfer_jobs.set(k, job),
            None => self.transfer_jobs.push(job),
        }
    }

    /// The jobs in storage order, each with the actions that the user interface offers.
    pub fn decorated_transfer_jobs(&self) -> (jobs: Vec<TransferJob>)
        ensures
            jobs@.len() == self.transfer_jobs@.len(),
            forall|i: int|
                0 <= i < jobs@.len() ==> #[trigger] jobs@[i]@ == spec_decorated(
                    self.bridge.capabilities,
                    self.transfer_jobs@[i]@,
                ),
    {
        let mut jobs: Vec<TransferJob> = Vec::new();
        let mut i: usize = 0;
        while i < self.transfer_jobs.len()
            invariant
                i <= self.transfer_jobs@.len(),
                jobs@.len() == i,
                forall|j: int|
                    0 <= j < i ==> #[trigger] jobs@[j]@ == spec_decorated(
                        self.bridge.capabilities,
                        self.transfer_jobs@[j]@,
                    ),
            decreases self.transfer_jobs.len() - i,
        {
            let mut job = self.transfer_jobs[i].copy();
            decorate_transfer_job(&self.bridge.capabilities, &mut job);
            jobs.push(job);
            i = i + 1;
        }
        jobs
    }

    /// The transfer list: jobs in its order, each with the actions the user interface offers.
    pub fn list_transfer_jobs(&self) -> (jobs: Vec<TransferJob>)
        ensures
            jobs@.len() == self.transfer_jobs@.len(),
            forall|i: int|
                0 <= i < jobs@.len() ==> #[trigger] jobs@[i]@ == spec_decorated(
                    self.bridge.capabilities,
                    insertion_sorted(jobs_view(self.transfer_jobs@), job_lt())[i],
                ),
    {
        let mut jobs = sort_transfer_jobs(&self.transfer_jobs);
        proof {
            crate::seqs::insertion_sort_permutes(jobs_view(self.transfer_jobs@), job_lt());
        }
        let ghost sorted = jobs_view(jobs@);
        let mut i: usize = 0;
        while i < jobs.len()
            invariant
                i <= jobs@.len(),
                jobs@.len() == sorted.len(),
                forall|j: int| i <= j < jobs@.len() ==> jobs@[j]@ == sorted[j],
                forall|j: int|
                    0 <= j < i ==> #[trigger] jobs@[j]@ == spec_decorated(self.bridge.capabilities, sorted[j]),
            decreases jobs.len() - i,
        {
            let mut job = jobs.remove(i);
            decorate_transfer_job(&self.bridge.capabilities, &mut job);
            jobs.insert(i, job);
            i = i + 1;
        }
        jobs
    }

    /// Records a clipboard in the history: it goes first, and an earlier record of the same
    /// clipboard (same hash and kind, from the same device) is dropped.
    pub fn push_clipboard_history(&mut self, entry: ClipboardHistoryEntry)
        ensures
            final(self).clipboard_history@ == spec_history_with(old(self).clipboard_history@, entry),
            final(self).persistent == old(self).persistent,
            final(self).presence == old(self).presence,
            final(self).active_device_ids == old(self).active_device_ids,
            final(self).service_map == old(self).service_map,
            final(self).recent_hashes == old(self).recent_hashes,
            final(self).transfer_jobs == old(self).transfer_jobs,
            final(self).sync_status == old(self).sync_status,
            final(self).bridge == old(self).bridge,
            final(self).listen_port == old(self).listen_port,
            final(self).sequence == old(self).sequence,
    {
        let ghost h = old(self).clipboard_history@;
        let ghost keep = other_clip(entry);
        let mut i: usize = 0;
        let ghost mut j: int = 0;
        assert(h.take(0).filter(keep) =~= Seq::<ClipboardHistoryEntry>::empty());
        assert(h.skip(0) =~= h);
        while i < self.clipboard_history.len()
            invariant
                0 <= j <= h.len(),
                i <= self.clipboard_history@.len(),
                keep == other_clip(entry),
                self.clipboard_history@.take(i as int) == h.take(j).filter(keep),
                self.clipboard_history@.skip(i as int) == h.skip(j),
                self.persistent == old(self).persistent,
                self.presence == old(self).presence,
                self.active_device_ids == old(self).active_device_ids,
                self.service_map == old(self).service_map,
                self.recent_hashes == old(self).recent_hashes,
                self.transfer_jobs == old(self).transfer_jobs,
                self.sync_status == old(self).sync_status,
                self.bridge == old(self).bridge,
                self.listen_port == old(self).listen_port,
                self.sequence == old(self).sequence,
            decreases self.clipboard_history.len() - i,
        {
            let ghost before = self.clipboard_history@;
            let same = self.clipboard_history[i].hash == entry.hash
                && self.clipboard_history[i].kind == entry.kind
                && self.clipboard_history[i].origin_device_id == entry.origin_device_id;
            proof {
                assert(before.skip(i as int).len() > 0);
                assert(j < h.len());
                assert(before[i as int] == before.skip(i as int)[0]);
                assert(h[j] == h.skip(j)[0]);
                assert(before.skip(i as int).skip(1) =~= before.skip(i + 1));
                assert(h.skip(j).skip(1) =~= h.skip(j + 1));
                assert(h.take(j + 1) =~= h.take(j).push(h[j]));
                lemma_filter_push(h.take(j), keep, h[j]);
            }
            if same {
                self.clipboard_history.remove(i);
                proof {
                    assert(self.clipboard_history@.take(i as int) =~= before.take(i as int));
                    assert(self.clipboard_history@.skip(i as int) =~= before.skip(i + 1));
                    j = j + 1;
                }
            } else {
                proof {
                    assert(before.take(i + 1) =~= before.take(i as int).push(before[i as int]));
                    assert(before.skip(i + 1) =~= h.skip(j + 1));
                    j = j + 1;
                }
                i = i + 1;
            }
        }
        proof {
            assert(h.skip(j).len() == 0);
            assert(j == h.len());
            assert(h.take(j) =~= h);
            assert(self.clipboard_history@ =~= self.clipboard_history@.take(i as int));
        }
        self.clipboard_history.insert(0, entry);
        proof {
            assert(self.clipboard_history@ =~= spec_history_with(h, entry));
        }
    }

    /// Records a text or image clipboard that was written to `payload_path`.
    pub fn record_packet_history(
        &mut self,
        packet: &ClipboardPacket,
        source: ClipboardHistorySource,
        origin_device_id: &str,
        origin_device_name: &str,
        entry_id: String,
        payload_path: String,
        now: i64,
    )
        ensures
            final(self).clipboard_history@.len() > 0,
            packet_entry_matches(
                final(self).clipboard_history@[0],
                *packet,
                source,
                origin_device_id@,
                origin_device_name@,
                entry_id@,
                payload_path@,
                now,
            ),
            final(self).clipboard_history@ == spec_history_with(
                old(self).clipboard_history@,
                final(self).clipboard_history@[0],
            ),
            final(self).persistent == old(self).persistent,
            final(self).presence == old(self).presence,
            final(self).recent_hashes == old(self).recent_hashes,
            final(self).transfer_jobs == old(self).transfer_jobs,
            final(self).sync_status == old(self).sync_status,
    {
        let entry = packet_history_entry(
            packet,
            source,
            origin_device_id,
            origin_device_name,
            entry_id,
            payload_path,
            now,
        );
        self.push_clipboard_history(entry);
    }

    /// Records a copied file list whose paths were written to `payload_path`.
    pub fn record_local_file_history(
        &mut self,
        file_list: &LocalFileClipboard,
        origin_device_id: &str,
        origin_device_name: &str,
        entry_id: String,
        payload_path: String,
        now: i64,
    )
        ensures
            final(self).clipboard_history@.len() > 0,
            local_files_entry_matches(
                final(self).clipboard_history@[0],
                *file_list,
                origin_device_id@,
                origin_device_name@,
                entry_id@,
                payload_path@,
                now,
            ),
            final(self).clipboard_history@ == spec_history_with(
                old(self).clipboard_history@,
                final(self).clipboard_history@[0],
            ),
            final(self).persistent == old(self).persistent,
            final(self).presence == old(self).presence,
            final(self).recent_hashes == old(self).recent_hashes,
            final(self).transfer_jobs == old(self).transfer_jobs,
            final(self).sync_status == old(self).sync_status,
    {
        let entry = local_file_history_entry(
            file_list,
            origin_device_id,
            origin_device_name,
            entry_id,
            payload_path,
            now,
        );
        self.push_clipboard_history(entry);
    }

    /// Records a received transfer under its peer's shown name; a sent transfer is not
    /// recorded.
    pub fn record_received_transfer_history(&mut self, job: &TransferJob, entry_id: String, now: i64)
        requires
            old(self).inv(),
        ensures
            job.direction != TransferDirection::Inbound ==> final(self).clipboard_history
                == old(self).clipboard_history,
            job.direction == TransferDirection::Inbound ==> {
                &&& final(self).clipboard_history@.len() > 0
                &&& received_entry_matches(
                    final(self).clipboard_history@[0],
                    *job,
                    old(self).spec_device_name_for(job.peer_device_id@),
                    entry_id@,
                    now,
                )
                &&& final(self).clipboard_history@ == spec_history_with(
                    old(self).clipboard_history@,
                    final(self).clipboard_history@[0],
                )
            },
            final(self).persistent == old(self).persistent,
            final(self).presence == old(self).presence,
            final(self).recent_hashes == old(self).recent_hashes,
            final(self).transfer_jobs == old(self).transfer_jobs,
            final(self).sync_status == old(self).sync_status,
    {
        if job.direction != TransferDirection::Inbound {
            return;
        }
        let origin_device_name = self.device_name_for(job.peer_device_id.as_str());
        match received_transfer_history_entry(job, origin_device_name, entry_id, now) {
            Some(entry) => self.push_clipboard_history(entry),
            None => {},
        }
    }

    /// The position of a history entry.
    pub fn history_entry_index(&self, entry_id: &str) -> (r: Option<usize>)
        ensures
            match r {
                Some(k) => k < self.clipboard_history@.len() && first_index(
                    self.clipboard_history@,
                    entry_is(entry_id@),
                ) == Some(k as int),
                None => first_index(self.clipboard_history@, entry_is(entry_id@)) is None,
            },
    {
        let target = entry_id.to_owned();
        let mut i: usize = 0;
        while i < self.clipboard_history.len()
            invariant
                i <= self.clipboard_history@.len(),
                target@ == entry_id@,
                forall|j: int| 0 <= j < i ==> !entry_is(entry_id@)(#[trigger] self.clipboard_history@[j]),
            decreases self.clipboard_history.len() - i,
        {
            if self.clipboard_history[i].entry_id == target {
                proof {
                    crate::seqs::lemma_first_index_found(self.clipboard_history@, entry_is(entry_id@), i as int);
                }
                return Some(i);
            }
            i = i + 1;
        }
        proof {
            crate::seqs::lemma_first_index_none(self.clipboard_history@, entry_is(entry_id@));
        }
        None
    }

    /// The devices other than this one, as the user interface lists them: paired devices
    /// first, then online ones, then by shown name; devices that compare equal keep their
    /// presence order.
    pub fn collect_devices(&self, local_device_id: &str) -> (devices: Vec<TrustedDevice>)
        requires
            self.inv(),
        ensures
            devices_view(devices@) == insertion_sorted(
                spec_collected_devices(
                    self.presence@,
                    local_device_id@,
                    self.spec_remarks(),
                    self.active_device_ids@,
                ),
                device_lt(),
            ),
    {
        let ghost remarks = self.spec_remarks();
        let ghost all = self.presence@;
        let local = local_device_id.to_owned();
        let mut out: Vec<TrustedDevice> = Vec::new();
        let mut i: usize = 0;
        assert(all.take(0) =~= Seq::<DevicePresence>::empty());
        assert(devices_view(out@) =~= Seq::<TrustedDeviceView>::empty());
        while i < self.presence.len()
            invariant
                i <= self.presence@.len(),
                self.inv(),
                all == self.presence@,
                remarks == self.spec_remarks(),
                local@ == local_device_id@,
                devices_view(out@) == insertion_sorted(
                    spec_collected_devices(all.take(i as int), local_device_id@, remarks, self.active_device_ids@),
                    device_lt(),
                ),
            decreases self.presence.len() - i,
        {
            let ghost prevc = spec_collected_devices(all.take(i as int), local_device_id@, remarks, self.active_device_ids@);
            proof {
                assert(all.take(i + 1).drop_last() =~= all.take(i as int));
                assert(all.take(i + 1).last() == all[i as int]);
            }
            let d = &self.presence[i];
            if !(d.device_id == local) {
                let t = TrustedDevice {
                    device_id: d.device_id.clone(),
                    name: d.name.clone(),
                    remark: self.device_remark_for(d.device_id.as_str()),
                    platform: d.platform.clone(),
                    fingerprint: d.fingerprint.clone(),
                    auto_trusted: false,
                    capabilities: copy_strings(&d.capabilities),
                    last_seen: Some(d.last_seen),
                    last_sync_at: d.last_sync_at,
                    last_sync_status: copy_opt_string(&d.last_sync_status),
                    addresses: copy_addresses(&d.addresses),
                    host_name: copy_opt_string(&d.host_name),
                    port: if d.port > 0 {
                        Some(d.port)
                    } else {
                        None
                    },
                    is_online: d.is_online,
                    is_active: self.is_paired_device(d.device_id.as_str()),
                };
                let mut k: usize = 0;
                while k < out.len() && !device_less(&t, &out[k])
                    invariant
                        k <= out@.len(),
                        forall|j: int| 0 <= j < k ==> !device_lt()(t@, #[trigger] devices_view(out@)[j]),
                    decreases out.len() - k,
                {
                    k = k + 1;
                }
                proof {
                    lemma_first_greater_at(devices_view(out@), t@, device_lt(), k as int);
                    assert(t@ == spec_listed_device(
                        *d,
                        spec_remark_of(remarks, d.device_id@),
                        has_str(self.active_device_ids@, d.device_id@),
                    ));
                }
                let ghost before = out@;
                let ghost tv = t@;
                out.insert(k, t);
                assert(devices_view(out@) =~= devices_view(before).insert(k as int, tv));
                assert(prevc.push(tv).drop_last() =~= prevc);
                assert(spec_collected_devices(all.take(i + 1), local_device_id@, remarks, self.active_device_ids@) == prevc.push(tv));
            } else {
                assert(d.device_id@ == local_device_id@);
            }
            i = i + 1;
        }
        assert(all.take(all.len() as int) =~= all);
        out
    }

    /// The devices other than this one, as the user interface lists them.
    pub fn list_devices(&self) -> (devices: Vec<TrustedDevice>)
        requires
            self.inv(),
        ensures
            devices_view(devices@) == insertion_sorted(
                spec_collected_devices(self.presence@, self.local_id(), self.spec_remarks(), self.active_device_ids@),
                device_lt(),
            ),
    {
        self.collect_devices(self.persistent.local_device.device_id.as_str())
    }

    /// Everything the user interface shows: this device, the settings with the current
    /// pairing list, the listed devices, the status line and what the platform offers.
    pub fn snapshot(&self) -> (s: AppStateSnapshot)
        requires
            self.inv(),
        ensures
            s.local_device@ == self.persistent.local_device@,
            s.settings@ == (AppSettingsView {
                active_device_ids: strings_view(self.active_device_ids@),
                ..self.persistent.settings@
            }),
            devices_view(s.devices@) == insertion_sorted(
                spec_collected_devices(self.presence@, self.local_id(), self.spec_remarks(), self.active_device_ids@),
                device_lt(),
            ),
            s.sync_status == self.sync_status,
            s.runtime_platform == self.bridge.platform,
            s.capabilities == self.bridge.capabilities,
            s.permissions == self.bridge.permissions,
    {
        let mut settings = self.persistent.settings.copy();
        settings.active_device_ids = copy_strings(&self.active_device_ids);
        AppStateSnapshot {
            local_device: self.persistent.local_device.copy(),
            settings,
            devices: self.list_devices(),
            sync_status: self.sync_status.copy(),
            runtime_platform: self.runtime_platform(),
            capabilities: self.runtime_capabilities(),
            permissions: self.runtime_permissions(),
        }
    }

    /// Takes the hash of a clipboard seen on this device: it is ignored while sync is off
    /// or when it was seen recently, and remembered otherwise. Says whether the clipboard
    /// goes on.
    pub fn accept_local_hash(&mut self, hash: &str) -> (accepted: bool)
        requires
            old(self).inv(),
        ensures
            final(self).inv(),
            accepted == (old(self).persistent.settings.sync_enabled && !has_str(
                old(self).recent_hashes@,
                hash@,
            )),
            !accepted ==> *final(self) == *old(self),
            accepted ==> has_str(final(self).recent_hashes@, hash@),
            accepted ==> strings_view(final(self).recent_hashes@) == (seq![hash@] + strings_view(
                old(self).recent_hashes@,
            )).take(
                if old(self).recent_hashes@.len() < RECENT_HASH_LIMIT {
                    old(self).recent_hashes@.len() + 1int
                } else {
                    RECENT_HASH_LIMIT as int
                },
            ),
            final(self).persistent == old(self).persistent,
            final(self).presence == old(self).presence,
            final(self).active_device_ids == old(self).active_device_ids,
            final(self).transfer_jobs == old(self).transfer_jobs,
            final(self).clipboard_history == old(self).clipboard_history,
            final(self).sync_status == old(self).sync_status,
            final(self).bridge == old(self).bridge,
    {
        if !self.is_sync_enabled() || self.is_recent_hash(hash) {
            return false;
        }
        self.remember_hash(hash.to_owned());
        true
    }

    /// Routes a clipboard copied on this device: the targets are the paired devices that are
    /// online and can be dialed. With none, the status says that no device is paired or that
    /// the paired ones are offline; otherwise it says that the clipboard is being sent.
    pub fn route_local_packet(&mut self, meta: &ClipboardPayload, now: i64) -> (targets: Vec<ActiveTarget>)
        requires
            old(self).inv(),
        ensures
            final(self).inv(),
            targets@.map_values(|t: ActiveTarget| t@) == targets_for(
                old(self).active_device_ids@,
                old(self).presence@,
            ),
            final(self).same_but_status(old(self)),
            final(self).sync_status.updated_at == now,
            final(self).sync_status.last_payload == Some(*meta),
            targets@.len() == 0 ==> final(self).sync_status.state == SyncState::Discovering
                && opt_string_view(final(self).sync_status.message) == Some(
                if old(self).active_device_ids@.len() == 0 {
                    i18n::spec_no_paired_devices(old(self).spec_language())
                } else {
                    i18n::spec_paired_devices_offline(old(self).spec_language())
                },
            ),
            targets@.len() > 0 ==> final(self).sync_status.state == SyncState::Syncing
                && opt_string_view(final(self).sync_status.message) == Some(
                i18n::spec_sending(old(self).spec_language(), meta.kind, targets@.len() as usize),
            ),
    {
        let language = self.language();
        let targets = self.active_targets();
        if targets.len() == 0 {
            let message = if self.active_device_ids.len() == 0 {
                i18n::no_paired_devices(language)
            } else {
                i18n::paired_devices_offline(language)
            };
            self.set_sync_status(SyncState::Discovering, Some(message), Some(meta.copy()), now);
            return targets;
        }
        let message = i18n::sending(language, &meta.kind, targets.len());
        self.set_sync_status(SyncState::Syncing, Some(message), Some(meta.copy()), now);
        targets
    }

    /// Starts sending a copied file list to each target: every one gets a fresh transfer id
    /// and a job waiting to be laid out. Returns the ids with their targets.
    pub fn begin_outbound_transfers(&mut self, display_name: &str, now: i64) -> (started: Vec<(String, ActiveTarget)>)
        requires
            old(self).inv(),
        ensures
            final(self).inv(),
            started@.map_values(|s: (String, ActiveTarget)| s.1@) == targets_for(
                old(self).active_device_ids@,
                old(self).presence@,
            ),
            jobs_view(final(self).transfer_jobs@) == spec_upserted_all(
                jobs_view(old(self).transfer_jobs@),
                started@.map_values(
                    |s: (String, ActiveTarget)|
                        spec_outbound_job(s.0@, s.1.device_id@, display_name@, now),
                ),
            ),
            final(self).persistent == old(self).persistent,
            final(self).presence == old(self).presence,
            final(self).active_device_ids == old(self).active_device_ids,
            final(self).recent_hashes == old(self).recent_hashes,
            final(self).clipboard_history == old(self).clipboard_history,
            final(self).sync_status == old(self).sync_status,
            forall|j: int| 0 <= j < started@.len() ==> is_uuid_text(#[trigger] started@[j].0@),
    {
        let targets = self.active_targets();
        let ghost tv = targets@.map_values(|t: ActiveTarget| t@);
        let mut started: Vec<(String, ActiveTarget)> = Vec::new();
        let mut i: usize = 0;
        while i < targets.len()
            invariant
                i <= targets@.len(),
                self.inv(),
                tv == targets@.map_values(|t: ActiveTarget| t@),
                tv == targets_for(old(self).active_device_ids@, old(self).presence@),
                started@.len() == i,
                forall|j: int| 0 <= j < started@.len() ==> is_uuid_text(#[trigger] started@[j].0@),
                started@.map_values(|s: (String, ActiveTarget)| s.1@) == tv.take(i as int),
                jobs_view(self.transfer_jobs@) == spec_upserted_all(
                    jobs_view(old(self).transfer_jobs@),
                    started@.map_values(
                        |s: (String, ActiveTarget)|
                            spec_outbound_job(s.0@, s.1.device_id@, display_name@, now),
                    ),
                ),
                self.persistent == old(self).persistent,
                self.presence == old(self).presence,
                self.active_device_ids == old(self).active_device_ids,
                self.service_map == old(self).service_map,
                self.recent_hashes == old(self).recent_hashes,
                self.clipboard_history == old(self).clipboard_history,
                self.sync_status == old(self).sync_status,
            decreases targets.len() - i,
        {
            let transfer_id = fresh_uuid();
            let target = targets[i].clone_target();
            let job = new_outbound_job(
                transfer_id.clone(),
                target.device_id.clone(),
                display_name.to_owned(),
                now,
            );
            let ghost before_jobs = self.transfer_jobs@;
            let ghost jv = job@;
            self.upsert_transfer_job(job);
            let ghost before = started@;
            started.push((transfer_id, target));
            proof {
                let f = |s: (String, ActiveTarget)| spec_outbound_job(s.0@, s.1.device_id@, display_name@, now);
                assert(started@.map_values(f) =~= before.map_values(f).push(jv));
                assert(started@.map_values(f).drop_last() =~= before.map_values(f));
                assert(jobs_view(self.transfer_jobs@) =~= spec_upserted(jobs_view(before_jobs), jv));
                assert(started@.map_values(|s: (String, ActiveTarget)| s.1@) =~= tv.take(i + 1));
            }
            i = i + 1;
        }
        assert(tv.take(tv.len() as int) =~= tv);
        started
    }

    /// Whether a clipboard that a peer sent is for this device to take: sync is on, it is
    /// addressed here, it does not come from here and was not seen recently.
    pub fn is_envelope_for_us(&self, envelope: &ClipboardEnvelope) -> (take: bool)
        ensures
            take == (self.persistent.settings.sync_enabled && envelope.target_device_id@
                == self.local_id() && envelope.origin_device_id@ != self.local_id() && !has_str(
                self.recent_hashes@,
                envelope.content_hash@,
            )),
    {
        if !self.is_sync_enabled() {
            return false;
        }
        if !(envelope.target_device_id == self.persistent.local_device.device_id) {
            return false;
        }
        if envelope.origin_device_id == self.persistent.local_device.device_id {
            return false;
        }
        !self.is_recent_hash(envelope.content_hash.as_str())
    }

    /// Takes a clipboard that a peer sent: its kind is read from the wire number and its
    /// packet built; its hash is then remembered so that writing it does not echo back.
    pub fn accept_incoming_envelope(&mut self, envelope: ClipboardEnvelope) -> (r: Result<ClipboardPacket, RelayError>)
        requires
            old(self).inv(),
        ensures
            final(self).inv(),
            match spec_kind_from_i32(envelope.payload_kind) {
                Err(e) => r == Err::<ClipboardPacket, RelayError>(e) && *final(self) == *old(self),
                Ok(kind) => if kind == ClipboardPayloadKind::Image && envelope.payload_bytes@.len()
                    > MAX_IMAGE_BYTES {
                    r == Err::<ClipboardPacket, RelayError>(RelayError::ImageTooLarge) && *final(self)
                        == *old(self)
                } else {
                    &&& r matches Ok(packet)
                    &&& packet.meta == (ClipboardPayload {
                        kind,
                        mime: envelope.mime,
                        size: envelope.payload_bytes@.len() as usize,
                        hash: envelope.content_hash,
                    })
                    &&& packet.bytes == envelope.payload_bytes
                    &&& has_str(final(self).recent_hashes@, envelope.content_hash@)
                    &&& final(self).persistent == old(self).persistent
                    &&& final(self).presence == old(self).presence
                    &&& final(self).active_device_ids == old(self).active_device_ids
                    &&& final(self).sync_status == old(self).sync_status
                },
            },
    {
        let kind = match kind_from_i32(envelope.payload_kind) {
            Ok(kind) => kind,
            Err(e) => return Err(e),
        };
        let packet = match packet_from_remote(
            kind,
            envelope.mime,
            envelope.content_hash,
            envelope.payload_bytes,
        ) {
            Ok(packet) => packet,
            Err(e) => return Err(e),
        };
        self.remember_hash(packet.meta.hash.clone());
        Ok(packet)
    }

    /// Records a clipboard that a peer sent once it is on the clipboard: the peer's last sync
    /// and the status line say it was received.
    pub fn record_received_packet(&mut self, origin_device_id: &str, meta: &ClipboardPayload, now: i64)
        requires
            old(self).inv(),
        ensures
            final(self).inv(),
            final(self).sync_status.state == SyncState::Connected,
            opt_string_view(final(self).sync_status.message) == Some(
                i18n::spec_received(old(self).spec_language(), meta.kind),
            ),
            final(self).sync_status.last_payload == Some(*meta),
            match presence_index(old(self).presence@, origin_device_id@) {
                Some(k) => final(self).presence@[k].last_sync_at == Some(now)
                    && opt_string_view(final(self).presence@[k].last_sync_status) == Some(
                    i18n::spec_received(old(self).spec_language(), meta.kind),
                ),
                None => final(self).presence == old(self).presence,
            },
            final(self).persistent == old(self).persistent,
            final(self).active_device_ids == old(self).active_device_ids,
            final(self).transfer_jobs == old(self).transfer_jobs,
    {
        let message = i18n::received(self.language(), &meta.kind);
        self.record_device_sync(origin_device_id, message, Some(meta.copy()), now);
    }

    /// Checks a transfer that a peer offers: refused while sync is off, when it is addressed
    /// elsewhere, or when it comes from an unpaired device that automatic pairing does not
    /// pair. Returns the peer to tell of an automatic pairing.
    pub fn admit_incoming_offer(&mut self, offer: &IncomingTransferOffer, now: i64) -> (r: (
        Option<ActiveTarget>,
        Result<(), RelayError>,
    ))
        requires
            old(self).inv(),
        ensures
            final(self).inv(),
            !old(self).persistent.settings.sync_enabled ==> r.1 == Err::<(), RelayError>(
                RelayError::FileRelayPaused,
            ) && *final(self) == *old(self) && r.0 is None,
            old(self).persistent.settings.sync_enabled && offer.target_device_id@ != old(
                self,
            ).local_id() ==> r.1 == Err::<(), RelayError>(RelayError::TransferNotAddressedHere)
                && *final(self) == *old(self) && r.0 is None,
            old(self).persistent.settings.sync_enabled && offer.target_device_id@ == old(
                self,
            ).local_id() ==> {
                if has_str(old(self).active_device_ids@, offer.origin_device_id@) {
                    r.1 == Ok::<(), RelayError>(()) && *final(self) == *old(self) && r.0 is None
                } else if old(self).spec_auto_pair_candidate() == Some(offer.origin_device_id@) {
                    &&& r.1 == Ok::<(), RelayError>(())
                    &&& final(self).pairing_applied(
                        old(self),
                        offer.origin_device_id@,
                        true,
                        PairingChangeSource::Auto,
                    )
                    &&& final(self).status_is_summary(old(self).sync_status.last_payload, now)
                    &&& r.0 matches Some(t) && old(self).spec_resolve(offer.origin_device_id@)
                        == Ok::<ActiveTargetView, RelayError>(t@)
                } else {
                    r.1 == Err::<(), RelayError>(RelayError::TransferFromUnpairedDevice)
                        && *final(self) == *old(self) && r.0 is None
                }
            },
    {
        if !self.is_sync_enabled() {
            return (None, Err(RelayError::FileRelayPaused));
        }
        if !(offer.target_device_id == self.persistent.local_device.device_id) {
            return (None, Err(RelayError::TransferNotAddressedHere));
        }
        if self.is_paired_device(offer.origin_device_id.as_str()) {
            return (None, Ok(()));
        }
        let notify = self.auto_pair_device_if_only_online_peer(offer.origin_device_id.as_str(), now);
        if notify.is_some() {
            return (notify, Ok(()));
        }
        (None, Err(RelayError::TransferFromUnpairedDevice))
    }

    /// Puts in the job of a transfer that a peer offered and this device admitted.
    pub fn begin_incoming_transfer(&mut self, offer: &IncomingTransferOffer, now: i64) -> (job: TransferJob)
        ensures
            job@ == spec_inbound_job(*offer, now),
            jobs_view(final(self).transfer_jobs@) == spec_upserted(
                jobs_view(old(self).transfer_jobs@),
                spec_inbound_job(*offer, now),
            ),
            final(self).persistent == old(self).persistent,
            final(self).presence == old(self).presence,
            final(self).active_device_ids == old(self).active_device_ids,
            final(self).recent_hashes == old(self).recent_hashes,
            final(self).clipboard_history == old(self).clipboard_history,
            final(self).sync_status == old(self).sync_status,
            final(self).service_map == old(self).service_map,
            final(self).bridge == old(self).bridge,
    {
        let job = new_inbound_job(offer, now);
        let copy = job.copy();
        let ghost before = self.transfer_jobs@;
        let ghost jv = job@;
        self.upsert_transfer_job(job);
        assert(jobs_view(self.transfer_jobs@) =~= spec_upserted(jobs_view(before), jv));
        copy
    }

    /// Takes a step of sending a transfer: records what happened on its job and says what
    /// the caller does next. Laying out fills in the job and goes on to wait for a slot,
    /// unless the transfer was canceled meanwhile; a slot moves the job to downloading and
    /// sends the offer; the end of sending completes, fails or cancels the job.
    pub fn outbound_transfer_step(
        &mut self,
        transfer_id: &str,
        target_device_id: &str,
        event: OutboundEvent,
        canceled: bool,
        now: i64,
    ) -> (action: OutboundAction)
        ensures
            match job_index(old(self).transfer_jobs@, transfer_id@) {
                Some(k) => {
                    &&& final(self).transfer_jobs@[k]@ == spec_outbound_effect(
                        old(self).transfer_jobs@[k]@,
                        event,
                        canceled,
                        now,
                    )
                    &&& forall|i: int|
                        0 <= i < old(self).transfer_jobs@.len() && i != k
                            ==> final(self).transfer_jobs@[i] == old(self).transfer_jobs@[i]
                },
                None => final(self).transfer_jobs == old(self).transfer_jobs,
            },
            match event {
                OutboundEvent::Prepared(_) => if canceled {
                    action is Stop
                } else {
                    action is AcquireLease
                },
                OutboundEvent::SlotsBusy => action is AcquireLease,
                OutboundEvent::LeaseAcquired(p) => action matches OutboundAction::Send(offer) && {
                    &&& offer.transfer_id@ == transfer_id@
                    &&& offer.origin_device_id@ == old(self).local_id()
                    &&& offer.target_device_id@ == target_device_id@
                    &&& offer.display_name@ == p.display_name@
                    &&& offer.total_bytes == p.total_bytes
                    &&& offer.total_entries == p.entries@.len() as u32
                    &&& offer.entries@ == spec_transfer_entries(p.entries@)
                    &&& strings_view(offer.top_level_names@) == strings_view(p.top_level_names@)
                    &&& opt_string_view(offer.warning_message) == opt_string_view(p.warning_message)
                },
                _ => action is Stop,
            },
            final(self).transfer_jobs@.len() == old(self).transfer_jobs@.len(),
            final(self).persistent == old(self).persistent,
            final(self).presence == old(self).presence,
            final(self).active_device_ids == old(self).active_device_ids,
            final(self).recent_hashes == old(self).recent_hashes,
            final(self).clipboard_history == old(self).clipboard_history,
            final(self).sync_status == old(self).sync_status,
    {
        let ghost j0 = self.transfer_jobs@;
        let cancel = JobChange::Finish {
            stage: TransferStage::Canceled,
            error_message: None,
            effect: FinishEffect::NotReady,
        };
        match event {
            OutboundEvent::Prepared(p) => {
                let change = JobChange::Laid {
                    display_name: p.display_name,
                    total_bytes: p.total_bytes,
                    total_entries: p.entries.len() as u32,
                    entries: transfer_entries(&p.entries),
                    top_level_names: p.top_level_names,
                    warning_message: p.warning_message,
                };
                let _ = self.change_transfer_job(transfer_id, change, now);
                if canceled {
                    let ghost j1 = self.transfer_jobs@;
                    proof {
                        if let Some(k) = job_index(j0, transfer_id@) {
                            lemma_job_index_kept(j0, j1, transfer_id@, k);
                        }
                    }
                    let _ = self.change_transfer_job(transfer_id, cancel, now);
                    return OutboundAction::Stop;
                }
                OutboundAction::AcquireLease
            },
            OutboundEvent::PrepareFailed(message) => {
                let _ = self.change_transfer_job(
                    transfer_id,
                    JobChange::Finish {
                        stage: TransferStage::Failed,
                        error_message: Some(message),
                        effect: FinishEffect::NotReady,
                    },
                    now,
                );
                OutboundAction::Stop
            },
            OutboundEvent::LeaseAcquired(p) => {
                let _ = self.change_transfer_job(
                    transfer_id,
                    JobChange::Stage { stage: TransferStage::Downloading, staging_path: None },
                    now,
                );
                let offer = offer_for(
                    transfer_id,
                    self.persistent.local_device.device_id.as_str(),
                    target_device_id,
                    &p,
                );
                OutboundAction::Send(offer)
            },
            OutboundEvent::SlotsBusy => {
                let _ = self.change_transfer_job(
                    transfer_id,
                    JobChange::Stage { stage: TransferStage::Queued, staging_path: None },
                    now,
                );
                OutboundAction::AcquireLease
            },
            OutboundEvent::LeaseFailed(message) => {
                let _ = self.change_transfer_job(
                    transfer_id,
                    JobChange::Finish {
                        stage: TransferStage::Failed,
                        error_message: Some(message),
                        effect: FinishEffect::NotReady,
                    },
                    now,
                );
                OutboundAction::Stop
            },
            OutboundEvent::SendFinished(result) => {
                let change = if canceled {
                    cancel
                } else {
                    match result {
                        Ok(_) => JobChange::Finish {
                            stage: TransferStage::Ready,
                            error_message: None,
                            effect: FinishEffect::Placed,
                        },
                        Err(message) => JobChange::Finish {
                            stage: TransferStage::Failed,
                            error_message: Some(message),
                            effect: FinishEffect::NotReady,
                        },
                    }
                };
                let _ = self.change_transfer_job(transfer_id, change, now);
                OutboundAction::Stop
            },
        }
    }

    /// What restoring a history entry takes: the text or image file to read, the received
    /// files to look for, or the list of copied paths to read. Refused when the entry is
    /// unknown or what it kept is missing.
    pub fn restore_plan(&self, entry_id: &str) -> (r: Result<RestorePlan, RelayError>)
        ensures
            match first_index(self.clipboard_history@, entry_is(entry_id@)) {
                None => r == Err::<RestorePlan, RelayError>(RelayError::HistoryEntryNotFound),
                Some(k) => {
                    let e = self.clipboard_history@[k];
                    match e.kind {
                        ClipboardHistoryKind::FileRefs => match e.source {
                            ClipboardHistorySource::Transfer => r matches Ok(
                                RestorePlan::ReceivedFiles { candidates, hash },
                            ) && strings_view(candidates@) == spec_payload_path_candidates(
                                opt_string_view(e.payload_path),
                                e.top_level_names@,
                            ) && hash@ == e.hash@,
                            _ => match e.payload_path {
                                None => r == Err::<RestorePlan, RelayError>(
                                    RelayError::ClipboardFileListMissing,
                                ),
                                Some(p) => r matches Ok(RestorePlan::CopiedFiles { path, hash })
                                    && path@ == p@ && hash@ == e.hash@,
                            },
                        },
                        _ => match e.payload_path {
                            None => r == Err::<RestorePlan, RelayError>(
                                RelayError::ClipboardPayloadMissing,
                            ),
                            Some(p) => r matches Ok(RestorePlan::Payload { path, kind, mime, hash })
                                && path@ == p@ && hash@ == e.hash@ && kind == (if e.kind
                                == ClipboardHistoryKind::Text {
                                ClipboardPayloadKind::Text
                            } else {
                                ClipboardPayloadKind::Image
                            }) && mime@ == match e.mime {
                                Some(m) => m@,
                                None => "application/octet-stream"@,
                            },
                        },
                    }
                },
            },
    {
        let k = match self.history_entry_index(entry_id) {
            Some(k) => k,
            None => return Err(RelayError::HistoryEntryNotFound),
        };
        let e = &self.clipboard_history[k];
        match e.kind {
            ClipboardHistoryKind::FileRefs => {
                match e.source {
                    ClipboardHistorySource::Transfer => {
                        let candidates = candidates_under(&e.payload_path, &e.top_level_names);
                        Ok(RestorePlan::ReceivedFiles { candidates, hash: e.hash.clone() })
                    },
                    _ => match &e.payload_path {
                        None => Err(RelayError::ClipboardFileListMissing),
                        Some(p) => Ok(RestorePlan::CopiedFiles { path: p.clone(), hash: e.hash.clone() }),
                    },
                }
            },
            _ => match &e.payload_path {
                None => Err(RelayError::ClipboardPayloadMissing),
                Some(p) => {
                    let kind = if e.kind == ClipboardHistoryKind::Text {
                        ClipboardPayloadKind::Text
                    } else {
                        ClipboardPayloadKind::Image
                    };
                    let mime = match &e.mime {
                        Some(m) => m.clone(),
                        None => "application/octet-stream".to_owned(),
                    };
                    Ok(RestorePlan::Payload { path: p.clone(), kind, mime, hash: e.hash.clone() })
                },
            },
        }
    }

    /// Puts a kept text or image back: its packet is built from the bytes read, and its hash
    /// remembered so that writing it does not relay it again.
    pub fn restore_payload(
        &mut self,
        kind: ClipboardPayloadKind,
        mime: String,
        hash: String,
        bytes: Vec<u8>,
    ) -> (r: Result<ClipboardPacket, RelayError>)
        requires
            old(self).inv(),
        ensures
            final(self).inv(),
            kind == ClipboardPayloadKind::Image && bytes@.len() > MAX_IMAGE_BYTES ==> r == Err::<
                ClipboardPacket,
                RelayError,
            >(RelayError::ImageTooLarge) && *final(self) == *old(self),
            !(kind == ClipboardPayloadKind::Image && bytes@.len() > MAX_IMAGE_BYTES) ==> {
                &&& r matches Ok(packet)
                &&& packet.meta == (ClipboardPayload { kind, mime, size: bytes@.len() as usize, hash })
                &&& packet.bytes == bytes
                &&& has_str(final(self).recent_hashes@, hash@)
                &&& final(self).persistent == old(self).persistent
                &&& final(self).clipboard_history == old(self).clipboard_history
            },
    {
        let ghost h = hash;
        let packet = match packet_from_remote(kind, mime, hash, bytes) {
            Ok(p) => p,
            Err(e) => return Err(e),
        };
        self.remember_hash(packet.meta.hash.clone());
        Ok(packet)
    }

    /// Puts kept files back: refused when none of them exists any more; otherwise the
    /// list's hash is remembered and the existing paths are what goes on the clipboard.
    pub fn restore_files(&mut self, hash: String, existing_paths: Vec<String>) -> (r: Result<Vec<String>, RelayError>)
        requires
            old(self).inv(),
        ensures
            final(self).inv(),
            existing_paths@.len() == 0 ==> r == Err::<Vec<String>, RelayError>(RelayError::NoFilesToRestore)
                && *final(self) == *old(self),
            existing_paths@.len() > 0 ==> r == Ok::<Vec<String>, RelayError>(existing_paths)
                && has_str(final(self).recent_hashes@, hash@) && final(self).persistent == old(
                self,
            ).persistent && final(self).clipboard_history == old(self).clipboard_history,
    {
        if existing_paths.len() == 0 {
            return Err(RelayError::NoFilesToRestore);
        }
        self.remember_hash(hash);
        Ok(existing_paths)
    }

    /// Before received files go on the clipboard: refused when none of them exists any more;
    /// otherwise the hash of the file list is remembered so that it is not relayed back.
    pub fn remember_placed_files(&mut self, existing_paths: &Vec<String>, stamps: &Vec<PathStamp>) -> (r: Result<(), RelayError>)
        requires
            old(self).inv(),
        ensures
            final(self).inv(),
            existing_paths@.len() == 0 ==> r == Err::<(), RelayError>(RelayError::ReceivedFilesMissing)
                && *final(self) == *old(self),
            existing_paths@.len() > 0 ==> r == Ok::<(), RelayError>(()) && has_str(
                final(self).recent_hashes@,
                spec_file_list_hash(stamps@),
            ) && final(self).persistent == old(self).persistent && final(self).transfer_jobs
                == old(self).transfer_jobs,
    {
        if existing_paths.len() == 0 {
            return Err(RelayError::ReceivedFilesMissing);
        }
        self.remember_hash(hash_paths(stamps));
        Ok(())
    }

    /// Shares a received transfer's existing files through the platform's share sheet, and
    /// marks them placed when that worked.
    pub fn share_received_transfer(&mut self, transfer_id: &str, existing_paths: &Vec<String>) -> (r: Result<(), RelayError>)
        ensures
            old(self).spec_ready_error(transfer_id@, ReadyPurpose::Share) matches Some(e) ==> r
                == Err::<(), RelayError>(e),
            old(self).spec_ready_error(transfer_id@, ReadyPurpose::Share) is None ==> r == Err::<
                (),
                RelayError,
            >(
                if existing_paths@.len() == 0 {
                    RelayError::NoTransferFiles
                } else if old(self).bridge.platform.spec_is_mobile() {
                    RelayError::ShareSheetUnavailable
                } else {
                    RelayError::ShareOnlyOnMobile
                },
            ),
            *final(self) == *old(self),
    {
        match self.ready_inbound_job(transfer_id, ReadyPurpose::Share) {
            Ok(_) => {},
            Err(e) => return Err(e),
        }
        match self.bridge.share_paths(existing_paths) {
            Ok(()) => {},
            Err(e) => return Err(e),
        }
        self.mark_transfer_placed(transfer_id);
        Ok(())
    }

    /// Exports a received transfer's existing files through the platform's file picker, and
    /// marks them placed when that worked.
    pub fn export_received_transfer(&mut self, transfer_id: &str, existing_paths: &Vec<String>) -> (r: Result<(), RelayError>)
        ensures
            old(self).spec_ready_error(transfer_id@, ReadyPurpose::Export) matches Some(e) ==> r
                == Err::<(), RelayError>(e),
            old(self).spec_ready_error(transfer_id@, ReadyPurpose::Export) is None ==> r == Err::<
                (),
                RelayError,
            >(
                if existing_paths@.len() == 0 {
                    RelayError::NoTransferFiles
                } else if old(self).bridge.platform.spec_is_mobile() {
                    RelayError::FileExportUnavailable
                } else {
                    RelayError::FileExportOnlyOnMobile
                },
            ),
            *final(self) == *old(self),
    {
        match self.ready_inbound_job(transfer_id, ReadyPurpose::Export) {
            Ok(_) => {},
            Err(e) => return Err(e),
        }
        match self.bridge.export_paths(existing_paths) {
            Ok(()) => {},
            Err(e) => return Err(e),
        }
        self.mark_transfer_placed(transfer_id);
        Ok(())
    }

    /// Why a transfer's files cannot be acted on, if they cannot.
    pub open spec fn spec_ready_error(&self, transfer_id: StringView, purpose: ReadyPurpose) -> Option<RelayError> {
        match job_index(self.transfer_jobs@, transfer_id) {
            None => Some(RelayError::TransferNotFound),
            Some(k) => {
                let job = self.transfer_jobs@[k];
                if job.direction == TransferDirection::Inbound && job.stage == TransferStage::Ready {
                    None
                } else {
                    Some(
                        match purpose {
                            ReadyPurpose::Place => RelayError::NotReadyToPlace,
                            ReadyPurpose::Share => RelayError::NotReadyToShare,
                            ReadyPurpose::Export => RelayError::NotReadyToExport,
                        },
                    )
                }
            },
        }
    }

    /// Discovery was switched off: the status line says so.
    pub fn discovery_stopped(&mut self, now: i64)
        ensures
            final(self).sync_status.state == SyncState::Paused,
            opt_string_view(final(self).sync_status.message) == Some(
                i18n::spec_discovery_disabled(old(self).spec_language()),
            ),
            final(self).sync_status.updated_at == now,
            final(self).sync_status.last_payload == old(self).sync_status.last_payload,
            final(self).same_but_status(old(self)),
    {
        let message = i18n::discovery_disabled(self.language());
        self.set_sync_status(SyncState::Paused, Some(message), None, now);
    }

    /// The clipboard history, newest first.
    pub fn list_clipboard_history(&self) -> (entries: Vec<ClipboardHistoryEntry>)
        ensures
            entries@.len() == self.clipboard_history@.len(),
            forall|i: int|
                0 <= i < entries@.len() ==> #[trigger] entries@[i].same_as(&self.clipboard_history@[i]),
    {
        let mut entries: Vec<ClipboardHistoryEntry> = Vec::new();
        let mut i: usize = 0;
        while i < self.clipboard_history.len()
            invariant
                i <= self.clipboard_history@.len(),
                entries@.len() == i,
                forall|j: int|
                    0 <= j < i ==> #[trigger] entries@[j].same_as(&self.clipboard_history@[j]),
            decreases self.clipboard_history.len() - i,
        {
            entries.push(self.clipboard_history[i].copy());
            i = i + 1;
        }
        entries
    }

    /// The user pairs or unpairs a device: the pairing blocks or unblocks automatic pairing,
    /// the status line is refreshed, and the peer to tell is returned. Refused for this
    /// device itself, and when pairing a peer that cannot be dialed.
    pub fn set_device_pairing(&mut self, device_id: &str, paired: bool, now: i64) -> (r: Result<
        Option<ActiveTarget>,
        RelayError,
    >)
        requires
            old(self).inv(),
        ensures
            final(self).inv(),
            r is Err <==> (device_id@ == old(self).local_id() || (paired && old(self).spec_resolve(
                device_id@,
            ) is Err)),
            device_id@ == old(self).local_id() ==> r == Err::<Option<ActiveTarget>, RelayError>(
                RelayError::CannotPairSelf,
            ),
            device_id@ != old(self).local_id() && paired && old(self).spec_resolve(device_id@) is Err
                ==> r == Err::<Option<ActiveTarget>, RelayError>(
                old(self).spec_resolve(device_id@)->Err_0,
            ),
            r is Err ==> *final(self) == *old(self),
            r matches Ok(target) ==> {
                &&& final(self).pairing_applied(old(self), device_id@, paired, PairingChangeSource::Manual)
                &&& final(self).status_is_summary(old(self).sync_status.last_payload, now)
                &&& match target {
                    Some(t) => old(self).spec_resolve(device_id@) == Ok::<ActiveTargetView, RelayError>(
                        t@,
                    ),
                    None => old(self).spec_resolve(device_id@) is Err,
                }
            },
    {
        self.set_device_pairing_internal(device_id, paired, PairingChangeSource::Manual, true, now)
    }

    /// The envelope for sending a clipboard to a target: from this device, numbered with the
    /// next sequence number, which then advances (wrapping at the end of its range).
    pub fn envelope_for_target(&mut self, target_device_id: &str, packet: &ClipboardPacket) -> (envelope: ClipboardEnvelope)
        ensures
            envelope.origin_device_id@ == old(self).local_id(),
            envelope.target_device_id@ == target_device_id@,
            envelope.content_hash == packet.meta.hash,
            envelope.payload_kind == packet.meta.kind.spec_transport_kind(),
            envelope.payload_bytes@ == packet.bytes@,
            envelope.mime == packet.meta.mime,
            envelope.sequence == old(self).sequence,
            final(self).sequence == (if old(self).sequence == u64::MAX {
                0
            } else {
                old(self).sequence + 1
            }),
            final(self).persistent == old(self).persistent,
            final(self).presence == old(self).presence,
            final(self).active_device_ids == old(self).active_device_ids,
            final(self).recent_hashes == old(self).recent_hashes,
            final(self).transfer_jobs == old(self).transfer_jobs,
            final(self).clipboard_history == old(self).clipboard_history,
            final(self).sync_status == old(self).sync_status,
            final(self).service_map == old(self).service_map,
            final(self).bridge == old(self).bridge,
    {
        let sequence = self.sequence;
        self.sequence = self.sequence.wrapping_add(1);
        envelope_from_packet(
            self.persistent.local_device.device_id.clone(),
            target_device_id.to_owned(),
            packet,
            sequence,
        )
    }

    /// A clipboard could not be read, written or relayed: the status line shows the error.
    pub fn emit_clipboard_error(&mut self, message: String, now: i64)
        ensures
            final(self).sync_status == (SyncStatus {
                state: SyncState::Error,
                message: Some(message),
                updated_at: now,
                last_payload: old(self).sync_status.last_payload,
            }),
            final(self).same_but_status(old(self)),
    {
        self.set_sync_status(SyncState::Error, Some(message), None, now);
    }

}

/// The position of a device's presence entry.
pub fn find_presence(p: &Vec<DevicePresence>, device_id: &str) -> (r: Option<usize>)
    ensures
        match r {
            Some(k) => presence_index(p@, device_id@) == Some(k as int) && k < p@.len()
                && p@[k as int].device_id@ == device_id@,
            None => presence_index(p@, device_id@) is None && forall|j: int|
                0 <= j < p@.len() ==> p@[j].device_id@ != device_id@,
        },
{
    let target = String::from_str(device_id);
    let mut i: usize = 0;
    while i < p.len()
        invariant
            i <= p@.len(),
            target@ == device_id@,
            forall|j: int| 0 <= j < i ==> p@[j].device_id@ != device_id@,
        decreases p.len() - i,
    {
        if p[i].device_id == target {
            proof {
                assert forall|j: int| 0 <= j < i implies !device_is(device_id@)(#[trigger] p@[j]) by {}
                crate::seqs::lemma_first_index_found(p@, device_is(device_id@), i as int);
            }
            return Some(i);
        }
        i = i + 1;
    }
    proof {
        assert forall|j: int| 0 <= j < p@.len() implies !device_is(device_id@)(#[trigger] p@[j]) by {}
        crate::seqs::lemma_first_index_none(p@, device_is(device_id@));
    }
    None
}

/// Whether the device is present and online.
pub fn is_device_online(p: &Vec<DevicePresence>, device_id: &str) -> (online: bool)
    ensures
        online == online_in(p@, device_id@),
{
    let target = String::from_str(device_id);
    let mut i: usize = 0;
    while i < p.len()
        invariant
            i <= p@.len(),
            target@ == device_id@,
            forall|j: int| 0 <= j < i ==> !(p@[j].device_id@ == device_id@ && p@[j].is_online),
        decreases p.len() - i,
    {
        if p[i].is_online && p[i].device_id == target {
            return true;
        }
        i = i + 1;
    }
    false
}

/// The target for a present device, when it can be dialed.
pub fn active_target_from_presence(device: &DevicePresence) -> (r: Option<ActiveTarget>)
    ensures
        match r {
            Some(t) => spec_target_of(*device) == Some(t@),
            None => spec_target_of(*device) is None,
        },
{
    match preferred_socket_addr(&device.addresses, device.port) {
        Some(socket_addr) => Some(
            ActiveTarget {
                device_id: device.device_id.clone(),
                fingerprint: device.fingerprint.clone(),
                socket_addr,
            },
        ),
        None => None,
    }
}

/// The abstract value of a presence entry.
pub struct PresenceView {
    pub device_id: StringView,
    pub name: StringView,
    pub platform: StringView,
    pub fingerprint: StringView,
    pub capabilities: Seq<StringView>,
    pub host_name: Option<StringView>,
    pub addresses: Seq<IpAddress>,
    pub port: u16,
    pub is_online: bool,
    pub last_seen: i64,
    pub last_sync_at: Option<i64>,
    pub last_sync_status: Option<StringView>,
}

impl View for DevicePresence {
    type V = PresenceView;

    open spec fn view(&self) -> PresenceView {
        PresenceView {
            device_id: self.device_id@,
            name: self.name@,
            platform: self.platform@,
            fingerprint: self.fingerprint@,
            capabilities: strings_view(self.capabilities@),
            host_name: opt_string_view(self.host_name),
            addresses: self.addresses@,
            port: self.port,
            is_online: self.is_online,
            last_seen: self.last_seen,
            last_sync_at: self.last_sync_at,
            last_sync_status: opt_string_view(self.last_sync_status),
        }
    }
}

/// `new` is `old` with the entry of `device_id` replaced by, or extended with, one whose
/// value is `v`.
pub open spec fn presence_upserted(
    old: Seq<DevicePresence>,
    new: Seq<DevicePresence>,
    device_id: StringView,
    v: PresenceView,
) -> bool {
    match presence_index(old, device_id) {
        Some(k) => {
            &&& new.len() == old.len()
            &&& new[k]@ == v
            &&& forall|i: int| 0 <= i < old.len() && i != k ==> new[i] == old[i]
        },
        None => {
            &&& new.len() == old.len() + 1
            &&& new[old.len() as int]@ == v
            &&& forall|i: int| 0 <= i < old.len() ==> new[i] == old[i]
        },
    }
}

/// The entry that discovery records for a peer: what the peer advertises, online, seen at
/// `now`, with the last sync of any earlier entry.
pub open spec fn spec_discovered_presence(
    peer: DiscoveredPeer,
    previous: Option<DevicePresence>,
    now: i64,
) -> PresenceView {
    PresenceView {
        device_id: peer.device_id@,
        name: peer.name@,
        platform: peer.platform@,
        fingerprint: peer.fingerprint@,
        capabilities: strings_view(peer.capabilities@),
        host_name: opt_string_view(peer.host_name),
        addresses: peer.addresses@,
        port: peer.port,
        is_online: true,
        last_seen: now,
        last_sync_at: match previous {
            Some(d) => d.last_sync_at,
            None => None,
        },
        last_sync_status: match previous {
            Some(d) => opt_string_view(d.last_sync_status),
            None => None,
        },
    }
}

/// The entry of a device in a presence list, if it has one.
pub open spec fn presence_of(p: Seq<DevicePresence>, id: StringView) -> Option<DevicePresence> {
    match presence_index(p, id) {
        Some(k) => Some(p[k]),
        None => None,
    }
}

/// A field of the peer's pairing update, or when it is blank the earlier value, or else a
/// fallback.
pub open spec fn text_or(given: StringView, earlier: Option<StringView>, fallback: StringView) -> StringView {
    if crate::text::all_whitespace(given) {
        match earlier {
            Some(e) => e,
            None => fallback,
        }
    } else {
        given
    }
}

/// The entry that a peer's pairing update records: the address it came from (or the earlier
/// addresses), the port it announced (or the earlier one), and its name, platform,
/// fingerprint and capabilities where it gave them.
pub open spec fn spec_hinted_presence(
    update: DevicePairingUpdate,
    peer_ip: Option<IpAddress>,
    previous: Option<DevicePresence>,
    now: i64,
) -> PresenceView {
    PresenceView {
        device_id: update.origin_device_id@,
        name: text_or(
            update.origin_device_name@,
            match previous {
                Some(d) => Some(d.name@),
                None => None,
            },
            update.origin_device_id@,
        ),
        platform: text_or(
            update.origin_platform@,
            match previous {
                Some(d) => Some(d.platform@),
                None => None,
            },
            "Unknown"@,
        ),
        fingerprint: text_or(
            update.origin_fingerprint@,
            match previous {
                Some(d) => Some(d.fingerprint@),
                None => None,
            },
            Seq::empty(),
        ),
        capabilities: if update.origin_capabilities@.len() == 0 {
            match previous {
                Some(d) => strings_view(d.capabilities@),
                None => Seq::empty(),
            }
        } else {
            strings_view(update.origin_capabilities@)
        },
        host_name: match previous {
            Some(d) => opt_string_view(d.host_name),
            None => None,
        },
        addresses: match peer_ip {
            Some(ip) => seq![ip],
            None => match previous {
                Some(d) => d.addresses@,
                None => Seq::empty(),
            },
        },
        port: match update.origin_listen_port {
            Some(port) if port > 0 => port,
            _ => match previous {
                Some(d) if d.port > 0 => d.port,
                _ => 0,
            },
        },
        is_online: true,
        last_seen: now,
        last_sync_at: match previous {
            Some(d) => d.last_sync_at,
            None => None,
        },
        last_sync_status: match previous {
            Some(d) => opt_string_view(d.last_sync_status),
            None => None,
        },
    }
}

/// Copies a list of addresses.
pub fn copy_addresses(v: &Vec<IpAddress>) -> (r: Vec<IpAddress>)
    ensures
        r@ == v@,
{
    let mut r: Vec<IpAddress> = Vec::new();
    let mut i: usize = 0;
    while i < v.len()
        invariant
            i <= v@.len(),
            r@ == v@.subrange(0, i as int),
        decreases v.len() - i,
    {
        r.push(v[i]);
        i = i + 1;
    }
    assert(r@ == v@);
    r
}

/// The device that automatic pairing would pair: the only online peer, when no paired
/// device is online, and the peer is neither paired, nor blocked, nor without an address.
pub open spec fn candidate_of(
    p: Seq<DevicePresence>,
    active: Seq<String>,
    blocked: Seq<String>,
    local: StringView,
) -> Option<StringView> {
    let online = p.filter(online_peer(local));
    if online.len() != 1 {
        None
    } else if exists|j: int| 0 <= j < active.len() && online_in(p, #[trigger] active[j]@) {
        None
    } else {
        let candidate = online[0];
        if has_str(active, candidate.device_id@) || has_str(blocked, candidate.device_id@)
            || !routable(candidate) {
            None
        } else {
            Some(candidate.device_id@)
        }
    }
}

/// The position of the service entry with the given name.
pub fn find_service(sm: &Vec<ServiceEntry>, fullname: &str) -> (r: Option<usize>)
    ensures
        match r {
            Some(k) => first_index(sm@, service_is(fullname@)) == Some(k as int) && k < sm@.len()
                && sm@[k as int].fullname@ == fullname@,
            None => first_index(sm@, service_is(fullname@)) is None,
        },
{
    let target = String::from_str(fullname);
    let mut i: usize = 0;
    while i < sm.len()
        invariant
            i <= sm@.len(),
            target@ == fullname@,
            forall|j: int| 0 <= j < i ==> !service_is(fullname@)(#[trigger] sm@[j]),
        decreases sm.len() - i,
    {
        if sm[i].fullname == target {
            proof {
                crate::seqs::lemma_first_index_found(sm@, service_is(fullname@), i as int);
            }
            return Some(i);
        }
        i = i + 1;
    }
    proof {
        crate::seqs::lemma_first_index_none(sm@, service_is(fullname@));
    }
    None
}

/// The service entries with the given name.
pub open spec fn service_is(fullname: StringView) -> spec_fn(ServiceEntry) -> bool {
    |e: ServiceEntry| e.fullname@ == fullname
}

/// The remark that a request sets: the trimmed text, or none when it is blank.
pub open spec fn normalized_remark(remark: Option<String>) -> Option<StringView> {
    match remark {
        Some(v) => if crate::text::spec_trim(v@).len() == 0 {
            None
        } else {
            Some(crate::text::spec_trim(v@))
        },
        None => None,
    }
}

/// The device name that a patch sets: the trimmed name, when it is not blank and differs from
/// the current one.
pub open spec fn spec_new_device_name(name: Option<String>, current: StringView) -> Option<StringView> {
    match name {
        Some(v) => {
            let t = crate::text::spec_trim(v@);
            if t.len() > 0 && t != current {
                Some(t)
            } else {
                None
            }
        },
        None => None,
    }
}

/// The jobs of a transfer.
pub open spec fn job_is(id: StringView) -> spec_fn(TransferJobView) -> bool {
    |j: TransferJobView| j.transfer_id == id
}

/// The position of a transfer's job, if it has one.
pub open spec fn job_index(jobs: Seq<TransferJob>, id: StringView) -> Option<int> {
    first_index(jobs_view(jobs), job_is(id))
}

/// The position of a transfer's job.
pub fn find_job(jobs: &Vec<TransferJob>, transfer_id: &str) -> (r: Option<usize>)
    ensures
        match r {
            Some(k) => job_index(jobs@, transfer_id@) == Some(k as int) && k < jobs@.len()
                && jobs@[k as int].transfer_id@ == transfer_id@,
            None => job_index(jobs@, transfer_id@) is None,
        },
{
    let target = String::from_str(transfer_id);
    let mut i: usize = 0;
    while i < jobs.len()
        invariant
            i <= jobs@.len(),
            target@ == transfer_id@,
            forall|j: int| 0 <= j < i ==> !job_is(transfer_id@)(#[trigger] jobs_view(jobs@)[j]),
        decreases jobs.len() - i,
    {
        if jobs[i].transfer_id == target {
            proof {
                crate::seqs::lemma_first_index_found(jobs_view(jobs@), job_is(transfer_id@), i as int);
            }
            return Some(i);
        }
        i = i + 1;
    }
    proof {
        crate::seqs::lemma_first_index_none(jobs_view(jobs@), job_is(transfer_id@));
    }
    None
}

/// What finishing a transfer does to its ready-to-paste state.
#[derive(Clone, Copy, Debug, PartialEq, Eq, Structural)]
pub enum FinishEffect {
    /// The files wait for the user to place them.
    AwaitPrompt,
    /// Nothing is left to place.
    Placed,
    /// The files cannot be placed; the prompt state stays.
    NotReady,
}

/// A change to one transfer job.
#[derive(Clone, Debug)]
pub enum JobChange {
    /// Moves the job to a stage, recording where its files are staged when given; a final
    /// stage stamps the finish time.
    Stage { stage: TransferStage, staging_path: Option<String> },
    /// Finishes the job, unless it was canceled and this is not a cancellation.
    Finish { stage: TransferStage, error_message: Option<String>, effect: FinishEffect },
    /// The user acted on the received files.
    Placed,
    /// The user dismissed the received files.
    Dismissed,
    /// More bytes and entries arrived, counted without overflowing.
    Progress { bytes: u64, entries: u32 },
    /// The transfer was laid out: its name, size, entries and warning are known.
    Laid {
        display_name: String,
        total_bytes: u64,
        total_entries: u32,
        entries: Vec<TransferEntry>,
        top_level_names: Vec<String>,
        warning_message: Option<String>,
    },
}

/// A counter advanced by `delta`, stopping at the largest value.
pub open spec fn saturating_add_u64(a: u64, delta: u64) -> u64 {
    if a + delta > u64::MAX {
        u64::MAX
    } else {
        (a + delta) as u64
    }
}

/// A counter advanced by `delta`, stopping at the largest value.
pub open spec fn saturating_add_u32(a: u32, delta: u32) -> u32 {
    if a + delta > u32::MAX {
        u32::MAX
    } else {
        (a + delta) as u32
    }
}

/// The job after a change at `now`.
pub open spec fn spec_changed_job(v: TransferJobView, change: JobChange, now: i64) -> TransferJobView {
    match change {
        JobChange::Stage { stage, staging_path } => TransferJobView {
            stage,
            staging_path: match staging_path {
                Some(p) => Some(p@),
                None => v.staging_path,
            },
            finished_at: if stage.spec_is_terminal() {
                Some(now)
            } else {
                v.finished_at
            },
            ..v
        },
        JobChange::Finish { stage, error_message, effect } => if v.stage == TransferStage::Canceled
            && stage != TransferStage::Canceled {
            v
        } else {
            TransferJobView {
                stage,
                finished_at: Some(now),
                error_message: opt_string_view(error_message),
                ready_to_paste: effect == FinishEffect::AwaitPrompt,
                ready_action_state: match effect {
                    FinishEffect::AwaitPrompt => ReadyActionState::PendingPrompt,
                    FinishEffect::Placed => ReadyActionState::Placed,
                    FinishEffect::NotReady => v.ready_action_state,
                },
                ..v
            }
        },
        JobChange::Placed => TransferJobView {
            ready_to_paste: false,
            ready_action_state: ReadyActionState::Placed,
            ..v
        },
        JobChange::Dismissed => TransferJobView {
            ready_to_paste: false,
            ready_action_state: ReadyActionState::Dismissed,
            ..v
        },
        JobChange::Progress { bytes, entries } => TransferJobView {
            completed_bytes: saturating_add_u64(v.completed_bytes, bytes),
            completed_entries: saturating_add_u32(v.completed_entries, entries),
            ..v
        },
        JobChange::Laid {
            display_name,
            total_bytes,
            total_entries,
            entries,
            top_level_names,
            warning_message,
        } => TransferJobView {
            display_name: display_name@,
            total_bytes,
            total_entries,
            entries: entries@,
            top_level_names: strings_view(top_level_names@),
            warning_message: opt_string_view(warning_message),
            ..v
        },
    }
}

/// Applies a change to a job.
fn change_job(job: &mut TransferJob, change: JobChange, now: i64)
    ensures
        final(job)@ == spec_changed_job(old(job)@, change, now),
{
    match change {
        JobChange::Stage { stage, staging_path } => {
            job.stage = stage;
            if let Some(path) = staging_path {
                job.staging_path = Some(path);
            }
            if stage.is_terminal() {
                job.finished_at = Some(now);
            }
        },
        JobChange::Finish { stage, error_message, effect } => {
            if job.stage == TransferStage::Canceled && stage != TransferStage::Canceled {
                return;
            }
            job.stage = stage;
            job.finished_at = Some(now);
            job.error_message = error_message;
            match effect {
                FinishEffect::AwaitPrompt => {
                    job.ready_to_paste = true;
                    job.ready_action_state = ReadyActionState::PendingPrompt;
                },
                FinishEffect::Placed => {
                    job.ready_to_paste = false;
                    job.ready_action_state = ReadyActionState::Placed;
                },
                FinishEffect::NotReady => {
                    job.ready_to_paste = false;
                },
            }
        },
        JobChange::Placed => {
            job.ready_to_paste = false;
            job.ready_action_state = ReadyActionState::Placed;
        },
        JobChange::Dismissed => {
            job.ready_to_paste = false;
            job.ready_action_state = ReadyActionState::Dismissed;
        },
        JobChange::Progress { bytes, entries } => {
            job.completed_bytes = job.completed_bytes.saturating_add(bytes);
            job.completed_entries = job.completed_entries.saturating_add(entries);
        },
        JobChange::Laid {
            display_name,
            total_bytes,
            total_entries,
            entries,
            top_level_names,
            warning_message,
        } => {
            job.display_name = display_name;
            job.total_bytes = total_bytes;
            job.total_entries = total_entries;
            job.entries = entries;
            job.top_level_names = top_level_names;
            job.warning_message = warning_message;
        },
    }
}

/// A canceled transfer stays canceled: finishing it any other way changes nothing.
pub proof fn cancellation_is_final(
    v: TransferJobView,
    stage: TransferStage,
    error_message: Option<String>,
    effect: FinishEffect,
    now: i64,
)
    requires
        v.stage == TransferStage::Canceled,
        stage != TransferStage::Canceled,
    ensures
        spec_changed_job(v, JobChange::Finish { stage, error_message, effect }, now) == v,
{
}

/// A transfer that reaches a final stage carries its finish time.
pub proof fn final_stages_are_stamped(v: TransferJobView, change: JobChange, now: i64)
    requires
        change matches JobChange::Stage { stage, .. } && stage.spec_is_terminal(),
    ensures
        spec_changed_job(v, change, now).finished_at == Some(now),
{
}

/// Progress never goes backwards.
pub proof fn progress_is_monotone(v: TransferJobView, bytes: u64, entries: u32, now: i64)
    ensures
        spec_changed_job(v, JobChange::Progress { bytes, entries }, now).completed_bytes
            >= v.completed_bytes,
        spec_changed_job(v, JobChange::Progress { bytes, entries }, now).completed_entries
            >= v.completed_entries,
{
}

/// The actions that the user interface offers for a job: only a received transfer that is
/// ready has any, and each one only where the platform can do it.
pub open spec fn spec_available_actions(capabilities: RuntimeCapabilities, job: TransferJobView) -> Seq<
    TransferAction,
> {
    if job.direction != TransferDirection::Inbound || job.stage != TransferStage::Ready {
        Seq::empty()
    } else {
        (if capabilities.clipboard_files {
            seq![TransferAction::PlaceOnClipboard]
        } else {
            Seq::empty()
        }) + (if capabilities.share_externally {
            seq![TransferAction::ShareExternally]
        } else {
            Seq::empty()
        }) + (if capabilities.export_to_files {
            seq![TransferAction::ExportToFiles]
        } else {
            Seq::empty()
        })
    }
}

/// The actions that the user interface offers for a job.
pub fn available_actions_for_job(capabilities: &RuntimeCapabilities, job: &TransferJob) -> (actions: Vec<TransferAction>)
    ensures
        actions@ == spec_available_actions(*capabilities, job@),
{
    let mut actions: Vec<TransferAction> = Vec::new();
    if job.direction != TransferDirection::Inbound || job.stage != TransferStage::Ready {
        return actions;
    }
    if capabilities.clipboard_files {
        actions.push(TransferAction::PlaceOnClipboard);
    }
    if capabilities.share_externally {
        actions.push(TransferAction::ShareExternally);
    }
    if capabilities.export_to_files {
        actions.push(TransferAction::ExportToFiles);
    }
    assert(actions@ =~= spec_available_actions(*capabilities, job@));
    actions
}

/// A job with the actions that the user interface offers for it.
pub open spec fn spec_decorated(capabilities: RuntimeCapabilities, job: TransferJobView) -> TransferJobView {
    TransferJobView { available_actions: spec_available_actions(capabilities, job), ..job }
}

/// Sets the actions that the user interface offers for a job.
pub fn decorate_transfer_job(capabilities: &RuntimeCapabilities, job: &mut TransferJob)
    ensures
        final(job)@ == spec_decorated(*capabilities, old(job)@),
{
    job.available_actions = available_actions_for_job(capabilities, job);
}

/// Why a received transfer cannot be acted on yet.
#[derive(Clone, Copy, Debug, PartialEq, Eq, Structural)]
pub enum ReadyPurpose {
    Place,
    Share,
    Export,
}

/// Text with each run of whitespace made a single space and none left at either end, with
/// whether a space is owed before the next word.
pub open spec fn condense_state(s: Seq<char>) -> (Seq<char>, bool)
    decreases s.len(),
{
    if s.len() == 0 {
        (Seq::empty(), false)
    } else {
        let prev = condense_state(s.drop_last());
        let c = s.last();
        if spec_is_whitespace(c) {
            (prev.0, prev.0.len() > 0)
        } else if prev.1 {
            (prev.0.push(' ').push(c), false)
        } else {
            (prev.0.push(c), false)
        }
    }
}

/// The words of a text joined by single spaces.
pub open spec fn spec_condense(s: Seq<char>) -> Seq<char> {
    condense_state(s).0
}

/// The preview of a clipboard text: its words joined by single spaces, cut after 80
/// characters with `...` added; `Empty text` when it has no words.
pub open spec fn spec_summarize_text(text: Seq<char>) -> Seq<char> {
    let condensed = spec_condense(text);
    if condensed.len() == 0 {
        "Empty text"@
    } else if condensed.len() > 80 {
        condensed.take(80) + "..."@
    } else {
        condensed
    }
}

pub fn summarize_text(text: &str) -> (summary: String)
    ensures
        summary@ == spec_summarize_text(text@),
{
    let chars = chars_of(text);
    let mut out: Vec<char> = Vec::new();
    let mut pending = false;
    let mut i: usize = 0;
    assert(chars@.take(0) =~= Seq::<char>::empty());
    while i < chars.len()
        invariant
            i <= chars@.len(),
            chars@ == text@,
            out@ == condense_state(chars@.take(i as int)).0,
            pending == condense_state(chars@.take(i as int)).1,
        decreases chars.len() - i,
    {
        proof {
            assert(chars@.take(i + 1).drop_last() =~= chars@.take(i as int));
        }
        let c = chars[i];
        if is_whitespace(c) {
            pending = out.len() > 0;
        } else {
            if pending {
                out.push(' ');
            }
            out.push(c);
            pending = false;
        }
        i = i + 1;
    }
    assert(chars@.take(chars@.len() as int) =~= chars@);
    if out.len() == 0 {
        return "Empty text".to_owned();
    }
    if out.len() > 80 {
        let mut cut: Vec<char> = Vec::new();
        let mut k: usize = 0;
        while k < 80
            invariant
                k <= 80,
                out@.len() > 80,
                cut@ == out@.take(k as int),
            decreases 80 - k,
        {
            proof {
                assert(out@.take(k + 1) =~= out@.take(k as int).push(out@[k as int]));
            }
            cut.push(out[k]);
            k = k + 1;
        }
        cut.push('.');
        cut.push('.');
        cut.push('.');
        proof {
            reveal_strlit("...");
            assert(cut@ =~= out@.take(80) + "..."@);
        }
        return string_from_chars(&cut);
    }
    string_from_chars(&out)
}

/// Where a job stands in the transfer list: received files waiting for the user first,
/// then running, queued, failed, canceled and finished transfers; received before sent.
pub open spec fn spec_transfer_sort_rank(job: TransferJobView) -> (u8, u8) {
    let primary: u8 = if job.stage == TransferStage::Ready && job.direction == TransferDirection::Inbound
        && job.ready_action_state == ReadyActionState::PendingPrompt {
        0
    } else {
        match job.stage {
            TransferStage::Downloading => 1,
            TransferStage::Verifying => 2,
            TransferStage::Preparing => 3,
            TransferStage::Queued => 4,
            TransferStage::Failed => 5,
            TransferStage::Canceled => 6,
            TransferStage::Ready => 7,
        }
    };
    let secondary: u8 = match job.direction {
        TransferDirection::Inbound => 0,
        TransferDirection::Outbound => 1,
    };
    (primary, secondary)
}

pub fn transfer_sort_rank(job: &TransferJob) -> (r: (u8, u8))
    ensures
        r == spec_transfer_sort_rank(job@),
{
    let primary: u8 = match (job.stage, job.direction, job.ready_action_state) {
        (TransferStage::Ready, TransferDirection::Inbound, ReadyActionState::PendingPrompt) => 0,
        (TransferStage::Downloading, _, _) => 1,
        (TransferStage::Verifying, _, _) => 2,
        (TransferStage::Preparing, _, _) => 3,
        (TransferStage::Queued, _, _) => 4,
        (TransferStage::Failed, _, _) => 5,
        (TransferStage::Canceled, _, _) => 6,
        (TransferStage::Ready, _, _) => 7,
    };
    let secondary: u8 = match job.direction {
        TransferDirection::Inbound => 0,
        TransferDirection::Outbound => 1,
    };
    (primary, secondary)
}

/// The views of jobs.
pub open spec fn jobs_view(v: Seq<TransferJob>) -> Seq<TransferJobView> {
    v.map_values(|j: TransferJob| j@)
}

/// The transfer list's order: by rank, then the most recently started first.
pub open spec fn job_lt() -> spec_fn(TransferJobView, TransferJobView) -> bool {
    |a: TransferJobView, b: TransferJobView|
        {
            let ra = spec_transfer_sort_rank(a);
            let rb = spec_transfer_sort_rank(b);
            ra.0 < rb.0 || (ra.0 == rb.0 && ra.1 < rb.1) || (ra == rb && a.started_at
                > b.started_at)
        }
}

fn job_less(a: &TransferJob, b: &TransferJob) -> (r: bool)
    ensures
        r == job_lt()(a@, b@),
{
    let ra = transfer_sort_rank(a);
    let rb = transfer_sort_rank(b);
    ra.0 < rb.0 || (ra.0 == rb.0 && ra.1 < rb.1) || (ra.0 == rb.0 && ra.1 == rb.1 && a.started_at
        > b.started_at)
}

/// Jobs in the transfer list's order; jobs that compare equal keep their order.
pub fn sort_transfer_jobs(jobs: &Vec<TransferJob>) -> (r: Vec<TransferJob>)
    ensures
        jobs_view(r@) == insertion_sorted(jobs_view(jobs@), job_lt()),
{
    let mut out: Vec<TransferJob> = Vec::new();
    let mut i: usize = 0;
    let ghost all = jobs_view(jobs@);
    assert(all.take(0) =~= Seq::<TransferJobView>::empty());
    assert(jobs_view(out@) =~= Seq::<TransferJobView>::empty());
    while i < jobs.len()
        invariant
            i <= jobs@.len(),
            all == jobs_view(jobs@),
            jobs_view(out@) == insertion_sorted(all.take(i as int), job_lt()),
        decreases jobs.len() - i,
    {
        let x = jobs[i].copy();
        let mut k: usize = 0;
        while k < out.len() && !job_less(&x, &out[k])
            invariant
                k <= out@.len(),
                forall|j: int| 0 <= j < k ==> !job_lt()(x@, #[trigger] jobs_view(out@)[j]),
            decreases out.len() - k,
        {
            k = k + 1;
        }
        proof {
            lemma_first_greater_at(jobs_view(out@), x@, job_lt(), k as int);
            assert(all.take(i + 1).drop_last() =~= all.take(i as int));
        }
        let ghost before = out@;
        let ghost xv = x@;
        out.insert(k, x);
        assert(jobs_view(out@) =~= jobs_view(before).insert(k as int, xv));
        i = i + 1;
    }
    assert(all.take(all.len() as int) =~= all);
    out
}

/// Two history entries record the same clipboard: the same hash and kind, from the same
/// device.
pub open spec fn same_clip(a: ClipboardHistoryEntry, b: ClipboardHistoryEntry) -> bool {
    a.hash@ == b.hash@ && a.kind == b.kind && a.origin_device_id@ == b.origin_device_id@
}

/// The history entries that record another clipboard than `e`.
pub open spec fn other_clip(e: ClipboardHistoryEntry) -> spec_fn(ClipboardHistoryEntry) -> bool {
    |x: ClipboardHistoryEntry| !same_clip(x, e)
}

/// The history after recording `e`: it comes first, and an earlier record of the same
/// clipboard is dropped.
pub open spec fn spec_history_with(h: Seq<ClipboardHistoryEntry>, e: ClipboardHistoryEntry) -> Seq<
    ClipboardHistoryEntry,
> {
    seq![e] + h.filter(other_clip(e))
}

/// No clipboard is recorded twice.
pub open spec fn history_unique(h: Seq<ClipboardHistoryEntry>) -> bool {
    forall|i: int, j: int| 0 <= i < j < h.len() ==> !same_clip(h[i], h[j])
}

/// A recorded clipboard comes first in the history and is recorded there once; what was
/// recorded of other clipboards stays, in its order; and a history that recorded no
/// clipboard twice still does not.
pub proof fn recording_a_clip_keeps_it_once_and_first(
    h: Seq<ClipboardHistoryEntry>,
    e: ClipboardHistoryEntry,
)
    ensures
        spec_history_with(h, e)[0] == e,
        forall|i: int|
            1 <= i < spec_history_with(h, e).len() ==> !same_clip(
                #[trigger] spec_history_with(h, e)[i],
                e,
            ),
        spec_history_with(h, e).drop_first() == h.filter(other_clip(e)),
        history_unique(h) ==> history_unique(spec_history_with(h, e)),
{
    let r = spec_history_with(h, e);
    let f = h.filter(other_clip(e));
    lemma_filter_members(h, other_clip(e));
    assert(r.drop_first() =~= f);
    assert forall|i: int| 1 <= i < r.len() implies !same_clip(#[trigger] r[i], e) by {
        assert(r[i] == f[i - 1]);
        assert(other_clip(e)(f[i - 1]));
    }
    if history_unique(h) {
        lemma_filter_keeps_unique_clips(h, e);
        assert forall|i: int, j: int| 0 <= i < j < r.len() implies !same_clip(r[i], r[j]) by {
            if i == 0 {
                assert(r[j] == f[j - 1]);
                assert(other_clip(e)(f[j - 1]));
            } else {
                assert(r[i] == f[i - 1]);
                assert(r[j] == f[j - 1]);
            }
        }
    }
}

proof fn lemma_filter_keeps_unique_clips(h: Seq<ClipboardHistoryEntry>, e: ClipboardHistoryEntry)
    requires
        history_unique(h),
    ensures
        history_unique(h.filter(other_clip(e))),
    decreases h.len(),
{
    if h.len() > 0 {
        let init = h.drop_last();
        assert forall|i: int, j: int| 0 <= i < j < init.len() implies !same_clip(init[i], init[j]) by {
            assert(init[i] == h[i] && init[j] == h[j]);
        }
        lemma_filter_keeps_unique_clips(init, e);
        assert(h =~= init.push(h.last()));
        lemma_filter_push(init, other_clip(e), h.last());
        lemma_filter_members(init, other_clip(e));
        let fi = init.filter(other_clip(e));
        if other_clip(e)(h.last()) {
            let f = fi.push(h.last());
            assert forall|i: int, j: int| 0 <= i < j < f.len() implies !same_clip(f[i], f[j]) by {
                if j == f.len() - 1 {
                    assert(fi.contains(fi[i]));
                    let k = choose|k: int| 0 <= k < init.len() && init[k] == fi[i];
                    assert(h[k] == init[k]);
                    assert(!same_clip(h[k], h[h.len() - 1]));
                    assert(f[j] == h.last());
                }
            }
        }
    }
}

/// The file the clipboard history keeps a payload of this kind in.
pub fn history_payload_file_name(kind: ClipboardPayloadKind) -> (name: &'static str)
    ensures
        name@ == match kind {
            ClipboardPayloadKind::Text => "payload.txt"@,
            ClipboardPayloadKind::Image => "payload.png"@,
        },
{
    match kind {
        ClipboardPayloadKind::Text => "payload.txt",
        ClipboardPayloadKind::Image => "payload.png",
    }
}

/// The preview of a clipboard payload: the summary of text that is valid UTF-8.
pub open spec fn spec_packet_preview(kind: ClipboardPayloadKind, bytes: Seq<u8>) -> Option<Seq<char>> {
    match kind {
        ClipboardPayloadKind::Text => if valid_utf8(bytes) {
            Some(spec_summarize_text(decode_utf8(bytes)))
        } else {
            None
        },
        ClipboardPayloadKind::Image => None,
    }
}

/// The history kind of a clipboard payload kind.
pub open spec fn spec_history_kind(kind: ClipboardPayloadKind) -> ClipboardHistoryKind {
    match kind {
        ClipboardPayloadKind::Text => ClipboardHistoryKind::Text,
        ClipboardPayloadKind::Image => ClipboardHistoryKind::Image,
    }
}

/// The history entry recorded for a text or image clipboard.
pub open spec fn packet_entry_matches(
    entry: ClipboardHistoryEntry,
    packet: ClipboardPacket,
    source: ClipboardHistorySource,
    origin_device_id: Seq<char>,
    origin_device_name: Seq<char>,
    entry_id: Seq<char>,
    payload_path: Seq<char>,
    now: i64,
) -> bool {
    &&& entry.entry_id@ == entry_id
    &&& entry.kind == spec_history_kind(packet.meta.kind)
    &&& entry.source == source
    &&& entry.origin_device_id@ == origin_device_id
    &&& entry.origin_device_name@ == origin_device_name
    &&& entry.display_name@ == match packet.meta.kind {
        ClipboardPayloadKind::Text => "Text clip"@,
        ClipboardPayloadKind::Image => "Image clip"@,
    }
    &&& opt_string_view(entry.preview_text) == spec_packet_preview(packet.meta.kind, packet.bytes@)
    &&& opt_string_view(entry.mime) == Some(packet.meta.mime@)
    &&& entry.hash@ == packet.meta.hash@
    &&& entry.size == packet.meta.size as u64
    &&& entry.file_count is None
    &&& entry.created_at == now
    &&& opt_string_view(entry.payload_path) == Some(payload_path)
    &&& entry.transfer_id is None
    &&& entry.top_level_names@.len() == 0
}

/// The history entry for a text or image clipboard, kept in `payload_path`.
pub fn packet_history_entry(
    packet: &ClipboardPacket,
    source: ClipboardHistorySource,
    origin_device_id: &str,
    origin_device_name: &str,
    entry_id: String,
    payload_path: String,
    now: i64,
) -> (entry: ClipboardHistoryEntry)
    ensures
        packet_entry_matches(
            entry,
            *packet,
            source,
            origin_device_id@,
            origin_device_name@,
            entry_id@,
            payload_path@,
            now,
        ),
{
    let (kind, display_name, preview_text) = match packet.meta.kind {
        ClipboardPayloadKind::Text => {
            let preview = match decode_utf8_text(packet.bytes.as_slice()) {
                Some(text) => Some(summarize_text(text.as_str())),
                None => None,
            };
            (ClipboardHistoryKind::Text, "Text clip".to_owned(), preview)
        },
        ClipboardPayloadKind::Image => (ClipboardHistoryKind::Image, "Image clip".to_owned(), None),
    };
    ClipboardHistoryEntry {
        entry_id,
        kind,
        source,
        origin_device_id: origin_device_id.to_owned(),
        origin_device_name: origin_device_name.to_owned(),
        display_name,
        preview_text,
        mime: Some(packet.meta.mime.clone()),
        hash: packet.meta.hash.clone(),
        size: packet.meta.size as u64,
        file_count: None,
        created_at: now,
        payload_path: Some(payload_path),
        transfer_id: None,
        top_level_names: Vec::new(),
    }
}

/// The name a copied path is listed under in the history: its last component, or the whole
/// path when it has none.
pub open spec fn spec_listed_name(p: Seq<char>) -> Seq<char> {
    match spec_file_name(p) {
        Some(f) => f,
        None => p,
    }
}

/// The history entry recorded for a copied file list.
pub open spec fn local_files_entry_matches(
    entry: ClipboardHistoryEntry,
    file_list: LocalFileClipboard,
    origin_device_id: Seq<char>,
    origin_device_name: Seq<char>,
    entry_id: Seq<char>,
    payload_path: Seq<char>,
    now: i64,
) -> bool {
    &&& entry.entry_id@ == entry_id
    &&& entry.kind == ClipboardHistoryKind::FileRefs
    &&& entry.source == ClipboardHistorySource::Local
    &&& entry.origin_device_id@ == origin_device_id
    &&& entry.origin_device_name@ == origin_device_name
    &&& entry.display_name@ == file_list.display_name@
    &&& entry.preview_text is None
    &&& entry.mime is None
    &&& entry.hash@ == file_list.hash@
    &&& entry.size == 0
    &&& entry.file_count == Some(file_list.paths@.len() as u32)
    &&& entry.created_at == now
    &&& opt_string_view(entry.payload_path) == Some(payload_path)
    &&& entry.transfer_id is None
    &&& strings_view(entry.top_level_names@) == file_list.paths@.map_values(
        |p: String| spec_listed_name(p@),
    )
}

/// The history entry for a copied file list, whose paths are kept in `payload_path`.
pub fn local_file_history_entry(
    file_list: &LocalFileClipboard,
    origin_device_id: &str,
    origin_device_name: &str,
    entry_id: String,
    payload_path: String,
    now: i64,
) -> (entry: ClipboardHistoryEntry)
    ensures
        local_files_entry_matches(
            entry,
            *file_list,
            origin_device_id@,
            origin_device_name@,
            entry_id@,
            payload_path@,
            now,
        ),
{
    let mut names: Vec<String> = Vec::new();
    let mut i: usize = 0;
    let ghost want = file_list.paths@.map_values(|p: String| spec_listed_name(p@));
    while i < file_list.paths.len()
        invariant
            i <= file_list.paths@.len(),
            want == file_list.paths@.map_values(|p: String| spec_listed_name(p@)),
            strings_view(names@) == want.take(i as int),
        decreases file_list.paths.len() - i,
    {
        let name = match file_name(file_list.paths[i].as_str()) {
            Some(f) => f,
            None => file_list.paths[i].clone(),
        };
        let ghost before = names@;
        let ghost nv = name@;
        names.push(name);
        proof {
            assert(strings_view(names@) =~= strings_view(before).push(nv));
            assert(want.take(i + 1) =~= want.take(i as int).push(want[i as int]));
        }
        i = i + 1;
    }
    assert(want.take(want.len() as int) =~= want);
    ClipboardHistoryEntry {
        entry_id,
        kind: ClipboardHistoryKind::FileRefs,
        source: ClipboardHistorySource::Local,
        origin_device_id: origin_device_id.to_owned(),
        origin_device_name: origin_device_name.to_owned(),
        display_name: file_list.display_name.clone(),
        preview_text: None,
        mime: None,
        hash: file_list.hash.clone(),
        size: 0,
        file_count: Some(file_list.paths.len() as u32),
        created_at: now,
        payload_path: Some(payload_path),
        transfer_id: None,
        top_level_names: names,
    }
}

/// `transfer:` and the transfer's id: the hash under which a received transfer is recorded.
pub open spec fn spec_transfer_history_hash(transfer_id: Seq<char>) -> Seq<char> {
    "transfer:"@ + transfer_id
}

/// The history entry recorded for a received transfer.
pub open spec fn received_entry_matches(
    entry: ClipboardHistoryEntry,
    job: TransferJob,
    origin_device_name: Seq<char>,
    entry_id: Seq<char>,
    now: i64,
) -> bool {
    &&& entry.entry_id@ == entry_id
    &&& entry.kind == ClipboardHistoryKind::FileRefs
    &&& entry.source == ClipboardHistorySource::Transfer
    &&& entry.origin_device_id@ == job.peer_device_id@
    &&& entry.origin_device_name@ == origin_device_name
    &&& entry.display_name@ == job.display_name@
    &&& entry.preview_text is None
    &&& entry.mime is None
    &&& entry.hash@ == spec_transfer_history_hash(job.transfer_id@)
    &&& entry.size == job.total_bytes
    &&& entry.file_count == Some(job.total_entries)
    &&& entry.created_at == now
    &&& opt_string_view(entry.payload_path) == opt_string_view(job.staging_path)
    &&& opt_string_view(entry.transfer_id) == Some(job.transfer_id@)
    &&& strings_view(entry.top_level_names@) == strings_view(job.top_level_names@)
}

/// The history entry for a received transfer; none for a sent one.
pub fn received_transfer_history_entry(
    job: &TransferJob,
    origin_device_name: String,
    entry_id: String,
    now: i64,
) -> (r: Option<ClipboardHistoryEntry>)
    ensures
        job.direction != TransferDirection::Inbound <==> r is None,
        r matches Some(entry) ==> received_entry_matches(entry, *job, origin_device_name@, entry_id@, now),
{
    if job.direction != TransferDirection::Inbound {
        return None;
    }
    let mut hash = chars_of("transfer:");
    let id_chars = chars_of(job.transfer_id.as_str());
    let mut k: usize = 0;
    let ghost start = hash@;
    while k < id_chars.len()
        invariant
            k <= id_chars@.len(),
            hash@ == start + id_chars@.take(k as int),
        decreases id_chars.len() - k,
    {
        proof {
            assert(id_chars@.take(k + 1) =~= id_chars@.take(k as int).push(id_chars@[k as int]));
        }
        hash.push(id_chars[k]);
        k = k + 1;
    }
    assert(id_chars@.take(id_chars@.len() as int) =~= id_chars@);
    Some(
        ClipboardHistoryEntry {
            entry_id,
            kind: ClipboardHistoryKind::FileRefs,
            source: ClipboardHistorySource::Transfer,
            origin_device_id: job.peer_device_id.clone(),
            origin_device_name,
            display_name: job.display_name.clone(),
            preview_text: None,
            mime: None,
            hash: string_from_chars(&hash),
            size: job.total_bytes,
            file_count: Some(job.total_entries),
            created_at: now,
            payload_path: copy_opt_string(&job.staging_path),
            transfer_id: Some(job.transfer_id.clone()),
            top_level_names: copy_strings(&job.top_level_names),
        },
    )
}

/// The history entries with this id.
pub open spec fn entry_is(id: StringView) -> spec_fn(ClipboardHistoryEntry) -> bool {
    |e: ClipboardHistoryEntry| e.entry_id@ == id
}

/// The remark given to a device, if any.
pub open spec fn spec_remark_of(remarks: Map<StringView, StringView>, id: StringView) -> Option<StringView> {
    if remarks.contains_key(id) {
        Some(remarks[id])
    } else {
        None
    }
}

/// How the user interface lists a present device.
pub open spec fn spec_listed_device(d: DevicePresence, remark: Option<StringView>, active: bool) -> TrustedDeviceView {
    TrustedDeviceView {
        device_id: d.device_id@,
        name: d.name@,
        remark,
        platform: d.platform@,
        fingerprint: d.fingerprint@,
        auto_trusted: false,
        capabilities: strings_view(d.capabilities@),
        last_seen: Some(d.last_seen),
        last_sync_at: d.last_sync_at,
        last_sync_status: opt_string_view(d.last_sync_status),
        addresses: d.addresses@,
        host_name: opt_string_view(d.host_name),
        port: if d.port > 0 {
            Some(d.port)
        } else {
            None
        },
        is_online: d.is_online,
        is_active: active,
    }
}

/// The devices other than this one, as listed, in presence order.
pub open spec fn spec_collected_devices(
    p: Seq<DevicePresence>,
    local: StringView,
    remarks: Map<StringView, StringView>,
    active: Seq<String>,
) -> Seq<TrustedDeviceView>
    decreases p.len(),
{
    if p.len() == 0 {
        Seq::empty()
    } else {
        let prev = spec_collected_devices(p.drop_last(), local, remarks, active);
        let d = p.last();
        if d.device_id@ == local {
            prev
        } else {
            prev.push(
                spec_listed_device(d, spec_remark_of(remarks, d.device_id@), has_str(active, d.device_id@)),
            )
        }
    }
}

/// The name a listed device is shown under: its remark, or its own name.
pub open spec fn spec_shown_name(t: TrustedDeviceView) -> Seq<char> {
    match t.remark {
        Some(r) => r,
        None => t.name,
    }
}

/// The device list's order: paired devices first, then online ones, then by shown name.
pub open spec fn device_lt() -> spec_fn(TrustedDeviceView, TrustedDeviceView) -> bool {
    |a: TrustedDeviceView, b: TrustedDeviceView|
        (a.is_active && !b.is_active) || (a.is_active == b.is_active && ((a.is_online
            && !b.is_online) || (a.is_online == b.is_online && chars_lt(
            spec_shown_name(a),
            spec_shown_name(b),
        ))))
}

/// The views of listed devices.
pub open spec fn devices_view(v: Seq<TrustedDevice>) -> Seq<TrustedDeviceView> {
    v.map_values(|t: TrustedDevice| t@)
}

/// The name a listed device is shown under.
pub fn display_device_name(device: &TrustedDevice) -> (name: String)
    ensures
        name@ == spec_shown_name(device@),
{
    match &device.remark {
        Some(remark) => remark.clone(),
        None => device.name.clone(),
    }
}

fn device_less(a: &TrustedDevice, b: &TrustedDevice) -> (r: bool)
    ensures
        r == device_lt()(a@, b@),
{
    if a.is_active != b.is_active {
        return a.is_active;
    }
    if a.is_online != b.is_online {
        return a.is_online;
    }
    let na = chars_of(display_device_name(a).as_str());
    let nb = chars_of(display_device_name(b).as_str());
    chars_less(&na, &nb)
}

/// The job of a transfer that a peer offered, before any byte arrived.
pub open spec fn spec_inbound_job(offer: IncomingTransferOffer, now: i64) -> TransferJobView {
    TransferJobView {
        transfer_id: offer.transfer_id@,
        peer_device_id: offer.origin_device_id@,
        direction: TransferDirection::Inbound,
        kind: TransferKind::FileRefs,
        display_name: offer.display_name@,
        total_bytes: offer.total_bytes,
        completed_bytes: 0,
        total_entries: offer.total_entries,
        completed_entries: 0,
        stage: TransferStage::Preparing,
        started_at: now,
        finished_at: None,
        error_message: None,
        warning_message: opt_string_view(offer.warning_message),
        ready_to_paste: false,
        ready_action_state: ReadyActionState::PendingPrompt,
        staging_path: None,
        entries: offer.entries@,
        top_level_names: strings_view(offer.top_level_names@),
        available_actions: Seq::empty(),
    }
}

/// The job of a file list sent to a peer, before it is laid out.
pub open spec fn spec_outbound_job(
    transfer_id: StringView,
    peer_device_id: StringView,
    display_name: StringView,
    now: i64,
) -> TransferJobView {
    TransferJobView {
        transfer_id,
        peer_device_id,
        direction: TransferDirection::Outbound,
        kind: TransferKind::FileRefs,
        display_name,
        total_bytes: 0,
        completed_bytes: 0,
        total_entries: 0,
        completed_entries: 0,
        stage: TransferStage::Preparing,
        started_at: now,
        finished_at: None,
        error_message: None,
        warning_message: None,
        ready_to_paste: false,
        ready_action_state: ReadyActionState::Placed,
        staging_path: None,
        entries: Seq::empty(),
        top_level_names: Seq::empty(),
        available_actions: Seq::empty(),
    }
}

/// The job of a transfer that a peer offered.
pub fn new_inbound_job(offer: &IncomingTransferOffer, now: i64) -> (job: TransferJob)
    ensures
        job@ == spec_inbound_job(*offer, now),
{
    TransferJob {
        transfer_id: offer.transfer_id.clone(),
        peer_device_id: offer.origin_device_id.clone(),
        direction: TransferDirection::Inbound,
        kind: TransferKind::FileRefs,
        display_name: offer.display_name.clone(),
        total_bytes: offer.total_bytes,
        completed_bytes: 0,
        total_entries: offer.total_entries,
        completed_entries: 0,
        stage: TransferStage::Preparing,
        started_at: now,
        finished_at: None,
        error_message: None,
        warning_message: copy_opt_string(&offer.warning_message),
        ready_to_paste: false,
        ready_action_state: ReadyActionState::PendingPrompt,
        staging_path: None,
        entries: copy_entries(&offer.entries),
        top_level_names: copy_strings(&offer.top_level_names),
        available_actions: Vec::new(),
    }
}

/// The job of a file list sent to a peer.
pub fn new_outbound_job(transfer_id: String, peer_device_id: String, display_name: String, now: i64) -> (job: TransferJob)
    ensures
        job@ == spec_outbound_job(transfer_id@, peer_device_id@, display_name@, now),
{
    let top_level_names: Vec<String> = Vec::new();
    assert(strings_view(top_level_names@) =~= Seq::<StringView>::empty());
    TransferJob {
        transfer_id,
        peer_device_id,
        direction: TransferDirection::Outbound,
        kind: TransferKind::FileRefs,
        display_name,
        total_bytes: 0,
        completed_bytes: 0,
        total_entries: 0,
        completed_entries: 0,
        stage: TransferStage::Preparing,
        started_at: now,
        finished_at: None,
        error_message: None,
        warning_message: None,
        ready_to_paste: false,
        ready_action_state: ReadyActionState::Placed,
        staging_path: None,
        entries: Vec::new(),
        top_level_names,
        available_actions: Vec::new(),
    }
}

/// The entries of a laid-out transfer, without their sources.
pub open spec fn spec_transfer_entries(p: Seq<PreparedTransferEntry>) -> Seq<TransferEntry> {
    p.map_values(|e: PreparedTransferEntry| e.entry)
}

fn transfer_entries(p: &Vec<PreparedTransferEntry>) -> (r: Vec<TransferEntry>)
    ensures
        r@ == spec_transfer_entries(p@),
{
    let mut r: Vec<TransferEntry> = Vec::new();
    let mut i: usize = 0;
    while i < p.len()
        invariant
            i <= p@.len(),
            r@ == spec_transfer_entries(p@).take(i as int),
        decreases p.len() - i,
    {
        r.push(p[i].entry.copy());
        proof {
            assert(r@ =~= spec_transfer_entries(p@).take(i + 1));
        }
        i = i + 1;
    }
    assert(spec_transfer_entries(p@).take(p@.len() as int) =~= spec_transfer_entries(p@));
    r
}

/// The offer that tells a peer what a laid-out transfer holds.
pub fn offer_for(
    transfer_id: &str,
    origin_device_id: &str,
    target_device_id: &str,
    prepared: &PreparedTransfer,
) -> (offer: IncomingTransferOffer)
    ensures
        offer.transfer_id@ == transfer_id@,
        offer.origin_device_id@ == origin_device_id@,
        offer.target_device_id@ == target_device_id@,
        offer.display_name@ == prepared.display_name@,
        offer.total_bytes == prepared.total_bytes,
        offer.total_entries == prepared.entries@.len() as u32,
        offer.entries@ == spec_transfer_entries(prepared.entries@),
        strings_view(offer.top_level_names@) == strings_view(prepared.top_level_names@),
        opt_string_view(offer.warning_message) == opt_string_view(prepared.warning_message),
{
    IncomingTransferOffer {
        transfer_id: transfer_id.to_owned(),
        origin_device_id: origin_device_id.to_owned(),
        target_device_id: target_device_id.to_owned(),
        display_name: prepared.display_name.clone(),
        total_bytes: prepared.total_bytes,
        total_entries: prepared.entries.len() as u32,
        entries: transfer_entries(&prepared.entries),
        top_level_names: copy_strings(&prepared.top_level_names),
        warning_message: copy_opt_string(&prepared.warning_message),
    }
}

/// What happened to a transfer being sent, as the caller saw it.
pub enum OutboundEvent {
    /// The files were laid out.
    Prepared(PreparedTransfer),
    /// Laying the files out failed.
    PrepareFailed(String),
    /// A transfer slot was granted; the layout is handed back for the offer.
    LeaseAcquired(PreparedTransfer),
    /// Every transfer slot is taken; the transfer waits for one.
    SlotsBusy,
    /// No transfer slot could be had.
    LeaseFailed(String),
    /// Sending ended, well or with an error.
    SendFinished(Result<(), String>),
}

/// What the caller does next for a transfer being sent.
pub enum OutboundAction {
    /// Wait for a transfer slot.
    AcquireLease,
    /// Send the offer and then the files.
    Send(IncomingTransferOffer),
    /// Nothing more.
    Stop,
}

/// What is to be restored from the clipboard history.
pub enum RestorePlan {
    /// Read the text or image kept at `path` and put it back on the clipboard.
    Payload { path: String, kind: ClipboardPayloadKind, mime: String, hash: String },
    /// Put back the files that still exist among these received ones.
    ReceivedFiles { candidates: Vec<String>, hash: String },
    /// Read the copied paths kept at `path` and put back those that still exist.
    CopiedFiles { path: String, hash: String },
}

/// Jobs after a job is put in: it replaces the job of its transfer, or is added at the end.
pub open spec fn spec_upserted(v: Seq<TransferJobView>, j: TransferJobView) -> Seq<TransferJobView> {
    match first_index(v, job_is(j.transfer_id)) {
        Some(k) => v.update(k, j),
        None => v.push(j),
    }
}

/// Jobs after several jobs are put in, in turn.
pub open spec fn spec_upserted_all(v: Seq<TransferJobView>, js: Seq<TransferJobView>) -> Seq<TransferJobView>
    decreases js.len(),
{
    if js.len() == 0 {
        v
    } else {
        spec_upserted(spec_upserted_all(v, js.drop_last()), js.last())
    }
}

/// A job after a step of sending.
pub open spec fn spec_outbound_effect(
    v: TransferJobView,
    event: OutboundEvent,
    canceled: bool,
    now: i64,
) -> TransferJobView {
    let cancel = JobChange::Finish {
        stage: TransferStage::Canceled,
        error_message: None,
        effect: FinishEffect::NotReady,
    };
    match event {
        OutboundEvent::Prepared(p) => {
            let laid = TransferJobView {
                display_name: p.display_name@,
                total_bytes: p.total_bytes,
                total_entries: p.entries@.len() as u32,
                entries: spec_transfer_entries(p.entries@),
                top_level_names: strings_view(p.top_level_names@),
                warning_message: opt_string_view(p.warning_message),
                ..v
            };
            if canceled {
                spec_changed_job(laid, cancel, now)
            } else {
                laid
            }
        },
        OutboundEvent::PrepareFailed(m) => spec_changed_job(
            v,
            JobChange::Finish {
                stage: TransferStage::Failed,
                error_message: Some(m),
                effect: FinishEffect::NotReady,
            },
            now,
        ),
        OutboundEvent::LeaseAcquired(_) => spec_changed_job(
            v,
            JobChange::Stage { stage: TransferStage::Downloading, staging_path: None },
            now,
        ),
        OutboundEvent::SlotsBusy => spec_changed_job(
            v,
            JobChange::Stage { stage: TransferStage::Queued, staging_path: None },
            now,
        ),
        OutboundEvent::LeaseFailed(m) => spec_changed_job(
            v,
            JobChange::Finish {
                stage: TransferStage::Failed,
                error_message: Some(m),
                effect: FinishEffect::NotReady,
            },
            now,
        ),
        OutboundEvent::SendFinished(result) => if canceled {
            spec_changed_job(v, cancel, now)
        } else {
            match result {
                Ok(_) => spec_changed_job(
                    v,
                    JobChange::Finish {
                        stage: TransferStage::Ready,
                        error_message: None,
                        effect: FinishEffect::Placed,
                    },
                    now,
                ),
                Err(m) => spec_changed_job(
                    v,
                    JobChange::Finish {
                        stage: TransferStage::Failed,
                        error_message: Some(m),
                        effect: FinishEffect::NotReady,
                    },
                    now,
                ),
            }
        },
    }
}

/// Changing one job, without changing its transfer id, keeps where each transfer's job is.
proof fn lemma_job_index_kept(
    before: Seq<TransferJob>,
    after: Seq<TransferJob>,
    id: StringView,
    k: int,
)
    requires
        job_index(before, id) == Some(k),
        after.len() == before.len(),
        0 <= k < before.len(),
        after[k]@.transfer_id == before[k]@.transfer_id,
        forall|i: int| 0 <= i < before.len() && i != k ==> after[i] == before[i],
    ensures
        job_index(after, id) == Some(k),
{
    let bv = jobs_view(before);
    let av = jobs_view(after);
    let i = choose|i: int| is_first_match(bv, job_is(id), i);
    assert(is_first_match(bv, job_is(id), k));
    assert forall|j: int| 0 <= j < k implies !job_is(id)(#[trigger] av[j]) by {
        assert(av[j] == bv[j]);
    }
    crate::seqs::lemma_first_index_found(av, job_is(id), k);
}

impl ActiveTarget {
    pub fn clone_target(&self) -> (r: ActiveTarget)
        ensures
            r@ == self@,
    {
        ActiveTarget {
            device_id: self.device_id.clone(),
            fingerprint: self.fingerprint.clone(),
            socket_addr: self.socket_addr,
        }
    }
}
/// The folders to create for a received transfer under its payload folder, in the order of
/// its entries.
pub open spec fn spec_directories_to_create(payload_root: Seq<char>, entries: Seq<TransferEntry>) -> Seq<Seq<char>>
    decreases entries.len(),
{
    if entries.len() == 0 {
        Seq::empty()
    } else {
        let prev = spec_directories_to_create(payload_root, entries.drop_last());
        let e = entries.last();
        if e.entry_kind == TransferEntryKind::Directory {
            prev.push(spec_path_push(payload_root, spec_relative_path_to_native(e.relative_path@)))
        } else {
            prev
        }
    }
}

pub fn directories_to_create(payload_root: &str, entries: &Vec<TransferEntry>) -> (r: Vec<String>)
    ensures
        strings_view(r@) == spec_directories_to_create(payload_root@, entries@),
{
    let root = chars_of(payload_root);
    let mut r: Vec<String> = Vec::new();
    let mut i: usize = 0;
    assert(entries@.take(0) =~= Seq::<TransferEntry>::empty());
    assert(strings_view(r@) =~= Seq::<StringView>::empty());
    while i < entries.len()
        invariant
            i <= entries@.len(),
            root@ == payload_root@,
            strings_view(r@) == spec_directories_to_create(payload_root@, entries@.take(i as int)),
        decreases entries.len() - i,
    {
        proof {
            assert(entries@.take(i + 1).drop_last() =~= entries@.take(i as int));
        }
        if entries[i].entry_kind == TransferEntryKind::Directory {
            let native = relative_path_to_native(entries[i].relative_path.as_str());
            let p = path_push(&root, native.as_str());
            let ghost before = r@;
            let ps = string_from_chars(&p);
            r.push(ps);
            assert(strings_view(r@) =~= strings_view(before).push(ps@));
        }
        i = i + 1;
    }
    assert(entries@.take(entries@.len() as int) =~= entries@);
    r
}

/// A device that the user unpaired is never paired automatically: while it is blocked,
/// automatic pairing names no such device.
pub proof fn blocked_devices_are_never_auto_paired(
    p: Seq<DevicePresence>,
    active: Seq<String>,
    blocked: Seq<String>,
    local: StringView,
    id: StringView,
)
    requires
        has_str(blocked, id),
    ensures
        candidate_of(p, active, blocked, local) != Some(id),
{
}

/// Automatic pairing never names a device that is already paired, nor this device itself.
pub proof fn auto_pairing_names_a_new_peer(
    p: Seq<DevicePresence>,
    active: Seq<String>,
    blocked: Seq<String>,
    local: StringView,
)
    ensures
        candidate_of(p, active, blocked, local) matches Some(id) ==> !has_str(active, id) && id
            != local,
{
    let online = p.filter(online_peer(local));
    if online.len() == 1 {
        lemma_filter_members(p, online_peer(local));
        assert(online.contains(online[0]));
    }
}

/// Automatic pairing names a device only when it is the one online peer: some presence entry
/// is that device, online and not this device, and no other entry is an online peer.
pub proof fn auto_pairing_needs_a_single_online_peer(
    p: Seq<DevicePresence>,
    active: Seq<String>,
    blocked: Seq<String>,
    local: StringView,
)
    ensures
        candidate_of(p, active, blocked, local) matches Some(id) ==> exists|k: int|
            0 <= k < p.len() && #[trigger] p[k].device_id@ == id && p[k].is_online && id != local
                && forall|j: int|
                0 <= j < p.len() && p[j].is_online && p[j].device_id@ != local ==> j == k,
{
    let f = online_peer(local);
    let online = p.filter(f);
    if candidate_of(p, active, blocked, local) is Some {
        assert(online.len() == 1);
        lemma_filter_members(p, f);
        assert(online.contains(online[0]));
        let k = choose|k: int| 0 <= k < p.len() && p[k] == online[0];
        assert(f(p[k]));
        assert forall|j: int|
            0 <= j < p.len() && p[j].is_online && p[j].device_id@ != local implies j == k by {
            assert(f(p[j]));
            if j < k {
                crate::seqs::lemma_filter_two(p, f, j, k);
            } else if k < j {
                crate::seqs::lemma_filter_two(p, f, k, j);
            }
        }
    }
}

/// Whether a job is a received transfer that waits for the user to place it.
pub open spec fn awaits_placement(j: TransferJobView) -> bool {
    j.stage == TransferStage::Ready && j.direction == TransferDirection::Inbound
        && j.ready_action_state == ReadyActionState::PendingPrompt
}

/// The transfer list shows jobs by what they need: received files waiting for the user
/// first, then running transfers (downloading, verifying, preparing, queued), then failed,
/// then canceled, then finished ones. A job of an earlier group comes before a job of a later
/// group, whatever their directions and start times.
pub proof fn transfer_list_groups_jobs_by_stage(u: TransferJobView, v: TransferJobView)
    ensures
        awaits_placement(u) && !awaits_placement(v) ==> job_lt()(u, v) && !job_lt()(v, u),
        u.stage == TransferStage::Downloading && (v.stage == TransferStage::Verifying || v.stage
            == TransferStage::Preparing || v.stage == TransferStage::Queued || v.stage
            == TransferStage::Failed || v.stage == TransferStage::Canceled || (v.stage
            == TransferStage::Ready && !awaits_placement(v))) ==> job_lt()(u, v) && !job_lt()(v, u),
        u.stage == TransferStage::Verifying && (v.stage == TransferStage::Preparing || v.stage
            == TransferStage::Queued || v.stage == TransferStage::Failed || v.stage
            == TransferStage::Canceled || (v.stage == TransferStage::Ready && !awaits_placement(v)))
            ==> job_lt()(u, v) && !job_lt()(v, u),
        u.stage == TransferStage::Preparing && (v.stage == TransferStage::Queued || v.stage
            == TransferStage::Failed || v.stage == TransferStage::Canceled || (v.stage
            == TransferStage::Ready && !awaits_placement(v))) ==> job_lt()(u, v) && !job_lt()(v, u),
        u.stage == TransferStage::Queued && (v.stage == TransferStage::Failed || v.stage
            == TransferStage::Canceled || (v.stage == TransferStage::Ready && !awaits_placement(v)))
            ==> job_lt()(u, v) && !job_lt()(v, u),
        u.stage == TransferStage::Failed && (v.stage == TransferStage::Canceled || (v.stage
            == TransferStage::Ready && !awaits_placement(v))) ==> job_lt()(u, v) && !job_lt()(v, u),
        u.stage == TransferStage::Canceled && v.stage == TransferStage::Ready && !awaits_placement(v)
            ==> job_lt()(u, v) && !job_lt()(v, u),
{
}

/// Recording a clip drops only earlier records of the same clip: every earlier entry whose
/// hash, kind or origin device differs from the new one stays, in its order, after the new
/// entry. In particular, the same content copied on another device is a different clip.
pub proof fn recording_a_clip_keeps_other_clips(h: Seq<ClipboardHistoryEntry>, e: ClipboardHistoryEntry)
    ensures
        spec_history_with(h, e) == seq![e] + h.filter(
            |x: ClipboardHistoryEntry|
                x.hash@ != e.hash@ || x.kind != e.kind || x.origin_device_id@ != e.origin_device_id@,
        ),
        forall|i: int|
            0 <= i < h.len() && h[i].origin_device_id@ != e.origin_device_id@ ==> spec_history_with(
                h,
                e,
            ).contains(#[trigger] h[i]),
{
    let differs = |x: ClipboardHistoryEntry|
        x.hash@ != e.hash@ || x.kind != e.kind || x.origin_device_id@ != e.origin_device_id@;
    assert(other_clip(e) =~= differs);
    lemma_filter_members(h, differs);
    assert forall|i: int|
        0 <= i < h.len() && h[i].origin_device_id@ != e.origin_device_id@ implies spec_history_with(
            h,
            e,
        ).contains(#[trigger] h[i]) by {
        assert(h.contains(h[i]));
        assert(h.filter(differs).contains(h[i]));
        let m = choose|m: int| 0 <= m < h.filter(differs).len() && h.filter(differs)[m] == h[i];
        assert(spec_history_with(h, e)[m + 1] == h[i]);
    }
}

/// A remark that was set is the remark the device is shown with afterwards: the trimmed text,
/// or none for a blank one.
pub proof fn remark_reads_back(m: Map<StringView, StringView>, id: StringView, remark: Option<String>)
    ensures
        spec_remark_of(
            match normalized_remark(remark) {
                Some(text) => m.insert(id, text),
                None => m.remove(id),
            },
            id,
        ) == normalized_remark(remark),
{
}

/// Every device a clipboard is relayed to is a paired device that is online and can be
/// dialed, and each paired device is relayed to at most once.
pub proof fn relay_targets_are_paired_online_devices(ids: Seq<String>, p: Seq<DevicePresence>)
    ensures
        targets_for(ids, p).len() <= ids.len(),
        forall|i: int|
            0 <= i < targets_for(ids, p).len() ==> {
                let t = #[trigger] targets_for(ids, p)[i];
                &&& has_str(ids, t.device_id)
                &&& online_in(p, t.device_id)
            },
    decreases ids.len(),
{
    if ids.len() > 0 {
        let init = ids.drop_last();
        relay_targets_are_paired_online_devices(init, p);
        let rest = targets_for(init, p);
        assert forall|i: int| 0 <= i < targets_for(ids, p).len() implies {
            let t = #[trigger] targets_for(ids, p)[i];
            &&& has_str(ids, t.device_id)
            &&& online_in(p, t.device_id)
        } by {
            let t = targets_for(ids, p)[i];
            if i < rest.len() {
                assert(t == rest[i]);
                let j = choose|j: int| 0 <= j < init.len() && init[j]@ == t.device_id;
                assert(ids[j] == init[j]);
            } else {
                let k = presence_index(p, ids.last()@)->0;
                crate::seqs::lemma_first_index_found(p, device_is(ids.last()@), k);
                assert(is_first_match(p, device_is(ids.last()@), k)) by {
                    let c = choose|c: int| is_first_match(p, device_is(ids.last()@), c);
                    assert(is_first_match(p, device_is(ids.last()@), c));
                }
                assert(ids[ids.len() - 1] == ids.last());
                assert(p[k].device_id@ == ids.last()@);
            }
        }
    }
}

/// The transfer list keeps every job, each as often as before.
pub proof fn transfer_list_keeps_every_job(jobs: Seq<TransferJob>)
    ensures
        insertion_sorted(jobs_view(jobs), job_lt()).to_multiset() == jobs_view(jobs).to_multiset(),
{
    crate::seqs::insertion_sort_permutes(jobs_view(jobs), job_lt());
}

/// Each job in the transfer list comes no later in the list's order than the job after it.
pub proof fn transfer_list_is_ordered(jobs: Seq<TransferJob>)
    ensures
        forall|i: int|
            0 <= i < insertion_sorted(jobs_view(jobs), job_lt()).len() - 1 ==> !job_lt()(
                #[trigger] insertion_sorted(jobs_view(jobs), job_lt())[i + 1],
                insertion_sorted(jobs_view(jobs), job_lt())[i],
            ),
{
    crate::seqs::insertion_sort_adjacent(jobs_view(jobs), job_lt());
}

/// The device list keeps every listed device, each as often as before.
pub proof fn device_list_keeps_every_device(devices: Seq<TrustedDeviceView>)
    ensures
        insertion_sorted(devices, device_lt()).to_multiset() == devices.to_multiset(),
{
    crate::seqs::insertion_sort_permutes(devices, device_lt());
}

/// Each device in the device list comes no later in the list's order than the device after
/// it: paired before unpaired, online before offline, then by shown name.
pub proof fn device_list_is_ordered(devices: Seq<TrustedDeviceView>)
    ensures
        forall|i: int|
            0 <= i < insertion_sorted(devices, device_lt()).len() - 1 ==> !device_lt()(
                #[trigger] insertion_sorted(devices, device_lt())[i + 1],
                insertion_sorted(devices, device_lt())[i],
            ),
{
    assert forall|a: TrustedDeviceView, b: TrustedDeviceView| #[trigger] device_lt()(a, b) implies !device_lt()(b, a) by {
        crate::transfers::lemma_chars_lt_asymmetric(spec_shown_name(a), spec_shown_name(b));
    }
    crate::seqs::insertion_sort_adjacent(devices, device_lt());
}

/// The program that opens the cache directory on a platform: Explorer on Windows, `open` on
/// macOS, `xdg-open` elsewhere on desktops; mobile builds cannot open it.
pub fn cache_directory_opener(platform: RuntimePlatform) -> (r: Result<&'static str, RelayError>)
    ensures
        match platform {
            RuntimePlatform::Windows => r matches Ok(p) && p@ == "explorer"@,
            RuntimePlatform::Macos => r matches Ok(p) && p@ == "open"@,
            RuntimePlatform::Android | RuntimePlatform::Ios => r == Err::<&'static str, RelayError>(
                RelayError::CacheDirectoryUnsupported,
            ),
            _ => r matches Ok(p) && p@ == "xdg-open"@,
        },
{
    match platform {
        RuntimePlatform::Windows => Ok("explorer"),
        RuntimePlatform::Macos => Ok("open"),
        RuntimePlatform::Android | RuntimePlatform::Ios => Err(RelayError::CacheDirectoryUnsupported),
        _ => Ok("xdg-open"),
    }
}

/// Received files wait for the user: a received transfer that finishes is ready to paste
/// and waits for the user's choice, unless it was canceled before.
pub proof fn received_files_wait_for_the_user(v: TransferJobView, now: i64)
    requires
        v.stage != TransferStage::Canceled,
    ensures
        ({
            let done = spec_changed_job(
                v,
                JobChange::Finish {
                    stage: TransferStage::Ready,
                    error_message: None,
                    effect: FinishEffect::AwaitPrompt,
                },
                now,
            );
            &&& done.stage == TransferStage::Ready
            &&& done.ready_to_paste
            &&& done.ready_action_state == ReadyActionState::PendingPrompt
        }),
{
}

/// Only what the platform can do is offered: each action on a job is one that the running
/// build supports, and only a received transfer that is ready has any.
pub proof fn offered_actions_are_supported(capabilities: RuntimeCapabilities, job: TransferJobView)
    ensures
        forall|i: int|
            0 <= i < spec_available_actions(capabilities, job).len() ==> {
                let a = #[trigger] spec_available_actions(capabilities, job)[i];
                &&& job.direction == TransferDirection::Inbound
                &&& job.stage == TransferStage::Ready
                &&& (a == TransferAction::PlaceOnClipboard ==> capabilities.clipboard_files)
                &&& (a == TransferAction::ShareExternally ==> capabilities.share_externally)
                &&& (a == TransferAction::ExportToFiles ==> capabilities.export_to_files)
            },
{
    let p = if capabilities.clipboard_files {
        seq![TransferAction::PlaceOnClipboard]
    } else {
        Seq::<TransferAction>::empty()
    };
    let s = if capabilities.share_externally {
        seq![TransferAction::ShareExternally]
    } else {
        Seq::<TransferAction>::empty()
    };
    let e = if capabilities.export_to_files {
        seq![TransferAction::ExportToFiles]
    } else {
        Seq::<TransferAction>::empty()
    };
    assert forall|i: int| 0 <= i < spec_available_actions(capabilities, job).len() implies {
        let a = #[trigger] spec_available_actions(capabilities, job)[i];
        &&& job.direction == TransferDirection::Inbound
        &&& job.stage == TransferStage::Ready
        &&& (a == TransferAction::PlaceOnClipboard ==> capabilities.clipboard_files)
        &&& (a == TransferAction::ShareExternally ==> capabilities.share_externally)
        &&& (a == TransferAction::ExportToFiles ==> capabilities.export_to_files)
    } by {
        let all = p + s + e;
        assert(spec_available_actions(capabilities, job) == all);
        if i < p.len() {
            assert(all[i] == p[i]);
        } else if i < p.len() + s.len() {
            assert(all[i] == s[i - p.len()]);
        } else {
            assert(all[i] == e[i - p.len() - s.len()]);
        }
    }
}

/// Devices are listed only while they are on the network: every listed device is a present
/// peer other than this device.
pub proof fn listed_devices_are_present_peers(
    p: Seq<DevicePresence>,
    local: StringView,
    remarks: Map<StringView, StringView>,
    active: Seq<String>,
)
    ensures
        forall|i: int|
            0 <= i < spec_collected_devices(p, local, remarks, active).len() ==> {
                let t = #[trigger] spec_collected_devices(p, local, remarks, active)[i];
                &&& t.device_id != local
                &&& exists|k: int| 0 <= k < p.len() && p[k].device_id@ == t.device_id
            },
    decreases p.len(),
{
    if p.len() > 0 {
        let init = p.drop_last();
        listed_devices_are_present_peers(init, local, remarks, active);
        let prev = spec_collected_devices(init, local, remarks, active);
        let all = spec_collected_devices(p, local, remarks, active);
        assert forall|i: int| 0 <= i < all.len() implies {
            let t = #[trigger] all[i];
            &&& t.device_id != local
            &&& exists|k: int| 0 <= k < p.len() && p[k].device_id@ == t.device_id
        } by {
            if i < prev.len() {
                assert(all[i] == prev[i]);
                let t = prev[i];
                let k = choose|k: int| 0 <= k < init.len() && init[k].device_id@ == t.device_id;
                assert(p[k] == init[k]);
            } else {
                assert(p[p.len() - 1].device_id@ == all[i].device_id);
            }
        }
    }
}

/// Filtering keeps strings distinct.
pub proof fn lemma_filter_unique(v: Seq<String>, p: spec_fn(String) -> bool)
    requires
        strings_unique(v),
    ensures
        strings_unique(v.filter(p)),
    decreases v.len(),
{
    reveal(Seq::filter);
    if v.len() > 0 {
        let t = v.drop_last();
        assert(strings_unique(t));
        lemma_filter_unique(t, p);
        lemma_filter_members(t, p);
        let f = t.filter(p);
        if p(v.last()) {
            let g = f.push(v.last());
            assert forall|i: int, j: int| 0 <= i < j < g.len() implies g[i]@ != g[j]@ by {
                if j == g.len() - 1 {
                    assert(f.contains(f[i]));
                    assert(t.contains(f[i]));
                    let k = choose|k: int| 0 <= k < t.len() && t[k] == f[i];
                    assert(v[k] == t[k]);
                    assert(v[v.len() - 1] == v.last());
                } else {
                    assert(g[i] == f[i]);
                    assert(g[j] == f[j]);
                }
            }
        }
    }
}

} // verus!
