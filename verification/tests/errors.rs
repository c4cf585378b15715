use relayclip::clipboard::image_clipboard_packet;
use relayclip::error::RelayError;
use relayclip::i18n;
use relayclip::mobile_bridge::RuntimeBridge;
use relayclip::models::{
    capabilities, AppLanguage, AppSettings, ClipboardHistoryEntry, ClipboardHistoryKind,
    ClipboardHistorySource, LocalDevice, PersistentState, RuntimePermissionState, RuntimePlatform,
    SettingsPatch, TransferStage, PROTOCOL_VERSION,
};
use relayclip::net::IpAddress;
use relayclip::runtime::{DiscoveredPeer, ReadyPurpose, RelayRuntime};
use relayclip::transport::{encode_frame, frame_length, generate_self_signed_identity, DevicePairingUpdate, IncomingTransferOffer, MAX_FRAME_SIZE};

const LOCAL: &str = "local-0001";

fn runtime(platform: RuntimePlatform) -> RelayRuntime {
    let state = PersistentState {
        local_device: LocalDevice {
            device_id: LOCAL.to_string(),
            device_name: "Desk".to_string(),
            platform: "Windows".to_string(),
            protocol_version: PROTOCOL_VERSION.to_string(),
            capabilities: capabilities(),
            fingerprint: "fp".to_string(),
        },
        trusted_devices: vec![],
        settings: AppSettings {
            device_name: "Desk".to_string(),
            launch_on_login: false,
            background_sync_enabled: true,
            discovery_enabled: true,
            sync_enabled: true,
            active_device_ids: vec![],
            device_remarks: vec![],
            blocked_auto_pair_device_ids: vec![],
            language: AppLanguage::En,
        },
        certificate_der_b64: String::new(),
        private_key_der_b64: String::new(),
    };
    RelayRuntime::new(state, vec![], vec![], RuntimeBridge::new(platform), 0)
}

fn peer(id: &str) -> DiscoveredPeer {
    DiscoveredPeer {
        service_fullname: format!("{id}.svc"),
        device_id: id.to_string(),
        name: "Laptop".to_string(),
        platform: "macOS".to_string(),
        protocol_version: PROTOCOL_VERSION.to_string(),
        capabilities: vec![],
        fingerprint: "f".to_string(),
        host_name: None,
        addresses: vec![IpAddress::V4(192, 168, 1, 2)],
        port: 4000,
    }
}

fn update(origin: &str, target: &str, paired: bool) -> DevicePairingUpdate {
    DevicePairingUpdate {
        origin_device_id: origin.to_string(),
        target_device_id: target.to_string(),
        paired,
        origin_device_name: "Tablet".to_string(),
        origin_platform: "Android".to_string(),
        origin_capabilities: vec!["text_utf8".to_string()],
        origin_fingerprint: "ft".to_string(),
        origin_listen_port: Some(5000),
    }
}

#[test]
fn offline_devices_cannot_be_paired() {
    let mut rt = runtime(RuntimePlatform::Windows);
    rt.upsert_discovered_device(peer("peer-a"), 1);
    rt.upsert_discovered_device(peer("peer-b"), 1);
    rt.presence[1].is_online = false;
    assert_eq!(rt.set_device_pairing("peer-b", true, 2).err(), Some(RelayError::DeviceOffline));
}

#[test]
fn files_not_yet_ready_cannot_be_shared_or_exported() {
    let mut rt = runtime(RuntimePlatform::Android);
    let offer = IncomingTransferOffer {
        transfer_id: "t".to_string(),
        origin_device_id: "peer".to_string(),
        target_device_id: LOCAL.to_string(),
        display_name: "x".to_string(),
        total_bytes: 0,
        total_entries: 0,
        entries: vec![],
        top_level_names: vec![],
        warning_message: None,
    };
    rt.begin_incoming_transfer(&offer, 1);
    assert_eq!(rt.ready_inbound_job("t", ReadyPurpose::Share).err(), Some(RelayError::NotReadyToShare));
    assert_eq!(rt.ready_inbound_job("t", ReadyPurpose::Export).err(), Some(RelayError::NotReadyToExport));
    assert_eq!(rt.share_received_transfer("t", &vec![]), Err(RelayError::NotReadyToShare));
    rt.complete_incoming_transfer("t", 2);
    assert_eq!(rt.share_received_transfer("t", &vec!["/a".to_string()]), Err(RelayError::ShareSheetUnavailable));
    assert_eq!(rt.export_received_transfer("t", &vec![]), Err(RelayError::NoTransferFiles));
    let listed = rt.decorated_transfer_jobs();
    assert!(listed[0].available_actions.is_empty());
}

fn entry(id: &str, kind: ClipboardHistoryKind, source: ClipboardHistorySource, payload_path: Option<&str>) -> ClipboardHistoryEntry {
    ClipboardHistoryEntry {
        entry_id: id.to_string(),
        kind,
        source,
        origin_device_id: LOCAL.to_string(),
        origin_device_name: "Desk".to_string(),
        display_name: "x".to_string(),
        preview_text: None,
        mime: None,
        hash: format!("hash-{id}"),
        size: 0,
        file_count: None,
        created_at: 0,
        payload_path: payload_path.map(|p| p.to_string()),
        transfer_id: None,
        top_level_names: vec!["a".to_string()],
    }
}

#[test]
fn history_entries_without_their_files_cannot_be_restored() {
    let mut rt = runtime(RuntimePlatform::Windows);
    rt.push_clipboard_history(entry("text", ClipboardHistoryKind::Text, ClipboardHistorySource::Local, None));
    rt.push_clipboard_history(entry("files", ClipboardHistoryKind::FileRefs, ClipboardHistorySource::Remote, None));
    rt.push_clipboard_history(entry("got", ClipboardHistoryKind::FileRefs, ClipboardHistorySource::Transfer, Some("/stage/t")));
    assert!(matches!(rt.restore_plan("text"), Err(RelayError::ClipboardPayloadMissing)));
    assert!(matches!(rt.restore_plan("files"), Err(RelayError::ClipboardFileListMissing)));
    match rt.restore_plan("got") {
        Ok(relayclip::runtime::RestorePlan::ReceivedFiles { candidates, hash }) => {
            assert_eq!(candidates, vec!["/stage/t/payload/a".to_string()]);
            assert_eq!(hash, "hash-got");
        }
        _ => panic!("a received transfer restores its staged files"),
    }
    let mut image = entry("img", ClipboardHistoryKind::Image, ClipboardHistorySource::Local, Some("/h/img"));
    image.mime = None;
    rt.push_clipboard_history(image);
    match rt.restore_plan("img") {
        Ok(relayclip::runtime::RestorePlan::Payload { mime, .. }) => assert_eq!(mime, "application/octet-stream"),
        _ => panic!("an image entry restores its payload"),
    }
}

#[test]
fn pairing_updates_must_be_addressed_here() {
    let mut rt = runtime(RuntimePlatform::Windows);
    assert_eq!(rt.accept_remote_device_pairing_update(&update("tab", "else", true), None, 1), Err(RelayError::PairingUpdateNotAddressedHere));
    assert_eq!(rt.accept_remote_device_pairing_update(&update(LOCAL, LOCAL, true), None, 1), Err(RelayError::CannotPairSelf));
    assert_eq!(rt.accept_remote_device_pairing_update(&update("tab", LOCAL, true), Some(IpAddress::V4(10, 0, 0, 7)), 2), Ok(()));
    assert!(rt.is_paired_device("tab"));
    assert_eq!(rt.presence.len(), 1);
    assert_eq!(rt.presence[0].name, "Tablet");
    assert_eq!(rt.presence[0].port, 5000);
    assert_eq!(rt.presence[0].addresses, vec![IpAddress::V4(10, 0, 0, 7)]);
    assert_eq!(rt.accept_remote_device_pairing_update(&update("tab", LOCAL, false), None, 3), Ok(()));
    assert!(!rt.is_paired_device("tab"));
    assert!(rt.is_auto_pair_blocked("tab"));
}

#[test]
fn pairing_updates_describe_this_device() {
    let mut rt = runtime(RuntimePlatform::Windows);
    let before = rt.build_device_pairing_update("peer".to_string(), true);
    assert_eq!(before.origin_device_id, LOCAL);
    assert_eq!(before.origin_device_name, "Desk");
    assert_eq!(before.origin_listen_port, None);
    rt.listen_port = 7000;
    let after = rt.build_device_pairing_update("peer".to_string(), false);
    assert_eq!(after.origin_listen_port, Some(7000));
    assert!(!after.paired);
    assert_eq!(after.origin_capabilities, capabilities());
}

#[test]
fn oversized_frames_are_refused() {
    assert_eq!(encode_frame(&vec![0u8; MAX_FRAME_SIZE + 1]), Err(RelayError::OutgoingFrameTooLarge));
    assert_eq!(encode_frame(&vec![0u8; MAX_FRAME_SIZE]).map(|f| f.len()), Ok(MAX_FRAME_SIZE + 4));
    assert_eq!(frame_length([0x7f, 0, 0, 0]), Err(RelayError::IncomingFrameTooLarge));
    assert_eq!(frame_length([0, 0xc0, 0, 0]), Ok(MAX_FRAME_SIZE));
}

#[test]
fn identities_need_a_valid_host_name() {
    assert_eq!(generate_self_signed_identity("Desk", "é").err(), Some(RelayError::IdentityGenerationFailed));
    assert!(generate_self_signed_identity("Desk", "abc").is_ok());
}

#[test]
fn empty_images_cannot_be_encoded() {
    assert!(matches!(image_clipboard_packet(0, 0, vec![]), Err(RelayError::ImageEncodingFailed)));
}

#[test]
fn settings_changes_say_when_discovery_restarts() {
    let mut rt = runtime(RuntimePlatform::Windows);
    let none = SettingsPatch { device_name: None, launch_on_login: Some(true), background_sync_enabled: None, discovery_enabled: None, sync_enabled: None, language: None };
    assert_eq!(rt.update_settings(none), None);
    assert!(rt.persistent.settings.launch_on_login);
    let rename = SettingsPatch { device_name: Some("  Studio ".to_string()), launch_on_login: None, background_sync_enabled: None, discovery_enabled: None, sync_enabled: None, language: Some(AppLanguage::ZhCn) };
    assert_eq!(rt.update_settings(rename), Some(true));
    assert_eq!(rt.local_device().device_name, "Studio");
    assert_eq!(rt.language(), AppLanguage::ZhCn);
    let off = SettingsPatch { device_name: None, launch_on_login: None, background_sync_enabled: None, discovery_enabled: Some(false), sync_enabled: None, language: None };
    assert_eq!(rt.update_settings(off), Some(false));
}

#[test]
fn permissions_can_be_requested_through_the_relay() {
    let mut rt = runtime(RuntimePlatform::Ios);
    assert_eq!(rt.runtime_permissions().notifications, RuntimePermissionState::Prompt);
    let granted = rt.request_runtime_permissions();
    assert_eq!(granted.notifications, RuntimePermissionState::Granted);
    assert_eq!(rt.runtime_permissions().notifications, RuntimePermissionState::Granted);
}

#[test]
fn sent_transfers_complete_as_placed() {
    let mut rt = runtime(RuntimePlatform::Windows);
    rt.upsert_discovered_device(peer("peer-a"), 1);
    let started = rt.begin_outbound_transfers("x", 2);
    let id = started[0].0.clone();
    rt.complete_outbound_transfer(&id, 3);
    let job = rt.find_transfer_job(&id).unwrap();
    assert_eq!(job.stage, TransferStage::Ready);
    assert!(!job.ready_to_paste);
    assert_eq!(job.finished_at, Some(3));
}

#[test]
fn remaining_messages() {
    assert_eq!(i18n::sync_status_unavailable(AppLanguage::En), i18n::sync_status_unavailable(AppLanguage::En));
    assert!(!i18n::sync_status_unavailable(AppLanguage::En).is_empty());
    assert_eq!(i18n::tray_paired_devices(AppLanguage::En), "Paired Devices");
    assert_eq!(i18n::tray_nearby_devices(AppLanguage::ZhCn), "附近设备");
    assert!(i18n::route_lookup_failed(AppLanguage::En, "boom").contains("boom"));
    assert!(i18n::relay_failed(AppLanguage::En, "boom").contains("boom"));
}
