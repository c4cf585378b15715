use relayclip::digest::sha256_hex;
use relayclip::discovery::{
    advertised_properties, resolved_to_peer, service_host_name, service_instance_name, ResolvedRecord,
};
use relayclip::error::RelayError;
use relayclip::i18n;
use relayclip::mobile_bridge::RuntimeBridge;
use relayclip::models::{capabilities, AppLanguage, LocalDevice, RuntimePlatform, PROTOCOL_VERSION};
use relayclip::net::IpAddress;
use relayclip::models::{AppSettings, PersistentState};
use relayclip::runtime::{DiscoveredPeer, RelayRuntime};
use relayclip::store::{decode_material, default_state, device_name_from_host, normalize_state};
use relayclip::tray::{build_menu, tray_action, TrayAction};

#[test]
fn identity_material_is_base64() {
    assert_eq!(decode_material("aGk="), Ok(b"hi".to_vec()));
    assert_eq!(decode_material(""), Ok(vec![]));
    assert_eq!(decode_material("not base64!"), Err(RelayError::InvalidIdentityMaterial));
}

#[test]
fn device_names_come_from_the_host() {
    assert_eq!(device_name_from_host(Some("studio".to_string())), "studio");
    assert_eq!(device_name_from_host(Some("  ".to_string())), "RelayClip Device");
    assert_eq!(device_name_from_host(None), "RelayClip Device");
}

#[test]
fn a_first_start_makes_a_complete_identity() {
    let state = default_state("windows").expect("an identity can be made");
    assert_eq!(state.local_device.platform, "Windows");
    assert_eq!(state.local_device.protocol_version, PROTOCOL_VERSION);
    assert_eq!(state.local_device.capabilities, capabilities());
    assert_eq!(state.local_device.device_id.len(), 36);
    assert_eq!(state.local_device.device_name, state.settings.device_name);
    assert!(state.settings.sync_enabled && state.settings.discovery_enabled);
    assert!(!state.settings.launch_on_login);
    let cert = decode_material(&state.certificate_der_b64).unwrap();
    assert_eq!(state.local_device.fingerprint, sha256_hex(&cert));
    assert!(decode_material(&state.private_key_der_b64).is_ok());
}

#[test]
fn a_loaded_state_is_mended() {
    let mut state = default_state("linux").unwrap();
    let id = state.local_device.device_id.clone();
    state.settings.device_name = "Renamed".to_string();
    state.local_device.platform = "stale".to_string();
    state.local_device.fingerprint = " ".to_string();
    assert_eq!(normalize_state(&mut state, "macos"), Ok(()));
    assert_eq!(state.local_device.device_id, id);
    assert_eq!(state.local_device.device_name, "Renamed");
    assert_eq!(state.local_device.platform, "macOS");
    let cert = decode_material(&state.certificate_der_b64).unwrap();
    assert_eq!(state.local_device.fingerprint, sha256_hex(&cert));
    state.local_device.fingerprint = String::new();
    state.certificate_der_b64 = "***".to_string();
    assert_eq!(normalize_state(&mut state, "macos"), Err(RelayError::InvalidIdentityMaterial));
    let mut blank = default_state("linux").unwrap();
    blank.local_device.device_id = "  ".to_string();
    blank.private_key_der_b64 = String::new();
    assert_eq!(normalize_state(&mut blank, "linux"), Ok(()));
    assert_eq!(blank.local_device.device_id.len(), 36);
    assert!(!blank.private_key_der_b64.is_empty());
}

fn local() -> LocalDevice {
    LocalDevice {
        device_id: "abcdefgh-1234".to_string(),
        device_name: "Desk".to_string(),
        platform: "Windows".to_string(),
        protocol_version: PROTOCOL_VERSION.to_string(),
        capabilities: capabilities(),
        fingerprint: "fp".to_string(),
    }
}

#[test]
fn advertised_names_and_properties() {
    assert_eq!(service_instance_name("Desk", "abcdefgh-1234"), "Desk-abcdefgh");
    assert_eq!(service_host_name("abcdefgh-1234"), "relayclip-abcdefgh.local.");
    let props = advertised_properties(&local(), 4242);
    let pairs: Vec<(&str, &str)> = props.iter().map(|(k, v)| (k.as_str(), v.as_str())).collect();
    assert_eq!(
        pairs,
        vec![
            ("device_id", "abcdefgh-1234"),
            ("device_name", "Desk"),
            ("platform", "Windows"),
            ("protocol_version", "relayclip/v1"),
            ("capabilities", "text_utf8,image_png,file_refs"),
            ("pubkey_fingerprint", "fp"),
            ("listen_port", "4242"),
        ]
    );
}

fn record(device_id: Option<&str>) -> ResolvedRecord {
    ResolvedRecord {
        fullname: "Laptop-peer._relayclip._tcp.local.".to_string(),
        device_id: device_id.map(|s| s.to_string()),
        device_name: None,
        platform: Some("macOS".to_string()),
        protocol_version: None,
        capabilities: Some(" text_utf8 ,, image_png ,".to_string()),
        fingerprint: None,
        host_name: "peer.local.".to_string(),
        addresses: vec![IpAddress::V4(10, 0, 0, 2)],
        port: 4000,
    }
}

#[test]
fn advertisements_become_peers() {
    assert!(resolved_to_peer(record(None), "me").is_none());
    assert!(resolved_to_peer(record(Some("me")), "me").is_none());
    let peer = resolved_to_peer(record(Some("peer")), "me").unwrap();
    assert_eq!(peer.device_id, "peer");
    assert_eq!(peer.name, "RelayClip Peer");
    assert_eq!(peer.platform, "macOS");
    assert_eq!(peer.protocol_version, PROTOCOL_VERSION);
    assert_eq!(peer.capabilities, vec!["text_utf8".to_string(), "image_png".to_string()]);
    assert_eq!(peer.fingerprint, "");
    assert_eq!(peer.host_name.as_deref(), Some("peer.local."));
    assert_eq!(peer.port, 4000);
}

fn snapshot_with(sync_enabled: bool) -> relayclip::models::AppStateSnapshot {
    let state = PersistentState {
        local_device: local(),
        trusted_devices: vec![],
        settings: AppSettings {
            device_name: "Desk".to_string(),
            launch_on_login: false,
            background_sync_enabled: true,
            discovery_enabled: true,
            sync_enabled,
            active_device_ids: vec![],
            device_remarks: vec![],
            blocked_auto_pair_device_ids: vec![],
            language: AppLanguage::En,
        },
        certificate_der_b64: String::new(),
        private_key_der_b64: String::new(),
    };
    let mut rt = RelayRuntime::new(state, vec![], vec![], RuntimeBridge::new(RuntimePlatform::Macos), 0);
    rt.upsert_discovered_device(
        DiscoveredPeer {
            service_fullname: "p".to_string(),
            device_id: "peer".to_string(),
            name: "Laptop".to_string(),
            platform: "macOS".to_string(),
            protocol_version: PROTOCOL_VERSION.to_string(),
            capabilities: vec![],
            fingerprint: "f".to_string(),
            host_name: None,
            addresses: vec![IpAddress::V4(192, 168, 0, 9)],
            port: 1,
        },
        1,
    );
    rt.snapshot()
}

#[test]
fn the_tray_menu_lists_online_devices() {
    let menu = build_menu(&snapshot_with(true));
    assert_eq!(menu.active_label, "Paired: Laptop");
    assert_eq!(menu.device_items.len(), 1);
    assert_eq!(menu.device_items[0].id, "device:peer");
    assert_eq!(menu.device_items[0].label, "* Laptop");
    assert_eq!(menu.toggle_sync.label, i18n::tray_pause_sync(AppLanguage::En));
    assert_eq!(menu.quit.id, "quit-app");
    let paused = build_menu(&snapshot_with(false));
    assert_eq!(paused.toggle_sync.label, "Resume Sync");
}

#[test]
fn the_tray_menu_waits_for_devices() {
    let mut snapshot = snapshot_with(true);
    snapshot.devices.clear();
    let menu = build_menu(&snapshot);
    assert_eq!(menu.active_label, "Paired: No paired devices");
    assert_eq!(menu.device_items.len(), 1);
    assert_eq!(menu.device_items[0].id, "device:none");
    assert_eq!(menu.device_items[0].label, "Waiting for devices");
}

#[test]
fn tray_clicks() {
    assert!(matches!(tray_action("open-settings"), TrayAction::OpenSettings));
    assert!(matches!(tray_action("toggle-sync"), TrayAction::ToggleSync));
    assert!(matches!(tray_action("quit-app"), TrayAction::Quit));
    match tray_action("device:peer-1") {
        TrayAction::SelectDevice(id) => assert_eq!(id, "peer-1"),
        _ => panic!("a device entry selects the device"),
    }
    match tray_action("device:device:x") {
        TrayAction::SelectDevice(id) => assert_eq!(id, "x"),
        _ => panic!("every leading prefix is taken off"),
    }
    assert!(matches!(tray_action("other"), TrayAction::Nothing));
}
