use relayclip::clipboard::{clipboard_image, clipboard_text, image_clipboard_packet, packet_from_remote, write_file_list, write_remote};
use relayclip::error::RelayError;
use relayclip::i18n;
use relayclip::mobile_bridge::RuntimeBridge;
use relayclip::models::{
    capabilities, AppLanguage, AppSettings, ClipboardPayloadKind, LocalDevice, PersistentState,
    RuntimePlatform, SyncState, TransferEntry, TransferEntryKind, PROTOCOL_VERSION,
};
use relayclip::runtime::{cache_directory_opener, directories_to_create, history_payload_file_name, RelayRuntime};

fn runtime() -> RelayRuntime {
    let state = PersistentState {
        local_device: LocalDevice {
            device_id: "local-1".to_string(),
            device_name: "Desk".to_string(),
            platform: "Windows".to_string(),
            protocol_version: PROTOCOL_VERSION.to_string(),
            capabilities: capabilities(),
            fingerprint: "fp".to_string(),
        },
        trusted_devices: vec![],
        settings: AppSettings {
            device_name: "Desk".to_string(),
            launch_on_login: false,
            background_sync_enabled: true,
            discovery_enabled: true,
            sync_enabled: true,
            active_device_ids: vec![],
            device_remarks: vec![],
            blocked_auto_pair_device_ids: vec![],
            language: AppLanguage::ZhCn,
        },
        certificate_der_b64: String::new(),
        private_key_der_b64: String::new(),
    };
    RelayRuntime::new(state, vec![], vec![], RuntimeBridge::new(RuntimePlatform::Linux), 0)
}

#[test]
fn images_are_encoded_as_png_and_read_back() {
    let pixels: Vec<u8> = vec![255, 0, 0, 255, 0, 255, 0, 255];
    let packet = image_clipboard_packet(2, 1, pixels.clone()).unwrap();
    assert_eq!(packet.meta.kind, ClipboardPayloadKind::Image);
    assert_eq!(packet.meta.mime, "image/png");
    assert_eq!(&packet.bytes[..8], &[0x89, b'P', b'N', b'G', 0x0d, 0x0a, 0x1a, 0x0a]);
    assert_ne!(packet.bytes, pixels);
    let (width, height, decoded) = clipboard_image(&packet).unwrap();
    assert_eq!((width, height), (2, 1));
    assert_eq!(decoded, pixels);
}

#[test]
fn image_buffers_must_fill_the_image() {
    assert!(matches!(image_clipboard_packet(2, 2, vec![0; 15]), Err(RelayError::ImageLayoutInvalid)));
    assert!(matches!(image_clipboard_packet(2, 2, vec![0; 17]), Err(RelayError::ImageLayoutInvalid)));
    let not_png = packet_from_remote(ClipboardPayloadKind::Image, "image/png".to_string(), "h".to_string(), vec![1, 2, 3]).unwrap();
    assert!(matches!(clipboard_image(&not_png), Err(RelayError::ImageDecodingFailed)));
}

#[test]
fn remote_text_must_be_utf8() {
    let good = packet_from_remote(ClipboardPayloadKind::Text, "text/plain".to_string(), "h".to_string(), "héllo".as_bytes().to_vec()).unwrap();
    assert_eq!(clipboard_text(&good), Ok("héllo".to_string()));
    let bad = packet_from_remote(ClipboardPayloadKind::Text, "text/plain".to_string(), "h".to_string(), vec![0xff, 0xfe]).unwrap();
    assert_eq!(clipboard_text(&bad), Err(RelayError::ClipboardTextNotUtf8));
}

#[test]
fn builds_without_a_clipboard_bridge_refuse_writes() {
    let packet = packet_from_remote(ClipboardPayloadKind::Text, "text/plain".to_string(), "h".to_string(), vec![65]).unwrap();
    assert_eq!(write_remote(&packet), Err(RelayError::MobileClipboardUnavailable));
    assert_eq!(write_file_list(&vec![]), Err(RelayError::MobileFileClipboardUnavailable));
}

#[test]
fn envelopes_are_numbered_in_turn() {
    let mut rt = runtime();
    let packet = packet_from_remote(ClipboardPayloadKind::Text, "text/plain".to_string(), "h".to_string(), vec![65]).unwrap();
    let first = rt.envelope_for_target("peer", &packet);
    let second = rt.envelope_for_target("peer", &packet);
    assert_eq!(first.sequence, 1);
    assert_eq!(second.sequence, 2);
    assert_eq!(first.origin_device_id, "local-1");
    assert_eq!(first.target_device_id, "peer");
    rt.sequence = u64::MAX;
    let last = rt.envelope_for_target("peer", &packet);
    assert_eq!(last.sequence, u64::MAX);
    assert_eq!(rt.sequence, 0);
}

#[test]
fn clipboard_errors_show_on_the_status_line() {
    let mut rt = runtime();
    rt.emit_clipboard_error("Clipboard read failed".to_string(), 42);
    assert_eq!(rt.sync_status.state, SyncState::Error);
    assert_eq!(rt.sync_status.message.as_deref(), Some("Clipboard read failed"));
    assert_eq!(rt.sync_status.updated_at, 42);
}

#[test]
fn chinese_status_lines() {
    let rt = runtime();
    assert_eq!(rt.sync_status.message, Some(i18n::advertising(AppLanguage::ZhCn)));
    assert_eq!(i18n::sending(AppLanguage::ZhCn, &ClipboardPayloadKind::Image, 3), "正在向 3 台设备发送图片");
    assert_eq!(i18n::received(AppLanguage::ZhCn, &ClipboardPayloadKind::Text), "已接收文本");
}

#[test]
fn cache_directories_open_with_the_platform_tool() {
    assert_eq!(cache_directory_opener(RuntimePlatform::Windows), Ok("explorer"));
    assert_eq!(cache_directory_opener(RuntimePlatform::Macos), Ok("open"));
    assert_eq!(cache_directory_opener(RuntimePlatform::Linux), Ok("xdg-open"));
    assert_eq!(cache_directory_opener(RuntimePlatform::Unknown), Ok("xdg-open"));
    assert_eq!(cache_directory_opener(RuntimePlatform::Android), Err(RelayError::CacheDirectoryUnsupported));
}

#[test]
fn received_folders_are_created_under_the_payload_root() {
    let entries = vec![
        TransferEntry { relative_path: "photos".to_string(), entry_kind: TransferEntryKind::Directory, size: 0, modified_at: None },
        TransferEntry { relative_path: "photos/a.png".to_string(), entry_kind: TransferEntryKind::File, size: 3, modified_at: None },
        TransferEntry { relative_path: "photos/sub".to_string(), entry_kind: TransferEntryKind::Directory, size: 0, modified_at: None },
    ];
    assert_eq!(
        directories_to_create("/stage/t/payload", &entries),
        vec!["/stage/t/payload/photos".to_string(), "/stage/t/payload/photos/sub".to_string()]
    );
    assert_eq!(history_payload_file_name(ClipboardPayloadKind::Text), "payload.txt");
    assert_eq!(history_payload_file_name(ClipboardPayloadKind::Image), "payload.png");
}

#[test]
fn certificates_are_issued_for_the_device_host_name() {
    assert_eq!(relayclip::transport::certificate_host_name("abc-1"), "relayclip-abc-1.local");
    assert_eq!(relayclip::transport::certificate_host_name(""), "relayclip-.local");
}

#[test]
fn file_list_hashes_are_sixty_four_hex_digits() {
    let stamp = relayclip::transfers::PathStamp { path: "/x/a".to_string(), len: 3, modified: None };
    let hash = relayclip::transfers::hash_paths(&vec![stamp]);
    assert_eq!(hash.len(), 64);
    assert!(hash.chars().all(|c| c.is_ascii_digit() || ('a'..='f').contains(&c)));
}

#[test]
fn a_state_with_its_identity_is_mended_without_fail() {
    let mut state = relayclip::store::default_state("linux").unwrap();
    let certificate = state.certificate_der_b64.clone();
    let fingerprint = state.local_device.fingerprint.clone();
    assert_eq!(relayclip::store::normalize_state(&mut state, "windows"), Ok(()));
    assert_eq!(state.certificate_der_b64, certificate);
    assert_eq!(state.local_device.fingerprint, fingerprint);
    state.local_device.fingerprint = String::new();
    assert_eq!(relayclip::store::normalize_state(&mut state, "windows"), Ok(()));
    assert_eq!(state.local_device.fingerprint, fingerprint);
}

#[test]
fn the_monitor_hands_on_a_clipboard_only_when_it_changes() {
    let mut last: Option<String> = None;
    assert!(relayclip::clipboard::monitor_step(&mut last, Some("h1".to_string())));
    assert!(!relayclip::clipboard::monitor_step(&mut last, Some("h1".to_string())));
    assert!(!relayclip::clipboard::monitor_step(&mut last, None));
    assert_eq!(last, Some("h1".to_string()));
    assert!(relayclip::clipboard::monitor_step(&mut last, Some("h2".to_string())));
    assert_eq!(last, Some("h2".to_string()));
}

#[test]
fn a_new_device_id_is_uuid_text() {
    let state = relayclip::store::default_state("linux").unwrap();
    let id: Vec<char> = state.local_device.device_id.chars().collect();
    assert_eq!(id.len(), 36);
    for (i, c) in id.iter().enumerate() {
        if i == 8 || i == 13 || i == 18 || i == 23 {
            assert_eq!(*c, '-');
        } else {
            assert!(c.is_ascii_digit() || ('a'..='f').contains(c));
        }
    }
    assert_eq!(id[14], '4');
    assert!(!relayclip::store::decode_material(&state.private_key_der_b64).unwrap().is_empty());
}
