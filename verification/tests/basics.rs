use relayclip::clipboard::{hash_bytes, image_packet, monitor_should_dispatch, packet_from_remote, text_packet, MAX_IMAGE_BYTES};
use relayclip::digest::sha256_hex;
use relayclip::error::{to_error_string, RelayError};
use relayclip::i18n;
use relayclip::mobile_bridge::RuntimeBridge;
use relayclip::models::{
    capabilities, default_background_sync_enabled, platform_label, AppLanguage, BackgroundSyncMode,
    ClipboardPayloadKind, RuntimeCapabilities, RuntimePermissionState, RuntimePermissions,
    RuntimePlatform,
};
use relayclip::net::{preferred_socket_addr, IpAddress, SocketAddress};
use relayclip::text::{decimal, is_blank, trim};
use relayclip::transport::{encode_frame, envelope_from_packet_at, frame_length, kind_from_i32};

#[test]
fn locale_tags_pick_the_language() {
    assert_eq!(AppLanguage::from_locale_tag("zh-CN"), AppLanguage::ZhCn);
    assert_eq!(AppLanguage::from_locale_tag("ZH_tw"), AppLanguage::ZhCn);
    assert_eq!(AppLanguage::from_locale_tag("en-US"), AppLanguage::En);
    assert_eq!(AppLanguage::from_locale_tag(""), AppLanguage::En);
    assert_eq!(AppLanguage::for_locale(None), AppLanguage::En);
    assert_eq!(AppLanguage::for_locale(Some("zh".to_string())), AppLanguage::ZhCn);
}

#[test]
fn platforms_and_labels() {
    assert_eq!(RuntimePlatform::from_target_os("windows"), RuntimePlatform::Windows);
    assert_eq!(RuntimePlatform::from_target_os("macos"), RuntimePlatform::Macos);
    assert_eq!(RuntimePlatform::from_target_os("android"), RuntimePlatform::Android);
    assert_eq!(RuntimePlatform::from_target_os("plan9"), RuntimePlatform::Unknown);
    assert!(RuntimePlatform::Ios.is_mobile());
    assert!(!RuntimePlatform::Linux.is_mobile());
    assert_eq!(platform_label("windows"), "Windows");
    assert_eq!(platform_label("macos"), "macOS");
    assert_eq!(platform_label("linux"), "linux");
    let caps = capabilities();
    assert_eq!(caps, vec!["text_utf8".to_string(), "image_png".to_string(), "file_refs".to_string()]);
    assert!(default_background_sync_enabled());
}

#[test]
fn desktop_capabilities_and_permissions() {
    let caps = RuntimeCapabilities::for_platform(RuntimePlatform::Windows);
    assert!(caps.tray && caps.autostart && caps.clipboard_monitor && caps.clipboard_files);
    assert!(caps.open_cache_directory && caps.native_discovery);
    assert!(!caps.share_externally && !caps.export_to_files && !caps.background_sync);
    let perms = RuntimePermissions::for_platform(RuntimePlatform::Windows, &caps);
    assert_eq!(perms.notifications, RuntimePermissionState::Unsupported);
    assert_eq!(perms.local_network, RuntimePermissionState::Granted);
    assert_eq!(perms.clipboard, RuntimePermissionState::Granted);
    assert_eq!(perms.background_sync, RuntimePermissionState::Unsupported);
    assert_eq!(perms.file_access, RuntimePermissionState::Granted);
}

#[test]
fn mobile_permissions_start_as_prompts_and_are_granted_on_request() {
    let mut bridge = RuntimeBridge::new(RuntimePlatform::Android);
    let caps = bridge.capabilities();
    assert!(caps.background_sync && !caps.tray && !caps.native_discovery);
    let perms = bridge.permissions();
    assert_eq!(perms.notifications, RuntimePermissionState::Prompt);
    assert_eq!(perms.local_network, RuntimePermissionState::Prompt);
    assert_eq!(perms.clipboard, RuntimePermissionState::Unsupported);
    assert_eq!(perms.background_sync, RuntimePermissionState::Prompt);
    let granted = bridge.request_permissions();
    assert_eq!(granted.notifications, RuntimePermissionState::Granted);
    assert_eq!(granted.local_network, RuntimePermissionState::Granted);
    assert_eq!(granted.clipboard, RuntimePermissionState::Unsupported);
    assert_eq!(granted.background_sync, RuntimePermissionState::Granted);
    assert_eq!(bridge.permissions().background_sync, RuntimePermissionState::Granted);
}

#[test]
fn sharing_and_exporting_are_refused_off_mobile_bridges() {
    let desktop = RuntimeBridge::new(RuntimePlatform::Windows);
    let mobile = RuntimeBridge::new(RuntimePlatform::Ios);
    assert_eq!(desktop.share_paths(&vec![]), Err(RelayError::NoTransferFiles));
    assert_eq!(desktop.share_paths(&vec!["a".to_string()]), Err(RelayError::ShareOnlyOnMobile));
    assert_eq!(mobile.share_paths(&vec!["a".to_string()]), Err(RelayError::ShareSheetUnavailable));
    assert_eq!(desktop.export_paths(&vec!["a".to_string()]), Err(RelayError::FileExportOnlyOnMobile));
    assert_eq!(mobile.export_paths(&vec!["a".to_string()]), Err(RelayError::FileExportUnavailable));
    assert_eq!(mobile.export_paths(&vec![]), Err(RelayError::NoTransferFiles));
}

#[test]
fn background_sync_state_follows_platform_and_setting() {
    let desktop = RuntimeBridge::new(RuntimePlatform::Macos).background_sync_state(true);
    assert!(!desktop.supported);
    assert!(desktop.active);
    assert_eq!(desktop.mode, BackgroundSyncMode::Desktop);
    let android = RuntimeBridge::new(RuntimePlatform::Android).background_sync_state(true);
    assert!(android.supported && android.enabled && android.active);
    assert_eq!(android.mode, BackgroundSyncMode::ForegroundService);
    assert_eq!(
        android.message.as_deref(),
        Some("Android keeps sync alive through a foreground service when enabled.")
    );
    let ios_off = RuntimeBridge::new(RuntimePlatform::Ios).background_sync_state(false);
    assert!(ios_off.supported && !ios_off.enabled && !ios_off.active);
    assert_eq!(ios_off.mode, BackgroundSyncMode::AppRefresh);
}

#[test]
fn text_helpers() {
    assert_eq!(trim("  hello \t"), "hello");
    assert_eq!(trim("   "), "");
    assert!(is_blank(" \n\t"));
    assert!(!is_blank(" x "));
    assert_eq!(decimal(0), "0");
    assert_eq!(decimal(1234567890), "1234567890");
    assert_eq!(decimal(u64::MAX), "18446744073709551615");
}

#[test]
fn messages_in_both_languages() {
    assert_eq!(i18n::paused(AppLanguage::En), "Clipboard sync is paused");
    assert_eq!(
        i18n::sending(AppLanguage::En, &ClipboardPayloadKind::Text, 2),
        "Sending text clipboard to 2 paired device(s)"
    );
    assert_eq!(i18n::active_label(AppLanguage::En, "Laptop"), "Paired: Laptop");
    assert_eq!(i18n::active_label(AppLanguage::ZhCn, "Laptop"), "已配对：Laptop");
    assert_eq!(i18n::tray_quit(AppLanguage::ZhCn), "退出");
    assert_eq!(i18n::no_active_device_label(AppLanguage::En), "No paired devices");
}

#[test]
fn error_messages() {
    assert_eq!(to_error_string(&RelayError::CannotPairSelf), "cannot pair this device with itself");
    assert_eq!(RelayError::ImageTooLarge.message(), "image payload exceeds the 10 MB limit");
    assert_eq!(to_error_string(&RelayError::InsufficientDiskSpace), "insufficient disk space");
}

#[test]
fn sha256_of_known_inputs() {
    assert_eq!(
        sha256_hex(b"abc"),
        "ba7816bf8f01cfea414140de5dae2223b00361a396177a9cb410ff61f20015ad"
    );
    assert_eq!(
        sha256_hex(b""),
        "e3b0c44298fc1c149afbf4c8996fb92427ae41e4649b934ca495991b7852b855"
    );
    assert_eq!(hash_bytes("", b"abc"), sha256_hex(b"abc"));
    assert_eq!(hash_bytes("ab", b"c"), sha256_hex(b"abc"));
}

#[test]
fn text_packets_skip_blank_text() {
    assert!(text_packet("  \n ".to_string()).is_none());
    let packet = text_packet("hi".to_string()).unwrap();
    assert_eq!(packet.meta.kind, ClipboardPayloadKind::Text);
    assert_eq!(packet.meta.size, 2);
    assert_eq!(packet.bytes, b"hi".to_vec());
    assert_eq!(packet.meta.mime, "text/plain; charset=utf-8");
    assert_eq!(packet.meta.hash, hash_bytes("text", b"hi"));
}

#[test]
fn image_packets_are_limited() {
    let ok = image_packet(vec![1, 2, 3]).unwrap();
    assert_eq!(ok.meta.kind, ClipboardPayloadKind::Image);
    assert_eq!(ok.meta.size, 3);
    assert!(matches!(image_packet(vec![0u8; MAX_IMAGE_BYTES + 1]), Err(RelayError::ImageTooLarge)));
    assert!(image_packet(vec![0u8; MAX_IMAGE_BYTES]).is_ok());
}

#[test]
fn remote_packets_keep_their_fields() {
    let p = packet_from_remote(ClipboardPayloadKind::Text, "text/plain".to_string(), "h".to_string(), vec![65]).unwrap();
    assert_eq!(p.meta.mime, "text/plain");
    assert_eq!(p.meta.hash, "h");
    assert_eq!(p.meta.size, 1);
    let big = packet_from_remote(ClipboardPayloadKind::Image, "image/png".to_string(), "h".to_string(), vec![0u8; MAX_IMAGE_BYTES + 1]);
    assert!(matches!(big, Err(RelayError::ImageTooLarge)));
    let big_text = packet_from_remote(ClipboardPayloadKind::Text, "text/plain".to_string(), "h".to_string(), vec![0u8; MAX_IMAGE_BYTES + 1]);
    assert!(big_text.is_ok());
}

#[test]
fn monitor_dispatches_only_new_hashes() {
    assert!(monitor_should_dispatch(&None, &"a".to_string()));
    assert!(!monitor_should_dispatch(&Some("a".to_string()), &"a".to_string()));
    assert!(monitor_should_dispatch(&Some("a".to_string()), &"b".to_string()));
}

#[test]
fn wire_kinds_round_trip() {
    assert_eq!(kind_from_i32(1), Ok(ClipboardPayloadKind::Text));
    assert_eq!(kind_from_i32(2), Ok(ClipboardPayloadKind::Image));
    assert_eq!(kind_from_i32(0), Err(RelayError::UnsupportedPayloadKind));
    assert_eq!(kind_from_i32(ClipboardPayloadKind::Image.as_transport_kind()), Ok(ClipboardPayloadKind::Image));
}

#[test]
fn frames_carry_their_length() {
    let frame = encode_frame(&vec![7, 8, 9]).unwrap();
    assert_eq!(frame, vec![0, 0, 0, 3, 7, 8, 9]);
    assert_eq!(frame_length([0, 0, 0, 3]), Ok(3));
    assert_eq!(frame_length([0, 1, 0, 0]), Ok(65536));
    assert!(frame_length([0x7f, 0, 0, 0]).is_err());
}

#[test]
fn envelopes_copy_the_packet() {
    let packet = text_packet("x".to_string()).unwrap();
    let env = envelope_from_packet_at("a".to_string(), "b".to_string(), &packet, 9, 1234);
    assert_eq!(env.origin_device_id, "a");
    assert_eq!(env.target_device_id, "b");
    assert_eq!(env.payload_kind, 1);
    assert_eq!(env.payload_bytes, b"x".to_vec());
    assert_eq!(env.sequence, 9);
    assert_eq!(env.created_at, 1234);
    assert_eq!(env.content_hash, packet.meta.hash);
}

#[test]
fn private_ipv4_is_preferred() {
    let addrs = vec![
        IpAddress::V6(0xfe80, 0, 0, 0, 0, 0, 0, 1),
        IpAddress::V4(8, 8, 8, 8),
        IpAddress::V4(192, 168, 1, 5),
    ];
    assert_eq!(
        preferred_socket_addr(&addrs, 4000),
        Some(SocketAddress { ip: IpAddress::V4(192, 168, 1, 5), port: 4000 })
    );
    assert_eq!(preferred_socket_addr(&addrs, 0), None);
    let only_link_local_v6 = vec![IpAddress::V6(0xfe80, 0, 0, 0, 0, 0, 0, 1)];
    assert_eq!(preferred_socket_addr(&only_link_local_v6, 1), None);
    let unique_local = vec![IpAddress::V4(8, 8, 8, 8), IpAddress::V6(0xfd00, 0, 0, 0, 0, 0, 0, 1)];
    assert_eq!(
        preferred_socket_addr(&unique_local, 1),
        Some(SocketAddress { ip: IpAddress::V6(0xfd00, 0, 0, 0, 0, 0, 0, 1), port: 1 })
    );
}
