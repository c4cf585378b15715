use relayclip::clipboard::text_packet;
use relayclip::error::RelayError;
use relayclip::i18n;
use relayclip::mobile_bridge::RuntimeBridge;
use relayclip::models::{
    capabilities, AppLanguage, AppSettings, ClipboardHistoryKind, ClipboardHistorySource,
    ClipboardPayloadKind, LocalDevice, PersistentState, ReadyActionState, RuntimePlatform,
    SyncState, TransferAction, TransferDirection, TransferStage, PROTOCOL_VERSION,
};
use relayclip::net::{IpAddress, SocketAddress};
use relayclip::runtime::{
    DiscoveredPeer, FinishEffect, OutboundAction, OutboundEvent, ReadyPurpose, RelayRuntime,
    RestorePlan, PairingChangeSource,
};
use relayclip::transfers::{PreparedTransfer, PreparedTransferEntry, LocalFileClipboard};
use relayclip::models::{TransferEntry, TransferEntryKind};
use relayclip::transport::{ClipboardEnvelope, IncomingTransferOffer};

const LOCAL: &str = "local-0001";

fn state(sync_enabled: bool) -> PersistentState {
    PersistentState {
        local_device: LocalDevice {
            device_id: LOCAL.to_string(),
            device_name: "Desk".to_string(),
            platform: "Windows".to_string(),
            protocol_version: PROTOCOL_VERSION.to_string(),
            capabilities: capabilities(),
            fingerprint: "fp-local".to_string(),
        },
        trusted_devices: vec![],
        settings: AppSettings {
            device_name: "Desk".to_string(),
            launch_on_login: false,
            background_sync_enabled: true,
            discovery_enabled: true,
            sync_enabled,
            active_device_ids: vec![],
            device_remarks: vec![],
            blocked_auto_pair_device_ids: vec![],
            language: AppLanguage::En,
        },
        certificate_der_b64: String::new(),
        private_key_der_b64: String::new(),
    }
}

fn runtime(sync_enabled: bool) -> RelayRuntime {
    RelayRuntime::new(state(sync_enabled), vec![], vec![], RuntimeBridge::new(RuntimePlatform::Windows), 1000)
}

fn peer(id: &str, name: &str, last_octet: u8) -> DiscoveredPeer {
    DiscoveredPeer {
        service_fullname: format!("{id}._relayclip._tcp.local."),
        device_id: id.to_string(),
        name: name.to_string(),
        platform: "macOS".to_string(),
        protocol_version: PROTOCOL_VERSION.to_string(),
        capabilities: capabilities(),
        fingerprint: format!("fp-{id}"),
        host_name: None,
        addresses: vec![IpAddress::V4(192, 168, 1, last_octet)],
        port: 4000,
    }
}

#[test]
fn a_new_relay_advertises_or_pauses() {
    let on = runtime(true);
    assert_eq!(on.sync_status.state, SyncState::Discovering);
    assert_eq!(on.sync_status.message, Some(i18n::advertising(AppLanguage::En)));
    assert_eq!(on.sync_status.updated_at, 1000);
    assert_eq!(on.sequence, 1);
    let off = runtime(false);
    assert_eq!(off.sync_status.state, SyncState::Paused);
    assert_eq!(off.sync_status.message, Some(i18n::paused(AppLanguage::En)));
}

#[test]
fn the_only_online_peer_is_paired_automatically() {
    let mut rt = runtime(true);
    let told = rt.upsert_discovered_device(peer("peer-a", "Laptop", 5), 2000);
    let target = told.expect("the peer is told of the pairing");
    assert_eq!(target.device_id, "peer-a");
    assert_eq!(target.socket_addr, SocketAddress { ip: IpAddress::V4(192, 168, 1, 5), port: 4000 });
    assert!(rt.is_paired_device("peer-a"));
    assert_eq!(rt.sync_status.state, SyncState::Connected);
    assert_eq!(rt.sync_status.message, Some(i18n::paired_devices_ready(AppLanguage::En, 1)));
    // A second peer is not paired automatically.
    assert!(rt.upsert_discovered_device(peer("peer-b", "Phone", 6), 2001).is_none());
    assert!(!rt.is_paired_device("peer-b"));
    let targets = rt.active_targets();
    assert_eq!(targets.len(), 1);
    assert_eq!(targets[0].device_id, "peer-a");
}

#[test]
fn other_protocols_are_ignored() {
    let mut rt = runtime(true);
    let mut old = peer("peer-a", "Laptop", 5);
    old.protocol_version = "relayclip/v0".to_string();
    assert!(rt.upsert_discovered_device(old, 2000).is_none());
    assert!(rt.presence.is_empty());
}

#[test]
fn unpairing_blocks_automatic_pairing() {
    let mut rt = runtime(true);
    rt.upsert_discovered_device(peer("peer-a", "Laptop", 5), 2000);
    assert!(rt.is_paired_device("peer-a"));
    let r = rt.set_device_pairing("peer-a", false, 3000);
    assert!(r.is_ok());
    assert!(!rt.is_paired_device("peer-a"));
    assert!(rt.is_auto_pair_blocked("peer-a"));
    // Seen again while blocked: not paired again.
    assert!(rt.upsert_discovered_device(peer("peer-a", "Laptop", 5), 3001).is_none());
    assert!(!rt.is_paired_device("peer-a"));
    assert_eq!(rt.sync_status.state, SyncState::Idle);
    assert_eq!(rt.sync_status.message, Some(i18n::available_peers(AppLanguage::En, 1)));
    // Pairing by hand lifts the block.
    let told = rt.set_device_pairing("peer-a", true, 3002).unwrap();
    assert_eq!(told.map(|t| t.device_id), Some("peer-a".to_string()));
    assert!(!rt.is_auto_pair_blocked("peer-a"));
    assert_eq!(PairingChangeSource::Auto.blocked_auto_pair_state(true), None);
    assert_eq!(PairingChangeSource::Manual.blocked_auto_pair_state(false), Some(true));
}

#[test]
fn pairing_errors() {
    let mut rt = runtime(true);
    assert_eq!(rt.set_device_pairing(LOCAL, true, 1).err(), Some(RelayError::CannotPairSelf));
    assert_eq!(rt.set_device_pairing("ghost", true, 1).err(), Some(RelayError::UnknownDevice));
    let mut unroutable = peer("peer-z", "Old", 9);
    unroutable.port = 0;
    rt.upsert_discovered_device(unroutable, 2);
    assert_eq!(rt.set_device_pairing("peer-z", true, 3).err(), Some(RelayError::NoRoutableAddress));
    assert!(!rt.is_paired_device("peer-z"));
}

#[test]
fn going_offline_removes_the_device() {
    let mut rt = runtime(true);
    rt.upsert_discovered_device(peer("peer-a", "Laptop", 5), 2000);
    rt.upsert_discovered_device(peer("peer-b", "Phone", 6), 2001);
    let told = rt.mark_device_offline("peer-a._relayclip._tcp.local.", 2002);
    assert_eq!(rt.presence.len(), 1);
    assert_eq!(rt.presence[0].device_id, "peer-b");
    // The remaining peer is now the only one online and is paired automatically.
    assert_eq!(told.map(|t| t.device_id), Some("peer-b".to_string()));
    assert!(rt.is_paired_device("peer-b"));
    assert_eq!(rt.sync_status.state, SyncState::Connected);
    let mut lone = runtime(true);
    lone.upsert_discovered_device(peer("peer-a", "Laptop", 5), 1);
    assert!(lone.mark_device_offline("peer-a._relayclip._tcp.local.", 2).is_none());
    assert!(lone.presence.is_empty());
    assert!(lone.is_paired_device("peer-a"));
    assert_eq!(lone.sync_status.state, SyncState::Idle);
    assert_eq!(lone.sync_status.message, Some(i18n::paired_devices_offline(AppLanguage::En)));
}

#[test]
fn remarks_are_trimmed_and_read_back() {
    let mut rt = runtime(true);
    rt.upsert_discovered_device(peer("peer-a", "Laptop", 5), 2000);
    assert_eq!(rt.set_device_remark(LOCAL, Some("me".to_string())), Err(RelayError::CannotRemarkSelf));
    assert_eq!(rt.set_device_remark("peer-a", Some("  Work  ".to_string())), Ok(()));
    assert_eq!(rt.device_remark_for("peer-a"), Some("Work".to_string()));
    assert_eq!(rt.device_name_for("peer-a"), "Work");
    assert_eq!(rt.set_device_remark("peer-a", Some("   ".to_string())), Ok(()));
    assert_eq!(rt.device_remark_for("peer-a"), None);
    assert_eq!(rt.device_name_for("peer-a"), "Laptop");
    assert_eq!(rt.device_name_for(LOCAL), "Desk");
}

#[test]
fn the_device_list_puts_paired_then_online_devices_first() {
    let mut rt = runtime(true);
    rt.upsert_discovered_device(peer("peer-c", "Zed", 7), 1);
    rt.upsert_discovered_device(peer("peer-b", "Beta", 6), 2);
    rt.upsert_discovered_device(peer("peer-a", "Alpha", 5), 3);
    assert!(rt.set_device_pairing("peer-c", true, 4).is_ok());
    let devices = rt.list_devices();
    let ids: Vec<&str> = devices.iter().map(|d| d.device_id.as_str()).collect();
    assert_eq!(ids, vec!["peer-c", "peer-a", "peer-b"]);
    assert!(devices[0].is_active);
    assert_eq!(devices[0].port, Some(4000));
    assert_eq!(devices[0].addresses, vec![IpAddress::V4(192, 168, 1, 7)]);
    let snapshot = rt.snapshot();
    assert_eq!(snapshot.settings.active_device_ids, vec!["peer-c".to_string()]);
    assert_eq!(snapshot.devices.len(), 3);
    assert_eq!(snapshot.local_device.device_id, LOCAL);
    assert_eq!(snapshot.runtime_platform, RuntimePlatform::Windows);
}

#[test]
fn a_clipboard_is_relayed_once() {
    let mut rt = runtime(true);
    assert!(rt.accept_local_hash("h1"));
    assert!(!rt.accept_local_hash("h1"));
    assert!(rt.is_recent_hash("h1"));
    let mut off = runtime(false);
    assert!(!off.accept_local_hash("h1"));
    assert!(!off.is_recent_hash("h1"));
}

#[test]
fn recent_hashes_are_bounded() {
    let mut rt = runtime(true);
    for i in 0..40 {
        rt.remember_hash(format!("h{i}"));
    }
    assert_eq!(rt.recent_hashes.len(), 32);
    assert_eq!(rt.recent_hashes[0], "h39");
    assert!(!rt.is_recent_hash("h0"));
}

#[test]
fn routing_says_why_nothing_is_sent() {
    let packet = text_packet("hello".to_string()).unwrap();
    let mut rt = runtime(true);
    let none = rt.route_local_packet(&packet.meta, 10);
    assert!(none.is_empty());
    assert_eq!(rt.sync_status.state, SyncState::Discovering);
    assert_eq!(rt.sync_status.message, Some(i18n::no_paired_devices(AppLanguage::En)));
    assert_eq!(rt.sync_status.last_payload.as_ref().map(|p| p.hash.clone()), Some(packet.meta.hash.clone()));
    rt.upsert_discovered_device(peer("peer-a", "Laptop", 5), 11);
    let targets = rt.route_local_packet(&packet.meta, 12);
    assert_eq!(targets.len(), 1);
    assert_eq!(rt.sync_status.state, SyncState::Syncing);
    assert_eq!(rt.sync_status.message, Some(i18n::sending(AppLanguage::En, &ClipboardPayloadKind::Text, 1)));
    rt.record_device_sync("peer-a", i18n::relayed(AppLanguage::En, &ClipboardPayloadKind::Text), Some(packet.meta.clone()), 13);
    assert_eq!(rt.presence[0].last_sync_at, Some(13));
    assert_eq!(rt.sync_status.state, SyncState::Connected);
}

fn envelope(origin: &str, target: &str, kind: i32, hash: &str) -> ClipboardEnvelope {
    ClipboardEnvelope {
        origin_device_id: origin.to_string(),
        target_device_id: target.to_string(),
        content_hash: hash.to_string(),
        payload_kind: kind,
        payload_bytes: b"hi".to_vec(),
        created_at: 0,
        sequence: 1,
        mime: "text/plain; charset=utf-8".to_string(),
    }
}

#[test]
fn incoming_clipboards_are_screened() {
    let mut rt = runtime(true);
    assert!(rt.is_envelope_for_us(&envelope("peer-a", LOCAL, 1, "x")));
    assert!(!rt.is_envelope_for_us(&envelope("peer-a", "other", 1, "x")));
    assert!(!rt.is_envelope_for_us(&envelope(LOCAL, LOCAL, 1, "x")));
    assert!(matches!(rt.accept_incoming_envelope(envelope("peer-a", LOCAL, 9, "x")), Err(RelayError::UnsupportedPayloadKind)));
    let packet = rt.accept_incoming_envelope(envelope("peer-a", LOCAL, 1, "x")).unwrap();
    assert_eq!(packet.meta.kind, ClipboardPayloadKind::Text);
    assert_eq!(packet.bytes, b"hi".to_vec());
    assert!(!rt.is_envelope_for_us(&envelope("peer-a", LOCAL, 1, "x")));
    rt.record_received_packet("peer-a", &packet.meta, 5);
    assert_eq!(rt.sync_status.message, Some(i18n::received(AppLanguage::En, &ClipboardPayloadKind::Text)));
    let off = runtime(false);
    assert!(!off.is_envelope_for_us(&envelope("peer-a", LOCAL, 1, "y")));
}

fn offer(origin: &str, target: &str) -> IncomingTransferOffer {
    IncomingTransferOffer {
        transfer_id: "t-in".to_string(),
        origin_device_id: origin.to_string(),
        target_device_id: target.to_string(),
        display_name: "photos".to_string(),
        total_bytes: 30,
        total_entries: 2,
        entries: vec![
            TransferEntry { relative_path: "photos".to_string(), entry_kind: TransferEntryKind::Directory, size: 0, modified_at: None },
            TransferEntry { relative_path: "photos/a.png".to_string(), entry_kind: TransferEntryKind::File, size: 30, modified_at: None },
        ],
        top_level_names: vec!["photos".to_string()],
        warning_message: None,
    }
}

#[test]
fn incoming_transfers_are_admitted_only_from_paired_devices() {
    let mut off = runtime(false);
    assert_eq!(off.admit_incoming_offer(&offer("peer-a", LOCAL), 1).1, Err(RelayError::FileRelayPaused));
    let mut rt = runtime(true);
    assert_eq!(rt.admit_incoming_offer(&offer("peer-a", "else"), 1).1, Err(RelayError::TransferNotAddressedHere));
    assert_eq!(rt.admit_incoming_offer(&offer("peer-a", LOCAL), 1).1, Err(RelayError::TransferFromUnpairedDevice));
    rt.upsert_discovered_device(peer("peer-b", "Phone", 6), 2);
    rt.upsert_discovered_device(peer("peer-a", "Laptop", 5), 2);
    assert!(!rt.is_paired_device("peer-a"));
    assert!(rt.set_device_pairing("peer-a", true, 3).is_ok());
    let (told, admitted) = rt.admit_incoming_offer(&offer("peer-a", LOCAL), 4);
    assert!(told.is_none());
    assert_eq!(admitted, Ok(()));
}

#[test]
fn an_unpaired_only_peer_is_paired_when_it_offers_a_transfer() {
    let mut rt = runtime(true);
    let mut p = peer("peer-a", "Laptop", 5);
    p.port = 0;
    rt.upsert_discovered_device(p, 1);
    assert!(!rt.is_paired_device("peer-a"));
    assert_eq!(rt.admit_incoming_offer(&offer("peer-a", LOCAL), 2).1, Err(RelayError::TransferFromUnpairedDevice));
}

#[test]
fn a_received_transfer_runs_to_ready_and_is_placed() {
    let mut rt = runtime(true);
    let job = rt.begin_incoming_transfer(&offer("peer-a", LOCAL), 50);
    assert_eq!(job.stage, TransferStage::Preparing);
    assert_eq!(job.direction, TransferDirection::Inbound);
    assert_eq!(job.ready_action_state, ReadyActionState::PendingPrompt);
    assert_eq!(rt.ready_inbound_job("t-in", ReadyPurpose::Place).err(), Some(RelayError::NotReadyToPlace));
    assert_eq!(rt.ready_inbound_job("nope", ReadyPurpose::Share).err(), Some(RelayError::TransferNotFound));
    let staged = rt.set_transfer_stage("t-in", TransferStage::Downloading, Some("/stage/t-in".to_string()), 51).unwrap();
    assert_eq!(staged.staging_path.as_deref(), Some("/stage/t-in"));
    assert_eq!(staged.finished_at, None);
    rt.increment_transfer_progress("t-in", 10, 1);
    rt.increment_transfer_progress("t-in", u64::MAX, u32::MAX);
    let job = rt.find_transfer_job("t-in").unwrap();
    assert_eq!(job.completed_bytes, u64::MAX);
    assert_eq!(job.completed_entries, u32::MAX);
    let done = rt.complete_incoming_transfer("t-in", 60).unwrap();
    assert_eq!(done.stage, TransferStage::Ready);
    assert!(done.ready_to_paste);
    assert_eq!(done.finished_at, Some(60));
    assert!(rt.ready_inbound_job("t-in", ReadyPurpose::Place).is_ok());
    let listed = rt.list_transfer_jobs();
    assert_eq!(listed[0].available_actions, vec![TransferAction::PlaceOnClipboard]);
    assert_eq!(rt.remember_placed_files(&vec![], &vec![]), Err(RelayError::ReceivedFilesMissing));
    assert_eq!(rt.remember_placed_files(&vec!["/stage/t-in/payload/photos".to_string()], &vec![]), Ok(()));
    rt.mark_transfer_placed("t-in");
    let placed = rt.find_transfer_job("t-in").unwrap();
    assert!(!placed.ready_to_paste);
    assert_eq!(placed.ready_action_state, ReadyActionState::Placed);
    assert_eq!(rt.share_received_transfer("t-in", &vec!["x".to_string()]), Err(RelayError::ShareOnlyOnMobile));
    assert_eq!(rt.export_received_transfer("nope", &vec![]), Err(RelayError::TransferNotFound));
}

#[test]
fn a_canceled_transfer_stays_canceled() {
    let mut rt = runtime(true);
    rt.begin_incoming_transfer(&offer("peer-a", LOCAL), 1);
    rt.cancel_transfer("t-in", 2);
    let canceled = rt.find_transfer_job("t-in").unwrap();
    assert_eq!(canceled.stage, TransferStage::Canceled);
    assert_eq!(canceled.finished_at, Some(2));
    rt.complete_incoming_transfer("t-in", 3);
    rt.fail_transfer("t-in", "late".to_string(), 4);
    let still = rt.find_transfer_job("t-in").unwrap();
    assert_eq!(still.stage, TransferStage::Canceled);
    assert_eq!(still.finished_at, Some(2));
    assert_eq!(still.error_message, None);
    assert!(rt.finish_transfer("t-in", TransferStage::Failed, None, FinishEffect::NotReady, 5).is_some());
}

#[test]
fn the_transfer_list_puts_waiting_files_first_and_newest_first() {
    let mut rt = runtime(true);
    let mut first = offer("peer-a", LOCAL);
    first.transfer_id = "old".to_string();
    rt.begin_incoming_transfer(&first, 10);
    let mut second = offer("peer-a", LOCAL);
    second.transfer_id = "new".to_string();
    rt.begin_incoming_transfer(&second, 20);
    let mut ready = offer("peer-a", LOCAL);
    ready.transfer_id = "ready".to_string();
    rt.begin_incoming_transfer(&ready, 5);
    rt.complete_incoming_transfer("ready", 30);
    let ids: Vec<String> = rt.list_transfer_jobs().into_iter().map(|j| j.transfer_id).collect();
    assert_eq!(ids, vec!["ready".to_string(), "new".to_string(), "old".to_string()]);
}

fn prepared() -> PreparedTransfer {
    PreparedTransfer {
        entries: vec![PreparedTransferEntry {
            entry: TransferEntry { relative_path: "a.txt".to_string(), entry_kind: TransferEntryKind::File, size: 4, modified_at: None },
            source_path: Some("/x/a.txt".to_string()),
        }],
        total_bytes: 4,
        top_level_names: vec!["a.txt".to_string()],
        display_name: "a.txt".to_string(),
        warning_message: None,
    }
}

#[test]
fn sending_a_file_list_steps_through_its_stages() {
    let mut rt = runtime(true);
    rt.upsert_discovered_device(peer("peer-a", "Laptop", 5), 1);
    let started = rt.begin_outbound_transfers("a.txt", 2);
    assert_eq!(started.len(), 1);
    let (id, target) = (started[0].0.clone(), started[0].1.clone());
    assert_eq!(target.device_id, "peer-a");
    assert_eq!(id.len(), 36);
    let job = rt.find_transfer_job(&id).unwrap();
    assert_eq!(job.direction, TransferDirection::Outbound);
    assert_eq!(job.stage, TransferStage::Preparing);
    assert!(matches!(rt.outbound_transfer_step(&id, "peer-a", OutboundEvent::Prepared(prepared()), false, 3), OutboundAction::AcquireLease));
    assert_eq!(rt.find_transfer_job(&id).unwrap().total_bytes, 4);
    assert_eq!(rt.find_transfer_job(&id).unwrap().total_entries, 1);
    match rt.outbound_transfer_step(&id, "peer-a", OutboundEvent::LeaseAcquired(prepared()), false, 4) {
        OutboundAction::Send(offer) => {
            assert_eq!(offer.transfer_id, id);
            assert_eq!(offer.origin_device_id, LOCAL);
            assert_eq!(offer.target_device_id, "peer-a");
            assert_eq!(offer.total_entries, 1);
            assert_eq!(offer.entries[0].relative_path, "a.txt");
        }
        _ => panic!("the offer is sent once a slot is granted"),
    }
    assert_eq!(rt.find_transfer_job(&id).unwrap().stage, TransferStage::Downloading);
    assert!(matches!(rt.outbound_transfer_step(&id, "peer-a", OutboundEvent::SendFinished(Ok(())), false, 5), OutboundAction::Stop));
    let done = rt.find_transfer_job(&id).unwrap();
    assert_eq!(done.stage, TransferStage::Ready);
    assert_eq!(done.ready_action_state, ReadyActionState::Placed);
}

#[test]
fn a_send_that_was_canceled_or_failed_stops() {
    let mut rt = runtime(true);
    rt.upsert_discovered_device(peer("peer-a", "Laptop", 5), 1);
    let started = rt.begin_outbound_transfers("a.txt", 2);
    let id = started[0].0.clone();
    assert!(matches!(rt.outbound_transfer_step(&id, "peer-a", OutboundEvent::Prepared(prepared()), true, 3), OutboundAction::Stop));
    assert_eq!(rt.find_transfer_job(&id).unwrap().stage, TransferStage::Canceled);
    let more = rt.begin_outbound_transfers("b", 4);
    let id2 = more[0].0.clone();
    rt.outbound_transfer_step(&id2, "peer-a", OutboundEvent::PrepareFailed("no files".to_string()), false, 5);
    let failed = rt.find_transfer_job(&id2).unwrap();
    assert_eq!(failed.stage, TransferStage::Failed);
    assert_eq!(failed.error_message.as_deref(), Some("no files"));
}

#[test]
fn the_history_keeps_one_entry_per_clip() {
    let mut rt = runtime(true);
    let packet = text_packet("hello   there".to_string()).unwrap();
    rt.record_packet_history(&packet, ClipboardHistorySource::Local, LOCAL, "Desk", "e1".to_string(), "/h/e1/payload.txt".to_string(), 1);
    rt.record_packet_history(&packet, ClipboardHistorySource::Local, LOCAL, "Desk", "e2".to_string(), "/h/e2/payload.txt".to_string(), 2);
    assert_eq!(rt.clipboard_history.len(), 1);
    assert_eq!(rt.clipboard_history[0].entry_id, "e2");
    assert_eq!(rt.clipboard_history[0].preview_text.as_deref(), Some("hello there"));
    assert_eq!(rt.clipboard_history[0].display_name, "Text clip");
    let other = text_packet("bye".to_string()).unwrap();
    rt.record_packet_history(&other, ClipboardHistorySource::Remote, "peer-a", "Laptop", "e3".to_string(), "/h/e3/payload.txt".to_string(), 3);
    let listed = rt.list_clipboard_history();
    let ids: Vec<&str> = listed.iter().map(|e| e.entry_id.as_str()).collect();
    assert_eq!(ids, vec!["e3", "e2"]);
    let files = LocalFileClipboard { paths: vec!["/x/a.txt".to_string(), "/".to_string()], hash: "fh".to_string(), display_name: "2 items".to_string() };
    rt.record_local_file_history(&files, LOCAL, "Desk", "e4".to_string(), "/h/e4/paths.json".to_string(), 4);
    assert_eq!(rt.clipboard_history[0].kind, ClipboardHistoryKind::FileRefs);
    assert_eq!(rt.clipboard_history[0].file_count, Some(2));
    assert_eq!(rt.clipboard_history[0].top_level_names, vec!["a.txt".to_string(), "/".to_string()]);
}

#[test]
fn received_transfers_are_recorded_under_the_peers_name() {
    let mut rt = runtime(true);
    rt.upsert_discovered_device(peer("peer-a", "Laptop", 5), 1);
    let job = rt.begin_incoming_transfer(&offer("peer-a", LOCAL), 2);
    rt.record_received_transfer_history(&job, "e9".to_string(), 3);
    assert_eq!(rt.clipboard_history.len(), 1);
    let entry = &rt.clipboard_history[0];
    assert_eq!(entry.hash, "transfer:t-in");
    assert_eq!(entry.origin_device_name, "Laptop");
    assert_eq!(entry.source, ClipboardHistorySource::Transfer);
    assert_eq!(entry.transfer_id.as_deref(), Some("t-in"));
}

#[test]
fn restoring_history_entries() {
    let mut rt = runtime(true);
    assert!(matches!(rt.restore_plan("missing"), Err(RelayError::HistoryEntryNotFound)));
    let packet = text_packet("hello".to_string()).unwrap();
    rt.record_packet_history(&packet, ClipboardHistorySource::Local, LOCAL, "Desk", "e1".to_string(), "/h/e1/payload.txt".to_string(), 1);
    match rt.restore_plan("e1") {
        Ok(RestorePlan::Payload { path, kind, mime, hash }) => {
            assert_eq!(path, "/h/e1/payload.txt");
            assert_eq!(kind, ClipboardPayloadKind::Text);
            assert_eq!(mime, "text/plain; charset=utf-8");
            assert_eq!(hash, packet.meta.hash);
        }
        _ => panic!("a text entry restores its payload"),
    }
    let restored = rt.restore_payload(ClipboardPayloadKind::Text, "text/plain".to_string(), "hh".to_string(), b"x".to_vec()).unwrap();
    assert_eq!(restored.meta.hash, "hh");
    assert!(rt.is_recent_hash("hh"));
    assert_eq!(rt.restore_files("fh".to_string(), vec![]), Err(RelayError::NoFilesToRestore));
    assert_eq!(rt.restore_files("fh".to_string(), vec!["/a".to_string()]), Ok(vec!["/a".to_string()]));
    assert!(rt.is_recent_hash("fh"));
}

#[test]
fn discovery_can_be_switched_off() {
    let mut rt = runtime(true);
    rt.discovery_stopped(7);
    assert_eq!(rt.sync_status.state, SyncState::Paused);
    assert_eq!(rt.sync_status.message, Some(i18n::discovery_disabled(AppLanguage::En)));
    rt.toggle_sync(false, 8);
    assert!(!rt.is_sync_enabled());
    assert_eq!(rt.sync_status.state, SyncState::Paused);
}

#[test]
fn pairing_a_device_makes_it_the_one_active_device() {
    let mut rt = runtime(true);
    rt.upsert_discovered_device(peer("peer-a", "Laptop", 5), 1);
    rt.upsert_discovered_device(peer("peer-b", "Phone", 6), 1);
    assert!(rt.set_device_pairing("peer-a", true, 2).is_ok());
    assert_eq!(rt.active_device_ids, vec!["peer-a".to_string()]);
    assert!(rt.set_device_pairing("peer-b", true, 3).is_ok());
    assert_eq!(rt.active_device_ids, vec!["peer-b".to_string()]);
    let targets = rt.active_targets();
    assert_eq!(targets.len(), 1);
    assert_eq!(targets[0].device_id, "peer-b");
}

#[test]
fn a_send_waits_in_the_queue_while_every_slot_is_taken() {
    let mut rt = runtime(true);
    rt.upsert_discovered_device(peer("peer-a", "Laptop", 5), 1);
    let started = rt.begin_outbound_transfers("a.txt", 2);
    let id = started[0].0.clone();
    rt.outbound_transfer_step(&id, "peer-a", OutboundEvent::Prepared(prepared()), false, 3);
    assert!(matches!(rt.outbound_transfer_step(&id, "peer-a", OutboundEvent::SlotsBusy, false, 4), OutboundAction::AcquireLease));
    assert_eq!(rt.find_transfer_job(&id).unwrap().stage, TransferStage::Queued);
}
