use relayclip::digest::sha256_hex;
use relayclip::error::RelayError;
use relayclip::models::{TransferEntryKind, TransferJob, TransferDirection, TransferKind, TransferStage, ReadyActionState};
use relayclip::runtime::summarize_text;
use relayclip::transfers::{
    dedupe_top_level_name, display_name_for_path, ensure_space_for, file_clipboard, hash_paths,
    file_name, normalize_relative_path, path_less, payload_paths_from_job, prepare_transfer,
    relative_path_to_native, sort_stamps, transfer_payload_dir, PathStamp, ScannedEntry,
    ScannedPath,
};

#[test]
fn components_are_joined_with_slashes() {
    assert_eq!(normalize_relative_path("a//b/./c/"), "a/b/c");
    assert_eq!(normalize_relative_path("./a"), "./a");
    assert_eq!(normalize_relative_path("a/../b"), "a/../b");
    assert_eq!(normalize_relative_path("/x"), "//x");
    assert_eq!(normalize_relative_path(""), "");
}

#[test]
fn file_names_of_paths() {
    assert_eq!(file_name("/home/u/file.txt"), Some("file.txt".to_string()));
    assert_eq!(file_name("dir/"), Some("dir".to_string()));
    assert_eq!(file_name("a/."), Some("a".to_string()));
    assert_eq!(file_name("/"), None);
    assert_eq!(file_name("a/.."), None);
    assert_eq!(file_name("."), None);
    assert_eq!(file_name(""), None);
}

#[test]
fn display_names_fall_back_to_the_path() {
    assert_eq!(display_name_for_path("/tmp/report.pdf"), "report.pdf");
    assert_eq!(display_name_for_path("/"), "/");
    assert_eq!(display_name_for_path("dir/  "), "dir/  ");
    assert_eq!(display_name_for_path("a/.."), "a/..");
}

#[test]
fn repeated_top_level_names_get_numbers() {
    let mut seen: Vec<String> = Vec::new();
    assert_eq!(dedupe_top_level_name("a.txt".to_string(), &mut seen), "a.txt");
    assert_eq!(dedupe_top_level_name("a.txt".to_string(), &mut seen), "a (2).txt");
    assert_eq!(dedupe_top_level_name("folder".to_string(), &mut seen), "folder");
    assert_eq!(dedupe_top_level_name("a.txt".to_string(), &mut seen), "a (3).txt");
    assert_eq!(dedupe_top_level_name("folder".to_string(), &mut seen), "folder (2)");
    assert_eq!(seen.len(), 5);
    let mut other: Vec<String> = Vec::new();
    dedupe_top_level_name(".bashrc".to_string(), &mut other);
    assert_eq!(dedupe_top_level_name(".bashrc".to_string(), &mut other), ".bashrc (2)");
    dedupe_top_level_name("archive.tar.gz".to_string(), &mut other);
    assert_eq!(dedupe_top_level_name("archive.tar.gz".to_string(), &mut other), "archive.tar (2).gz");
    dedupe_top_level_name("my .file.txt".to_string(), &mut other);
    assert_eq!(dedupe_top_level_name("my .file.txt".to_string(), &mut other), "my.file (2).txt");
}

fn file_entry(names: &[&str], size: u64, source: &str) -> ScannedEntry {
    ScannedEntry {
        names: names.iter().map(|n| n.to_string()).collect(),
        kind: TransferEntryKind::File,
        size,
        modified_at: Some(5),
        source_path: source.to_string(),
    }
}

fn dir_entry(names: &[&str], source: &str) -> ScannedEntry {
    ScannedEntry {
        names: names.iter().map(|n| n.to_string()).collect(),
        kind: TransferEntryKind::Directory,
        size: 4096,
        modified_at: None,
        source_path: source.to_string(),
    }
}

#[test]
fn preparing_nothing_is_refused() {
    assert!(matches!(prepare_transfer(&vec![]), Err(RelayError::NoFilesToTransfer)));
    let only_links = vec![ScannedPath {
        path: "/tmp/link".to_string(),
        skipped: true,
        entries: vec![],
        skipped_below: 0,
    }];
    assert!(matches!(prepare_transfer(&only_links), Err(RelayError::NoTransferableFiles)));
}

#[test]
fn a_folder_and_a_file_are_laid_out() {
    let items = vec![
        ScannedPath {
            path: "/home/u/photos".to_string(),
            skipped: false,
            entries: vec![
                dir_entry(&[], "/home/u/photos"),
                file_entry(&["a.png"], 10, "/home/u/photos/a.png"),
                dir_entry(&["sub"], "/home/u/photos/sub"),
                file_entry(&["sub", "b.png"], 20, "/home/u/photos/sub/b.png"),
            ],
            skipped_below: 1,
        },
        ScannedPath {
            path: "/home/u/notes.txt".to_string(),
            skipped: false,
            entries: vec![file_entry(&[], 3, "/home/u/notes.txt")],
            skipped_below: 0,
        },
        ScannedPath { path: "/home/u/link".to_string(), skipped: true, entries: vec![], skipped_below: 0 },
    ];
    let prepared = prepare_transfer(&items).unwrap();
    let paths: Vec<String> = prepared.entries.iter().map(|e| e.entry.relative_path.clone()).collect();
    assert_eq!(paths, vec!["photos", "photos/a.png", "photos/sub", "photos/sub/b.png", "notes.txt"]);
    assert_eq!(prepared.total_bytes, 33);
    assert_eq!(prepared.entries[0].entry.size, 0);
    assert_eq!(prepared.entries[0].source_path, None);
    assert_eq!(prepared.entries[1].source_path.as_deref(), Some("/home/u/photos/a.png"));
    assert_eq!(prepared.top_level_names, vec!["photos".to_string(), "notes.txt".to_string()]);
    assert_eq!(prepared.display_name, "2 items");
    assert_eq!(
        prepared.warning_message.as_deref(),
        Some("2 item(s) were skipped because they are links or unsupported")
    );
    assert_eq!(prepared.total_entries(), 5);
    assert_eq!(prepared.file_entries().len(), 3);
}

#[test]
fn one_file_is_shown_under_its_name_and_duplicates_are_renamed() {
    let items = vec![
        ScannedPath {
            path: "/a/x.txt".to_string(),
            skipped: false,
            entries: vec![file_entry(&[], 1, "/a/x.txt")],
            skipped_below: 0,
        },
        ScannedPath {
            path: "/b/x.txt".to_string(),
            skipped: false,
            entries: vec![file_entry(&[], 2, "/b/x.txt")],
            skipped_below: 0,
        },
    ];
    let prepared = prepare_transfer(&items).unwrap();
    assert_eq!(prepared.top_level_names, vec!["x.txt".to_string(), "x (2).txt".to_string()]);
    assert_eq!(prepared.entries[1].entry.relative_path, "x (2).txt");
    assert_eq!(prepared.warning_message, None);
    let single = prepare_transfer(&vec![items[0].clone()]).unwrap();
    assert_eq!(single.display_name, "x.txt");
}

#[test]
fn paths_compare_component_by_component() {
    assert!(path_less("a/b", "a/c"));
    assert!(!path_less("a/c", "a/b"));
    assert!(path_less("/a", "a"));
    assert!(path_less("a", "a/b"));
    assert!(path_less("a/txt", "a.txt"));
    assert!(!path_less("a//b", "a/b"));
    assert!(!path_less("a/b", "a//b"));
}

fn be8(n: u64) -> Vec<u8> {
    n.to_be_bytes().to_vec()
}

#[test]
fn file_list_hashes_ignore_the_order_of_paths() {
    let a = PathStamp { path: "/x/a".to_string(), len: 1, modified: Some((7, 9)) };
    let b = PathStamp { path: "/x/b".to_string(), len: 2, modified: None };
    let forward = hash_paths(&vec![a.clone(), b.clone()]);
    let backward = hash_paths(&vec![b.clone(), a.clone()]);
    assert_eq!(forward, backward);
    let mut data = b"file-list".to_vec();
    data.extend_from_slice(b"/x/a");
    data.extend(be8(1));
    data.extend(be8(7));
    data.extend(9u32.to_be_bytes());
    data.extend_from_slice(b"/x/b");
    data.extend(be8(2));
    assert_eq!(forward, sha256_hex(&data));
    let sorted = sort_stamps(&vec![b, a]);
    assert_eq!(sorted[0].path, "/x/a");
}

#[test]
fn copied_file_lists() {
    assert!(matches!(file_clipboard(vec![], &vec![]), Err(RelayError::EmptyClipboardFileList)));
    let one = file_clipboard(vec!["/x/doc.md".to_string()], &vec![]).unwrap();
    assert_eq!(one.display_name, "doc.md");
    assert_eq!(one.hash, sha256_hex(b"file-list"));
    let two = file_clipboard(vec!["/x/a".to_string(), "/x/b".to_string()], &vec![]).unwrap();
    assert_eq!(two.display_name, "2 items");
    assert_eq!(two.paths.len(), 2);
}

#[test]
fn free_space_checks() {
    assert_eq!(ensure_space_for(Some(10), 11), Err(RelayError::InsufficientDiskSpace));
    assert_eq!(ensure_space_for(Some(10), 10), Ok(()));
    assert_eq!(ensure_space_for(None, u64::MAX), Ok(()));
}

#[test]
fn staging_paths() {
    assert_eq!(transfer_payload_dir("/stage/t1"), "/stage/t1/payload");
    assert_eq!(transfer_payload_dir("/stage/t1/"), "/stage/t1/payload");
    assert_eq!(relative_path_to_native("a/b/c"), "a/b/c");
    assert_eq!(relative_path_to_native("a//b"), "a/b");
    let mut job = sample_job();
    assert!(payload_paths_from_job(&job).is_empty());
    job.staging_path = Some("/stage/t1".to_string());
    assert_eq!(
        payload_paths_from_job(&job),
        vec!["/stage/t1/payload/photos".to_string(), "/stage/t1/payload/x.txt".to_string()]
    );
}

fn sample_job() -> TransferJob {
    TransferJob {
        transfer_id: "t1".to_string(),
        peer_device_id: "peer".to_string(),
        direction: TransferDirection::Inbound,
        kind: TransferKind::FileRefs,
        display_name: "2 items".to_string(),
        total_bytes: 0,
        completed_bytes: 0,
        total_entries: 0,
        completed_entries: 0,
        stage: TransferStage::Ready,
        started_at: 0,
        finished_at: None,
        error_message: None,
        warning_message: None,
        ready_to_paste: true,
        ready_action_state: ReadyActionState::PendingPrompt,
        staging_path: None,
        entries: vec![],
        top_level_names: vec!["photos".to_string(), "x.txt".to_string()],
        available_actions: vec![],
    }
}

#[test]
fn text_previews() {
    assert_eq!(summarize_text("  hello   world \n"), "hello world");
    assert_eq!(summarize_text(" \t "), "Empty text");
    assert_eq!(summarize_text(""), "Empty text");
    let long = "a".repeat(100);
    assert_eq!(summarize_text(&long), format!("{}...", "a".repeat(80)));
    let exactly = "b".repeat(80);
    assert_eq!(summarize_text(&exactly), exactly);
}

#[test]
fn a_walk_visits_children_by_path_and_steps_by_kind() {
    let order = relayclip::transfers::walk_order(&vec!["/d/b".to_string(), "/d/a.txt".to_string(), "/d/a".to_string()]);
    assert_eq!(order, vec!["/d/a".to_string(), "/d/a.txt".to_string(), "/d/b".to_string()]);
    assert_eq!(relayclip::transfers::walk_step(true, true, false), relayclip::transfers::WalkStep::Skip);
    assert_eq!(relayclip::transfers::walk_step(false, true, false), relayclip::transfers::WalkStep::Descend);
    assert_eq!(relayclip::transfers::walk_step(false, false, true), relayclip::transfers::WalkStep::AddFile);
    assert_eq!(relayclip::transfers::walk_step(false, false, false), relayclip::transfers::WalkStep::Ignore);
}
