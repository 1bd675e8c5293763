use tether::copy::{
    backup_folder_for, decide_copy, destination_for, join_path, sync_outcome, CopyDecision,
    SyncOutcome,
};
use tether::filter::{extension_listed, has_excluded, should_skip};
use tether::state::{BackupTarget, SyncConfig, WatchSlot};
use tether::watch::{
    complete_start, plan_event, validate_watch_target, volume_count_changed, ChangeKind,
    WatchError,
};

fn strings(v: &[&str]) -> Vec<String> {
    v.iter().map(|s| s.to_string()).collect()
}

#[test]
fn hidden_component_is_skipped_whatever_the_extension() {
    let none: Vec<String> = Vec::new();
    assert!(should_skip("/home/u/.git/config.txt", &none));
    assert!(should_skip("/home/u/.DS_Store", &none));
    assert!(should_skip("/home/u/.Trash/report.pdf", &none));
    assert!(should_skip("./notes.txt", &none));
    assert!(should_skip("/home/u/../x.txt", &none));
}

#[test]
fn noise_component_is_skipped() {
    let none: Vec<String> = Vec::new();
    assert!(should_skip("/Users/u/Library/Caches/x.txt", &none));
    assert!(should_skip("/p/node_modules/left-pad/index.js", &none));
    assert!(should_skip("/p/target/debug/app", &none));
    assert!(should_skip("C/Users/u/AppData/x.doc", &none));
    assert!(should_skip("target", &none));
}

#[test]
fn noise_names_match_exactly() {
    let none: Vec<String> = Vec::new();
    assert!(!should_skip("/p/targets/a.txt", &none));
    assert!(!should_skip("/p/library/a.txt", &none));
    assert!(!should_skip("/p/my.target/a.txt", &none));
}

#[test]
fn ignored_extension_is_skipped_in_any_case() {
    let ignored = strings(&["log"]);
    assert!(should_skip("/a/b/report.log", &ignored));
    assert!(should_skip("/a/b/report.LOG", &ignored));
    assert!(should_skip("/a/b/report.Log", &ignored));
    let upper = strings(&["LOG"]);
    assert!(should_skip("/a/b/report.log", &upper));
}

#[test]
fn ordinary_file_is_kept() {
    let ignored = strings(&["log", "tmp"]);
    assert!(!should_skip("/a/b/report.txt", &ignored));
    assert!(!should_skip("/a/b/Makefile", &ignored));
    assert!(!should_skip("/a/./b/report.txt", &ignored));
    assert!(!should_skip("/a/b/report.log.txt", &ignored));
    assert!(should_skip("/a/b/report.txt.tmp", &ignored));
}

#[test]
fn default_config_ignores_the_seeded_extensions() {
    let config = SyncConfig::default();
    assert_eq!(config.ignored_extensions.len(), 13);
    for e in [
        "plist", "log", "db", "ldb", "lock", "tmp", "temp", "crdownload", "part", "ini", "dat",
        "shm", "wal",
    ] {
        assert!(config.ignored_extensions.contains(&e.to_string()));
    }
    assert!(should_skip("/d/movie.mkv.crdownload", &config.ignored_extensions));
    assert!(should_skip("/d/Settings.INI", &config.ignored_extensions));
    assert!(!should_skip("/d/photo.jpg", &config.ignored_extensions));
}

#[test]
fn snapshot_keeps_the_list() {
    let config = SyncConfig { ignored_extensions: strings(&["a", "B"]) };
    let copy = config.snapshot();
    assert_eq!(copy.ignored_extensions, strings(&["a", "B"]));
}

#[test]
fn extension_listed_compares_folded_text() {
    let lowered = strings(&["log", "tmp"]);
    assert!(extension_listed(&"tmp".to_string(), &lowered));
    assert!(!extension_listed(&"TMP".to_string(), &lowered));
    assert!(!extension_listed(&"txt".to_string(), &Vec::new()));
}

#[test]
fn excluded_components_are_found() {
    assert!(has_excluded("a/.hidden/b"));
    assert!(!has_excluded("a/b/c.txt"));
    assert!(!has_excluded("/"));
}

#[test]
fn join_follows_path_rules() {
    assert_eq!(join_path("D", "a.txt"), "D/a.txt");
    assert_eq!(join_path("D/", "a.txt"), "D/a.txt");
    assert_eq!(join_path("", "a.txt"), "a.txt");
    assert_eq!(join_path("D", "/abs"), "/abs");
}

#[test]
fn backup_folder_is_fixed_under_the_root() {
    assert_eq!(backup_folder_for("D"), "D/Tether_Backups");
    assert_eq!(backup_folder_for("/mnt/usb/"), "/mnt/usb/Tether_Backups");
}

#[test]
fn destination_flattens_the_source_tree() {
    assert_eq!(
        destination_for("D/Tether_Backups", "/src/deep/er/a.txt"),
        Some("D/Tether_Backups/a.txt".to_string())
    );
    assert_eq!(
        destination_for("D/Tether_Backups", "/src/dir/"),
        Some("D/Tether_Backups/dir".to_string())
    );
    assert_eq!(destination_for("D/Tether_Backups", "/"), None);
}

#[test]
fn equal_sizes_skip_the_copy() {
    assert_eq!(decide_copy(true, Some(10), Some(10)), CopyDecision::Skip);
}

#[test]
fn changed_size_copies_again() {
    assert_eq!(decide_copy(true, Some(12), Some(10)), CopyDecision::Copy);
    assert_eq!(decide_copy(false, Some(10), None), CopyDecision::Copy);
    assert_eq!(decide_copy(true, None, Some(10)), CopyDecision::Copy);
    assert_eq!(decide_copy(true, Some(0), None), CopyDecision::Copy);
}

#[test]
fn outcome_follows_decision_and_copy() {
    assert_eq!(sync_outcome(CopyDecision::Skip, Ok(3)), SyncOutcome::Skipped);
    assert_eq!(sync_outcome(CopyDecision::Copy, Ok(3)), SyncOutcome::Copied);
    assert_eq!(
        sync_outcome(CopyDecision::Copy, Err("disk full".to_string())),
        SyncOutcome::Failed("disk full".to_string())
    );
}

#[test]
fn backup_target_holds_the_last_path() {
    let mut t = BackupTarget::new();
    assert_eq!(t.get_backup_path(), None);
    t.set_backup_path("D".to_string());
    t.set_backup_path("E".to_string());
    assert_eq!(t.get_backup_path(), Some("E".to_string()));
}

#[test]
fn second_install_hands_back_the_first() {
    let mut slot: WatchSlot<u32> = WatchSlot::new();
    assert!(!slot.is_active());
    assert_eq!(slot.install(1), None);
    assert_eq!(slot.install(2), Some(1));
    assert!(slot.is_active());
}

#[test]
fn missing_directory_is_invalid_and_installs_nothing() {
    let slot: WatchSlot<u32> = WatchSlot::new();
    assert_eq!(validate_watch_target(false), Err(WatchError::InvalidPath));
    assert_eq!(validate_watch_target(true), Ok(()));
    assert!(!slot.is_active());
}

#[test]
fn failed_setup_leaves_the_slot() {
    let mut slot: WatchSlot<u32> = WatchSlot::new();
    slot.install(7);
    let r = complete_start(&mut slot, Err("no inotify".to_string()));
    assert_eq!(r, Err(WatchError::SetupFailed("no inotify".to_string())));
    assert_eq!(slot.install(8), Some(7));
    assert_eq!(complete_start(&mut slot, Ok(9)), Ok(Some(8)));
}

#[test]
fn batch_with_ignored_log_copies_only_the_text_file() {
    let paths = strings(&["/src/a.txt", "/src/b.log"]);
    let ignored = strings(&["log"]);
    let plan = plan_event(ChangeKind::Create, &paths, &Some("D".to_string()), &ignored);
    assert_eq!(plan.folder, Some("D/Tether_Backups".to_string()));
    assert_eq!(plan.jobs.len(), 1);
    assert_eq!(plan.jobs[0].source, "/src/a.txt");
    assert_eq!(plan.jobs[0].destination, "D/Tether_Backups/a.txt");
    assert_eq!(plan.jobs[0].file_name, "a.txt");
}

#[test]
fn batch_keeps_order_and_drops_noise() {
    let paths = strings(&["/s/z.md", "/s/.git/HEAD", "/s/node_modules/m.js", "/s/a.md"]);
    let plan = plan_event(ChangeKind::Modify, &paths, &Some("/b/".to_string()), &Vec::new());
    let dests: Vec<&str> = plan.jobs.iter().map(|j| j.destination.as_str()).collect();
    assert_eq!(dests, vec!["/b/Tether_Backups/z.md", "/b/Tether_Backups/a.md"]);
}

#[test]
fn other_kinds_or_no_destination_copy_nothing() {
    let paths = strings(&["/src/a.txt"]);
    let none: Vec<String> = Vec::new();
    for kind in [ChangeKind::Remove, ChangeKind::Access, ChangeKind::Other] {
        let plan = plan_event(kind, &paths, &Some("D".to_string()), &none);
        assert!(plan.folder.is_none());
        assert!(plan.jobs.is_empty());
    }
    let plan = plan_event(ChangeKind::Create, &paths, &None, &none);
    assert!(plan.folder.is_none());
    assert!(plan.jobs.is_empty());
}

#[test]
fn volume_list_reported_on_count_change() {
    assert!(volume_count_changed(2, 3));
    assert!(!volume_count_changed(2, 2));
}
