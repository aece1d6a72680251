use gsb::config::{Item, StringHashMap};
use gsb::copy::{check_file, plan_transfer, DestIdentity, EntryKind, FileCheck, FileStat, TransferAction};
use gsb::device::device_name_from;
use gsb::error::GsbError;
use gsb::ops::{collect_failures, plan_item, plan_item_on_device, Direction};
use gsb::store::{classify_merge, commit_message, decimal_string, needs_commit, PullStep};
use gsb::sync::{sync_step, SyncEvent, SyncPhase, SyncReport};

const DEVICE: &str = "dev-1234";

fn aliases() -> StringHashMap<String> {
    let mut m = StringHashMap::new();
    m.insert("laptop".to_string(), DEVICE.to_string());
    m
}

fn item(path: &str, source: &str, is_hardlink: bool) -> Item {
    Item {
        path_in_repo: path.to_string(),
        default_source: Some(source.to_string()),
        is_hardlink,
        sources: None,
        ignore_collect: vec![],
        ignore_restore: vec![],
    }
}

#[test]
fn collect_plan_goes_device_to_repo() {
    let it = item("a.txt", "/work/a.txt", false);
    let t = plan_item(&it, Direction::Collect, DEVICE, &aliases(), "/repo", &None)
        .unwrap()
        .unwrap();
    assert_eq!(t.from, "/work/a.txt");
    assert_eq!(t.to, "/repo/a.txt");
    assert!(!t.is_hardlink);
}

#[test]
fn restore_plan_goes_repo_to_device() {
    let it = item("notes/a.md", "~/a.md", true);
    let home = Some("/home/me".to_string());
    let t = plan_item(&it, Direction::Restore, DEVICE, &aliases(), "/repo", &home)
        .unwrap()
        .unwrap();
    assert_eq!(t.from, "/repo/notes/a.md");
    assert_eq!(t.to, "/home/me/a.md");
    assert!(t.is_hardlink);
}

#[test]
fn collect_plan_uses_forward_slashes() {
    let it = item("win\\a.txt", "C:\\work\\a.txt", false);
    let t = plan_item(&it, Direction::Collect, DEVICE, &aliases(), "/repo", &None)
        .unwrap()
        .unwrap();
    assert_eq!(t.from, "C:/work/a.txt");
    assert_eq!(t.to, "/repo/win/a.txt");
}

#[test]
fn ignored_item_is_skipped_per_direction() {
    let mut it = item("a.txt", "/work/a.txt", false);
    it.ignore_collect = vec!["laptop".to_string()];
    assert!(plan_item(&it, Direction::Collect, DEVICE, &aliases(), "/repo", &None)
        .unwrap()
        .is_none());
    assert!(plan_item(&it, Direction::Restore, DEVICE, &aliases(), "/repo", &None)
        .unwrap()
        .is_some());
    it.ignore_collect = vec![DEVICE.to_string()];
    assert!(plan_item(&it, Direction::Collect, DEVICE, &aliases(), "/repo", &None)
        .unwrap()
        .is_none());
}

#[test]
fn item_without_source_is_an_error() {
    let mut it = item("a.txt", "/work/a.txt", false);
    it.default_source = None;
    match plan_item(&it, Direction::Collect, DEVICE, &aliases(), "/repo", &None) {
        Err(GsbError::SourcePathNotFound(p, d)) => {
            assert_eq!(p, "a.txt");
            assert_eq!(d, DEVICE);
        }
        other => panic!("unexpected {:?}", other.is_ok()),
    }
}

#[test]
fn failures_are_all_reported() {
    let results = vec![
        Ok(()),
        Err(GsbError::SourcePathNotFound("a".to_string(), DEVICE.to_string())),
        Ok(()),
        Err(GsbError::HardlinkFailed("/x".to_string(), "/y".to_string())),
    ];
    let errs = match collect_failures(results) {
        Err(GsbError::ItemsFailed(errs)) => errs,
        other => panic!("unexpected {:?}", other),
    };
    assert_eq!(errs.len(), 2);
    assert!(matches!(errs[0], GsbError::SourcePathNotFound(_, _)));
    assert!(matches!(errs[1], GsbError::HardlinkFailed(_, _)));
}

#[test]
fn all_successes_give_ok() {
    assert!(collect_failures(vec![Ok(()), Ok(())]).is_ok());
    assert!(collect_failures(vec![]).is_ok());
}

#[test]
fn decimal_digits() {
    assert_eq!(decimal_string(0), "0");
    assert_eq!(decimal_string(7), "7");
    assert_eq!(decimal_string(10), "10");
    assert_eq!(decimal_string(1700000000), "1700000000");
    assert_eq!(decimal_string(u64::MAX), "18446744073709551615");
}

#[test]
fn commit_message_names_device_and_time() {
    let m = commit_message(DEVICE, 1700000000);
    assert_eq!(m, "gsb collect on dev-1234 at 1700000000");
    assert!(m.contains("gsb collect on"));
    assert!(m.contains(DEVICE));
}

#[test]
fn commit_only_when_tree_changed() {
    assert!(needs_commit(&[1, 2, 3], &[1, 2, 4]));
    assert!(!needs_commit(&[1, 2, 3], &[1, 2, 3]));
}

#[test]
fn merge_analysis_outcomes() {
    assert_eq!(classify_merge(true, false).unwrap(), PullStep::UpToDate);
    assert_eq!(classify_merge(true, true).unwrap(), PullStep::UpToDate);
    assert_eq!(classify_merge(false, true).unwrap(), PullStep::FastForward);
    assert!(matches!(classify_merge(false, false), Err(GsbError::MergeConflict)));
}

#[test]
fn sync_cycle_steps() {
    let s = sync_step(SyncPhase::Pull, SyncEvent::PullSucceeded);
    assert_eq!(s.next, SyncPhase::Restore);
    let s = sync_step(SyncPhase::Restore, SyncEvent::RestoreFailed);
    assert_eq!(s.next, SyncPhase::Sleep);
    assert_eq!(s.report, SyncReport::RestoreFailed);
    let s = sync_step(SyncPhase::Restore, SyncEvent::RestoreSucceeded);
    assert_eq!((s.next, s.report), (SyncPhase::Sleep, SyncReport::Quiet));
    let s = sync_step(SyncPhase::Sleep, SyncEvent::Woke);
    assert_eq!(s.next, SyncPhase::Pull);
    let s = sync_step(SyncPhase::Sleep, SyncEvent::PullFailed);
    assert_eq!(s.next, SyncPhase::Sleep);
}

#[test]
fn device_name_error_when_host_gives_none() {
    assert!(matches!(device_name_from(None), Err(GsbError::DeviceNameError)));
    assert_eq!(device_name_from(Some("abc".to_string())).unwrap(), "abc");
}

#[test]
fn scenario_first_collect_copies_and_commits() {
    let it = item("a.txt", "/work/a.txt", false);
    let t = plan_item(&it, Direction::Collect, DEVICE, &aliases(), "/", &None)
        .unwrap()
        .unwrap();
    assert_eq!(t.from, "/work/a.txt");
    assert_eq!(t.to, "/a.txt");
    assert_eq!(
        plan_transfer(false, EntryKind::File, DestIdentity::Absent),
        TransferAction::SmartCopy
    );
    let src = FileStat {
        len: 2,
        mtime_secs: Some(100),
    };
    assert_eq!(check_file(&src, &None), FileCheck::Copy);
    assert!(needs_commit(&[1; 20], &[2; 20]));
    assert!(commit_message(DEVICE, 200).contains(DEVICE));
}

#[test]
fn scenario_unchanged_collect_writes_nothing() {
    let src = FileStat {
        len: 2,
        mtime_secs: Some(100),
    };
    assert_eq!(check_file(&src, &Some(src)), FileCheck::Skip);
    assert!(!needs_commit(&[1; 20], &[1; 20]));
}

#[test]
fn scenario_hardlinked_item_is_linked() {
    let it = item("b.txt", "/work/b.txt", true);
    let t = plan_item(&it, Direction::Collect, DEVICE, &aliases(), "/", &None)
        .unwrap()
        .unwrap();
    assert_eq!((t.from.as_str(), t.to.as_str()), ("/work/b.txt", "/b.txt"));
    assert_eq!(
        plan_transfer(t.is_hardlink, EntryKind::File, DestIdentity::Absent),
        TransferAction::Link
    );
}

#[test]
fn scenario_diverged_pull_sleeps_and_retries() {
    let pulled = classify_merge(false, false);
    assert!(matches!(pulled, Err(GsbError::MergeConflict)));
    let event = if pulled.is_ok() {
        SyncEvent::PullSucceeded
    } else {
        SyncEvent::PullFailed
    };
    let s = sync_step(SyncPhase::Pull, event);
    assert_eq!((s.next, s.report), (SyncPhase::Sleep, SyncReport::PullFailed));
    let s = sync_step(s.next, SyncEvent::Woke);
    assert_eq!(s.next, SyncPhase::Pull);
}

#[test]
fn restore_plan_uses_forward_slashes() {
    let it = item("a.txt", "C:\\work\\a.txt", false);
    let t = plan_item(&it, Direction::Restore, DEVICE, &aliases(), "/repo", &None)
        .unwrap()
        .unwrap();
    assert_eq!(t.from, "/repo/a.txt");
    assert_eq!(t.to, "C:/work/a.txt");
}

#[test]
fn device_plan_keeps_absolute_sources() {
    let it = item("a.txt", "/work/a.txt", false);
    let t = plan_item_on_device(&it, Direction::Collect, DEVICE, &aliases(), "/repo")
        .unwrap()
        .unwrap();
    assert_eq!(t.from, "/work/a.txt");
    assert_eq!(t.to, "/repo/a.txt");
}
