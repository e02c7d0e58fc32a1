use smartpaste::monitor::{new_copied_record, new_copy_name, new_monitored_text_record, plan_image_copy};
use smartpaste::config::default_config;
use smartpaste::monitor::{
    cleanup_pause_ms, cleanup_settings, cleanup_wake_plan, copied_kind, copied_record,
    exceeds_size_limit, files_relative_path, image_relative_path, monitor_size_limit_mb,
    monitor_step, monitored_text_record, stored_copy_name, text_passes_length_filter,
    MonitorAction, MonitorState, Tick, Wake, WakePlan, FRONTEND_IGNORE_POLLS,
};

fn tick(frontend: bool, image: Option<Vec<u8>>, files: Option<Vec<&str>>, text: Option<&str>) -> Tick {
    Tick {
        frontend_copy: frontend,
        image,
        files: files.map(|v| v.into_iter().map(|s| s.to_string()).collect()),
        text: text.map(|s| s.to_string()),
    }
}

#[test]
fn first_poll_only_takes_note() {
    let mut s = MonitorState::new();
    let a = monitor_step(&mut s, tick(false, None, None, Some("already there")));
    assert_eq!(a, MonitorAction::Settle);
    let a = monitor_step(&mut s, tick(false, None, None, Some("already there")));
    assert_eq!(a, MonitorAction::Idle);
    let a = monitor_step(&mut s, tick(false, None, None, Some("new text")));
    assert_eq!(a, MonitorAction::StoreText("new text".to_string()));
    let a = monitor_step(&mut s, tick(false, None, None, Some("new text")));
    assert_eq!(a, MonitorAction::Idle);
}

#[test]
fn image_comes_before_files_and_text() {
    let mut s = MonitorState::new();
    monitor_step(&mut s, tick(false, None, None, None));
    let a = monitor_step(&mut s, tick(false, Some(vec![1, 2, 3]), Some(vec!["/a"]), Some("t")));
    assert_eq!(a, MonitorAction::StoreImage);
    let a = monitor_step(&mut s, tick(false, Some(vec![1, 2, 3]), Some(vec!["/a"]), Some("t")));
    assert_eq!(a, MonitorAction::Idle);
    let a = monitor_step(&mut s, tick(false, Some(vec![]), Some(vec!["/a"]), Some("t")));
    assert_eq!(a, MonitorAction::Idle);
    let a = monitor_step(&mut s, tick(false, None, Some(vec!["/a", "/b"]), Some("t")));
    assert_eq!(a, MonitorAction::StoreFiles(vec!["/a".to_string(), "/b".to_string()]));
    let a = monitor_step(&mut s, tick(false, None, None, Some("t")));
    assert_eq!(a, MonitorAction::StoreText("t".to_string()));
    let a = monitor_step(&mut s, tick(false, Some(vec![1, 2, 3]), None, None));
    assert_eq!(a, MonitorAction::StoreImage);
}

#[test]
fn own_copies_are_ignored_for_thirty_polls() {
    let mut s = MonitorState::new();
    monitor_step(&mut s, tick(false, None, None, None));
    let a = monitor_step(&mut s, tick(true, None, None, Some("from the app")));
    assert_eq!(a, MonitorAction::Ignored);
    for i in 0..(FRONTEND_IGNORE_POLLS - 1) {
        let a = monitor_step(&mut s, tick(false, None, None, Some(&format!("x{}", i))));
        assert_eq!(a, MonitorAction::Ignored);
    }
    let a = monitor_step(&mut s, tick(false, None, None, Some("user copy")));
    assert_eq!(a, MonitorAction::StoreText("user copy".to_string()));
}

#[test]
fn copied_paths_are_classified() {
    assert_eq!(copied_kind(true, Some("png")), "folder");
    assert_eq!(copied_kind(false, Some("PNG")), "image");
    assert_eq!(copied_kind(false, Some("Jpeg")), "image");
    assert_eq!(copied_kind(false, Some("ico")), "image");
    assert_eq!(copied_kind(false, Some("svg")), "file");
    assert_eq!(copied_kind(false, None), "file");
}

#[test]
fn size_limits() {
    assert!(!exceeds_size_limit(u64::MAX, 0));
    assert!(!exceeds_size_limit(5 * 1024 * 1024, 5));
    assert!(exceeds_size_limit(5 * 1024 * 1024 + 1, 5));
    assert_eq!(monitor_size_limit_mb(None), 5);
    let mut cfg = default_config();
    cfg.ignore_big_file_mb = 12;
    assert_eq!(monitor_size_limit_mb(Some(&cfg)), 12);
}

#[test]
fn copies_are_named_with_their_time() {
    assert_eq!(stored_copy_name(1700000000123, "report.pdf"), "1700000000123-report.pdf");
    assert_eq!(stored_copy_name(-5, "x"), "-5-x");
    assert_eq!(stored_copy_name(0, "x"), "0-x");
    assert_eq!(stored_copy_name(i64::MIN, "m"), format!("{}-m", i64::MIN));
    assert_eq!(files_relative_path("a.txt"), "files/a.txt");
    assert_eq!(image_relative_path("abc"), "files/abc.png");
}

#[test]
fn short_texts_filter() {
    assert!(text_passes_length_filter(0, None));
    let mut cfg = default_config();
    cfg.ignore_short_text_len = 0;
    assert!(text_passes_length_filter(1, Some(&cfg)));
    cfg.ignore_short_text_len = 5;
    assert!(!text_passes_length_filter(4, Some(&cfg)));
    assert!(text_passes_length_filter(5, Some(&cfg)));
}

#[test]
fn monitored_records() {
    let r = monitored_text_record("i".to_string(), "héllo".to_string(), 7);
    assert_eq!(r.size, Some(5));
    assert_eq!(r.item_type, "text");
    assert!(!r.is_favorite);
    let c = copied_record("j".to_string(), "image".to_string(), "files/j.png".to_string(), Some(10), 8);
    assert_eq!(c.content, "files/j.png");
    assert_eq!(c.notes, "");
}

#[test]
fn cleanup_worker_decisions() {
    assert_eq!(cleanup_wake_plan(Wake::Signal), WakePlan::DebounceThenClean);
    assert_eq!(cleanup_wake_plan(Wake::Timeout), WakePlan::Clean);
    assert_eq!(cleanup_wake_plan(Wake::Closed), WakePlan::Exit);
    assert_eq!(cleanup_settings(None), (500, 30));
    let mut cfg = default_config();
    cfg.max_history_items = 9;
    cfg.retention_days = 2;
    assert_eq!(cleanup_settings(Some(&cfg)), (9, 2));
    assert_eq!(cleanup_pause_ms(30), 70);
    assert_eq!(cleanup_pause_ms(100), 0);
    assert_eq!(cleanup_pause_ms(500), 0);
}

#[test]
fn fresh_records_have_identifiers() {
    let r = new_copied_record("file".to_string(), "files/x".to_string(), Some(3));
    assert_eq!(r.id.len(), 36);
    assert_ne!(new_copied_record("file".to_string(), "f".to_string(), None).id, r.id);
    let t = new_monitored_text_record("abc".to_string());
    assert_eq!(t.size, Some(3));
    let (id, rel) = plan_image_copy();
    assert_eq!(rel, format!("files/{}.png", id));
    let n = new_copy_name("a.txt");
    assert!(n.ends_with("-a.txt"));
    assert!(n.split('-').next().unwrap().parse::<i64>().is_ok());
}

#[test]
fn frontend_copy_flag() {
    use_flag();
}

fn use_flag() {
    let mut st = smartpaste::monitor::ClipboardSourceState::new();
    assert!(!smartpaste::monitor::take_frontend_copy(&mut st));
    smartpaste::monitor::mark_frontend_copy(&mut st);
    assert!(st.is_frontend_copy);
    assert!(smartpaste::monitor::take_frontend_copy(&mut st));
    assert!(!st.is_frontend_copy);
}
