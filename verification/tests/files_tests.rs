use smartpaste::files::{decode_received_contents, encode_file_contents, frontend_file, new_backup_file_name};
use smartpaste::files::{
    applescript_file_command, backup_file_name, backup_targets, check_backup_contents,
    collect_prepared, file_uri, has_parent_part, is_backup_name, is_directory_entry,
    latest_backup, local_file_info, migration_error, migration_items, mime_for_extension,
    moved_as_directory, powershell_file_drop_script, received_file_target, require_selection,
    restore_message, scan_backup_entries, should_restore_entry, strip_timestamp_prefix,
    test_function, zip_entry_name, BackupContents, MigrationFailure,
};

fn strings(v: &[&str]) -> Vec<String> {
    v.iter().map(|s| s.to_string()).collect()
}

#[test]
fn test_basic_function() {
    assert_eq!(test_function(), "这是来自 Rust 的测试信息");
}

#[test]
fn test_process_file_for_clipboard_logic() {
    let original_name = "1234567890123-realname.txt";
    assert_eq!(strip_timestamp_prefix(original_name), "realname.txt");
}

#[test]
fn timestamp_prefixes() {
    assert_eq!(strip_timestamp_prefix("123456789012-a.txt"), "123456789012-a.txt");
    assert_eq!(strip_timestamp_prefix("12345678901234-a.txt"), "12345678901234-a.txt");
    assert_eq!(strip_timestamp_prefix("12345678901a3-a.txt"), "12345678901a3-a.txt");
    assert_eq!(strip_timestamp_prefix("plain.txt"), "plain.txt");
    assert_eq!(strip_timestamp_prefix("1700000000000-my-file.txt"), "my-file.txt");
    assert_eq!(strip_timestamp_prefix("1700000000000-"), "");
}

#[test]
fn mime_types() {
    assert_eq!(mime_for_extension(Some("png")), "image/png");
    assert_eq!(mime_for_extension(Some("JPG")), "image/jpeg");
    assert_eq!(mime_for_extension(Some("jpeg")), "image/jpeg");
    assert_eq!(mime_for_extension(Some("svg")), "image/svg+xml");
    assert_eq!(mime_for_extension(Some("js")), "application/javascript");
    assert_eq!(mime_for_extension(Some("zip")), "application/zip");
    assert_eq!(mime_for_extension(Some("exe")), "application/octet-stream");
    assert_eq!(mime_for_extension(None), "application/octet-stream");
}

#[test]
fn test_save_clipboard_file_security() {
    let result = received_file_target("/tmp/store/files", "../hack.txt");
    assert!(result.is_err());
    assert!(result.err().unwrap().contains("非法字符"));
}

#[test]
fn received_files_stay_in_the_files_folder() {
    assert_eq!(received_file_target("/s/files", "subdir/test.txt"), Ok("/s/files/subdir/test.txt".to_string()));
    assert!(has_parent_part(".."));
    assert!(has_parent_part("a/../b"));
    assert!(has_parent_part("a/.."));
    assert!(!has_parent_part("a/..b/c"));
    assert!(!has_parent_part("a/b.."));
    assert!(!has_parent_part(""));
}

#[test]
fn upload_entries_use_forward_slashes() {
    let info = local_file_info("sub\\a.txt", "C:\\s\\files\\sub\\a.txt");
    assert_eq!(info.relative_path, "sub/a.txt");
    assert_eq!(info.file_path, "C:/s/files/sub/a.txt");
}

#[test]
fn clipboard_selection() {
    assert_eq!(require_selection(&vec![]), Err("未选择任何内容".to_string()));
    assert_eq!(require_selection(&strings(&["a"])), Ok(()));
    assert_eq!(
        collect_prepared(vec![Err("x".to_string()), Ok("/t/a".to_string()), Ok("/t/b".to_string())]),
        Ok(strings(&["/t/a", "/t/b"]))
    );
    assert_eq!(collect_prepared(vec![Err("x".to_string())]), Err("所有内容处理失败".to_string()));
}

#[test]
fn clipboard_commands() {
    assert_eq!(
        powershell_file_drop_script("C:\\it's.txt"),
        "$sc = New-Object System.Collections.Specialized.StringCollection; $sc.Add('C:\\it''s.txt'); Add-Type -AssemblyName System.Windows.Forms; [System.Windows.Forms.Clipboard]::SetFileDropList($sc);"
    );
    assert_eq!(applescript_file_command("/a \"b\""), "set the clipboard to POSIX file \"/a \\\"b\\\"\"");
    assert_eq!(file_uri("/home/a.txt"), "file:///home/a.txt");
}

#[test]
fn backups() {
    assert_eq!(backup_file_name("2024-01-02_03-04-05"), "backup_2024-01-02_03-04-05.zip");
    let targets = backup_targets();
    assert_eq!(targets, vec![("config.json", false), ("smartpaste.db", false), ("files", true)]);
    assert_eq!(zip_entry_name("", "a"), "a");
    assert_eq!(zip_entry_name("files", "a.png"), "files/a.png");
    assert!(is_backup_name("backup_1.zip"));
    assert!(!is_backup_name("backup_1.tar"));
    assert!(!is_backup_name("mybackup_1.zip"));

    let names = strings(&["config.json", "backup_2024-01-01.zip", "backup_2024-03-01.zip", "backup_2023-12-31.zip"]);
    assert_eq!(latest_backup(&names), Ok(2));
    assert_eq!(
        latest_backup(&strings(&["a.zip", "config.json"])),
        Err("未找到任何以 backup_ 开头的 zip 备份文件".to_string())
    );
}

#[test]
fn backup_contents() {
    let c = scan_backup_entries(&strings(&["config.json", "smartpaste.db", "files/", "files/a.png"]));
    assert_eq!(c, BackupContents { has_config: true, has_db: true, has_files: true });
    assert_eq!(check_backup_contents(c), Ok(()));
    let c = scan_backup_entries(&strings(&["config.json", "files\\x"]));
    assert_eq!(c, BackupContents { has_config: true, has_db: false, has_files: true });
    assert_eq!(
        check_backup_contents(c),
        Err("备份文件不完整! 检查结果: config.json=true, db=false, files=true".to_string())
    );
    assert!(should_restore_entry("files/a.png"));
    assert!(should_restore_entry("smartpaste.db"));
    assert!(!should_restore_entry("other.txt"));
    assert!(is_directory_entry("files/"));
    assert!(is_directory_entry("files\\"));
    assert!(!is_directory_entry("files/a"));
    assert_eq!(restore_message("backup_1.zip"), "恢复成功！已从 backup_1.zip 还原数据。");
}

#[test]
fn moving_data() {
    assert_eq!(migration_items(), vec![("smartpaste.db", "数据库文件"), ("files", "文件目录")]);
    assert!(moved_as_directory("files", true));
    assert!(!moved_as_directory("files", false));
    assert!(!moved_as_directory("smartpaste.db", true));
    assert_eq!(migration_error(MigrationFailure::CreateDir, "x", "e"), "创建新存储路径失败: e");
    assert_eq!(migration_error(MigrationFailure::RemoveExisting, "文件目录", "e"), "删除现有 文件目录 失败: e");
    assert_eq!(migration_error(MigrationFailure::Copy, "数据库文件", "e"), "迁移 数据库文件 失败: e");
}

#[test]
fn base64_round_trip_through_the_library() {
    let f = frontend_file("test.png".to_string(), &vec![1, 2, 3, 4], Some("png"));
    assert_eq!(f.name, "test.png");
    assert_eq!(f.mime, "image/png");
    assert_eq!(f.data, "AQIDBA==");
    assert_eq!(encode_file_contents(&b"Hello World".to_vec()), "SGVsbG8gV29ybGQ=");
    assert_eq!(decode_received_contents("U2F2ZSBNZQ=="), Ok(b"Save Me".to_vec()));
    assert!(decode_received_contents("***").unwrap_err().starts_with("Base64 解码失败: "));
    let name = new_backup_file_name();
    assert!(is_backup_name(&name));
}

#[test]
fn backup_names_carry_a_date_and_time() {
    let name = new_backup_file_name();
    let stamp: Vec<char> = name["backup_".len()..name.len() - ".zip".len()].chars().collect();
    let n = stamp.len();
    assert!(n >= 19);
    let tail: String = stamp[n - 15..].iter().collect();
    let shape: String = tail.chars().map(|c| if c.is_ascii_digit() { 'D' } else { c }).collect();
    assert_eq!(shape, "-DD-DD_DD-DD-DD");
}
