use flightcore_ng_core::bootstrap::Os;
use flightcore_ng_core::backup::{backup_number, backup_path, max_backup};

#[test]
fn backup_number_reads_the_number_after_bak() {
    assert_eq!(backup_number("settings.json", "other.bak5"), Some(5));
    assert_eq!(backup_number("settings.json", "notes.bak12"), Some(12));
}

#[test]
fn backup_number_skips_files_named_after_the_file_itself() {
    assert_eq!(backup_number("settings.json", "settings.json.bak3"), None);
    assert_eq!(backup_number("settings.json", "settings.json"), None);
}

#[test]
fn backup_number_needs_a_bak_extension_with_a_number() {
    assert_eq!(backup_number("settings.json", "other.bak"), None);
    assert_eq!(backup_number("settings.json", "other.bakx"), None);
    assert_eq!(backup_number("settings.json", "other.txt"), None);
    assert_eq!(backup_number("settings.json", ".bak4"), None);
    assert_eq!(backup_number("settings.json", "other.bak4294967296"), None);
    assert_eq!(backup_number("settings.json", "other.bak+2"), Some(2));
}

#[test]
fn max_backup_takes_the_largest() {
    let entries = vec![
        "a.bak2".to_string(),
        "b.bak7".to_string(),
        "settings.json.bak9".to_string(),
        "c.txt".to_string(),
        "d.bak3".to_string(),
    ];
    assert_eq!(max_backup("settings.json", &entries), 7);
    assert_eq!(max_backup("settings.json", &Vec::new()), 0);
}

#[test]
fn backup_path_appends_bak_and_number() {
    assert_eq!(backup_path(Os::Linux, "/cfg", "settings.json", 7), "/cfg/settings.json.bak7");
    assert_eq!(backup_path(Os::Linux, "/cfg/", "settings.json", 0), "/cfg/settings.json.bak0");
}

#[test]
fn own_backups_do_not_raise_the_number() {
    let name = backup_path(Os::Linux, "", "settings.json", 4);
    assert_eq!(backup_number("settings.json", &name), None);
}
