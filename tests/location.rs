use mxu_actions::location::{check_exe_dir, classify_lowered, contains_text, text_occurs_at, ExeDirIssue};

#[test]
fn drive_root_is_reported_first() {
    assert_eq!(check_exe_dir("C:\\", true, &vec![]), Some(ExeDirIssue::Root));
    assert_eq!(check_exe_dir("/tmp/", true, &vec![]), Some(ExeDirIssue::Root));
}

#[test]
fn temp_markers_are_found_in_any_case() {
    assert_eq!(
        check_exe_dir("C:\\Users\\Ann\\AppData\\Local\\Temp\\Rar$EXa1.2\\MXU", false, &vec![]),
        Some(ExeDirIssue::Temp)
    );
    assert_eq!(check_exe_dir("C:\\TEMP\\MXU", false, &vec![]), Some(ExeDirIssue::Temp));
    assert_eq!(check_exe_dir("/tmp/mxu", false, &vec![]), Some(ExeDirIssue::Temp));
    assert_eq!(check_exe_dir("C:\\Users\\Ann\\AppData\\Local\\Temp", false, &vec![]), Some(ExeDirIssue::Temp));
}

#[test]
fn system_temp_dir_prefix_is_temp() {
    let dirs = vec!["D:\\Scratch".to_string()];
    assert_eq!(check_exe_dir("d:\\scratch\\mxu", false, &dirs), Some(ExeDirIssue::Temp));
    assert_eq!(check_exe_dir("D:\\Games\\MXU", false, &dirs), None);
}

#[test]
fn ordinary_directory_has_no_issue() {
    assert_eq!(check_exe_dir("/home/ann/MXU", false, &vec!["/var/tmp".to_string()]), None);
    assert_eq!(classify_lowered("d:\\games\\mxu", false, &vec![]), None);
}

#[test]
fn substring_search() {
    assert!(contains_text("abcabd", "abd"));
    assert!(!contains_text("abcab", "abd"));
    assert!(contains_text("abc", ""));
    assert!(contains_text("", ""));
    assert!(!contains_text("", "a"));
    assert!(text_occurs_at("abc", "bc", 1));
    assert!(!text_occurs_at("abc", "bc", 2));
    assert!(!text_occurs_at("abc", "c", 9));
}
