use sftp_core::names::derive_entry_name;
use sftp_core::names::normalize_path;
use sftp_core::text::str_eq;
use sftp_core::text::u32_to_octal;
use sftp_core::text::u64_to_decimal;

#[test]
fn name_from_posix_path() {
    assert_eq!(derive_entry_name("sub/dir/report.txt"), "report.txt");
}

#[test]
fn name_from_plain_basename() {
    assert_eq!(derive_entry_name("file.txt"), "file.txt");
}

#[test]
fn name_from_drive_token() {
    assert_eq!(derive_entry_name("C:"), "C-drive");
    assert_eq!(derive_entry_name("D:"), "D-drive");
}

#[test]
fn name_from_backslash_path() {
    assert_eq!(derive_entry_name("share\\folder\\"), "folder");
    assert_eq!(derive_entry_name("share\\folder\\file.txt"), "file.txt");
}

#[test]
fn name_from_trailing_slash() {
    assert_eq!(derive_entry_name("sub/dir/"), "dir");
}

#[test]
fn name_falls_back_to_raw() {
    assert_eq!(derive_entry_name("/"), "/");
    assert_eq!(derive_entry_name("\\\\"), "\\\\");
    assert_eq!(derive_entry_name(""), "");
}

#[test]
fn slash_wins_over_drive_and_backslash() {
    assert_eq!(derive_entry_name("a\\b/c"), "c");
}

#[test]
fn normalize_empty_and_root() {
    assert_eq!(normalize_path(""), "/");
    assert_eq!(normalize_path("/"), "/");
}

#[test]
fn normalize_keeps_other_paths() {
    assert_eq!(normalize_path("/var/log"), "/var/log");
    assert_eq!(normalize_path("relative"), "relative");
}

#[test]
fn decimal_rendering() {
    assert_eq!(u64_to_decimal(0), "0");
    assert_eq!(u64_to_decimal(7), "7");
    assert_eq!(u64_to_decimal(1234567), "1234567");
    assert_eq!(u64_to_decimal(u64::MAX), "18446744073709551615");
}

#[test]
fn octal_rendering() {
    assert_eq!(u32_to_octal(0), "0");
    assert_eq!(u32_to_octal(0o755), "755");
    assert_eq!(u32_to_octal(0o644), "644");
    assert_eq!(u32_to_octal(8), "10");
}

#[test]
fn str_eq_agrees_with_equality() {
    assert!(str_eq("", ""));
    assert!(str_eq("abc", "abc"));
    assert!(!str_eq("abc", "abd"));
    assert!(!str_eq("abc", "ab"));
    assert!(str_eq("目录", "目录"));
}
