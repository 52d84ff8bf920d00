use sftp_core::FileInfo;
use sftp_core::RawDirEntry;
use sftp_core::listing::build_listing;
use sftp_core::ops::RemoteDeleteOp;
use sftp_core::ops::auth_check;
use sftp_core::ops::cancel_summary;
use sftp_core::ops::connection_active_no_cwd_summary;
use sftp_core::ops::connection_active_summary;
use sftp_core::ops::create_directory_summary;
use sftp_core::ops::delete_operation;
use sftp_core::ops::delete_summary;
use sftp_core::ops::disconnect_summary;
use sftp_core::ops::download_summary;
use sftp_core::ops::test_connection_summary;
use sftp_core::ops::upload_data_summary;
use sftp_core::ops::upload_summary;
use sftp_core::transfer::CHUNK_SIZE;
use sftp_core::transfer::DIR_MODE;

fn raw(path: &str, size: Option<u64>, is_dir: bool, perm: Option<u32>) -> RawDirEntry {
    RawDirEntry { path: path.to_string(), size, is_dir, perm }
}

#[test]
fn empty_remote_directory_is_an_empty_listing() {
    let out: Vec<FileInfo> = build_listing(&Vec::new());
    assert!(out.is_empty());
}

#[test]
fn listing_keeps_channel_order_and_fills_fields() {
    let raws = vec![
        raw("/home/u/report.txt", Some(120), false, Some(0o644)),
        raw("/home/u/logs", None, true, Some(0o755)),
        raw("/home/u/data.bin", Some(8), false, None),
    ];
    let out = build_listing(&raws);
    assert_eq!(out.len(), 3);

    assert_eq!(out[0].name, "report.txt");
    assert_eq!(out[0].path, "/home/u/report.txt");
    assert_eq!(out[0].size, 120);
    assert!(!out[0].is_dir);
    assert_eq!(out[0].permissions, "644");
    assert!(out[0].modified.is_none());

    assert_eq!(out[1].name, "logs");
    assert_eq!(out[1].size, 0, "unknown size defaults to 0");
    assert!(out[1].is_dir);
    assert_eq!(out[1].permissions, "755");

    assert_eq!(out[2].name, "data.bin");
    assert_eq!(out[2].permissions, "0", "unknown permissions default to \"0\"");
}

#[test]
fn listing_drops_dot_and_dotdot_entries() {
    let raws = vec![
        raw(".", None, true, None),
        raw("..", None, true, None),
        raw("/x/.", None, true, None),
        raw("/x/..", None, true, None),
        raw("/x/.hidden", Some(1), false, None),
    ];
    let out = build_listing(&raws);
    assert_eq!(out.len(), 1);
    assert_eq!(out[0].name, ".hidden");
}

#[test]
fn listing_handles_windows_style_entries() {
    let raws = vec![
        raw("C:", None, true, None),
        raw("share\\folder\\", None, true, None),
    ];
    let out = build_listing(&raws);
    assert_eq!(out[0].name, "C-drive");
    assert_eq!(out[0].path, "C:");
    assert_eq!(out[1].name, "folder");
}

#[test]
fn delete_branch_follows_the_flag() {
    assert_eq!(delete_operation(true), RemoteDeleteOp::Rmdir);
    assert_eq!(delete_operation(false), RemoteDeleteOp::Unlink);
}

#[test]
fn auth_check_accepts_only_authenticated_sessions() {
    assert!(auth_check(true).is_ok());
    let e = auth_check(false).unwrap_err();
    assert_eq!(e.message(), "authentication failure: credentials rejected");
}

#[test]
fn summaries_render_exactly() {
    assert_eq!(test_connection_summary(), "connection successful");
    assert_eq!(download_summary(20000), "download complete: 20000 bytes");
    assert_eq!(download_summary(0), "download complete: 0 bytes");
    assert_eq!(upload_summary(), "upload complete");
    assert_eq!(upload_data_summary("a.txt"), "file a.txt uploaded");
    assert_eq!(create_directory_summary(), "directory created");
    assert_eq!(delete_summary(), "deleted");
    assert_eq!(disconnect_summary(), "disconnected");
    assert_eq!(cancel_summary("t1"), "transfer t1 cancelled");
    assert_eq!(
        connection_active_summary("/home/u"),
        "connection active, current directory: /home/u"
    );
    assert_eq!(
        connection_active_no_cwd_summary("timed out"),
        "connection active, but the working directory is unavailable: timed out"
    );
}

#[test]
fn transfer_constants_match_the_contract() {
    assert_eq!(CHUNK_SIZE, 8192);
    assert_eq!(DIR_MODE, 0o755);
}
