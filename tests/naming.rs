use debuginfo_upload_server::store::{
    download_path, minidump_dir, minidump_filepath, staging_path, symbol_dir, upload_path, ArtifactPath,
    Options,
};
use debuginfo_upload_server::timestamp::{parse_i64, report_file_name, timestamp_label};

fn options() -> Options {
    Options {
        port: 8012,
        output: "./uploads".to_string(),
        max_save_time: 129600,
        minidump_dir: "./uploads/minidumps".to_string(),
        minidump_sym_dir: "./uploads/symbols".to_string(),
    }
}

fn segments(p: &ArtifactPath) -> Vec<&str> {
    p.segments.iter().map(|s| s.as_str()).collect()
}

#[test]
fn parse_plain_and_signed_integers() {
    assert_eq!(parse_i64("1000"), Some(1000));
    assert_eq!(parse_i64("0"), Some(0));
    assert_eq!(parse_i64("+7"), Some(7));
    assert_eq!(parse_i64("-42"), Some(-42));
    assert_eq!(parse_i64("007"), Some(7));
}

#[test]
fn parse_rejects_non_integers() {
    assert_eq!(parse_i64(""), None);
    assert_eq!(parse_i64("-"), None);
    assert_eq!(parse_i64("+"), None);
    assert_eq!(parse_i64("12a"), None);
    assert_eq!(parse_i64(" 12"), None);
    assert_eq!(parse_i64("1.5"), None);
    assert_eq!(parse_i64("--1"), None);
}

#[test]
fn parse_range_limits() {
    assert_eq!(parse_i64("9223372036854775807"), Some(i64::MAX));
    assert_eq!(parse_i64("9223372036854775808"), None);
    assert_eq!(parse_i64("-9223372036854775808"), Some(i64::MIN));
    assert_eq!(parse_i64("-9223372036854775809"), None);
    assert_eq!(parse_i64("99999999999999999999999"), None);
}

#[test]
fn nanosecond_timestamp_is_formatted() {
    assert_eq!(timestamp_label("1000"), "1970-01-01 00:00:00.000001000");
    assert_eq!(timestamp_label("0"), "1970-01-01 00:00:00.000000000");
    assert_eq!(timestamp_label("1700000000123456789"), "2023-11-14 22:13:20.123456789");
}

#[test]
fn other_timestamp_is_kept_verbatim() {
    assert_eq!(timestamp_label("yesterday"), "yesterday");
    assert_eq!(timestamp_label(""), "");
    assert_eq!(timestamp_label("99999999999999999999"), "99999999999999999999");
}

#[test]
fn report_file_name_appends_extension() {
    assert_eq!(report_file_name("abc"), "abc.minidump");
    assert_eq!(report_file_name(""), ".minidump");
}

#[test]
fn report_path_uses_formatted_timestamp() {
    let opt = options();
    let p = minidump_filepath(&opt, "v1", "1000");
    assert_eq!(
        segments(&p),
        vec!["./uploads/minidumps", "v1", "1970-01-01 00:00:00.000001000.minidump"]
    );
    let q = minidump_filepath(&opt, "v1", "late");
    assert_eq!(segments(&q), vec!["./uploads/minidumps", "v1", "late.minidump"]);
}

#[test]
fn store_locations() {
    let opt = options();
    assert_eq!(segments(&upload_path(&opt, "a.bin")), vec!["./uploads", "a.bin"]);
    assert_eq!(segments(&download_path(&opt, "a.bin")), vec!["./uploads", "a.bin"]);
    assert_eq!(
        segments(&symbol_dir(&opt, "mod", "id1")),
        vec!["./uploads/symbols", "mod", "id1"]
    );
    assert_eq!(
        segments(&minidump_dir(&opt, "v1", "1000")),
        vec!["./uploads/minidumps", "v1", "1000"]
    );
    assert_eq!(
        segments(&staging_path(&opt, "v1", "1000", "crash")),
        vec!["./uploads/minidumps", "v1", "1000", "crash.dmp"]
    );
}

#[test]
fn path_join_and_clone() {
    let root = ArtifactPath::root("r");
    let p = root.join("a").join("b");
    assert_eq!(segments(&p), vec!["r", "a", "b"]);
    assert_eq!(segments(&p.clone()), vec!["r", "a", "b"]);
    assert_eq!(segments(&root), vec!["r"]);
}
