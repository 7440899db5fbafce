use termfilepicker::resolver::{
    file_name_of, join_path, parent_dir, rerooted_target, resolve, resolve_write_target,
    timestamped_name, visible_name, ResolvedSession,
};
use termfilepicker::errors::SessionError;
use termfilepicker::request::FileMode;
use termfilepicker::strutil::{starts_with, trim, u64_string};

#[test]
fn file_name_strips_directories() {
    assert_eq!(file_name_of("/a/b/c.txt"), "c.txt");
    assert_eq!(file_name_of("noslash"), "noslash");
    assert_eq!(file_name_of("/ends/with/"), "");
}

#[test]
fn visible_name_replaces_leading_dot() {
    assert_eq!(visible_name(".bashrc"), "_bashrc");
    assert_eq!(visible_name(".config"), "_config");
    assert_eq!(visible_name("plain.txt"), "plain.txt");
    assert_eq!(visible_name(""), "");
    assert_eq!(visible_name("..twodots"), "_.twodots");
}

#[test]
fn join_inserts_single_separator() {
    assert_eq!(join_path("/home/u", "file.txt"), "/home/u/file.txt");
}

#[test]
fn timestamp_goes_between_stem_and_extension() {
    assert_eq!(timestamped_name("report.html", 1234), "report.1234.html");
    assert_eq!(timestamped_name("archive.tar.gz", 5), "archive.tar.5.gz");
    assert_eq!(timestamped_name("README", 42), "README.42");
    assert_eq!(timestamped_name(".hidden", 7), ".hidden.7");
}

#[test]
fn decimal_rendering_is_exact() {
    assert_eq!(u64_string(0), "0");
    assert_eq!(u64_string(9), "9");
    assert_eq!(u64_string(10), "10");
    assert_eq!(u64_string(1234567890), "1234567890");
}

#[test]
fn resolved_target_reroots_under_last_dir() {
    let target = resolve_write_target("/tmp/Downloads/report.html", "/home/u", false, 0);
    assert_eq!(target, "/home/u/report.html");
    assert_eq!(rerooted_target("/tmp/Downloads/report.html", "/home/u"), target);
    assert_eq!(rerooted_target("/tmp/.profile", "/home/u"), "/home/u/_profile");
}

#[test]
fn colliding_target_is_disambiguated() {
    let plain = resolve_write_target("/tmp/Downloads/report.html", "/home/u", false, 99);
    let bumped = resolve_write_target("/tmp/Downloads/report.html", "/home/u", true, 99);
    assert_eq!(bumped, "/home/u/report.99.html");
    assert_ne!(bumped, plain);
}

#[test]
fn hidden_recommendation_is_exposed() {
    let target = resolve_write_target("/somewhere/.profile", "/home/u", false, 0);
    assert_eq!(target, "/home/u/_profile");
}

#[test]
fn parent_dir_takes_directory_portion() {
    assert_eq!(parent_dir("/a/b/file1"), Some("/a/b".to_string()));
    assert_eq!(parent_dir("/a"), Some("/".to_string()));
    assert_eq!(parent_dir("relative"), None);
}

#[test]
fn trim_removes_surrounding_whitespace() {
    assert_eq!(trim("  /a/b \n"), "/a/b");
    assert_eq!(trim("\t\r\n "), "");
    assert_eq!(trim("inner space kept"), "inner space kept");
}

#[test]
fn starts_with_checks_prefix() {
    assert!(starts_with("abcdef", "abc"));
    assert!(!starts_with("abcdef", "abd"));
    assert!(!starts_with("ab", "abc"));
    assert!(starts_with("anything", ""));
}

#[test]
fn read_mode_resolves_to_working_dir() {
    let s: ResolvedSession =
        resolve(FileMode::Read, None, "/home/u/Downloads", false, false, 0).unwrap();
    assert_eq!(s.working_dir, "/home/u/Downloads");
    assert_eq!(s.target_path, "/home/u/Downloads");
    assert!(s.prior_write_marker.is_none());
}

#[test]
fn write_mode_without_recommendation_is_invalid() {
    let r = resolve(FileMode::Write, None, "/home/u", false, false, 0);
    assert_eq!(r.unwrap_err(), SessionError::InvalidInput);
}

#[test]
fn write_mode_records_the_marker() {
    let s = resolve(
        FileMode::Write,
        Some("/tmp/Downloads/report.html"),
        "/tmp/Downloads",
        false,
        true,
        0,
    )
    .unwrap();
    assert_eq!(s.target_path, "/tmp/Downloads/report.html");
    assert_eq!(s.prior_write_marker, Some("/tmp/Downloads/report.html".to_string()));
}
