use termfilepicker::config::Config;
use termfilepicker::errors::SessionError;
use termfilepicker::filepicker::{build_picker_command, make_filepicker_command, FilePicker};
use termfilepicker::interpret::{interpret, should_delete_write_target, PickerOutcome};
use termfilepicker::logger::logger_path_in;
use termfilepicker::request::{parse_bool, parse_request, FileMode};
use termfilepicker::resolver::resolve;
use termfilepicker::session::{pick_default_dir, state_file_in};
use termfilepicker::store::SessionStateStore;
use termfilepicker::terminals::{command_name, select_terminal, Terminal};

const UNUSED_MARKER: &str = "xdg-desktop-portal-termfilechooser saving files tutorial";

#[test]
fn flags_parse_as_one() {
    assert!(parse_bool("1"));
    assert!(!parse_bool("0"));
    assert!(!parse_bool(""));
    assert!(!parse_bool("2"));
    assert!(!parse_bool("11"));
}

#[test]
fn wrong_argument_count_is_invalid_input() {
    let args = vec!["0".to_string(), "0".to_string(), "0".to_string()];
    assert_eq!(parse_request(&args).unwrap_err(), SessionError::InvalidInput);
}

#[test]
fn read_request_ignores_recommended_path() {
    let args: Vec<String> =
        ["0", "0", "0", "", "/tmp/out"].iter().map(|s| s.to_string()).collect();
    let req = parse_request(&args).unwrap();
    assert!(!req.allow_multiple);
    assert!(!req.want_directory);
    assert_eq!(req.mode, FileMode::Read);
    assert!(req.recommended_path.is_none());
    assert_eq!(req.output_path, "/tmp/out");
}

#[test]
fn write_request_keeps_recommended_path() {
    let args: Vec<String> = ["0", "0", "1", "/tmp/Downloads/report.html", "/tmp/out"]
        .iter()
        .map(|s| s.to_string())
        .collect();
    let req = parse_request(&args).unwrap();
    assert_eq!(req.mode, FileMode::Write);
    assert_eq!(req.recommended_path, Some("/tmp/Downloads/report.html".to_string()));
}

#[test]
fn no_state_falls_back_to_downloads() {
    // A read-mode session with no prior last-directory file opens in the
    // system downloads directory, and the command names the output file and
    // that directory.
    let args: Vec<String> =
        ["0", "0", "0", "", "/tmp/out"].iter().map(|s| s.to_string()).collect();
    let req = parse_request(&args).unwrap();
    let store = SessionStateStore::load(None);
    assert!(store.candidate().is_none());
    let working_dir =
        pick_default_dir(Some("/home/u/Downloads".to_string()), Some("/home/u".to_string()))
            .unwrap();
    assert_eq!(working_dir, "/home/u/Downloads");
    let session = resolve(req.mode, None, &working_dir, false, false, 0).unwrap();
    let cmd = build_picker_command(
        FilePicker::Yazi,
        "yazi",
        session.mode,
        req.want_directory,
        &session.target_path,
        &req.output_path,
        &session.working_dir,
    )
    .unwrap();
    assert!(cmd.contains("--chooser-file=/tmp/out"));
    assert!(cmd.contains("--cwd-file=/home/u/Downloads"));
    assert_eq!(cmd, "yazi --chooser-file=/tmp/out --cwd-file=/home/u/Downloads /home/u/Downloads");
}

#[test]
fn write_collision_gets_epoch_suffix_and_survives_cleanup() {
    // Save-dialog session whose recommended file already exists at the
    // re-rooted destination: the target gains the epoch suffix, and after
    // the picker reports that exact path the cleanup step must keep it.
    let args: Vec<String> = ["0", "0", "1", "/tmp/Downloads/report.html", "/tmp/out"]
        .iter()
        .map(|s| s.to_string())
        .collect();
    let req = parse_request(&args).unwrap();
    let epoch: u64 = 1700000000;
    let session = resolve(
        req.mode,
        req.recommended_path.as_deref(),
        "/tmp/Downloads",
        true,
        true,
        epoch,
    )
    .unwrap();
    assert_eq!(session.target_path, "/tmp/Downloads/report.1700000000.html");
    let outcome = interpret(Some(session.target_path.clone()));
    match &outcome {
        PickerOutcome::Selected(p) => assert_eq!(p, &session.target_path),
        PickerOutcome::Cancelled => panic!("a non-empty output file selects a path"),
    }
    // The user saved real content there, so it no longer starts with the
    // unused marker and must not be deleted.
    let content = "<html>saved page</html>";
    assert!(!should_delete_write_target(FileMode::Write, Some(content)));
}

#[test]
fn untouched_marker_is_deleted_in_write_mode_only() {
    let marker_text = format!("{}\nrest of the tutorial", UNUSED_MARKER);
    assert!(should_delete_write_target(FileMode::Write, Some(&marker_text)));
    assert!(!should_delete_write_target(FileMode::Read, Some(&marker_text)));
    assert!(!should_delete_write_target(FileMode::Write, None));
    assert!(!should_delete_write_target(FileMode::Write, Some("real content")));
}

#[test]
fn multi_select_persists_parent_of_first_line() {
    let outcome = interpret(Some("/a/b/file1\n/a/b/file2".to_string()));
    match &outcome {
        PickerOutcome::Selected(p) => assert_eq!(p, "/a/b/file1"),
        PickerOutcome::Cancelled => panic!("two reported lines select a path"),
    }
    let mut store = SessionStateStore::load(Some("/old/place".to_string()));
    store.update_after_session(&outcome);
    assert_eq!(store.persisted_text(), Some(&"/a/b".to_string()));
}

#[test]
fn cancelled_session_leaves_store_untouched() {
    let mut store = SessionStateStore::load(Some("/keep/me".to_string()));
    let absent = interpret(None);
    assert!(matches!(absent, PickerOutcome::Cancelled));
    store.update_after_session(&absent);
    assert_eq!(store.persisted_text(), Some(&"/keep/me".to_string()));
    let blank = interpret(Some("   \n\t  ".to_string()));
    assert!(matches!(blank, PickerOutcome::Cancelled));
    store.update_after_session(&blank);
    assert_eq!(store.persisted_text(), Some(&"/keep/me".to_string()));
}

#[test]
fn store_round_trips_a_directory() {
    let mut store = SessionStateStore::load(None);
    assert!(store.read_last_dir(true).is_none());
    store.write_last_dir("/home/u/projects");
    assert_eq!(store.read_last_dir(true), Some("/home/u/projects".to_string()));
    // A stale directory is rejected on read, not only at write time.
    assert!(store.read_last_dir(false).is_none());
}

#[test]
fn stored_text_is_trimmed_on_read() {
    let store = SessionStateStore::load(Some("  /home/u/docs\n".to_string()));
    assert_eq!(store.candidate(), Some("/home/u/docs".to_string()));
    assert_eq!(store.read_last_dir(true), Some("/home/u/docs".to_string()));
}

#[test]
fn no_default_directory_is_an_error() {
    assert_eq!(pick_default_dir(None, None).unwrap_err(), SessionError::NoDefaultDirectory);
    assert_eq!(pick_default_dir(None, Some("/home/u".to_string())).unwrap(), "/home/u");
}

#[test]
fn shell_quoting_wraps_spaces() {
    let cmd = build_picker_command(
        FilePicker::Yazi,
        "yazi",
        FileMode::Read,
        false,
        "/home/u/My Files",
        "/tmp/out",
        "/home/u/My Files",
    )
    .unwrap();
    assert_eq!(cmd, "yazi --chooser-file=/tmp/out --cwd-file='/home/u/My Files' '/home/u/My Files'");
}

#[test]
fn directory_read_mode_points_cwd_at_output_file() {
    let cmd = build_picker_command(
        FilePicker::Yazi,
        "yazi",
        FileMode::Read,
        true,
        "/home/u/Downloads",
        "/tmp/out",
        "/home/u/Downloads",
    )
    .unwrap();
    assert!(cmd.contains("--cwd-file=/tmp/out"));
}

#[test]
fn nul_in_path_cannot_be_quoted() {
    let r = build_picker_command(
        FilePicker::Yazi,
        "yazi",
        FileMode::Write,
        false,
        "/bad\0path",
        "/tmp/out",
        "/home/u",
    );
    assert_eq!(r.unwrap_err(), SessionError::UnquotablePath);
}

#[test]
fn full_command_depends_only_on_the_machine_for_the_binary() {
    let r = make_filepicker_command(
        FilePicker::Yazi,
        FileMode::Read,
        false,
        false,
        "/home/u",
        "/tmp/out",
        "/home/u",
    );
    match r {
        Ok(cmd) => {
            assert!(cmd.contains("--chooser-file=/tmp/out"));
            assert!(cmd.ends_with("--cwd-file=/home/u /home/u"));
        },
        Err(e) => assert_eq!(e, SessionError::PickerUnavailable),
    }
}

#[test]
fn terminal_binaries_are_fixed() {
    assert_eq!(command_name(&Terminal::Alacritty), Some("alacritty".to_string()));
    assert_eq!(command_name(&Terminal::Foot), Some("foot".to_string()));
    assert_eq!(command_name(&Terminal::Ghostty), Some("ghostty".to_string()));
    assert_eq!(command_name(&Terminal::Kitty), Some("kitty".to_string()));
    assert_eq!(command_name(&Terminal::Xterm), Some("xterm".to_string()));
}

#[test]
fn terminal_probe_order_is_fixed() {
    assert_eq!(select_terminal(true, true, true, true), Terminal::Ghostty);
    assert_eq!(select_terminal(false, true, true, true), Terminal::Kitty);
    assert_eq!(select_terminal(false, false, true, true), Terminal::Alacritty);
    assert_eq!(select_terminal(false, false, false, true), Terminal::Foot);
    assert_eq!(select_terminal(false, false, false, false), Terminal::Xterm);
}

#[test]
fn merge_prefers_the_other_config() {
    let base = Config {
        terminal: Some(Terminal::Xterm),
        filepicker: None,
        start_at_last_selected_dir: Some(true),
    };
    let other = Config {
        terminal: Some(Terminal::Kitty),
        filepicker: Some(FilePicker::Yazi),
        start_at_last_selected_dir: None,
    };
    let merged = base.merge(&other);
    assert_eq!(merged.terminal, Some(Terminal::Kitty));
    assert_eq!(merged.filepicker, Some(FilePicker::Yazi));
    assert_eq!(merged.start_at_last_selected_dir, Some(true));
}

#[test]
fn autodetected_config_is_complete() {
    let c = Config::from_env();
    assert!(c.terminal.is_some());
    assert_eq!(c.filepicker, Some(FilePicker::Yazi));
    assert_eq!(c.start_at_last_selected_dir, Some(true));
}

#[test]
fn fixed_layout_under_system_directories() {
    assert_eq!(logger_path_in("/home/u/.cache"), "/home/u/.cache/termfilepicker/log");
    assert_eq!(
        state_file_in("/home/u/.local/state"),
        "/home/u/.local/state/termfilepicker/last-selected-path"
    );
}

#[test]
fn single_line_output_selects_trimmed_path() {
    let outcome = interpret(Some(" /home/u/pick.txt \n".to_string()));
    match outcome {
        PickerOutcome::Selected(p) => assert_eq!(p, "/home/u/pick.txt"),
        PickerOutcome::Cancelled => panic!("non-blank output selects a path"),
    }
}
