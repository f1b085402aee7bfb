use fire_cli::entry::{classify, header_line, list_entries, listing, size_display, EntryInfo, EntryKind};
use fire_cli::file::{action_notice, delete_action, plan_delete, plan_list, plan_open, plan_rename, rename_subject, unsupported_notice, Action, DeleteAction, FileCommands, Plan};
use fire_cli::link::{handle_command, LinkCommands};
use fire_cli::log::Level;
use fire_cli::util::{path_input, resolve_from, resolve_path};
use fire_cli::writer::{capture, line_is_blank, InteractiveWriter};

fn lines(v: &[&str]) -> Vec<String> {
    v.iter().map(|s| s.to_string()).collect()
}

fn info(name: &str, kind: Result<EntryKind, String>, size: Result<u64, String>) -> EntryInfo {
    EntryInfo { name: name.to_string(), kind, size }
}

#[test]
fn capture_stops_at_second_blank_line() {
    assert_eq!(capture(&lines(&["hello", "", "", "world"])), "hello\n\n");
}

#[test]
fn capture_keeps_everything_when_input_closes() {
    assert_eq!(capture(&lines(&["a", "b"])), "a\nb\n");
}

#[test]
fn capture_of_nothing_is_empty() {
    assert_eq!(capture(&lines(&[])), "");
}

#[test]
fn capture_resets_blank_count_on_text() {
    assert_eq!(capture(&lines(&["a", "", "b", " ", "\t", "c"])), "a\n\nb\n\n");
}

#[test]
fn writer_stops_asking_after_two_blank_lines() {
    let mut w = InteractiveWriter::new();
    assert!(w.feed("hello"));
    assert!(w.feed(""));
    assert!(!w.is_terminated());
    assert!(!w.feed("   "));
    assert!(w.is_terminated());
    assert!(!w.feed("world"));
    assert_eq!(w.content(), "hello\n\n");
}

#[test]
fn blank_lines_are_whitespace_only() {
    assert!(line_is_blank(""));
    assert!(line_is_blank(" \t\r\u{3000}"));
    assert!(!line_is_blank(" x "));
}

#[test]
fn size_of_two_kilobytes() {
    assert_eq!(size_display(2048), "2.00KB");
}

#[test]
fn size_display_values() {
    assert_eq!(size_display(0), "0.00KB");
    assert_eq!(size_display(1536), "1.50KB");
    assert_eq!(size_display(1025), "1.00KB");
    assert_eq!(size_display(1048576), "1024.00KB");
    assert_eq!(size_display(10), "0.01KB");
    assert_eq!(size_display(128), "0.12KB");
    assert_eq!(size_display(384), "0.38KB");
}

#[test]
fn classify_unreadable_size_gives_one_warning() {
    let e = info("data.bin", Ok(EntryKind::File), Err("denied".to_string()));
    let (s, warnings) = classify(&e);
    assert_eq!(s.size_display, "unknown size");
    assert_eq!(s.kind, EntryKind::File);
    assert_eq!(warnings.len(), 1);
    assert_eq!(warnings[0].level, Level::Warn);
    assert_eq!(warnings[0].message, "cannot read the size of [data.bin]: denied");
}

#[test]
fn classify_unreadable_kind_is_other() {
    let e = info("x", Err("gone".to_string()), Ok(2048));
    let (s, warnings) = classify(&e);
    assert_eq!(s.kind, EntryKind::Other);
    assert_eq!(s.size_display, "2.00KB");
    assert_eq!(warnings.len(), 1);
    assert_eq!(warnings[0].message, "cannot read the type of [x]: gone");
}

#[test]
fn classify_readable_entry_has_no_warning() {
    let (s, warnings) = classify(&info("notes.txt", Ok(EntryKind::File), Ok(2048)));
    assert!(warnings.is_empty());
    assert_eq!(s.name, "notes.txt");
    assert_eq!(s.size_display, "2.00KB");
}

#[test]
fn rows_are_padded_and_directories_marked() {
    let (s, _) = classify(&info("src", Ok(EntryKind::Directory), Ok(4096)));
    assert_eq!(s.row(), format!("{: <20} {: <20}", "src/", "4.00KB"));
    assert_eq!(header_line(), format!("{: <20} {: <20}", "Name", "Size"));
    let long = "a_name_that_is_longer_than_twenty";
    let (t, _) = classify(&info(long, Ok(EntryKind::File), Err("e".to_string())));
    assert_eq!(t.row(), format!("{} {: <20}", long, "unknown size"));
}

#[test]
fn listing_puts_directories_first_in_order() {
    let entries = vec![
        info("f1", Ok(EntryKind::File), Ok(1)),
        info("d1", Ok(EntryKind::Directory), Ok(1)),
        info("o1", Err("e".to_string()), Ok(1)),
        info("d2", Ok(EntryKind::Directory), Ok(1)),
        info("l1", Ok(EntryKind::Other), Ok(1)),
    ];
    let names: Vec<String> = list_entries(entries).into_iter().map(|e| e.name).collect();
    assert_eq!(names, vec!["d1", "d2", "f1", "o1", "l1"]);
}

#[test]
fn listing_of_nothing_is_empty() {
    assert!(list_entries(Vec::new()).is_empty());
}

#[test]
fn absent_path_resolves_like_current_directory() {
    assert_eq!(path_input(&None), ".");
    let a = resolve_path(&None).unwrap();
    let b = resolve_path(&Some(".".to_string())).unwrap();
    assert_eq!(a, b);
    assert!(a.is_absolute());
}

#[test]
fn missing_path_is_invalid() {
    let p = "/no/such/place/for/this/check".to_string();
    assert_eq!(resolve_path(&Some(p.clone())), Err(format!("Invalid path: {}", p)));
}

#[test]
fn resolution_keeps_canonical_path() {
    let p = std::path::PathBuf::from("/tmp");
    assert_eq!(resolve_from("x", Some(p.clone())), Ok(p));
    assert_eq!(resolve_from("x", None), Err("Invalid path: x".to_string()));
}

#[test]
fn delete_actions_follow_the_kind() {
    assert_eq!(delete_action(true, false), DeleteAction::RemoveFile);
    assert_eq!(delete_action(false, true), DeleteAction::RemoveDirAll);
    assert_eq!(delete_action(false, false), DeleteAction::Unsupported);
    let n = unsupported_notice("/dev/x");
    assert_eq!(n.level, Level::Error);
    assert_eq!(n.message, "target does not exist or is not supported: /dev/x");
}

#[test]
fn notices_report_outcomes() {
    let ok = action_notice(Action::RemoveFile, "/a/b", &Ok(()));
    assert_eq!(ok.level, Level::Success);
    assert_eq!(ok.message, "file deleted: /a/b");
    let err = action_notice(Action::Rename, "x", &Err("denied".to_string()));
    assert_eq!(err.level, Level::Error);
    assert_eq!(err.message, "rename failed: denied");
    assert_eq!(rename_subject("/a", "/b"), "/a -> /b");
    assert!(Level::Warn.to_error_stream());
    assert!(!Level::Info.to_error_stream());
}

#[test]
fn link_create_reports_bad_path() {
    let n = handle_command(&LinkCommands::Create { target_path: Some("/no/such/link/target".to_string()) });
    assert_eq!(n.level, Level::Error);
    assert_eq!(n.message, "Invalid path: /no/such/link/target");
    let m = handle_command(&LinkCommands::Create { target_path: None });
    assert_eq!(m.level, Level::Info);
    assert_eq!(m.message, "todo");
}

#[test]
fn write_command_plans_the_given_path() {
    let plan = fire_cli::file::handle_command(&FileCommands::Write { path: "out.txt".to_string() });
    assert!(matches!(plan, Plan::Write(p) if p == "out.txt"));
}

#[test]
fn commands_on_missing_paths_report_them() {
    let missing = "/no/such/place/for/a/command".to_string();
    for cmd in [
        FileCommands::List { target_path: Some(missing.clone()) },
        FileCommands::Open { target_path: Some(missing.clone()) },
        FileCommands::Delete { target_path: Some(missing.clone()) },
        FileCommands::Rename { path: missing.clone(), target_path: ".".to_string() },
    ] {
        match fire_cli::file::handle_command(&cmd) {
            Plan::Report(n) => {
                assert_eq!(n.level, Level::Error);
                assert_eq!(n.message, format!("Invalid path: {}", missing));
            }
            other => panic!("unexpected plan {:?}", other),
        }
    }
}

#[test]
fn rename_reports_missing_destination() {
    let missing = "/no/such/rename/destination".to_string();
    let plan = fire_cli::file::handle_command(&FileCommands::Rename { path: ".".to_string(), target_path: missing.clone() });
    assert!(matches!(plan, Plan::Report(n) if n.message == format!("Invalid path: {}", missing)));
}

#[test]
fn existing_directory_plans_listing_and_removal() {
    let dir = std::path::PathBuf::from("/");
    let shown = dir.to_string_lossy().into_owned();
    assert!(matches!(fire_cli::file::handle_command(&FileCommands::List { target_path: Some(shown.clone()) }), Plan::List(_)));
    let plan = plan_delete(dir.clone(), false, true, &shown);
    assert!(matches!(plan, Plan::RemoveDirAll(p) if p == dir));
    let plan = plan_delete(dir.clone(), true, false, &shown);
    assert!(matches!(plan, Plan::RemoveFile(p) if p == dir));
    let plan = plan_delete(dir, false, false, "/dev/odd");
    assert!(matches!(plan, Plan::Report(n) if n.message == "target does not exist or is not supported: /dev/odd"));
}

#[test]
fn log_constructors_tag_levels() {
    assert_eq!(fire_cli::log::success("s").level, Level::Success);
    assert_eq!(fire_cli::log::error("e").level, Level::Error);
    assert_eq!(fire_cli::log::warn("w").level, Level::Warn);
    let i = fire_cli::log::info("i");
    assert_eq!(i.level, Level::Info);
    assert_eq!(i.message, "i");
}

#[test]
fn listing_prints_header_then_directories_then_files() {
    let entries = vec![
        info("a.txt", Ok(EntryKind::File), Ok(2048)),
        info("src", Ok(EntryKind::Directory), Ok(4096)),
        info("odd", Err("gone".to_string()), Err("denied".to_string())),
        info("docs", Ok(EntryKind::Directory), Ok(0)),
    ];
    let l = listing(entries);
    assert_eq!(
        l.lines,
        vec![
            format!("{: <20} {: <20}", "Name", "Size"),
            format!("{: <20} {: <20}", "src/", "4.00KB"),
            format!("{: <20} {: <20}", "docs/", "0.00KB"),
            format!("{: <20} {: <20}", "a.txt", "2.00KB"),
            format!("{: <20} {: <20}", "odd", "unknown size"),
        ]
    );
    let messages: Vec<String> = l.warnings.into_iter().map(|n| n.message).collect();
    assert_eq!(messages, vec!["cannot read the type of [odd]: gone", "cannot read the size of [odd]: denied"]);
}

#[test]
fn listing_of_empty_directory_is_header_only() {
    let l = listing(Vec::new());
    assert_eq!(l.lines.len(), 1);
    assert!(l.warnings.is_empty());
}

#[test]
fn resolution_outcomes_decide_plans() {
    let a = std::path::PathBuf::from("/a");
    let b = std::path::PathBuf::from("/b");
    assert!(matches!(plan_list(Ok(a.clone())), Plan::List(p) if p == a));
    assert!(matches!(plan_open(Ok(a.clone())), Plan::Open(p) if p == a));
    assert!(matches!(plan_list(Err("bad".to_string())), Plan::Report(n) if n.message == "bad" && n.level == Level::Error));
    assert!(matches!(plan_open(Err("bad".to_string())), Plan::Report(n) if n.message == "bad"));
    assert!(matches!(plan_rename(Ok(a.clone()), Ok(b.clone())), Plan::Rename(s, d) if s == a && d == b));
    assert!(matches!(plan_rename(Err("src".to_string()), Err("dst".to_string())), Plan::Report(n) if n.message == "src"));
    assert!(matches!(plan_rename(Ok(a), Err("dst".to_string())), Plan::Report(n) if n.message == "dst"));
}
