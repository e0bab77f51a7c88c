use kubilitics_desktop::files::{
    auto_detect_kubeconfig, get_recent_exports, open_in_system_editor, reveal_in_file_manager,
    CommandLine, DesktopOs, ExportFile, PathCandidate, RECENT_EXPORTS,
};

fn candidate(path: &str, exists: bool) -> PathCandidate {
    PathCandidate { path: path.to_string(), exists }
}

fn export(path: &str, modified: Option<i128>) -> ExportFile {
    ExportFile { path: path.to_string(), modified }
}

fn command(program: &str, args: &[&str]) -> CommandLine {
    CommandLine {
        program: program.to_string(),
        args: args.iter().map(|a| a.to_string()).collect(),
    }
}

#[test]
fn kubeconfig_detection() {
    assert_eq!(auto_detect_kubeconfig(None, &vec![]), Vec::<String>::new());
    assert_eq!(
        auto_detect_kubeconfig(Some("/home/u/.kube/config".to_string()), &vec![]),
        vec!["/home/u/.kube/config"]
    );
    assert_eq!(
        auto_detect_kubeconfig(
            Some("/home/u/.kube/config".to_string()),
            &vec![
                candidate("/etc/kube/a", true),
                candidate("/missing", false),
                candidate("/home/u/.kube/config", true),
                candidate("/etc/kube/b", true),
                candidate("/etc/kube/a", true),
                candidate("", false),
            ]
        ),
        vec!["/home/u/.kube/config", "/etc/kube/a", "/etc/kube/b"]
    );
    assert_eq!(
        auto_detect_kubeconfig(None, &vec![candidate("/x", true), candidate("/x", true)]),
        vec!["/x"]
    );
}

#[test]
fn recent_exports_latest_first() {
    assert_eq!(RECENT_EXPORTS, 10);
    assert_eq!(get_recent_exports(&vec![]), Vec::<String>::new());
    assert_eq!(
        get_recent_exports(&vec![
            export("old", Some(100)),
            export("unknown-1", None),
            export("new", Some(300)),
            export("mid-1", Some(200)),
            export("unknown-2", None),
            export("mid-2", Some(200)),
            export("ancient", Some(-5)),
        ]),
        vec!["new", "mid-1", "mid-2", "old", "ancient", "unknown-1", "unknown-2"]
    );
}

#[test]
fn recent_exports_shows_ten() {
    let files: Vec<ExportFile> =
        (0..25).map(|i| export(&format!("e{i}"), Some((i * 7 % 25) as i128))).collect();
    let shown = get_recent_exports(&files);
    let mut expected: Vec<(i128, String)> =
        files.iter().map(|f| (f.modified.unwrap(), f.path.clone())).collect();
    expected.sort_by(|a, b| b.0.cmp(&a.0));
    let expected: Vec<String> = expected.into_iter().take(10).map(|e| e.1).collect();
    assert_eq!(shown, expected);
    assert_eq!(shown.len(), 10);
    // the same order as a stable sort that puts the later time first
    let mixed = vec![
        export("a", Some(1)),
        export("b", None),
        export("c", Some(1)),
        export("d", Some(2)),
        export("e", None),
    ];
    let mut by_std: Vec<&ExportFile> = mixed.iter().collect();
    by_std.sort_by(|x, y| y.modified.cmp(&x.modified));
    let by_std: Vec<String> = by_std.into_iter().map(|f| f.path.clone()).collect();
    assert_eq!(get_recent_exports(&mixed), by_std);
}

#[test]
fn opening_a_file() {
    assert_eq!(
        open_in_system_editor(DesktopOs::Windows, "C:\\a b.yaml", true),
        Ok(Some(command("cmd", &["/C", "start", "", "C:\\a b.yaml"])))
    );
    assert_eq!(
        open_in_system_editor(DesktopOs::MacOs, "/tmp/a.yaml", true),
        Ok(Some(command("open", &["/tmp/a.yaml"])))
    );
    assert_eq!(
        open_in_system_editor(DesktopOs::Linux, "/tmp/a.yaml", true),
        Ok(Some(command("xdg-open", &["/tmp/a.yaml"])))
    );
    assert_eq!(open_in_system_editor(DesktopOs::Other, "/tmp/a.yaml", true), Ok(None));
    for os in [DesktopOs::Windows, DesktopOs::MacOs, DesktopOs::Linux, DesktopOs::Other] {
        assert_eq!(
            open_in_system_editor(os, "/tmp/gone", false),
            Err("File not found: /tmp/gone".to_string())
        );
    }
}

#[test]
fn revealing_a_file() {
    assert_eq!(
        reveal_in_file_manager(DesktopOs::Windows, "C:\\x\\a.yaml", Some("C:\\x"), true),
        Ok(Some(command("explorer", &["/select,", "C:\\x\\a.yaml"])))
    );
    assert_eq!(
        reveal_in_file_manager(DesktopOs::MacOs, "/tmp/a.yaml", Some("/tmp"), true),
        Ok(Some(command("open", &["-R", "/tmp/a.yaml"])))
    );
    assert_eq!(
        reveal_in_file_manager(DesktopOs::Linux, "/tmp/a.yaml", Some("/tmp"), true),
        Ok(Some(command("xdg-open", &["/tmp"])))
    );
    assert_eq!(reveal_in_file_manager(DesktopOs::Linux, "/", None, true), Ok(None));
    assert_eq!(reveal_in_file_manager(DesktopOs::Other, "/tmp/a", Some("/tmp"), true), Ok(None));
    assert_eq!(
        reveal_in_file_manager(DesktopOs::Linux, "/tmp/gone", Some("/tmp"), false),
        Err("File not found: /tmp/gone".to_string())
    );
}
