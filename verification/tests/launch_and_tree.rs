use vibingide::engine::project::{
    depth_allowed, is_ignored, parse_gitignore_patterns, select_entries, DirEntry, FileKind,
    FileNode, MAX_DEPTH, MAX_ENTRIES_PER_DIR,
};
use vibingide::pty::supervisor::{
    build_launch_spec, build_windows_launch_spec, input_line_bytes, is_env_var_allowed,
    render_command, resolution_plan, sanitize_pty_size, windows_launch_kind, windows_path_exts,
    Candidate, CandidateBase, CommandShape, PtySize, WindowsLaunchKind,
};
use vibingide::pty::supervisor::CandidateBase::{AsGiven, PathDir, WorkingDir};
use vibingide::ui::left_panel::{flatten_tree, LeftPanelState, LeftPanelView};

fn strings(list: &[&str]) -> Vec<String> {
    list.iter().map(|s| s.to_string()).collect()
}

#[test]
fn pty_sizes_are_clamped() {
    let s = sanitize_pty_size(PtySize { rows: 0, cols: 1000, pixel_width: 5, pixel_height: 6 });
    assert_eq!(s, PtySize { rows: 2, cols: 500, pixel_width: 0, pixel_height: 0 });
    let s = sanitize_pty_size(PtySize { rows: 40, cols: 9, pixel_width: 0, pixel_height: 0 });
    assert_eq!((s.rows, s.cols), (40, 10));
    let s = sanitize_pty_size(PtySize { rows: 501, cols: 120, pixel_width: 0, pixel_height: 0 });
    assert_eq!((s.rows, s.cols), (500, 120));
    assert_eq!(sanitize_pty_size(s), s);
}

#[test]
fn commands_render_with_their_arguments() {
    assert_eq!(render_command("codex", &[]), "codex");
    assert_eq!(render_command("git", &strings(&["log", "-n", "3"])), "git log -n 3");
    let spec = build_launch_spec("aider", &strings(&["--resume"]));
    assert_eq!(spec.program, "aider");
    assert_eq!(spec.args, strings(&["--resume"]));
    assert_eq!(spec.display_command, "aider --resume");
}

#[test]
fn input_lines_end_with_crlf() {
    assert_eq!(input_line_bytes("ls"), b"ls\r\n".to_vec());
    assert_eq!(input_line_bytes(""), b"\r\n".to_vec());
    assert_eq!(input_line_bytes("é"), "é\r\n".as_bytes().to_vec());
}

#[test]
fn environment_is_filtered_by_the_allowlist() {
    let allow = strings(&["PATH", "SystemRoot"]);
    assert!(is_env_var_allowed("PATH", &allow, false));
    assert!(!is_env_var_allowed("Path", &allow, false));
    assert!(is_env_var_allowed("Path", &allow, true));
    assert!(is_env_var_allowed("SYSTEMROOT", &allow, true));
    assert!(!is_env_var_allowed("SECRET_TOKEN", &allow, true));
    assert!(!is_env_var_allowed("PATH", &[], false));
}

#[test]
fn windows_extensions_prefer_real_executables() {
    assert_eq!(windows_path_exts(None), strings(&[".EXE", ".COM", ".CMD", ".BAT"]));
    assert_eq!(
        windows_path_exts(Some(".CMD;.EXE")),
        strings(&[".EXE", ".COM", ".CMD", ".BAT"])
    );
    assert_eq!(
        windows_path_exts(Some(" .ps1 ;;.vbs;.PS1;.js")),
        strings(&[".EXE", ".COM", ".CMD", ".BAT", ".PS1", ".VBS", ".JS"])
    );
}

#[test]
fn windows_launch_kinds_by_extension() {
    assert_eq!(windows_launch_kind(Some("CMD")), WindowsLaunchKind::CommandScript);
    assert_eq!(windows_launch_kind(Some("bat")), WindowsLaunchKind::CommandScript);
    assert_eq!(windows_launch_kind(Some("Ps1")), WindowsLaunchKind::PowerShellScript);
    assert_eq!(windows_launch_kind(Some("exe")), WindowsLaunchKind::Direct);
    assert_eq!(windows_launch_kind(None), WindowsLaunchKind::Direct);
}

#[test]
fn windows_scripts_run_through_their_interpreter() {
    let args = strings(&["--help"]);
    let spec = build_windows_launch_spec(
        WindowsLaunchKind::CommandScript,
        r"C:\bin\codex.cmd",
        &args,
        r"C:\Windows\System32\cmd.exe",
    );
    assert_eq!(spec.program, r"C:\Windows\System32\cmd.exe");
    assert_eq!(spec.args, strings(&["/d", "/c", r"C:\bin\codex.cmd", "--help"]));
    assert_eq!(spec.display_command, r"C:\bin\codex.cmd --help");

    let spec = build_windows_launch_spec(
        WindowsLaunchKind::PowerShellScript,
        r"C:\bin\tool.ps1",
        &[],
        "pwsh.exe",
    );
    assert_eq!(spec.program, "pwsh.exe");
    assert_eq!(
        spec.args,
        strings(&["-NoLogo", "-NoProfile", "-ExecutionPolicy", "Bypass", "-File", r"C:\bin\tool.ps1"])
    );

    let spec = build_windows_launch_spec(WindowsLaunchKind::Direct, r"C:\bin\a.exe", &args, "cmd");
    assert_eq!(spec.program, r"C:\bin\a.exe");
    assert_eq!(spec.args, args);
}

fn entry(name: &str, is_dir: bool) -> DirEntry {
    DirEntry { name: name.to_string(), path: format!("/repo/{name}"), is_dir }
}

fn names(v: &[DirEntry]) -> Vec<String> {
    v.iter().map(|e| e.name.clone()).collect()
}

#[test]
fn directory_listing_rules() {
    let entries = vec![
        entry("zeta.rs", false),
        entry(".git", true),
        entry("src", true),
        entry(".env", false),
        entry(".vibingide", true),
        entry("target", true),
        entry("Cargo.toml", false),
        entry("docs", true),
    ];
    let patterns = strings(&["target"]);
    let listed = select_entries(entries, &patterns);
    assert_eq!(names(&listed), strings(&["docs", "src", ".env", "Cargo.toml", "zeta.rs"]));
}

#[test]
fn directory_listing_is_capped() {
    let entries: Vec<DirEntry> = (0..(MAX_ENTRIES_PER_DIR + 20))
        .map(|i| entry(&format!("f{i:04}"), false))
        .collect();
    let listed = select_entries(entries, &[]);
    assert_eq!(listed.len(), MAX_ENTRIES_PER_DIR);
    assert_eq!(listed[0].name, "f0000");
    assert_eq!(listed[MAX_ENTRIES_PER_DIR - 1].name, "f0499");
}

#[test]
fn depth_limit() {
    assert_eq!(MAX_DEPTH, 8);
    assert!(depth_allowed(0));
    assert!(depth_allowed(8));
    assert!(!depth_allowed(9));
}

#[test]
fn gitignore_patterns_are_plain_names() {
    let text = "# build output\ntarget/\n\n  node_modules  \n*.log\n #not a comment\n";
    let patterns = parse_gitignore_patterns(text);
    assert_eq!(patterns, strings(&["target", "node_modules", "*.log", "#not a comment"]));
    assert!(is_ignored("target", &patterns));
    assert!(!is_ignored("app.log", &patterns));
    assert!(parse_gitignore_patterns("").is_empty());
}

fn node(name: &str, kind: FileKind, children: Vec<FileNode>) -> FileNode {
    FileNode { name: name.to_string(), path: format!("/r/{name}"), kind, children }
}

#[test]
fn file_tree_flattens_depth_first() {
    let tree = vec![
        node(
            "src",
            FileKind::Directory,
            vec![node("main.rs", FileKind::File, vec![]), node("empty", FileKind::Directory, vec![])],
        ),
        node("README.md", FileKind::File, vec![]),
    ];
    assert!(tree[0].is_dir());
    assert!(!tree[1].is_dir());
    let mut rows = Vec::new();
    flatten_tree(&tree, 0, &mut rows);
    let got: Vec<(usize, &str)> = rows.iter().map(|(d, n)| (*d, n.name.as_str())).collect();
    assert_eq!(got, vec![(0, "src"), (1, "main.rs"), (1, "empty"), (0, "README.md")]);
    let state = LeftPanelState::default();
    assert_eq!(state.view, LeftPanelView::FileTree);
    assert_eq!((state.file_tree_cursor, state.history_cursor), (0, 0));
}

fn c(base: CandidateBase, ext: Option<usize>) -> Candidate {
    Candidate { base, ext }
}

fn shape(has_dirs: bool, is_absolute: bool, has_extension: bool) -> CommandShape {
    CommandShape { has_dirs, is_absolute, has_extension }
}

#[test]
fn bare_names_try_executables_in_path_before_extensionless_shims() {
    // PATH = [first, second], extensions = [.EXE, .COM]: second\codex.exe is
    // found before the extensionless first\codex shim.
    let plan = resolution_plan(shape(false, false, false), 2, 2);
    assert_eq!(
        plan.probes,
        vec![
            c(PathDir(0), Some(0)),
            c(PathDir(1), Some(0)),
            c(PathDir(0), Some(1)),
            c(PathDir(1), Some(1)),
            c(PathDir(0), None),
            c(PathDir(1), None),
            c(WorkingDir, Some(0)),
            c(WorkingDir, Some(1)),
            c(WorkingDir, None),
        ]
    );
    assert_eq!(plan.fallback, c(AsGiven, None));
}

#[test]
fn other_command_shapes_have_their_own_plans() {
    let plan = resolution_plan(shape(false, false, true), 3, 4);
    assert_eq!(plan.probes, vec![c(PathDir(0), None), c(PathDir(1), None), c(PathDir(2), None)]);
    assert_eq!(plan.fallback, c(AsGiven, None));

    // A relative path such as bin\tool: the working directory with each extension.
    let plan = resolution_plan(shape(true, false, false), 3, 2);
    assert_eq!(plan.probes, vec![c(WorkingDir, Some(0)), c(WorkingDir, Some(1)), c(WorkingDir, None)]);
    assert_eq!(plan.fallback, c(AsGiven, None));

    // A path with an extension is used as it is resolved, without probing.
    let plan = resolution_plan(shape(true, false, true), 3, 2);
    assert!(plan.probes.is_empty());
    assert_eq!(plan.fallback, c(WorkingDir, None));
    let plan = resolution_plan(shape(true, true, true), 3, 2);
    assert!(plan.probes.is_empty());
    assert_eq!(plan.fallback, c(AsGiven, None));

    let plan = resolution_plan(shape(false, true, false), 0, 1);
    assert_eq!(plan.probes, vec![c(AsGiven, Some(0)), c(AsGiven, None)]);

    let plan = resolution_plan(shape(false, false, false), 0, 0);
    assert_eq!(plan.probes, vec![c(WorkingDir, None)]);
}
