use vibingide::cli::{parse_args, CliCommand};
use vibingide::path_utils::normalize_platform_path;

#[test]
fn strips_windows_verbatim_prefix() {
    let path = r"\\?\C:\Users\abhay\repos\VibingIde";
    assert_eq!(normalize_platform_path(path, true), r"C:\Users\abhay\repos\VibingIde".to_string());
}

#[test]
fn strips_windows_unc_verbatim_prefix() {
    let path = r"\\?\UNC\server\share\repo";
    assert_eq!(normalize_platform_path(path, true), r"\\server\share\repo".to_string());
}

#[test]
fn ordinary_paths_are_kept() {
    assert_eq!(normalize_platform_path("/home/user/repo", true), "/home/user/repo".to_string());
    assert_eq!(normalize_platform_path(r"C:\repo", true), r"C:\repo".to_string());
    assert_eq!(normalize_platform_path("", true), String::new());
    assert_eq!(normalize_platform_path(r"\\?\", true), String::new());
}

#[test]
fn paths_are_kept_off_windows() {
    assert_eq!(normalize_platform_path(r"\\?\x", false), r"\\?\x".to_string());
    assert_eq!(
        normalize_platform_path(r"\\?\UNC\server\share", false),
        r"\\?\UNC\server\share".to_string()
    );
    assert_eq!(normalize_platform_path("/home/user/repo", false), "/home/user/repo".to_string());
}

fn args(list: &[&str]) -> Vec<String> {
    list.iter().map(|s| s.to_string()).collect()
}

fn run(project: Option<&str>, cmd: Option<&str>) -> (Option<String>, Option<String>) {
    (project.map(String::from), cmd.map(String::from))
}

fn as_run(c: CliCommand) -> (Option<String>, Option<String>) {
    match c {
        CliCommand::Run { project, initial_cmd } => (project, initial_cmd),
        other => panic!("expected a run command, got {other:?}"),
    }
}

#[test]
fn cli_reads_project_and_command() {
    assert_eq!(as_run(parse_args(&args(&[]))), run(None, None));
    assert_eq!(as_run(parse_args(&args(&["."]))), run(Some("."), None));
    assert_eq!(
        as_run(parse_args(&args(&["--project", "/tmp/p", "--cmd", "codex"]))),
        run(Some("/tmp/p"), Some("codex"))
    );
    assert_eq!(
        as_run(parse_args(&args(&["-c", "aider", "-p", "repo"]))),
        run(Some("repo"), Some("aider"))
    );
    // The first positional argument names the project; later ones are ignored.
    assert_eq!(as_run(parse_args(&args(&["a", "b"]))), run(Some("a"), None));
    // A flag without its value leaves it unset.
    assert_eq!(as_run(parse_args(&args(&["--cmd"]))), run(None, None));
    // Unknown flags are ignored.
    assert_eq!(as_run(parse_args(&args(&["--verbose", "x"]))), run(Some("x"), None));
}

#[test]
fn cli_help_and_version_stop_parsing() {
    assert!(matches!(parse_args(&args(&["--help"])), CliCommand::Help));
    assert!(matches!(parse_args(&args(&["-p", "x", "-h"])), CliCommand::Help));
    assert!(matches!(parse_args(&args(&["--version", "--help"])), CliCommand::Version));
    assert!(matches!(parse_args(&args(&["-V"])), CliCommand::Version));
}
