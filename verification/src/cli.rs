//! Command-line arguments.
//!
//! ```text
//! vibingide [project]
//! vibingide --project <dir>
//! vibingide --cmd <command>
//! vibingide --help
//! vibingide --version
//! ```

use vstd::prelude::*;

use crate::text::{copy_string, str_eq};

verus! {

/// What the command line asks for.
#[derive(Debug)]
pub enum CliCommand {
    /// Open the IDE on `project` (the current directory when `None`),
    /// launching `initial_cmd` in a first panel when given.
    Run { project: Option<String>, initial_cmd: Option<String> },
    /// Print usage and exit.
    Help,
    /// Print the version and exit.
    Version,
}

/// The parse result, with strings as character sequences.
pub enum CliSpec {
    Run { project: Option<Seq<char>>, initial_cmd: Option<Seq<char>> },
    Help,
    Version,
}

pub open spec fn is_project_flag(a: Seq<char>) -> bool {
    a == "--project"@ || a == "-p"@
}

pub open spec fn is_cmd_flag(a: Seq<char>) -> bool {
    a == "--cmd"@ || a == "-c"@
}

pub open spec fn is_help_flag(a: Seq<char>) -> bool {
    a == "--help"@ || a == "-h"@
}

pub open spec fn is_version_flag(a: Seq<char>) -> bool {
    a == "--version"@ || a == "-V"@
}

/// The argument after position `i`, if there is one.
pub open spec fn next_arg(args: Seq<Seq<char>>, i: int) -> Option<Seq<char>> {
    if i + 1 < args.len() {
        Some(args[i + 1])
    } else {
        None
    }
}

/// Reads the arguments from position `i` on, with the values found so far.
/// `--project`/`-p` and `--cmd`/`-c` take the next argument (none if there is
/// none left); help and version stop at once; the first other argument not
/// starting with `-` names the project if none is named yet; anything else
/// is ignored.
pub open spec fn parse_from(
    args: Seq<Seq<char>>,
    i: int,
    project: Option<Seq<char>>,
    initial_cmd: Option<Seq<char>>,
) -> CliSpec
    decreases args.len() + 1 - i,
{
    if i < 0 || i >= args.len() {
        CliSpec::Run { project, initial_cmd }
    } else {
        let a = args[i];
        if is_project_flag(a) {
            parse_from(args, i + 2, next_arg(args, i), initial_cmd)
        } else if is_cmd_flag(a) {
            parse_from(args, i + 2, project, next_arg(args, i))
        } else if is_help_flag(a) {
            CliSpec::Help
        } else if is_version_flag(a) {
            CliSpec::Version
        } else if !(a.len() > 0 && a[0] == '-') && project is None {
            parse_from(args, i + 1, Some(a), initial_cmd)
        } else {
            parse_from(args, i + 1, project, initial_cmd)
        }
    }
}

pub open spec fn opt_view(o: Option<String>) -> Option<Seq<char>> {
    match o {
        Some(s) => Some(s@),
        None => None,
    }
}

pub open spec fn command_view(c: CliCommand) -> CliSpec {
    match c {
        CliCommand::Run { project, initial_cmd } => CliSpec::Run {
            project: opt_view(project),
            initial_cmd: opt_view(initial_cmd),
        },
        CliCommand::Help => CliSpec::Help,
        CliCommand::Version => CliSpec::Version,
    }
}

fn flag_is(a: &str, long: &str, short: &str) -> (b: bool)
    ensures
        b == (a@ == long@ || a@ == short@),
{
    str_eq(a, long) || str_eq(a, short)
}

fn arg_at(args: &[String], i: usize) -> (r: Option<String>)
    ensures
        opt_view(r) == (if i < args@.len() {
            Some(args@[i as int]@)
        } else {
            None::<Seq<char>>
        }),
{
    if i < args.len() {
        Some(copy_string(args[i].as_str()))
    } else {
        None
    }
}

/// Parses the command-line arguments (program name excluded).
pub fn parse_args(args: &[String]) -> (c: CliCommand)
    ensures
        command_view(c) == parse_from(args@.map_values(|s: String| s@), 0, None, None),
{
    let ghost views = args@.map_values(|s: String| s@);
    let mut project: Option<String> = None;
    let mut initial_cmd: Option<String> = None;
    let mut i: usize = 0;
    while i < args.len()
        invariant
            views == args@.map_values(|s: String| s@),
            parse_from(views, 0, None, None) == parse_from(
                views,
                i as int,
                opt_view(project),
                opt_view(initial_cmd),
            ),
        decreases args@.len() - i,
    {
        let a = args[i].as_str();
        assert(views[i as int] == a@);
        assert(views.len() == args@.len());
        if i + 1 < args.len() {
            assert(views[i + 1] == args@[i + 1]@);
        }
        let ghost before = parse_from(views, i as int, opt_view(project), opt_view(initial_cmd));
        if flag_is(a, "--project", "-p") {
            assert(before == parse_from(views, i + 2, next_arg(views, i as int), opt_view(initial_cmd)));
            project = arg_at(args, i + 1);
            assert(opt_view(project) == next_arg(views, i as int));
            if i + 1 < args.len() {
                i = i + 2;
            } else {
                i = args.len();
            }
            assert(before == parse_from(views, i as int, opt_view(project), opt_view(initial_cmd)));
        } else if flag_is(a, "--cmd", "-c") {
            assert(!is_project_flag(views[i as int]));
            assert(before == parse_from(views, i + 2, opt_view(project), next_arg(views, i as int)));
            initial_cmd = arg_at(args, i + 1);
            assert(opt_view(initial_cmd) == next_arg(views, i as int));
            if i + 1 < args.len() {
                i = i + 2;
            } else {
                i = args.len();
            }
            assert(before == parse_from(views, i as int, opt_view(project), opt_view(initial_cmd)));
        } else if flag_is(a, "--help", "-h") {
            return CliCommand::Help;
        } else if flag_is(a, "--version", "-V") {
            return CliCommand::Version;
        } else {
            let dash = a.unicode_len() > 0 && a.get_char(0) == '-';
            assert(dash == (a@.len() > 0 && a@[0] == '-'));
            if !dash && project.is_none() {
                project = Some(copy_string(a));
            }
            assert(before == parse_from(views, i + 1, opt_view(project), opt_view(initial_cmd)));
            i = i + 1;
        }
    }
    CliCommand::Run { project, initial_cmd }
}

} // verus!
