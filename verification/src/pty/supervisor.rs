//! The decisions behind launching agent processes inside a PTY: how a
//! command line is shown, which environment variables a child inherits,
//! how PTY sizes are clamped and which bytes a line of input becomes.
//!
//! Spawning, reading and writing the PTY itself is done by the caller.

use vstd::prelude::*;
use vstd::string::StringSliceAdditionalSpecFns;

use crate::text::{
    ascii_lower_seq, contains_string, split_char, split_on_char, to_ascii_lowercase, trim,
    trim_str, ascii_upper_seq, copy_string, join, join_with_spaces, push_char, push_str, str_eq, strings_view,
    to_ascii_uppercase,
};

verus! {

pub type PanelId = u32;

/// A message produced by a PTY reader and handed to the panel manager.
#[derive(Debug)]
pub enum PtyEvent {
    /// Raw bytes from the agent's stdout/stderr.
    Output { panel_id: PanelId, data: Vec<u8> },
    /// Child process exited.
    Exited { panel_id: PanelId, exit_code: Option<i32> },
}

/// Size of a PTY in character cells and pixels.
#[derive(Debug, Clone, Copy, PartialEq, Eq, Structural)]
pub struct PtySize {
    pub rows: u16,
    pub cols: u16,
    pub pixel_width: u16,
    pub pixel_height: u16,
}

pub open spec fn clamp(v: u16, lo: u16, hi: u16) -> u16 {
    if v < lo {
        lo
    } else if v > hi {
        hi
    } else {
        v
    }
}

/// Clamp PTY dimensions to sane values (2–500 rows, 10–500 columns).
pub fn sanitize_pty_size(size: PtySize) -> (s: PtySize)
    ensures
        s.rows == clamp(size.rows, 2, 500),
        s.cols == clamp(size.cols, 10, 500),
        s.pixel_width == 0,
        s.pixel_height == 0,
{
    let rows = if size.rows < 2 {
        2
    } else if size.rows > 500 {
        500
    } else {
        size.rows
    };
    let cols = if size.cols < 10 {
        10
    } else if size.cols > 500 {
        500
    } else {
        size.cols
    };
    PtySize { rows, cols, pixel_width: 0, pixel_height: 0 }
}

/// A sanitized size is within 2–500 rows and 10–500 columns, and sanitizing
/// it again changes nothing.
pub proof fn law_sanitized_size_is_stable(size: PtySize)
    ensures
        ({
            let s = PtySize {
                rows: clamp(size.rows, 2, 500),
                cols: clamp(size.cols, 10, 500),
                pixel_width: 0,
                pixel_height: 0,
            };
            &&& 2 <= s.rows <= 500
            &&& 10 <= s.cols <= 500
            &&& clamp(s.rows, 2, 500) == s.rows
            &&& clamp(s.cols, 10, 500) == s.cols
        }),
{
}

/// How a command line is shown: the command, then its arguments, space separated.
pub open spec fn spec_render_command(command: Seq<char>, args: Seq<String>) -> Seq<char> {
    if args.len() == 0 {
        command
    } else {
        command + seq![' '] + join(strings_view(args), seq![' '])
    }
}

pub fn render_command(command: &str, args: &[String]) -> (s: String)
    ensures
        s@ == spec_render_command(command@, args@),
{
    let mut out = String::new();
    push_str(&mut out, command);
    if args.len() != 0 {
        push_char(&mut out, ' ');
        let joined = join_with_spaces(args);
        push_str(&mut out, joined.as_str());
    }
    out
}

/// A resolved program, its argument vector and its display form.
#[derive(Debug)]
pub struct LaunchSpec {
    pub program: String,
    pub args: Vec<String>,
    pub display_command: String,
}

pub fn copy_strings(v: &[String]) -> (r: Vec<String>)
    ensures
        strings_view(r@) == strings_view(v@),
{
    let mut out: Vec<String> = Vec::new();
    let mut i: usize = 0;
    while i < v.len()
        invariant
            i <= v@.len(),
            strings_view(out@) == strings_view(v@.take(i as int)),
        decreases v@.len() - i,
    {
        out.push(copy_string(v[i].as_str()));
        i = i + 1;
        assert(strings_view(v@.take(i as int)) =~= strings_view(v@.take((i - 1) as int)).push(
            v@[i - 1]@,
        ));
        assert(strings_view(out@) =~= strings_view(v@.take(i as int)));
    }
    assert(v@.take(v@.len() as int) =~= v@);
    out
}

/// Launch spec on platforms with `execvp`-style spawning: the command and its
/// arguments are passed as they are, never through a shell.
pub fn build_launch_spec(command: &str, args: &[String]) -> (spec: LaunchSpec)
    ensures
        spec.program@ == command@,
        strings_view(spec.args@) == strings_view(args@),
        spec.display_command@ == spec_render_command(command@, args@),
{
    LaunchSpec {
        program: copy_string(command),
        args: copy_strings(args),
        display_command: render_command(command, args),
    }
}

/// The bytes that submit one line of input: the text followed by CR LF.
pub fn input_line_bytes(text: &str) -> (bytes: Vec<u8>)
    ensures
        bytes@ == text.spec_bytes() + seq![13u8, 10u8],
{
    let src = text.as_bytes();
    let mut out: Vec<u8> = Vec::new();
    let mut i: usize = 0;
    while i < src.len()
        invariant
            src@ == text.spec_bytes(),
            i <= src@.len(),
            out@ == src@.take(i as int),
        decreases src@.len() - i,
    {
        out.push(src[i]);
        i = i + 1;
        assert(out@ =~= src@.take(i as int));
    }
    assert(src@.take(src@.len() as int) =~= src@);
    out.push(13u8);
    out.push(10u8);
    out
}

/// Whether an environment variable may be passed to a child process: its name
/// is in the allowlist, compared ASCII case-insensitively on Windows and
/// exactly elsewhere.
pub open spec fn env_var_allowed(key: Seq<char>, allowlist: Seq<String>, windows: bool) -> bool {
    exists|i: int|
        0 <= i < allowlist.len() && if windows {
            ascii_upper_seq(#[trigger] allowlist[i]@) == ascii_upper_seq(key)
        } else {
            allowlist[i]@ == key
        }
}

pub fn is_env_var_allowed(key: &str, allowlist: &[String], windows: bool) -> (allowed: bool)
    ensures
        allowed == env_var_allowed(key@, allowlist@, windows),
{
    let key_upper = to_ascii_uppercase(key);
    let mut i: usize = 0;
    while i < allowlist.len()
        invariant
            i <= allowlist@.len(),
            key_upper@ == ascii_upper_seq(key@),
            forall|k: int|
                0 <= k < i ==> !(if windows {
                    ascii_upper_seq(#[trigger] allowlist@[k]@) == ascii_upper_seq(key@)
                } else {
                    allowlist@[k]@ == key@
                }),
        decreases allowlist@.len() - i,
    {
        let matched = if windows {
            let entry_upper = to_ascii_uppercase(allowlist[i].as_str());
            str_eq(entry_upper.as_str(), key_upper.as_str())
        } else {
            str_eq(allowlist[i].as_str(), key)
        };
        if matched {
            return true;
        }
        i = i + 1;
    }
    false
}


// ── Windows command resolution ───────────────────────────────────────────────

/// The executable extensions tried first, most preferred first.
pub open spec fn preferred_exts() -> Seq<Seq<char>> {
    seq![".EXE"@, ".COM"@, ".CMD"@, ".BAT"@]
}

/// `PATHEXT` as Windows sets it when the variable is missing.
pub open spec fn default_pathext() -> Seq<char> {
    ".COM;.EXE;.BAT;.CMD"@
}

/// Adds the `;`-separated extensions of `pieces` to `base`: each trimmed,
/// upper-cased, skipped when blank or already present.
pub open spec fn add_exts(base: Seq<Seq<char>>, pieces: Seq<Seq<char>>) -> Seq<Seq<char>>
    decreases pieces.len(),
{
    if pieces.len() == 0 {
        base
    } else {
        let acc = add_exts(base, pieces.drop_last());
        let t = trim(pieces.last());
        if t.len() == 0 {
            acc
        } else if acc.contains(ascii_upper_seq(t)) {
            acc
        } else {
            acc.push(ascii_upper_seq(t))
        }
    }
}

/// The extensions to try when resolving a command on Windows: `.EXE`,
/// `.COM`, `.CMD`, `.BAT`, then the other entries of `PATHEXT` in order.
pub open spec fn spec_windows_path_exts(pathext: Option<Seq<char>>) -> Seq<Seq<char>> {
    let raw = match pathext {
        Some(p) => p,
        None => default_pathext(),
    };
    add_exts(preferred_exts(), split_char(raw, ';'))
}

/// No element occurs twice.
pub open spec fn no_duplicates(s: Seq<Seq<char>>) -> bool {
    forall|i: int, j: int| 0 <= i < j < s.len() ==> #[trigger] s[i] != #[trigger] s[j]
}

proof fn lemma_add_exts_keeps_base(base: Seq<Seq<char>>, pieces: Seq<Seq<char>>)
    requires
        no_duplicates(base),
    ensures
        add_exts(base, pieces).len() >= base.len(),
        add_exts(base, pieces).take(base.len() as int) == base,
        no_duplicates(add_exts(base, pieces)),
    decreases pieces.len(),
{
    if pieces.len() > 0 {
        lemma_add_exts_keeps_base(base, pieces.drop_last());
        let acc = add_exts(base, pieces.drop_last());
        let t = trim(pieces.last());
        if t.len() > 0 && !acc.contains(ascii_upper_seq(t)) {
            let n = acc.push(ascii_upper_seq(t));
            assert(n.take(base.len() as int) =~= acc.take(base.len() as int));
            assert forall|i: int, j: int| 0 <= i < j < n.len() implies #[trigger] n[i] != #[trigger] n[j] by {
                if j == n.len() - 1 {
                    assert(acc[i] == n[i]);
                }
            }
        }
    }
}

/// Windows resolution tries `.EXE`, `.COM`, `.CMD` and `.BAT` first, in that
/// order, whatever `PATHEXT` holds, and never tries an extension twice.
pub proof fn law_windows_exts_prefer_executables(pathext: Option<Seq<char>>)
    ensures
        spec_windows_path_exts(pathext).len() >= 4,
        spec_windows_path_exts(pathext).take(4) == preferred_exts(),
        no_duplicates(spec_windows_path_exts(pathext)),
{
    reveal_strlit(".EXE");
    reveal_strlit(".COM");
    reveal_strlit(".CMD");
    reveal_strlit(".BAT");
    let base = preferred_exts();
    assert(base[0][1] != base[1][1]);
    assert(base[0][1] != base[2][1]);
    assert(base[0][1] != base[3][1]);
    assert(base[1][2] != base[2][2]);
    assert(base[1][1] != base[3][1]);
    assert(base[2][1] != base[3][1]);
    assert(no_duplicates(base));
    let raw = match pathext {
        Some(p) => p,
        None => default_pathext(),
    };
    lemma_add_exts_keeps_base(base, split_char(raw, ';'));
}

pub fn windows_path_exts(pathext: Option<&str>) -> (exts: Vec<String>)
    ensures
        strings_view(exts@) == spec_windows_path_exts(
            match pathext {
                Some(p) => Some(p@),
                None => None,
            },
        ),
{
    let raw: &str = match pathext {
        Some(p) => p,
        None => ".COM;.EXE;.BAT;.CMD",
    };
    let mut ordered: Vec<String> = Vec::new();
    ordered.push(copy_string(".EXE"));
    ordered.push(copy_string(".COM"));
    ordered.push(copy_string(".CMD"));
    ordered.push(copy_string(".BAT"));
    assert(strings_view(ordered@) =~= preferred_exts());
    let pieces = split_on_char(raw, ';');
    let ghost pv = split_char(raw@, ';');
    let mut i: usize = 0;
    assert(pv.take(0) =~= Seq::<Seq<char>>::empty());
    while i < pieces.len()
        invariant
            i <= pieces@.len(),
            strings_view(pieces@) == pv,
            strings_view(ordered@) == add_exts(preferred_exts(), pv.take(i as int)),
        decreases pieces@.len() - i,
    {
        let trimmed = trim_str(pieces[i].as_str());
        assert(pv.take(i + 1).drop_last() =~= pv.take(i as int));
        assert(pv.take(i + 1).last() == pieces@[i as int]@);
        if trimmed.as_str().unicode_len() > 0 {
            let upper = to_ascii_uppercase(trimmed.as_str());
            if !contains_string(ordered.as_slice(), upper.as_str()) {
                let ghost before = strings_view(ordered@);
                ordered.push(upper);
                assert(strings_view(ordered@) =~= before.push(ordered@.last()@));
            }
        }
        i = i + 1;
    }
    assert(pv.take(pieces@.len() as int) =~= pv);
    ordered
}

// ── Candidate paths for a Windows command ────────────────────────────────────

/// Where a candidate path for a command starts.
#[derive(Debug, Clone, Copy, PartialEq, Eq, Structural)]
pub enum CandidateBase {
    /// The command joined onto the `i`-th directory of `PATH`.
    PathDir(usize),
    /// The command joined onto the working directory.
    WorkingDir,
    /// The command as it was given.
    AsGiven,
}

/// A path to try: a base, and optionally the `j`-th extension of
/// `windows_path_exts` in place of the path's own.
#[derive(Debug, Clone, Copy, PartialEq, Eq, Structural)]
pub struct Candidate {
    pub base: CandidateBase,
    pub ext: Option<usize>,
}

/// What resolution needs to know about the command's path.
#[derive(Debug, Clone, Copy, PartialEq, Eq, Structural)]
pub struct CommandShape {
    /// The path has more than one component.
    pub has_dirs: bool,
    pub is_absolute: bool,
    pub has_extension: bool,
}

/// The candidates to try in order (the first that exists wins), and the path
/// used when none exists.
#[derive(Debug)]
pub struct ResolutionPlan {
    pub probes: Vec<Candidate>,
    pub fallback: Candidate,
}

pub open spec fn cand(base: CandidateBase, ext: Option<usize>) -> Candidate {
    Candidate { base, ext }
}

/// Every extension in every `PATH` directory: extensions in preference order,
/// and for each extension the directories in `PATH` order.
pub open spec fn path_ext_probes(n_dirs: nat, n_exts: nat) -> Seq<Candidate>
    decreases n_exts,
{
    if n_exts == 0 {
        seq![]
    } else {
        path_ext_probes(n_dirs, (n_exts - 1) as nat) + Seq::new(
            n_dirs,
            |i: int| cand(CandidateBase::PathDir(i as usize), Some((n_exts - 1) as usize)),
        )
    }
}

/// The command as it is in every `PATH` directory, in order.
pub open spec fn dir_probes(n_dirs: nat) -> Seq<Candidate> {
    Seq::new(n_dirs, |i: int| cand(CandidateBase::PathDir(i as usize), None))
}

/// `base` with every extension, in preference order.
pub open spec fn ext_probes(base: CandidateBase, n_exts: nat) -> Seq<Candidate> {
    Seq::new(n_exts, |j: int| cand(base, Some(j as usize)))
}

/// How a command is looked up with `n_dirs` directories in `PATH` and
/// `n_exts` executable extensions:
/// - a path (absolute, or with directories) is taken from the working
///   directory unless absolute; with an extension it is used as it is,
///   else each extension is tried, then the path itself;
/// - a bare name with an extension is looked for in `PATH`;
/// - a bare name without one is tried with each extension in every `PATH`
///   directory, then without extension in `PATH`, then in the working
///   directory with each extension and without.
/// When nothing exists, the command is used as given, except for a path with
/// an extension, which is used as resolved.
pub open spec fn spec_resolution_plan(shape: CommandShape, n_dirs: nat, n_exts: nat) -> (
    Seq<Candidate>,
    Candidate,
) {
    if shape.has_dirs || shape.is_absolute {
        let base = if shape.is_absolute {
            CandidateBase::AsGiven
        } else {
            CandidateBase::WorkingDir
        };
        if shape.has_extension {
            (seq![], cand(base, None))
        } else {
            (ext_probes(base, n_exts).push(cand(base, None)), cand(CandidateBase::AsGiven, None))
        }
    } else if shape.has_extension {
        (dir_probes(n_dirs), cand(CandidateBase::AsGiven, None))
    } else {
        (
            path_ext_probes(n_dirs, n_exts) + dir_probes(n_dirs) + ext_probes(
                CandidateBase::WorkingDir,
                n_exts,
            ).push(cand(CandidateBase::WorkingDir, None)),
            cand(CandidateBase::AsGiven, None),
        )
    }
}

/// The candidate refers only to existing directories and extensions.
pub open spec fn candidate_in_range(c: Candidate, n_dirs: nat, n_exts: nat) -> bool {
    &&& (c.base matches CandidateBase::PathDir(i) ==> i < n_dirs)
    &&& (c.ext matches Some(j) ==> j < n_exts)
}

proof fn lemma_path_ext_probes(n_dirs: nat, n_exts: nat)
    requires
        n_dirs <= usize::MAX,
        n_exts <= usize::MAX,
    ensures
        path_ext_probes(n_dirs, n_exts).len() == n_dirs * n_exts,
        forall|k: int|
            0 <= k < path_ext_probes(n_dirs, n_exts).len() ==> {
                let c = #[trigger] path_ext_probes(n_dirs, n_exts)[k];
                &&& c.base is PathDir
                &&& c.ext is Some
                &&& candidate_in_range(c, n_dirs, n_exts)
            },
        forall|a: int, b: int|
            0 <= a < path_ext_probes(n_dirs, n_exts).len() && 0 <= b < path_ext_probes(
                n_dirs,
                n_exts,
            ).len() && (#[trigger] path_ext_probes(n_dirs, n_exts)[a]).ext.unwrap() < (
            #[trigger] path_ext_probes(n_dirs, n_exts)[b]).ext.unwrap() ==> a < b,
    decreases n_exts,
{
    if n_exts == 0 {
        assert(n_dirs * n_exts == 0) by (nonlinear_arith)
            requires
                n_exts == 0,
        ;
    } else {
        let e = (n_exts - 1) as nat;
        lemma_path_ext_probes(n_dirs, e);
        let prev = path_ext_probes(n_dirs, e);
        let block = Seq::new(
            n_dirs,
            |i: int| cand(CandidateBase::PathDir(i as usize), Some((n_exts - 1) as usize)),
        );
        let all = path_ext_probes(n_dirs, n_exts);
        assert(all == prev + block);
        assert(n_dirs * n_exts == n_dirs * e + n_dirs) by (nonlinear_arith)
            requires
                e + 1 == n_exts,
        ;
        assert forall|k: int| 0 <= k < all.len() implies {
            let c = #[trigger] all[k];
            &&& c.base is PathDir
            &&& c.ext is Some
            &&& candidate_in_range(c, n_dirs, n_exts)
        } by {
            if k < prev.len() {
                assert(all[k] == prev[k]);
            } else {
                assert(all[k] == block[k - prev.len()]);
            }
        }
        assert forall|a: int, b: int|
            0 <= a < all.len() && 0 <= b < all.len() && (#[trigger] all[a]).ext.unwrap() < (
            #[trigger] all[b]).ext.unwrap() implies a < b by {
            if a >= prev.len() {
                assert(all[a] == block[a - prev.len()]);
                assert(all[a].ext == Some(e as usize));
                if b < prev.len() {
                    assert(all[b] == prev[b]);
                    assert(candidate_in_range(prev[b], n_dirs, e));
                    assert(prev[b].ext.unwrap() < e);
                } else {
                    assert(all[b] == block[b - prev.len()]);
                    assert(all[b].ext == Some(e as usize));
                }
                assert(false);
            } else if b < prev.len() {
                assert(all[a] == prev[a]);
                assert(all[b] == prev[b]);
                assert(prev[a].ext.unwrap() < prev[b].ext.unwrap());
            }
        }
    }
}

/// For a bare command name without extension, every `PATH` candidate with an
/// executable extension is tried before every extensionless `PATH` candidate
/// (so a real executable wins over an extensionless shim), and extensions are
/// tried in preference order.
pub proof fn law_executables_before_extensionless_shims(
    shape: CommandShape,
    n_dirs: usize,
    n_exts: usize,
)
    requires
        !shape.has_dirs,
        !shape.is_absolute,
        !shape.has_extension,
    ensures
        ({
            let probes = spec_resolution_plan(shape, n_dirs as nat, n_exts as nat).0;
            &&& forall|a: int, b: int|
                0 <= a < probes.len() && 0 <= b < probes.len() && (#[trigger] probes[a]).base is PathDir
                    && probes[a].ext is Some && (#[trigger] probes[b]).base is PathDir
                    && probes[b].ext is None ==> a < b
            &&& forall|a: int, b: int|
                0 <= a < probes.len() && 0 <= b < probes.len() && (#[trigger] probes[a]).base is PathDir
                    && (#[trigger] probes[b]).base is PathDir && probes[a].ext is Some
                    && probes[b].ext is Some && probes[a].ext.unwrap() < probes[b].ext.unwrap() ==> a < b
        }),
{
    let (d, e) = (n_dirs as nat, n_exts as nat);
    lemma_path_ext_probes(d, e);
    let pe = path_ext_probes(d, e);
    let dp = dir_probes(d);
    let rest = ext_probes(CandidateBase::WorkingDir, e).push(cand(CandidateBase::WorkingDir, None));
    let probes = spec_resolution_plan(shape, d, e).0;
    assert(probes == pe + dp + rest);
    assert forall|k: int| pe.len() <= k < probes.len() implies {
        let c = #[trigger] probes[k];
        (c.base is PathDir ==> c.ext is None)
    } by {
        if k < pe.len() + dp.len() {
            assert(probes[k] == dp[k - pe.len()]);
        } else {
            assert(probes[k] == rest[k - pe.len() - dp.len()]);
        }
    }
    assert forall|k: int| 0 <= k < pe.len() implies #[trigger] probes[k] == pe[k] by {}
}

/// The plan for resolving a command of the given shape.
pub fn resolution_plan(shape: CommandShape, n_dirs: usize, n_exts: usize) -> (plan: ResolutionPlan)
    requires
        n_dirs * n_exts + n_dirs + n_exts + 1 <= usize::MAX,
    ensures
        (plan.probes@, plan.fallback) == spec_resolution_plan(shape, n_dirs as nat, n_exts as nat),
        forall|k: int|
            0 <= k < plan.probes@.len() ==> candidate_in_range(
                #[trigger] plan.probes@[k],
                n_dirs as nat,
                n_exts as nat,
            ),
        candidate_in_range(plan.fallback, n_dirs as nat, n_exts as nat),
{
    let mut probes: Vec<Candidate> = Vec::new();
    if shape.has_dirs || shape.is_absolute {
        let base = if shape.is_absolute {
            CandidateBase::AsGiven
        } else {
            CandidateBase::WorkingDir
        };
        if shape.has_extension {
            return ResolutionPlan { probes, fallback: Candidate { base, ext: None } };
        }
        push_ext_probes(&mut probes, base, n_exts);
        probes.push(Candidate { base, ext: None });
        return ResolutionPlan { probes, fallback: Candidate { base: CandidateBase::AsGiven, ext: None } };
    }
    if shape.has_extension {
        push_dir_probes(&mut probes, n_dirs);
        assert(probes@ =~= dir_probes(n_dirs as nat));
        return ResolutionPlan { probes, fallback: Candidate { base: CandidateBase::AsGiven, ext: None } };
    }
    let mut j: usize = 0;
    while j < n_exts
        invariant
            j <= n_exts,
            n_dirs * n_exts + n_dirs + n_exts + 1 <= usize::MAX,
            probes@ == path_ext_probes(n_dirs as nat, j as nat),
        decreases n_exts - j,
    {
        proof {
            lemma_path_ext_probes(n_dirs as nat, j as nat);
            assert(n_dirs * j + n_dirs <= n_dirs * n_exts) by (nonlinear_arith)
                requires
                    j < n_exts,
            ;
        }
        let ghost before = probes@;
        let mut i: usize = 0;
        while i < n_dirs
            invariant
                i <= n_dirs,
                j < n_exts,
                before.len() + n_dirs <= usize::MAX,
                probes@ == before + Seq::new(
                    i as nat,
                    |k: int| cand(CandidateBase::PathDir(k as usize), Some(j)),
                ),
            decreases n_dirs - i,
        {
            probes.push(Candidate { base: CandidateBase::PathDir(i), ext: Some(j) });
            i = i + 1;
            assert(probes@ =~= before + Seq::new(
                i as nat,
                |k: int| cand(CandidateBase::PathDir(k as usize), Some(j)),
            ));
        }
        j = j + 1;
        assert(probes@ =~= path_ext_probes(n_dirs as nat, j as nat));
    }
    proof {
        lemma_path_ext_probes(n_dirs as nat, n_exts as nat);
    }
    let ghost pe = probes@;
    push_dir_probes(&mut probes, n_dirs);
    push_ext_probes(&mut probes, CandidateBase::WorkingDir, n_exts);
    probes.push(Candidate { base: CandidateBase::WorkingDir, ext: None });
    let plan = ResolutionPlan { probes, fallback: Candidate { base: CandidateBase::AsGiven, ext: None } };
    assert(plan.probes@ =~= pe + dir_probes(n_dirs as nat) + ext_probes(
        CandidateBase::WorkingDir,
        n_exts as nat,
    ).push(cand(CandidateBase::WorkingDir, None)));
    plan
}

/// Appends `base` with each of the `n_exts` extensions.
fn push_ext_probes(probes: &mut Vec<Candidate>, base: CandidateBase, n_exts: usize)
    requires
        old(probes)@.len() + n_exts + 1 <= usize::MAX,
    ensures
        final(probes)@ == old(probes)@ + ext_probes(base, n_exts as nat),
{
    let ghost before = probes@;
    let mut j: usize = 0;
    while j < n_exts
        invariant
            j <= n_exts,
            before.len() + n_exts + 1 <= usize::MAX,
            probes@ == before + Seq::new(j as nat, |k: int| cand(base, Some(k as usize))),
        decreases n_exts - j,
    {
        probes.push(Candidate { base, ext: Some(j) });
        j = j + 1;
        assert(probes@ =~= before + Seq::new(j as nat, |k: int| cand(base, Some(k as usize))));
    }
    assert(probes@ =~= before + ext_probes(base, n_exts as nat));
}

/// Appends the command in each of the `n_dirs` `PATH` directories.
fn push_dir_probes(probes: &mut Vec<Candidate>, n_dirs: usize)
    requires
        old(probes)@.len() + n_dirs <= usize::MAX,
    ensures
        final(probes)@ == old(probes)@ + dir_probes(n_dirs as nat),
{
    let ghost before = probes@;
    let mut i: usize = 0;
    while i < n_dirs
        invariant
            i <= n_dirs,
            before.len() + n_dirs <= usize::MAX,
            probes@ == before + Seq::new(i as nat, |k: int| cand(CandidateBase::PathDir(k as usize), None)),
        decreases n_dirs - i,
    {
        probes.push(Candidate { base: CandidateBase::PathDir(i), ext: None });
        i = i + 1;
        assert(probes@ =~= before + Seq::new(
            i as nat,
            |k: int| cand(CandidateBase::PathDir(k as usize), None),
        ));
    }
    assert(probes@ =~= before + dir_probes(n_dirs as nat));
}

/// How Windows launches a resolved command, by its extension.
#[derive(Debug, Clone, Copy, PartialEq, Eq, Structural)]
pub enum WindowsLaunchKind {
    /// `.cmd` / `.bat`: through the command interpreter.
    CommandScript,
    /// `.ps1`: through PowerShell.
    PowerShellScript,
    /// Anything else: run directly.
    Direct,
}

pub open spec fn spec_windows_launch_kind(extension: Option<Seq<char>>) -> WindowsLaunchKind {
    match extension {
        Some(e) => if ascii_lower_seq(e) == "cmd"@ || ascii_lower_seq(e) == "bat"@ {
            WindowsLaunchKind::CommandScript
        } else if ascii_lower_seq(e) == "ps1"@ {
            WindowsLaunchKind::PowerShellScript
        } else {
            WindowsLaunchKind::Direct
        },
        None => WindowsLaunchKind::Direct,
    }
}

/// The launch kind for a resolved command with the given file extension
/// (compared ASCII case-insensitively).
pub fn windows_launch_kind(extension: Option<&str>) -> (k: WindowsLaunchKind)
    ensures
        k == spec_windows_launch_kind(
            match extension {
                Some(e) => Some(e@),
                None => None,
            },
        ),
{
    match extension {
        Some(e) => {
            let lower = to_ascii_lowercase(e);
            if str_eq(lower.as_str(), "cmd") || str_eq(lower.as_str(), "bat") {
                WindowsLaunchKind::CommandScript
            } else if str_eq(lower.as_str(), "ps1") {
                WindowsLaunchKind::PowerShellScript
            } else {
                WindowsLaunchKind::Direct
            }
        },
        None => WindowsLaunchKind::Direct,
    }
}

/// The arguments placed before the command's own for each launch kind.
pub open spec fn launch_prefix_args(kind: WindowsLaunchKind, resolved: Seq<char>) -> Seq<Seq<char>> {
    match kind {
        WindowsLaunchKind::CommandScript => seq!["/d"@, "/c"@, resolved],
        WindowsLaunchKind::PowerShellScript => seq![
            "-NoLogo"@,
            "-NoProfile"@,
            "-ExecutionPolicy"@,
            "Bypass"@,
            "-File"@,
            resolved,
        ],
        WindowsLaunchKind::Direct => seq![],
    }
}

/// Launch spec on Windows for a resolved command path: scripts run through
/// `interpreter` (the command interpreter or PowerShell) with the script
/// path as an argument, other programs run directly.
pub fn build_windows_launch_spec(
    kind: WindowsLaunchKind,
    resolved: &str,
    args: &[String],
    interpreter: &str,
) -> (spec: LaunchSpec)
    ensures
        spec.program@ == (if kind == WindowsLaunchKind::Direct {
            resolved@
        } else {
            interpreter@
        }),
        strings_view(spec.args@) == launch_prefix_args(kind, resolved@) + strings_view(args@),
        spec.display_command@ == spec_render_command(resolved@, args@),
{
    let mut launch_args: Vec<String> = Vec::new();
    match kind {
        WindowsLaunchKind::CommandScript => {
            launch_args.push(copy_string("/d"));
            launch_args.push(copy_string("/c"));
            launch_args.push(copy_string(resolved));
        },
        WindowsLaunchKind::PowerShellScript => {
            launch_args.push(copy_string("-NoLogo"));
            launch_args.push(copy_string("-NoProfile"));
            launch_args.push(copy_string("-ExecutionPolicy"));
            launch_args.push(copy_string("Bypass"));
            launch_args.push(copy_string("-File"));
            launch_args.push(copy_string(resolved));
        },
        WindowsLaunchKind::Direct => {},
    }
    assert(strings_view(launch_args@) =~= launch_prefix_args(kind, resolved@));
    let ghost prefix = strings_view(launch_args@);
    let mut i: usize = 0;
    while i < args.len()
        invariant
            i <= args@.len(),
            strings_view(launch_args@) == prefix + strings_view(args@.take(i as int)),
        decreases args@.len() - i,
    {
        let ghost before = strings_view(launch_args@);
        launch_args.push(copy_string(args[i].as_str()));
        assert(strings_view(launch_args@) =~= before.push(args@[i as int]@));
        assert(strings_view(args@.take(i + 1)) =~= strings_view(args@.take(i as int)).push(
            args@[i as int]@,
        ));
        i = i + 1;
    }
    assert(args@.take(args@.len() as int) =~= args@);
    let program = match kind {
        WindowsLaunchKind::Direct => copy_string(resolved),
        _ => copy_string(interpreter),
    };
    LaunchSpec { program, args: launch_args, display_command: render_command(resolved, args) }
}

} // verus!
