//! Project file tree: the rules for which directory entries are shown, in
//! what order, and the simple `.gitignore` support.
//!
//! Listing directories and reading `.gitignore` files is done by the caller.

use vstd::prelude::*;
use vstd::relations::sorted_by;

use crate::text::{
    lemma_lex_total, lemma_lex_transitive, lex_le, lex_le_str, split_char, split_on_char,
    starts_with, str_eq, strings_view, trim, trim_end_char, trim_end_matches_char, trim_str,
};

verus! {

// ── File tree types ───────────────────────────────────────────────────────────

#[derive(Debug, Clone, Copy, PartialEq, Eq, Structural)]
pub enum FileKind {
    File,
    Directory,
}

#[derive(Debug)]
pub struct FileNode {
    pub name: String,
    pub path: String,
    pub kind: FileKind,
    /// Empty if `kind` is `File`.
    pub children: Vec<FileNode>,
}

impl FileNode {
    pub fn is_dir(&self) -> (b: bool)
        ensures
            b == (self.kind == FileKind::Directory),
    {
        self.kind == FileKind::Directory
    }
}

pub struct Project {
    pub root: String,
    pub name: String,
    pub file_tree: Vec<FileNode>,
    /// `<root>/.vibingide/`
    pub vibide_dir: String,
}

// ── Scanner rules ─────────────────────────────────────────────────────────────

/// Directories deeper than this are not listed.
pub const MAX_DEPTH: usize = 8;

/// At most this many entries of one directory are listed.
pub const MAX_ENTRIES_PER_DIR: usize = 500;

/// Whether a directory at `depth` (0 for the project root) is listed.
pub fn depth_allowed(depth: usize) -> (b: bool)
    ensures
        b == (depth <= MAX_DEPTH),
{
    depth <= MAX_DEPTH
}

/// One entry of a directory listing.
#[derive(Debug)]
pub struct DirEntry {
    pub name: String,
    pub path: String,
    pub is_dir: bool,
}

/// The name matches one of the `.gitignore` patterns exactly.
pub open spec fn spec_is_ignored(name: Seq<char>, patterns: Seq<String>) -> bool {
    exists|i: int| 0 <= i < patterns.len() && #[trigger] patterns[i]@ == name
}

pub fn is_ignored(name: &str, patterns: &[String]) -> (b: bool)
    ensures
        b == spec_is_ignored(name@, patterns@),
{
    let mut i: usize = 0;
    while i < patterns.len()
        invariant
            i <= patterns@.len(),
            forall|k: int| 0 <= k < i ==> #[trigger] patterns@[k]@ != name@,
        decreases patterns@.len() - i,
    {
        if str_eq(name, patterns[i].as_str()) {
            return true;
        }
        i = i + 1;
    }
    false
}

/// Every pattern of the list is consulted: a name equal to any one of the
/// patterns is ignored, and a name equal to none of them is not.
pub proof fn law_each_pattern_is_ignored(name: Seq<char>, patterns: Seq<String>)
    ensures
        forall|i: int| 0 <= i < patterns.len() ==> spec_is_ignored(#[trigger] patterns[i]@, patterns),
        (forall|i: int| 0 <= i < patterns.len() ==> #[trigger] patterns[i]@ != name) ==> !spec_is_ignored(
            name,
            patterns,
        ),
{
    assert forall|i: int| 0 <= i < patterns.len() implies spec_is_ignored(
        #[trigger] patterns[i]@,
        patterns,
    ) by {
        assert(patterns[i]@ == patterns[i]@);
    }
}

/// An entry is listed unless it is a hidden directory, the `.vibingide`
/// directory or named by a `.gitignore` pattern.
pub open spec fn keep_entry(e: DirEntry, patterns: Seq<String>) -> bool {
    &&& !(e.is_dir && e.name@.len() > 0 && e.name@[0] == '.')
    &&& e.name@ != ".vibingide"@
    &&& !spec_is_ignored(e.name@, patterns)
}

/// Listing order: directories first, then by name.
pub open spec fn entry_le(a: DirEntry, b: DirEntry) -> bool {
    (a.is_dir && !b.is_dir) || (a.is_dir == b.is_dir && lex_le(a.name@, b.name@))
}

pub open spec fn min_int(a: int, b: int) -> int {
    if a < b {
        a
    } else {
        b
    }
}

/// `s` is in listing order.
pub open spec fn in_listing_order(s: Seq<DirEntry>) -> bool {
    sorted_by(s, |a: DirEntry, b: DirEntry| entry_le(a, b))
}

/// `listed` is what a directory with `entries` shows: the kept entries in
/// listing order, at most `MAX_ENTRIES_PER_DIR` of them.
pub open spec fn is_listing(entries: Seq<DirEntry>, patterns: Seq<String>, listed: Seq<DirEntry>) -> bool {
    exists|s: Seq<DirEntry>|
        #[trigger] in_listing_order(s) && s.to_multiset()
            == entries.filter(|e: DirEntry| keep_entry(e, patterns)).to_multiset() && listed == s.take(
            min_int(s.len() as int, MAX_ENTRIES_PER_DIR as int),
        )
}

fn keep_entry_exec(e: &DirEntry, patterns: &[String]) -> (b: bool)
    ensures
        b == keep_entry(*e, patterns@),
{
    proof {
        reveal_strlit(".");
        reveal_strlit(".vibingide");
    }
    assert("."@ =~= seq!['.']);
    let hidden_dir = e.is_dir && starts_with(e.name.as_str(), ".");
    assert(hidden_dir == (e.is_dir && e.name@.len() > 0 && e.name@[0] == '.')) by {
        if e.name@.len() > 0 {
            assert(e.name@.subrange(0, 1)[0] == e.name@[0]);
            if e.name@[0] == '.' {
                assert(e.name@.subrange(0, 1) =~= seq!['.']);
            }
        }
    }
    if hidden_dir {
        return false;
    }
    if str_eq(e.name.as_str(), ".vibingide") {
        return false;
    }
    !is_ignored(e.name.as_str(), patterns)
}

fn entry_le_exec(a: &DirEntry, b: &DirEntry) -> (r: bool)
    ensures
        r == entry_le(*a, *b),
{
    (a.is_dir && !b.is_dir) || (a.is_dir == b.is_dir && lex_le_str(a.name.as_str(), b.name.as_str()))
}

proof fn lemma_entry_le_total(a: DirEntry, b: DirEntry)
    ensures
        entry_le(a, b) || entry_le(b, a),
{
    lemma_lex_total(a.name@, b.name@);
}

proof fn lemma_entry_le_transitive(a: DirEntry, b: DirEntry, c: DirEntry)
    requires
        entry_le(a, b),
        entry_le(b, c),
    ensures
        entry_le(a, c),
{
    if a.is_dir == b.is_dir && b.is_dir == c.is_dir {
        lemma_lex_transitive(a.name@, b.name@, c.name@);
    }
}

/// Inserts `e` into the sorted `v`, before the first entry it sorts before.
fn insert_sorted(v: &mut Vec<DirEntry>, e: DirEntry)
    requires
        sorted_by(old(v)@, |a: DirEntry, b: DirEntry| entry_le(a, b)),
    ensures
        sorted_by(final(v)@, |a: DirEntry, b: DirEntry| entry_le(a, b)),
        final(v)@.to_multiset() == old(v)@.to_multiset().insert(e),
{
    let mut p: usize = 0;
    while p < v.len() && !entry_le_exec(&e, &v[p])
        invariant
            p <= v@.len(),
            forall|j: int| 0 <= j < p ==> !entry_le(e, #[trigger] v@[j]),
        decreases v@.len() - p,
    {
        p = p + 1;
    }
    let ghost before = v@;
    let ghost ev = e;
    v.insert(p, e);
    proof {
        broadcast use vstd::seq_lib::to_multiset_insert;

        assert(v@ == before.insert(p as int, ev));
        let leq = |a: DirEntry, b: DirEntry| entry_le(a, b);
        assert forall|i: int, j: int| 0 <= i < j < v@.len() implies #[trigger] leq(v@[i], v@[j]) by {
            if j < p {
                assert(leq(before[i], before[j]));
            } else if i > p {
                assert(leq(before[i - 1], before[j - 1]));
            } else if i == p {
                assert(entry_le(ev, before[p as int]));
                if j - 1 > p {
                    assert(leq(before[p as int], before[j - 1]));
                    lemma_entry_le_transitive(ev, before[p as int], before[j - 1]);
                }
            } else {
                if j == p {
                    lemma_entry_le_total(ev, before[i]);
                } else {
                    assert(leq(before[i], before[j - 1]));
                }
            }
        }
    }
}

/// The entries a directory shows: hidden directories, `.vibingide` and
/// `.gitignore`d names are dropped, directories come first, each group by
/// name, and at most `MAX_ENTRIES_PER_DIR` entries are kept.
pub fn select_entries(entries: Vec<DirEntry>, patterns: &[String]) -> (listed: Vec<DirEntry>)
    ensures
        is_listing(entries@, patterns@, listed@),
{
    let ghost orig = entries@;
    let ghost keep = |e: DirEntry| keep_entry(e, patterns@);
    let mut input = entries;
    let mut sorted: Vec<DirEntry> = Vec::new();
    assert(orig.take(orig.len() as int) =~= orig);
    assert(orig.skip(orig.len() as int) =~= seq![]);
    proof {
        reveal_with_fuel(Seq::filter, 1);
    }
    while input.len() > 0
        invariant
            input@.len() <= orig.len(),
            input@ == orig.take(input@.len() as int),
            keep == (|e: DirEntry| keep_entry(e, patterns@)),
            sorted_by(sorted@, |a: DirEntry, b: DirEntry| entry_le(a, b)),
            sorted@.to_multiset() == orig.skip(input@.len() as int).filter(keep).to_multiset(),
        decreases input@.len(),
    {
        let ghost k = input@.len() as int;
        let e = input.pop().unwrap();
        proof {
            assert(orig.skip(k - 1) =~= seq![e] + orig.skip(k));
            Seq::filter_distributes_over_add(seq![e], orig.skip(k), keep);
            reveal_with_fuel(Seq::filter, 2);
            assert(seq![e].drop_last() =~= Seq::<DirEntry>::empty());
            vstd::seq_lib::lemma_multiset_commutative(
                seq![e].filter(keep),
                orig.skip(k).filter(keep),
            );
            assert(input@ =~= orig.take(k - 1));
        }
        if keep_entry_exec(&e, patterns) {
            let ghost ev = e;
            insert_sorted(&mut sorted, e);
            proof {
                assert(seq![ev].filter(keep) =~= seq![ev]);
                broadcast use vstd::seq_lib::group_to_multiset_ensures;
                broadcast use vstd::multiset::group_multiset_axioms;

                assert(seq![ev].to_multiset() =~= vstd::multiset::Multiset::empty().insert(ev)) by {
                    assert(seq![ev] =~= Seq::<DirEntry>::empty().push(ev));
                }
                assert(sorted@.to_multiset() =~= orig.skip(k - 1).filter(keep).to_multiset());
            }
        } else {
            proof {
                assert(seq![e].filter(keep) =~= Seq::<DirEntry>::empty());
                broadcast use vstd::seq_lib::group_to_multiset_ensures;
                broadcast use vstd::multiset::group_multiset_axioms;

                assert(Seq::<DirEntry>::empty().to_multiset() =~= vstd::multiset::Multiset::empty());
                assert(sorted@.to_multiset() =~= orig.skip(k - 1).filter(keep).to_multiset());
            }
        }
    }
    let ghost full = sorted@;
    assert(orig.skip(0) =~= orig);
    if sorted.len() > MAX_ENTRIES_PER_DIR {
        sorted.truncate(MAX_ENTRIES_PER_DIR);
    }
    assert(sorted@ =~= full.take(min_int(full.len() as int, MAX_ENTRIES_PER_DIR as int)));
    assert(in_listing_order(full));
    sorted
}

/// A listing shows only entries of the directory, and none of them is a
/// hidden directory, `.vibingide`, or named by any of the `.gitignore`
/// patterns, wherever that pattern stands in the list.
pub proof fn law_listing_omits_ignored_names(
    entries: Seq<DirEntry>,
    patterns: Seq<String>,
    listed: Seq<DirEntry>,
    k: int,
)
    requires
        is_listing(entries, patterns, listed),
        0 <= k < listed.len(),
    ensures
        entries.contains(listed[k]),
        forall|j: int| 0 <= j < patterns.len() ==> #[trigger] patterns[j]@ != listed[k].name@,
        listed[k].name@ != ".vibingide"@,
        !(listed[k].is_dir && listed[k].name@.len() > 0 && listed[k].name@[0] == '.'),
{
    broadcast use vstd::seq_lib::to_multiset_contains;

    let keep = |e: DirEntry| keep_entry(e, patterns);
    let s = choose|s: Seq<DirEntry>|
        #[trigger] in_listing_order(s) && s.to_multiset() == entries.filter(keep).to_multiset()
            && listed == s.take(min_int(s.len() as int, MAX_ENTRIES_PER_DIR as int));
    let x = listed[k];
    assert(x == s[k]);
    assert(s.contains(x));
    assert(s.to_multiset().count(x) > 0);
    assert(entries.filter(keep).contains(x));
    entries.filter_lemma(keep);
    entries.lemma_filter_contains_rev(keep, x);
    let m = choose|m: int| 0 <= m < entries.filter(keep).len() && entries.filter(keep)[m] == x;
    assert(keep(entries.filter(keep)[m]));
    assert forall|j: int| 0 <= j < patterns.len() implies #[trigger] patterns[j]@ != x.name@ by {
        if patterns[j]@ == x.name@ {
            assert(spec_is_ignored(x.name@, patterns));
        }
    }
}

/// In a directory of at most `MAX_ENTRIES_PER_DIR` entries, every entry that
/// is not a hidden directory, not `.vibingide`, and equal to none of the
/// patterns is listed.
pub proof fn law_listing_shows_every_kept_entry(
    entries: Seq<DirEntry>,
    patterns: Seq<String>,
    listed: Seq<DirEntry>,
    i: int,
)
    requires
        is_listing(entries, patterns, listed),
        entries.len() <= MAX_ENTRIES_PER_DIR,
        0 <= i < entries.len(),
        !(entries[i].is_dir && entries[i].name@.len() > 0 && entries[i].name@[0] == '.'),
        entries[i].name@ != ".vibingide"@,
        forall|j: int| 0 <= j < patterns.len() ==> #[trigger] patterns[j]@ != entries[i].name@,
    ensures
        listed.contains(entries[i]),
{
    broadcast use vstd::seq_lib::to_multiset_contains;
    broadcast use vstd::seq_lib::to_multiset_len;

    let keep = |e: DirEntry| keep_entry(e, patterns);
    let s = choose|s: Seq<DirEntry>|
        #[trigger] in_listing_order(s) && s.to_multiset() == entries.filter(keep).to_multiset()
            && listed == s.take(min_int(s.len() as int, MAX_ENTRIES_PER_DIR as int));
    let x = entries[i];
    assert(keep(x));
    entries.filter_lemma(keep);
    assert(entries.filter(keep).contains(x));
    assert(entries.filter(keep).to_multiset().count(x) > 0);
    assert(s.contains(x));
    assert(s.len() == s.to_multiset().len());
    assert(s.len() <= MAX_ENTRIES_PER_DIR);
    assert(listed =~= s);
}

// ── .gitignore ────────────────────────────────────────────────────────────────

/// A `.gitignore` line that holds a pattern: not blank and not a comment.
pub open spec fn is_pattern_line(l: Seq<char>) -> bool {
    trim(l).len() > 0 && !(l.len() > 0 && l[0] == '#')
}

/// The pattern of such a line: trimmed, without trailing `/`.
pub open spec fn line_pattern(l: Seq<char>) -> Seq<char> {
    trim_end_char(trim(l), '/')
}

/// The patterns of a `.gitignore` file: plain names only, one per line.
pub open spec fn gitignore_patterns(text: Seq<char>) -> Seq<Seq<char>> {
    split_char(text, '\n').filter(|l: Seq<char>| is_pattern_line(l)).map_values(
        |l: Seq<char>| line_pattern(l),
    )
}

pub fn parse_gitignore_patterns(text: &str) -> (patterns: Vec<String>)
    ensures
        strings_view(patterns@) == gitignore_patterns(text@),
{
    proof {
        reveal_strlit("#");
    }
    let lines = split_on_char(text, '\n');
    let ghost pieces = split_char(text@, '\n');
    let ghost pred = |l: Seq<char>| is_pattern_line(l);
    let ghost f = |l: Seq<char>| line_pattern(l);
    let mut out: Vec<String> = Vec::new();
    let mut i: usize = 0;
    while i < lines.len()
        invariant
            i <= lines@.len(),
            strings_view(lines@) == pieces,
            pred == (|l: Seq<char>| is_pattern_line(l)),
            f == (|l: Seq<char>| line_pattern(l)),
            strings_view(out@) == pieces.take(i as int).filter(pred).map_values(f),
        decreases lines@.len() - i,
    {
        let line = lines[i].as_str();
        let trimmed = trim_str(line);
        proof {
            reveal_with_fuel(Seq::filter, 1);
            assert(pieces.take(i + 1).drop_last() =~= pieces.take(i as int));
            assert(pieces[i as int] == line@);
        }
        proof {
            reveal_strlit("#");
        }
        assert("#"@ =~= seq!['#']);
        let is_comment = starts_with(line, "#");
        assert(is_comment == (line@.len() > 0 && line@[0] == '#')) by {
            if line@.len() > 0 {
                assert(line@.subrange(0, 1)[0] == line@[0]);
                if line@[0] == '#' {
                    assert(line@.subrange(0, 1) =~= seq!['#']);
                }
            }
        }
        assert(pieces.take(i + 1).last() == line@);
        if trimmed.as_str().unicode_len() > 0 && !is_comment {
            assert(pred(line@));
            let pattern = trim_end_matches_char(trimmed.as_str(), '/');
            assert(pattern@ == f(line@));
            let ghost prev_out = out@;
            out.push(pattern);
            proof {
                assert(strings_view(out@) =~= strings_view(prev_out).push(f(line@)));
                let kept = pieces.take(i as int).filter(pred);
                assert(kept.push(line@).map_values(f) =~= kept.map_values(f).push(f(line@)));
                assert(pieces.take(i + 1).filter(pred) == pieces.take(i as int).filter(pred).push(
                    line@,
                ));
                assert(strings_view(out@) =~= pieces.take(i + 1).filter(pred).map_values(f));
            }
        } else {
            proof {
                assert(!pred(line@));
                assert(pieces.take(i + 1).filter(pred) == pieces.take(i as int).filter(pred));
            }
        }
        i = i + 1;
    }
    assert(pieces.take(lines@.len() as int) =~= pieces);
    out
}

} // verus!
