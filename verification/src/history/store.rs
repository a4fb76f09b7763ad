//! Session history storage: the rules for session file names, the session
//! index format and which lines of an NDJSON file hold events.
//!
//! Reading and writing the files is done by the caller.

use vstd::prelude::*;

use crate::text::{copy_string, push_str, split_char, split_on_char, strings_view, trim, trim_str};

verus! {

/// Why a session file or the session index was refused.
#[derive(Debug, Clone, PartialEq, Eq)]
pub enum StoreError {
    /// A session id holds a character other than ASCII letters, digits, `-` and `_`.
    InvalidSessionId(String),
    /// `index.json` has a version other than 1.
    UnsupportedIndexVersion(u32),
}

/// A character allowed in a session id.
pub open spec fn is_session_id_char(c: char) -> bool {
    ||| ('0' <= c && c <= '9')
    ||| ('A' <= c && c <= 'Z')
    ||| ('a' <= c && c <= 'z')
    ||| c == '-'
    ||| c == '_'
}

pub open spec fn is_valid_session_id(id: Seq<char>) -> bool {
    forall|i: int| 0 <= i < id.len() ==> is_session_id_char(#[trigger] id[i])
}

pub fn valid_session_id(id: &str) -> (b: bool)
    ensures
        b == is_valid_session_id(id@),
{
    let n = id.unicode_len();
    let mut i: usize = 0;
    while i < n
        invariant
            n == id@.len(),
            i <= n,
            forall|k: int| 0 <= k < i ==> is_session_id_char(#[trigger] id@[k]),
        decreases n - i,
    {
        let c = id.get_char(i);
        if !(('0' <= c && c <= '9') || ('A' <= c && c <= 'Z') || ('a' <= c && c <= 'z') || c == '-'
            || c == '_') {
            return false;
        }
        i = i + 1;
    }
    true
}

/// The file name of a session's history: `<session_id>.ndjson`, for ids made
/// only of ASCII letters, digits, `-` and `_` (so the name cannot leave the
/// sessions directory).
pub fn session_file_name(session_id: &str) -> (r: Result<String, StoreError>)
    ensures
        match r {
            Ok(name) => is_valid_session_id(session_id@) && name@ == session_id@ + ".ndjson"@,
            Err(StoreError::InvalidSessionId(id)) => !is_valid_session_id(session_id@) && id@
                == session_id@,
            Err(_) => false,
        },
{
    if !valid_session_id(session_id) {
        return Err(StoreError::InvalidSessionId(copy_string(session_id)));
    }
    let mut name = copy_string(session_id);
    push_str(&mut name, ".ndjson");
    Ok(name)
}

/// A valid session id names a file directly inside the sessions directory:
/// its file name holds no path separator and is neither `.` nor `..`.
pub proof fn law_session_file_stays_in_directory(id: Seq<char>)
    requires
        is_valid_session_id(id),
    ensures
        ({
            let name = id + ".ndjson"@;
            &&& forall|i: int| 0 <= i < name.len() ==> #[trigger] name[i] != '/' && name[i] != '\\'
            &&& name != "."@
            &&& name != ".."@
        }),
{
    reveal_strlit(".ndjson");
    reveal_strlit(".");
    reveal_strlit("..");
    let name = id + ".ndjson"@;
    assert forall|i: int| 0 <= i < name.len() implies #[trigger] name[i] != '/' && name[i] != '\\' by {
        if i < id.len() {
            assert(name[i] == id[i]);
            assert(is_session_id_char(id[i]));
        }
    }
    assert(name.len() >= 7);
}

/// Reads and writes one session's NDJSON file.
pub struct SessionStore {
    path: String,
}

impl SessionStore {
    pub closed spec fn file(&self) -> Seq<char> {
        self.path@
    }

    /// A store for the history file at `path`.
    pub fn from_path(path: String) -> (s: Self)
        ensures
            s.file() == path@,
    {
        SessionStore { path }
    }

    pub fn path(&self) -> (p: &str)
        ensures
            p@ == self.file(),
    {
        self.path.as_str()
    }
}

/// The event payloads of an NDJSON text: every line, trimmed, that is not blank.
pub open spec fn ndjson_payloads(content: Seq<char>) -> Seq<Seq<char>> {
    split_char(content, '\n').map_values(|l: Seq<char>| trim(l)).filter(
        |t: Seq<char>| t.len() > 0,
    )
}

pub fn ndjson_lines(content: &str) -> (lines: Vec<String>)
    ensures
        strings_view(lines@) == ndjson_payloads(content@),
{
    let parts = split_on_char(content, '\n');
    let ghost pieces = split_char(content@, '\n');
    let ghost trimmed = pieces.map_values(|l: Seq<char>| trim(l));
    let mut out: Vec<String> = Vec::new();
    let mut i: usize = 0;
    while i < parts.len()
        invariant
            i <= parts@.len(),
            strings_view(parts@) == pieces,
            trimmed == pieces.map_values(|l: Seq<char>| trim(l)),
            strings_view(out@) == trimmed.take(i as int).filter(|t: Seq<char>| t.len() > 0),
        decreases parts@.len() - i,
    {
        let t = trim_str(parts[i].as_str());
        proof {
            reveal_with_fuel(Seq::filter, 1);
            assert(trimmed.take(i + 1).drop_last() =~= trimmed.take(i as int));
            assert(pieces[i as int] == parts@[i as int]@);
        }
        if t.as_str().unicode_len() > 0 {
            out.push(t);
            assert(strings_view(out@) =~= strings_view(out@.drop_last()).push(out@.last()@));
        }
        i = i + 1;
    }
    assert(trimmed.take(parts@.len() as int) =~= trimmed);
    out
}

// ── Session index ─────────────────────────────────────────────────────────────

#[derive(Debug, Clone, Copy, PartialEq, Eq, Structural)]
pub enum SessionStatus {
    Active,
    Closed,
    Crashed,
}

/// Lightweight session metadata stored in `index.json`.
#[derive(Debug, Clone)]
pub struct SessionMeta {
    pub session_id: String,
    pub label: String,
    pub agent_cmd: String,
    /// ISO 8601
    pub started_at: String,
    pub ended_at: Option<String>,
    pub status: SessionStatus,
    pub first_input: Option<String>,
    pub message_count: usize,
}

/// The full index file structure.
#[derive(Debug)]
pub struct IndexFile {
    pub version: u32,
    pub sessions: Vec<SessionMeta>,
}

impl IndexFile {
    /// The index written for a list of sessions (format version 1).
    pub fn for_sessions(sessions: Vec<SessionMeta>) -> (f: Self)
        ensures
            f.version == 1,
            f.sessions == sessions,
    {
        IndexFile { version: 1, sessions }
    }

    /// The sessions of an index, which must be of format version 1.
    pub fn into_sessions(self) -> (r: Result<Vec<SessionMeta>, StoreError>)
        ensures
            self.version == 1 ==> r == Ok::<Vec<SessionMeta>, StoreError>(self.sessions),
            self.version != 1 ==> r == Err::<Vec<SessionMeta>, StoreError>(
                StoreError::UnsupportedIndexVersion(self.version),
            ),
    {
        if self.version != 1 {
            return Err(StoreError::UnsupportedIndexVersion(self.version));
        }
        Ok(self.sessions)
    }
}

} // verus!
