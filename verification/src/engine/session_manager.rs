//! Session manager — the sessions of a project and fresh session ids.

use vstd::prelude::*;

use crate::history::store::{is_session_id_char, is_valid_session_id, SessionMeta};
use crate::text::copy_string;

verus! {

/// A character of the Crockford base-32 alphabet that ULIDs are written in.
pub open spec fn is_crockford_char(c: char) -> bool {
    ||| ('0' <= c && c <= '9')
    ||| ('A' <= c && c <= 'H')
    ||| c == 'J'
    ||| c == 'K'
    ||| c == 'M'
    ||| c == 'N'
    ||| ('P' <= c && c <= 'T')
    ||| ('V' <= c && c <= 'Z')
}

/// `ulid::Ulid::new()` written out with its `Display` impl: a fresh ULID
/// from the current time and random bits, as 26 Crockford base-32
/// characters. Which ULID comes out is not stated.
#[verifier::external_body]
fn fresh_ulid_string() -> (s: String)
    ensures
        s@.len() == 26,
        forall|i: int| 0 <= i < s@.len() ==> is_crockford_char(#[trigger] s@[i]),
{
    ulid::Ulid::new().to_string()
}

pub struct SessionManager {
    pub sessions: Vec<SessionMeta>,
    /// The project's `.vibingide` directory.
    pub vibide_dir: String,
}

impl SessionManager {
    /// The sessions held, which are the `sessions` field.
    pub open spec fn session_list(&self) -> Seq<SessionMeta> {
        self.sessions@
    }

    /// The `.vibingide` directory, which is the `vibide_dir` field.
    pub open spec fn dir(&self) -> Seq<char> {
        self.vibide_dir@
    }

    /// The session manager of a project whose `.vibingide` directory is
    /// `vibide_dir`, holding the sessions of its index; an index that could
    /// not be read (`None`) counts as empty.
    pub fn load(vibide_dir: &str, index: Option<Vec<SessionMeta>>) -> (m: Self)
        ensures
            m.dir() == vibide_dir@,
            m.session_list() == (match index {
                Some(s) => s@,
                None => Seq::<SessionMeta>::empty(),
            }),
    {
        let sessions = match index {
            Some(s) => s,
            None => Vec::new(),
        };
        SessionManager { sessions, vibide_dir: copy_string(vibide_dir) }
    }

    /// The project's `.vibingide` directory.
    pub fn vibide_dir(&self) -> (d: &str)
        ensures
            d@ == self.dir(),
    {
        self.vibide_dir.as_str()
    }

    /// A new ULID-based session id: 26 Crockford base-32 characters.
    pub fn new_session_id() -> (id: String)
        ensures
            id@.len() == 26,
            forall|i: int| 0 <= i < id@.len() ==> is_crockford_char(#[trigger] id@[i]),
            is_valid_session_id(id@),
    {
        let id = fresh_ulid_string();
        assert forall|i: int| 0 <= i < id@.len() implies is_session_id_char(#[trigger] id@[i]) by {
            assert(is_crockford_char(id@[i]));
        }
        id
    }
}

impl Default for SessionManager {
    fn default() -> (m: Self)
        ensures
            m.session_list().len() == 0,
            m.dir().len() == 0,
    {
        SessionManager { sessions: Vec::new(), vibide_dir: String::new() }
    }
}

} // verus!
