//! History event types recorded in a session's NDJSON history file.

use vstd::prelude::*;

use crate::text::{copy_string, push_char};

verus! {

/// A single event in a session's NDJSON history file.
#[derive(Debug, Clone)]
pub enum HistoryEvent {
    SessionStart {
        ts: i64,
        agent_cmd: String,
        label: String,
        /// Absolute project path at session creation time.
        cwd: String,
    },
    UserInput {
        ts: i64,
        /// Raw text the user typed; newlines stripped.
        text: String,
    },
    AgentOutput {
        ts: i64,
        /// Plain-text (ANSI stripped) output from the agent.
        text: String,
    },
    SessionEnd { ts: i64, exit_code: Option<i32>, signal: Option<i32> },
}

/// `chrono::Utc::now()` in milliseconds since the Unix epoch. Which reading
/// comes out is not stated, only that it is not before the epoch (`Utc::now`
/// panics on a system clock set before 1970).
#[verifier::external_body]
fn utc_now_millis() -> (t: i64)
    ensures
        t >= 0,
{
    chrono::Utc::now().timestamp_millis()
}

/// A character that is neither a line feed nor a carriage return.
pub open spec fn not_newline(c: char) -> bool {
    c != '\n' && c != '\r'
}

/// `s` with every `\n` and `\r` removed.
pub open spec fn strip_newlines(s: Seq<char>) -> Seq<char> {
    s.filter(|c: char| not_newline(c))
}

fn strip_newlines_exec(s: &str) -> (r: String)
    ensures
        r@ == strip_newlines(s@),
{
    let n = s.unicode_len();
    let mut out = String::new();
    let mut i: usize = 0;
    while i < n
        invariant
            n == s@.len(),
            i <= n,
            out@ == s@.take(i as int).filter(|c: char| not_newline(c)),
        decreases n - i,
    {
        let c = s.get_char(i);
        proof {
            reveal_with_fuel(Seq::filter, 1);
            assert(s@.take(i + 1).drop_last() =~= s@.take(i as int));
        }
        if c != '\n' && c != '\r' {
            push_char(&mut out, c);
        }
        i = i + 1;
    }
    assert(s@.take(n as int) =~= s@);
    out
}

/// Where the scan of terminal output is, for removing escape sequences.
#[derive(Debug, Clone, Copy, PartialEq, Eq, Structural)]
pub enum AnsiScan {
    /// Plain text.
    Text,
    /// Just after ESC.
    Escape,
    /// Inside a control sequence (`ESC [` ... final byte `@`–`~`).
    Csi,
    /// Inside an operating-system command (`ESC ]` ... `BEL` or `ESC \`).
    Osc,
    /// Just after an ESC inside an operating-system command.
    OscEscape,
}

/// One step of the scan: the next state, and whether `c` is kept as text.
/// An ESC followed by any other character drops both.
pub open spec fn ansi_step(st: AnsiScan, c: char) -> (AnsiScan, bool) {
    match st {
        AnsiScan::Text => if c == '\u{1b}' {
            (AnsiScan::Escape, false)
        } else {
            (AnsiScan::Text, true)
        },
        AnsiScan::Escape => if c == '[' {
            (AnsiScan::Csi, false)
        } else if c == ']' {
            (AnsiScan::Osc, false)
        } else {
            (AnsiScan::Text, false)
        },
        AnsiScan::Csi => if '\u{40}' <= c && c <= '\u{7e}' {
            (AnsiScan::Text, false)
        } else {
            (AnsiScan::Csi, false)
        },
        AnsiScan::Osc => if c == '\u{07}' {
            (AnsiScan::Text, false)
        } else if c == '\u{1b}' {
            (AnsiScan::OscEscape, false)
        } else {
            (AnsiScan::Osc, false)
        },
        AnsiScan::OscEscape => if c == '\\' {
            (AnsiScan::Text, false)
        } else {
            (AnsiScan::Osc, false)
        },
    }
}

/// The text kept from position `i` on, scanning from state `st`.
pub open spec fn strip_ansi_from(s: Seq<char>, i: int, st: AnsiScan) -> Seq<char>
    decreases s.len() - i,
{
    if i < 0 || i >= s.len() {
        seq![]
    } else {
        let (next, keep) = ansi_step(st, s[i]);
        let rest = strip_ansi_from(s, i + 1, next);
        if keep {
            seq![s[i]] + rest
        } else {
            rest
        }
    }
}

/// `s` with its ANSI escape sequences (control sequences, operating-system
/// commands and two-character escapes) removed.
pub open spec fn strip_ansi(s: Seq<char>) -> Seq<char> {
    strip_ansi_from(s, 0, AnsiScan::Text)
}

fn ansi_step_exec(st: AnsiScan, c: char) -> (r: (AnsiScan, bool))
    ensures
        r == ansi_step(st, c),
{
    match st {
        AnsiScan::Text => if c == '\u{1b}' {
            (AnsiScan::Escape, false)
        } else {
            (AnsiScan::Text, true)
        },
        AnsiScan::Escape => if c == '[' {
            (AnsiScan::Csi, false)
        } else if c == ']' {
            (AnsiScan::Osc, false)
        } else {
            (AnsiScan::Text, false)
        },
        AnsiScan::Csi => if '\u{40}' <= c && c <= '\u{7e}' {
            (AnsiScan::Text, false)
        } else {
            (AnsiScan::Csi, false)
        },
        AnsiScan::Osc => if c == '\u{07}' {
            (AnsiScan::Text, false)
        } else if c == '\u{1b}' {
            (AnsiScan::OscEscape, false)
        } else {
            (AnsiScan::Osc, false)
        },
        AnsiScan::OscEscape => if c == '\\' {
            (AnsiScan::Text, false)
        } else {
            (AnsiScan::Osc, false)
        },
    }
}

/// Removes ANSI escape sequences from terminal output.
pub fn strip_ansi_exec(s: &str) -> (r: String)
    ensures
        r@ == strip_ansi(s@),
{
    let n = s.unicode_len();
    let mut out = String::new();
    let mut st = AnsiScan::Text;
    let mut i: usize = 0;
    while i < n
        invariant
            n == s@.len(),
            i <= n,
            strip_ansi(s@) == out@ + strip_ansi_from(s@, i as int, st),
        decreases n - i,
    {
        let c = s.get_char(i);
        let (next, keep) = ansi_step_exec(st, c);
        let ghost before = out@;
        if keep {
            push_char(&mut out, c);
        }
        proof {
            assert(strip_ansi_from(s@, i as int, st) == (if keep {
                seq![c] + strip_ansi_from(s@, i + 1, next)
            } else {
                strip_ansi_from(s@, i + 1, next)
            }));
            if keep {
                assert(before + (seq![c] + strip_ansi_from(s@, i + 1, next)) =~= out@
                    + strip_ansi_from(s@, i + 1, next));
            }
        }
        st = next;
        i = i + 1;
    }
    assert(out@ + strip_ansi_from(s@, n as int, st) =~= out@);
    out
}

impl HistoryEvent {
    /// Milliseconds since the Unix epoch, now.
    pub fn now_ms() -> (t: i64)
        ensures
            t >= 0,
    {
        utc_now_millis()
    }

    /// A session start event at time `ts`.
    pub fn session_start_at(ts: i64, agent_cmd: &str, label: &str, cwd: &str) -> (e: Self)
        ensures
            match e {
                HistoryEvent::SessionStart { ts: t, agent_cmd: a, label: l, cwd: c } => t == ts
                    && a@ == agent_cmd@ && l@ == label@ && c@ == cwd@,
                _ => false,
            },
    {
        HistoryEvent::SessionStart {
            ts,
            agent_cmd: copy_string(agent_cmd),
            label: copy_string(label),
            cwd: copy_string(cwd),
        }
    }

    /// A user input event at time `ts`; the newline that submitted the text
    /// is not part of the message, so `\n` and `\r` are removed.
    pub fn user_input_at(ts: i64, text: &str) -> (e: Self)
        ensures
            match e {
                HistoryEvent::UserInput { ts: t, text: x } => t == ts && x@ == strip_newlines(text@),
                _ => false,
            },
    {
        HistoryEvent::UserInput { ts, text: strip_newlines_exec(text) }
    }

    /// An agent output event at time `ts`; the text is stored as plain text,
    /// with its ANSI escape sequences removed.
    pub fn agent_output_at(ts: i64, text: &str) -> (e: Self)
        ensures
            match e {
                HistoryEvent::AgentOutput { ts: t, text: x } => t == ts && x@ == strip_ansi(text@),
                _ => false,
            },
    {
        HistoryEvent::AgentOutput { ts, text: strip_ansi_exec(text) }
    }

    /// A session end event at time `ts`.
    pub fn session_end_at(ts: i64, exit_code: Option<i32>, signal: Option<i32>) -> (e: Self)
        ensures
            e == (HistoryEvent::SessionEnd { ts, exit_code, signal }),
    {
        HistoryEvent::SessionEnd { ts, exit_code, signal }
    }

    /// A session start event, now.
    pub fn session_start(agent_cmd: &str, label: &str, cwd: &str) -> (e: Self)
        ensures
            match e {
                HistoryEvent::SessionStart { ts: t, agent_cmd: a, label: l, cwd: c } => t >= 0
                    && a@ == agent_cmd@ && l@ == label@ && c@ == cwd@,
                _ => false,
            },
    {
        Self::session_start_at(Self::now_ms(), agent_cmd, label, cwd)
    }

    /// A user input event, now, without `\n` and `\r`.
    pub fn user_input(text: &str) -> (e: Self)
        ensures
            match e {
                HistoryEvent::UserInput { ts: t, text: x } => t >= 0 && x@ == strip_newlines(text@),
                _ => false,
            },
    {
        Self::user_input_at(Self::now_ms(), text)
    }

    /// An agent output event, now, with ANSI escape sequences removed.
    pub fn agent_output(text: &str) -> (e: Self)
        ensures
            match e {
                HistoryEvent::AgentOutput { ts: t, text: x } => t >= 0 && x@ == strip_ansi(text@),
                _ => false,
            },
    {
        Self::agent_output_at(Self::now_ms(), text)
    }

    /// A session end event, now.
    pub fn session_end(exit_code: Option<i32>, signal: Option<i32>) -> (e: Self)
        ensures
            match e {
                HistoryEvent::SessionEnd { ts: t, exit_code: x, signal: g } => t >= 0 && x
                    == exit_code && g == signal,
                _ => false,
            },
    {
        Self::session_end_at(Self::now_ms(), exit_code, signal)
    }
}

} // verus!
