//! Configuration values, their defaults, merging and validation.
//!
//! Global config: `~/.vibingide/config.toml`
//! Project override: `<root>/.vibingide/config.toml`
//! Reading and parsing the files is done by the caller; this module decides
//! what the resulting configuration is and whether it is acceptable.

use vstd::prelude::*;

use crate::text::copy_string;

verus! {

// ── Top-level config ──────────────────────────────────────────────────────────

#[derive(Debug, Clone)]
pub struct AppConfig {
    pub ui: UiConfig,
    pub keybinds: KeybindConfig,
    pub history: HistoryConfig,
    pub security: SecurityConfig,
}

#[derive(Debug, Clone)]
pub struct UiConfig {
    pub theme: String,
    pub left_panel_width_pct: u8,
    pub output_buffer_lines: usize,
    pub scroll_speed: u8,
    pub show_panel_borders: bool,
    pub show_status_bar: bool,
}

#[derive(Debug, Clone)]
pub struct KeybindConfig {
    pub new_panel: String,
    pub next_panel: String,
    pub prev_panel: String,
    pub focus_input: String,
    pub focus_tree: String,
    pub focus_history: String,
    pub maximize_panel: String,
    pub close_panel: String,
    pub open_project: String,
    pub command_palette: String,
    pub scroll_up: String,
    pub scroll_down: String,
}

#[derive(Debug, Clone)]
pub struct HistoryConfig {
    pub max_sessions_per_project: usize,
    pub auto_archive_after_days: u32,
    pub store_raw_ansi: bool,
}

#[derive(Debug, Clone)]
pub struct SecurityConfig {
    /// Env vars passed through to child processes.
    /// Anything not in this list is stripped from child env.
    pub child_env_allowlist: Vec<String>,
}

impl UiConfig {
    pub open spec fn is_default(&self) -> bool {
        &&& self.theme@ == "dark"@
        &&& self.left_panel_width_pct == 25
        &&& self.output_buffer_lines == 10_000
        &&& self.scroll_speed == 3
        &&& self.show_panel_borders
        &&& self.show_status_bar
    }
}

impl Default for UiConfig {
    fn default() -> (c: Self)
        ensures
            c.is_default(),
    {
        UiConfig {
            theme: copy_string("dark"),
            left_panel_width_pct: 25,
            output_buffer_lines: 10_000,
            scroll_speed: 3,
            show_panel_borders: true,
            show_status_bar: true,
        }
    }
}

impl KeybindConfig {
    pub open spec fn is_default(&self) -> bool {
        &&& self.new_panel@ == "ctrl+shift+n"@
        &&& self.next_panel@ == "ctrl+]"@
        &&& self.prev_panel@ == "ctrl+["@
        &&& self.focus_input@ == "ctrl+i"@
        &&& self.focus_tree@ == "ctrl+e"@
        &&& self.focus_history@ == "ctrl+h"@
        &&& self.maximize_panel@ == "ctrl+m"@
        &&& self.close_panel@ == "ctrl+w"@
        &&& self.open_project@ == "ctrl+o"@
        &&& self.command_palette@ == "ctrl+p"@
        &&& self.scroll_up@ == "ctrl+u"@
        &&& self.scroll_down@ == "ctrl+d"@
    }
}

impl Default for KeybindConfig {
    fn default() -> (c: Self)
        ensures
            c.is_default(),
    {
        KeybindConfig {
            new_panel: copy_string("ctrl+shift+n"),
            next_panel: copy_string("ctrl+]"),
            prev_panel: copy_string("ctrl+["),
            focus_input: copy_string("ctrl+i"),
            focus_tree: copy_string("ctrl+e"),
            focus_history: copy_string("ctrl+h"),
            maximize_panel: copy_string("ctrl+m"),
            close_panel: copy_string("ctrl+w"),
            open_project: copy_string("ctrl+o"),
            command_palette: copy_string("ctrl+p"),
            scroll_up: copy_string("ctrl+u"),
            scroll_down: copy_string("ctrl+d"),
        }
    }
}

impl HistoryConfig {
    pub open spec fn is_default(&self) -> bool {
        &&& self.max_sessions_per_project == 500
        &&& self.auto_archive_after_days == 30
        &&& !self.store_raw_ansi
    }
}

impl Default for HistoryConfig {
    fn default() -> (c: Self)
        ensures
            c.is_default(),
    {
        HistoryConfig {
            max_sessions_per_project: 500,
            auto_archive_after_days: 30,
            store_raw_ansi: false,
        }
    }
}

/// The environment variables children inherit by default (Unix and Windows names).
pub open spec fn default_env_allowlist() -> Seq<Seq<char>> {
    seq![
        "PATH"@,
        "HOME"@,
        "TERM"@,
        "LANG"@,
        "LC_ALL"@,
        "USER"@,
        "LOGNAME"@,
        "USERPROFILE"@,
        "APPDATA"@,
        "LOCALAPPDATA"@,
        "TEMP"@,
        "TMP"@,
        "COMSPEC"@,
        "SystemRoot"@,
        "windir"@,
        "PATHEXT"@,
        "SystemDrive"@,
        "HOMEDRIVE"@,
        "HOMEPATH"@,
        "OS"@,
        "USERNAME"@,
        "COMPUTERNAME"@,
        "NUMBER_OF_PROCESSORS"@,
        "PROCESSOR_ARCHITECTURE"@,
        "ProgramData"@,
        "ProgramFiles"@,
        "ProgramFiles(x86)"@,
        "ProgramW6432"@,
        "CommonProgramFiles"@,
        "CommonProgramFiles(x86)"@,
        "CommonProgramW6432"@,
        "PSModulePath"@,
    ]
}

pub open spec fn strings_view(v: Seq<String>) -> Seq<Seq<char>> {
    crate::text::strings_view(v)
}

impl SecurityConfig {
    pub open spec fn is_default(&self) -> bool {
        strings_view(self.child_env_allowlist@) == default_env_allowlist()
    }
}

impl Default for SecurityConfig {
    fn default() -> (c: Self)
        ensures
            c.is_default(),
    {
        let mut v: Vec<String> = Vec::new();
        v.push(copy_string("PATH"));
        v.push(copy_string("HOME"));
        v.push(copy_string("TERM"));
        v.push(copy_string("LANG"));
        v.push(copy_string("LC_ALL"));
        v.push(copy_string("USER"));
        v.push(copy_string("LOGNAME"));
        v.push(copy_string("USERPROFILE"));
        v.push(copy_string("APPDATA"));
        v.push(copy_string("LOCALAPPDATA"));
        v.push(copy_string("TEMP"));
        v.push(copy_string("TMP"));
        v.push(copy_string("COMSPEC"));
        v.push(copy_string("SystemRoot"));
        v.push(copy_string("windir"));
        v.push(copy_string("PATHEXT"));
        v.push(copy_string("SystemDrive"));
        v.push(copy_string("HOMEDRIVE"));
        v.push(copy_string("HOMEPATH"));
        v.push(copy_string("OS"));
        v.push(copy_string("USERNAME"));
        v.push(copy_string("COMPUTERNAME"));
        v.push(copy_string("NUMBER_OF_PROCESSORS"));
        v.push(copy_string("PROCESSOR_ARCHITECTURE"));
        v.push(copy_string("ProgramData"));
        v.push(copy_string("ProgramFiles"));
        v.push(copy_string("ProgramFiles(x86)"));
        v.push(copy_string("ProgramW6432"));
        v.push(copy_string("CommonProgramFiles"));
        v.push(copy_string("CommonProgramFiles(x86)"));
        v.push(copy_string("CommonProgramW6432"));
        v.push(copy_string("PSModulePath"));
        assert(strings_view(v@) =~= default_env_allowlist());
        SecurityConfig { child_env_allowlist: v }
    }
}

impl AppConfig {
    pub open spec fn is_default(&self) -> bool {
        &&& self.ui.is_default()
        &&& self.keybinds.is_default()
        &&& self.history.is_default()
        &&& self.security.is_default()
    }
}

impl Default for AppConfig {
    fn default() -> (c: Self)
        ensures
            c.is_default(),
    {
        AppConfig {
            ui: UiConfig::default(),
            keybinds: KeybindConfig::default(),
            history: HistoryConfig::default(),
            security: SecurityConfig::default(),
        }
    }
}

// ── Validation ────────────────────────────────────────────────────────────────

/// Why a configuration was refused.
#[derive(Debug, Clone, PartialEq, Eq)]
pub enum ConfigError {
    /// `ui.left_panel_width_pct` is outside 10–50.
    LeftPanelWidthOutOfRange,
    /// `ui.output_buffer_lines` is outside 100–100000.
    OutputBufferLinesOutOfRange,
    /// An entry of `security.child_env_allowlist` holds a character other
    /// than ASCII letters, digits, `_`, `(` and `)`.
    InvalidEnvAllowlistEntry(String),
}

/// A character allowed in an environment variable name of the allowlist.
pub open spec fn is_env_name_char(c: char) -> bool {
    ||| ('0' <= c && c <= '9')
    ||| ('A' <= c && c <= 'Z')
    ||| ('a' <= c && c <= 'z')
    ||| c == '_'
    ||| c == '('
    ||| c == ')'
}

pub open spec fn is_env_name(s: Seq<char>) -> bool {
    forall|i: int| 0 <= i < s.len() ==> is_env_name_char(#[trigger] s[i])
}

pub open spec fn width_ok(c: AppConfig) -> bool {
    10 <= c.ui.left_panel_width_pct <= 50
}

pub open spec fn buffer_ok(c: AppConfig) -> bool {
    100 <= c.ui.output_buffer_lines <= 100_000
}

/// The outcome of validating a configuration: the first failed check.
pub open spec fn validation_outcome(c: AppConfig, r: Result<(), ConfigError>) -> bool {
    let entries = c.security.child_env_allowlist@;
    match r {
        Ok(()) => width_ok(c) && buffer_ok(c) && forall|i: int|
            0 <= i < entries.len() ==> is_env_name(#[trigger] entries[i]@),
        Err(ConfigError::LeftPanelWidthOutOfRange) => !width_ok(c),
        Err(ConfigError::OutputBufferLinesOutOfRange) => width_ok(c) && !buffer_ok(c),
        Err(ConfigError::InvalidEnvAllowlistEntry(key)) => width_ok(c) && buffer_ok(c) && exists|i: int|
            0 <= i < entries.len() && !is_env_name(#[trigger] entries[i]@) && key@ == entries[i]@
                && forall|j: int| 0 <= j < i ==> is_env_name(#[trigger] entries[j]@),
    }
}

fn is_env_name_char_exec(c: char) -> (b: bool)
    ensures
        b == is_env_name_char(c),
{
    ('0' <= c && c <= '9') || ('A' <= c && c <= 'Z') || ('a' <= c && c <= 'z') || c == '_' || c
        == '(' || c == ')'
}

fn is_env_name_exec(s: &str) -> (b: bool)
    ensures
        b == is_env_name(s@),
{
    let n = s.unicode_len();
    let mut i: usize = 0;
    while i < n
        invariant
            n == s@.len(),
            i <= n,
            forall|k: int| 0 <= k < i ==> is_env_name_char(#[trigger] s@[k]),
        decreases n - i,
    {
        if !is_env_name_char_exec(s.get_char(i)) {
            return false;
        }
        i = i + 1;
    }
    true
}

/// Every name of the default allowlist is a valid environment variable name.
pub proof fn lemma_default_allowlist_valid()
    ensures
        forall|i: int|
            0 <= i < default_env_allowlist().len() ==> is_env_name(
                #[trigger] default_env_allowlist()[i],
            ),
{
    reveal_strlit("PATH");
    reveal_strlit("HOME");
    reveal_strlit("TERM");
    reveal_strlit("LANG");
    reveal_strlit("LC_ALL");
    reveal_strlit("USER");
    reveal_strlit("LOGNAME");
    reveal_strlit("USERPROFILE");
    reveal_strlit("APPDATA");
    reveal_strlit("LOCALAPPDATA");
    reveal_strlit("TEMP");
    reveal_strlit("TMP");
    reveal_strlit("COMSPEC");
    reveal_strlit("SystemRoot");
    reveal_strlit("windir");
    reveal_strlit("PATHEXT");
    reveal_strlit("SystemDrive");
    reveal_strlit("HOMEDRIVE");
    reveal_strlit("HOMEPATH");
    reveal_strlit("OS");
    reveal_strlit("USERNAME");
    reveal_strlit("COMPUTERNAME");
    reveal_strlit("NUMBER_OF_PROCESSORS");
    reveal_strlit("PROCESSOR_ARCHITECTURE");
    reveal_strlit("ProgramData");
    reveal_strlit("ProgramFiles");
    reveal_strlit("ProgramFiles(x86)");
    reveal_strlit("ProgramW6432");
    reveal_strlit("CommonProgramFiles");
    reveal_strlit("CommonProgramFiles(x86)");
    reveal_strlit("CommonProgramW6432");
    reveal_strlit("PSModulePath");
}

/// The default configuration passes validation.
pub proof fn law_default_config_is_valid(c: AppConfig)
    requires
        c.is_default(),
    ensures
        validation_outcome(c, Ok(())),
{
    lemma_default_allowlist_valid();
    let entries = c.security.child_env_allowlist@;
    assert forall|i: int| 0 <= i < entries.len() implies is_env_name(#[trigger] entries[i]@) by {
        assert(strings_view(entries)[i] == entries[i]@);
    }
}

/// A configuration passes validation only if every character of every
/// allowlist entry is an ASCII letter, an ASCII digit, `_`, `(` or `)`; so an
/// entry such as one holding `-`, a space, `=` or `$` is never accepted.
pub proof fn law_accepted_allowlist_holds_plain_names(c: AppConfig)
    requires
        validation_outcome(c, Ok(())),
    ensures
        forall|i: int, k: int|
            0 <= i < c.security.child_env_allowlist@.len() && 0 <= k
                < c.security.child_env_allowlist@[i]@.len() ==> {
                let ch = #[trigger] c.security.child_env_allowlist@[i]@[k];
                ||| ('0' <= ch && ch <= '9')
                ||| ('A' <= ch && ch <= 'Z')
                ||| ('a' <= ch && ch <= 'z')
                ||| ch == '_'
                ||| ch == '('
                ||| ch == ')'
            },
        forall|i: int, k: int|
            0 <= i < c.security.child_env_allowlist@.len() && 0 <= k
                < c.security.child_env_allowlist@[i]@.len() ==> {
                let ch = #[trigger] c.security.child_env_allowlist@[i]@[k];
                ch != '-' && ch != ' ' && ch != '=' && ch != '$' && ch != ';'
            },
{
    let entries = c.security.child_env_allowlist@;
    assert forall|i: int, k: int| 0 <= i < entries.len() && 0 <= k < entries[i]@.len() implies
        is_env_name_char(#[trigger] entries[i]@[k]) by {
        assert(is_env_name(entries[i]@));
    }
}

/// When the range checks pass, an allowlist entry holding a character other
/// than an ASCII letter, an ASCII digit, `_`, `(` or `)` is refused: the
/// error names the first such entry, whatever follows it.
pub proof fn law_first_bad_allowlist_entry_is_reported(
    c: AppConfig,
    r: Result<(), ConfigError>,
    i: int,
    k: int,
)
    requires
        validation_outcome(c, r),
        10 <= c.ui.left_panel_width_pct <= 50,
        100 <= c.ui.output_buffer_lines <= 100_000,
        0 <= i < c.security.child_env_allowlist@.len(),
        0 <= k < c.security.child_env_allowlist@[i]@.len(),
        ({
            let ch = c.security.child_env_allowlist@[i]@[k];
            !(('0' <= ch && ch <= '9') || ('A' <= ch && ch <= 'Z') || ('a' <= ch && ch <= 'z')
                || ch == '_' || ch == '(' || ch == ')')
        }),
        forall|j: int, m: int|
            0 <= j < i && 0 <= m < c.security.child_env_allowlist@[j]@.len() ==> {
                let ch = #[trigger] c.security.child_env_allowlist@[j]@[m];
                ('0' <= ch && ch <= '9') || ('A' <= ch && ch <= 'Z') || ('a' <= ch && ch <= 'z')
                    || ch == '_' || ch == '(' || ch == ')'
            },
    ensures
        match r {
            Err(ConfigError::InvalidEnvAllowlistEntry(key)) => key@
                == c.security.child_env_allowlist@[i]@,
            _ => false,
        },
{
    let entries = c.security.child_env_allowlist@;
    assert(!is_env_name(entries[i]@)) by {
        assert(!is_env_name_char(entries[i]@[k]));
    }
    assert forall|j: int| 0 <= j < i implies is_env_name(#[trigger] entries[j]@) by {
        assert forall|m: int| 0 <= m < entries[j]@.len() implies is_env_name_char(
            #[trigger] entries[j]@[m],
        ) by {
            let ch = entries[j]@[m];
            assert(('0' <= ch && ch <= '9') || ('A' <= ch && ch <= 'Z') || ('a' <= ch && ch
                <= 'z') || ch == '_' || ch == '(' || ch == ')');
        }
    }
    match r {
        Ok(()) => {
            assert(is_env_name(entries[i]@));
        },
        Err(ConfigError::InvalidEnvAllowlistEntry(key)) => {
            let i2 = choose|i2: int|
                0 <= i2 < entries.len() && !is_env_name(#[trigger] entries[i2]@) && key@
                    == entries[i2]@ && forall|j: int| 0 <= j < i2 ==> is_env_name(
                    #[trigger] entries[j]@,
                );
            if i2 < i {
                assert(is_env_name(entries[i2]@));
            } else if i2 > i {
                assert(is_env_name(entries[i]@));
            }
        },
        _ => {},
    }
}

impl AppConfig {
    /// Validates config values for security and sanity.
    pub fn validate(&self) -> (r: Result<(), ConfigError>)
        ensures
            validation_outcome(*self, r),
    {
        if self.ui.left_panel_width_pct < 10 || self.ui.left_panel_width_pct > 50 {
            return Err(ConfigError::LeftPanelWidthOutOfRange);
        }
        if self.ui.output_buffer_lines < 100 || self.ui.output_buffer_lines > 100_000 {
            return Err(ConfigError::OutputBufferLinesOutOfRange);
        }
        let entries = &self.security.child_env_allowlist;
        let mut i: usize = 0;
        while i < entries.len()
            invariant
                entries@ == self.security.child_env_allowlist@,
                width_ok(*self),
                buffer_ok(*self),
                i <= entries@.len(),
                forall|k: int| 0 <= k < i ==> is_env_name(#[trigger] entries@[k]@),
            decreases entries@.len() - i,
        {
            if !is_env_name_exec(entries[i].as_str()) {
                let key = copy_string(entries[i].as_str());
                let ghost es = self.security.child_env_allowlist@;
                assert(0 <= i < es.len() && !is_env_name(es[i as int]@) && key@ == es[i as int]@
                    && forall|j: int| 0 <= j < i ==> is_env_name(#[trigger] es[j]@));
                return Err(ConfigError::InvalidEnvAllowlistEntry(key));
            }
            i = i + 1;
        }
        Ok(())
    }

    /// The configuration in force: a project file that exists replaces the
    /// global one as a whole; without one the global file applies, and
    /// without either the defaults. The result is validated.
    pub fn load(global: Option<AppConfig>, project: Option<AppConfig>) -> (r: Result<
        AppConfig,
        ConfigError,
    >)
        ensures
            match config_file_in_force(global, project) {
                Some(p) => match r {
                    Ok(c) => c == p && validation_outcome(p, Ok(())),
                    Err(e) => validation_outcome(p, Err(e)),
                },
                None => r is Ok && r.unwrap().is_default(),
            },
    {
        let chosen = match project {
            Some(p) => {
                let base = match global {
                    Some(g) => g,
                    None => AppConfig::default(),
                };
                merge(base, p)
            },
            None => match global {
                Some(g) => g,
                None => AppConfig::default(),
            },
        };
        proof {
            if chosen.is_default() {
                law_default_config_is_valid(chosen);
            }
        }
        match chosen.validate() {
            Ok(()) => Ok(chosen),
            Err(e) => Err(e),
        }
    }
}

/// The config file whose values are in force: the project's if it exists,
/// else the global one; `None` when neither exists (the defaults apply).
pub open spec fn config_file_in_force(global: Option<AppConfig>, project: Option<AppConfig>) -> Option<
    AppConfig,
> {
    match project {
        Some(p) => Some(p),
        None => global,
    }
}

/// Merge project config on top of global config: the project config
/// replaces the global one as a whole.
pub fn merge(global: AppConfig, project: AppConfig) -> (c: AppConfig)
    ensures
        c == project,
{
    project
}

} // verus!
