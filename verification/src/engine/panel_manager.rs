//! Panel manager — the set of agent panels, their process handles and focus.
//!
//! The manager is generic over the handle `S` of a running child process:
//! it decides which handle a request concerns and hands it out, while the
//! caller performs the process I/O.

use vstd::prelude::*;

use crate::pty::ansi::{clamp_cols, clamp_rows, AnsiParser, VtOp};
use crate::pty::supervisor::{PanelId, PtyEvent, PtySize};
use crate::text::{decimal, push_decimal, push_str};

verus! {

// ── Panel data ────────────────────────────────────────────────────────────────

#[derive(Debug, Clone, Copy, PartialEq, Eq, Structural)]
pub enum PanelStatus {
    Starting,
    Running { pid: u32 },
    Exited { code: i32 },
    Crashed { signal: Option<i32> },
}

/// A panel whose process may still be producing output.
pub open spec fn is_active(status: PanelStatus) -> bool {
    status is Running || status is Starting
}

pub struct AgentPanel {
    pub id: PanelId,
    pub label: String,
    pub command: String,
    pub args: Vec<String>,
    pub status: PanelStatus,
    pub session_id: String,
    /// Per-panel terminal screen state.
    pub terminal: AnsiParser,
    /// Lines scrolled up from bottom (0 = at bottom).
    pub scroll_pos: usize,
}

pub open spec fn min_usize(a: int, b: int) -> int {
    if a < b {
        a
    } else {
        b
    }
}

/// The scroll offset after scrolling up `n` lines on a screen of `rows` rows:
/// at most the top row.
pub open spec fn scrolled_up(pos: usize, n: usize, rows: u16) -> int {
    min_usize(pos + n, rows - 1)
}

/// The scroll offset after scrolling down `n` lines: at least the bottom.
pub open spec fn scrolled_down(pos: usize, n: usize) -> int {
    if pos >= n {
        pos - n
    } else {
        0
    }
}

/// Scrolling down undoes scrolling up by as many lines, unless the top
/// stopped it.
pub proof fn law_scroll_down_undoes_scroll_up(pos: usize, n: usize, rows: u16)
    requires
        pos + n <= rows - 1,
    ensures
        scrolled_up(pos, n, rows) == pos + n,
        scrolled_down((pos + n) as usize, n) == pos,
{
}

impl AgentPanel {
    pub fn new(
        id: PanelId,
        label: String,
        command: String,
        args: Vec<String>,
        session_id: String,
        term_size: (u16, u16),
        scrollback_len: usize,
    ) -> (p: Self)
        ensures
            p.id == id,
            p.label == label,
            p.command == command,
            p.args == args,
            p.session_id == session_id,
            p.status == PanelStatus::Starting,
            p.scroll_pos == 0,
            p.terminal.rows() == clamp_rows(term_size.1),
            p.terminal.cols() == clamp_cols(term_size.0),
            p.terminal.wf(),
            p.terminal.setup() == (clamp_rows(term_size.1), clamp_cols(term_size.0), scrollback_len),
            p.terminal.history() == Seq::<VtOp>::empty(),
            p.terminal.is_blank(),
    {
        AgentPanel {
            id,
            label,
            command,
            args,
            status: PanelStatus::Starting,
            session_id,
            terminal: AnsiParser::new(term_size.1, term_size.0, scrollback_len),
            scroll_pos: 0,
        }
    }

    /// Scrolls up by `n` lines, at most to the top of the screen.
    pub fn scroll_up(&mut self, n: usize)
        requires
            old(self).terminal.wf(),
            old(self).scroll_pos + n <= usize::MAX,
        ensures
            final(self).scroll_pos == scrolled_up(old(self).scroll_pos, n, old(self).terminal.rows()),
            final(self).id == old(self).id,
            final(self).label == old(self).label,
            final(self).command == old(self).command,
            final(self).args == old(self).args,
            final(self).status == old(self).status,
            final(self).session_id == old(self).session_id,
            final(self).terminal == old(self).terminal,
    {
        let max = self.terminal.lines().len() - 1;
        let target = self.scroll_pos + n;
        self.scroll_pos = if target < max {
            target
        } else {
            max
        };
    }

    /// Scrolls down by `n` lines, at most to the bottom.
    pub fn scroll_down(&mut self, n: usize)
        ensures
            final(self).scroll_pos == scrolled_down(old(self).scroll_pos, n),
            final(self).id == old(self).id,
            final(self).label == old(self).label,
            final(self).command == old(self).command,
            final(self).args == old(self).args,
            final(self).status == old(self).status,
            final(self).session_id == old(self).session_id,
            final(self).terminal == old(self).terminal,
    {
        self.scroll_pos = if self.scroll_pos >= n {
            self.scroll_pos - n
        } else {
            0
        };
    }

    pub fn scroll_to_bottom(&mut self)
        ensures
            final(self).scroll_pos == 0,
            final(self).id == old(self).id,
            final(self).label == old(self).label,
            final(self).command == old(self).command,
            final(self).args == old(self).args,
            final(self).status == old(self).status,
            final(self).session_id == old(self).session_id,
            final(self).terminal == old(self).terminal,
    {
        self.scroll_pos = 0;
    }
}

// ── Panel identities and focus, as sequences ─────────────────────────────────

/// The ids of a panel list, in order.
pub open spec fn panel_ids(panels: Seq<AgentPanel>) -> Seq<PanelId> {
    panels.map_values(|p: AgentPanel| p.id)
}

/// Ids appear in strictly increasing order (so each at most once).
pub open spec fn ids_increasing(ids: Seq<PanelId>) -> bool {
    forall|i: int, j: int| 0 <= i < j < ids.len() ==> ids[i] < ids[j]
}

/// The position of `id` in `ids`.
pub open spec fn index_of(ids: Seq<PanelId>, id: PanelId) -> int {
    choose|i: int| 0 <= i < ids.len() && ids[i] == id
}

/// The position the focus is at; position 0 when nothing (valid) is focused.
pub open spec fn focus_position(ids: Seq<PanelId>, focus: Option<PanelId>) -> int {
    match focus {
        Some(f) => if ids.contains(f) {
            index_of(ids, f)
        } else {
            0
        },
        None => 0,
    }
}

/// Focus after moving to the next panel (wrapping around).
pub open spec fn focus_after_next(ids: Seq<PanelId>, focus: Option<PanelId>) -> Option<PanelId> {
    if ids.len() == 0 {
        focus
    } else {
        Some(ids[(focus_position(ids, focus) + 1) % (ids.len() as int)])
    }
}

/// Focus after moving to the previous panel (wrapping around).
pub open spec fn focus_after_prev(ids: Seq<PanelId>, focus: Option<PanelId>) -> Option<PanelId> {
    if ids.len() == 0 {
        focus
    } else {
        let cur = focus_position(ids, focus);
        Some(ids[if cur == 0 { ids.len() - 1 } else { cur - 1 }])
    }
}

/// The first panel whose process is starting or running.
pub open spec fn first_active(panels: Seq<AgentPanel>) -> Option<PanelId>
    decreases panels.len(),
{
    if panels.len() == 0 {
        None
    } else if is_active(panels[0].status) {
        Some(panels[0].id)
    } else {
        first_active(panels.drop_first())
    }
}

/// A panel with only its status changed.
pub open spec fn with_status(p: AgentPanel, status: PanelStatus) -> AgentPanel {
    AgentPanel {
        id: p.id,
        label: p.label,
        command: p.command,
        args: p.args,
        status,
        session_id: p.session_id,
        terminal: p.terminal,
        scroll_pos: p.scroll_pos,
    }
}

/// Status of a panel whose process ended with `exit_code` (`None`: killed).
pub open spec fn exit_status(exit_code: Option<i32>) -> PanelStatus {
    match exit_code {
        Some(c) => PanelStatus::Exited { code: c },
        None => PanelStatus::Crashed { signal: None },
    }
}

/// The label of the panel with the given id: `"<command> #<id + 1>"`.
pub open spec fn panel_label(command: Seq<char>, id: PanelId) -> Seq<char> {
    command + seq![' ', '#'] + decimal((id + 1) as nat)
}

/// PTY size requested for a new panel: at least 24 rows and 80 columns.
pub fn pty_size_for_panel(term_size: (u16, u16)) -> (s: PtySize)
    ensures
        s.rows == (if term_size.1 < 24 { 24 } else { term_size.1 }),
        s.cols == (if term_size.0 < 80 { 80 } else { term_size.0 }),
        s.pixel_width == 0,
        s.pixel_height == 0,
{
    PtySize {
        rows: if term_size.1 < 24 {
            24
        } else {
            term_size.1
        },
        cols: if term_size.0 < 80 {
            80
        } else {
            term_size.0
        },
        pixel_width: 0,
        pixel_height: 0,
    }
}

/// Rows each live process gets when the panel area of `rows` rows is shared
/// between `live` processes (at least one share, at least 2 rows).
pub open spec fn spec_rows_per_panel(rows: u16, live: usize) -> u16 {
    let n = if live == 0 { 1 } else { live };
    let share = rows / (n as u16);
    if share < 2 { 2 } else { share }
}

pub fn rows_per_panel(rows: u16, live: usize) -> (r: u16)
    requires
        live == 0 || live as u16 != 0,
    ensures
        r == spec_rows_per_panel(rows, live),
{
    let n: usize = if live == 0 {
        1
    } else {
        live
    };
    let share = rows / (n as u16);
    if share < 2 {
        2
    } else {
        share
    }
}

/// The size a panel's terminal is given: at least 8 columns and 2 rows.
pub fn clamp_panel_size(cols: u16, rows: u16) -> (s: (u16, u16))
    ensures
        s == (clamp_cols(cols), clamp_rows(rows)),
{
    (if cols < 8 {
        8
    } else {
        cols
    }, if rows < 2 {
        2
    } else {
        rows
    })
}

// ── Panel manager ─────────────────────────────────────────────────────────────

pub struct PanelManager<S> {
    panels: Vec<AgentPanel>,
    supervisors: Vec<Option<S>>,
    next_id: PanelId,
    focused: Option<PanelId>,
    max_buf_lines: usize,
    env_allowlist: Vec<String>,
    cwd: String,
}

impl<S> PanelManager<S> {
    /// The panels, in creation order.
    pub closed spec fn panel_seq(&self) -> Seq<AgentPanel> {
        self.panels@
    }

    /// The process handle of each panel (`None` once it is gone).
    pub closed spec fn handle_seq(&self) -> Seq<Option<S>> {
        self.supervisors@
    }

    pub closed spec fn focus(&self) -> Option<PanelId> {
        self.focused
    }

    /// The id the next panel will get.
    pub closed spec fn next_panel_id(&self) -> PanelId {
        self.next_id
    }

    pub closed spec fn buffer_lines(&self) -> usize {
        self.max_buf_lines
    }

    pub closed spec fn allowlist(&self) -> Seq<String> {
        self.env_allowlist@
    }

    pub closed spec fn working_dir(&self) -> Seq<char> {
        self.cwd@
    }

    pub open spec fn ids(&self) -> Seq<PanelId> {
        panel_ids(self.panel_seq())
    }

    pub open spec fn has_panel(&self, id: PanelId) -> bool {
        self.ids().contains(id)
    }

    /// Position of the panel with id `id`.
    pub open spec fn position(&self, id: PanelId) -> int {
        index_of(self.ids(), id)
    }

    /// The manager's invariant: one handle slot per panel, ids in strictly
    /// increasing order and below the next id, every terminal well formed,
    /// and the focus (if any) on a panel.
    pub open spec fn wf(&self) -> bool {
        &&& self.handle_seq().len() == self.panel_seq().len()
        &&& ids_increasing(self.ids())
        &&& forall|i: int| 0 <= i < self.ids().len() ==> #[trigger] self.ids()[i] < self.next_panel_id()
        &&& forall|i: int| 0 <= i < self.panel_seq().len() ==> (#[trigger] self.panel_seq()[i]).terminal.wf()
        &&& match self.focus() {
            Some(f) => self.has_panel(f),
            None => true,
        }
    }

    /// Everything but the panel list and handles is unchanged.
    pub open spec fn same_settings(&self, other: &Self) -> bool {
        &&& self.buffer_lines() == other.buffer_lines()
        &&& self.allowlist() == other.allowlist()
        &&& self.working_dir() == other.working_dir()
    }

    pub fn new(max_buf_lines: usize, env_allowlist: Vec<String>, cwd: String) -> (pm: Self)
        ensures
            pm.wf(),
            pm.panel_seq().len() == 0,
            pm.focus() is None,
            pm.next_panel_id() == 0,
            pm.buffer_lines() == max_buf_lines,
            pm.allowlist() == env_allowlist@,
            pm.working_dir() == cwd@,
    {
        PanelManager {
            panels: Vec::new(),
            supervisors: Vec::new(),
            next_id: 0,
            focused: None,
            max_buf_lines,
            env_allowlist,
            cwd,
        }
    }

    /// Maximum number of scrollback lines a panel's terminal keeps.
    pub fn max_buf_lines(&self) -> (n: usize)
        ensures
            n == self.buffer_lines(),
    {
        self.max_buf_lines
    }

    /// Names of the environment variables children may inherit.
    pub fn env_allowlist(&self) -> (v: &Vec<String>)
        ensures
            v@ == self.allowlist(),
    {
        &self.env_allowlist
    }

    /// Directory new processes start in.
    pub fn cwd(&self) -> (s: &String)
        ensures
            s@ == self.working_dir(),
    {
        &self.cwd
    }

    /// The id the next created panel will get.
    pub fn next_id(&self) -> (id: PanelId)
        ensures
            id == self.next_panel_id(),
    {
        self.next_id
    }

    proof fn lemma_index_of(&self, i: int)
        requires
            self.wf(),
            0 <= i < self.ids().len(),
        ensures
            self.position(self.ids()[i]) == i,
            self.has_panel(self.ids()[i]),
    {
        let id = self.ids()[i];
        assert(self.ids()[i] == id);
        let j = index_of(self.ids(), id);
        assert(0 <= j < self.ids().len() && self.ids()[j] == id);
        if j < i {
            assert(self.ids()[j] < self.ids()[i]);
        } else if j > i {
            assert(self.ids()[i] < self.ids()[j]);
        }
    }

    /// Position of the panel with id `id`, if there is one.
    fn panel_index(&self, id: PanelId) -> (r: Option<usize>)
        requires
            self.wf(),
        ensures
            match r {
                Some(i) => i < self.panel_seq().len() && self.panel_seq()[i as int].id == id
                    && self.position(id) == i && self.has_panel(id),
                None => !self.has_panel(id),
            },
    {
        let mut i: usize = 0;
        while i < self.panels.len()
            invariant
                self.wf(),
                i <= self.panels@.len(),
                forall|k: int| 0 <= k < i ==> self.panels@[k].id != id,
            decreases self.panels@.len() - i,
        {
            if self.panels[i].id == id {
                proof {
                    self.lemma_index_of(i as int);
                }
                return Some(i);
            }
            i = i + 1;
        }
        assert(!self.ids().contains(id)) by {
            if self.ids().contains(id) {
                let k = choose|k: int| 0 <= k < self.ids().len() && self.ids()[k] == id;
                assert(self.panels@[k].id == id);
            }
        }
        None
    }

    /// Commits a newly spawned panel: `handle` is its running process and `pid`
    /// that process's id, if known. The panel gets the next id, the label
    /// `"<command> #<id + 1>"`, status `Running` and the focus.
    pub fn create_panel(
        &mut self,
        command: String,
        args: Vec<String>,
        session_id: String,
        term_size: (u16, u16),
        handle: S,
        pid: Option<u32>,
    ) -> (id: PanelId)
        requires
            old(self).wf(),
            old(self).next_panel_id() < u32::MAX,
        ensures
            final(self).wf(),
            id == old(self).next_panel_id(),
            final(self).next_panel_id() == id + 1,
            final(self).focus() == Some(id),
            final(self).panel_seq().len() == old(self).panel_seq().len() + 1,
            final(self).panel_seq().drop_last() == old(self).panel_seq(),
            final(self).handle_seq() == old(self).handle_seq().push(Some(handle)),
            final(self).same_settings(&*old(self)),
            ({
                let p = final(self).panel_seq().last();
                &&& p.id == id
                &&& p.label@ == panel_label(command@, id)
                &&& p.command == command
                &&& p.args == args
                &&& p.session_id == session_id
                &&& p.status == PanelStatus::Running {
                    pid: match pid {
                        Some(n) => n,
                        None => 0,
                    },
                }
                &&& p.scroll_pos == 0
                &&& p.terminal.rows() == clamp_rows(term_size.1)
                &&& p.terminal.cols() == clamp_cols(term_size.0)
            }),
    {
        let id = self.next_id;
        let mut label = String::new();
        push_str(&mut label, command.as_str());
        push_str(&mut label, " #");
        proof {
            reveal_strlit(" #");
        }
        push_decimal(&mut label, id + 1);
        assert(label@ =~= panel_label(command@, id));
        let mut panel = AgentPanel::new(
            id,
            label,
            command,
            args,
            session_id,
            term_size,
            self.max_buf_lines,
        );
        panel.status = PanelStatus::Running {
            pid: match pid {
                Some(n) => n,
                None => 0,
            },
        };
        let ghost old_ids = self.ids();
        self.panels.push(panel);
        self.supervisors.push(Some(handle));
        self.next_id = id + 1;
        self.focused = Some(id);
        proof {
            assert(self.ids() =~= old_ids.push(id));
            assert(self.ids()[self.ids().len() - 1] == id);
        }
        id
    }

    /// The process handle of panel `id`, for writing to it.
    pub fn handle_mut(&mut self, id: PanelId) -> (h: Option<&mut S>)
        requires
            old(self).wf(),
        ensures
            final(self).wf(),
            final(self).panel_seq() == old(self).panel_seq(),
            final(self).focus() == old(self).focus(),
            final(self).next_panel_id() == old(self).next_panel_id(),
            final(self).same_settings(&*old(self)),
            final(self).handle_seq().len() == old(self).handle_seq().len(),
            h is Some <==> (old(self).has_panel(id) && old(self).handle_seq()[old(self).position(
                id,
            )] is Some),
            h is None ==> final(self).handle_seq() == old(self).handle_seq(),
            h is Some ==> ({
                let i = old(self).position(id);
                &&& *h.unwrap() == old(self).handle_seq()[i].unwrap()
                &&& final(self).handle_seq() == old(self).handle_seq().update(
                    i,
                    Some(*final(h.unwrap())),
                )
            }),
    {
        match self.panel_index(id) {
            Some(idx) => {
                let slot = &mut self.supervisors[idx];
                slot.as_mut()
            },
            None => None,
        }
    }

    /// The process handle of panel `id`, if the process is still attached.
    pub fn handle(&self, id: PanelId) -> (h: Option<&S>)
        requires
            self.wf(),
        ensures
            h is Some <==> (self.has_panel(id) && self.handle_seq()[self.position(id)] is Some),
            h is Some ==> *h.unwrap() == self.handle_seq()[self.position(id)].unwrap(),
    {
        match self.panel_index(id) {
            Some(idx) => self.supervisors[idx].as_ref(),
            None => None,
        }
    }

    /// All process handle slots, one per panel.
    pub fn handles(&self) -> (h: &[Option<S>])
        ensures
            h@ == self.handle_seq(),
    {
        self.supervisors.as_slice()
    }

    /// Number of panels whose process is still attached.
    pub fn live_count(&self) -> (n: usize)
        ensures
            n == self.handle_seq().filter(|h: Option<S>| h is Some).len(),
    {
        let mut n: usize = 0;
        let mut i: usize = 0;
        while i < self.supervisors.len()
            invariant
                i <= self.supervisors@.len(),
                n == self.supervisors@.take(i as int).filter(|h: Option<S>| h is Some).len(),
                n <= i,
            decreases self.supervisors@.len() - i,
        {
            proof {
                reveal_with_fuel(Seq::filter, 1);
                assert(self.supervisors@.take((i + 1) as int).drop_last() =~= self.supervisors@.take(
                    i as int,
                ));
            }
            if self.supervisors[i].is_some() {
                n = n + 1;
            }
            i = i + 1;
        }
        assert(self.supervisors@.take(self.supervisors@.len() as int) =~= self.supervisors@);
        n
    }

    /// Closes panel `id`: detaches its process handle (returned, for the caller
    /// to terminate), marks it `Exited { code: -1 }` and moves the focus to the
    /// first panel that is still starting or running. Unknown ids change nothing.
    pub fn close_panel(&mut self, id: PanelId) -> (h: Option<S>)
        requires
            old(self).wf(),
        ensures
            final(self).wf(),
            final(self).next_panel_id() == old(self).next_panel_id(),
            final(self).same_settings(&*old(self)),
            !old(self).has_panel(id) ==> h is None && final(self).panel_seq() == old(self).panel_seq()
                && final(self).handle_seq() == old(self).handle_seq() && final(self).focus() == old(
                self,
            ).focus(),
            old(self).has_panel(id) ==> ({
                let i = old(self).position(id);
                &&& h == old(self).handle_seq()[i]
                &&& final(self).handle_seq() == old(self).handle_seq().update(i, None)
                &&& final(self).panel_seq() == old(self).panel_seq().update(
                    i,
                    with_status(old(self).panel_seq()[i], PanelStatus::Exited { code: -1i32 }),
                )
                &&& final(self).focus() == first_active(final(self).panel_seq())
            }),
    {
        match self.panel_index(id) {
            Some(idx) => {
                let ghost old_panels = self.panels@;
                let mut taken: Option<S> = None;
                std::mem::swap(&mut taken, &mut self.supervisors[idx]);
                self.panels[idx].status = PanelStatus::Exited { code: -1 };
                assert(self.panels@ =~= old_panels.update(
                    idx as int,
                    with_status(old_panels[idx as int], PanelStatus::Exited { code: -1i32 }),
                ));
                assert(self.ids() =~= panel_ids(old_panels));
                self.focused = self.first_active_id();
                taken
            },
            None => None,
        }
    }

    /// Id of the first panel that is starting or running.
    fn first_active_id(&self) -> (r: Option<PanelId>)
        requires
            self.wf(),
        ensures
            r == first_active(self.panel_seq()),
            match r {
                Some(f) => self.has_panel(f),
                None => true,
            },
    {
        let mut i: usize = 0;
        assert(self.panels@.subrange(0, self.panels@.len() as int) =~= self.panels@);
        while i < self.panels.len()
            invariant
                i <= self.panels@.len(),
                first_active(self.panels@) == first_active(self.panels@.subrange(
                    i as int,
                    self.panels@.len() as int,
                )),
            decreases self.panels@.len() - i,
        {
            let ghost rest = self.panels@.subrange(i as int, self.panels@.len() as int);
            assert(rest.drop_first() =~= self.panels@.subrange(i + 1, self.panels@.len() as int));
            match self.panels[i].status {
                PanelStatus::Running { .. } | PanelStatus::Starting => {
                    assert(self.ids()[i as int] == self.panels@[i as int].id);
                    return Some(self.panels[i].id);
                },
                _ => {},
            }
            i = i + 1;
        }
        None
    }

    /// `self` is `old` with the terminal of panel `id` (if there is one) fed
    /// `data`; every other panel, and everything else of that panel, is kept.
    pub open spec fn fed_output(&self, old: &Self, id: PanelId, data: Seq<u8>) -> bool {
        &&& self.panel_seq().len() == old.panel_seq().len()
        &&& forall|j: int|
            0 <= j < old.panel_seq().len() && (!old.has_panel(id) || j != old.position(id))
                ==> #[trigger] self.panel_seq()[j] == old.panel_seq()[j]
        &&& old.has_panel(id) ==> ({
            let i = old.position(id);
            let p = self.panel_seq()[i];
            let q = old.panel_seq()[i];
            &&& p.id == q.id
            &&& p.label == q.label
            &&& p.command == q.command
            &&& p.args == q.args
            &&& p.status == q.status
            &&& p.session_id == q.session_id
            &&& p.scroll_pos == q.scroll_pos
            &&& p.terminal.rows() == q.terminal.rows()
            &&& p.terminal.cols() == q.terminal.cols()
            &&& p.terminal.setup() == q.terminal.setup()
            &&& p.terminal.history() == q.terminal.history().push(VtOp::Process(data))
        })
    }

    /// Feeds PTY output to the terminal of panel `id`.
    pub fn handle_output(&mut self, id: PanelId, data: Vec<u8>)
        requires
            old(self).wf(),
        ensures
            final(self).wf(),
            final(self).handle_seq() == old(self).handle_seq(),
            final(self).focus() == old(self).focus(),
            final(self).next_panel_id() == old(self).next_panel_id(),
            final(self).same_settings(&*old(self)),
            final(self).fed_output(&*old(self), id, data@),
    {
        match self.panel_index(id) {
            Some(idx) => {
                let ghost old_panels = self.panels@;
                self.panels[idx].terminal.feed(data.as_slice());
                assert(self.ids() =~= panel_ids(old_panels));
                assert forall|i: int| 0 <= i < self.panel_seq().len() implies (
                #[trigger] self.panel_seq()[i]).terminal.wf() by {
                    if i != idx {
                        assert(self.panel_seq()[i] == old_panels[i]);
                    }
                }
            },
            None => {},
        }
    }

    /// Records that the process of panel `id` ended: its handle is dropped and
    /// its status becomes `Exited { code }`, or `Crashed` when no code is known.
    pub fn handle_exit(&mut self, id: PanelId, exit_code: Option<i32>)
        requires
            old(self).wf(),
        ensures
            final(self).wf(),
            final(self).focus() == old(self).focus(),
            final(self).next_panel_id() == old(self).next_panel_id(),
            final(self).same_settings(&*old(self)),
            !old(self).has_panel(id) ==> final(self).panel_seq() == old(self).panel_seq()
                && final(self).handle_seq() == old(self).handle_seq(),
            old(self).has_panel(id) ==> ({
                let i = old(self).position(id);
                &&& final(self).handle_seq() == old(self).handle_seq().update(i, None)
                &&& final(self).panel_seq() == old(self).panel_seq().update(
                    i,
                    with_status(old(self).panel_seq()[i], exit_status(exit_code)),
                )
            }),
    {
        match self.panel_index(id) {
            Some(idx) => {
                let ghost old_panels = self.panels@;
                let mut taken: Option<S> = None;
                std::mem::swap(&mut taken, &mut self.supervisors[idx]);
                self.panels[idx].status = match exit_code {
                    Some(c) => PanelStatus::Exited { code: c },
                    None => PanelStatus::Crashed { signal: None },
                };
                assert(self.panels@ =~= old_panels.update(
                    idx as int,
                    with_status(old_panels[idx as int], exit_status(exit_code)),
                ));
                assert(self.ids() =~= panel_ids(old_panels));
            },
            None => {},
        }
    }

    /// Dispatches one event from a PTY reader.
    pub fn handle_event(&mut self, event: PtyEvent)
        requires
            old(self).wf(),
        ensures
            final(self).wf(),
            final(self).focus() == old(self).focus(),
            final(self).next_panel_id() == old(self).next_panel_id(),
            final(self).same_settings(&*old(self)),
            final(self).panel_seq().len() == old(self).panel_seq().len(),
            match event {
                PtyEvent::Output { panel_id, data } => final(self).handle_seq() == old(
                    self,
                ).handle_seq() && final(self).fed_output(&*old(self), panel_id, data@),
                PtyEvent::Exited { panel_id, exit_code } => (old(self).has_panel(panel_id) ==> ({
                    let i = old(self).position(panel_id);
                    &&& final(self).handle_seq() == old(self).handle_seq().update(i, None)
                    &&& final(self).panel_seq() == old(self).panel_seq().update(
                        i,
                        with_status(old(self).panel_seq()[i], exit_status(exit_code)),
                    )
                })) && (!old(self).has_panel(panel_id) ==> final(self).panel_seq() == old(
                    self,
                ).panel_seq()),
            },
    {
        match event {
            PtyEvent::Output { panel_id, data } => self.handle_output(panel_id, data),
            PtyEvent::Exited { panel_id, exit_code } => self.handle_exit(panel_id, exit_code),
        }
    }

    proof fn lemma_focus_valid(&self)
        requires
            self.wf(),
            self.panel_seq().len() > 0,
        ensures
            0 <= focus_position(self.ids(), self.focus()) < self.ids().len(),
    {
        match self.focus() {
            Some(f) => {
                if self.ids().contains(f) {
                    let k = choose|k: int| 0 <= k < self.ids().len() && self.ids()[k] == f;
                    assert(self.ids()[k] == f);
                }
            },
            None => {},
        }
    }

    /// Position of the focused panel, if any panel is focused.
    fn focused_index(&self) -> (r: Option<usize>)
        requires
            self.wf(),
        ensures
            match self.focus() {
                Some(f) => r is Some && r.unwrap() == self.position(f) && self.position(f)
                    < self.panel_seq().len() && self.panel_seq()[self.position(f)].id == f,
                None => r is None,
            },
    {
        match self.focused {
            Some(f) => self.panel_index(f),
            None => None,
        }
    }

    /// Moves the focus to the next panel, wrapping around.
    pub fn focus_next(&mut self)
        requires
            old(self).wf(),
        ensures
            final(self).wf(),
            final(self).focus() == focus_after_next(old(self).ids(), old(self).focus()),
            final(self).panel_seq() == old(self).panel_seq(),
            final(self).handle_seq() == old(self).handle_seq(),
            final(self).next_panel_id() == old(self).next_panel_id(),
            final(self).same_settings(&*old(self)),
    {
        if self.panels.len() == 0 {
            return;
        }
        proof {
            self.lemma_focus_valid();
        }
        let cur = match self.focused_index() {
            Some(i) => i,
            None => 0,
        };
        assert(cur == focus_position(self.ids(), self.focus()));
        let next = (cur + 1) % self.panels.len();
        proof {
            self.lemma_index_of(next as int);
        }
        self.focused = Some(self.panels[next].id);
    }

    /// Moves the focus to the previous panel, wrapping around.
    pub fn focus_prev(&mut self)
        requires
            old(self).wf(),
        ensures
            final(self).wf(),
            final(self).focus() == focus_after_prev(old(self).ids(), old(self).focus()),
            final(self).panel_seq() == old(self).panel_seq(),
            final(self).handle_seq() == old(self).handle_seq(),
            final(self).next_panel_id() == old(self).next_panel_id(),
            final(self).same_settings(&*old(self)),
    {
        if self.panels.len() == 0 {
            return;
        }
        proof {
            self.lemma_focus_valid();
        }
        let cur = match self.focused_index() {
            Some(i) => i,
            None => 0,
        };
        assert(cur == focus_position(self.ids(), self.focus()));
        let prev = if cur == 0 {
            self.panels.len() - 1
        } else {
            cur - 1
        };
        proof {
            self.lemma_index_of(prev as int);
        }
        self.focused = Some(self.panels[prev].id);
    }

    /// Focuses panel `id` if it exists.
    pub fn set_focus(&mut self, id: PanelId)
        requires
            old(self).wf(),
        ensures
            final(self).wf(),
            final(self).focus() == (if old(self).has_panel(id) {
                Some(id)
            } else {
                old(self).focus()
            }),
            final(self).panel_seq() == old(self).panel_seq(),
            final(self).handle_seq() == old(self).handle_seq(),
            final(self).next_panel_id() == old(self).next_panel_id(),
            final(self).same_settings(&*old(self)),
    {
        match self.panel_index(id) {
            Some(_) => {
                self.focused = Some(id);
            },
            None => {},
        }
    }

    pub fn focused_panel(&self) -> (p: Option<&AgentPanel>)
        requires
            self.wf(),
        ensures
            match self.focus() {
                Some(f) => p == Some(&self.panel_seq()[self.position(f)]),
                None => p is None,
            },
    {
        match self.focused_index() {
            Some(i) => Some(&self.panels[i]),
            None => None,
        }
    }

    /// The panel with id `id`, if there is one.
    pub fn panel(&self, id: PanelId) -> (p: Option<&AgentPanel>)
        requires
            self.wf(),
        ensures
            p is Some <==> self.has_panel(id),
            p is Some ==> *p.unwrap() == self.panel_seq()[self.position(id)],
    {
        match self.panel_index(id) {
            Some(i) => Some(&self.panels[i]),
            None => None,
        }
    }

    pub fn panels(&self) -> (p: &[AgentPanel])
        ensures
            p@ == self.panel_seq(),
    {
        self.panels.as_slice()
    }

    pub fn focused_id(&self) -> (f: Option<PanelId>)
        ensures
            f == self.focus(),
    {
        self.focused
    }

    /// The focused panel, if its process is running: where typed input goes.
    pub fn input_target(&self) -> (t: Option<PanelId>)
        requires
            self.wf(),
        ensures
            t == (match self.focus() {
                Some(f) => if self.panel_seq()[self.position(f)].status is Running {
                    Some(f)
                } else {
                    None
                },
                None => None,
            }),
    {
        match self.focused_index() {
            Some(i) => match self.panels[i].status {
                PanelStatus::Running { .. } => self.focused,
                _ => None,
            },
            None => None,
        }
    }

    /// Resizes the terminal of panel `id` to `cols` x `rows` (clamped to at
    /// least 8 x 2); a terminal already of that size is left untouched.
    pub fn resize_panel(&mut self, id: PanelId, cols: u16, rows: u16)
        requires
            old(self).wf(),
        ensures
            final(self).wf(),
            final(self).handle_seq() == old(self).handle_seq(),
            final(self).focus() == old(self).focus(),
            final(self).next_panel_id() == old(self).next_panel_id(),
            final(self).same_settings(&*old(self)),
            final(self).panel_seq().len() == old(self).panel_seq().len(),
            forall|j: int|
                0 <= j < old(self).panel_seq().len() && (!old(self).has_panel(id) || j
                    != old(self).position(id)) ==> #[trigger] final(self).panel_seq()[j] == old(
                    self,
                ).panel_seq()[j],
            old(self).has_panel(id) ==> ({
                let i = old(self).position(id);
                let p = final(self).panel_seq()[i];
                let q = old(self).panel_seq()[i];
                &&& p.id == q.id
                &&& p.label == q.label
                &&& p.command == q.command
                &&& p.args == q.args
                &&& p.status == q.status
                &&& p.session_id == q.session_id
                &&& p.scroll_pos == q.scroll_pos
                &&& p.terminal.rows() == clamp_rows(rows)
                &&& p.terminal.cols() == clamp_cols(cols)
                &&& p.terminal.setup() == q.terminal.setup()
                &&& p.terminal.history() == (if q.terminal.rows() == clamp_rows(rows)
                    && q.terminal.cols() == clamp_cols(cols) {
                    q.terminal.history()
                } else {
                    q.terminal.history().push(VtOp::SetSize(clamp_rows(rows), clamp_cols(cols)))
                })
                &&& (q.terminal.rows() == clamp_rows(rows) && q.terminal.cols() == clamp_cols(cols)
                    ==> p.terminal == q.terminal)
            }),
    {
        let (cols, rows) = clamp_panel_size(cols, rows);
        match self.panel_index(id) {
            Some(idx) => {
                let ghost old_panels = self.panels@;
                let old_size = self.panels[idx].terminal.size();
                if old_size.0 != cols || old_size.1 != rows {
                    self.panels[idx].terminal.resize(rows, cols);
                }
                assert(self.ids() =~= panel_ids(old_panels));
                assert forall|i: int| 0 <= i < self.panel_seq().len() implies (
                #[trigger] self.panel_seq()[i]).terminal.wf() by {
                    if i != idx {
                        assert(self.panel_seq()[i] == old_panels[i]);
                    }
                }
            },
            None => {},
        }
    }
}


// ── Laws ──────────────────────────────────────────────────────────────────────

proof fn lemma_index_of_unique(ids: Seq<PanelId>, i: int)
    requires
        ids_increasing(ids),
        0 <= i < ids.len(),
    ensures
        index_of(ids, ids[i]) == i,
        focus_position(ids, Some(ids[i])) == i,
{
    let id = ids[i];
    assert(ids.contains(id)) by {
        assert(ids[i] == id);
    }
    let j = index_of(ids, id);
    if j < i {
        assert(ids[j] < ids[i]);
    } else if j > i {
        assert(ids[i] < ids[j]);
    }
}

/// Moving the focus to the previous panel undoes moving it to the next one,
/// and the other way round, whenever a panel is focused.
pub proof fn law_focus_prev_undoes_next(ids: Seq<PanelId>, focus: PanelId)
    requires
        ids_increasing(ids),
        ids.contains(focus),
    ensures
        focus_after_prev(ids, focus_after_next(ids, Some(focus))) == Some(focus),
        focus_after_next(ids, focus_after_prev(ids, Some(focus))) == Some(focus),
{
    let i = choose|i: int| 0 <= i < ids.len() && ids[i] == focus;
    lemma_index_of_unique(ids, i);
    let n = ids.len() as int;
    let next = (i + 1) % n;
    if i + 1 < n {
        vstd::arithmetic::div_mod::lemma_small_mod((i + 1) as nat, n as nat);
    } else {
        vstd::arithmetic::div_mod::lemma_mod_self_0(n);
    }
    lemma_index_of_unique(ids, next);
    let prev = if i == 0 { n - 1 } else { i - 1 };
    lemma_index_of_unique(ids, prev);
    if i == 0 {
        vstd::arithmetic::div_mod::lemma_mod_self_0(n);
    } else {
        vstd::arithmetic::div_mod::lemma_small_mod(i as nat, n as nat);
    }
}

/// The id a new panel gets was never used by any panel.
pub proof fn law_new_panel_id_is_fresh<S>(pm: &PanelManager<S>)
    requires
        pm.wf(),
    ensures
        !pm.has_panel(pm.next_panel_id()),
{
    if pm.has_panel(pm.next_panel_id()) {
        let k = choose|k: int| 0 <= k < pm.ids().len() && pm.ids()[k] == pm.next_panel_id();
        assert(pm.ids()[k] < pm.next_panel_id());
    }
}

/// With a single panel, cycling the focus either way lands on that panel.
pub proof fn law_focus_cycle_single_panel(id: PanelId, focus: Option<PanelId>)
    ensures
        focus_after_next(seq![id], focus) == Some(id),
        focus_after_prev(seq![id], focus) == Some(id),
{
    let ids = seq![id];
    let p = focus_position(ids, focus);
    match focus {
        Some(f) => {
            if ids.contains(f) {
                let k = choose|k: int| 0 <= k < ids.len() && ids[k] == f;
                assert(ids[k] == f);
            }
        },
        None => {},
    }
    assert(p == 0);
}

/// After a panel is closed the focus moves to a panel whose process is still
/// starting or running, the first such one, or to none when there is none.
pub proof fn law_close_focuses_first_live_panel(panels: Seq<AgentPanel>)
    ensures
        match first_active(panels) {
            Some(f) => exists|i: int|
                0 <= i < panels.len() && #[trigger] panels[i].id == f && is_active(panels[i].status)
                    && forall|k: int| 0 <= k < i ==> !is_active(#[trigger] panels[k].status),
            None => forall|k: int| 0 <= k < panels.len() ==> !is_active(#[trigger] panels[k].status),
        },
    decreases panels.len(),
{
    if panels.len() > 0 {
        let rest = panels.drop_first();
        law_close_focuses_first_live_panel(rest);
        if is_active(panels[0].status) {
            assert(panels[0].id == panels[0].id);
        } else {
            match first_active(rest) {
                Some(f) => {
                    let i = choose|i: int|
                        0 <= i < rest.len() && #[trigger] rest[i].id == f && is_active(rest[i].status)
                            && forall|k: int| 0 <= k < i ==> !is_active(#[trigger] rest[k].status);
                    assert(panels[i + 1] == rest[i]);
                    assert forall|k: int| 0 <= k < i + 1 implies !is_active(#[trigger] panels[k].status) by {
                        if k > 0 {
                            assert(panels[k] == rest[k - 1]);
                        }
                    }
                },
                None => {
                    assert forall|k: int| 0 <= k < panels.len() implies !is_active(#[trigger] panels[k].status) by {
                        if k > 0 {
                            assert(panels[k] == rest[k - 1]);
                        }
                    }
                },
            }
        }
    }
}

} // verus!
