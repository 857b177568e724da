//! The session controller: the state of one interactive session and every
//! decision it takes on keys, commands and the outcomes of outside work.
//!
//! Outside work (walking the disk, privileged removal, the record store) is
//! not done here: each decision returns an [`Effect`] that names the work, and
//! its outcome comes back through one of the `finish_*` methods.

use vstd::prelude::*;
use crate::popup::{
    popup_step, popup_wf, texts_view, CommandView, Key, PopupCommand, PopupState, PopupView,
};
use crate::scan::scan_roots;
use crate::text::{copy_texts, decimal, decimal_of, has_prefix, parse_u32, strip_prefix_text, text_eq, u32_parse};

verus! {

/// The number of panels that focus cycles over.
pub const PANEL_COUNT: usize = 5;

/// The panel that lists the artifacts.
pub const ARTIFACTS_PANEL: usize = 0;

/// The panel that charts artifact sizes.
pub const CHARTS_PANEL: usize = 2;

/// The panel that shows the settings.
pub const SETTINGS_PANEL: usize = 3;

/// The settings that the session reads and changes.
pub struct Config {
    pub scan_paths: Vec<String>,
    pub excluded_paths: Vec<String>,
    pub retention_days: u32,
    pub database_url: String,
    pub debug_logs_enabled: bool,
}

/// The destructive operation that waits for a credential.
#[derive(Clone, Copy, Debug, PartialEq, Eq, Structural)]
pub enum PendingAction {
    Delete,
    ClearAll,
}

/// Work that the session asks its runner to do.
pub enum Effect {
    Nothing,
    /// Persist the settings.
    SaveConfig,
    /// Walk `roots`, leaving out paths that hold any of `excluded`, and hand
    /// the found paths to [`Session::finish_scan`].
    StartScan { roots: Vec<String>, excluded: Vec<String> },
    /// Persist the settings, then start a scan as `StartScan` does.
    SaveConfigAndScan { roots: Vec<String>, excluded: Vec<String> },
    /// List the subdirectories of `path` and hand them to
    /// [`Session::show_dir`]; when `must_be_dir` and `path` is not a
    /// directory, do so for `from` instead.
    ListDir { path: String, from: String, must_be_dir: bool },
    /// Remove `path` without a credential; report to [`Session::finish_delete`].
    TryDelete { path: String },
    /// Remove `path` with `password`; report to
    /// [`Session::finish_delete_with_password`].
    RetryDelete { path: String, password: String },
    /// Remove each of `paths` without a credential; report the failures to
    /// [`Session::finish_clear_all`].
    TryClearAll { paths: Vec<String> },
    /// Remove each of `paths` with `password`; report the failures to
    /// [`Session::finish_clear_all_with_password`].
    RetryClearAll { paths: Vec<String>, password: String },
    /// Start the build of the project that holds `path`.
    Rebuild { path: String },
    /// Reload history and chart rows and hand them to [`Session::set_history`].
    ReloadHistory,
    /// Drop the store's records of `path`.
    ForgetArtifact { path: String },
    /// Drop every record of the store, then reload the history.
    ForgetAll,
}

/// All state of one session.
pub struct Session {
    pub should_quit: bool,
    pub artifacts: Vec<String>,
    pub scanning: bool,
    pub scanned: bool,
    pub selected: usize,
    pub focused_panel: usize,
    pub build_history: Vec<String>,
    pub total_builds: usize,
    pub chart_data: Vec<(String, u64)>,
    pub chart_selected: usize,
    pub automatic_removal: bool,
    pub config: Config,
    pub popup_state: PopupState,
    pub pending_action: Option<PendingAction>,
    pub pending_failed_paths: Vec<String>,
}

/// A selection index is valid for a list of `len` rows, or 0 when it is empty.
pub open spec fn selection_ok(selected: nat, len: nat) -> bool {
    if len == 0 {
        selected == 0
    } else {
        selected < len
    }
}

/// The selection after the row at `selected` was removed, leaving `len` rows.
pub open spec fn selection_after_removal(selected: nat, len: nat) -> nat {
    if selected >= len && selected > 0 {
        (selected - 1) as nat
    } else {
        selected
    }
}

/// The selection kept when the list is replaced by one of `len` rows.
pub open spec fn selection_clamped(selected: nat, len: nat) -> nat {
    if selected < len {
        selected
    } else if len > 0 {
        (len - 1) as nat
    } else {
        0
    }
}

pub open spec fn credential_title() -> Seq<char> {
    "Enter sudo password"@
}

/// The dialog that asks for a credential.
pub open spec fn credential_prompt() -> PopupView {
    PopupView::Input { title: credential_title(), input: ""@ }
}

pub open spec fn scan_summary(count: nat) -> Seq<char> {
    "Scan complete. Found "@ + decimal_of(count) + " artifacts."@
}

pub open spec fn removal_warning() -> Seq<char> {
    "\u{26a0}\u{fe0f}  AUTOMATIC REMOVAL WILL DELETE OLD ARTIFACTS\n\nPlease verify your build directories in the list above.\nAny directories matching common build paths older than\nretention days will be permanently deleted.\n\nEnable automatic removal? (Enter: Yes, Esc: No)"@
}

/// `xs` without any entry equal to `p`, order kept.
pub open spec fn without_text(xs: Seq<Seq<char>>, p: Seq<char>) -> Seq<Seq<char>>
    decreases xs.len(),
{
    if xs.len() == 0 {
        Seq::empty()
    } else {
        let rest = without_text(xs.drop_last(), p);
        if xs.last() == p {
            rest
        } else {
            rest.push(xs.last())
        }
    }
}

/// The chart rows whose path is one of `artifacts`, order kept.
pub open spec fn chart_rows(rows: Seq<(String, u64)>, artifacts: Seq<Seq<char>>) -> Seq<(String, u64)>
    decreases rows.len(),
{
    if rows.len() == 0 {
        Seq::empty()
    } else {
        let rest = chart_rows(rows.drop_last(), artifacts);
        if artifacts.contains(rows.last().0@) {
            rest.push(rows.last())
        } else {
            rest
        }
    }
}

/// Whether one of `v` reads as `s`.
pub fn texts_contain(v: &Vec<String>, s: &str) -> (r: bool)
    ensures
        r == texts_view(*v).contains(s@),
{
    let mut i: usize = 0;
    while i < v.len()
        invariant
            i <= v.len(),
            forall|j: int| 0 <= j < i ==> #[trigger] texts_view(*v)[j] != s@,
        decreases v.len() - i,
    {
        if text_eq(v[i].as_str(), s) {
            assert(texts_view(*v)[i as int] == s@);
            return true;
        }
        i = i + 1;
    }
    false
}

/// A copy of `v` without the entries that read as `p`, order kept.
pub fn without(v: &Vec<String>, p: &str) -> (r: Vec<String>)
    ensures
        texts_view(r) == without_text(texts_view(*v), p@),
{
    let mut out: Vec<String> = Vec::new();
    let mut i: usize = 0;
    while i < v.len()
        invariant
            i <= v.len(),
            texts_view(out) == without_text(texts_view(*v).subrange(0, i as int), p@),
        decreases v.len() - i,
    {
        proof {
            assert(texts_view(*v).subrange(0, i + 1).drop_last() =~= texts_view(*v).subrange(0, i as int));
        }
        if !text_eq(v[i].as_str(), p) {
            out.push(v[i].clone());
        }
        assert(texts_view(out) =~= without_text(texts_view(*v).subrange(0, i + 1), p@));
        i = i + 1;
    }
    assert(texts_view(*v).subrange(0, v@.len() as int) =~= texts_view(*v));
    out
}

/// The rows of `rows` whose path is one of `artifacts`, order kept.
pub fn rows_for_artifacts(rows: &Vec<(String, u64)>, artifacts: &Vec<String>) -> (r: Vec<(String, u64)>)
    ensures
        r@ == chart_rows(rows@, texts_view(*artifacts)),
{
    let mut out: Vec<(String, u64)> = Vec::new();
    let mut i: usize = 0;
    while i < rows.len()
        invariant
            i <= rows.len(),
            out@ == chart_rows(rows@.subrange(0, i as int), texts_view(*artifacts)),
        decreases rows.len() - i,
    {
        proof {
            assert(rows@.subrange(0, i + 1).drop_last() =~= rows@.subrange(0, i as int));
        }
        if texts_contain(artifacts, rows[i].0.as_str()) {
            let row = (rows[i].0.clone(), rows[i].1);
            out.push(row);
        }
        assert(out@ =~= chart_rows(rows@.subrange(0, i + 1), texts_view(*artifacts)));
        i = i + 1;
    }
    assert(rows@.subrange(0, rows@.len() as int) =~= rows@);
    out
}

/// The text that stands for a database location on screen.
pub fn mask_db_url(url: &str) -> (r: String)
    ensures
        (forall|i: int| 0 <= i < url@.len() ==> url@[i] != '@') ==> r@ == "configured"@,
        forall|at: int|
            0 <= at < url@.len() && url@[at] == '@' && (forall|j: int| 0 <= j < at ==> url@[j] != '@')
                ==> r@ == (if (exists|j: int| 0 <= j < at && url@[j] == ':') {
                "***:***@"@
            } else {
                "***@"@
            }) + url@.subrange(at + 1, url@.len() as int),
{
    let n = url.unicode_len();
    let mut i: usize = 0;
    let mut colon = false;
    while i < n
        invariant
            n == url@.len(),
            i <= n,
            forall|j: int| 0 <= j < i ==> url@[j] != '@',
            colon <==> exists|j: int| 0 <= j < i && url@[j] == ':',
        decreases n - i,
    {
        let c = url.get_char(i);
        if c == '@' {
            let rest = url.substring_char(i + 1, n);
            let mut s = if colon {
                String::from_str("***:***@")
            } else {
                String::from_str("***@")
            };
            s.append(rest);
            proof {
                assert forall|at: int|
                    0 <= at < url@.len() && url@[at] == '@' && (forall|j: int|
                        0 <= j < at ==> url@[j] != '@') implies at == i by {
                    if at < i {
                    } else if at > i {
                        assert(url@[i as int] == '@');
                    }
                }
            }
            return s;
        }
        if c == ':' {
            colon = true;
        }
        i = i + 1;
    }
    String::from_str("configured")
}

impl Session {
    /// The invariant of a session: the selection is valid, focus is on one of
    /// the panels, the dialog is well formed, and a pending action exists only
    /// while the credential prompt is open.
    pub open spec fn wf(&self) -> bool {
        &&& self.core_wf()
        &&& self.pending_action is Some ==> (self.popup_state@ matches PopupView::Input {
            title,
            ..
        } && title == credential_title())
    }

    pub open spec fn core_wf(&self) -> bool {
        &&& selection_ok(self.selected as nat, self.artifacts@.len())
        &&& self.focused_panel < PANEL_COUNT
        &&& popup_wf(self.popup_state@)
    }

    /// Every field but the dialog and the pending action is the same.
    pub open spec fn same_data(&self, o: &Session) -> bool {
        &&& self.should_quit == o.should_quit
        &&& self.artifacts == o.artifacts
        &&& self.scanning == o.scanning
        &&& self.scanned == o.scanned
        &&& self.selected == o.selected
        &&& self.focused_panel == o.focused_panel
        &&& self.build_history == o.build_history
        &&& self.total_builds == o.total_builds
        &&& self.chart_data == o.chart_data
        &&& self.chart_selected == o.chart_selected
        &&& self.automatic_removal == o.automatic_removal
        &&& self.config == o.config
        &&& self.pending_failed_paths == o.pending_failed_paths
    }

    /// A session over the settings and the artifact paths that the store
    /// already knows, before any scan.
    pub fn new(config: Config, artifacts: Vec<String>) -> (r: Session)
        ensures
            r.wf(),
            r.artifacts == artifacts,
            r.config == config,
            !r.should_quit,
            !r.scanning,
            !r.scanned,
            r.selected == 0,
            r.focused_panel == 0,
            r.automatic_removal,
            r.popup_state@ == PopupView::Closed,
            r.pending_action is None,
            r.pending_failed_paths@.len() == 0,
            r.build_history@.len() == 0,
            r.chart_data@.len() == 0,
    {
        Session {
            should_quit: false,
            artifacts,
            scanning: false,
            scanned: false,
            selected: 0,
            focused_panel: 0,
            build_history: Vec::new(),
            total_builds: 0,
            chart_data: Vec::new(),
            chart_selected: 0,
            automatic_removal: true,
            config,
            popup_state: PopupState::Closed,
            pending_action: None,
            pending_failed_paths: Vec::new(),
        }
    }

    /// Whether the loop should start a scan by itself: none has completed
    /// and none is in flight.
    pub fn needs_initial_scan(&self) -> (r: bool)
        ensures
            r == (!self.scanned && !self.scanning),
    {
        !self.scanned && !self.scanning
    }

    /// Starts a scan unless one is in flight: marks the session as
    /// scanning, opens the scanning dialog, and returns the roots and the
    /// excluded texts to walk with. While a scan is in flight nothing changes.
    pub fn trigger_scan(&mut self) -> (r: Option<(Vec<String>, Vec<String>)>)
        requires
            old(self).wf(),
        ensures
            final(self).wf(),
            old(self).scanning ==> r is None && *final(self) == *old(self),
            !old(self).scanning ==> {
                &&& r matches Some((roots, excluded))
                &&& (old(self).config.scan_paths@.len() > 0 ==> roots@
                    == old(self).config.scan_paths@)
                &&& (old(self).config.scan_paths@.len() == 0 ==> texts_view(roots) == seq!["."@])
                &&& excluded@ == old(self).config.excluded_paths@
                &&& final(self).scanning
                &&& final(self).popup_state@ == PopupView::Scanning
                &&& final(self).pending_action is None
                &&& final(self).should_quit == old(self).should_quit
                &&& final(self).artifacts == old(self).artifacts
                &&& final(self).scanned == old(self).scanned
                &&& final(self).selected == old(self).selected
                &&& final(self).focused_panel == old(self).focused_panel
                &&& final(self).build_history == old(self).build_history
                &&& final(self).total_builds == old(self).total_builds
                &&& final(self).chart_data == old(self).chart_data
                &&& final(self).chart_selected == old(self).chart_selected
                &&& final(self).automatic_removal == old(self).automatic_removal
                &&& final(self).config == old(self).config
                &&& final(self).pending_failed_paths == old(self).pending_failed_paths
            },
    {
        if self.scanning {
            return None;
        }
        self.scanning = true;
        self.popup_state = PopupState::Scanning;
        self.pending_action = None;
        let roots = scan_roots(&self.config.scan_paths);
        let excluded = copy_texts(&self.config.excluded_paths);
        Some((roots, excluded))
    }

    /// Takes in the paths that a completed scan found: they replace the
    /// artifact list, the scan is over, and a dialog reports the count.
    /// Returns the retention threshold in days when automatic removal is on,
    /// for the runner to start the cleanup.
    pub fn finish_scan(&mut self, found: Vec<String>) -> (r: Option<u32>)
        requires
            old(self).core_wf(),
        ensures
            final(self).wf(),
            final(self).artifacts == found,
            !final(self).scanning,
            final(self).scanned,
            final(self).selected as nat == selection_clamped(
                old(self).selected as nat,
                found@.len(),
            ),
            final(self).popup_state@ == (PopupView::Info {
                message: scan_summary(found@.len()),
            }),
            final(self).pending_action is None,
            r == (if old(self).automatic_removal {
                Some(old(self).config.retention_days)
            } else {
                None
            }),
            final(self).config == old(self).config,
            final(self).automatic_removal == old(self).automatic_removal,
            final(self).should_quit == old(self).should_quit,
            final(self).focused_panel == old(self).focused_panel,
            final(self).pending_failed_paths == old(self).pending_failed_paths,
    {
        let n = found.len();
        self.artifacts = found;
        self.scanning = false;
        self.scanned = true;
        if self.selected >= n {
            self.selected = if n > 0 { n - 1 } else { 0 };
        }
        let mut message = String::from_str("Scan complete. Found ");
        let d = decimal(n);
        message.append(d.as_str());
        message.append(" artifacts.");
        self.popup_state = PopupState::Info { message };
        self.pending_action = None;
        if self.automatic_removal {
            Some(self.config.retention_days)
        } else {
            None
        }
    }

    /// Removes the selected artifact from the list and keeps the selection
    /// in range.
    fn remove_selected(&mut self)
        requires
            old(self).core_wf(),
            old(self).artifacts@.len() > 0,
        ensures
            final(self).core_wf(),
            final(self).artifacts@ == old(self).artifacts@.remove(old(self).selected as int),
            final(self).selected as nat == selection_after_removal(
                old(self).selected as nat,
                final(self).artifacts@.len(),
            ),
            final(self).popup_state == old(self).popup_state,
            final(self).pending_action == old(self).pending_action,
            final(self).config == old(self).config,
            final(self).scanning == old(self).scanning,
            final(self).scanned == old(self).scanned,
            final(self).should_quit == old(self).should_quit,
            final(self).focused_panel == old(self).focused_panel,
            final(self).automatic_removal == old(self).automatic_removal,
            final(self).pending_failed_paths == old(self).pending_failed_paths,
            final(self).chart_selected == old(self).chart_selected,
    {
        let i = self.selected;
        self.artifacts.remove(i);
        if self.selected >= self.artifacts.len() && self.selected > 0 {
            self.selected = self.selected - 1;
        }
    }

    fn open_credential_prompt(&mut self, action: PendingAction)
        ensures
            final(self).same_data(old(self)),
            final(self).popup_state@ == credential_prompt(),
            final(self).pending_action == Some(action),
    {
        let empty = String::new();
        proof {
            reveal_strlit("");
        }
        assert(empty@ == ""@);
        self.popup_state = PopupState::new_input(String::from_str("Enter sudo password"), empty);
        self.pending_action = Some(action);
    }

    /// Takes in the outcome of removing the selected artifact without a
    /// credential. On success it leaves the list and the store is told to
    /// forget it; on failure the credential prompt opens for it.
    pub fn finish_delete(&mut self, ok: bool) -> (r: Effect)
        requires
            old(self).wf(),
        ensures
            final(self).wf(),
            old(self).artifacts@.len() == 0 ==> *final(self) == *old(self) && r == Effect::Nothing,
            old(self).artifacts@.len() > 0 && ok ==> {
                &&& final(self).artifacts@ == old(self).artifacts@.remove(old(self).selected as int)
                &&& final(self).selected as nat == selection_after_removal(
                    old(self).selected as nat,
                    final(self).artifacts@.len(),
                )
                &&& final(self).popup_state@ == (PopupView::Info { message: "Artifact deleted."@ })
                &&& final(self).pending_action is None
                &&& r matches Effect::ForgetArtifact { path } && path == old(
                    self,
                ).artifacts@[old(self).selected as int]
            },
            old(self).artifacts@.len() > 0 && !ok ==> {
                &&& final(self).same_data(old(self))
                &&& final(self).popup_state@ == credential_prompt()
                &&& final(self).pending_action == Some(PendingAction::Delete)
                &&& r == Effect::Nothing
            },
            final(self).config == old(self).config,
            final(self).scanning == old(self).scanning,
            final(self).scanned == old(self).scanned,
            final(self).pending_failed_paths == old(self).pending_failed_paths,
    {
        if self.artifacts.len() == 0 {
            return Effect::Nothing;
        }
        if ok {
            let path = self.artifacts[self.selected].clone();
            self.remove_selected();
            self.popup_state = PopupState::Info { message: String::from_str("Artifact deleted.") };
            self.pending_action = None;
            Effect::ForgetArtifact { path }
        } else {
            self.open_credential_prompt(PendingAction::Delete);
            Effect::Nothing
        }
    }

    /// Takes in the outcome of removing the selected artifact with a
    /// credential. On failure the artifact stays in the list.
    pub fn finish_delete_with_password(&mut self, ok: bool) -> (r: Effect)
        requires
            old(self).core_wf(),
        ensures
            final(self).wf(),
            final(self).pending_action is None,
            ok && old(self).artifacts@.len() > 0 ==> {
                &&& final(self).artifacts@ == old(self).artifacts@.remove(old(self).selected as int)
                &&& final(self).selected as nat == selection_after_removal(
                    old(self).selected as nat,
                    final(self).artifacts@.len(),
                )
                &&& final(self).popup_state@ == (PopupView::Info {
                    message: "Artifact deleted successfully."@,
                })
                &&& r matches Effect::ForgetArtifact { path } && path == old(
                    self,
                ).artifacts@[old(self).selected as int]
            },
            !(ok && old(self).artifacts@.len() > 0) ==> {
                &&& final(self).same_data(old(self))
                &&& final(self).popup_state@ == (PopupView::Info {
                    message: "Deletion failed - please check permissions or try again."@,
                })
                &&& r == Effect::Nothing
            },
            final(self).config == old(self).config,
            final(self).scanning == old(self).scanning,
            final(self).scanned == old(self).scanned,
            final(self).pending_failed_paths == old(self).pending_failed_paths,
    {
        self.pending_action = None;
        if ok && self.artifacts.len() > 0 {
            let path = self.artifacts[self.selected].clone();
            self.remove_selected();
            self.popup_state = PopupState::Info {
                message: String::from_str("Artifact deleted successfully."),
            };
            Effect::ForgetArtifact { path }
        } else {
            self.popup_state = PopupState::Info {
                message: String::from_str(
                    "Deletion failed - please check permissions or try again.",
                ),
            };
            Effect::Nothing
        }
    }

    /// Starts clearing every artifact: forgets the failures of any earlier
    /// batch and asks for a removal of each listed path.
    pub fn clear_all_builds(&mut self) -> (r: Effect)
        ensures
            r matches Effect::TryClearAll { paths } && paths@ == old(self).artifacts@,
            final(self).pending_failed_paths@.len() == 0,
            final(self).artifacts == old(self).artifacts,
            final(self).selected == old(self).selected,
            final(self).popup_state == old(self).popup_state,
            final(self).pending_action == old(self).pending_action,
            final(self).config == old(self).config,
            final(self).scanning == old(self).scanning,
            final(self).scanned == old(self).scanned,
            final(self).focused_panel == old(self).focused_panel,
            final(self).should_quit == old(self).should_quit,
            final(self).automatic_removal == old(self).automatic_removal,
            final(self).chart_selected == old(self).chart_selected,
    {
        self.pending_failed_paths = Vec::new();
        let paths = copy_texts(&self.artifacts);
        Effect::TryClearAll { paths }
    }

    /// Takes in the paths whose removal without a credential failed in a
    /// batch. With none, the session is cleared and so is the store; else
    /// the failures are kept for a retry and the credential prompt opens.
    pub fn finish_clear_all(&mut self, failed: Vec<String>) -> (r: Effect)
        requires
            old(self).core_wf(),
        ensures
            final(self).wf(),
            failed@.len() == 0 ==> {
                &&& final(self).artifacts@.len() == 0
                &&& final(self).selected == 0
                &&& final(self).popup_state@ == (PopupView::Info { message: "All builds cleared."@ })
                &&& final(self).pending_action is None
                &&& final(self).pending_failed_paths == old(self).pending_failed_paths
                &&& r == Effect::ForgetAll
            },
            failed@.len() > 0 ==> {
                &&& final(self).artifacts == old(self).artifacts
                &&& final(self).selected == old(self).selected
                &&& final(self).popup_state@ == credential_prompt()
                &&& final(self).pending_action == Some(PendingAction::ClearAll)
                &&& final(self).pending_failed_paths == failed
                &&& r == Effect::Nothing
            },
            final(self).config == old(self).config,
            final(self).scanning == old(self).scanning,
            final(self).scanned == old(self).scanned,
    {
        if failed.len() == 0 {
            self.artifacts = Vec::new();
            self.selected = 0;
            self.popup_state = PopupState::Info { message: String::from_str("All builds cleared.") };
            self.pending_action = None;
            Effect::ForgetAll
        } else {
            self.pending_failed_paths = failed;
            self.open_credential_prompt(PendingAction::ClearAll);
            Effect::Nothing
        }
    }

    /// Takes in the paths that still failed when the batch's failures were
    /// retried with a credential. With none, the session is cleared and so
    /// is the store; else they stay for a later retry.
    pub fn finish_clear_all_with_password(&mut self, still_failed: Vec<String>) -> (r: Effect)
        requires
            old(self).core_wf(),
        ensures
            final(self).wf(),
            final(self).pending_action is None,
            final(self).pending_failed_paths == still_failed,
            still_failed@.len() == 0 ==> {
                &&& final(self).artifacts@.len() == 0
                &&& final(self).selected == 0
                &&& final(self).popup_state@ == (PopupView::Info {
                    message: "All builds cleared successfully."@,
                })
                &&& r == Effect::ForgetAll
            },
            still_failed@.len() > 0 ==> {
                &&& final(self).artifacts == old(self).artifacts
                &&& final(self).selected == old(self).selected
                &&& final(self).popup_state@ == (PopupView::Info {
                    message: "Some deletions failed - please check permissions."@,
                })
                &&& r == Effect::Nothing
            },
            final(self).config == old(self).config,
            final(self).scanning == old(self).scanning,
            final(self).scanned == old(self).scanned,
    {
        self.pending_action = None;
        if still_failed.len() == 0 {
            self.artifacts = Vec::new();
            self.selected = 0;
            self.pending_failed_paths = still_failed;
            self.popup_state = PopupState::Info {
                message: String::from_str("All builds cleared successfully."),
            };
            Effect::ForgetAll
        } else {
            self.pending_failed_paths = still_failed;
            self.popup_state = PopupState::Info {
                message: String::from_str("Some deletions failed - please check permissions."),
            };
            Effect::Nothing
        }
    }

    /// The artifact whose project a rebuild is for: the selected one.
    pub fn rebuild_target(&self) -> (r: Option<String>)
        requires
            self.core_wf(),
        ensures
            self.artifacts@.len() == 0 ==> r is None,
            self.artifacts@.len() > 0 ==> r == Some(self.artifacts@[self.selected as int]),
    {
        if self.artifacts.len() == 0 {
            None
        } else {
            Some(self.artifacts[self.selected].clone())
        }
    }

    /// Shows the listing of a directory: an open browser moves there, and
    /// with no dialog open a browser opens there. Any other dialog stays.
    pub fn show_dir(&mut self, path: String, items: Vec<String>)
        requires
            old(self).wf(),
        ensures
            final(self).wf(),
            final(self).same_data(old(self)),
            final(self).pending_action == old(self).pending_action,
            (old(self).popup_state@ is DirBrowse || old(self).popup_state@ is Closed)
                ==> final(self).popup_state@ == (PopupView::DirBrowse {
                path: path@,
                items: texts_view(items),
                selected: 0,
            }),
            !(old(self).popup_state@ is DirBrowse || old(self).popup_state@ is Closed)
                ==> final(self).popup_state@ == old(self).popup_state@,
    {
        if self.popup_state.is_closed() {
            self.popup_state = PopupState::new_dir_browse(path, items);
        } else {
            self.popup_state.enter_dir(path, items);
        }
    }

    /// Takes in a reloaded history: its lines, the count of build events, and
    /// the largest recorded size per path, of which the chart keeps the rows
    /// of listed artifacts.
    pub fn set_history(&mut self, history: Vec<String>, total: usize, sizes: Vec<(String, u64)>)
        ensures
            final(self).build_history == history,
            final(self).total_builds == total,
            final(self).chart_data@ == chart_rows(sizes@, texts_view(old(self).artifacts)),
            final(self).artifacts == old(self).artifacts,
            final(self).selected == old(self).selected,
            final(self).popup_state == old(self).popup_state,
            final(self).pending_action == old(self).pending_action,
            final(self).pending_failed_paths == old(self).pending_failed_paths,
            final(self).config == old(self).config,
            final(self).scanning == old(self).scanning,
            final(self).scanned == old(self).scanned,
            final(self).focused_panel == old(self).focused_panel,
            final(self).should_quit == old(self).should_quit,
            final(self).automatic_removal == old(self).automatic_removal,
            final(self).chart_selected == old(self).chart_selected,
    {
        self.build_history = history;
        self.total_builds = total;
        self.chart_data = rows_for_artifacts(&sizes, &self.artifacts);
    }

    /// What applying the value `value` under `key` does, from `o` to `n`,
    /// with the dialog `mid` open before.
    pub open spec fn set_value_post(o: Session, n: Session, mid: PopupView, key: Seq<char>, value: Seq<char>, r: Effect) -> bool {
        &&& (n.pending_action is None)
        &&& (n.popup_state@ == mid)
        &&& (n.artifacts == o.artifacts)
        &&& (n.selected == o.selected)
        &&& (n.scanning == o.scanning)
        &&& (n.scanned == o.scanned)
        &&& (n.should_quit == o.should_quit)
        &&& (n.focused_panel == o.focused_panel)
        &&& (n.automatic_removal == o.automatic_removal)
        &&& (n.config.excluded_paths == o.config.excluded_paths)
        &&& (key == "Retention Days"@ ==> {
            &&& r == Effect::SaveConfig
            &&& n.config.retention_days == match u32_parse(value) {
            Some(d) => d,
            None => o.config.retention_days,
            }
            &&& n.config.scan_paths == o.config.scan_paths
            &&& n.pending_failed_paths == o.pending_failed_paths
            })
        &&& (key == "Scan Path"@ ==> {
            &&& r == Effect::SaveConfig
            &&& texts_view(n.config.scan_paths) == seq![value]
            &&& n.config.retention_days == o.config.retention_days
            &&& n.pending_failed_paths == o.pending_failed_paths
            })
        &&& (key == credential_title() ==> {
            &&& n.config == o.config
            &&& (o.pending_action == Some(PendingAction::Delete) && o.artifacts@.len() > 0 ==> (r
            matches Effect::RetryDelete { path, password } && path == o.artifacts@[o.selected as int] && password@ == value
            && n.pending_failed_paths == o.pending_failed_paths))
            &&& (o.pending_action == Some(PendingAction::ClearAll) ==> (r matches Effect::RetryClearAll {
            paths,
            password,
            } && paths == o.pending_failed_paths && password@ == value
            && n.pending_failed_paths@.len() == 0))
            &&& (o.pending_action is None || (o.pending_action == Some(PendingAction::Delete)
            && o.artifacts@.len() == 0) ==> r == Effect::Nothing
            && n.pending_failed_paths == o.pending_failed_paths)
            })
        &&& (key != "Retention Days"@ && key != "Scan Path"@ && key != credential_title() ==> r
            == Effect::SaveConfig && n.config == o.config
            && n.pending_failed_paths == o.pending_failed_paths)
        &&& (n.config.database_url == o.config.database_url)
        &&& (n.config.debug_logs_enabled == o.config.debug_logs_enabled)
        &&& (n.chart_selected == o.chart_selected)
    }

    /// Applies a submitted value: a retention threshold (kept only when it
    /// reads as a number), a scan root, or the credential for the pending
    /// action, which it hands on for the retry.
    pub fn set_value(&mut self, key: String, value: String) -> (r: Effect)
        requires
            old(self).core_wf(),
        ensures
            final(self).wf(),
            Session::set_value_post(*old(self), *final(self), old(self).popup_state@, key@, value@, r),
    {
        proof {
            reveal_strlit("Retention Days");
            reveal_strlit("Scan Path");
            reveal_strlit("Enter sudo password");
            assert("Retention Days"@.len() == 14);
            assert("Scan Path"@.len() == 9);
            assert("Enter sudo password"@.len() == 19);
        }
        let pending = self.pending_action;
        self.pending_action = None;
        if text_eq(key.as_str(), "Retention Days") {
            match parse_u32(value.as_str()) {
                Some(d) => {
                    self.config.retention_days = d;
                },
                None => {},
            }
            Effect::SaveConfig
        } else if text_eq(key.as_str(), "Scan Path") {
            let ghost v = value@;
            let mut paths: Vec<String> = Vec::new();
            paths.push(value);
            assert(texts_view(paths) =~= seq![v]);
            self.config.scan_paths = paths;
            Effect::SaveConfig
        } else if text_eq(key.as_str(), "Enter sudo password") {
            match pending {
                Some(PendingAction::Delete) => {
                    if self.artifacts.len() > 0 {
                        let path = self.artifacts[self.selected].clone();
                        Effect::RetryDelete { path, password: value }
                    } else {
                        Effect::Nothing
                    }
                },
                Some(PendingAction::ClearAll) => {
                    let mut paths: Vec<String> = Vec::new();
                    std::mem::swap(&mut paths, &mut self.pending_failed_paths);
                    assert(paths == old(self).pending_failed_paths);
                    assert(self.pending_failed_paths@.len() == 0);
                    Effect::RetryClearAll { paths, password: value }
                },
                None => Effect::Nothing,
            }
        } else {
            Effect::SaveConfig
        }
    }

    /// What carrying out the confirmed `action` does, from `o` to `n`, with
    /// the dialog `mid` open before.
    pub open spec fn confirm_post(o: Session, n: Session, mid: PopupView, action: Seq<char>, r: Effect) -> bool {
        &&& (n.pending_action is None)
        &&& (o.scanning ==> n.scanning)
        &&& (n.scanned == o.scanned)
        &&& (n.should_quit == o.should_quit)
        &&& (n.focused_panel == o.focused_panel)
        &&& (n.pending_failed_paths == o.pending_failed_paths)
        &&& (has_prefix(action, "remove_excluded:"@) ==> {
            &&& texts_view(n.config.excluded_paths) == without_text(
            texts_view(o.config.excluded_paths),
            action.subrange(16, action.len() as int),
            )
            &&& n.config.scan_paths == o.config.scan_paths
            &&& n.config.retention_days == o.config.retention_days
            &&& n.artifacts == o.artifacts
            &&& n.selected == o.selected
            &&& n.automatic_removal == o.automatic_removal
            &&& (o.scanning ==> r == Effect::SaveConfig && n.popup_state@
            == (PopupView::Info {
            message: "Removed from exclusion list. Rescanning..."@,
            }))
            &&& (!o.scanning ==> n.scanning && n.popup_state@
            == PopupView::Scanning && (r matches Effect::SaveConfigAndScan {
            excluded,
            ..
            } && excluded@ == n.config.excluded_paths@))
            })
        &&& (!has_prefix(action, "remove_excluded:"@) ==> n.scanning == o.scanning)
        &&& (!has_prefix(action, "remove_excluded:"@) && action == "delete"@ ==> {
            &&& n.same_data(&o)
            &&& n.popup_state@ == (PopupView::Progress {
            message: "Deleting artifact..."@,
            })
            &&& (o.artifacts@.len() > 0 ==> (r matches Effect::TryDelete { path }
            && path == o.artifacts@[o.selected as int]))
            &&& (o.artifacts@.len() == 0 ==> r == Effect::Nothing)
            })
        &&& (!has_prefix(action, "remove_excluded:"@) && action == "rebuild"@ ==> {
            &&& n.same_data(&o)
            &&& n.popup_state@ == (PopupView::Progress {
            message: "Rebuilding project..."@,
            })
            &&& (o.artifacts@.len() > 0 ==> (r matches Effect::Rebuild { path }
            && path == o.artifacts@[o.selected as int]))
            &&& (o.artifacts@.len() == 0 ==> r == Effect::Nothing)
            })
        &&& (!has_prefix(action, "remove_excluded:"@) && action == "exclude"@ ==> {
            &&& (o.artifacts@.len() > 0 ==> {
            &&& n.config.excluded_paths@ == o.config.excluded_paths@.push(o.artifacts@[o.selected as int])
            &&& n.config.scan_paths == o.config.scan_paths
            &&& n.config.retention_days == o.config.retention_days
            &&& n.artifacts@ == o.artifacts@.remove(
            o.selected as int,
            )
            &&& n.selected as nat == selection_after_removal(
            o.selected as nat,
            n.artifacts@.len(),
            )
            &&& n.popup_state@ == (PopupView::Info {
            message: "Path added to exclusion list."@,
            })
            &&& r == Effect::SaveConfig
            })
            &&& (o.artifacts@.len() == 0 ==> n.same_data(&o)
            && n.popup_state@ == mid && r == Effect::Nothing)
            })
        &&& (!has_prefix(action, "remove_excluded:"@) && action == "enable_automatic_removal"@ ==> {
            &&& n.automatic_removal
            &&& n.artifacts == o.artifacts
            &&& n.selected == o.selected
            &&& n.config == o.config
            &&& n.popup_state@ == (PopupView::Info {
            message: "Automatic removal enabled. Old artifacts will be cleaned up after scans."@,
            })
            &&& r == Effect::Nothing
            })
        &&& (!has_prefix(action, "remove_excluded:"@) && action != "delete"@ && action
            != "rebuild"@ && action != "exclude"@ && action != "enable_automatic_removal"@
            ==> n.same_data(&o) && n.popup_state@ == mid && r == Effect::Nothing)
        &&& (n.config.database_url == o.config.database_url)
        &&& (n.config.debug_logs_enabled == o.config.debug_logs_enabled)
        &&& (n.chart_selected == o.chart_selected)
    }

    /// Carries out a confirmed action: taking a path off the exclusion list
    /// (and rescanning), deleting or rebuilding the selected artifact,
    /// excluding it, or turning automatic removal on.
    pub fn confirm_action(&mut self, action: String) -> (r: Effect)
        requires
            old(self).core_wf(),
            old(self).pending_action is None,
        ensures
            final(self).wf(),
            Session::confirm_post(*old(self), *final(self), old(self).popup_state@, action@, r),
    {
        proof {
            reveal_strlit("remove_excluded:");
            reveal_strlit("delete");
            reveal_strlit("rebuild");
            reveal_strlit("exclude");
            reveal_strlit("enable_automatic_removal");
            assert("remove_excluded:"@.len() == 16);
            assert("delete"@.len() == 6);
            assert("rebuild"@.len() == 7);
            assert("exclude"@.len() == 7);
            assert("rebuild"@[0] == 'r');
            assert("exclude"@[0] == 'e');
            assert("enable_automatic_removal"@.len() == 24);
        }
        match strip_prefix_text(action.as_str(), "remove_excluded:") {
            Some(p) => {
                let kept = without(&self.config.excluded_paths, p.as_str());
                self.config.excluded_paths = kept;
                self.popup_state = PopupState::Info {
                    message: String::from_str("Removed from exclusion list. Rescanning..."),
                };
                if self.scanning {
                    Effect::SaveConfig
                } else {
                    match self.trigger_scan() {
                        Some((roots, excluded)) => Effect::SaveConfigAndScan { roots, excluded },
                        None => Effect::SaveConfig,
                    }
                }
            },
            None => {
                if text_eq(action.as_str(), "delete") {
                    self.popup_state = PopupState::new_progress(String::from_str("Deleting artifact..."));
                    if self.artifacts.len() > 0 {
                        let path = self.artifacts[self.selected].clone();
                        Effect::TryDelete { path }
                    } else {
                        Effect::Nothing
                    }
                } else if text_eq(action.as_str(), "rebuild") {
                    let target = self.rebuild_target();
                    self.popup_state = PopupState::new_progress(String::from_str("Rebuilding project..."));
                    match target {
                        Some(path) => Effect::Rebuild { path },
                        None => Effect::Nothing,
                    }
                } else if text_eq(action.as_str(), "exclude") {
                    if self.artifacts.len() > 0 {
                        let path = self.artifacts[self.selected].clone();
                        self.config.excluded_paths.push(path);
                        self.remove_selected();
                        self.popup_state = PopupState::Info {
                            message: String::from_str("Path added to exclusion list."),
                        };
                        Effect::SaveConfig
                    } else {
                        Effect::Nothing
                    }
                } else if text_eq(action.as_str(), "enable_automatic_removal") {
                    self.automatic_removal = true;
                    self.popup_state = PopupState::Info {
                        message: String::from_str(
                            "Automatic removal enabled. Old artifacts will be cleaned up after scans.",
                        ),
                    };
                    Effect::Nothing
                } else {
                    Effect::Nothing
                }
            },
        }
    }

    /// The artifact list is the same, or lost the row that was selected.
    pub open spec fn kept_or_removed_selected(&self, o: &Session) -> bool {
        ||| self.artifacts == o.artifacts
        ||| o.artifacts@.len() > 0 && self.artifacts@ == o.artifacts@.remove(o.selected as int)
    }

    /// A scan starts only from a state where none is in flight, it opens the
    /// scanning dialog and its work is handed out; one in flight stays so.
    pub open spec fn scan_flag_kept(&self, o: &Session, r: Effect) -> bool {
        &&& o.scanning ==> self.scanning
        &&& !o.scanning && self.scanning ==> self.popup_state@ == PopupView::Scanning && (
        r is StartScan || r is SaveConfigAndScan)
    }

    /// What carrying out the command `c` does, from `o` to `n`, with the
    /// dialog `mid` open before.
    pub open spec fn command_post(o: Session, n: Session, mid: PopupView, c: CommandView, r: Effect) -> bool {
        match c {
            CommandView::SetValue { key, value } => Session::set_value_post(o, n, mid, key, value, r),
            CommandView::ConfirmAction { action } => Session::confirm_post(o, n, mid, action, r),
            CommandView::OpenInput { title, initial } => {
                &&& n.same_data(&o)
                &&& n.popup_state@ == (PopupView::Input {
                    title,
                    input: if title == "Retention Days"@ {
                        decimal_of(o.config.retention_days as nat)
                    } else {
                        initial
                    },
                })
                &&& r == Effect::Nothing
            },
            CommandView::OpenDirBrowse => {
                &&& n.same_data(&o)
                &&& n.popup_state@ == mid
                &&& r matches Effect::ListDir { path, from, must_be_dir } && path@ == "/"@ && from@
                    == "/"@ && !must_be_dir
            },
            CommandView::ToggleRemoval => if !o.automatic_removal {
                &&& n.same_data(&o)
                &&& n.popup_state@ == (PopupView::ConfirmAction {
                    message: removal_warning(),
                    action: "enable_automatic_removal"@,
                })
                &&& r == Effect::Nothing
            } else {
                &&& !n.automatic_removal
                &&& n.artifacts == o.artifacts
                &&& n.selected == o.selected
                &&& n.config == o.config
                &&& n.popup_state@ == mid
                &&& r == Effect::Nothing
            },
            CommandView::DeleteArtifact => {
                &&& n.same_data(&o)
                &&& n.popup_state@ == (PopupView::ConfirmAction {
                    message: "Delete this artifact?"@,
                    action: "delete"@,
                })
                &&& r == Effect::Nothing
            },
            CommandView::RebuildArtifact => {
                &&& n.same_data(&o)
                &&& n.popup_state@ == (PopupView::ConfirmAction {
                    message: "Rebuild this project?"@,
                    action: "rebuild"@,
                })
                &&& r == Effect::Nothing
            },
            CommandView::ClearAllBuilds => {
                &&& r matches Effect::TryClearAll { paths } && paths@ == o.artifacts@
                &&& n.pending_failed_paths@.len() == 0
                &&& n.artifacts == o.artifacts
                &&& n.selected == o.selected
                &&& n.config == o.config
                &&& n.popup_state@ == mid
            },
            CommandView::OpenExcludedPaths => {
                &&& n.same_data(&o)
                &&& n.popup_state@ == (PopupView::ExcludedPathsList {
                    paths: texts_view(o.config.excluded_paths),
                    selected: 0,
                })
                &&& r == Effect::Nothing
            },
            CommandView::BrowseTo { path, from, must_be_dir } => {
                &&& n.same_data(&o)
                &&& n.popup_state@ == mid
                &&& r matches Effect::ListDir { path: p, from: f, must_be_dir: m } && p@ == path
                    && f@ == from && m == must_be_dir
            },
        }
    }

    /// Carries out a command that a dialog resolved into.
    pub fn apply_command(&mut self, cmd: PopupCommand) -> (r: Effect)
        requires
            old(self).core_wf(),
        ensures
            final(self).wf(),
            final(self).pending_action is None,
            final(self).scan_flag_kept(old(self), r),
            final(self).kept_or_removed_selected(old(self)),
            final(self).scanned == old(self).scanned,
            final(self).should_quit == old(self).should_quit,
            final(self).focused_panel == old(self).focused_panel,
            final(self).chart_selected == old(self).chart_selected,
            Session::command_post(*old(self), *final(self), old(self).popup_state@, cmd@, r),
    {
        match cmd {
            PopupCommand::SetValue { key, value } => self.set_value(key, value),
            _ => {
                self.pending_action = None;
                self.apply_other_command(cmd)
            },
        }
    }

    fn apply_other_command(&mut self, cmd: PopupCommand) -> (r: Effect)
        requires
            old(self).core_wf(),
            old(self).pending_action is None,
            !(cmd@ is SetValue),
        ensures
            final(self).wf(),
            final(self).pending_action is None,
            final(self).scan_flag_kept(old(self), r),
            final(self).kept_or_removed_selected(old(self)),
            final(self).scanned == old(self).scanned,
            final(self).should_quit == old(self).should_quit,
            final(self).focused_panel == old(self).focused_panel,
            final(self).chart_selected == old(self).chart_selected,
            Session::command_post(*old(self), *final(self), old(self).popup_state@, cmd@, r),
    {
        proof {
            reveal_strlit("Retention Days");
        }
        match cmd {
            PopupCommand::OpenInput { title, initial } => {
                let init = if text_eq(title.as_str(), "Retention Days") {
                    decimal(self.config.retention_days as usize)
                } else {
                    initial
                };
                self.popup_state = PopupState::new_input(title, init);
                Effect::Nothing
            },
            PopupCommand::OpenDirBrowse => Effect::ListDir {
                path: String::from_str("/"),
                from: String::from_str("/"),
                must_be_dir: false,
            },
            PopupCommand::ToggleRemoval => {
                if !self.automatic_removal {
                    self.popup_state = PopupState::ConfirmAction {
                        message: String::from_str(
                            "\u{26a0}\u{fe0f}  AUTOMATIC REMOVAL WILL DELETE OLD ARTIFACTS\n\nPlease verify your build directories in the list above.\nAny directories matching common build paths older than\nretention days will be permanently deleted.\n\nEnable automatic removal? (Enter: Yes, Esc: No)",
                        ),
                        action: String::from_str("enable_automatic_removal"),
                    };
                } else {
                    self.automatic_removal = false;
                }
                Effect::Nothing
            },
            PopupCommand::SetValue { .. } => Effect::Nothing,
            PopupCommand::DeleteArtifact => {
                self.popup_state = PopupState::new_confirm_action(
                    String::from_str("Delete this artifact?"),
                    String::from_str("delete"),
                );
                Effect::Nothing
            },
            PopupCommand::RebuildArtifact => {
                self.popup_state = PopupState::new_confirm_action(
                    String::from_str("Rebuild this project?"),
                    String::from_str("rebuild"),
                );
                Effect::Nothing
            },
            PopupCommand::ClearAllBuilds => self.clear_all_builds(),
            PopupCommand::ConfirmAction { action } => self.confirm_action(action),
            PopupCommand::OpenExcludedPaths => {
                let paths = copy_texts(&self.config.excluded_paths);
                self.popup_state = PopupState::new_excluded_paths(paths);
                Effect::Nothing
            },
            PopupCommand::BrowseTo { path, from, must_be_dir } => Effect::ListDir {
                path,
                from,
                must_be_dir,
            },
        }
    }

    /// What the main keybindings do with `key`, from `o` to `n`, handing out `r`.
    pub open spec fn main_key_post(o: Session, n: Session, key: Key, r: Effect) -> bool {
        &&& key == Key::Char('q') ==> n.should_quit
        &&& key != Key::Char('q') ==> n.should_quit == o.should_quit
        &&& key == Key::Char('D') ==> n.same_data(&o) && n.popup_state@
            == PopupView::ClearAllConfirmation && r == Effect::Nothing
        &&& key == Key::Enter ==> n.same_data(&o) && r == Effect::Nothing && if o.focused_panel
            == ARTIFACTS_PANEL {
            n.popup_state@ == (PopupView::ArtifactActions { selected: 0 })
        } else if o.focused_panel == SETTINGS_PANEL {
            n.popup_state@ == (PopupView::SettingsList { selected: 0 })
        } else {
            n.popup_state@ == PopupView::Closed
        }
        &&& key == Key::Tab ==> n.focused_panel == (o.focused_panel + 1) % PANEL_COUNT as int
            && n.selected == o.selected && n.popup_state@ == PopupView::Closed && r
            == Effect::Nothing
        &&& key == Key::Char('s') && o.scanning ==> n.same_data(&o) && n.popup_state@
            == PopupView::Closed && r == Effect::Nothing
        &&& key == Key::Char('s') && !o.scanning ==> n.scanning && n.popup_state@
            == PopupView::Scanning && (r matches Effect::StartScan { excluded, .. }
            && excluded@ == o.config.excluded_paths@)
        &&& key == Key::Char('d') ==> n.same_data(&o) && n.popup_state@ == (PopupView::ConfirmAction {
            message: "Delete this artifact?"@,
            action: "delete"@,
        }) && r == Effect::Nothing
        &&& (key == Key::Char('x') || key == Key::Char('X')) ==> n.same_data(&o) && r
            == Effect::Nothing && if o.focused_panel == ARTIFACTS_PANEL && o.artifacts@.len() > 0 {
            n.popup_state@ == (PopupView::ConfirmAction {
                message: "Exclude this path from scanning?"@,
                action: "exclude"@,
            })
        } else {
            n.popup_state@ == PopupView::Closed
        }
        &&& key == Key::Char('r') ==> n.same_data(&o) && n.popup_state@ == PopupView::Closed && (
        o.artifacts@.len() > 0 ==> (r matches Effect::Rebuild { path } && path
            == o.artifacts@[o.selected as int])) && (o.artifacts@.len() == 0 ==> r
            == Effect::Nothing)
        &&& key == Key::Char('h') ==> n.same_data(&o) && n.popup_state@ == PopupView::Closed && r
            == Effect::ReloadHistory
        &&& key == Key::Char('e') ==> n.same_data(&o) && n.popup_state@ == (PopupView::SettingsList {
            selected: 0,
        }) && r == Effect::Nothing
        &&& key == Key::Char('l') ==> n.same_data(&o) && n.popup_state@ == PopupView::Logs && r
            == Effect::Nothing
        &&& (key == Key::Up || key == Key::PageUp) ==> n.popup_state@ == PopupView::Closed && r
            == Effect::Nothing && n.focused_panel == o.focused_panel && if o.focused_panel
            == ARTIFACTS_PANEL && o.selected > 0 {
            n.selected == o.selected - 1 && n.chart_selected == o.chart_selected
        } else if o.focused_panel == CHARTS_PANEL && o.chart_selected > 0 {
            n.selected == o.selected && n.chart_selected == o.chart_selected - 1
        } else {
            n.selected == o.selected && n.chart_selected == o.chart_selected
        }
        &&& (key == Key::Down || key == Key::PageDown) ==> n.popup_state@ == PopupView::Closed && r
            == Effect::Nothing && n.focused_panel == o.focused_panel && if o.focused_panel
            == ARTIFACTS_PANEL && o.selected + 1 < o.artifacts@.len() {
            n.selected == o.selected + 1 && n.chart_selected == o.chart_selected
        } else if o.focused_panel == CHARTS_PANEL && o.chart_selected + 1 < o.chart_data@.len() {
            n.selected == o.selected && n.chart_selected == o.chart_selected + 1
        } else {
            n.selected == o.selected && n.chart_selected == o.chart_selected
        }
    }

    /// The main keybindings, read only while no dialog is open.
    pub fn main_key(&mut self, key: Key) -> (r: Effect)
        requires
            old(self).wf(),
            old(self).popup_state@ is Closed,
        ensures
            final(self).wf(),
            final(self).pending_action is None,
            final(self).scan_flag_kept(old(self), r),
            final(self).artifacts == old(self).artifacts,
            final(self).config == old(self).config,
            final(self).scanned == old(self).scanned,
            final(self).automatic_removal == old(self).automatic_removal,
            Session::main_key_post(*old(self), *final(self), key, r),
    {
        match key {
            Key::Char(c) => {
                if c == 'D' {
                    self.popup_state = PopupState::new_clear_all_confirmation();
                    Effect::Nothing
                } else if c == 'q' {
                    self.should_quit = true;
                    Effect::Nothing
                } else if c == 's' {
                    match self.trigger_scan() {
                        Some((roots, excluded)) => Effect::StartScan { roots, excluded },
                        None => Effect::Nothing,
                    }
                } else if c == 'd' {
                    self.popup_state = PopupState::new_confirm_action(
                        String::from_str("Delete this artifact?"),
                        String::from_str("delete"),
                    );
                    Effect::Nothing
                } else if c == 'x' || c == 'X' {
                    if self.focused_panel == ARTIFACTS_PANEL && self.selected < self.artifacts.len() {
                        self.popup_state = PopupState::new_confirm_action(
                            String::from_str("Exclude this path from scanning?"),
                            String::from_str("exclude"),
                        );
                    }
                    Effect::Nothing
                } else if c == 'r' {
                    match self.rebuild_target() {
                        Some(path) => Effect::Rebuild { path },
                        None => Effect::Nothing,
                    }
                } else if c == 'h' {
                    Effect::ReloadHistory
                } else if c == 'e' {
                    self.popup_state = PopupState::new_settings_list();
                    Effect::Nothing
                } else if c == 'l' {
                    self.popup_state = PopupState::new_logs_popup();
                    Effect::Nothing
                } else {
                    Effect::Nothing
                }
            },
            Key::Enter => {
                if self.focused_panel == ARTIFACTS_PANEL {
                    self.popup_state = PopupState::new_artifact_actions();
                } else if self.focused_panel == SETTINGS_PANEL {
                    self.popup_state = PopupState::new_settings_list();
                }
                Effect::Nothing
            },
            Key::Tab => {
                self.focused_panel = (self.focused_panel + 1) % PANEL_COUNT;
                Effect::Nothing
            },
            Key::Up | Key::PageUp => {
                if self.focused_panel == ARTIFACTS_PANEL && self.selected > 0 {
                    self.selected = self.selected - 1;
                } else if self.focused_panel == CHARTS_PANEL && self.chart_selected > 0 {
                    self.chart_selected = self.chart_selected - 1;
                }
                Effect::Nothing
            },
            Key::Down | Key::PageDown => {
                let n = self.artifacts.len();
                let m = self.chart_data.len();
                if self.focused_panel == ARTIFACTS_PANEL && n > 0 && self.selected < n - 1 {
                    self.selected = self.selected + 1;
                } else if self.focused_panel == CHARTS_PANEL && m > 0 && self.chart_selected < m - 1 {
                    self.chart_selected = self.chart_selected + 1;
                }
                Effect::Nothing
            },
            _ => Effect::Nothing,
        }
    }

    /// Feeds one key to the session. With no dialog open the main
    /// keybindings read it. Otherwise only the dialog reads it, and a command
    /// it resolves into is carried out; a credential prompt that closes
    /// without a submission drops the pending action.
    pub fn handle_key(&mut self, key: Key) -> (r: Effect)
        requires
            old(self).wf(),
        ensures
            final(self).wf(),
            final(self).scan_flag_kept(old(self), r),
            final(self).kept_or_removed_selected(old(self)),
            final(self).scanned == old(self).scanned,
            old(self).popup_state@ is Closed ==> Session::main_key_post(
                *old(self),
                *final(self),
                key,
                r,
            ),
            !(old(self).popup_state@ is Closed) ==> {
                &&& final(self).should_quit == old(self).should_quit
                &&& final(self).focused_panel == old(self).focused_panel
                &&& final(self).chart_selected == old(self).chart_selected
                &&& (popup_step(old(self).popup_state@, key).1 is None ==> {
                    &&& final(self).same_data(old(self))
                    &&& final(self).popup_state@ == popup_step(old(self).popup_state@, key).0
                    &&& r == Effect::Nothing
                })
                &&& (popup_step(old(self).popup_state@, key).1 matches Some(c)
                    ==> Session::command_post(
                    *old(self),
                    *final(self),
                    popup_step(old(self).popup_state@, key).0,
                    c,
                    r,
                ))
            },
    {
        if self.popup_state.is_closed() {
            return self.main_key(key);
        }
        let cmd = self.popup_state.handle_key(key);
        match cmd {
            Some(c) => self.apply_command(c),
            None => {
                if self.popup_state.is_closed() {
                    self.pending_action = None;
                }
                Effect::Nothing
            },
        }
    }
}

} // verus!
