//! The modal overlay: at most one dialog at a time, driven by keys.

use vstd::prelude::*;
use crate::text::{joined, parent_of, path_join, path_parent, pop_char, push_char, text_eq};

verus! {

/// A key as the overlay reads it.
#[derive(Clone, Copy, Debug, PartialEq, Eq, Structural)]
pub enum Key {
    Up,
    Down,
    Enter,
    Esc,
    Backspace,
    Tab,
    PageUp,
    PageDown,
    Char(char),
    Other,
}

/// What a dialog asks of the session when it resolves.
pub enum PopupCommand {
    OpenInput { title: String, initial: String },
    OpenDirBrowse,
    ToggleRemoval,
    SetValue { key: String, value: String },
    DeleteArtifact,
    RebuildArtifact,
    ClearAllBuilds,
    ConfirmAction { action: String },
    OpenExcludedPaths,
    /// Reopen the directory browser at `path`; when `must_be_dir` and
    /// `path` is not a directory on disk, at `from`, where it was.
    BrowseTo { path: String, from: String, must_be_dir: bool },
}

/// The active dialog, or `None`.
pub enum PopupState {
    Closed,
    SettingsList { selected: usize },
    Input { title: String, input: String },
    DirBrowse { path: String, items: Vec<String>, selected: usize },
    Logs,
    Scanning,
    ArtifactActions { selected: usize },
    ClearAllConfirmation,
    ConfirmAction { message: String, action: String },
    Progress { message: String },
    Info { message: String },
    ExcludedPathsList { paths: Vec<String>, selected: usize },
}

pub ghost enum CommandView {
    OpenInput { title: Seq<char>, initial: Seq<char> },
    OpenDirBrowse,
    ToggleRemoval,
    SetValue { key: Seq<char>, value: Seq<char> },
    DeleteArtifact,
    RebuildArtifact,
    ClearAllBuilds,
    ConfirmAction { action: Seq<char> },
    OpenExcludedPaths,
    BrowseTo { path: Seq<char>, from: Seq<char>, must_be_dir: bool },
}

pub ghost enum PopupView {
    Closed,
    SettingsList { selected: nat },
    Input { title: Seq<char>, input: Seq<char> },
    DirBrowse { path: Seq<char>, items: Seq<Seq<char>>, selected: nat },
    Logs,
    Scanning,
    ArtifactActions { selected: nat },
    ClearAllConfirmation,
    ConfirmAction { message: Seq<char>, action: Seq<char> },
    Progress { message: Seq<char> },
    Info { message: Seq<char> },
    ExcludedPathsList { paths: Seq<Seq<char>>, selected: nat },
}

pub open spec fn texts_view(v: Vec<String>) -> Seq<Seq<char>> {
    v@.map_values(|s: String| s@)
}

impl View for PopupCommand {
    type V = CommandView;

    open spec fn view(&self) -> CommandView {
        match self {
            PopupCommand::OpenInput { title, initial } => CommandView::OpenInput {
                title: title@,
                initial: initial@,
            },
            PopupCommand::OpenDirBrowse => CommandView::OpenDirBrowse,
            PopupCommand::ToggleRemoval => CommandView::ToggleRemoval,
            PopupCommand::SetValue { key, value } => CommandView::SetValue {
                key: key@,
                value: value@,
            },
            PopupCommand::DeleteArtifact => CommandView::DeleteArtifact,
            PopupCommand::RebuildArtifact => CommandView::RebuildArtifact,
            PopupCommand::ClearAllBuilds => CommandView::ClearAllBuilds,
            PopupCommand::ConfirmAction { action } => CommandView::ConfirmAction {
                action: action@,
            },
            PopupCommand::OpenExcludedPaths => CommandView::OpenExcludedPaths,
            PopupCommand::BrowseTo { path, from, must_be_dir } => CommandView::BrowseTo {
                path: path@,
                from: from@,
                must_be_dir: *must_be_dir,
            },
        }
    }
}

impl View for PopupState {
    type V = PopupView;

    open spec fn view(&self) -> PopupView {
        match self {
            PopupState::Closed => PopupView::Closed,
            PopupState::SettingsList { selected } => PopupView::SettingsList {
                selected: *selected as nat,
            },
            PopupState::Input { title, input } => PopupView::Input {
                title: title@,
                input: input@,
            },
            PopupState::DirBrowse { path, items, selected } => PopupView::DirBrowse {
                path: path@,
                items: texts_view(*items),
                selected: *selected as nat,
            },
            PopupState::Logs => PopupView::Logs,
            PopupState::Scanning => PopupView::Scanning,
            PopupState::ArtifactActions { selected } => PopupView::ArtifactActions {
                selected: *selected as nat,
            },
            PopupState::ClearAllConfirmation => PopupView::ClearAllConfirmation,
            PopupState::ConfirmAction { message, action } => PopupView::ConfirmAction {
                message: message@,
                action: action@,
            },
            PopupState::Progress { message } => PopupView::Progress { message: message@ },
            PopupState::Info { message } => PopupView::Info { message: message@ },
            PopupState::ExcludedPathsList { paths, selected } => PopupView::ExcludedPathsList {
                paths: texts_view(*paths),
                selected: *selected as nat,
            },
        }
    }
}

pub open spec fn command_view(c: Option<PopupCommand>) -> Option<CommandView> {
    match c {
        Some(c) => Some(c@),
        None => None,
    }
}

/// Selections in a non-empty directory listing or list of excluded paths
/// stay inside it.
pub open spec fn popup_wf(s: PopupView) -> bool {
    match s {
        PopupView::DirBrowse { items, selected, .. } => items.len() == 0 || selected < items.len(),
        PopupView::ExcludedPathsList { paths, selected } => paths.len() == 0 || selected
            < paths.len(),
        _ => true,
    }
}

/// The command that the settings list issues for each of its four rows.
pub open spec fn settings_command(selected: nat) -> CommandView {
    if selected == 0 {
        CommandView::OpenInput { title: "Retention Days"@, initial: ""@ }
    } else if selected == 1 {
        CommandView::OpenDirBrowse
    } else if selected == 2 {
        CommandView::ToggleRemoval
    } else {
        CommandView::OpenExcludedPaths
    }
}

/// The path that the browser's row `item` stands for, under `path`.
pub open spec fn resolved_path(path: Seq<char>, item: Seq<char>) -> Seq<char> {
    if item == ".."@ {
        match parent_of(path) {
            Some(p) => p,
            None => path,
        }
    } else {
        joined(path, item)
    }
}

/// Text of the question asked before a path leaves the exclusion list.
pub open spec fn removal_question(p: Seq<char>) -> Seq<char> {
    "Remove '"@ + p + "' from exclusion list?"@
}

/// The transition of the overlay on one key: the next dialog and the command
/// handed to the session, if any.
pub open spec fn popup_step(s: PopupView, k: Key) -> (PopupView, Option<CommandView>) {
    match s {
        PopupView::Closed => (s, None),
        PopupView::SettingsList { selected } => match k {
            Key::Up => (
                PopupView::SettingsList {
                    selected: if selected > 0 { (selected - 1) as nat } else { 3 },
                },
                None,
            ),
            Key::Down => (
                PopupView::SettingsList { selected: if selected < 3 { selected + 1 } else { 0 } },
                None,
            ),
            Key::Enter => if selected <= 3 {
                (PopupView::Closed, Some(settings_command(selected)))
            } else {
                (s, None)
            },
            Key::Esc => (PopupView::Closed, None),
            _ => (s, None),
        },
        PopupView::Input { title, input } => match k {
            Key::Char(c) => (PopupView::Input { title, input: input.push(c) }, None),
            Key::Backspace => (
                PopupView::Input {
                    title,
                    input: if input.len() > 0 { input.drop_last() } else { input },
                },
                None,
            ),
            Key::Enter => (PopupView::Closed, Some(CommandView::SetValue { key: title, value: input })),
            Key::Esc => (PopupView::Closed, None),
            _ => (s, None),
        },
        PopupView::Logs => if k == Key::Esc { (PopupView::Closed, None) } else { (s, None) },
        PopupView::Progress { .. } => if k == Key::Esc { (PopupView::Closed, None) } else { (s, None) },
        PopupView::Scanning => (PopupView::Closed, None),
        PopupView::Info { .. } => (PopupView::Closed, None),
        PopupView::ArtifactActions { selected } => match k {
            Key::Up => (
                PopupView::ArtifactActions {
                    selected: if selected > 0 { (selected - 1) as nat } else { 1 },
                },
                None,
            ),
            Key::Down => (
                PopupView::ArtifactActions { selected: if selected < 1 { selected + 1 } else { 0 } },
                None,
            ),
            Key::Enter => if selected == 0 {
                (PopupView::Closed, Some(CommandView::DeleteArtifact))
            } else if selected == 1 {
                (PopupView::Closed, Some(CommandView::RebuildArtifact))
            } else {
                (s, None)
            },
            Key::Esc => (PopupView::Closed, None),
            _ => (s, None),
        },
        PopupView::ClearAllConfirmation => match k {
            Key::Char(c) => if c == 'y' || c == 'Y' {
                (PopupView::Closed, Some(CommandView::ClearAllBuilds))
            } else if c == 'n' || c == 'N' {
                (PopupView::Closed, None)
            } else {
                (s, None)
            },
            Key::Esc => (PopupView::Closed, None),
            _ => (s, None),
        },
        PopupView::ConfirmAction { action, .. } => match k {
            Key::Enter => (PopupView::Closed, Some(CommandView::ConfirmAction { action })),
            Key::Esc => (PopupView::Closed, None),
            _ => (s, None),
        },
        PopupView::DirBrowse { path, items, selected } => match k {
            Key::Up => (
                PopupView::DirBrowse {
                    path,
                    items,
                    selected: if selected > 0 { (selected - 1) as nat } else { selected },
                },
                None,
            ),
            Key::Down => (
                PopupView::DirBrowse {
                    path,
                    items,
                    selected: if selected + 1 < items.len() { selected + 1 } else { selected },
                },
                None,
            ),
            Key::Enter => if selected < items.len() {
                if items[selected as int] == ".."@ {
                    match parent_of(path) {
                        Some(p) => (
                            PopupView::Closed,
                            Some(CommandView::BrowseTo { path: p, from: path, must_be_dir: false }),
                        ),
                        None => (s, None),
                    }
                } else {
                    (
                        PopupView::Closed,
                        Some(
                            CommandView::BrowseTo {
                                path: joined(path, items[selected as int]),
                                from: path,
                                must_be_dir: true,
                            },
                        ),
                    )
                }
            } else {
                (s, None)
            },
            Key::Char(c) => if c == 's' {
                if selected < items.len() {
                    (
                        PopupView::Closed,
                        Some(
                            CommandView::SetValue {
                                key: "Scan Path"@,
                                value: resolved_path(path, items[selected as int]),
                            },
                        ),
                    )
                } else {
                    (s, None)
                }
            } else if c == ' ' {
                (PopupView::Closed, Some(CommandView::SetValue { key: "Scan Path"@, value: path }))
            } else {
                (s, None)
            },
            Key::Esc => (PopupView::Closed, None),
            _ => (s, None),
        },
        PopupView::ExcludedPathsList { paths, selected } => match k {
            Key::Up => (
                PopupView::ExcludedPathsList {
                    paths,
                    selected: if selected > 0 {
                        (selected - 1) as nat
                    } else if paths.len() > 0 {
                        (paths.len() - 1) as nat
                    } else {
                        selected
                    },
                },
                None,
            ),
            Key::Down => (
                PopupView::ExcludedPathsList {
                    paths,
                    selected: if paths.len() == 0 {
                        selected
                    } else if selected + 1 < paths.len() {
                        selected + 1
                    } else {
                        0
                    },
                },
                None,
            ),
            Key::Enter => if paths.len() > 0 {
                (
                    PopupView::ConfirmAction {
                        message: removal_question(paths[selected as int]),
                        action: "remove_excluded:"@ + paths[selected as int],
                    },
                    None,
                )
            } else {
                (s, None)
            },
            Key::Esc => (PopupView::Closed, None),
            _ => (s, None),
        },
    }
}

impl PopupState {
    pub fn new_settings_list() -> (r: Self)
        ensures
            r@ == (PopupView::SettingsList { selected: 0 }),
    {
        PopupState::SettingsList { selected: 0 }
    }

    pub fn new_input(title: String, initial: String) -> (r: Self)
        ensures
            r@ == (PopupView::Input { title: title@, input: initial@ }),
    {
        PopupState::Input { title, input: initial }
    }

    /// A directory browser at `path`, listing `items` (the parent marker
    /// `..` first, then the subdirectories found there).
    pub fn new_dir_browse(path: String, items: Vec<String>) -> (r: Self)
        ensures
            r@ == (PopupView::DirBrowse { path: path@, items: texts_view(items), selected: 0 }),
    {
        PopupState::DirBrowse { path, items, selected: 0 }
    }

    pub fn new_logs_popup() -> (r: Self)
        ensures
            r@ == PopupView::Logs,
    {
        PopupState::Logs
    }

    pub fn new_artifact_actions() -> (r: Self)
        ensures
            r@ == (PopupView::ArtifactActions { selected: 0 }),
    {
        PopupState::ArtifactActions { selected: 0 }
    }

    pub fn new_clear_all_confirmation() -> (r: Self)
        ensures
            r@ == PopupView::ClearAllConfirmation,
    {
        PopupState::ClearAllConfirmation
    }

    pub fn new_confirm_action(message: String, action: String) -> (r: Self)
        ensures
            r@ == (PopupView::ConfirmAction { message: message@, action: action@ }),
    {
        PopupState::ConfirmAction { message, action }
    }

    pub fn new_progress(message: String) -> (r: Self)
        ensures
            r@ == (PopupView::Progress { message: message@ }),
    {
        PopupState::Progress { message }
    }

    pub fn new_excluded_paths(paths: Vec<String>) -> (r: Self)
        ensures
            r@ == (PopupView::ExcludedPathsList { paths: texts_view(paths), selected: 0 }),
    {
        PopupState::ExcludedPathsList { paths, selected: 0 }
    }

    /// Whether no dialog is open.
    pub fn is_closed(&self) -> (r: bool)
        ensures
            r == (self@ == PopupView::Closed),
    {
        match self {
            PopupState::Closed => true,
            _ => false,
        }
    }

    /// Moves an open directory browser to `path`, listing `items`, with the
    /// first row selected. Any other dialog is left as it is.
    pub fn enter_dir(&mut self, path: String, items: Vec<String>)
        ensures
            old(self)@ is DirBrowse ==> final(self)@ == (PopupView::DirBrowse {
                path: path@,
                items: texts_view(items),
                selected: 0,
            }),
            !(old(self)@ is DirBrowse) ==> final(self)@ == old(self)@,
    {
        match self {
            PopupState::DirBrowse { .. } => {
                *self = PopupState::DirBrowse { path, items, selected: 0 };
            },
            _ => {},
        }
    }

    /// Feeds one key to the open dialog: it moves within the dialog, closes
    /// it, opens the next one, or resolves it into a command.
    pub fn handle_key(&mut self, key: Key) -> (r: Option<PopupCommand>)
        requires
            popup_wf(old(self)@),
        ensures
            (final(self)@, command_view(r)) == popup_step(old(self)@, key),
            popup_wf(final(self)@),
    {
        let mut cur = PopupState::Closed;
        std::mem::swap(self, &mut cur);
        let (next, cmd) = Self::step(cur, key);
        *self = next;
        cmd
    }

    fn step(cur: PopupState, key: Key) -> (r: (PopupState, Option<PopupCommand>))
        requires
            popup_wf(cur@),
        ensures
            (r.0@, command_view(r.1)) == popup_step(cur@, key),
            popup_wf(r.0@),
    {
        match cur {
            PopupState::Closed => (cur, None),
            PopupState::SettingsList { selected } => match key {
                Key::Up => {
                    let s = if selected > 0 { selected - 1 } else { 3 };
                    (PopupState::SettingsList { selected: s }, None)
                },
                Key::Down => {
                    let s = if selected < 3 { selected + 1 } else { 0 };
                    (PopupState::SettingsList { selected: s }, None)
                },
                Key::Enter => {
                    if selected == 0 {
                        let title = String::from_str("Retention Days");
                        let initial = String::new();
                        proof {
                            reveal_strlit("");
                        }
                        assert(initial@ == ""@);
                        (PopupState::Closed, Some(PopupCommand::OpenInput { title, initial }))
                    } else if selected == 1 {
                        (PopupState::Closed, Some(PopupCommand::OpenDirBrowse))
                    } else if selected == 2 {
                        (PopupState::Closed, Some(PopupCommand::ToggleRemoval))
                    } else if selected == 3 {
                        (PopupState::Closed, Some(PopupCommand::OpenExcludedPaths))
                    } else {
                        (cur, None)
                    }
                },
                Key::Esc => (PopupState::Closed, None),
                _ => (cur, None),
            },
            PopupState::Input { title, input } => match key {
                Key::Char(c) => {
                    let mut buf = input;
                    push_char(&mut buf, c);
                    (PopupState::Input { title, input: buf }, None)
                },
                Key::Backspace => {
                    let mut buf = input;
                    pop_char(&mut buf);
                    (PopupState::Input { title, input: buf }, None)
                },
                Key::Enter => (
                    PopupState::Closed,
                    Some(PopupCommand::SetValue { key: title, value: input }),
                ),
                Key::Esc => (PopupState::Closed, None),
                _ => (PopupState::Input { title, input }, None),
            },
            PopupState::Logs => match key {
                Key::Esc => (PopupState::Closed, None),
                _ => (cur, None),
            },
            PopupState::Progress { message } => match key {
                Key::Esc => (PopupState::Closed, None),
                _ => (PopupState::Progress { message }, None),
            },
            PopupState::Scanning => (PopupState::Closed, None),
            PopupState::Info { .. } => (PopupState::Closed, None),
            PopupState::ArtifactActions { selected } => match key {
                Key::Up => {
                    let s = if selected > 0 { selected - 1 } else { 1 };
                    (PopupState::ArtifactActions { selected: s }, None)
                },
                Key::Down => {
                    let s = if selected < 1 { selected + 1 } else { 0 };
                    (PopupState::ArtifactActions { selected: s }, None)
                },
                Key::Enter => {
                    if selected == 0 {
                        (PopupState::Closed, Some(PopupCommand::DeleteArtifact))
                    } else if selected == 1 {
                        (PopupState::Closed, Some(PopupCommand::RebuildArtifact))
                    } else {
                        (cur, None)
                    }
                },
                Key::Esc => (PopupState::Closed, None),
                _ => (cur, None),
            },
            PopupState::ClearAllConfirmation => match key {
                Key::Char(c) => {
                    if c == 'y' || c == 'Y' {
                        (PopupState::Closed, Some(PopupCommand::ClearAllBuilds))
                    } else if c == 'n' || c == 'N' {
                        (PopupState::Closed, None)
                    } else {
                        (cur, None)
                    }
                },
                Key::Esc => (PopupState::Closed, None),
                _ => (cur, None),
            },
            PopupState::ConfirmAction { message, action } => match key {
                Key::Enter => (PopupState::Closed, Some(PopupCommand::ConfirmAction { action })),
                Key::Esc => (PopupState::Closed, None),
                _ => (PopupState::ConfirmAction { message, action }, None),
            },
            PopupState::DirBrowse { path, items, selected } => Self::browse_step(
                path,
                items,
                selected,
                key,
            ),
            PopupState::ExcludedPathsList { paths, selected } => Self::excluded_step(
                paths,
                selected,
                key,
            ),
        }
    }

    fn browse_step(path: String, items: Vec<String>, selected: usize, key: Key) -> (r: (
        PopupState,
        Option<PopupCommand>,
    ))
        requires
            popup_wf(PopupView::DirBrowse { path: path@, items: texts_view(items), selected: selected as nat }),
        ensures
            (r.0@, command_view(r.1)) == popup_step(
                PopupView::DirBrowse { path: path@, items: texts_view(items), selected: selected as nat },
                key,
            ),
            popup_wf(r.0@),
    {
        let n = items.len();
        match key {
            Key::Up => {
                let s = if selected > 0 { selected - 1 } else { selected };
                (PopupState::DirBrowse { path, items, selected: s }, None)
            },
            Key::Down => {
                let s = if n > 0 && selected < n - 1 { selected + 1 } else { selected };
                (PopupState::DirBrowse { path, items, selected: s }, None)
            },
            Key::Enter => {
                if selected < n {
                    let is_up = text_eq(items[selected].as_str(), "..");
                    if is_up {
                        match path_parent(path.as_str()) {
                            Some(p) => {
                                let cmd = PopupCommand::BrowseTo { path: p, from: path, must_be_dir: false };
                                (PopupState::Closed, Some(cmd))
                            },
                            None => (PopupState::DirBrowse { path, items, selected }, None),
                        }
                    } else {
                        let target = path_join(path.as_str(), items[selected].as_str());
                        let cmd = PopupCommand::BrowseTo { path: target, from: path, must_be_dir: true };
                        (PopupState::Closed, Some(cmd))
                    }
                } else {
                    (PopupState::DirBrowse { path, items, selected }, None)
                }
            },
            Key::Char(c) => {
                if c == 's' {
                    if selected < n {
                        let is_up = text_eq(items[selected].as_str(), "..");
                        let value = if is_up {
                            match path_parent(path.as_str()) {
                                Some(p) => p,
                                None => path,
                            }
                        } else {
                            path_join(path.as_str(), items[selected].as_str())
                        };
                        let key = String::from_str("Scan Path");
                        (PopupState::Closed, Some(PopupCommand::SetValue { key, value }))
                    } else {
                        (PopupState::DirBrowse { path, items, selected }, None)
                    }
                } else if c == ' ' {
                    let key = String::from_str("Scan Path");
                    (PopupState::Closed, Some(PopupCommand::SetValue { key, value: path }))
                } else {
                    (PopupState::DirBrowse { path, items, selected }, None)
                }
            },
            Key::Esc => (PopupState::Closed, None),
            _ => (PopupState::DirBrowse { path, items, selected }, None),
        }
    }

    fn excluded_step(paths: Vec<String>, selected: usize, key: Key) -> (r: (
        PopupState,
        Option<PopupCommand>,
    ))
        requires
            popup_wf(PopupView::ExcludedPathsList { paths: texts_view(paths), selected: selected as nat }),
        ensures
            (r.0@, command_view(r.1)) == popup_step(
                PopupView::ExcludedPathsList { paths: texts_view(paths), selected: selected as nat },
                key,
            ),
            popup_wf(r.0@),
    {
        let n = paths.len();
        match key {
            Key::Up => {
                let s = if selected > 0 {
                    selected - 1
                } else if n > 0 {
                    n - 1
                } else {
                    selected
                };
                (PopupState::ExcludedPathsList { paths, selected: s }, None)
            },
            Key::Down => {
                let s = if n == 0 {
                    selected
                } else if selected < n - 1 {
                    selected + 1
                } else {
                    0
                };
                (PopupState::ExcludedPathsList { paths, selected: s }, None)
            },
            Key::Enter => {
                if n > 0 {
                    let p = paths[selected].as_str();
                    let mut message = String::from_str("Remove '");
                    message.append(p);
                    message.append("' from exclusion list?");
                    let mut action = String::from_str("remove_excluded:");
                    action.append(p);
                    (PopupState::ConfirmAction { message, action }, None)
                } else {
                    (PopupState::ExcludedPathsList { paths, selected }, None)
                }
            },
            Key::Esc => (PopupState::Closed, None),
            _ => (PopupState::ExcludedPathsList { paths, selected }, None),
        }
    }
}

/// Any key dismisses an information dialog, and a key that reaches no
/// dialog at all changes nothing: dismissing twice is dismissing once.
pub proof fn lemma_info_dismiss_idempotent(message: Seq<char>, first: Key, second: Key)
    ensures
        popup_step(PopupView::Info { message }, first) == (PopupView::Closed, None::<CommandView>),
        popup_step(popup_step(PopupView::Info { message }, first).0, second) == (
            PopupView::Closed,
            None::<CommandView>,
        ),
{
}

/// Every key leaves a well-formed dialog well formed.
pub proof fn lemma_step_keeps_wf(s: PopupView, k: Key)
    requires
        popup_wf(s),
    ensures
        popup_wf(popup_step(s, k).0),
{
}

} // verus!
