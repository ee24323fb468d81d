//! The application state machine: selection, section, scroll and
//! visibility state, a pure mapping from events to actions, and the
//! application of actions, each step leaving the selection in bounds.

use crate::config::Config;
use crate::config::KeybindingsView;
use crate::status::FileStatusView;
use crate::status::GitStatus;
use crate::text::str_eq;
use crate::theme::Theme;
use vstd::prelude::*;

verus! {

/// Number of list rows one page-wise cursor movement skips.
pub const PAGE_STEP: usize = 10;

/// Which file list is active.
#[derive(Debug, Clone, Copy, PartialEq, Eq, Structural)]
pub enum Section {
    Staged,
    Unstaged,
}

impl Section {
    /// The other section.
    pub open spec fn spec_other(self) -> Section {
        match self {
            Section::Staged => Section::Unstaged,
            Section::Unstaged => Section::Staged,
        }
    }
}

/// Application actions.
#[derive(Debug, Clone, Copy, PartialEq, Eq, Structural)]
pub enum Action {
    Quit,
    MoveUp,
    MoveDown,
    PageUp,
    PageDown,
    TogglePreview,
    ToggleHelp,
    Refresh,
    SwitchSection,
    StageUnstage,
    Noop,
}

/// A key, reduced to what the bindings distinguish.
#[derive(Debug, Clone, Copy, PartialEq, Eq, Structural)]
pub enum KeyCode {
    Char(char),
    Up,
    Down,
    PageUp,
    PageDown,
    Tab,
    Esc,
    Other,
}

/// One key press: the key and whether the control modifier was held.
#[derive(Debug, Clone, Copy, PartialEq, Eq, Structural)]
pub struct KeyInput {
    /// The key pressed.
    pub code: KeyCode,
    /// Whether the control modifier was held.
    pub ctrl: bool,
}

/// A completed background diff fetch: the file it was fetched for and
/// the diff text.
#[derive(Debug, Clone, PartialEq, Eq)]
pub struct DiffResult {
    /// Path the diff was fetched for.
    pub path: String,
    /// Whether the staged side was fetched.
    pub staged: bool,
    /// The diff text.
    pub text: String,
}

/// Application events, one merged stream.
#[derive(Debug, Clone, PartialEq, Eq)]
pub enum Event {
    /// Periodic tick.
    Tick,
    /// Keyboard input.
    Key(KeyInput),
    /// Terminal resize.
    Resize(u16, u16),
    /// Filesystem change detected.
    FileChange,
    /// Diff content is ready.
    DiffReady(DiffResult),
}

/// What the surrounding loop must do after one step: nothing, fetch a
/// diff in the background, re-synchronize, or stage/unstage one path
/// (and then re-synchronize).
#[derive(Debug, Clone, PartialEq, Eq)]
pub enum Effect {
    /// Nothing to do.
    Idle,
    /// Fetch the diff for one path in the background.
    FetchDiff { path: String, staged: bool },
    /// Run a full synchronization pass.
    Refresh,
    /// Stage one path, then re-synchronize.
    Stage { path: String },
    /// Unstage one path, then re-synchronize.
    Unstage { path: String },
}

/// One raw terminal input, reduced to what the multiplexer routes.
#[derive(Debug, Clone, Copy, PartialEq, Eq, Structural)]
pub enum TerminalInput {
    /// A key event; `press` is whether it is the press itself rather
    /// than a repeat or release.
    Key { key: KeyInput, press: bool },
    /// A terminal resize.
    Resize(u16, u16),
    /// Anything else the terminal reports.
    Other,
}

/// The event one raw terminal input contributes to the merged stream:
/// a key only on its press (repeats and releases are dropped), a
/// resize always, anything else nothing.
pub fn route_terminal_input(input: TerminalInput) -> (r: Option<Event>)
    ensures
        r == (match input {
            TerminalInput::Key { key, press } => if press {
                Some(Event::Key(key))
            } else {
                None
            },
            TerminalInput::Resize(w, h) => Some(Event::Resize(w, h)),
            TerminalInput::Other => None,
        }),
{
    match input {
        TerminalInput::Key { key, press } => if press {
            Some(Event::Key(key))
        } else {
            None
        },
        TerminalInput::Resize(w, h) => Some(Event::Resize(w, h)),
        TerminalInput::Other => None,
    }
}

/// Application state.
pub struct App {
    /// Path to the repository.
    pub repo_path: String,
    /// Current status snapshot, absent until the first synchronization.
    pub git_status: Option<GitStatus>,
    /// Current diff content for the preview.
    pub diff_content: Option<String>,
    /// Selected file index within the active section.
    pub selected_index: usize,
    /// The active section.
    pub selected_section: Section,
    /// Preview scroll offset.
    pub preview_scroll: u16,
    /// Whether the preview panel is shown.
    pub show_preview: bool,
    /// Whether the help menu is shown.
    pub show_help: bool,
    /// Application configuration.
    pub config: Config,
    /// Current theme.
    pub theme: Theme,
    /// Whether watch mode is enabled.
    pub watch_mode: bool,
    /// Whether the application should quit.
    pub should_quit: bool,
}

/// The action one key press maps to, honoring the configured bindings:
/// Ctrl+C always quits; a configured single-character binding matches
/// literally; the navigation keys act when their binding keeps the
/// standard name; Escape closes the help overlay when it is open and
/// quits otherwise; anything else does nothing.
pub open spec fn spec_map_key(key: KeyInput, kb: KeybindingsView, help_open: bool) -> Action {
    if key.ctrl && key.code == KeyCode::Char('c') {
        Action::Quit
    } else {
        match key.code {
            KeyCode::Char(c) => {
                if seq![c] == kb.quit {
                    Action::Quit
                } else if seq![c] == kb.refresh {
                    Action::Refresh
                } else if seq![c] == kb.toggle_preview {
                    Action::TogglePreview
                } else if seq![c] == kb.help {
                    Action::ToggleHelp
                } else if seq![c] == kb.stage {
                    Action::StageUnstage
                } else if c == 'j' {
                    Action::MoveDown
                } else if c == 'k' {
                    Action::MoveUp
                } else if c == '\t' {
                    Action::SwitchSection
                } else {
                    Action::Noop
                }
            },
            KeyCode::Up => if kb.up == "up"@ {
                Action::MoveUp
            } else {
                Action::Noop
            },
            KeyCode::Down => if kb.down == "down"@ {
                Action::MoveDown
            } else {
                Action::Noop
            },
            KeyCode::PageUp => if kb.page_up == "pageup"@ {
                Action::PageUp
            } else {
                Action::Noop
            },
            KeyCode::PageDown => if kb.page_down == "pagedown"@ {
                Action::PageDown
            } else {
                Action::Noop
            },
            KeyCode::Tab => Action::SwitchSection,
            KeyCode::Esc => if help_open {
                Action::ToggleHelp
            } else {
                Action::Quit
            },
            KeyCode::Other => Action::Noop,
        }
    }
}

/// The action one event maps to: a key press goes through the key
/// bindings, a filesystem change always refreshes, and everything else
/// (tick, resize, a delivered diff) maps to no action.
pub open spec fn spec_event_action(event: Event, kb: KeybindingsView, help_open: bool) -> Action {
    match event {
        Event::Key(k) => spec_map_key(k, kb, help_open),
        Event::FileChange => Action::Refresh,
        Event::Tick => Action::Noop,
        Event::Resize(_, _) => Action::Noop,
        Event::DiffReady(_) => Action::Noop,
    }
}

/// Whether `eff` asks for the diff of exactly the entry `e`.
pub open spec fn is_fetch_for(eff: Effect, e: FileStatusView) -> bool {
    match eff {
        Effect::FetchDiff { path, staged } => path@ == e.path && staged == e.staged,
        _ => false,
    }
}

/// How one selection change settles the preview: with a file selected,
/// its diff is fetched and the old preview stands until the fetch
/// lands; with a snapshot but no file selected, the preview is
/// cleared; with no snapshot at all, nothing happens.
pub open spec fn diff_refreshed(pre_diff: Option<String>, post: App, eff: Effect) -> bool {
    match post.spec_selected() {
        Some(e) => is_fetch_for(eff, e) && post.diff_content == pre_diff,
        None => if post.git_status is Some {
            post.diff_content is None && eff is Idle
        } else {
            post.diff_content == pre_diff && eff is Idle
        },
    }
}

impl App {
    /// Number of files in the active section; zero before the first
    /// snapshot.
    pub open spec fn spec_section_len(self) -> nat {
        match self.git_status {
            Some(st) => match self.selected_section {
                Section::Staged => st@.staged_files.len(),
                Section::Unstaged => st@.unstaged_files.len(),
            },
            None => 0,
        }
    }

    /// The files of the active section; empty before the first
    /// snapshot.
    pub open spec fn spec_files(self) -> Seq<FileStatusView> {
        match self.git_status {
            Some(st) => match self.selected_section {
                Section::Staged => st@.staged_files,
                Section::Unstaged => st@.unstaged_files,
            },
            None => Seq::empty(),
        }
    }

    /// The selected entry, when the selection is in bounds.
    pub open spec fn spec_selected(self) -> Option<FileStatusView> {
        if (self.selected_index as nat) < self.spec_files().len() {
            Some(self.spec_files()[self.selected_index as int])
        } else {
            None
        }
    }

    /// The selection is in bounds: at zero while the active section is
    /// empty, strictly below the section length otherwise.
    pub open spec fn wf(self) -> bool {
        &&& (self.spec_section_len() == 0 ==> self.selected_index == 0)
        &&& (self.spec_section_len() > 0 ==> (self.selected_index as nat)
            < self.spec_section_len())
    }

    /// Create a new application instance: nothing loaded, nothing
    /// selected, the unstaged section active, and the preview shown as
    /// the configuration asks.
    pub fn new(repo_path: String, config: Config, theme: Theme, watch_mode: bool) -> (r: App)
        ensures
            r.repo_path == repo_path,
            r.git_status is None,
            r.diff_content is None,
            r.selected_index == 0,
            r.selected_section == Section::Unstaged,
            r.preview_scroll == 0,
            r.show_preview == config.display.show_file_preview,
            !r.show_help,
            r.config == config,
            r.theme == theme,
            r.watch_mode == watch_mode,
            !r.should_quit,
            r.wf(),
    {
        let show_preview = config.display.show_file_preview;
        App {
            repo_path,
            git_status: None,
            diff_content: None,
            selected_index: 0,
            selected_section: Section::Unstaged,
            preview_scroll: 0,
            show_preview,
            show_help: false,
            config,
            theme,
            watch_mode,
            should_quit: false,
        }
    }

    /// Number of files in the active section.
    pub fn get_current_section_len(&self) -> (r: usize)
        ensures
            r == self.spec_section_len(),
    {
        match &self.git_status {
            Some(status) => match self.selected_section {
                Section::Staged => status.staged_files.len(),
                Section::Unstaged => status.unstaged_files.len(),
            },
            None => 0,
        }
    }

    /// The path of the selected file, when one is selected.
    pub fn get_selected_file_path(&self) -> (r: Option<&str>)
        ensures
            r is Some <==> self.spec_selected() is Some,
            r matches Some(p) ==> p@ == self.spec_selected()->Some_0.path,
    {
        match &self.git_status {
            Some(status) => {
                let files = match self.selected_section {
                    Section::Staged => &status.staged_files,
                    Section::Unstaged => &status.unstaged_files,
                };
                if self.selected_index < files.len() {
                    Some(files[self.selected_index].path.as_str())
                } else {
                    None
                }
            },
            None => None,
        }
    }

    /// Map one key press to its action, as [`spec_map_key`] says.
    pub fn handle_key_event(&self, key: KeyInput) -> (r: Action)
        ensures
            r == spec_map_key(key, self.config.keybindings@, self.show_help),
    {
        if key.ctrl && key.code == KeyCode::Char('c') {
            return Action::Quit;
        }
        let kb = &self.config.keybindings;
        match key.code {
            KeyCode::Char(c) => {
                if char_is_binding(c, &kb.quit) {
                    Action::Quit
                } else if char_is_binding(c, &kb.refresh) {
                    Action::Refresh
                } else if char_is_binding(c, &kb.toggle_preview) {
                    Action::TogglePreview
                } else if char_is_binding(c, &kb.help) {
                    Action::ToggleHelp
                } else if char_is_binding(c, &kb.stage) {
                    Action::StageUnstage
                } else if c == 'j' {
                    Action::MoveDown
                } else if c == 'k' {
                    Action::MoveUp
                } else if c == '\t' {
                    Action::SwitchSection
                } else {
                    Action::Noop
                }
            },
            KeyCode::Up => {
                if str_eq(kb.up.as_str(), "up") {
                    Action::MoveUp
                } else {
                    Action::Noop
                }
            },
            KeyCode::Down => {
                if str_eq(kb.down.as_str(), "down") {
                    Action::MoveDown
                } else {
                    Action::Noop
                }
            },
            KeyCode::PageUp => {
                if str_eq(kb.page_up.as_str(), "pageup") {
                    Action::PageUp
                } else {
                    Action::Noop
                }
            },
            KeyCode::PageDown => {
                if str_eq(kb.page_down.as_str(), "pagedown") {
                    Action::PageDown
                } else {
                    Action::Noop
                }
            },
            KeyCode::Tab => Action::SwitchSection,
            KeyCode::Esc => {
                if self.show_help {
                    Action::ToggleHelp
                } else {
                    Action::Quit
                }
            },
            KeyCode::Other => Action::Noop,
        }
    }

    /// Take one incoming event: a delivered diff is installed as the
    /// preview content only while its file is still the selected one
    /// (a stale fetch is dropped silently); every other event leaves
    /// the state alone; the returned action is what the event maps to.
    pub fn handle_event(&mut self, event: Event) -> (r: Action)
        ensures
            r == spec_event_action(event, old(self).config.keybindings@, old(self).show_help),
            final(self).git_status == old(self).git_status,
            final(self).selected_index == old(self).selected_index,
            final(self).selected_section == old(self).selected_section,
            final(self).preview_scroll == old(self).preview_scroll,
            final(self).show_preview == old(self).show_preview,
            final(self).show_help == old(self).show_help,
            final(self).should_quit == old(self).should_quit,
            final(self).repo_path == old(self).repo_path,
            final(self).config == old(self).config,
            final(self).theme == old(self).theme,
            final(self).watch_mode == old(self).watch_mode,
            match event {
                Event::DiffReady(d) => {
                    if old(self).spec_selected() matches Some(e) && e.path == d.path@ && e.staged
                        == d.staged {
                        final(self).diff_content matches Some(t) && t@ == d.text@
                    } else {
                        final(self).diff_content == old(self).diff_content
                    }
                },
                _ => final(self).diff_content == old(self).diff_content,
            },
    {
        match event {
            Event::Key(key) => self.handle_key_event(key),
            Event::FileChange => Action::Refresh,
            Event::DiffReady(diff) => {
                if self.selection_is(diff.path.as_str(), diff.staged) {
                    self.diff_content = Some(diff.text);
                }
                Action::Noop
            },
            Event::Tick => Action::Noop,
            Event::Resize(_, _) => Action::Noop,
        }
    }

    /// Whether the selected entry has exactly this path and staged
    /// flag.
    fn selection_is(&self, path: &str, staged: bool) -> (r: bool)
        ensures
            r == (self.spec_selected() matches Some(e) && e.path == path@ && e.staged == staged),
    {
        match &self.git_status {
            Some(status) => {
                let files = match self.selected_section {
                    Section::Staged => &status.staged_files,
                    Section::Unstaged => &status.unstaged_files,
                };
                if self.selected_index < files.len() {
                    let f = &files[self.selected_index];
                    proof {
                        assert(f@ == self.spec_files()[self.selected_index as int]);
                    }
                    f.staged == staged && str_eq(f.path.as_str(), path)
                } else {
                    false
                }
            },
            None => false,
        }
    }

    /// Switch between the staged and unstaged sections; rejected (a
    /// no-op) while the destination section has no files.
    pub fn switch_section(&mut self) -> (eff: Effect)
        ensures
            spec_switch(*old(self), *final(self), eff),
    {
        let dest_len = match &self.git_status {
            Some(status) => match self.selected_section {
                Section::Staged => status.unstaged_files.len(),
                Section::Unstaged => status.staged_files.len(),
            },
            None => {
                return Effect::Idle;
            },
        };
        if dest_len > 0 {
            self.selected_section = match self.selected_section {
                Section::Staged => Section::Unstaged,
                Section::Unstaged => Section::Staged,
            };
            self.selected_index = 0;
            self.preview_scroll = 0;
            self.update_diff_for_selected()
        } else {
            Effect::Idle
        }
    }

    /// Ask the loop to stage or unstage the selected file: unstage it
    /// when the staged section is active, stage it otherwise; nothing
    /// to do while no file is selected. The state itself only changes
    /// with the re-synchronization that follows the operation.
    pub fn stage_unstage_selected(&mut self) -> (eff: Effect)
        ensures
            spec_stage_unstage(*old(self), *final(self), eff),
    {
        match &self.git_status {
            Some(status) => {
                let files = match self.selected_section {
                    Section::Staged => &status.staged_files,
                    Section::Unstaged => &status.unstaged_files,
                };
                if self.selected_index < files.len() {
                    proof {
                        let ghost k = self.selected_index as int;
                        assert(files@[k]@ == self.spec_files()[k]);
                    }
                    let path = files[self.selected_index].path.clone();
                    match self.selected_section {
                        Section::Staged => Effect::Unstage { path },
                        Section::Unstaged => Effect::Stage { path },
                    }
                } else {
                    Effect::Idle
                }
            },
            None => Effect::Idle,
        }
    }

    /// Replace the snapshot with a freshly synchronized one: the
    /// selection index is clamped into the new section bounds, and the
    /// diff of whatever is now selected is fetched anew.
    pub fn install_snapshot(&mut self, status: GitStatus) -> (eff: Effect)
        ensures
            final(self).git_status == Some(status),
            final(self).selected_index == spec_clamped_index(
                old(self).selected_index as nat,
                section_len_of(status@, old(self).selected_section),
            ),
            final(self).selected_section == old(self).selected_section,
            final(self).preview_scroll == old(self).preview_scroll,
            final(self).show_preview == old(self).show_preview,
            final(self).show_help == old(self).show_help,
            final(self).should_quit == old(self).should_quit,
            final(self).repo_path == old(self).repo_path,
            final(self).config == old(self).config,
            final(self).theme == old(self).theme,
            final(self).watch_mode == old(self).watch_mode,
            diff_refreshed(old(self).diff_content, *final(self), eff),
            final(self).wf(),
    {
        self.git_status = Some(status);
        let len = self.get_current_section_len();
        let max = if len == 0 {
            0
        } else {
            len - 1
        };
        if self.selected_index > max {
            self.selected_index = max;
        }
        self.update_diff_for_selected()
    }

    /// Apply one action, as [`spec_step`] says; a state in bounds
    /// stays in bounds.
    pub fn handle_action(&mut self, action: Action) -> (eff: Effect)
        ensures
            spec_step(*old(self), action, *final(self), eff),
            old(self).wf() ==> final(self).wf(),
    {
        match action {
            Action::Quit => {
                self.should_quit = true;
                proof {
                    assert(*self == (App { should_quit: true, ..*old(self) }));
                }
                Effect::Idle
            },
            Action::MoveUp => {
                if self.selected_index > 0 {
                    self.selected_index = self.selected_index - 1;
                    self.preview_scroll = 0;
                    self.update_diff_for_selected()
                } else {
                    Effect::Idle
                }
            },
            Action::MoveDown => {
                let len = self.get_current_section_len();
                let max = if len == 0 {
                    0
                } else {
                    len - 1
                };
                if self.selected_index < max {
                    self.selected_index = self.selected_index + 1;
                    self.preview_scroll = 0;
                    self.update_diff_for_selected()
                } else {
                    Effect::Idle
                }
            },
            Action::PageUp => {
                if self.selected_index >= PAGE_STEP {
                    self.selected_index = self.selected_index - PAGE_STEP;
                } else {
                    self.selected_index = 0;
                }
                self.preview_scroll = 0;
                self.update_diff_for_selected()
            },
            Action::PageDown => {
                let len = self.get_current_section_len();
                let max = if len == 0 {
                    0
                } else {
                    len - 1
                };
                if self.selected_index < max {
                    let room = max - self.selected_index;
                    if room > PAGE_STEP {
                        self.selected_index = self.selected_index + PAGE_STEP;
                    } else {
                        self.selected_index = max;
                    }
                } else {
                    self.selected_index = max;
                }
                self.preview_scroll = 0;
                self.update_diff_for_selected()
            },
            Action::TogglePreview => {
                self.show_preview = !self.show_preview;
                proof {
                    assert(*self == (App { show_preview: !old(self).show_preview, ..*old(self) }));
                }
                Effect::Idle
            },
            Action::ToggleHelp => {
                self.show_help = !self.show_help;
                proof {
                    assert(*self == (App { show_help: !old(self).show_help, ..*old(self) }));
                }
                Effect::Idle
            },
            Action::Refresh => Effect::Refresh,
            Action::SwitchSection => self.switch_section(),
            Action::StageUnstage => self.stage_unstage_selected(),
            Action::Noop => Effect::Idle,
        }
    }

    /// Ask the loop to fetch the diff of the selected file; with a
    /// snapshot but nothing selected, clear the preview instead.
    pub fn update_diff_for_selected(&mut self) -> (eff: Effect)
        ensures
            diff_refreshed(old(self).diff_content, *final(self), eff),
            final(self).git_status == old(self).git_status,
            final(self).selected_index == old(self).selected_index,
            final(self).selected_section == old(self).selected_section,
            final(self).preview_scroll == old(self).preview_scroll,
            final(self).show_preview == old(self).show_preview,
            final(self).show_help == old(self).show_help,
            final(self).should_quit == old(self).should_quit,
            final(self).repo_path == old(self).repo_path,
            final(self).config == old(self).config,
            final(self).theme == old(self).theme,
            final(self).watch_mode == old(self).watch_mode,
    {
        let target: Option<(String, bool)> = match &self.git_status {
            Some(status) => {
                let files = match self.selected_section {
                    Section::Staged => &status.staged_files,
                    Section::Unstaged => &status.unstaged_files,
                };
                if self.selected_index < files.len() {
                    let f = &files[self.selected_index];
                    proof {
                        assert(f@ == self.spec_files()[self.selected_index as int]);
                    }
                    Some((f.path.clone(), f.staged))
                } else {
                    None
                }
            },
            None => None,
        };
        match target {
            Some((path, staged)) => Effect::FetchDiff { path, staged },
            None => {
                if self.git_status.is_some() {
                    self.diff_content = None;
                }
                Effect::Idle
            },
        }
    }
}

/// Number of files `section` holds in the snapshot `st`.
pub open spec fn section_len_of(st: crate::status::GitStatusView, section: Section) -> nat {
    match section {
        Section::Staged => st.staged_files.len(),
        Section::Unstaged => st.unstaged_files.len(),
    }
}

/// What a clamped selection index becomes for a section of `len`
/// files: itself when already in bounds, the last valid index when
/// beyond it, and zero for an empty section.
pub open spec fn spec_clamped_index(idx: nat, len: nat) -> nat {
    let max = if len == 0 {
        0
    } else {
        (len - 1) as nat
    };
    if idx > max {
        max
    } else {
        idx
    }
}

/// Everything a cursor movement leaves alone.
pub open spec fn nav_frame(pre: App, post: App) -> bool {
    &&& post.repo_path == pre.repo_path
    &&& post.config == pre.config
    &&& post.theme == pre.theme
    &&& post.watch_mode == pre.watch_mode
    &&& post.git_status == pre.git_status
    &&& post.show_preview == pre.show_preview
    &&& post.show_help == pre.show_help
    &&& post.should_quit == pre.should_quit
    &&& post.selected_section == pre.selected_section
}

/// How switching sections settles: with no snapshot, or with an empty
/// destination section, nothing at all changes; otherwise the other
/// section becomes active with the first file selected, the scroll
/// reset, and that file's diff fetched.
pub open spec fn spec_switch(pre: App, post: App, eff: Effect) -> bool {
    match pre.git_status {
        None => post == pre && eff is Idle,
        Some(st) => {
            let dest = pre.selected_section.spec_other();
            if section_len_of(st@, dest) == 0 {
                post == pre && eff is Idle
            } else {
                &&& post.repo_path == pre.repo_path
                &&& post.config == pre.config
                &&& post.theme == pre.theme
                &&& post.watch_mode == pre.watch_mode
                &&& post.git_status == pre.git_status
                &&& post.show_preview == pre.show_preview
                &&& post.show_help == pre.show_help
                &&& post.should_quit == pre.should_quit
                &&& post.selected_section == dest
                &&& post.selected_index == 0
                &&& post.preview_scroll == 0
                &&& diff_refreshed(pre.diff_content, post, eff)
            }
        },
    }
}

/// How the stage/unstage request settles: the state never changes
/// here; with a file selected in the staged section the effect asks to
/// unstage its path, in the unstaged section to stage it, and with
/// nothing selected there is nothing to do. The loop performs the
/// operation and then re-synchronizes.
pub open spec fn spec_stage_unstage(pre: App, post: App, eff: Effect) -> bool {
    post == pre && match pre.spec_selected() {
        Some(e) => match pre.selected_section {
            Section::Staged => eff matches Effect::Unstage { path } && path@ == e.path,
            Section::Unstaged => eff matches Effect::Stage { path } && path@ == e.path,
        },
        None => eff is Idle,
    }
}

/// What applying one action to the state must yield: the new state and
/// the effect the loop owes. A movement off either end of the list,
/// a section switch into an empty section, and every no-op action
/// leave the state exactly as it was.
pub open spec fn spec_step(pre: App, action: Action, post: App, eff: Effect) -> bool {
    match action {
        Action::Quit => post == (App { should_quit: true, ..pre }) && eff is Idle,
        Action::MoveUp => if pre.selected_index > 0 {
            &&& nav_frame(pre, post)
            &&& post.selected_index == pre.selected_index - 1
            &&& post.preview_scroll == 0
            &&& diff_refreshed(pre.diff_content, post, eff)
        } else {
            post == pre && eff is Idle
        },
        Action::MoveDown => {
            let len = pre.spec_section_len();
            let max = if len == 0 {
                0
            } else {
                (len - 1) as nat
            };
            if (pre.selected_index as nat) < max {
                &&& nav_frame(pre, post)
                &&& post.selected_index == pre.selected_index + 1
                &&& post.preview_scroll == 0
                &&& diff_refreshed(pre.diff_content, post, eff)
            } else {
                post == pre && eff is Idle
            }
        },
        Action::PageUp => {
            &&& nav_frame(pre, post)
            &&& post.selected_index == (if pre.selected_index >= PAGE_STEP {
                (pre.selected_index - PAGE_STEP) as nat
            } else {
                0
            })
            &&& post.preview_scroll == 0
            &&& diff_refreshed(pre.diff_content, post, eff)
        },
        Action::PageDown => {
            let len = pre.spec_section_len();
            let max = if len == 0 {
                0
            } else {
                (len - 1) as nat
            };
            &&& nav_frame(pre, post)
            &&& post.selected_index == (if pre.selected_index + PAGE_STEP <= max {
                pre.selected_index + PAGE_STEP
            } else {
                max as int
            })
            &&& post.preview_scroll == 0
            &&& diff_refreshed(pre.diff_content, post, eff)
        },
        Action::TogglePreview => post == (App { show_preview: !pre.show_preview, ..pre })
            && eff is Idle,
        Action::ToggleHelp => post == (App { show_help: !pre.show_help, ..pre }) && eff is Idle,
        Action::Refresh => post == pre && eff is Refresh,
        Action::SwitchSection => spec_switch(pre, post, eff),
        Action::StageUnstage => spec_stage_unstage(pre, post, eff),
        Action::Noop => post == pre && eff is Idle,
    }
}

/// Whether the single character `c` is exactly the configured binding
/// `b`.
fn char_is_binding(c: char, b: &String) -> (r: bool)
    ensures
        r == (seq![c] == b@),
{
    let bs = b.as_str();
    let n = bs.unicode_len();
    if n == 1 {
        let r = bs.get_char(0) == c;
        proof {
            if r {
                assert(seq![c] =~= b@);
            } else {
                assert(seq![c][0] != b@[0]);
            }
        }
        r
    } else {
        proof {
            assert(seq![c].len() != b@.len());
        }
        false
    }
}

} // verus!
