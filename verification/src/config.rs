//! Application configuration: display toggles, UI settings and key
//! bindings, with their defaults, and the resolution of the
//! configuration file path.

use vstd::prelude::*;

verus! {

/// Display configuration: which panels and columns to show.
#[derive(Debug, Clone, Copy, PartialEq, Eq, Structural)]
pub struct DisplayConfig {
    /// Show file path and status.
    pub show_file_path_and_status: bool,
    /// Show line change counts.
    pub show_line_change_counts: bool,
    /// Show staged vs unstaged sections.
    pub show_staged_vs_unstaged: bool,
    /// Show the file preview panel.
    pub show_file_preview: bool,
    /// Show branch information.
    pub show_branch_info: bool,
    /// Show last commit information.
    pub show_last_commit_info: bool,
}

impl Default for DisplayConfig {
    /// Every display toggle starts on.
    fn default() -> (r: DisplayConfig)
        ensures
            r == (DisplayConfig {
                show_file_path_and_status: true,
                show_line_change_counts: true,
                show_staged_vs_unstaged: true,
                show_file_preview: true,
                show_branch_info: true,
                show_last_commit_info: true,
            }),
    {
        DisplayConfig {
            show_file_path_and_status: true,
            show_line_change_counts: true,
            show_staged_vs_unstaged: true,
            show_file_preview: true,
            show_branch_info: true,
            show_last_commit_info: true,
        }
    }
}

/// UI configuration.
#[derive(Debug, Clone)]
pub struct UIConfig {
    /// Color scheme name.
    pub color_scheme: String,
    /// Refresh debounce window in milliseconds.
    pub refresh_debounce_ms: u32,
    /// Maximum lines to show in the preview.
    pub max_preview_lines: u32,
}

impl Default for UIConfig {
    /// The default color scheme with a 100 ms debounce window and a
    /// 20-line preview hint.
    fn default() -> (r: UIConfig)
        ensures
            r.color_scheme@ == "catppuccin"@,
            r.refresh_debounce_ms == 100,
            r.max_preview_lines == 20,
    {
        UIConfig {
            color_scheme: String::from_str("catppuccin"),
            refresh_debounce_ms: 100,
            max_preview_lines: 20,
        }
    }
}

/// Mathematical value of a [`KeybindingsConfig`].
#[verifier::ext_equal]
pub ghost struct KeybindingsView {
    pub quit: Seq<char>,
    pub refresh: Seq<char>,
    pub toggle_preview: Seq<char>,
    pub help: Seq<char>,
    pub stage: Seq<char>,
    pub up: Seq<char>,
    pub down: Seq<char>,
    pub page_up: Seq<char>,
    pub page_down: Seq<char>,
}

impl KeybindingsView {
    /// The default bindings.
    pub open spec fn standard() -> KeybindingsView {
        KeybindingsView {
            quit: "q"@,
            refresh: "r"@,
            toggle_preview: "p"@,
            help: "?"@,
            stage: "s"@,
            up: "up"@,
            down: "down"@,
            page_up: "pageup"@,
            page_down: "pagedown"@,
        }
    }
}

/// Key bindings, each a single-character binding or the name of a
/// special key.
#[derive(Debug, Clone)]
pub struct KeybindingsConfig {
    /// Quit the application.
    pub quit: String,
    /// Refresh the snapshot.
    pub refresh: String,
    /// Toggle the preview panel.
    pub toggle_preview: String,
    /// Toggle the help menu.
    pub help: String,
    /// Stage or unstage the selected file.
    pub stage: String,
    /// Move selection up.
    pub up: String,
    /// Move selection down.
    pub down: String,
    /// Page up.
    pub page_up: String,
    /// Page down.
    pub page_down: String,
}

impl View for KeybindingsConfig {
    type V = KeybindingsView;

    open spec fn view(&self) -> KeybindingsView {
        KeybindingsView {
            quit: self.quit@,
            refresh: self.refresh@,
            toggle_preview: self.toggle_preview@,
            help: self.help@,
            stage: self.stage@,
            up: self.up@,
            down: self.down@,
            page_up: self.page_up@,
            page_down: self.page_down@,
        }
    }
}

impl Default for KeybindingsConfig {
    /// The standard bindings.
    fn default() -> (r: KeybindingsConfig)
        ensures
            r@ == KeybindingsView::standard(),
    {
        let r = KeybindingsConfig {
            quit: String::from_str("q"),
            refresh: String::from_str("r"),
            toggle_preview: String::from_str("p"),
            help: String::from_str("?"),
            stage: String::from_str("s"),
            up: String::from_str("up"),
            down: String::from_str("down"),
            page_up: String::from_str("pageup"),
            page_down: String::from_str("pagedown"),
        };
        proof {
            assert(r@ =~= KeybindingsView::standard());
        }
        r
    }
}

/// Main configuration structure.
#[derive(Debug, Clone)]
pub struct Config {
    /// Display settings.
    pub display: DisplayConfig,
    /// UI settings.
    pub ui: UIConfig,
    /// Key bindings.
    pub keybindings: KeybindingsConfig,
}

impl Default for Config {
    /// Every part takes its own default.
    fn default() -> (r: Config)
        ensures
            r.display == (DisplayConfig {
                show_file_path_and_status: true,
                show_line_change_counts: true,
                show_staged_vs_unstaged: true,
                show_file_preview: true,
                show_branch_info: true,
                show_last_commit_info: true,
            }),
            r.ui.color_scheme@ == "catppuccin"@,
            r.ui.refresh_debounce_ms == 100,
            r.ui.max_preview_lines == 20,
            r.keybindings@ == KeybindingsView::standard(),
    {
        Config {
            display: DisplayConfig::default(),
            ui: UIConfig::default(),
            keybindings: KeybindingsConfig::default(),
        }
    }
}

/// Why a configuration file path could not be resolved.
#[derive(Debug, Clone, Copy, PartialEq, Eq, Structural)]
pub enum ConfigError {
    /// The platform knows no per-user configuration directory.
    NoConfigDirectory,
}

/// Resolves where the configuration file lives.
pub struct ConfigLoader {
    /// Path to the configuration file.
    pub config_path: String,
}

impl ConfigLoader {
    /// Create a new loader. A custom path is taken as given; otherwise
    /// the configuration file lives under a fixed name inside the
    /// platform's per-user configuration directory, which the caller
    /// looks up and passes in; a platform that knows no such directory
    /// is an error.
    pub fn new(custom_path: Option<String>, config_dir: Option<String>) -> (r: Result<
        ConfigLoader,
        ConfigError,
    >)
        ensures
            custom_path matches Some(p) ==> r matches Ok(l) && l.config_path@ == p@,
            custom_path is None ==> (config_dir matches Some(d) ==> (r matches Ok(l)
                && l.config_path@ == d@ + "/git-file-monitor/gfm.json"@)),
            custom_path is None && config_dir is None ==> r == Err::<
                ConfigLoader,
                ConfigError,
            >(ConfigError::NoConfigDirectory),
    {
        match custom_path {
            Some(path) => Ok(ConfigLoader { config_path: path }),
            None => match config_dir {
                Some(dir) => {
                    let ghost d0 = dir@;
                    let mut path = dir;
                    path.append("/git-file-monitor/gfm.json");
                    proof {
                        assert(path@ == d0 + "/git-file-monitor/gfm.json"@);
                    }
                    Ok(ConfigLoader { config_path: path })
                },
                None => Err(ConfigError::NoConfigDirectory),
            },
        }
    }

    /// The resolved configuration file path.
    pub fn config_path(&self) -> (r: &String)
        ensures
            r@ == self.config_path@,
    {
        &self.config_path
    }
}

} // verus!