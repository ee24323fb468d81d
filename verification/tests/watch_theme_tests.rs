use gfm::config::Config;
use gfm::config::ConfigLoader;
use gfm::display::classify_diff_line;
use gfm::display::list_selection_row;
use gfm::display::DiffLineKind;
use gfm::state::Section;
use gfm::status::FileStatusType;
use gfm::theme::Theme;
use gfm::watch::metadata_watch_paths;
use gfm::watch::should_notify;
use gfm::watch::WatchEventKind;

#[test]
fn a_burst_collapses_to_one_notification() {
    // Twenty raw change events inside one debounce window arrive as
    // one batch; the decision yields one (and only one) signal.
    let batch: Vec<WatchEventKind> = (0..20).map(|_| WatchEventKind::Change).collect();
    let mut signals: usize = 0;
    if should_notify(&batch) {
        signals += 1;
    }
    assert_eq!(signals, 1);
}

#[test]
fn metadata_only_batches_are_filtered_out() {
    let batch = vec![WatchEventKind::Continuous, WatchEventKind::Continuous];
    assert!(!should_notify(&batch));
    assert!(!should_notify(&Vec::new()));
    let mixed = vec![WatchEventKind::Continuous, WatchEventKind::Change];
    assert!(should_notify(&mixed));
}

#[test]
fn metadata_paths_cover_the_usual_suspects() {
    let paths = metadata_watch_paths("/repo");
    let rendered: Vec<(String, bool)> =
        paths.iter().map(|p| (p.path.clone(), p.recursive)).collect();
    assert_eq!(
        rendered,
        vec![
            ("/repo/.git/HEAD".to_string(), false),
            ("/repo/.git/refs/heads".to_string(), true),
            ("/repo/.git/refs/remotes".to_string(), true),
            ("/repo/.git/index".to_string(), false),
            ("/repo/.git/packed-refs".to_string(), false),
        ]
    );
}

#[test]
fn theme_names_select_palettes() {
    assert_eq!(Theme::from_name("nord").name, "nord");
    assert_eq!(Theme::from_name("NORD").name, "nord");
    assert_eq!(Theme::from_name("Tokyo-Night").name, "tokyo-night");
    assert_eq!(Theme::from_name("tokyonight").name, "tokyo-night");
    assert_eq!(Theme::from_name("dracula").name, "dracula");
    assert_eq!(Theme::from_name("something-else").name, "catppuccin");
    assert_eq!(Theme::default().name, "catppuccin");
    assert_eq!(Theme::from_name("dracula").display_name, "Dracula");
}

#[test]
fn default_config_has_standard_bindings() {
    let config = Config::default();
    assert!(config.display.show_file_preview);
    assert!(config.display.show_branch_info);
    assert_eq!(config.ui.color_scheme, "catppuccin");
    assert_eq!(config.ui.refresh_debounce_ms, 100);
    assert_eq!(config.ui.max_preview_lines, 20);
    assert_eq!(config.keybindings.quit, "q");
    assert_eq!(config.keybindings.refresh, "r");
    assert_eq!(config.keybindings.stage, "s");
    assert_eq!(config.keybindings.page_down, "pagedown");
}

#[test]
fn config_loader_takes_custom_path() {
    let loader = ConfigLoader::new(Some("/tmp/custom.json".to_string()), None).unwrap();
    assert_eq!(loader.config_path().as_str(), "/tmp/custom.json");
}

#[test]
fn diff_lines_are_classified_by_prefix() {
    assert_eq!(classify_diff_line("+++ b/file.txt"), DiffLineKind::FileHeader);
    assert_eq!(classify_diff_line("--- a/file.txt"), DiffLineKind::FileHeader);
    assert_eq!(classify_diff_line("@@ -1,3 +1,4 @@"), DiffLineKind::HunkHeader);
    assert_eq!(classify_diff_line("+added"), DiffLineKind::Added);
    assert_eq!(classify_diff_line("-removed"), DiffLineKind::Removed);
    assert_eq!(classify_diff_line("diff --git a/x b/x"), DiffLineKind::Meta);
    assert_eq!(classify_diff_line("index abc..def 100644"), DiffLineKind::Meta);
    assert_eq!(classify_diff_line(" context"), DiffLineKind::Context);
}

#[test]
fn selection_row_accounts_for_headers() {
    // Staged block: header at 0, files at 1..=2, separator at 3;
    // unstaged header at 4, files from 5.
    assert_eq!(list_selection_row(2, 3, Section::Staged, 1), Some(2));
    assert_eq!(list_selection_row(2, 3, Section::Unstaged, 0), Some(5));
    assert_eq!(list_selection_row(0, 3, Section::Unstaged, 2), Some(3));
    assert_eq!(list_selection_row(2, 3, Section::Staged, 5), None);
    assert_eq!(list_selection_row(0, 0, Section::Staged, 0), None);
}

#[test]
fn status_kinds_take_semantic_colors() {
    let theme = Theme::default();
    assert_eq!(theme.status_color(FileStatusType::Modified), theme.warning);
    assert_eq!(theme.status_color(FileStatusType::Added), theme.success);
    assert_eq!(theme.status_color(FileStatusType::Deleted), theme.error);
    assert_eq!(theme.status_color(FileStatusType::Renamed), theme.info);
    assert_eq!(theme.status_color(FileStatusType::Untracked), theme.untracked);
    assert_eq!(theme.status_color(FileStatusType::Unmerged), theme.accent);
}
