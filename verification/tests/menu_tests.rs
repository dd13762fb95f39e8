use hyperterm_video::config::{ColorMode, Config, QualityPreset, RenderMode};
use hyperterm_video::file_browser::{FileBrowser, ListedEntry, MediaFile};
use hyperterm_video::file_browser_ui::{browser_line, help_lines, FileBrowserUI, MenuMode, UiAction};
use hyperterm_video::input::KeyPress;
use hyperterm_video::ui::SettingsMenu;

fn media(name: &str, ext: &str, size: u64) -> MediaFile {
    MediaFile { path: format!("/home/user/{}", name), name: name.to_string(), size, extension: ext.to_string() }
}

fn ui_with(items: Vec<(&str, &str, bool)>) -> FileBrowserUI {
    let mut b = FileBrowser::new(None, "/home/user".to_string());
    b.refresh(items.into_iter().map(|(n, e, d)| ListedEntry { file: media(n, e, 2048), is_dir: d }).collect());
    FileBrowserUI::new(Config::default(), b)
}

fn is_continue(a: &UiAction) -> bool {
    matches!(a, UiAction::Continue)
}

#[test]
fn settings_menu_toggles_selected_item() {
    let mut m = SettingsMenu::new(Config::default());
    m.toggle_current_item();
    assert_eq!(m.config().quality_preset, QualityPreset::Quality);
    m.next_item();
    m.toggle_current_item();
    assert_eq!(m.config().render_mode, RenderMode::ASCII);
    m.next_item();
    m.toggle_current_item();
    assert_eq!(m.config().color_mode, ColorMode::Monochrome);
    m.next_item();
    m.toggle_current_item();
    assert!(!m.config().hardware_decode);
    m.next_item();
    m.toggle_current_item();
    assert!(!m.config().dithering);
    m.next_item();
    m.toggle_current_item();
    assert_eq!(m.config().quality_preset, QualityPreset::Ultra);
}

#[test]
fn settings_menu_wraps_backwards() {
    let mut m = SettingsMenu::new(Config::default());
    m.prev_item();
    m.toggle_current_item();
    assert!(!m.config().dithering);
    m.next_item();
    m.prev_item();
    m.toggle_current_item();
    assert!(m.config().dithering);
}

#[test]
fn settings_menu_labels() {
    let m = SettingsMenu::new(Config::default());
    assert_eq!(m.item_labels(), vec![
        "Quality: Balanced".to_string(),
        "Render Mode: Braille".to_string(),
        "Color Mode: Truecolor".to_string(),
        "Hardware Decode: Enabled".to_string(),
        "Dithering: Enabled".to_string(),
    ]);
}

#[test]
fn quit_leaves_without_playing() {
    let mut ui = ui_with(vec![("movie.mp4", "mp4", false)]);
    assert!(matches!(ui.handle_event(KeyPress::Esc, false, false), UiAction::Quit));
    assert!(matches!(ui.handle_event(KeyPress::Char('q'), false, false), UiAction::Quit));
    ui.handle_event(KeyPress::F(1), false, false);
    assert!(matches!(ui.handle_event(KeyPress::Char('q'), false, false), UiAction::Quit));
}

#[test]
fn enter_on_a_video_plays_it() {
    let mut ui = ui_with(vec![("movie.mp4", "mp4", false), ("notes.txt", "txt", false)]);
    ui.handle_event(KeyPress::Down, false, false);
    match ui.handle_event(KeyPress::Enter, false, false) {
        UiAction::Play(p) => assert_eq!(p, "/home/user/movie.mp4"),
        _ => panic!("expected the video to play"),
    }
}

#[test]
fn tab_and_help_switch_views() {
    let mut ui = ui_with(vec![]);
    assert_eq!(ui.menu_mode(), MenuMode::FileBrowser);
    ui.handle_event(KeyPress::Tab, false, false);
    assert_eq!(ui.menu_mode(), MenuMode::Playlist);
    ui.handle_event(KeyPress::Tab, false, false);
    assert_eq!(ui.menu_mode(), MenuMode::Settings);
    ui.handle_event(KeyPress::Tab, false, false);
    assert_eq!(ui.menu_mode(), MenuMode::FileBrowser);
    ui.handle_event(KeyPress::F(1), false, false);
    assert_eq!(ui.menu_mode(), MenuMode::Help);
    ui.handle_event(KeyPress::Char('x'), false, false);
    assert_eq!(ui.menu_mode(), MenuMode::FileBrowser);
    ui.handle_event(KeyPress::Char('h'), false, false);
    ui.handle_event(KeyPress::Tab, false, false);
    assert_eq!(ui.menu_mode(), MenuMode::FileBrowser);
}

#[test]
fn enter_on_directory_and_parent_asks_to_navigate() {
    let mut ui = ui_with(vec![("clips", "", true)]);
    match ui.handle_event(KeyPress::Enter, false, false) {
        UiAction::Navigate(p) => assert_eq!(p, "/home"),
        _ => panic!("expected the parent directory"),
    }
    ui.handle_event(KeyPress::Down, false, false);
    match ui.handle_event(KeyPress::Enter, true, false) {
        UiAction::Navigate(p) => assert_eq!(p, "/home/user/clips"),
        _ => panic!("expected the directory"),
    }
    ui.complete_navigation("/home/user/clips".to_string(), true, vec![]);
    assert_eq!(ui.browser().current_path(), "/home/user/clips");
    assert_eq!(ui.browser().files().len(), 1);
}

#[test]
fn adding_a_video_posts_a_message() {
    let mut ui = ui_with(vec![("film.avi", "avi", false), ("doc.txt", "txt", false)]);
    ui.handle_event(KeyPress::Down, false, false);
    ui.handle_event(KeyPress::Char('a'), false, false);
    assert_eq!(ui.get_playlist().entries().len(), 1);
    let e = &ui.get_playlist().entries()[0];
    assert_eq!(e.title, "film.avi");
    assert_eq!(e.path, "/home/user/film.avi");
    assert_eq!(f64::from_bits(e.duration_bits), 0.0);
    assert_eq!(ui.status_line(), "  📁 Browser  |  ✓ Added: film.avi");
    for _ in 0..100 {
        ui.tick();
    }
    assert_eq!(ui.status_line(), "  📁 Browser  |  TAB: Switch • F1: Help • q: Quit • ENTER: Play");
}

#[test]
fn playlist_view_keys() {
    let mut ui = ui_with(vec![("a.mp4", "mp4", false), ("b.mp4", "mp4", false)]);
    ui.handle_event(KeyPress::Down, false, false);
    ui.handle_event(KeyPress::Char('a'), false, false);
    ui.handle_event(KeyPress::Down, false, false);
    ui.handle_event(KeyPress::Char('a'), false, false);
    ui.handle_event(KeyPress::Tab, false, false);
    assert_eq!(ui.playlist_lines(), vec!["▶ a.mp4".to_string(), "  b.mp4".to_string()]);
    ui.handle_event(KeyPress::Up, false, false);
    assert_eq!(ui.get_playlist().current_index(), 1);
    ui.handle_event(KeyPress::Down, false, false);
    assert_eq!(ui.get_playlist().current_index(), 0);
    assert!(is_continue(&ui.handle_event(KeyPress::Enter, false, false)));
    match ui.handle_event(KeyPress::Enter, false, true) {
        UiAction::Play(p) => assert_eq!(p, "/home/user/a.mp4"),
        _ => panic!("expected the entry to play"),
    }
    ui.handle_event(KeyPress::Delete, false, false);
    assert_eq!(ui.get_playlist().entries().len(), 1);
    assert_eq!(ui.status_line(), "  ▶ Playlist  |  ✓ Removed from playlist");
    ui.handle_event(KeyPress::Char('c'), false, false);
    assert!(ui.get_playlist().entries().is_empty());
    assert_eq!(ui.status_line(), "  ▶ Playlist  |  ✓ Playlist cleared");
    assert!(matches!(ui.handle_event(KeyPress::Char('q'), false, false), UiAction::Quit));
}

#[test]
fn settings_view_keys() {
    let mut ui = ui_with(vec![]);
    ui.handle_event(KeyPress::Tab, false, false);
    ui.handle_event(KeyPress::Tab, false, false);
    ui.handle_event(KeyPress::Char('r'), false, false);
    assert_eq!(ui.get_config().render_mode, RenderMode::ASCII);
    assert_eq!(ui.status_line(), "  ⚙ Settings  |  ▶ Render: ASCII");
    ui.handle_event(KeyPress::Char('c'), false, false);
    assert_eq!(ui.status_line(), "  ⚙ Settings  |  ▶ Color: Monochrome");
    ui.handle_event(KeyPress::Char('d'), false, false);
    assert_eq!(ui.status_line(), "  ⚙ Settings  |  ▶ Dithering: Off");
    assert!(!ui.get_config().dithering);
    assert!(is_continue(&ui.handle_event(KeyPress::Char('q'), false, false)));
    assert_eq!(ui.get_config().quality_preset, QualityPreset::Quality);
    assert_eq!(ui.menu_mode(), MenuMode::Settings);
    assert_eq!(ui.status_line(), "  ⚙ Settings  |  ▶ Quality: Quality");
    assert!(is_continue(&ui.handle_event(KeyPress::Char('h'), false, false)));
    assert!(!ui.get_config().hardware_decode);
    assert_eq!(ui.menu_mode(), MenuMode::Settings);
    assert_eq!(ui.status_line(), "  ⚙ Settings  |  ▶ HW Decode: Off");
    assert!(matches!(ui.handle_event(KeyPress::Esc, false, false), UiAction::Quit));
    let lines = ui.settings_lines();
    assert_eq!(lines[3], "  Render Mode: ASCII");
    assert_eq!(lines[6], "  Dithering: ✗ Disabled");
    assert_eq!(lines[7], "  Hardware Decode: ✗ Disabled");
    ui.get_config_mut().dithering = true;
    assert!(ui.get_config().dithering);
}

#[test]
fn browser_lines() {
    let f = media("film.mp4", "mp4", 1536);
    assert_eq!(browser_line(&f, true, false), "➤ 🎬 film.mp4 (1.50KB)");
    assert_eq!(browser_line(&f, false, true), "  📁 film.mp4 (1.50KB)");
}

#[test]
fn help_lists_the_keys() {
    let h = help_lines();
    assert_eq!(h.len(), 25);
    assert_eq!(h[3], "  ENTER            Play selected video");
    assert_eq!(h[17], "  q                Cycle quality preset");
    assert_eq!(h[19], "  h                Toggle hardware decode");
    assert_eq!(h[23], "  q/ESC            Quit without playing");
}
