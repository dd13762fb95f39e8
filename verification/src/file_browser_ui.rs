//! The start-up menu: a file browser, a playlist and the settings, switched
//! with Tab and driven key by key.
use vstd::prelude::*;
use crate::config::Config;
use crate::file_browser::{
    down_index, parent_of, path_parent, up_index, video_extensions, FileBrowser, ListedEntry,
    MediaFile, is_listing_of, clamp_cursor,
};
use crate::input::KeyPress;
use crate::playlist::{entry_at, Playlist, PlaylistEntry};
use crate::text::{chars_of, contains_chars, has_substring, labeled, labeled_str};

verus! {

/// The view the menu shows.
#[derive(Debug, Clone, Copy, PartialEq, Eq, Structural)]
pub enum MenuMode {
    FileBrowser,
    Playlist,
    Settings,
    Help,
}

/// The view Tab switches to: browser, playlist, settings, and back to the
/// browser; help also goes back to the browser.
pub open spec fn tab_next(m: MenuMode) -> MenuMode {
    match m {
        MenuMode::FileBrowser => MenuMode::Playlist,
        MenuMode::Playlist => MenuMode::Settings,
        MenuMode::Settings => MenuMode::FileBrowser,
        MenuMode::Help => MenuMode::FileBrowser,
    }
}

/// What the caller of `handle_event` does next.
pub enum UiAction {
    /// Keep drawing and reading keys.
    Continue,
    /// Leave the menu without playing anything.
    Quit,
    /// List the directory at this path and hand it to `complete_navigation`.
    Navigate(String),
    /// Leave the menu and play the video at this path.
    Play(String),
}

/// The view of a navigation request in an action.
pub open spec fn navigation_of(r: UiAction) -> Option<Seq<char>> {
    match r {
        UiAction::Navigate(p) => Some(p@),
        _ => None,
    }
}

/// The view of the video an action asks to play.
pub open spec fn play_of(r: UiAction) -> Option<Seq<char>> {
    match r {
        UiAction::Play(p) => Some(p@),
        _ => None,
    }
}

/// How many refreshes a status message stays up.
pub const MESSAGE_TICKS: u32 = 100;

/// "On" or "Off".
pub open spec fn on_word(b: bool) -> Seq<char> {
    if b {
        "On"@
    } else {
        "Off"@
    }
}

/// The settings after a key in the settings view: r, c and q step the render
/// mode, color mode and quality; d and h flip dithering and hardware decoding.
pub open spec fn settings_key_config(c: Config, key: KeyPress) -> Config {
    match key {
        KeyPress::Char('r') => Config { render_mode: c.render_mode.spec_next(), ..c },
        KeyPress::Char('c') => Config { color_mode: c.color_mode.spec_next(), ..c },
        KeyPress::Char('q') => Config { quality_preset: c.quality_preset.spec_next(), ..c },
        KeyPress::Char('d') => Config { dithering: !c.dithering, ..c },
        KeyPress::Char('h') => Config { hardware_decode: !c.hardware_decode, ..c },
        _ => c,
    }
}

/// The status message a key in the settings view posts, naming the new value.
pub open spec fn settings_key_message(c: Config, key: KeyPress) -> Option<Seq<char>> {
    let n = settings_key_config(c, key);
    match key {
        KeyPress::Char('r') => Some("▶ Render: "@ + n.render_mode.spec_label()),
        KeyPress::Char('c') => Some("▶ Color: "@ + n.color_mode.spec_label()),
        KeyPress::Char('q') => Some("▶ Quality: "@ + n.quality_preset.spec_label()),
        KeyPress::Char('d') => Some("▶ Dithering: "@ + on_word(n.dithering)),
        KeyPress::Char('h') => Some("▶ HW Decode: "@ + on_word(n.hardware_decode)),
        _ => None,
    }
}

/// The view of an optional string.
pub open spec fn opt_view(o: Option<String>) -> Option<Seq<char>> {
    match o {
        Some(s) => Some(s@),
        None => None,
    }
}

/// The item under the browser's cursor, if any.
pub open spec fn selected_of(b: FileBrowser) -> Option<MediaFile> {
    if b.spec_selected_index() < b.spec_files().len() {
        Some(b.spec_files()[b.spec_selected_index() as int])
    } else {
        None
    }
}

/// Whether a listed item is the entry that leads to the parent directory.
pub open spec fn names_parent(f: MediaFile) -> bool {
    has_substring(f.name@, "Parent Directory"@)
}

/// `e` is the playlist entry the browser adds for `f`: same path, the file
/// name as title, zero length and position.
pub open spec fn entry_for(e: PlaylistEntry, f: MediaFile) -> bool {
    &&& e.path@ == f.path@
    &&& e.title@ == f.name@
    &&& e.duration_bits == 0
    &&& e.position_bits == 0
}

/// The menu state.
pub struct FileBrowserUI {
    browser: FileBrowser,
    playlist: Playlist,
    config: Config,
    menu_mode: MenuMode,
    message: String,
    message_timer: u32,
    selected_file: Option<String>,
}

impl FileBrowserUI {
    pub closed spec fn spec_browser(&self) -> FileBrowser {
        self.browser
    }

    pub closed spec fn spec_playlist(&self) -> Playlist {
        self.playlist
    }

    pub closed spec fn spec_config(&self) -> Config {
        self.config
    }

    pub closed spec fn spec_menu_mode(&self) -> MenuMode {
        self.menu_mode
    }

    pub closed spec fn spec_message(&self) -> Seq<char> {
        self.message@
    }

    pub closed spec fn spec_message_timer(&self) -> u32 {
        self.message_timer
    }

    pub closed spec fn spec_selected_file(&self) -> Option<Seq<char>> {
        opt_view(self.selected_file)
    }
}

/// `b` has the same browser as `a`.
pub open spec fn same_browser(a: FileBrowserUI, b: FileBrowserUI) -> bool {
    &&& b.spec_browser().spec_files() == a.spec_browser().spec_files()
    &&& b.spec_browser().spec_current_path() == a.spec_browser().spec_current_path()
    &&& b.spec_browser().spec_selected_index() == a.spec_browser().spec_selected_index()
}

/// `b` has the same playlist as `a`.
pub open spec fn same_playlist(a: FileBrowserUI, b: FileBrowserUI) -> bool {
    &&& b.spec_playlist().spec_entries() == a.spec_playlist().spec_entries()
    &&& b.spec_playlist().spec_current_index() == a.spec_playlist().spec_current_index()
    &&& b.spec_playlist().spec_repeat_mode() == a.spec_playlist().spec_repeat_mode()
    &&& b.spec_playlist().spec_shuffle() == a.spec_playlist().spec_shuffle()
}

/// `b` shows the same status message as `a`.
pub open spec fn same_message(a: FileBrowserUI, b: FileBrowserUI) -> bool {
    &&& b.spec_message() == a.spec_message()
    &&& b.spec_message_timer() == a.spec_message_timer()
}

/// `b` posts the status message `m` for the full time.
pub open spec fn posts(b: FileBrowserUI, m: Seq<char>) -> bool {
    &&& b.spec_message() == m
    &&& b.spec_message_timer() == MESSAGE_TICKS
}

/// Nothing but the browser, playlist, message and chosen file may differ.
pub open spec fn same_frame(a: FileBrowserUI, b: FileBrowserUI) -> bool {
    &&& b.spec_config() == a.spec_config()
    &&& b.spec_menu_mode() == a.spec_menu_mode()
}

/// `b` equals `a`.
pub open spec fn same_ui(a: FileBrowserUI, b: FileBrowserUI) -> bool {
    &&& same_browser(a, b)
    &&& same_playlist(a, b)
    &&& same_message(a, b)
    &&& same_frame(a, b)
    &&& b.spec_selected_file() == a.spec_selected_file()
}

/// A key in the browser view: the arrows move the cursor; Enter on the parent
/// entry asks to go to the parent directory, on a directory asks to open it,
/// on a video chooses it and asks to play it; `a` adds the video under the
/// cursor to the playlist. `is_dir` says whether the item under the cursor is
/// a directory; `r` is the directory to open and `play` the video to play, if any.
pub open spec fn browser_step(
    a: FileBrowserUI,
    b: FileBrowserUI,
    key: KeyPress,
    is_dir: bool,
    r: Option<Seq<char>>,
    play: Option<Seq<char>>,
) -> bool {
    let ab = a.spec_browser();
    let bb = b.spec_browser();
    &&& same_frame(a, b)
    &&& (key != KeyPress::Enter ==> play is None)
    &&& match key {
        KeyPress::Down => {
            &&& bb.spec_selected_index() == down_index(ab.spec_selected_index() as int, ab.spec_files().len() as int)
            &&& bb.spec_files() == ab.spec_files()
            &&& bb.spec_current_path() == ab.spec_current_path()
            &&& same_playlist(a, b) && same_message(a, b)
            &&& b.spec_selected_file() == a.spec_selected_file()
            &&& r is None
        },
        KeyPress::Up => {
            &&& bb.spec_selected_index() == up_index(ab.spec_selected_index() as int, ab.spec_files().len() as int)
            &&& bb.spec_files() == ab.spec_files()
            &&& bb.spec_current_path() == ab.spec_current_path()
            &&& same_playlist(a, b) && same_message(a, b)
            &&& b.spec_selected_file() == a.spec_selected_file()
            &&& r is None
        },
        KeyPress::Enter => {
            &&& same_browser(a, b) && same_playlist(a, b) && same_message(a, b)
            &&& match selected_of(ab) {
                Some(f) => if names_parent(f) {
                    r == parent_of(ab.spec_current_path()) && play is None && b.spec_selected_file()
                        == a.spec_selected_file()
                } else if is_dir {
                    r == Some(f.path@) && play is None && b.spec_selected_file() == a.spec_selected_file()
                } else if video_extensions().contains(f.extension@) {
                    r is None && play == Some(f.path@) && b.spec_selected_file() == Some(f.path@)
                } else {
                    r is None && play is None && b.spec_selected_file() == a.spec_selected_file()
                },
                None => r is None && play is None && b.spec_selected_file() == a.spec_selected_file(),
            }
        },
        KeyPress::Char('a') => {
            &&& same_browser(a, b)
            &&& b.spec_selected_file() == a.spec_selected_file()
            &&& r is None
            &&& match selected_of(ab) {
                Some(f) => if video_extensions().contains(f.extension@) {
                    let es = b.spec_playlist().spec_entries();
                    &&& es.len() == a.spec_playlist().spec_entries().len() + 1
                    &&& es.drop_last() == a.spec_playlist().spec_entries()
                    &&& entry_for(es.last(), f)
                    &&& b.spec_playlist().spec_current_index() == a.spec_playlist().spec_current_index()
                    &&& b.spec_playlist().spec_repeat_mode() == a.spec_playlist().spec_repeat_mode()
                    &&& b.spec_playlist().spec_shuffle() == a.spec_playlist().spec_shuffle()
                    &&& posts(b, "✓ Added: "@ + f.name@)
                } else {
                    same_playlist(a, b) && same_message(a, b)
                },
                None => same_playlist(a, b) && same_message(a, b),
            }
        },
        _ => same_ui(a, b) && r is None,
    }
}

/// A key in the playlist view: the arrows move the cursor with wrap-around,
/// Delete removes the entry under the cursor, `c` clears the list, and Enter
/// chooses the entry under the cursor and asks to play it (`play`) when its
/// file exists (`exists`).
pub open spec fn playlist_step(
    a: FileBrowserUI,
    b: FileBrowserUI,
    key: KeyPress,
    exists: bool,
    play: Option<Seq<char>>,
) -> bool {
    let ap = a.spec_playlist();
    let bp = b.spec_playlist();
    let len = ap.spec_entries().len() as int;
    let cur = ap.spec_current_index() as int;
    &&& same_frame(a, b)
    &&& same_browser(a, b)
    &&& bp.spec_repeat_mode() == ap.spec_repeat_mode()
    &&& bp.spec_shuffle() == ap.spec_shuffle()
    &&& (key != KeyPress::Enter ==> play is None)
    &&& match key {
        KeyPress::Down => {
            &&& bp.spec_entries() == ap.spec_entries()
            &&& bp.spec_current_index() == (if len > 0 { (cur + 1) % len } else { cur })
            &&& same_message(a, b) && b.spec_selected_file() == a.spec_selected_file()
        },
        KeyPress::Up => {
            let target = if cur == 0 { len - 1 } else { cur - 1 };
            &&& bp.spec_entries() == ap.spec_entries()
            &&& bp.spec_current_index() == (if len > 0 && target < len { target } else { cur })
            &&& same_message(a, b) && b.spec_selected_file() == a.spec_selected_file()
        },
        KeyPress::Delete => {
            &&& bp.spec_entries() == (if cur < len { ap.spec_entries().remove(cur) } else { ap.spec_entries() })
            &&& bp.spec_current_index() == ap.spec_current_index()
            &&& (if len > 0 { posts(b, "✓ Removed from playlist"@) } else { same_message(a, b) })
            &&& b.spec_selected_file() == a.spec_selected_file()
        },
        KeyPress::Char('c') => {
            &&& bp.spec_entries() == Seq::<PlaylistEntry>::empty()
            &&& bp.spec_current_index() == 0
            &&& posts(b, "✓ Playlist cleared"@)
            &&& b.spec_selected_file() == a.spec_selected_file()
        },
        KeyPress::Enter => {
            &&& same_playlist(a, b) && same_message(a, b)
            &&& b.spec_selected_file() == (match entry_at(ap.spec_entries(), cur) {
                Some(e) => if exists { Some(e.path@) } else { a.spec_selected_file() },
                None => a.spec_selected_file(),
            })
            &&& play == (match entry_at(ap.spec_entries(), cur) {
                Some(e) => if exists { Some(e.path@) } else { None },
                None => None,
            })
        },
        _ => same_ui(a, b),
    }
}

/// A key in the settings view (see `settings_key_config` and `settings_key_message`).
pub open spec fn settings_step(a: FileBrowserUI, b: FileBrowserUI, key: KeyPress) -> bool {
    &&& b.spec_config() == settings_key_config(a.spec_config(), key)
    &&& b.spec_menu_mode() == a.spec_menu_mode()
    &&& same_browser(a, b) && same_playlist(a, b)
    &&& b.spec_selected_file() == a.spec_selected_file()
    &&& match settings_key_message(a.spec_config(), key) {
        Some(m) => posts(b, m),
        None => same_message(a, b),
    }
}

fn push_entry_for(playlist: &mut Playlist, f: &MediaFile)
    ensures
        final(playlist).spec_entries().len() == old(playlist).spec_entries().len() + 1,
        final(playlist).spec_entries().drop_last() == old(playlist).spec_entries(),
        entry_for(final(playlist).spec_entries().last(), *f),
        final(playlist).spec_current_index() == old(playlist).spec_current_index(),
        final(playlist).spec_repeat_mode() == old(playlist).spec_repeat_mode(),
        final(playlist).spec_shuffle() == old(playlist).spec_shuffle(),
{
    let entry = PlaylistEntry {
        path: f.path.clone(),
        title: f.name.clone(),
        duration_bits: 0,
        position_bits: 0,
    };
    playlist.add_entry(entry);
    assert(playlist.spec_entries().drop_last() == old(playlist).spec_entries());
}

impl FileBrowserUI {
    /// A menu over `browser` with an empty playlist, showing the browser.
    pub fn new(config: Config, browser: FileBrowser) -> (r: Self)
        ensures
            r.spec_config() == config,
            r.spec_browser() == browser,
            r.spec_playlist().spec_entries().len() == 0,
            r.spec_playlist().spec_current_index() == 0,
            r.spec_menu_mode() == MenuMode::FileBrowser,
            r.spec_message().len() == 0,
            r.spec_message_timer() == 0,
            r.spec_selected_file() is None,
    {
        FileBrowserUI {
            browser,
            playlist: Playlist::new(),
            config,
            menu_mode: MenuMode::FileBrowser,
            message: String::new(),
            message_timer: 0,
            selected_file: None,
        }
    }

    /// A key in the browser view (see `browser_step`).
    pub fn handle_browser_input(&mut self, key: KeyPress, selected_is_dir: bool) -> (r: UiAction)
        ensures
            browser_step(*old(self), *final(self), key, selected_is_dir, navigation_of(r), play_of(r)),
            r is Continue || r is Navigate || r is Play,
    {
        match key {
            KeyPress::Down => {
                self.browser.move_down();
                UiAction::Continue
            },
            KeyPress::Up => {
                self.browser.move_up();
                UiAction::Continue
            },
            KeyPress::Enter => {
                match self.browser.get_selected() {
                    Some(file) => {
                        let name_chars = chars_of(file.name.as_str());
                        let marker = chars_of("Parent Directory");
                        if contains_chars(&name_chars, &marker) {
                            match path_parent(self.browser.current_path()) {
                                Some(p) => UiAction::Navigate(p),
                                None => UiAction::Continue,
                            }
                        } else if selected_is_dir {
                            UiAction::Navigate(file.path.clone())
                        } else if file.is_video() {
                            self.selected_file = Some(file.path.clone());
                            UiAction::Play(file.path.clone())
                        } else {
                            UiAction::Continue
                        }
                    },
                    None => UiAction::Continue,
                }
            },
            KeyPress::Char('a') => {
                match self.browser.get_selected() {
                    Some(file) => {
                        if file.is_video() {
                            push_entry_for(&mut self.playlist, file);
                            self.message = labeled_str("✓ Added: ", file.name.as_str());
                            self.message_timer = MESSAGE_TICKS;
                        }
                    },
                    None => {},
                }
                UiAction::Continue
            },
            _ => UiAction::Continue,
        }
    }

    /// A key in the playlist view (see `playlist_step`); `current_exists`
    /// says whether the file of the entry under the cursor exists.
    pub fn handle_playlist_input(&mut self, key: KeyPress, current_exists: bool) -> (r: UiAction)
        ensures
            playlist_step(*old(self), *final(self), key, current_exists, play_of(r)),
            r is Continue || r is Play,
    {
        match key {
            KeyPress::Down => {
                let len = self.playlist.entries().len();
                if len > 0 {
                    let cur = self.playlist.current_index();
                    // (cur + 1) % len, computed without leaving the range of usize
                    let next_idx = if cur < len { (cur + 1) % len } else { (cur % len + 1) % len };
                    proof {
                        if cur >= len {
                            vstd::arithmetic::div_mod::lemma_add_mod_noop(cur as int, 1, len as int);
                            if len > 1 {
                                vstd::arithmetic::div_mod::lemma_small_mod(1, len as nat);
                            }
                        }
                    }
                    let _ = self.playlist.set_current_index(next_idx);
                }
            },
            KeyPress::Up => {
                let len = self.playlist.entries().len();
                if len > 0 {
                    let prev_idx = if self.playlist.current_index() == 0 {
                        len - 1
                    } else {
                        self.playlist.current_index() - 1
                    };
                    let _ = self.playlist.set_current_index(prev_idx);
                }
            },
            KeyPress::Delete => {
                if self.playlist.entries().len() > 0 {
                    let cur = self.playlist.current_index();
                    let _ = self.playlist.entries_mut().remove(cur);
                    self.message = String::from_str("✓ Removed from playlist");
                    self.message_timer = MESSAGE_TICKS;
                }
            },
            KeyPress::Char('c') => {
                self.playlist.clear();
                self.message = String::from_str("✓ Playlist cleared");
                self.message_timer = MESSAGE_TICKS;
            },
            KeyPress::Enter => {
                match self.playlist.current() {
                    Some(entry) => {
                        if current_exists {
                            self.selected_file = Some(entry.path.clone());
                            return UiAction::Play(entry.path.clone());
                        }
                    },
                    None => {},
                }
            },
            _ => {},
        }
        UiAction::Continue
    }

    /// A key in the settings view (see `settings_step`).
    pub fn handle_settings_input(&mut self, key: KeyPress)
        ensures
            settings_step(*old(self), *final(self), key),
    {
        match key {
            KeyPress::Char('r') => {
                self.config.render_mode = self.config.render_mode.next();
                self.message = labeled("▶ Render: ", &self.config.render_mode.label());
                self.message_timer = MESSAGE_TICKS;
            },
            KeyPress::Char('c') => {
                self.config.color_mode = self.config.color_mode.next();
                self.message = labeled("▶ Color: ", &self.config.color_mode.label());
                self.message_timer = MESSAGE_TICKS;
            },
            KeyPress::Char('q') => {
                self.config.quality_preset = self.config.quality_preset.next();
                self.message = labeled("▶ Quality: ", &self.config.quality_preset.label());
                self.message_timer = MESSAGE_TICKS;
            },
            KeyPress::Char('d') => {
                self.config.dithering = !self.config.dithering;
                self.message = labeled_str("▶ Dithering: ", if self.config.dithering { "On" } else { "Off" });
                self.message_timer = MESSAGE_TICKS;
            },
            KeyPress::Char('h') => {
                self.config.hardware_decode = !self.config.hardware_decode;
                self.message = labeled_str("▶ HW Decode: ", if self.config.hardware_decode { "On" } else { "Off" });
                self.message_timer = MESSAGE_TICKS;
            },
            _ => {},
        }
    }
}

/// Whether `key` leaves the menu without playing: Esc, or q outside the
/// settings view (where q cycles the quality preset).
pub open spec fn key_quits(key: KeyPress, m: MenuMode) -> bool {
    key == KeyPress::Esc || (key == KeyPress::Char('q') && m != MenuMode::Settings)
}

/// Whether `key` opens the help: F1, or h outside the settings view (where h
/// toggles hardware decoding).
pub open spec fn key_opens_help(key: KeyPress, m: MenuMode) -> bool {
    key == KeyPress::F(1) || (key == KeyPress::Char('h') && m != MenuMode::Settings)
}

/// `b` is `a` showing the view `m`, with everything else the same.
pub open spec fn switched_to(a: FileBrowserUI, b: FileBrowserUI, m: MenuMode) -> bool {
    &&& b.spec_menu_mode() == m
    &&& b.spec_config() == a.spec_config()
    &&& same_browser(a, b) && same_playlist(a, b) && same_message(a, b)
    &&& b.spec_selected_file() == a.spec_selected_file()
}

/// One key press in the menu, from state `a` to state `b` with action `r`
/// (see `key_quits`, `key_opens_help`, `tab_next` and the views' steps).
pub open spec fn event_step(
    a: FileBrowserUI,
    b: FileBrowserUI,
    key: KeyPress,
    is_dir: bool,
    exists: bool,
    r: UiAction,
) -> bool {
    let m = a.spec_menu_mode();
    if key_quits(key, m) {
        same_ui(a, b) && r is Quit
    } else if key_opens_help(key, m) {
        switched_to(a, b, MenuMode::Help) && r is Continue
    } else if key == KeyPress::Tab {
        switched_to(a, b, tab_next(m)) && r is Continue
    } else {
        match m {
            MenuMode::Help => switched_to(a, b, MenuMode::FileBrowser) && r is Continue,
            MenuMode::FileBrowser => {
                &&& browser_step(a, b, key, is_dir, navigation_of(r), play_of(r))
                &&& (r is Continue || r is Navigate || r is Play)
            },
            MenuMode::Playlist => {
                &&& playlist_step(a, b, key, exists, play_of(r))
                &&& (r is Continue || r is Play)
            },
            MenuMode::Settings => settings_step(a, b, key) && r is Continue,
        }
    }
}

/// The mode name shown in the status bar.
pub open spec fn mode_text(m: MenuMode) -> Seq<char> {
    match m {
        MenuMode::FileBrowser => "📁 Browser"@,
        MenuMode::Playlist => "▶ Playlist"@,
        MenuMode::Settings => "⚙ Settings"@,
        MenuMode::Help => "❓ Help"@,
    }
}

/// The key hints shown when no message is up.
pub open spec fn key_hints() -> Seq<char> {
    "TAB: Switch • F1: Help • q: Quit • ENTER: Play"@
}

/// The status bar: the view's name, then the message while it is up, else the key hints.
pub open spec fn status_text(m: MenuMode, message: Seq<char>, timer: u32) -> Seq<char> {
    "  "@ + mode_text(m) + "  |  "@ + (if timer > 0 { message } else { key_hints() })
}

impl FileBrowserUI {
    /// One key press. Esc, and q outside the settings view, leave without
    /// playing; F1, and h outside the settings view, open the help; Tab
    /// switches views. Any other key closes the help or goes to the current
    /// view's handler, so in the settings view q and h change the quality
    /// preset and hardware decoding (see `event_step`).
    pub fn handle_event(&mut self, key: KeyPress, selected_is_dir: bool, current_exists: bool) -> (r: UiAction)
        ensures
            event_step(*old(self), *final(self), key, selected_is_dir, current_exists, r),
    {
        let in_settings = self.menu_mode == MenuMode::Settings;
        match key {
            KeyPress::Esc => UiAction::Quit,
            KeyPress::Char('q') if !in_settings => UiAction::Quit,
            KeyPress::F(1) => {
                self.menu_mode = MenuMode::Help;
                UiAction::Continue
            },
            KeyPress::Char('h') if !in_settings => {
                self.menu_mode = MenuMode::Help;
                UiAction::Continue
            },
            KeyPress::Tab => {
                self.menu_mode = match self.menu_mode {
                    MenuMode::FileBrowser => MenuMode::Playlist,
                    MenuMode::Playlist => MenuMode::Settings,
                    MenuMode::Settings => MenuMode::FileBrowser,
                    MenuMode::Help => MenuMode::FileBrowser,
                };
                UiAction::Continue
            },
            _ => match self.menu_mode {
                MenuMode::Help => {
                    self.menu_mode = MenuMode::FileBrowser;
                    UiAction::Continue
                },
                MenuMode::FileBrowser => self.handle_browser_input(key, selected_is_dir),
                MenuMode::Playlist => self.handle_playlist_input(key, current_exists),
                MenuMode::Settings => {
                    self.handle_settings_input(key);
                    UiAction::Continue
                },
            },
        }
    }
    /// Opens the directory a `Navigate` action asked for, as read by the
    /// caller (see `FileBrowser::navigate_to`).
    pub fn complete_navigation(&mut self, path: String, is_dir: bool, listing: Vec<ListedEntry>)
        ensures
            is_dir ==> final(self).spec_browser().spec_current_path() == path@,
            is_dir ==> is_listing_of(final(self).spec_browser().spec_files(), path@, listing@),
            is_dir ==> final(self).spec_browser().spec_selected_index() == clamp_cursor(
                old(self).spec_browser().spec_selected_index() as int,
                final(self).spec_browser().spec_files().len() as int,
            ),
            !is_dir ==> same_browser(*old(self), *final(self)),
            same_frame(*old(self), *final(self)),
            same_playlist(*old(self), *final(self)),
            same_message(*old(self), *final(self)),
            final(self).spec_selected_file() == old(self).spec_selected_file(),
    {
        self.browser.navigate_to(path, is_dir, listing);
    }

    /// One refresh of the screen: the status message counts down.
    pub fn tick(&mut self)
        ensures
            final(self).spec_message_timer() == (if old(self).spec_message_timer() > 0 {
                (old(self).spec_message_timer() - 1) as u32
            } else {
                0u32
            }),
            final(self).spec_message() == old(self).spec_message(),
            same_browser(*old(self), *final(self)),
            same_playlist(*old(self), *final(self)),
            same_frame(*old(self), *final(self)),
            final(self).spec_selected_file() == old(self).spec_selected_file(),
    {
        if self.message_timer > 0 {
            self.message_timer = self.message_timer - 1;
        }
    }

    /// The status bar text (see `status_text`).
    pub fn status_line(&self) -> (s: String)
        ensures
            s@ == status_text(self.spec_menu_mode(), self.spec_message(), self.spec_message_timer()),
    {
        let mode = match self.menu_mode {
            MenuMode::FileBrowser => "📁 Browser",
            MenuMode::Playlist => "▶ Playlist",
            MenuMode::Settings => "⚙ Settings",
            MenuMode::Help => "❓ Help",
        };
        let mut s = labeled_str("  ", mode);
        s.append("  |  ");
        if self.message_timer > 0 {
            s.append(self.message.as_str());
        } else {
            s.append("TAB: Switch • F1: Help • q: Quit • ENTER: Play");
        }
        s
    }

    pub fn menu_mode(&self) -> (r: MenuMode)
        ensures
            r == self.spec_menu_mode(),
    {
        self.menu_mode
    }

    pub fn browser(&self) -> (r: &FileBrowser)
        ensures
            *r == self.spec_browser(),
    {
        &self.browser
    }

    pub fn get_config(&self) -> (r: &Config)
        ensures
            *r == self.spec_config(),
    {
        &self.config
    }

    /// Direct access to the settings; everything else stays.
    pub fn get_config_mut(&mut self) -> (r: &mut Config)
        ensures
            *r == old(self).spec_config(),
            final(self).spec_config() == *final(r),
            same_browser(*old(self), *final(self)),
            same_playlist(*old(self), *final(self)),
            same_message(*old(self), *final(self)),
            final(self).spec_menu_mode() == old(self).spec_menu_mode(),
            final(self).spec_selected_file() == old(self).spec_selected_file(),
    {
        &mut self.config
    }

    pub fn get_playlist(&self) -> (r: &Playlist)
        ensures
            *r == self.spec_playlist(),
    {
        &self.playlist
    }
}

/// Tab visits the browser, playlist and settings views in turn and comes back.
pub proof fn tab_cycle_returns(m: MenuMode)
    requires
        m != MenuMode::Help,
    ensures
        tab_next(tab_next(tab_next(m))) == m,
{
}


/// A browser line: a pointer on the item under the cursor, a folder or film
/// icon, the name, and the size for display in brackets.
pub open spec fn browser_item_text(f: MediaFile, selected: bool, is_dir: bool) -> Seq<char> {
    (if selected { "➤ "@ } else { "  "@ }) + (if is_dir { "📁"@ } else { "🎬"@ }) + " "@ + f.name@ + " ("@
        + crate::file_browser::size_text(f.size) + ")"@
}

/// A playlist line: a play mark on the entry under the cursor, then the title.
pub open spec fn playlist_item_text(e: PlaylistEntry, current: bool) -> Seq<char> {
    (if current { "▶ "@ } else { "  "@ }) + e.title@
}

/// "✓ Enabled" or "✗ Disabled".
pub open spec fn check_word(b: bool) -> Seq<char> {
    if b {
        "✓ Enabled"@
    } else {
        "✗ Disabled"@
    }
}

/// The lines of the settings view.
pub open spec fn settings_screen(c: Config) -> Seq<Seq<char>> {
    seq![
        ""@,
        "  ⚙️  VIDEO PLAYER SETTINGS"@,
        ""@,
        "  Render Mode: "@ + c.render_mode.spec_label(),
        "  Color Mode: "@ + c.color_mode.spec_label(),
        "  Quality: "@ + c.quality_preset.spec_label(),
        "  Dithering: "@ + check_word(c.dithering),
        "  Hardware Decode: "@ + check_word(c.hardware_decode),
        ""@,
        "  Press r/c/q/d/h to toggle settings"@,
        ""@,
    ]
}

/// The lines of the help view: the keys of each view, as `handle_event`
/// and the views' steps carry them out.
pub open spec fn help_screen() -> Seq<Seq<char>> {
    seq![
        ""@,
        "🎯 NAVIGATION & PLAYBACK"@,
        "  ↑/↓              Navigate up/down"@,
        "  ENTER            Play selected video"@,
        "  TAB              Switch between views"@,
        ""@,
        "📁 FILE BROWSER"@,
        "  a                Add selected video to playlist"@,
        ""@,
        "▶ PLAYLIST"@,
        "  ENTER            Play selected from playlist"@,
        "  DELETE           Remove from playlist"@,
        "  c                Clear entire playlist"@,
        ""@,
        "⚙️  SETTINGS"@,
        "  r                Cycle render mode (ASCII/Block/Braille)"@,
        "  c                Cycle color mode"@,
        "  q                Cycle quality preset"@,
        "  d                Toggle dithering"@,
        "  h                Toggle hardware decode"@,
        ""@,
        "⏺️  GENERAL"@,
        "  F1/h             Show this help"@,
        "  q/ESC            Quit without playing"@,
        ""@,
    ]
}

/// The lines of the help view (see `help_screen`).
pub fn help_lines() -> (r: Vec<String>)
    ensures
        r@.len() == 25,
        forall|i: int| 0 <= i < 25 ==> #[trigger] r@[i]@ == help_screen()[i],
{
    let mut r: Vec<String> = Vec::new();
    r.push(String::from_str(""));
    r.push(String::from_str("🎯 NAVIGATION & PLAYBACK"));
    r.push(String::from_str("  ↑/↓              Navigate up/down"));
    r.push(String::from_str("  ENTER            Play selected video"));
    r.push(String::from_str("  TAB              Switch between views"));
    r.push(String::from_str(""));
    r.push(String::from_str("📁 FILE BROWSER"));
    r.push(String::from_str("  a                Add selected video to playlist"));
    r.push(String::from_str(""));
    r.push(String::from_str("▶ PLAYLIST"));
    r.push(String::from_str("  ENTER            Play selected from playlist"));
    r.push(String::from_str("  DELETE           Remove from playlist"));
    r.push(String::from_str("  c                Clear entire playlist"));
    r.push(String::from_str(""));
    r.push(String::from_str("⚙️  SETTINGS"));
    r.push(String::from_str("  r                Cycle render mode (ASCII/Block/Braille)"));
    r.push(String::from_str("  c                Cycle color mode"));
    r.push(String::from_str("  q                Cycle quality preset"));
    r.push(String::from_str("  d                Toggle dithering"));
    r.push(String::from_str("  h                Toggle hardware decode"));
    r.push(String::from_str(""));
    r.push(String::from_str("⏺️  GENERAL"));
    r.push(String::from_str("  F1/h             Show this help"));
    r.push(String::from_str("  q/ESC            Quit without playing"));
    r.push(String::from_str(""));
    r
}

/// The text of one browser line (see `browser_item_text`); `is_dir` says
/// whether the item is a directory.
pub fn browser_line(file: &MediaFile, selected: bool, is_dir: bool) -> (s: String)
    ensures
        s@ == browser_item_text(*file, selected, is_dir),
{
    let mut s = String::from_str(if selected { "➤ " } else { "  " });
    s.append(if is_dir { "📁" } else { "🎬" });
    s.append(" ");
    s.append(file.name.as_str());
    s.append(" (");
    let size = file.size_string();
    s.append(size.as_str());
    s.append(")");
    s
}

impl FileBrowserUI {
    /// The playlist's lines, in order (see `playlist_item_text`).
    pub fn playlist_lines(&self) -> (r: Vec<String>)
        ensures
            r@.len() == self.spec_playlist().spec_entries().len(),
            forall|i: int|
                0 <= i < r@.len() ==> #[trigger] r@[i]@ == playlist_item_text(
                    self.spec_playlist().spec_entries()[i],
                    i == self.spec_playlist().spec_current_index(),
                ),
    {
        let entries = self.playlist.entries();
        let cur = self.playlist.current_index();
        let mut r: Vec<String> = Vec::new();
        let mut i: usize = 0;
        while i < entries.len()
            invariant
                i <= entries@.len(),
                entries@ == self.spec_playlist().spec_entries(),
                cur == self.spec_playlist().spec_current_index(),
                r@.len() == i,
                forall|k: int|
                    0 <= k < i ==> #[trigger] r@[k]@ == playlist_item_text(entries@[k], k == cur),
            decreases entries@.len() - i,
        {
            let line = labeled_str(if i == cur { "▶ " } else { "  " }, entries[i].title.as_str());
            r.push(line);
            i = i + 1;
        }
        r
    }

    /// The lines of the settings view (see `settings_screen`).
    pub fn settings_lines(&self) -> (r: Vec<String>)
        ensures
            r@.len() == 11,
            forall|i: int| 0 <= i < 11 ==> #[trigger] r@[i]@ == settings_screen(self.spec_config())[i],
    {
        let c = &self.config;
        let mut r: Vec<String> = Vec::new();
        r.push(String::from_str(""));
        r.push(String::from_str("  ⚙️  VIDEO PLAYER SETTINGS"));
        r.push(String::from_str(""));
        r.push(labeled("  Render Mode: ", &c.render_mode.label()));
        r.push(labeled("  Color Mode: ", &c.color_mode.label()));
        r.push(labeled("  Quality: ", &c.quality_preset.label()));
        r.push(labeled_str("  Dithering: ", if c.dithering { "✓ Enabled" } else { "✗ Disabled" }));
        r.push(labeled_str("  Hardware Decode: ", if c.hardware_decode { "✓ Enabled" } else { "✗ Disabled" }));
        r.push(String::from_str(""));
        r.push(String::from_str("  Press r/c/q/d/h to toggle settings"));
        r.push(String::from_str(""));
        r
    }
}

/// Delete in the playlist view takes out exactly the entry under the cursor:
/// the list is one shorter, the entries before the cursor stay where they
/// were, the ones after it move up by one, and the cursor stays.
pub proof fn delete_removes_entry_under_cursor(
    a: FileBrowserUI,
    b: FileBrowserUI,
    exists: bool,
    play: Option<Seq<char>>,
)
    requires
        playlist_step(a, b, KeyPress::Delete, exists, play),
        a.spec_playlist().spec_current_index() < a.spec_playlist().spec_entries().len(),
    ensures
        ({
            let x = a.spec_playlist().spec_entries();
            let y = b.spec_playlist().spec_entries();
            let cur = a.spec_playlist().spec_current_index() as int;
            &&& y.len() + 1 == x.len()
            &&& forall|i: int| 0 <= i < cur ==> #[trigger] y[i] == x[i]
            &&& forall|i: int| cur <= i < y.len() ==> #[trigger] y[i] == x[i + 1]
            &&& b.spec_playlist().spec_current_index() == cur
            &&& play is None
        }),
{
}

} // verus!
