use hyperterm_video::file_browser::{sort_by_keys, FileBrowser, ListedEntry, MediaFile};

fn media(name: &str, size: u64, ext: &str) -> MediaFile {
    MediaFile { path: format!("/home/user/{}", name), name: name.to_string(), size, extension: ext.to_string() }
}

fn listed(name: &str, ext: &str, is_dir: bool) -> ListedEntry {
    ListedEntry { file: media(name, 10, ext), is_dir }
}

fn size_by_float(size: u64) -> String {
    if size < 1024 {
        format!("{}B", size)
    } else if size < 1024 * 1024 {
        format!("{:.2}KB", size as f64 / 1024.0)
    } else if size < 1024 * 1024 * 1024 {
        format!("{:.2}MB", size as f64 / (1024.0 * 1024.0))
    } else {
        format!("{:.2}GB", size as f64 / (1024.0 * 1024.0 * 1024.0))
    }
}

#[test]
fn from_path_takes_name_and_lowercase_extension() {
    let f = MediaFile::from_path("/videos/Holiday.MKV".to_string(), 1234);
    assert_eq!(f.path, "/videos/Holiday.MKV");
    assert_eq!(f.name, "Holiday.MKV");
    assert_eq!(f.extension, "mkv");
    assert_eq!(f.size, 1234);
    assert!(f.is_video());
}

#[test]
fn from_path_without_name_or_extension() {
    let f = MediaFile::from_path("/".to_string(), 0);
    assert_eq!(f.name, "Unknown");
    assert_eq!(f.extension, "");
    let g = MediaFile::from_path("/tmp/README".to_string(), 5);
    assert_eq!(g.name, "README");
    assert_eq!(g.extension, "");
    assert!(!g.is_video());
}

#[test]
fn extension_is_after_the_last_dot_of_the_name() {
    let cases = [
        ("/v/archive.tar.GZ", "gz"),
        ("/v/.bashrc", ""),
        ("/v/..hidden", "hidden"),
        ("/v/.config.mp4", "mp4"),
        ("/v/trailing.", ""),
        ("/v.d/noext", ""),
        ("clip.webm", "webm"),
    ];
    for (p, e) in cases {
        let expected = std::path::Path::new(p).extension().map(|x| x.to_str().unwrap().to_lowercase()).unwrap_or_default();
        assert_eq!(expected, e, "{}", p);
        assert_eq!(MediaFile::from_path(p.to_string(), 0).extension, e, "{}", p);
    }
}

#[test]
fn video_extensions() {
    for e in ["mp4", "mkv", "avi", "mov", "webm", "flv", "wmv", "m4v", "3gp", "ogv"] {
        assert!(media("x", 1, e).is_video(), "{}", e);
    }
    for e in ["txt", "MP4", "mp", "", "mp44", "jpg"] {
        assert!(!media("x", 1, e).is_video(), "{}", e);
    }
}

#[test]
fn size_strings() {
    assert_eq!(media("x", 0, "").size_string(), "0B");
    assert_eq!(media("x", 1023, "").size_string(), "1023B");
    assert_eq!(media("x", 1024, "").size_string(), "1.00KB");
    assert_eq!(media("x", 1536, "").size_string(), "1.50KB");
    assert_eq!(media("x", 1048575, "").size_string(), "1024.00KB");
    assert_eq!(media("x", 1048576, "").size_string(), "1.00MB");
    assert_eq!(media("x", 1073741824, "").size_string(), "1.00GB");
}

#[test]
fn size_strings_match_float_formatting() {
    let mut samples: Vec<u64> = vec![
        1152, 1408, 1664, 1920, 1029, 1034, 1035, 2047, 4096, 123_456, 999_999, 1_048_577,
        1_179_648, 5_000_000, 1_073_741_823, 1_073_741_825, 1_207_959_552, 5_000_000_000,
        u64::MAX, u64::MAX - 1, 1 << 53, (1 << 53) + 1, (1 << 54) + 3, (1 << 60) + 12345,
        9_007_199_254_740_993, 18_000_000_000_000_000_000,
    ];
    for k in 0..2000u64 {
        samples.push(1024 + k * 37);
        samples.push(1_048_576 + k * 104_729);
        samples.push(1_073_741_824 + k * 5_368_709);
        samples.push(1024 * k + 128 * (k % 8));
        samples.push((k + 1).wrapping_mul(0x9E37_79B9_7F4A_7C15));
    }
    for s in samples {
        assert_eq!(media("x", s, "").size_string(), size_by_float(s), "size {}", s);
    }
}

#[test]
fn new_browser_starts_at_given_path() {
    let b = FileBrowser::new(None, "/home/user".to_string());
    assert_eq!(b.current_path(), "/home/user");
    assert!(b.files().is_empty());
    assert_eq!(b.selected_index(), 0);
    assert!(b.get_selected().is_none());
    let c = FileBrowser::new(Some("/media".to_string()), "/home/user".to_string());
    assert_eq!(c.current_path(), "/media");
}

#[test]
fn refresh_lists_parent_then_sorted_dirs_and_videos() {
    let mut b = FileBrowser::new(None, "/home/user".to_string());
    b.refresh(vec![
        listed("zeta", "", true),
        listed("A.mp4", "mp4", false),
        listed("notes.txt", "txt", false),
        listed("a.mkv", "mkv", false),
        listed("Beta", "", true),
    ]);
    let names: Vec<&str> = b.files().iter().map(|f| f.name.as_str()).collect();
    assert_eq!(names, vec![".. (Parent Directory)", "a.mkv", "A.mp4", "Beta", "zeta"]);
    let parent = &b.files()[0];
    assert_eq!(parent.path, "/home");
    assert_eq!(parent.size, 0);
    assert_eq!(parent.extension, "");
}

#[test]
fn refresh_keeps_order_of_equal_names() {
    let mut b = FileBrowser::new(None, "/".to_string());
    let mut first = listed("Clip.mp4", "mp4", false);
    first.file.size = 1;
    let mut second = listed("clip.MP4", "mp4", false);
    second.file.size = 2;
    b.refresh(vec![first, second]);
    // "/" has no parent
    let sizes: Vec<u64> = b.files().iter().map(|f| f.size).collect();
    assert_eq!(sizes, vec![1, 2]);
}

#[test]
fn cursor_wraps_and_moves_undo() {
    let mut b = FileBrowser::new(None, "/home/user".to_string());
    b.refresh(vec![listed("a", "", true), listed("b", "", true)]);
    assert_eq!(b.files().len(), 3);
    b.move_up();
    assert_eq!(b.selected_index(), 2);
    b.move_down();
    assert_eq!(b.selected_index(), 0);
    b.move_down();
    b.move_down();
    assert_eq!(b.selected_index(), 2);
    b.move_down();
    assert_eq!(b.selected_index(), 0);
    for start in 0..3 {
        while b.selected_index() != start {
            b.move_down();
        }
        b.move_down();
        b.move_up();
        assert_eq!(b.selected_index(), start);
    }
    assert_eq!(b.get_selected().unwrap().name, "b");
}

#[test]
fn refresh_clamps_cursor() {
    let mut b = FileBrowser::new(None, "/home/user".to_string());
    b.refresh(vec![listed("a", "", true), listed("b", "", true), listed("c", "", true)]);
    b.move_up();
    assert_eq!(b.selected_index(), 3);
    b.refresh(vec![listed("a", "", true)]);
    assert_eq!(b.selected_index(), 1);
    b.refresh(vec![]);
    assert_eq!(b.selected_index(), 0);
    assert_eq!(b.files().len(), 1);
}

#[test]
fn navigate_only_into_directories() {
    let mut b = FileBrowser::new(None, "/home/user".to_string());
    b.refresh(vec![listed("a", "", true)]);
    b.navigate_to("/home/user/file.mp4".to_string(), false, vec![]);
    assert_eq!(b.current_path(), "/home/user");
    assert_eq!(b.files().len(), 2);
    b.navigate_to("/home/user/a".to_string(), true, vec![listed("x.avi", "avi", false)]);
    assert_eq!(b.current_path(), "/home/user/a");
    let names: Vec<&str> = b.files().iter().map(|f| f.name.as_str()).collect();
    assert_eq!(names, vec![".. (Parent Directory)", "x.avi"]);
    assert_eq!(b.files()[0].path, "/home/user");
}

#[test]
fn sorting_follows_the_given_keys_and_is_stable() {
    let items = vec![media("one", 1, ""), media("two", 1, ""), media("three", 1, ""), media("four", 1, "")];
    let keys: Vec<Vec<char>> = ["b", "a", "b", "Z"].iter().map(|k| k.chars().collect()).collect();
    let names: Vec<String> = sort_by_keys(items, keys).into_iter().map(|m| m.name).collect();
    assert_eq!(names, vec!["four", "two", "one", "three"]);
    assert!(sort_by_keys(vec![], vec![]).is_empty());
}

fn cursor_inside(b: &FileBrowser) -> bool {
    (b.files().is_empty() && b.selected_index() == 0) || b.selected_index() < b.files().len()
}

#[test]
fn cursor_stays_inside_the_list() {
    let mut b = FileBrowser::new(None, "/home/user".to_string());
    assert!(cursor_inside(&b));
    b.refresh(vec![listed("a.mp4", "mp4", false), listed("b.mp4", "mp4", false), listed("c", "", true)]);
    assert!(cursor_inside(&b));
    b.move_up();
    assert!(cursor_inside(&b));
    assert_eq!(b.selected_index(), b.files().len() - 1);
    b.refresh(vec![listed("a.mp4", "mp4", false)]);
    assert!(cursor_inside(&b));
    assert_eq!(b.selected_index(), b.files().len() - 1);
    b.navigate_to("/".to_string(), true, vec![]);
    assert!(cursor_inside(&b));
    assert!(b.files().is_empty());
    b.move_down();
    assert!(cursor_inside(&b));
}
