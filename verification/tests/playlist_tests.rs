use hyperterm_video::playlist::{Playlist, PlaylistEntry, RepeatMode};
use std::collections::VecDeque;

fn entry(title: &str) -> PlaylistEntry {
    PlaylistEntry {
        path: format!("/v/{}.mp4", title),
        title: title.to_string(),
        duration_bits: 0f64.to_bits(),
        position_bits: 0f64.to_bits(),
    }
}

fn titled(p: Option<&PlaylistEntry>) -> Option<String> {
    p.map(|e| e.title.clone())
}

fn three() -> Playlist {
    let mut p = Playlist::new();
    p.add_entry(entry("a"));
    p.add_entry(entry("b"));
    p.add_entry(entry("c"));
    p
}

#[test]
fn new_playlist_is_empty() {
    let mut p = Playlist::new();
    assert!(p.entries().is_empty());
    assert_eq!(p.current_index(), 0);
    assert_eq!(p.repeat_mode(), RepeatMode::Off);
    assert!(p.current().is_none());
    assert!(p.next().is_none());
    assert!(p.previous().is_none());
}

#[test]
fn add_entry_appends_and_keeps_cursor() {
    let p = three();
    let titles: Vec<&str> = p.entries().iter().map(|e| e.title.as_str()).collect();
    assert_eq!(titles, vec!["a", "b", "c"]);
    assert_eq!(p.current_index(), 0);
    assert_eq!(titled(p.current()), Some("a".to_string()));
}

#[test]
fn next_without_repeat_stops_at_end() {
    let mut p = three();
    assert_eq!(titled(p.next()), Some("b".to_string()));
    assert_eq!(titled(p.next()), Some("c".to_string()));
    assert_eq!(titled(p.next()), None);
    assert_eq!(p.current_index(), 2);
    assert_eq!(titled(p.previous()), Some("b".to_string()));
    assert_eq!(titled(p.previous()), Some("a".to_string()));
    assert_eq!(titled(p.previous()), Some("a".to_string()));
    assert_eq!(p.current_index(), 0);
}

#[test]
fn next_then_previous_returns() {
    let mut p = three();
    p.next();
    p.previous();
    assert_eq!(p.current_index(), 0);
}

#[test]
fn repeat_all_wraps_around() {
    let mut p = three();
    p.set_repeat_mode(RepeatMode::All);
    let mut seen = vec![];
    for _ in 0..3 {
        seen.push(titled(p.next()).unwrap());
    }
    assert_eq!(seen, vec!["b", "c", "a"]);
    assert_eq!(p.current_index(), 0);
}

#[test]
fn repeat_one_stays() {
    let mut p = three();
    p.set_current_index(1);
    p.set_repeat_mode(RepeatMode::One);
    assert_eq!(titled(p.next()), Some("b".to_string()));
    assert_eq!(titled(p.next()), Some("b".to_string()));
    assert_eq!(p.current_index(), 1);
}

#[test]
fn repeat_mode_cycles() {
    assert_eq!(RepeatMode::Off.next(), RepeatMode::One);
    assert_eq!(RepeatMode::One.next(), RepeatMode::All);
    assert_eq!(RepeatMode::All.next(), RepeatMode::Off);
    for m in [RepeatMode::Off, RepeatMode::One, RepeatMode::All] {
        assert_eq!(m.next().next().next(), m);
    }
}

#[test]
fn set_current_index_checks_bounds() {
    let mut p = three();
    assert_eq!(titled(p.set_current_index(2)), Some("c".to_string()));
    assert_eq!(p.current_index(), 2);
    assert!(p.set_current_index(3).is_none());
    assert_eq!(p.current_index(), 2);
}

#[test]
fn clear_empties_and_resets_cursor() {
    let mut p = three();
    p.set_current_index(2);
    p.clear();
    assert!(p.entries().is_empty());
    assert_eq!(p.current_index(), 0);
}

#[test]
fn removing_under_cursor_leaves_cursor() {
    let mut p = three();
    p.set_current_index(2);
    p.entries_mut().remove(2);
    assert_eq!(p.current_index(), 2);
    assert!(p.current().is_none());
    p.set_repeat_mode(RepeatMode::All);
    assert_eq!(titled(p.next()), Some("b".to_string()));
    assert_eq!(p.current_index(), 1);
}

#[test]
fn from_entries_starts_at_first() {
    let mut q = VecDeque::new();
    q.push_back(entry("x"));
    q.push_back(entry("y"));
    let p = Playlist::from_entries(q);
    assert_eq!(p.current_index(), 0);
    assert_eq!(p.repeat_mode(), RepeatMode::Off);
    assert_eq!(titled(p.current()), Some("x".to_string()));
    assert_eq!(p.entries().len(), 2);
}
