//! Keyboard input during playback: which key means what, and the shared
//! pause flag.
use vstd::prelude::*;
use std::sync::Arc;
use std::sync::atomic::AtomicBool;
use std::sync::atomic::Ordering;

verus! {

/// What a key press asks the player to do.
#[derive(Debug, Clone, Copy)]
pub enum InputEvent {
    Pause,
    Resume,
    Quit,
    SeekForward,
    SeekBackward,
    VolumeUp,
    VolumeDown,
    ToggleFps,
    CycleColorMode,
    CycleRenderMode,
    OpenMenu,
}

/// A key as the terminal reports it; keys the player does not use are `Other`.
#[derive(Debug, Clone, Copy, PartialEq, Eq, Structural)]
pub enum KeyPress {
    Char(char),
    Left,
    Right,
    Up,
    Down,
    Enter,
    Tab,
    Esc,
    Delete,
    F(u8),
    Other,
}

/// The playback command bound to a key, if any: space pauses, q quits,
/// the arrows seek and change the volume, f/c/r/m toggle the frame-rate
/// display, cycle the color and render modes and open the menu (letters in
/// either case).
pub open spec fn key_command(k: KeyPress) -> Option<InputEvent> {
    match k {
        KeyPress::Char(' ') => Some(InputEvent::Pause),
        KeyPress::Char('q') | KeyPress::Char('Q') => Some(InputEvent::Quit),
        KeyPress::Left => Some(InputEvent::SeekBackward),
        KeyPress::Right => Some(InputEvent::SeekForward),
        KeyPress::Up => Some(InputEvent::VolumeUp),
        KeyPress::Down => Some(InputEvent::VolumeDown),
        KeyPress::Char('f') | KeyPress::Char('F') => Some(InputEvent::ToggleFps),
        KeyPress::Char('c') | KeyPress::Char('C') => Some(InputEvent::CycleColorMode),
        KeyPress::Char('r') | KeyPress::Char('R') => Some(InputEvent::CycleRenderMode),
        KeyPress::Char('m') | KeyPress::Char('M') => Some(InputEvent::OpenMenu),
        _ => None,
    }
}

/// What the input thread does with a playback command.
#[derive(Debug, Clone, Copy)]
pub enum InputAction {
    /// Set the shared pause flag to this value.
    SetPaused(bool),
    /// Stop playback, send `Quit` on and end the thread.
    Stop,
    /// Send the command on to the player.
    Forward(InputEvent),
}

/// The input thread's answer to a command: Pause and Resume set and clear
/// the pause flag (and are not sent on), Quit stops everything, and every
/// other command goes to the player.
pub open spec fn input_action_of(e: InputEvent) -> InputAction {
    match e {
        InputEvent::Pause => InputAction::SetPaused(true),
        InputEvent::Resume => InputAction::SetPaused(false),
        InputEvent::Quit => InputAction::Stop,
        _ => InputAction::Forward(e),
    }
}

/// `Arc::clone`: another pointer to the same allocation, so the handle it
/// gives is the same flag as `flag`.
#[verifier::external_body]
fn share_flag(flag: &Arc<AtomicBool>) -> (r: Arc<AtomicBool>)
    ensures
        r == *flag,
{
    Arc::clone(flag)
}

/// Owns the pause flag that the input thread sets.
pub struct InputHandler {
    paused: Arc<AtomicBool>,
}

impl InputHandler {
    /// The shared pause flag this handler owns.
    pub closed spec fn spec_flag(&self) -> Arc<AtomicBool> {
        self.paused
    }

    /// A handler whose flag starts out cleared.
    pub fn new() -> Self {
        InputHandler { paused: Arc::new(AtomicBool::new(false)) }
    }

    /// Whether playback is paused; the flag is shared with the input thread,
    /// so nothing is known of the value read.
    pub fn is_paused(&self) -> bool {
        self.paused.load(Ordering::Relaxed)
    }

    /// A handle to the pause flag, for the thread that reads the keyboard.
    pub fn pause_flag(&self) -> (r: Arc<AtomicBool>)
        ensures
            r == self.spec_flag(),
    {
        share_flag(&self.paused)
    }

    /// What the input thread does with `event` (see `input_action_of`).
    pub fn action_for(event: InputEvent) -> (r: InputAction)
        ensures
            r == input_action_of(event),
    {
        match event {
            InputEvent::Pause => InputAction::SetPaused(true),
            InputEvent::Resume => InputAction::SetPaused(false),
            InputEvent::Quit => InputAction::Stop,
            _ => InputAction::Forward(event),
        }
    }

    /// The playback command for a key press (see `key_command`).
    pub fn handle_key(key: KeyPress) -> (r: Option<InputEvent>)
        ensures
            r == key_command(key),
    {
        match key {
            KeyPress::Char(' ') => Some(InputEvent::Pause),
            KeyPress::Char('q') | KeyPress::Char('Q') => Some(InputEvent::Quit),
            KeyPress::Left => Some(InputEvent::SeekBackward),
            KeyPress::Right => Some(InputEvent::SeekForward),
            KeyPress::Up => Some(InputEvent::VolumeUp),
            KeyPress::Down => Some(InputEvent::VolumeDown),
            KeyPress::Char('f') | KeyPress::Char('F') => Some(InputEvent::ToggleFps),
            KeyPress::Char('c') | KeyPress::Char('C') => Some(InputEvent::CycleColorMode),
            KeyPress::Char('r') | KeyPress::Char('R') => Some(InputEvent::CycleRenderMode),
            KeyPress::Char('m') | KeyPress::Char('M') => Some(InputEvent::OpenMenu),
            _ => None,
        }
    }
}

/// `c` with an ASCII small letter turned into its capital.
pub open spec fn ascii_upper(c: char) -> char {
    if 'a' <= c && c <= 'z' {
        ((c as u32) - 32) as char
    } else {
        c
    }
}

/// Playback keys ignore case: a letter and its capital give the same command.
pub proof fn commands_ignore_case(c: char)
    ensures
        key_command(KeyPress::Char(c)) == key_command(KeyPress::Char(ascii_upper(c))),
{
}

/// q in either case, and no other character, quits.
pub proof fn only_q_quits(c: char)
    ensures
        key_command(KeyPress::Char(c)) == Some(InputEvent::Quit) <==> ascii_upper(c) == 'Q',
{
}

/// Every playback command but `Resume` has a key (pausing again does not
/// resume; the pause key only pauses).
pub proof fn every_command_has_a_key(e: InputEvent)
    requires
        !(e is Resume),
    ensures
        exists|k: KeyPress| key_command(k) == Some(e),
{
    let k = match e {
        InputEvent::Pause => KeyPress::Char(' '),
        InputEvent::Quit => KeyPress::Char('q'),
        InputEvent::SeekForward => KeyPress::Right,
        InputEvent::SeekBackward => KeyPress::Left,
        InputEvent::VolumeUp => KeyPress::Up,
        InputEvent::VolumeDown => KeyPress::Down,
        InputEvent::ToggleFps => KeyPress::Char('f'),
        InputEvent::CycleColorMode => KeyPress::Char('c'),
        InputEvent::CycleRenderMode => KeyPress::Char('r'),
        InputEvent::OpenMenu => KeyPress::Char('m'),
        InputEvent::Resume => KeyPress::Other,
    };
    assert(key_command(k) == Some(e));
}

} // verus!
