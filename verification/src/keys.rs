//! Keys and what they ask for.

use crossterm::event::KeyModifiers;
use vstd::prelude::*;

verus! {

/// A key on the keyboard, as far as the viewer tells keys apart.
#[derive(Clone, Copy, Debug, PartialEq, Eq, Structural)]
pub enum KeyCode {
    Char(char),
    Esc,
    Left,
    Right,
    Up,
    Down,
    PageUp,
    PageDown,
    Home,
    End,
    /// Any other key.
    Other,
}

/// What happened to a key.
#[derive(Clone, Copy, Debug, PartialEq, Eq, Structural)]
pub enum KeyKind {
    Press,
    Repeat,
    Release,
}

/// A key together with the modifier keys that were held down.
#[derive(Clone, Copy, Debug, PartialEq, Eq, Structural)]
pub struct Key {
    pub code: KeyCode,
    /// The modifiers, one bit each.
    pub modifiers: u8,
}

/// What a key asks the dashboard to do.
#[derive(Clone, Copy, Debug, PartialEq, Eq, Structural)]
pub enum Command {
    Quit,
    FollowTail,
    PreviousPod,
    NextPod,
    ReloadPods,
    LineUp,
    LineDown,
    PageUp,
    PageDown,
    Oldest,
    Newest,
    Ignore,
}

/// The bit of the control key is set.
pub open spec fn control_held(modifiers: u8) -> bool {
    modifiers & 2u8 == 2u8
}

/// The keys that close the viewer: `q`, escape, and `c` with the control key.
pub open spec fn is_quit_key(key: Key) -> bool {
    ||| key.code == KeyCode::Char('q')
    ||| key.code == KeyCode::Esc
    ||| key.code == KeyCode::Char('c') && control_held(key.modifiers)
}

/// The command of a key. Only `c` depends on the modifiers.
pub open spec fn key_command(key: Key) -> Command {
    if is_quit_key(key) {
        Command::Quit
    } else {
        match key.code {
            KeyCode::Char('g') => Command::FollowTail,
            KeyCode::Char('r') => Command::ReloadPods,
            KeyCode::Left => Command::PreviousPod,
            KeyCode::Right => Command::NextPod,
            KeyCode::Up => Command::LineUp,
            KeyCode::Down => Command::LineDown,
            KeyCode::PageUp => Command::PageUp,
            KeyCode::PageDown => Command::PageDown,
            KeyCode::Home => Command::Oldest,
            KeyCode::End => Command::Newest,
            _ => Command::Ignore,
        }
    }
}

/// The modifiers matter for `c` only.
pub proof fn modifiers_matter_for_c_only(code: KeyCode, some: u8, other: u8)
    requires
        code != KeyCode::Char('c'),
    ensures
        key_command(Key { code: code, modifiers: some }) == key_command(
            Key { code: code, modifiers: other },
        ),
{
}

/// The control key is held when the second lowest of the modifiers is set.
pub proof fn control_is_the_second_bit(modifiers: u8)
    ensures
        control_held(modifiers) <==> (modifiers / 2) % 2 == 1,
{
    assert(modifiers & 2u8 == 2u8 <==> (modifiers / 2) % 2 == 1) by (bit_vector);
}

/// What each key asks for, whatever the modifiers are. `c` quits with the control key.
pub proof fn keys_and_their_commands(modifiers: u8, other: KeyCode)
    requires
        other is Char || other is Other,
        other != KeyCode::Char('q'),
        other != KeyCode::Char('c'),
        other != KeyCode::Char('g'),
        other != KeyCode::Char('r'),
    ensures
        key_command(Key { code: KeyCode::Char('q'), modifiers: modifiers }) == Command::Quit,
        key_command(Key { code: KeyCode::Esc, modifiers: modifiers }) == Command::Quit,
        key_command(Key { code: KeyCode::Char('c'), modifiers: modifiers }) == if (modifiers / 2)
            % 2 == 1 {
            Command::Quit
        } else {
            Command::Ignore
        },
        key_command(Key { code: KeyCode::Char('g'), modifiers: modifiers }) == Command::FollowTail,
        key_command(Key { code: KeyCode::Char('r'), modifiers: modifiers }) == Command::ReloadPods,
        key_command(Key { code: KeyCode::Left, modifiers: modifiers }) == Command::PreviousPod,
        key_command(Key { code: KeyCode::Right, modifiers: modifiers }) == Command::NextPod,
        key_command(Key { code: KeyCode::Up, modifiers: modifiers }) == Command::LineUp,
        key_command(Key { code: KeyCode::Down, modifiers: modifiers }) == Command::LineDown,
        key_command(Key { code: KeyCode::PageUp, modifiers: modifiers }) == Command::PageUp,
        key_command(Key { code: KeyCode::PageDown, modifiers: modifiers }) == Command::PageDown,
        key_command(Key { code: KeyCode::Home, modifiers: modifiers }) == Command::Oldest,
        key_command(Key { code: KeyCode::End, modifiers: modifiers }) == Command::Newest,
        key_command(Key { code: other, modifiers: modifiers }) == Command::Ignore,
{
    control_is_the_second_bit(modifiers);
}

/// The quit keys are `q`, escape, and `c` with the control key, and no other.
pub proof fn the_quit_keys(key: Key)
    ensures
        is_quit_key(key) <==> match key.code {
            KeyCode::Char(c) => c == 'q' || c == 'c' && (key.modifiers / 2) % 2 == 1,
            KeyCode::Esc => true,
            _ => false,
        },
{
    control_is_the_second_bit(key.modifiers);
}

/// Whether the bit of the control key is set among `modifiers`.
///
/// Calls `contains` of `crossterm::event::KeyModifiers` on the flags with exactly these bits. The
/// contract claims that it compares the bit of `KeyModifiers::CONTROL`, which is the second lowest
/// one, and looks at no other.
#[verifier::external_body]
fn has_control(modifiers: u8) -> (r: bool)
    ensures
        r == control_held(modifiers),
{
    KeyModifiers::from_bits_retain(modifiers).contains(KeyModifiers::CONTROL)
}

/// The key that an event hands on: presses count, repeats and releases do not.
pub fn pressed(kind: KeyKind, key: Key) -> (r: Option<Key>)
    ensures
        r == if kind == KeyKind::Press {
            Some(key)
        } else {
            None::<Key>
        },
{
    match kind {
        KeyKind::Press => Some(key),
        _ => None,
    }
}

/// Whether the key closes the viewer.
pub fn is_quit(key: Key) -> (r: bool)
    ensures
        r == is_quit_key(key),
{
    match key.code {
        KeyCode::Char('q') | KeyCode::Esc => true,
        KeyCode::Char('c') => has_control(key.modifiers),
        _ => false,
    }
}

/// The command of a key.
pub fn command(key: Key) -> (r: Command)
    ensures
        r == key_command(key),
{
    if is_quit(key) {
        return Command::Quit;
    }
    match key.code {
        KeyCode::Char('g') => Command::FollowTail,
        KeyCode::Char('r') => Command::ReloadPods,
        KeyCode::Left => Command::PreviousPod,
        KeyCode::Right => Command::NextPod,
        KeyCode::Up => Command::LineUp,
        KeyCode::Down => Command::LineDown,
        KeyCode::PageUp => Command::PageUp,
        KeyCode::PageDown => Command::PageDown,
        KeyCode::Home => Command::Oldest,
        KeyCode::End => Command::Newest,
        _ => Command::Ignore,
    }
}

} // verus!
