use crossterm::event::KeyModifiers;
use remote_log_tui::keys::{command, is_quit, pressed, Command, Key, KeyCode, KeyKind};

fn plain(code: KeyCode) -> Key {
    Key { code, modifiers: 0 }
}

#[test]
fn every_key_has_its_command() {
    let table = [
        (KeyCode::Left, Command::PreviousPod),
        (KeyCode::Right, Command::NextPod),
        (KeyCode::Char('r'), Command::ReloadPods),
        (KeyCode::Up, Command::LineUp),
        (KeyCode::Down, Command::LineDown),
        (KeyCode::PageUp, Command::PageUp),
        (KeyCode::PageDown, Command::PageDown),
        (KeyCode::Home, Command::Oldest),
        (KeyCode::End, Command::Newest),
        (KeyCode::Char('g'), Command::FollowTail),
        (KeyCode::Char('q'), Command::Quit),
        (KeyCode::Esc, Command::Quit),
        (KeyCode::Char('c'), Command::Ignore),
        (KeyCode::Char('G'), Command::Ignore),
        (KeyCode::Other, Command::Ignore),
    ];
    for (code, expected) in table {
        assert_eq!(command(plain(code)), expected);
    }
}

#[test]
fn control_c_quits() {
    let held = KeyModifiers::CONTROL.bits();
    assert_eq!(held, 2);
    let key = Key { code: KeyCode::Char('c'), modifiers: held };
    assert_eq!(command(key), Command::Quit);
    assert!(is_quit(key));
}

#[test]
fn control_counts_among_other_modifiers() {
    for bits in 0..=u8::MAX {
        let key = Key { code: KeyCode::Char('c'), modifiers: bits };
        assert_eq!(is_quit(key), bits & 2 != 0);
    }
    let shift_alt = (KeyModifiers::SHIFT | KeyModifiers::ALT).bits();
    assert!(!is_quit(Key { code: KeyCode::Char('c'), modifiers: shift_alt }));
}

#[test]
fn modifiers_do_not_change_other_keys() {
    for bits in 0..=u8::MAX {
        assert!(is_quit(Key { code: KeyCode::Char('q'), modifiers: bits }));
        assert_eq!(
            command(Key { code: KeyCode::Up, modifiers: bits }),
            Command::LineUp
        );
    }
}

#[test]
fn only_presses_count() {
    let key = plain(KeyCode::Up);
    assert_eq!(pressed(KeyKind::Press, key), Some(key));
    assert_eq!(pressed(KeyKind::Repeat, key), None);
    assert_eq!(pressed(KeyKind::Release, key), None);
}
