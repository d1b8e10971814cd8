use livesplit_core::hotkey::windows::key_state::{key_idx, KeyState};
use livesplit_core::hotkey::{KeyCode, Modifier, Modifiers};

#[test]
fn key_index_splits_the_key_number() {
    let value = KeyCode::KeyA as u8;
    assert_eq!(key_idx(KeyCode::KeyA), (value / 8, 1 << (value % 8)));
    let value = KeyCode::WakeUp as u8;
    assert_eq!(key_idx(KeyCode::WakeUp), (value / 8, 1 << (value % 8)));
    assert_eq!(key_idx(KeyCode::AltLeft), (0, 1));
    assert_eq!(key_idx(KeyCode::AltRight), (0, 2));
}

#[test]
fn key_indices_are_all_different() {
    let keys = [
        KeyCode::AltLeft,
        KeyCode::AltRight,
        KeyCode::ControlLeft,
        KeyCode::ControlRight,
        KeyCode::KeyA,
        KeyCode::KeyB,
        KeyCode::F1,
        KeyCode::F10,
        KeyCode::Numpad0,
        KeyCode::WakeUp,
    ];
    for (i, a) in keys.iter().enumerate() {
        for (j, b) in keys.iter().enumerate() {
            assert_eq!(key_idx(*a) == key_idx(*b), i == j);
            assert_eq!(a.index() == b.index(), i == j);
        }
    }
    assert_eq!(KeyCode::AltLeft.index(), 0);
    assert_eq!(KeyCode::WakeUp.index(), 154);
}

#[test]
fn a_new_key_state_has_no_key_down() {
    let state = KeyState::new();
    assert!(!state.is_down(KeyCode::KeyA));
    assert!(!state.is_down(KeyCode::AltLeft));
    assert!(!state.is_down(KeyCode::WakeUp));
}

#[test]
fn set_down_marks_one_key() {
    let mut state = KeyState::new();
    state.set_down(KeyCode::KeyA);
    assert!(state.is_down(KeyCode::KeyA));
    assert!(!state.is_down(KeyCode::KeyB));
    assert!(!state.is_down(KeyCode::KeyS));
    state.set_down(KeyCode::KeyB);
    assert!(state.is_down(KeyCode::KeyA));
    assert!(state.is_down(KeyCode::KeyB));
}

#[test]
fn set_down_twice_is_set_down_once() {
    let mut state = KeyState::new();
    state.set_down(KeyCode::F5);
    state.set_down(KeyCode::F5);
    assert!(state.is_down(KeyCode::F5));
    state.set_up(KeyCode::F5);
    assert!(!state.is_down(KeyCode::F5));
}

#[test]
fn set_up_clears_one_key() {
    let mut state = KeyState::new();
    state.set_down(KeyCode::KeyA);
    state.set_down(KeyCode::KeyB);
    state.set_up(KeyCode::KeyA);
    assert!(!state.is_down(KeyCode::KeyA));
    assert!(state.is_down(KeyCode::KeyB));
}

#[test]
fn set_up_of_a_key_that_is_up_changes_nothing() {
    let mut state = KeyState::new();
    state.set_down(KeyCode::KeyB);
    state.set_up(KeyCode::KeyA);
    state.set_up(KeyCode::KeyA);
    assert!(!state.is_down(KeyCode::KeyA));
    assert!(state.is_down(KeyCode::KeyB));
}

#[test]
fn modifier_sets_hold_what_was_put_in() {
    let mut modifiers = Modifiers::empty();
    assert!(modifiers.is_empty());
    assert_eq!(modifiers.bits(), 0);
    modifiers.insert(Modifiers::control());
    assert!(modifiers.contains(Modifiers::control()));
    assert!(!modifiers.contains(Modifiers::shift()));
    assert_eq!(modifiers, Modifiers::control());
    modifiers.insert(Modifiers::shift());
    assert!(modifiers.contains(Modifiers::control()));
    assert!(modifiers.contains(Modifiers::shift()));
    assert!(!modifiers.contains(Modifiers::alt()));
    assert_eq!(modifiers.bits(), 3);
    modifiers.remove(Modifiers::control());
    assert_eq!(modifiers, Modifiers::shift());
    modifiers.remove(Modifiers::control());
    assert_eq!(modifiers, Modifiers::shift());
    modifiers.remove(Modifiers::shift());
    assert!(modifiers.is_empty());
    assert_eq!(modifiers, Modifiers::empty());
}

#[test]
fn modifier_bits() {
    assert_eq!(Modifiers::shift().bits(), 1);
    assert_eq!(Modifiers::control().bits(), 2);
    assert_eq!(Modifiers::alt().bits(), 4);
    assert_eq!(Modifiers::meta().bits(), 8);
    assert_eq!(Modifier::Shift.mask(), 1);
    assert_eq!(Modifier::Control.mask(), 2);
    assert_eq!(Modifier::Alt.mask(), 4);
    assert_eq!(Modifier::Meta.mask(), 8);
    assert_eq!(Modifiers::single(Modifier::Meta), Modifiers::meta());
    assert_eq!(Modifiers::from_bits_truncate(0xF2), Modifiers::control());
    assert_eq!(Modifiers::from_bits_truncate(0x0F).bits(), 15);
    assert!(Modifiers::from_bits_truncate(0xF0).is_empty());
}

#[test]
fn every_modifier_set_contains_the_empty_one() {
    assert!(Modifiers::empty().contains(Modifiers::empty()));
    assert!(Modifiers::alt().contains(Modifiers::empty()));
    assert!(!Modifiers::empty().contains(Modifiers::alt()));
    let mut both = Modifiers::alt();
    both.insert(Modifiers::meta());
    assert!(both.contains(Modifiers::alt()));
    assert!(both.contains(both));
    assert!(!Modifiers::alt().contains(both));
}
