//! Key codes, modifier sets and hotkeys, and the engine that turns raw
//! keyboard events into hotkey events.

use vstd::prelude::*;

pub mod key_code;
pub mod modifiers;
pub mod windows;

pub use key_code::KeyCode;
pub use modifiers::{Modifier, Modifiers};
pub use windows::Hook;

verus! {

/// A key together with the modifiers that are held while it goes down. Two
/// hotkeys are the same when both parts are.
#[derive(Clone, Copy, Debug, PartialEq, Eq, Hash, Structural)]
pub struct Hotkey {
    /// The key that fires the hotkey.
    pub key_code: KeyCode,
    /// The modifiers that must be held for it.
    pub modifiers: Modifiers,
}

impl Hotkey {
    /// The hotkey as one number, different for any two hotkeys: the index of
    /// the key in the high byte, the bits of the modifiers in the low byte.
    pub open spec fn spec_slot(self) -> u16 {
        (self.key_code.spec_index() * 256 + self.modifiers.spec_bits()) as u16
    }

    /// The hotkey as one number, different for any two hotkeys.
    pub fn slot(&self) -> (r: u16)
        ensures
            r == self.spec_slot(),
    {
        let high: u16 = self.key_code.index() as u16;
        let low: u16 = self.modifiers.bits() as u16;
        high * 256 + low
    }
}

/// Two hotkeys with the same number are the same hotkey.
pub proof fn lemma_slot_injective(a: Hotkey, b: Hotkey)
    requires
        a.spec_slot() == b.spec_slot(),
    ensures
        a == b,
{
    key_code::lemma_index_injective(a.key_code, b.key_code);
    modifiers::lemma_bits_injective(a.modifiers, b.modifiers);
}

/// Whether a hook should take the key events it sees away from the other
/// applications.
#[derive(Clone, Copy, Debug, PartialEq, Eq, Hash, Structural)]
pub enum ConsumePreference {
    /// Either way is fine.
    NoPreference,
    /// The events should stay visible to others, if the platform allows it.
    PreferNoConsume,
    /// The events should be taken away, if the platform allows it.
    PreferConsume,
    /// The events must stay visible to others.
    MustNotConsume,
    /// The events must be taken away.
    MustConsume,
}

/// What can go wrong with a hook.
#[derive(Clone, Copy, Debug, PartialEq, Eq, Structural)]
#[non_exhaustive]
pub enum Error {
    /// The platform cannot treat key events as the consume preference asks.
    UnmatchedPreference,
    /// The hotkey already has a callback.
    AlreadyRegistered,
    /// The hotkey has no callback.
    NotRegistered,
    /// The platform's own part failed.
    Platform(windows::Error),
}

} // verus!
