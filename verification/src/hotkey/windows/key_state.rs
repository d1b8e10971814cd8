use vstd::prelude::*;
use crate::hotkey::key_code::{KeyCode, lemma_index_injective};

verus! {

/// The byte of the key state that holds the bit of a key.
pub open spec fn spec_byte_index(key_code: KeyCode) -> u8 {
    key_code.spec_index() / 8
}

/// The bit of a key within its byte of the key state.
pub open spec fn spec_bit_mask(key_code: KeyCode) -> u8 {
    1u8 << (key_code.spec_index() % 8)
}

/// Where the bit of a key is found in the key state: the index of its byte,
/// and the bit within that byte.
#[inline]
pub fn key_idx(key_code: KeyCode) -> (r: (u8, u8))
    ensures
        r.0 == spec_byte_index(key_code),
        r.1 == spec_bit_mask(key_code),
        r.0 < 32,
{
    let value = key_code.index();
    (value / 8, 1u8 << (value % 8))
}

/// Whether `mask` is set in `byte`.
pub open spec fn bit_set(byte: u8, mask: u8) -> bool {
    byte & mask != 0
}

/// Setting one bit of a byte sets it and leaves the other bits as they were.
proof fn lemma_set_bit(byte: u8, x: u8, y: u8)
    requires
        x < 8,
        y < 8,
    ensures
        bit_set(byte | (1u8 << x), 1u8 << y) == (x == y || bit_set(byte, 1u8 << y)),
{
    assert(((byte | (1u8 << x)) & (1u8 << y) != 0) == (x == y || byte & (1u8 << y) != 0))
        by (bit_vector)
        requires
            x < 8,
            y < 8,
    ;
}

/// Clearing one bit of a byte clears it and leaves the other bits as they
/// were.
proof fn lemma_clear_bit(byte: u8, x: u8, y: u8)
    requires
        x < 8,
        y < 8,
    ensures
        bit_set(byte & !(1u8 << x), 1u8 << y) == (x != y && bit_set(byte, 1u8 << y)),
{
    assert(((byte & !(1u8 << x)) & (1u8 << y) != 0) == (x != y && byte & (1u8 << y) != 0))
        by (bit_vector)
        requires
            x < 8,
            y < 8,
    ;
}

/// Two different keys differ in the byte or in the bit that stands for them.
proof fn lemma_distinct_keys(a: KeyCode, b: KeyCode)
    requires
        a != b,
    ensures
        spec_byte_index(a) != spec_byte_index(b) || a.spec_index() % 8 != b.spec_index() % 8,
{
    if a.spec_index() == b.spec_index() {
        lemma_index_injective(a, b);
    }
}

/// Which keys are held down: one bit for each key code. Its view is the set
/// of the keys that are down.
pub struct KeyState {
    bits: [u8; 32],
}

impl View for KeyState {
    type V = Set<KeyCode>;

    closed spec fn view(&self) -> Set<KeyCode> {
        Set::new(
            |key_code: KeyCode|
                bit_set(self.bits@[spec_byte_index(key_code) as int], spec_bit_mask(key_code)),
        )
    }
}

impl KeyState {
    /// The state in which no key is down.
    pub fn new() -> (r: KeyState)
        ensures
            r@ == Set::<KeyCode>::empty(),
    {
        let r = KeyState { bits: [0u8; 32] };
        proof {
            assert forall|key_code: KeyCode| !r@.contains(key_code) by {
                let mask = spec_bit_mask(key_code);
                assert(0u8 & mask == 0) by (bit_vector);
            }
            assert(r@ =~= Set::<KeyCode>::empty());
        }
        r
    }

    /// Whether the key is down.
    pub fn is_down(&self, key_code: KeyCode) -> (r: bool)
        ensures
            r == self@.contains(key_code),
    {
        let (idx, bit) = key_idx(key_code);
        self.bits[idx as usize] & bit != 0
    }

    /// Records that the key is down.
    pub fn set_down(&mut self, key_code: KeyCode)
        ensures
            final(self)@ == old(self)@.insert(key_code),
    {
        let (idx, bit) = key_idx(key_code);
        let byte = self.bits[idx as usize];
        self.bits[idx as usize] = byte | bit;
        proof {
            assert forall|other: KeyCode|
                self@.contains(other) == old(self)@.insert(key_code).contains(other) by {
                if spec_byte_index(other) == idx {
                    lemma_set_bit(byte, key_code.spec_index() % 8, other.spec_index() % 8);
                    if other != key_code {
                        lemma_distinct_keys(key_code, other);
                    }
                }
            }
            assert(self@ =~= old(self)@.insert(key_code));
        }
    }

    /// Records that the key is up, whether it was down or not.
    pub fn set_up(&mut self, key_code: KeyCode)
        ensures
            final(self)@ == old(self)@.remove(key_code),
    {
        let (idx, bit) = key_idx(key_code);
        let byte = self.bits[idx as usize];
        self.bits[idx as usize] = byte & !bit;
        proof {
            assert forall|other: KeyCode|
                self@.contains(other) == old(self)@.remove(key_code).contains(other) by {
                if spec_byte_index(other) == idx {
                    lemma_clear_bit(byte, key_code.spec_index() % 8, other.spec_index() % 8);
                    if other != key_code {
                        lemma_distinct_keys(key_code, other);
                    }
                }
            }
            assert(self@ =~= old(self)@.remove(key_code));
        }
    }
}

} // verus!
