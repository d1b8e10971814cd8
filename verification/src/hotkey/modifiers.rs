use vstd::prelude::*;

verus! {

/// One of the four modifiers. The left and the right key of a modifier count
/// as the same modifier.
#[derive(Clone, Copy, Debug, PartialEq, Eq, Hash, Structural)]
pub enum Modifier {
    Shift,
    Control,
    Alt,
    Meta,
}

impl Modifier {
    /// The bit that stands for the modifier in a modifier set.
    pub open spec fn spec_mask(self) -> u8 {
        match self {
            Modifier::Shift => 1,
            Modifier::Control => 2,
            Modifier::Alt => 4,
            Modifier::Meta => 8,
        }
    }

    /// The bit that stands for the modifier in a modifier set.
    pub fn mask(self) -> (r: u8)
        ensures
            r == self.spec_mask(),
    {
        match self {
            Modifier::Shift => 1,
            Modifier::Control => 2,
            Modifier::Alt => 4,
            Modifier::Meta => 8,
        }
    }
}

/// A set of modifiers, kept as one bit per modifier. Its view is the set of
/// the modifiers it holds.
#[derive(Clone, Copy, Debug, PartialEq, Eq, Hash, Structural)]
pub struct Modifiers {
    bits: u8,
}

/// The bit pattern of a set of modifiers.
pub open spec fn bits_of(flags: Set<Modifier>) -> u8 {
    (if flags.contains(Modifier::Shift) { 1u8 } else { 0u8 })
    | (if flags.contains(Modifier::Control) { 2u8 } else { 0u8 })
    | (if flags.contains(Modifier::Alt) { 4u8 } else { 0u8 })
    | (if flags.contains(Modifier::Meta) { 8u8 } else { 0u8 })
}

proof fn lemma_bits_of_bit(s: bool, c: bool, a: bool, m: bool)
    ensures
        ({
            let b = (if s { 1u8 } else { 0u8 }) | (if c { 2u8 } else { 0u8 })
                | (if a { 4u8 } else { 0u8 }) | (if m { 8u8 } else { 0u8 });
            &&& b < 16
            &&& (b & 1 != 0) == s
            &&& (b & 2 != 0) == c
            &&& (b & 4 != 0) == a
            &&& (b & 8 != 0) == m
        }),
{
    let sb = if s { 1u8 } else { 0u8 };
    let cb = if c { 2u8 } else { 0u8 };
    let ab = if a { 4u8 } else { 0u8 };
    let mb = if m { 8u8 } else { 0u8 };
    assert({
        let b = sb | cb | ab | mb;
        &&& b < 16
        &&& (b & 1 != 0) == (sb != 0)
        &&& (b & 2 != 0) == (cb != 0)
        &&& (b & 4 != 0) == (ab != 0)
        &&& (b & 8 != 0) == (mb != 0)
    }) by (bit_vector)
        requires
            sb == 0 || sb == 1,
            cb == 0 || cb == 2,
            ab == 0 || ab == 4,
            mb == 0 || mb == 8,
    ;
}

proof fn lemma_bits_rebuild(b: u8)
    requires
        b < 16,
    ensures
        b == (if b & 1 != 0 { 1u8 } else { 0u8 }) | (if b & 2 != 0 { 2u8 } else { 0u8 }) | (if b & 4
            != 0 { 4u8 } else { 0u8 }) | (if b & 8 != 0 { 8u8 } else { 0u8 }),
{
    assert(b == (if b & 1 != 0 { 1u8 } else { 0u8 }) | (if b & 2 != 0 { 2u8 } else { 0u8 }) | (if b
        & 4 != 0 { 4u8 } else { 0u8 }) | (if b & 8 != 0 { 8u8 } else { 0u8 })) by (bit_vector)
        requires
            b < 16,
    ;
}

impl View for Modifiers {
    type V = Set<Modifier>;

    closed spec fn view(&self) -> Set<Modifier> {
        Set::new(|m: Modifier| self.bits & m.spec_mask() != 0)
    }
}

impl Modifiers {
    /// No bit but those of the four modifiers is set.
    #[verifier::type_invariant]
    pub closed spec fn wf(self) -> bool {
        self.bits < 16
    }

    /// The modifier set that holds exactly `flags`.
    pub closed spec fn of(flags: Set<Modifier>) -> Modifiers {
        Modifiers { bits: bits_of(flags) }
    }

    /// The bit pattern of the set.
    pub closed spec fn spec_bits(self) -> u8 {
        self.bits
    }

    /// The set without any modifier.
    pub fn empty() -> (r: Modifiers)
        ensures
            r == Modifiers::of(Set::empty()),
            r@ == Set::<Modifier>::empty(),
    {
        let r = Modifiers { bits: 0 };
        proof {
            assert(0u8 | 0u8 | 0u8 | 0u8 == 0) by (bit_vector);
            assert(forall|m: Modifier| 0u8 & #[trigger] m.spec_mask() == 0) by {
                assert(forall|x: u8| 0u8 & x == 0) by (bit_vector);
            }
            assert(r@ =~= Set::<Modifier>::empty());
        }
        r
    }

    /// The set that holds `modifier` and nothing else.
    pub fn single(modifier: Modifier) -> (r: Modifiers)
        ensures
            r == Modifiers::of(set![modifier]),
            r@ == set![modifier],
    {
        let r = Modifiers { bits: modifier.mask() };
        proof {
            let flags = set![modifier];
            lemma_bits_of_bit(
                flags.contains(Modifier::Shift),
                flags.contains(Modifier::Control),
                flags.contains(Modifier::Alt),
                flags.contains(Modifier::Meta),
            );
            assert(1u8 | 0u8 | 0u8 | 0u8 == 1 && 0u8 | 2u8 | 0u8 | 0u8 == 2 && 0u8 | 0u8 | 4u8 | 0u8
                == 4 && 0u8 | 0u8 | 0u8 | 8u8 == 8) by (bit_vector);
            assert(r.bits == bits_of(flags));
            lemma_of_view(flags);
        }
        r
    }

    /// The set that holds the shift modifier alone.
    pub fn shift() -> (r: Modifiers)
        ensures
            r == Modifiers::of(set![Modifier::Shift]),
            r@ == set![Modifier::Shift],
    {
        Modifiers::single(Modifier::Shift)
    }

    /// The set that holds the control modifier alone.
    pub fn control() -> (r: Modifiers)
        ensures
            r == Modifiers::of(set![Modifier::Control]),
            r@ == set![Modifier::Control],
    {
        Modifiers::single(Modifier::Control)
    }

    /// The set that holds the alt modifier alone.
    pub fn alt() -> (r: Modifiers)
        ensures
            r == Modifiers::of(set![Modifier::Alt]),
            r@ == set![Modifier::Alt],
    {
        Modifiers::single(Modifier::Alt)
    }

    /// The set that holds the meta modifier alone.
    pub fn meta() -> (r: Modifiers)
        ensures
            r == Modifiers::of(set![Modifier::Meta]),
            r@ == set![Modifier::Meta],
    {
        Modifiers::single(Modifier::Meta)
    }

    /// The bit pattern of the set: bit 0 for shift, bit 1 for control, bit 2
    /// for alt, bit 3 for meta.
    pub fn bits(&self) -> (r: u8)
        ensures
            r == bits_of(self@),
            r == self.spec_bits(),
            r < 16,
    {
        proof {
            use_type_invariant(self);
            lemma_view_of(*self);
        }
        self.bits
    }

    /// The set whose bit pattern is the low four bits of `bits`.
    pub fn from_bits_truncate(bits: u8) -> (r: Modifiers)
        ensures
            r.spec_bits() == bits & 15,
            forall|m: Modifier| r@.contains(m) <==> bits & #[trigger] m.spec_mask() != 0,
    {
        assert(bits & 15 < 16) by (bit_vector);
        let r = Modifiers { bits: bits & 15 };
        proof {
            assert(((bits & 15) & 1 != 0) == (bits & 1 != 0) && ((bits & 15) & 2 != 0) == (bits & 2
                != 0) && ((bits & 15) & 4 != 0) == (bits & 4 != 0) && ((bits & 15) & 8 != 0) == (
            bits & 8 != 0)) by (bit_vector);
        }
        r
    }

    /// Whether the set holds no modifier.
    pub fn is_empty(&self) -> (r: bool)
        ensures
            r == (self@ == Set::<Modifier>::empty()),
    {
        proof {
            use_type_invariant(self);
            let b = self.bits;
            assert((b == 0) == (b & 1 == 0 && b & 2 == 0 && b & 4 == 0 && b & 8 == 0))
                by (bit_vector)
                requires
                    b < 16,
            ;
            if b == 0 {
                assert(self@ =~= Set::<Modifier>::empty());
            } else {
                assert(self@.contains(Modifier::Shift) || self@.contains(Modifier::Control)
                    || self@.contains(Modifier::Alt) || self@.contains(Modifier::Meta));
            }
        }
        self.bits == 0
    }

    /// Whether the set holds every modifier of `other`.
    pub fn contains(&self, other: Modifiers) -> (r: bool)
        ensures
            r == other@.subset_of(self@),
    {
        proof {
            use_type_invariant(self);
            use_type_invariant(&other);
            let a = self.bits;
            let b = other.bits;
            assert((a & b == b) == ((b & 1 != 0 ==> a & 1 != 0) && (b & 2 != 0 ==> a & 2 != 0) && (b
                & 4 != 0 ==> a & 4 != 0) && (b & 8 != 0 ==> a & 8 != 0))) by (bit_vector)
                requires
                    a < 16,
                    b < 16,
            ;
            if a & b == b {
                assert forall|m: Modifier| other@.contains(m) implies self@.contains(m) by {
                    match m {
                        Modifier::Shift => {},
                        Modifier::Control => {},
                        Modifier::Alt => {},
                        Modifier::Meta => {},
                    }
                }
            } else {
                assert((other@.contains(Modifier::Shift) && !self@.contains(Modifier::Shift)) || (
                other@.contains(Modifier::Control) && !self@.contains(Modifier::Control)) || (
                other@.contains(Modifier::Alt) && !self@.contains(Modifier::Alt)) || (
                other@.contains(Modifier::Meta) && !self@.contains(Modifier::Meta)));
            }
        }
        self.bits & other.bits == other.bits
    }

    /// Adds every modifier of `other` to the set.
    pub fn insert(&mut self, other: Modifiers)
        ensures
            *final(self) == Modifiers::of(old(self)@.union(other@)),
            final(self)@ == old(self)@.union(other@),
    {
        proof {
            use_type_invariant(&*self);
            use_type_invariant(&other);
        }
        let ghost a = self.bits;
        let ghost b = other.bits;
        let bits = self.bits | other.bits;
        proof {
            assert((a | b) < 16 && (((a | b) & 1 != 0) == (a & 1 != 0 || b & 1 != 0)) && (((a | b)
                & 2 != 0) == (a & 2 != 0 || b & 2 != 0)) && (((a | b) & 4 != 0) == (a & 4 != 0 || b
                & 4 != 0)) && (((a | b) & 8 != 0) == (a & 8 != 0 || b & 8 != 0))) by (bit_vector)
                requires
                    a < 16,
                    b < 16,
            ;
            let r = Modifiers { bits };
            assert forall|m: Modifier| r@.contains(m) == old(self)@.union(other@).contains(m) by {
                match m {
                    Modifier::Shift => {},
                    Modifier::Control => {},
                    Modifier::Alt => {},
                    Modifier::Meta => {},
                }
            }
            assert(r@ =~= old(self)@.union(other@));
            lemma_view_of(r);
        }
        self.bits = bits;
    }

    /// Takes every modifier of `other` out of the set.
    pub fn remove(&mut self, other: Modifiers)
        ensures
            *final(self) == Modifiers::of(old(self)@.difference(other@)),
            final(self)@ == old(self)@.difference(other@),
    {
        proof {
            use_type_invariant(&*self);
            use_type_invariant(&other);
        }
        let ghost a = self.bits;
        let ghost b = other.bits;
        let bits = self.bits & !other.bits;
        proof {
            assert((a & !b) < 16 && (((a & !b) & 1 != 0) == (a & 1 != 0 && b & 1 == 0)) && (((a
                & !b) & 2 != 0) == (a & 2 != 0 && b & 2 == 0)) && (((a & !b) & 4 != 0) == (a & 4
                != 0 && b & 4 == 0)) && (((a & !b) & 8 != 0) == (a & 8 != 0 && b & 8 == 0)))
                by (bit_vector)
                requires
                    a < 16,
                    b < 16,
            ;
            let r = Modifiers { bits };
            assert forall|m: Modifier|
                r@.contains(m) == old(self)@.difference(other@).contains(m) by {
                match m {
                    Modifier::Shift => {},
                    Modifier::Control => {},
                    Modifier::Alt => {},
                    Modifier::Meta => {},
                }
            }
            assert(r@ =~= old(self)@.difference(other@));
            lemma_view_of(r);
        }
        self.bits = bits;
    }
}

/// The modifier set made of a set of modifiers holds exactly that set, and is
/// well formed.
pub proof fn lemma_of_view(flags: Set<Modifier>)
    ensures
        Modifiers::of(flags).wf(),
        Modifiers::of(flags)@ == flags,
        Modifiers::of(flags).spec_bits() == bits_of(flags),
{
    lemma_bits_of_bit(
        flags.contains(Modifier::Shift),
        flags.contains(Modifier::Control),
        flags.contains(Modifier::Alt),
        flags.contains(Modifier::Meta),
    );
    let r = Modifiers::of(flags);
    assert forall|m: Modifier| r@.contains(m) == flags.contains(m) by {
        match m {
            Modifier::Shift => {},
            Modifier::Control => {},
            Modifier::Alt => {},
            Modifier::Meta => {},
        }
    }
    assert(r@ =~= flags);
}

/// A well-formed modifier set is the one made of the modifiers it holds.
pub proof fn lemma_view_of(modifiers: Modifiers)
    requires
        modifiers.wf(),
    ensures
        Modifiers::of(modifiers@) == modifiers,
        modifiers.spec_bits() == bits_of(modifiers@),
{
    lemma_bits_rebuild(modifiers.bits);
}

/// Two modifier sets with the same bit pattern are equal.
pub proof fn lemma_bits_injective(a: Modifiers, b: Modifiers)
    requires
        a.spec_bits() == b.spec_bits(),
    ensures
        a == b,
{
}

/// Two well-formed modifier sets that hold the same modifiers are equal.
pub proof fn law_view_injective(a: Modifiers, b: Modifiers)
    requires
        a.wf(),
        b.wf(),
        a@ == b@,
    ensures
        a == b,
{
    lemma_view_of(a);
    lemma_view_of(b);
}

} // verus!
