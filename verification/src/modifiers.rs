//! The ambient state of the modifier keys.

use vstd::prelude::*;

verus! {

/// One of the four modifiers that the keyboard state tracks.
#[derive(Debug, Clone, Copy, PartialEq, Eq, Hash, Structural)]
pub enum Modifier {
    Shift,
    Ctrl,
    Alt,
    Logo,
}

const SHIFT_BIT: u32 = 0b100;

const CTRL_BIT: u32 = 0b100000;

const ALT_BIT: u32 = 0b100000000;

const LOGO_BIT: u32 = 0b100000000000;

const ALL_BITS: u32 = 0b100100100100;

/// The bit that stands for a modifier.
spec fn flag_bit(m: Modifier) -> u32 {
    match m {
        Modifier::Shift => SHIFT_BIT,
        Modifier::Ctrl => CTRL_BIT,
        Modifier::Alt => ALT_BIT,
        Modifier::Logo => LOGO_BIT,
    }
}

/// Whether the bit of `m` is set in `bits`.
spec fn bit_set(bits: u32, m: Modifier) -> bool {
    bits & flag_bit(m) != 0
}

/// Whether `bits` has no bit outside the four flags.
spec fn only_flags(bits: u32) -> bool {
    bits & !ALL_BITS == 0
}

/// Which modifiers are down: a set of [`Modifier`]s, kept as a bitmask.
///
/// The view of a state is the set itself; two states are equal exactly when
/// they hold the same modifiers (see [`lemma_equal_states`]).
#[derive(Debug, Clone, Copy, PartialEq, Eq, Hash, Structural)]
pub struct ModifiersState {
    bits: u32,
}

impl View for ModifiersState {
    type V = Set<Modifier>;

    closed spec fn view(&self) -> Set<Modifier> {
        Set::new(|m: Modifier| bit_set(self.bits, m))
    }
}

/// A mask without stray bits is determined by its four flags.
proof fn lemma_mask_by_flags(a: u32, b: u32)
    requires
        only_flags(a),
        only_flags(b),
        forall|m: Modifier| bit_set(a, m) == bit_set(b, m),
    ensures
        a == b,
{
    assert(bit_set(a, Modifier::Shift) == bit_set(b, Modifier::Shift));
    assert(bit_set(a, Modifier::Ctrl) == bit_set(b, Modifier::Ctrl));
    assert(bit_set(a, Modifier::Alt) == bit_set(b, Modifier::Alt));
    assert(bit_set(a, Modifier::Logo) == bit_set(b, Modifier::Logo));
    assert(a == b) by (bit_vector)
        requires
            a & !0b100100100100u32 == 0,
            b & !0b100100100100u32 == 0,
            (a & 0b100u32 != 0) == (b & 0b100u32 != 0),
            (a & 0b100000u32 != 0) == (b & 0b100000u32 != 0),
            (a & 0b100000000u32 != 0) == (b & 0b100000000u32 != 0),
            (a & 0b100000000000u32 != 0) == (b & 0b100000000000u32 != 0),
    ;
}

/// The zero mask holds no flag.
proof fn lemma_zero_bits()
    ensures
        only_flags(0),
        forall|m: Modifier| !bit_set(0, m),
{
    assert(0u32 & !0b100100100100u32 == 0) by (bit_vector);
    assert forall|m: Modifier| !bit_set(0, m) by {
        let f = flag_bit(m);
        assert(0u32 & f == 0) by (bit_vector);
    }
}

/// The mask of one flag holds that flag and no other.
proof fn lemma_single_bits(m: Modifier)
    ensures
        only_flags(flag_bit(m)),
        forall|n: Modifier| bit_set(flag_bit(m), n) == (n == m),
{
    assert({
        &&& 0b100u32 & !0b100100100100u32 == 0
        &&& 0b100000u32 & !0b100100100100u32 == 0
        &&& 0b100000000u32 & !0b100100100100u32 == 0
        &&& 0b100000000000u32 & !0b100100100100u32 == 0
        &&& 0b100u32 & 0b100u32 != 0
        &&& 0b100u32 & 0b100000u32 == 0
        &&& 0b100u32 & 0b100000000u32 == 0
        &&& 0b100u32 & 0b100000000000u32 == 0
        &&& 0b100000u32 & 0b100u32 == 0
        &&& 0b100000u32 & 0b100000u32 != 0
        &&& 0b100000u32 & 0b100000000u32 == 0
        &&& 0b100000u32 & 0b100000000000u32 == 0
        &&& 0b100000000u32 & 0b100u32 == 0
        &&& 0b100000000u32 & 0b100000u32 == 0
        &&& 0b100000000u32 & 0b100000000u32 != 0
        &&& 0b100000000u32 & 0b100000000000u32 == 0
        &&& 0b100000000000u32 & 0b100u32 == 0
        &&& 0b100000000000u32 & 0b100000u32 == 0
        &&& 0b100000000000u32 & 0b100000000u32 == 0
        &&& 0b100000000000u32 & 0b100000000000u32 != 0
    }) by (bit_vector);
}

/// The flags of `a | b` are those of `a` together with those of `b`.
proof fn lemma_union_bits(a: u32, b: u32)
    ensures
        forall|m: Modifier| bit_set(a | b, m) == (bit_set(a, m) || bit_set(b, m)),
        only_flags(a) && only_flags(b) ==> only_flags(a | b),
{
    assert forall|m: Modifier| bit_set(a | b, m) == (bit_set(a, m) || bit_set(b, m)) by {
        let f = flag_bit(m);
        assert(((a | b) & f != 0) == ((a & f != 0) || (b & f != 0))) by (bit_vector);
    }
    assert(a & !0b100100100100u32 == 0 && b & !0b100100100100u32 == 0 ==> (a | b)
        & !0b100100100100u32 == 0) by (bit_vector);
}

/// The flags of `a & !b` are those of `a` that `b` lacks.
proof fn lemma_difference_bits(a: u32, b: u32)
    ensures
        forall|m: Modifier| bit_set(a & !b, m) == (bit_set(a, m) && !bit_set(b, m)),
        only_flags(a) ==> only_flags(a & !b),
{
    assert forall|m: Modifier| bit_set(a & !b, m) == (bit_set(a, m) && !bit_set(b, m)) by {
        let f = flag_bit(m);
        assert(((a & !b) & f != 0) == ((a & f != 0) && !(b & f != 0))) by (bit_vector)
            requires
                f == 0b100u32 || f == 0b100000u32 || f == 0b100000000u32 || f
                    == 0b100000000000u32,
        ;
    }
    assert(a & !0b100100100100u32 == 0 ==> (a & !b) & !0b100100100100u32 == 0) by (bit_vector);
}

/// `a` covers the mask `b` exactly when it has each flag of `b`.
proof fn lemma_contains_bits(a: u32, b: u32)
    requires
        only_flags(b),
    ensures
        (a & b == b) <==> (forall|m: Modifier| bit_set(b, m) ==> bit_set(a, m)),
{
    assert(b & !0b100100100100u32 == 0 ==> ((a & b == b) <==> {
        &&& (b & 0b100u32 != 0 ==> a & 0b100u32 != 0)
        &&& (b & 0b100000u32 != 0 ==> a & 0b100000u32 != 0)
        &&& (b & 0b100000000u32 != 0 ==> a & 0b100000000u32 != 0)
        &&& (b & 0b100000000000u32 != 0 ==> a & 0b100000000000u32 != 0)
    })) by (bit_vector);
    if a & b == b {
        assert forall|m: Modifier| bit_set(b, m) implies bit_set(a, m) by {}
    }
    if forall|m: Modifier| bit_set(b, m) ==> bit_set(a, m) {
        assert(bit_set(b, Modifier::Shift) ==> bit_set(a, Modifier::Shift));
        assert(bit_set(b, Modifier::Ctrl) ==> bit_set(a, Modifier::Ctrl));
        assert(bit_set(b, Modifier::Alt) ==> bit_set(a, Modifier::Alt));
        assert(bit_set(b, Modifier::Logo) ==> bit_set(a, Modifier::Logo));
    }
}

impl ModifiersState {
    /// Only modifier bits are set.
    #[verifier::type_invariant]
    pub closed spec fn wf(self) -> bool {
        only_flags(self.bits)
    }

    /// The state in which no modifier is down.
    pub fn empty() -> (r: ModifiersState)
        ensures
            r@ == Set::<Modifier>::empty(),
    {
        proof {
            lemma_zero_bits();
        }
        ModifiersState { bits: 0 }
    }

    /// The state in which `m` is down and nothing else.
    pub fn single(m: Modifier) -> (r: ModifiersState)
        ensures
            r@ == set![m],
            r@.contains(m),
    {
        proof {
            lemma_single_bits(m);
        }
        let bits = match m {
            Modifier::Shift => SHIFT_BIT,
            Modifier::Ctrl => CTRL_BIT,
            Modifier::Alt => ALT_BIT,
            Modifier::Logo => LOGO_BIT,
        };
        ModifiersState { bits }
    }

    /// Whether no modifier is down.
    pub fn is_empty(&self) -> (b: bool)
        ensures
            b == (self@ == Set::<Modifier>::empty()),
    {
        proof {
            use_type_invariant(self);
            lemma_zero_bits();
            if self.bits == 0 {
                assert(self@ =~= Set::<Modifier>::empty());
            }
            if self@ == Set::<Modifier>::empty() {
                assert forall|m: Modifier| bit_set(self.bits, m) == bit_set(0, m) by {
                    assert(!self@.contains(m));
                }
                lemma_mask_by_flags(self.bits, 0);
            }
        }
        self.bits == 0
    }

    /// Whether `m` is down.
    pub fn has(&self, m: Modifier) -> (b: bool)
        ensures
            b == self@.contains(m),
    {
        let bit = match m {
            Modifier::Shift => SHIFT_BIT,
            Modifier::Ctrl => CTRL_BIT,
            Modifier::Alt => ALT_BIT,
            Modifier::Logo => LOGO_BIT,
        };
        self.bits & bit != 0
    }

    /// Whether every modifier of `other` is down in `self`.
    pub open spec fn spec_contains(&self, other: ModifiersState) -> bool {
        other@.subset_of(self@)
    }

    /// Whether every modifier of `other` is down in `self`.
    #[verifier::when_used_as_spec(spec_contains)]
    pub fn contains(&self, other: ModifiersState) -> (b: bool)
        ensures
            b == other@.subset_of(self@),
    {
        proof {
            use_type_invariant(other);
            lemma_contains_bits(self.bits, other.bits);
            if other@.subset_of(self@) {
                assert forall|m: Modifier| bit_set(other.bits, m) implies bit_set(
                    self.bits,
                    m,
                ) by {
                    assert(other@.contains(m));
                }
            }
        }
        self.bits & other.bits == other.bits
    }

    /// The modifiers of `self` together with those of `other`.
    pub fn union(self, other: ModifiersState) -> (r: ModifiersState)
        ensures
            r@ == self@.union(other@),
    {
        proof {
            use_type_invariant(self);
            use_type_invariant(other);
            lemma_union_bits(self.bits, other.bits);
        }
        ModifiersState { bits: self.bits | other.bits }
    }

    /// Puts the modifiers of `other` down.
    pub fn insert(&mut self, other: ModifiersState)
        ensures
            final(self)@ == old(self)@.union(other@),
    {
        proof {
            use_type_invariant(&*self);
            use_type_invariant(other);
            lemma_union_bits(self.bits, other.bits);
        }
        self.bits = self.bits | other.bits;
    }

    /// Lifts the modifiers of `other`.
    pub fn remove(&mut self, other: ModifiersState)
        ensures
            final(self)@ == old(self)@.difference(other@),
    {
        proof {
            use_type_invariant(&*self);
            lemma_difference_bits(self.bits, other.bits);
        }
        self.bits = self.bits & !other.bits;
    }

    /// Puts the modifiers of `other` down if `value` is true, and lifts them
    /// if it is false.
    pub fn set(&mut self, other: ModifiersState, value: bool)
        ensures
            final(self)@ == if value {
                old(self)@.union(other@)
            } else {
                old(self)@.difference(other@)
            },
    {
        if value {
            self.insert(other);
        } else {
            self.remove(other);
        }
    }

    /// Whether the shift key is down.
    pub fn shift(&self) -> (b: bool)
        ensures
            b == self@.contains(Modifier::Shift),
    {
        self.has(Modifier::Shift)
    }

    /// Whether the control key is down.
    pub fn ctrl(&self) -> (b: bool)
        ensures
            b == self@.contains(Modifier::Ctrl),
    {
        self.has(Modifier::Ctrl)
    }

    /// Whether the alt key is down.
    pub fn alt(&self) -> (b: bool)
        ensures
            b == self@.contains(Modifier::Alt),
    {
        self.has(Modifier::Alt)
    }

    /// Whether the logo key is down.
    pub fn logo(&self) -> (b: bool)
        ensures
            b == self@.contains(Modifier::Logo),
    {
        self.has(Modifier::Logo)
    }
}

/// Two well-formed states are equal exactly when they hold the same
/// modifiers.
pub proof fn lemma_equal_states(a: ModifiersState, b: ModifiersState)
    requires
        a.wf(),
        b.wf(),
    ensures
        a == b <==> a@ == b@,
{
    if a@ == b@ {
        assert forall|m: Modifier| bit_set(a.bits, m) == bit_set(b.bits, m) by {
            assert(a@.contains(m) == b@.contains(m));
        }
        lemma_mask_by_flags(a.bits, b.bits);
    }
}

} // verus!
