//! Capability bits and the header record a plugin exports.
use vstd::prelude::*;

use crate::layout::TypeLayout;

verus! {

/// The plugin can read mouse input.
pub const READ_MOUSE: u8 = 0x01;

/// The plugin can send mouse input.
pub const WRITE_MOUSE: u8 = 0x02;

/// The plugin can read keyboard input.
pub const READ_KEYBOARD: u8 = 0x04;

/// The plugin can send keyboard input.
pub const WRITE_KEYBOARD: u8 = 0x08;

/// The plugin can intercept mouse input.
pub const INTERCEPT_MOUSE: u8 = 0x10;

/// The plugin can intercept keyboard input.
pub const INTERCEPT_KEYBOARD: u8 = 0x20;

/// Every defined capability.
pub const ALL: u8 = READ_MOUSE | WRITE_MOUSE | READ_KEYBOARD | WRITE_KEYBOARD | INTERCEPT_MOUSE
    | INTERCEPT_KEYBOARD;

/// The mask of bit position `i` of a byte.
pub open spec fn bit_mask(i: nat) -> u8 {
    if i == 0 {
        1
    } else if i == 1 {
        2
    } else if i == 2 {
        4
    } else if i == 3 {
        8
    } else if i == 4 {
        16
    } else if i == 5 {
        32
    } else if i == 6 {
        64
    } else {
        128
    }
}

/// The bit positions that are set in a byte.
pub open spec fn bit_set(bits: u8) -> Set<nat> {
    Set::new(|i: nat| i < 8 && bits & bit_mask(i) != 0)
}

/// Which optional interfaces a plugin implements, one bit each.
#[derive(Debug, Clone, Copy, PartialEq, Eq, Hash, Structural)]
pub struct FeatureSupport {
    pub bits: u8,
}

impl View for FeatureSupport {
    type V = Set<nat>;

    open spec fn view(&self) -> Set<nat> {
        bit_set(self.bits)
    }
}

/// `a & b == b` holds exactly when every bit set in `b` is set in `a`.
proof fn lemma_and_is_subset(a: u8, b: u8)
    ensures
        (a & b == b) <==> bit_set(b).subset_of(bit_set(a)),
{
    let ghost sa = bit_set(a);
    let ghost sb = bit_set(b);
    if a & b == b {
        assert(a & b == b ==> (b & 1 != 0 ==> a & 1 != 0) && (b & 2 != 0 ==> a & 2 != 0) && (b
            & 4 != 0 ==> a & 4 != 0) && (b & 8 != 0 ==> a & 8 != 0) && (b & 16 != 0 ==> a & 16
            != 0) && (b & 32 != 0 ==> a & 32 != 0) && (b & 64 != 0 ==> a & 64 != 0) && (b & 128
            != 0 ==> a & 128 != 0)) by (bit_vector);
        assert forall|i: nat| sb.contains(i) implies sa.contains(i) by {
            if i == 0 {} else if i == 1 {} else if i == 2 {} else if i == 3 {} else if i == 4 {
            } else if i == 5 {} else if i == 6 {} else {}
        }
    }
    if sb.subset_of(sa) {
        assert(sb.contains(0) ==> sa.contains(0));
        assert(sb.contains(1) ==> sa.contains(1));
        assert(sb.contains(2) ==> sa.contains(2));
        assert(sb.contains(3) ==> sa.contains(3));
        assert(sb.contains(4) ==> sa.contains(4));
        assert(sb.contains(5) ==> sa.contains(5));
        assert(sb.contains(6) ==> sa.contains(6));
        assert(sb.contains(7) ==> sa.contains(7));
        assert((b & 1 != 0 ==> a & 1 != 0) && (b & 2 != 0 ==> a & 2 != 0) && (b & 4 != 0 ==> a
            & 4 != 0) && (b & 8 != 0 ==> a & 8 != 0) && (b & 16 != 0 ==> a & 16 != 0) && (b & 32
            != 0 ==> a & 32 != 0) && (b & 64 != 0 ==> a & 64 != 0) && (b & 128 != 0 ==> a & 128
            != 0) ==> a & b == b) by (bit_vector);
    }
}

/// `a | b` sets exactly the bits set in either.
proof fn lemma_or_is_union(a: u8, b: u8)
    ensures
        bit_set(a | b) == bit_set(a).union(bit_set(b)),
{
    assert((a | b) & 1 != 0 <==> (a & 1 != 0 || b & 1 != 0)) by (bit_vector);
    assert((a | b) & 2 != 0 <==> (a & 2 != 0 || b & 2 != 0)) by (bit_vector);
    assert((a | b) & 4 != 0 <==> (a & 4 != 0 || b & 4 != 0)) by (bit_vector);
    assert((a | b) & 8 != 0 <==> (a & 8 != 0 || b & 8 != 0)) by (bit_vector);
    assert((a | b) & 16 != 0 <==> (a & 16 != 0 || b & 16 != 0)) by (bit_vector);
    assert((a | b) & 32 != 0 <==> (a & 32 != 0 || b & 32 != 0)) by (bit_vector);
    assert((a | b) & 64 != 0 <==> (a & 64 != 0 || b & 64 != 0)) by (bit_vector);
    assert((a | b) & 128 != 0 <==> (a & 128 != 0 || b & 128 != 0)) by (bit_vector);
    assert(bit_set(a | b) =~= bit_set(a).union(bit_set(b)));
}

impl FeatureSupport {
    /// The raw bits.
    pub open spec fn spec_bits(&self) -> u8 {
        self.bits
    }

    /// Keeps every bit as given, defined or not.
    pub fn from_bits_retain(bits: u8) -> (r: FeatureSupport)
        ensures
            r.spec_bits() == bits,
    {
        FeatureSupport { bits }
    }

    /// Accepts the bits only when each of them is a defined capability.
    pub fn from_bits(bits: u8) -> (r: Option<FeatureSupport>)
        ensures
            r.is_some() <==> bit_set(bits).subset_of(bit_set(ALL)),
            r matches Some(f) ==> f.spec_bits() == bits,
    {
        proof {
            lemma_and_is_subset(ALL, bits);
        }
        if ALL & bits == bits {
            Some(FeatureSupport { bits })
        } else {
            None
        }
    }

    /// No capability.
    pub fn empty() -> (r: FeatureSupport)
        ensures
            r.spec_bits() == 0,
            r@ == Set::<nat>::empty(),
    {
        let r = FeatureSupport { bits: 0 };
        proof {
            assert forall|i: nat| !r@.contains(i) by {
                assert(0u8 & bit_mask(i) == 0) by (bit_vector);
            }
            assert(r@ =~= Set::<nat>::empty());
        }
        r
    }

    /// The raw bits.
    pub fn bits(&self) -> (r: u8)
        ensures
            r == self.spec_bits(),
    {
        self.bits
    }

    /// Whether every capability of `other` is also in `self`.
    pub fn contains(&self, other: FeatureSupport) -> (r: bool)
        ensures
            r <==> other@.subset_of(self@),
    {
        proof {
            lemma_and_is_subset(self.bits, other.bits);
        }
        self.bits & other.bits == other.bits
    }

    /// The capabilities of both.
    pub fn union(self, other: FeatureSupport) -> (r: FeatureSupport)
        ensures
            r.spec_bits() == self.spec_bits() | other.spec_bits(),
            r@ == self@.union(other@),
    {
        proof {
            lemma_or_is_union(self.bits, other.bits);
        }
        FeatureSupport { bits: self.bits | other.bits }
    }
}

/// The record a plugin exports under the header symbol, as the host reads it:
/// its capabilities and the layout fingerprint of its root object.
pub struct PluginHeader {
    pub features: FeatureSupport,
    pub layout: TypeLayout,
}

} // verus!
