//! An immutable bitset of terminal text attributes.
//!
//! Each named attribute (16 foreground colors, 16 background colors, 8
//! emphasis attributes) occupies one exclusive bit of a `u64`, assigned in
//! declaration order. Styles are combined with [`Style::with`] (bitwise
//! union) and queried with [`Style::contains`]; the all-zero value is the
//! default "no style".

use vstd::prelude::*;

verus! {

// Foreground colors, one bit each, in declaration order from bit 0 up.
pub const FG_BLACK: u64 = 1u64 << 0;
pub const FG_BLUE: u64 = 1u64 << 1;
pub const FG_BRIGHT_BLACK: u64 = 1u64 << 2;
pub const FG_BRIGHT_BLUE: u64 = 1u64 << 3;
pub const FG_BRIGHT_CYAN: u64 = 1u64 << 4;
pub const FG_BRIGHT_GREEN: u64 = 1u64 << 5;
pub const FG_BRIGHT_MAGENTA: u64 = 1u64 << 6;
pub const FG_BRIGHT_RED: u64 = 1u64 << 7;
pub const FG_BRIGHT_WHITE: u64 = 1u64 << 8;
pub const FG_BRIGHT_YELLOW: u64 = 1u64 << 9;
pub const FG_CYAN: u64 = 1u64 << 10;
pub const FG_GREEN: u64 = 1u64 << 11;
pub const FG_MAGENTA: u64 = 1u64 << 12;
pub const FG_RED: u64 = 1u64 << 13;
pub const FG_WHITE: u64 = 1u64 << 14;
pub const FG_YELLOW: u64 = 1u64 << 15;

// Background colors.
pub const BG_BLACK: u64 = 1u64 << 16;
pub const BG_BLUE: u64 = 1u64 << 17;
pub const BG_BRIGHT_BLACK: u64 = 1u64 << 18;
pub const BG_BRIGHT_BLUE: u64 = 1u64 << 19;
pub const BG_BRIGHT_CYAN: u64 = 1u64 << 20;
pub const BG_BRIGHT_GREEN: u64 = 1u64 << 21;
pub const BG_BRIGHT_MAGENTA: u64 = 1u64 << 22;
pub const BG_BRIGHT_RED: u64 = 1u64 << 23;
pub const BG_BRIGHT_WHITE: u64 = 1u64 << 24;
pub const BG_BRIGHT_YELLOW: u64 = 1u64 << 25;
pub const BG_CYAN: u64 = 1u64 << 26;
pub const BG_GREEN: u64 = 1u64 << 27;
pub const BG_MAGENTA: u64 = 1u64 << 28;
pub const BG_RED: u64 = 1u64 << 29;
pub const BG_WHITE: u64 = 1u64 << 30;
pub const BG_YELLOW: u64 = 1u64 << 31;

// Emphasis attributes.
pub const BOLD: u64 = 1u64 << 32;
pub const DIM: u64 = 1u64 << 33;
pub const ITALIC: u64 = 1u64 << 34;
pub const UNDERLINE: u64 = 1u64 << 35;
pub const BLINK: u64 = 1u64 << 36;
pub const STANDOUT: u64 = 1u64 << 37;
pub const REVERSE: u64 = 1u64 << 38;
pub const SECURE: u64 = 1u64 << 39;

/// A combination of zero or more terminal text attributes, stored as a
/// bitset. The view of a `Style` is the underlying `u64`.
#[derive(Copy, Clone, Debug, PartialEq, Eq, Structural)]
#[verifier::ext_equal]
pub struct Style {
    bits: u64,
}

impl View for Style {
    type V = u64;

    closed spec fn view(&self) -> u64 {
        self.bits
    }
}

impl Style {
    /// The style with no attributes set, as a spec-level value.
    pub closed spec fn empty() -> Style {
        Style { bits: 0 }
    }

    /// The bitwise union of two styles, as a spec-level value.
    pub closed spec fn union(self, other: Style) -> Style {
        Style { bits: self.bits | other.bits }
    }

    /// `self` contains `other` when every bit set in `other` is set in `self`.
    pub open spec fn spec_contains(self, other: Style) -> bool {
        self@ | other@ == self@
    }

    /// `self` carries every attribute bit of the mask `attrs`.
    pub open spec fn spec_has(self, attrs: u64) -> bool {
        self@ | attrs == self@
    }

    /// Returns the style with no attributes set.
    pub fn new() -> (s: Style)
        ensures
            s == Style::empty(),
            s@ == 0u64,
    {
        Style { bits: 0 }
    }

    /// Returns the style whose bitset is exactly the given attribute mask.
    pub fn from_bits(attrs: u64) -> (s: Style)
        ensures
            s@ == attrs,
    {
        Style { bits: attrs }
    }

    /// Returns the union of `self` and `other_style`: a style carrying every
    /// attribute that either operand carries.
    pub fn with(self, other_style: Style) -> (s: Style)
        ensures
            s == self.union(other_style),
            s@ == (self@ | other_style@),
    {
        Style { bits: self.bits | other_style.bits }
    }

    /// Returns true when every attribute of `other_style` is also set in
    /// `self`, that is, when `self.with(other_style) == self`.
    pub fn contains(self, other_style: Style) -> (r: bool)
        ensures
            r == self.spec_contains(other_style),
    {
        let combined = self.with(other_style);
        proof {
            if combined@ == self@ {
                assert(combined =~= self);
            }
        }
        combined == self
    }

    /// Returns true when `self` carries every attribute bit of `attrs`.
    pub fn has(self, attrs: u64) -> (r: bool)
        ensures
            r == self.spec_has(attrs),
    {
        (self.bits | attrs) == self.bits
    }
}

impl Default for Style {
    /// Returns the style with no attributes set.
    fn default() -> (s: Style)
        ensures
            s == Style::empty(),
            s@ == 0u64,
    {
        Style { bits: 0 }
    }
}

/// The empty style is the all-zero bitset: the canonical "no style".
pub proof fn lemma_empty_bits()
    ensures
        Style::empty()@ == 0u64,
{
}

/// Two styles are equal exactly when their bitsets are equal.
pub proof fn lemma_style_eq(a: Style, b: Style)
    ensures
        (a == b) <==> (a@ == b@),
{
    if a@ == b@ {
        assert(a =~= b);
    }
}

/// Idempotence: the union of a style with itself is that style.
pub proof fn lemma_union_idempotent(a: Style)
    ensures
        a.union(a) == a,
{
    assert(a.bits | a.bits == a.bits) by (bit_vector);
    assert(a.union(a) =~= a);
}

/// Commutativity: the order of the operands of a union never matters.
pub proof fn lemma_union_commutative(a: Style, b: Style)
    ensures
        a.union(b) == b.union(a),
{
    let x = a.bits;
    let y = b.bits;
    assert(x | y == y | x) by (bit_vector);
    assert(a.union(b) =~= b.union(a));
}

/// Associativity: the grouping of unions never matters.
pub proof fn lemma_union_associative(a: Style, b: Style, c: Style)
    ensures
        a.union(b).union(c) == a.union(b.union(c)),
{
    let x = a.bits;
    let y = b.bits;
    let z = c.bits;
    assert((x | y) | z == x | (y | z)) by (bit_vector);
    assert(a.union(b).union(c) =~= a.union(b.union(c)));
}

/// Containment is reflexive: every style contains itself.
pub proof fn lemma_contains_reflexive(a: Style)
    ensures
        a.spec_contains(a),
{
    assert(a.bits | a.bits == a.bits) by (bit_vector);
}

/// The empty style contains only the empty style.
pub proof fn lemma_empty_contains_only_empty(x: Style)
    ensures
        Style::empty().spec_contains(x) <==> x == Style::empty(),
{
    let b = x.bits;
    assert((0u64 | b == 0u64) <==> (b == 0u64)) by (bit_vector);
    if x.bits == 0u64 {
        assert(x =~= Style::empty());
    }
}

/// A union contains both of its operands.
pub proof fn lemma_union_contains_parts(a: Style, b: Style)
    ensures
        a.union(b).spec_contains(a),
        a.union(b).spec_contains(b),
{
    let x = a.bits;
    let y = b.bits;
    assert((x | y) | x == x | y) by (bit_vector);
    assert((x | y) | y == x | y) by (bit_vector);
}

/// Every style contains the empty style.
pub proof fn lemma_contains_empty(x: Style)
    ensures
        x.spec_contains(Style::empty()),
{
    let b = x.bits;
    assert(b | 0u64 == b) by (bit_vector);
}

} // verus!
