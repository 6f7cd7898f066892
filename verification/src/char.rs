//! A wrapper around one Unicode scalar value, with arithmetic that skips the
//! surrogate gap so that the codepoint axis behaves as if it were contiguous.

use vstd::prelude::*;

verus! {

/// First codepoint of the surrogate gap.
pub const INVALID_MIN: u32 = 0xD800;

/// Last codepoint of the surrogate gap.
pub const INVALID_MAX: u32 = 0xDFFF;

/// Width of the surrogate gap.
pub const INVALID_SIZE: u32 = 0x800;

/// Largest codepoint.
pub const MAX_CODEPOINT: u32 = 0x10FFFF;

/// Largest value on the logical (gap-free) axis: `MAX_CODEPOINT - INVALID_SIZE`.
pub const MAX_LOGICAL: u32 = 0x10F7FF;

/// True when `v` is the code of a Unicode scalar value: at most the largest
/// codepoint and not inside the surrogate gap.
pub open spec fn is_scalar_value(v: int) -> bool {
    0 <= v <= MAX_CODEPOINT && !(INVALID_MIN <= v <= INVALID_MAX)
}

/// Position of a scalar value's code on the logical axis, where the surrogate
/// gap is removed: codes above the gap are shifted down by the gap's width.
pub open spec fn to_logical(v: int) -> int {
    if v >= INVALID_MAX + 1 {
        v - INVALID_SIZE
    } else {
        v
    }
}

/// Inverse of [`to_logical`]: re-inserts the surrogate gap.
pub open spec fn to_physical(l: int) -> int {
    if l >= INVALID_MIN {
        l + INVALID_SIZE
    } else {
        l
    }
}

/// Position of a `char` on the logical axis.
pub open spec fn char_logical(c: char) -> int {
    to_logical(c as u32 as int)
}

/// Every `char` is a scalar value.
pub broadcast proof fn lemma_char_is_scalar(c: char)
    ensures
        #[trigger] is_scalar_value(c as u32 as int),
{
    broadcast use vstd::utf8::char_is_scalar;

}

/// The logical axis is in bijection with the scalar values.
pub proof fn lemma_logical_physical(v: int)
    ensures
        is_scalar_value(v) ==> 0 <= to_logical(v) <= MAX_LOGICAL && to_physical(to_logical(v))
            == v,
        0 <= v <= MAX_LOGICAL ==> is_scalar_value(to_physical(v)) && to_logical(to_physical(v))
            == v,
{
}

/// A valid scalar code cast to `char` keeps its value.
pub proof fn lemma_u32_to_char(u: u32)
    requires
        is_scalar_value(u as int),
    ensures
        (u as char) as u32 == u,
{
}

/// Two `char`s with the same code are the same `char`.
pub proof fn lemma_char_code_injective(a: char, b: char)
    requires
        a as u32 == b as u32,
    ensures
        a == b,
{
    vstd::utf8::char_u32_cast(a, a as u32);
    vstd::utf8::char_u32_cast(b, b as u32);
}

/// A structure holding a `char` to use within a range set.
#[derive(PartialEq, Eq, Hash, Clone, Copy, Debug, PartialOrd, Ord)]
pub struct Char(char);

impl View for Char {
    type V = char;

    closed spec fn view(&self) -> char {
        self.0
    }
}

/// Relies on `char::from_u32` of std: it returns the `char` with the given
/// code exactly when the code is a valid scalar value, and `None` otherwise.
pub assume_specification[ core::char::from_u32 ](i: u32) -> (r: Option<char>)
    ensures
        match r {
            Some(c) => is_scalar_value(i as int) && c as u32 == i,
            None => !is_scalar_value(i as int),
        },
;

impl Char {
    /// Create a new instance from the given `char`.
    pub fn new(c: char) -> (r: Self)
        ensures
            r@ == c,
    {
        Char(c)
    }

    /// Return the `char`.
    pub fn to_char(&self) -> (r: char)
        ensures
            r == self@,
    {
        self.0
    }

    /// Create a new instance from the given code, or `None` when the code is
    /// not a valid scalar value.
    pub fn from_u32(c: u32) -> (r: Option<Self>)
        ensures
            match r {
                Some(v) => is_scalar_value(c as int) && v@ as u32 == c,
                None => !is_scalar_value(c as int),
            },
    {
        match core::char::from_u32(c) {
            Some(c) => Some(Char(c)),
            None => None,
        }
    }

    /// Return the `char` code as a `u32`.
    pub fn to_u32(&self) -> (r: u32)
        ensures
            r == self@ as u32,
    {
        self.0 as u32
    }

    /// The smallest scalar value, codepoint 0.
    pub fn min_value() -> (r: Self)
        ensures
            r@ as u32 == 0,
    {
        Char('\0')
    }

    /// The largest scalar value.
    pub fn max_value() -> (r: Self)
        ensures
            r@ as u32 == MAX_CODEPOINT,
    {
        Char('\u{10FFFF}')
    }

    /// The scalar value with codepoint 1, the unit of the arithmetic.
    pub fn one() -> (r: Self)
        ensures
            r@ as u32 == 1,
    {
        Char('\u{1}')
    }

    /// Gap-skipping addition: the sum is taken on the logical axis, where the
    /// surrogate gap is removed. The sum must not pass the largest codepoint.
    pub fn add(self, rhs: Self) -> (r: Self)
        requires
            char_logical(self@) + char_logical(rhs@) <= MAX_LOGICAL,
        ensures
            char_logical(r@) == char_logical(self@) + char_logical(rhs@),
    {
        proof {
            lemma_char_is_scalar(self.0);
            lemma_char_is_scalar(rhs.0);
        }
        let a = self.to_u32();
        let b = rhs.to_u32();
        let la = if a >= INVALID_MAX + 1 { a - INVALID_SIZE } else { a };
        let lb = if b >= INVALID_MAX + 1 { b - INVALID_SIZE } else { b };
        let ls = la + lb;
        let sum = if ls >= INVALID_MIN { ls + INVALID_SIZE } else { ls };
        match core::char::from_u32(sum) {
            Some(c) => Char(c),
            None => unreached(),
        }
    }

    /// Gap-skipping subtraction: the difference is taken on the logical axis,
    /// where the surrogate gap is removed. The difference must not fall below
    /// zero.
    pub fn sub(self, rhs: Self) -> (r: Self)
        requires
            char_logical(self@) >= char_logical(rhs@),
        ensures
            char_logical(r@) == char_logical(self@) - char_logical(rhs@),
    {
        proof {
            lemma_char_is_scalar(self.0);
            lemma_char_is_scalar(rhs.0);
        }
        let a = self.to_u32();
        let b = rhs.to_u32();
        let la = if a >= INVALID_MAX + 1 { a - INVALID_SIZE } else { a };
        let lb = if b >= INVALID_MAX + 1 { b - INVALID_SIZE } else { b };
        let ld = la - lb;
        let diff = if ld >= INVALID_MIN { ld + INVALID_SIZE } else { ld };
        match core::char::from_u32(diff) {
            Some(c) => Char(c),
            None => unreached(),
        }
    }

    /// In-place gap-skipping addition.
    pub fn add_assign(&mut self, rhs: Self)
        requires
            char_logical(old(self)@) + char_logical(rhs@) <= MAX_LOGICAL,
        ensures
            char_logical(final(self)@) == char_logical(old(self)@) + char_logical(rhs@),
    {
        *self = self.add(rhs);
    }
}

/// Adding a value and subtracting it again returns to the start: where `s`
/// holds `a + b` and `r` holds `s - b` of the gap-skipping arithmetic, `r`
/// is `a` itself.
pub proof fn lemma_add_sub_inverse(a: Char, b: Char, s: Char, r: Char)
    requires
        char_logical(s@) == char_logical(a@) + char_logical(b@),
        char_logical(r@) == char_logical(s@) - char_logical(b@),
    ensures
        r@ == a@,
{
    lemma_char_is_scalar(r@);
    lemma_char_is_scalar(a@);
    assert(char_logical(r@) == char_logical(a@));
    assert(r@ as u32 == a@ as u32);
    lemma_char_code_injective(r@, a@);
}

/// Subtracting a value and adding it again returns to the start: where `d`
/// holds `a - b` and `r` holds `d + b` of the gap-skipping arithmetic, `r`
/// is `a` itself.
pub proof fn lemma_sub_add_inverse(a: Char, b: Char, d: Char, r: Char)
    requires
        char_logical(d@) == char_logical(a@) - char_logical(b@),
        char_logical(r@) == char_logical(d@) + char_logical(b@),
    ensures
        r@ == a@,
{
    lemma_char_is_scalar(r@);
    lemma_char_is_scalar(a@);
    assert(char_logical(r@) == char_logical(a@));
    assert(r@ as u32 == a@ as u32);
    lemma_char_code_injective(r@, a@);
}

} // verus!
