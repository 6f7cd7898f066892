//! Canonical regular-expression character classes over Unicode scalar values.
//!
//! A [`char::Char`] wraps one scalar value and offers arithmetic that treats
//! the codepoint axis as contiguous, skipping the surrogate gap. A
//! [`range_set::RangeSet`] holds a set of scalar values as sorted, disjoint,
//! non-adjacent closed ranges, and [`CharacterClass`] renders such a set as
//! the shortest canonical regex character class: a symbolic token where the
//! catalog recognizes the set, an explicit bracket expression otherwise.

pub mod char;
pub mod range_set;
pub mod tokens;
pub mod unicode_data;

use vstd::prelude::*;
use vstd::string::StringExecFns;

use crate::char::{char_logical, is_scalar_value, lemma_char_code_injective, lemma_char_is_scalar,
    lemma_u32_to_char, Char, MAX_CODEPOINT};
use crate::range_set::{comp_of, lemma_char_order, seq_card, wf_seq, RangeSet};
use crate::tokens::{identify_character, spec_identify_character, spec_identify_class,
    identify_class};

verus! {

/// One end of a range of `u32` codepoints.
#[derive(PartialEq, Eq, Clone, Copy, Debug)]
pub enum U32Bound {
    /// The end is part of the range.
    Included(u32),
    /// The end is just outside the range.
    Excluded(u32),
    /// The range does not stop at this end.
    Unbounded,
}

/// One end of a range of `char`s.
#[derive(PartialEq, Eq, Clone, Copy, Debug)]
pub enum CharBound {
    /// The end is part of the range.
    Included(char),
    /// The end is just outside the range.
    Excluded(char),
    /// The range does not stop at this end.
    Unbounded,
}

/// The scalar value of a normalized inclusive lower bound, or nothing where
/// the bound cannot be adjusted to one: the given code must itself be a
/// scalar value, an excluded code one step before the gap skips to the first
/// value past the gap, and an excluded largest codepoint fails.
pub open spec fn spec_lowerbound_u32(b: U32Bound) -> Option<int> {
    match b {
        U32Bound::Included(t) => if is_scalar_value(t as int) {
            Some(t as int)
        } else {
            None
        },
        U32Bound::Excluded(t) => if !is_scalar_value(t as int) {
            None
        } else if t == MAX_CODEPOINT {
            None
        } else if is_scalar_value(t + 1) {
            Some(t + 1)
        } else {
            Some(0xE000)
        },
        U32Bound::Unbounded => Some(0),
    }
}

/// The scalar value of a normalized inclusive upper bound, with the
/// symmetric gap skip; an unbounded upper end resolves to the smallest
/// scalar value, mirroring the lower end.
pub open spec fn spec_upperbound_u32(b: U32Bound) -> Option<int> {
    match b {
        U32Bound::Included(t) => if is_scalar_value(t as int) {
            Some(t as int)
        } else {
            None
        },
        U32Bound::Excluded(t) => if !is_scalar_value(t as int) {
            None
        } else if t == 0 {
            None
        } else if is_scalar_value(t - 1) {
            Some(t - 1)
        } else {
            Some(0xD7FF)
        },
        U32Bound::Unbounded => Some(0),
    }
}

/// The scalar value of a normalized inclusive lower `char` bound; an excluded
/// largest codepoint resolves to the first value past the gap.
pub open spec fn spec_lowerbound_char(b: CharBound) -> int {
    match b {
        CharBound::Included(t) => t as u32 as int,
        CharBound::Excluded(t) => if is_scalar_value(t as u32 + 1) {
            t as u32 + 1
        } else {
            0xE000
        },
        CharBound::Unbounded => 0,
    }
}

/// The scalar value of a normalized inclusive upper `char` bound; an
/// unbounded upper end resolves to the smallest scalar value, mirroring the
/// lower end.
pub open spec fn spec_upperbound_char(b: CharBound) -> int {
    match b {
        CharBound::Included(t) => t as u32 as int,
        CharBound::Excluded(t) => if is_scalar_value(t as u32 - 1) {
            t as u32 - 1
        } else {
            0xD7FF
        },
        CharBound::Unbounded => 0,
    }
}

/// True unless the bound excludes codepoint zero, below which no value lies.
pub open spec fn spec_upper_char_ok(b: CharBound) -> bool {
    match b {
        CharBound::Excluded(t) => t != '\0',
        _ => true,
    }
}

/// Normalize a lower `u32` bound to an inclusive scalar value.
pub fn to_lowerbound_u32(bound: U32Bound) -> (r: Option<Char>)
    ensures
        match r {
            Some(c) => spec_lowerbound_u32(bound) == Some(c@ as u32 as int),
            None => spec_lowerbound_u32(bound) is None,
        },
{
    match bound {
        U32Bound::Included(t) => Char::from_u32(t),
        U32Bound::Excluded(t) => match Char::from_u32(t) {
            None => None,
            Some(_) => {
                if t == MAX_CODEPOINT {
                    None
                } else if t == 0xD7FF {
                    Some(Char::new('\u{e000}'))
                } else {
                    Char::from_u32(t + 1)
                }
            },
        },
        U32Bound::Unbounded => Some(Char::min_value()),
    }
}

/// Normalize an upper `u32` bound to an inclusive scalar value.
pub fn to_upperbound_u32(bound: U32Bound) -> (r: Option<Char>)
    ensures
        match r {
            Some(c) => spec_upperbound_u32(bound) == Some(c@ as u32 as int),
            None => spec_upperbound_u32(bound) is None,
        },
{
    match bound {
        U32Bound::Included(t) => Char::from_u32(t),
        U32Bound::Excluded(t) => match Char::from_u32(t) {
            None => None,
            Some(_) => {
                if t == 0 {
                    None
                } else if t == 0xE000 {
                    Some(Char::new('\u{d7ff}'))
                } else {
                    Char::from_u32(t - 1)
                }
            },
        },
        U32Bound::Unbounded => Some(Char::min_value()),
    }
}

/// Normalize a lower `char` bound to an inclusive scalar value.
pub fn to_lowerbound_char(bound: CharBound) -> (r: Char)
    ensures
        r@ as u32 == spec_lowerbound_char(bound),
{
    match bound {
        CharBound::Included(t) => Char::new(t),
        CharBound::Excluded(t) => {
            proof {
                lemma_char_is_scalar(t);
            }
            let u = t as u32;
            if u == MAX_CODEPOINT {
                Char::new('\u{e000}')
            } else {
                match Char::from_u32(u + 1) {
                    Some(c) => c,
                    None => Char::new('\u{e000}'),
                }
            }
        },
        CharBound::Unbounded => Char::min_value(),
    }
}

/// Normalize an upper `char` bound to an inclusive scalar value. A bound that
/// excludes codepoint zero admits no value at all and is ruled out.
pub fn to_upperbound_char(bound: CharBound) -> (r: Char)
    requires
        spec_upper_char_ok(bound),
    ensures
        r@ as u32 == spec_upperbound_char(bound),
{
    match bound {
        CharBound::Included(t) => Char::new(t),
        CharBound::Excluded(t) => {
            proof {
                lemma_char_is_scalar(t);
                if t as u32 == 0 {
                    lemma_char_code_injective(t, '\0');
                }
            }
            let u = t as u32;
            match Char::from_u32(u - 1) {
                Some(c) => c,
                None => Char::new('\u{d7ff}'),
            }
        },
        CharBound::Unbounded => Char::min_value(),
    }
}

/// Relies on `String::push` of std: it appends the character to the string.
#[verifier::external_body]
fn push_char(s: &mut String, c: char)
    ensures
        final(s)@ == old(s)@.push(c),
{
    s.push(c);
}

/// The lower-case hex digit of a value below sixteen.
pub open spec fn hex_digit_of(d: int) -> char {
    if d < 10 {
        ((0x30 + d) as u32) as char
    } else {
        ((0x57 + d) as u32) as char
    }
}

/// The lower-case hex digits of a number, most significant first, with no
/// leading zero.
pub open spec fn hex_seq(n: nat) -> Seq<char>
    decreases n,
{
    if n < 16 {
        seq![hex_digit_of(n as int)]
    } else {
        hex_seq(n / 16).push(hex_digit_of((n % 16) as int))
    }
}

/// Zeroes padding the hex digits of a codepoint to at least four columns.
pub open spec fn hex_pad(n: nat) -> Seq<char> {
    if n < 0x10 {
        seq!['0', '0', '0']
    } else if n < 0x100 {
        seq!['0', '0']
    } else if n < 0x1000 {
        seq!['0']
    } else {
        Seq::empty()
    }
}

/// The `\u{....}` escape of a character: lower-case hex, at least four
/// digits.
pub open spec fn spec_u_escape(c: char) -> Seq<char> {
    "\\u{"@ + hex_pad(c as u32 as nat) + hex_seq(c as u32 as nat) + "}"@
}

/// The regex metacharacters, which a bracket expression escapes.
pub open spec fn is_metachar(c: char) -> bool {
    c == '*' || c == '+' || c == '?' || c == '(' || c == ')' || c == '[' || c == ']' || c == '{'
        || c == '}' || c == '|' || c == '\\' || c == '-' || c == '^' || c == '.'
}

/// The rendering of one character: printable ASCII stands for itself, a
/// metacharacter among it is backslash-escaped, the four recognized control
/// characters use their two-character escape, and everything else renders as
/// a `\u{....}` escape.
pub open spec fn spec_escape(c: char) -> Seq<char> {
    if 0x20 <= c as u32 <= 0x7E {
        if is_metachar(c) {
            seq!['\\', c]
        } else {
            seq![c]
        }
    } else {
        match spec_identify_character(c) {
            Some(t) => t,
            None => spec_u_escape(c),
        }
    }
}

/// The hex digit character of a value below sixteen.
fn hex_digit_char(d: u32) -> (r: char)
    requires
        d < 16,
    ensures
        r == hex_digit_of(d as int),
{
    let code = if d < 10 {
        0x30 + d
    } else {
        0x57 + d
    };
    proof {
        lemma_u32_to_char(code);
    }
    match core::char::from_u32(code) {
        Some(c) => {
            proof {
                lemma_char_code_injective(c, hex_digit_of(d as int));
            }
            c
        },
        None => unreached(),
    }
}

/// Append the hex digits of a number, most significant first.
fn hex_append(s: &mut String, n: u32)
    ensures
        final(s)@ == old(s)@ + hex_seq(n as nat),
    decreases n,
{
    if n < 16 {
        push_char(s, hex_digit_char(n));
        proof {
            assert(s@ =~= old(s)@ + hex_seq(n as nat));
        }
    } else {
        hex_append(s, n / 16);
        push_char(s, hex_digit_char(n % 16));
        proof {
            assert(s@ =~= old(s)@ + hex_seq(n as nat));
        }
    }
}

/// The `\u{....}` escape of a character.
fn u_escape(c: char) -> (r: String)
    ensures
        r@ == spec_u_escape(c),
{
    let code = c as u32;
    let mut out = "\\u{".to_owned();
    if code < 0x10 {
        out.append("000");
    } else if code < 0x100 {
        out.append("00");
    } else if code < 0x1000 {
        out.append("0");
    }
    hex_append(&mut out, code);
    out.append("}");
    proof {
        reveal_strlit("000");
        reveal_strlit("00");
        reveal_strlit("0");
        assert(out@ =~= spec_u_escape(c));
    }
    out
}

/// Render one character as [`spec_escape`] describes.
pub fn get_printable_char(character: char) -> (r: String)
    ensures
        r@ == spec_escape(character),
{
    let code = character as u32;
    if 0x20 <= code && code <= 0x7E {
        if character == '*' || character == '+' || character == '?' || character == '('
            || character == ')' || character == '[' || character == ']' || character == '{'
            || character == '}' || character == '|' || character == '\\' || character == '-'
            || character == '^' || character == '.' {
            let mut out = String::new();
            push_char(&mut out, '\\');
            push_char(&mut out, character);
            proof {
                assert(out@ =~= seq!['\\', character]);
            }
            out
        } else {
            let mut out = String::new();
            push_char(&mut out, character);
            proof {
                assert(out@ =~= seq![character]);
            }
            out
        }
    } else {
        match identify_character(character) {
            Some(t) => t.to_owned(),
            None => u_escape(character),
        }
    }
}

/// The display form of a character: printable ASCII stands for itself,
/// everything else shows as a `\u{....}` escape.
pub open spec fn spec_display(c: char) -> Seq<char> {
    if 0x20 <= c as u32 <= 0x7E {
        seq![c]
    } else {
        spec_u_escape(c)
    }
}

impl Char {
    /// Render the character as [`spec_display`] describes.
    pub fn display_string(&self) -> (r: String)
        ensures
            r@ == spec_display(self@),
    {
        let code = self.to_u32();
        if 0x20 <= code && code <= 0x7E {
            let mut out = String::new();
            push_char(&mut out, self.to_char());
            proof {
                assert(out@ =~= seq![self@]);
            }
            out
        } else {
            u_escape(self.to_char())
        }
    }
}

/// The rendering of one closed range: a single value renders alone, two
/// neighbouring values render side by side without a dash, a longer range as
/// `min-max`.
pub open spec fn spec_render_range(p: (char, char)) -> Seq<char> {
    if p.0 == p.1 {
        spec_escape(p.0)
    } else if char_logical(p.1) == char_logical(p.0) + 1 {
        spec_escape(p.0) + spec_escape(p.1)
    } else {
        spec_escape(p.0) + seq!['-'] + spec_escape(p.1)
    }
}

/// The renderings of the ranges, in ascending order.
pub open spec fn spec_render_body(t: Seq<(char, char)>) -> Seq<char>
    decreases t.len(),
{
    if t.len() == 0 {
        Seq::empty()
    } else {
        spec_render_body(t.drop_last()) + spec_render_range(t.last())
    }
}

/// The explicit bracket rendering: the set or its complement, whichever has
/// fewer ranges (ties keep the set), wrapped in `[^...]` for the complement
/// and `[...]` otherwise — except that a direct single one-value range
/// renders as the bare escaped character.
pub open spec fn spec_render_explicit(s: Seq<(char, char)>) -> Seq<char> {
    if comp_of(s).len() < s.len() {
        "[^"@ + spec_render_body(comp_of(s)) + "]"@
    } else if s.len() > 1 || s[0].0 != s[0].1 {
        "["@ + spec_render_body(s) + "]"@
    } else {
        spec_render_body(s)
    }
}

/// Render the set as an explicit bracket expression, as
/// [`spec_render_explicit`] describes.
pub fn convert_to_regex(range: &RangeSet) -> (r: String)
    requires
        range.inv(),
        range@.len() > 0,
    ensures
        r@ == spec_render_explicit(range@),
{
    broadcast use lemma_char_order;

    let ghost s = range@;
    let comp = range.complement();
    let pairs = range.to_pairs();
    let cpairs = comp.to_pairs();
    let is_complement = cpairs.len() < pairs.len();
    let chosen = if is_complement {
        cpairs
    } else {
        pairs
    };
    let ghost t = chosen@;
    proof {
        assert(wf_seq(t));
    }
    let n = chosen.len();
    let mut sb = String::new();
    let mut i: usize = 0;
    while i < n
        invariant
            wf_seq(t),
            t == chosen@,
            n == t.len(),
            0 <= i <= n,
            sb@ == spec_render_body(t.take(i as int)),
        decreases n - i,
    {
        let (lo, hi) = chosen[i];
        proof {
            assert((lo, hi) == t[i as int]);
            assert(crate::range_set::pair_wf(t[i as int]));
            lemma_char_order(lo, hi);
            assert(t.take(i as int + 1).drop_last() =~= t.take(i as int));
            assert(t.take(i as int + 1).last() == t[i as int]);
        }
        if lo as u32 == hi as u32 {
            proof {
                lemma_char_code_injective(lo, hi);
            }
            let part = get_printable_char(lo);
            sb.append(part.as_str());
        } else {
            let nx = Char::new(lo).add(Char::one());
            if nx.to_u32() == hi as u32 {
                proof {
                    lemma_char_code_injective(nx@, hi);
                }
                let mut part = get_printable_char(lo);
                let second = get_printable_char(hi);
                part.append(second.as_str());
                sb.append(part.as_str());
            } else {
                proof {
                    lemma_char_order(nx@, hi);
                    if char_logical(hi) == char_logical(lo) + 1 {
                        assert(nx@ as u32 == hi as u32);
                    }
                }
                let mut part = get_printable_char(lo);
                part.append("-");
                let second = get_printable_char(hi);
                part.append(second.as_str());
                proof {
                    reveal_strlit("-");
                    assert(part@ =~= spec_render_range(t[i as int]));
                }
                sb.append(part.as_str());
            }
        }
        i += 1;
    }
    proof {
        assert(t.take(n as int) =~= t);
    }
    if is_complement {
        let mut out = "[^".to_owned();
        out.append(sb.as_str());
        out.append("]");
        proof {
            assert(out@ == spec_render_explicit(s));
        }
        out
    } else {
        let (flo, fhi) = chosen[0];
        let single = n == 1 && flo as u32 == fhi as u32;
        if !single {
            let mut out = "[".to_owned();
            out.append(sb.as_str());
            out.append("]");
            proof {
                assert(out@ == spec_render_explicit(s));
            }
            out
        } else {
            proof {
                lemma_char_code_injective(flo, fhi);
            }
            sb
        }
    }
}

/// The canonical rendering of a set of scalar values: `[]` for the empty set,
/// `.` for the set of every scalar value, the symbolic token where one is
/// recognized, the explicit bracket expression otherwise.
pub open spec fn spec_to_regex(s: Seq<(char, char)>) -> Seq<char> {
    if s.len() == 0 {
        "[]"@
    } else if s == seq![('\0', '\u{10FFFF}')] {
        "."@
    } else {
        match spec_identify_class(s) {
            Some(t) => t,
            None => spec_render_explicit(s),
        }
    }
}

impl RangeSet {
    /// Create a new instance from the given range of `u32` codes; `None` when
    /// a bound does not normalize to a scalar value.
    pub fn new_from_range_u32(start: U32Bound, end: U32Bound) -> (r: Option<RangeSet>)
        ensures
            r is Some <==> (spec_lowerbound_u32(start) is Some && spec_upperbound_u32(end)
                is Some),
            match r {
                Some(set) => {
                    &&& set.inv()
                    &&& match (spec_lowerbound_u32(start), spec_upperbound_u32(end)) {
                        (Some(lo), Some(hi)) => {
                            &&& (forall|c: char|
                                set.spec_contains(c) <==> (lo <= c as u32 <= hi))
                            &&& lo <= hi ==> set@.len() == 1 && set@[0].0 as u32 == lo
                                && set@[0].1 as u32 == hi
                            &&& lo > hi ==> set@.len() == 0
                        },
                        _ => false,
                    }
                },
                None => true,
            },
    {
        let min = match to_lowerbound_u32(start) {
            Some(c) => c,
            None => {
                return None;
            },
        };
        let max = match to_upperbound_u32(end) {
            Some(c) => c,
            None => {
                return None;
            },
        };
        Some(RangeSet::new_from_range(min, max))
    }

    /// Create a new instance from the given range of `char`s.
    pub fn new_from_range_char(start: CharBound, end: CharBound) -> (r: RangeSet)
        requires
            spec_upper_char_ok(end),
        ensures
            r.inv(),
            forall|c: char|
                r.spec_contains(c) <==> (spec_lowerbound_char(start) <= c as u32
                    <= spec_upperbound_char(end)),
            spec_lowerbound_char(start) <= spec_upperbound_char(end) ==> r@.len() == 1
                && r@[0].0 as u32 == spec_lowerbound_char(start) && r@[0].1 as u32
                == spec_upperbound_char(end),
            spec_lowerbound_char(start) > spec_upperbound_char(end) ==> r@.len() == 0,
    {
        let min = to_lowerbound_char(start);
        let max = to_upperbound_char(end);
        RangeSet::new_from_range(min, max)
    }

    /// Return a canonical regular-expression character class matching exactly
    /// this set, as [`spec_to_regex`] describes.
    pub fn to_regex(&self) -> (r: String)
        requires
            self.inv(),
        ensures
            r@ == spec_to_regex(self@),
    {
        if self.is_empty() {
            "[]".to_owned()
        } else if self.is_total() {
            ".".to_owned()
        } else {
            match identify_class(self) {
                Some(token) => token,
                None => convert_to_regex(self),
            }
        }
    }
}

/// The library surface of a set of scalar values: construction from ranges,
/// cardinality, and canonical rendering.
pub trait CharacterClass: Sized {
    /// The well-formedness that the operations require and keep.
    spec fn class_inv(&self) -> bool;

    /// True when the class holds the character.
    spec fn class_contains(&self, c: char) -> bool;

    /// The number of scalar values the class holds.
    spec fn class_card(&self) -> int;

    /// The canonical rendering of the class.
    spec fn class_regex(&self) -> Seq<char>;

    /// Create a new instance from the given range of `u32` codes, `None`
    /// when a bound does not normalize to a scalar value.
    fn new_from_range_u32(start: U32Bound, end: U32Bound) -> (r: Option<Self>)
        ensures
            r is Some <==> (spec_lowerbound_u32(start) is Some && spec_upperbound_u32(end)
                is Some),
            match r {
                Some(set) => {
                    &&& set.class_inv()
                    &&& match (spec_lowerbound_u32(start), spec_upperbound_u32(end)) {
                        (Some(lo), Some(hi)) => forall|c: char|
                            set.class_contains(c) <==> (lo <= c as u32 <= hi),
                        _ => false,
                    }
                },
                None => true,
            },
    ;

    /// Create a new instance from the given range of `char`s.
    fn new_from_range_char(start: CharBound, end: CharBound) -> (r: Self)
        requires
            spec_upper_char_ok(end),
        ensures
            r.class_inv(),
            forall|c: char|
                r.class_contains(c) <==> (spec_lowerbound_char(start) <= c as u32
                    <= spec_upperbound_char(end)),
    ;

    /// Return the number of `char`s contained.
    fn get_cardinality(&self) -> (r: u32)
        requires
            self.class_inv(),
        ensures
            r as int == self.class_card(),
    ;

    /// Return a valid regular expression character class.
    fn to_regex(&self) -> (r: String)
        requires
            self.class_inv(),
        ensures
            r@ == self.class_regex(),
    ;
}

impl CharacterClass for RangeSet {
    open spec fn class_inv(&self) -> bool {
        self.inv()
    }

    open spec fn class_contains(&self, c: char) -> bool {
        self.spec_contains(c)
    }

    open spec fn class_card(&self) -> int {
        seq_card(self@)
    }

    open spec fn class_regex(&self) -> Seq<char> {
        spec_to_regex(self@)
    }

    fn new_from_range_u32(start: U32Bound, end: U32Bound) -> (r: Option<Self>) {
        RangeSet::new_from_range_u32(start, end)
    }

    fn new_from_range_char(start: CharBound, end: CharBound) -> (r: Self) {
        RangeSet::new_from_range_char(start, end)
    }

    fn get_cardinality(&self) -> (r: u32) {
        self.get_cardinality()
    }

    fn to_regex(&self) -> (r: String) {
        self.to_regex()
    }
}

/// The rendering is canonical: two well-formed sets holding the same scalar
/// values render as the same string, whatever ranges built them.
pub proof fn lemma_regex_canonical(a: RangeSet, b: RangeSet)
    requires
        a.inv(),
        b.inv(),
        forall|c: char| a.spec_contains(c) <==> b.spec_contains(c),
    ensures
        spec_to_regex(a@) == spec_to_regex(b@),
{
    assert forall|c: char|
        crate::range_set::in_ranges(a@, c) <==> crate::range_set::in_ranges(b@, c) by {
        assert(a.spec_contains(c) <==> b.spec_contains(c));
    }
    crate::range_set::lemma_canonical_unique(a@, b@);
}

} // verus!
