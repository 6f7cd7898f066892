//! An ordered, disjoint, non-adjacent sequence of closed ranges of scalar
//! values, with the set algebra the renderer needs: complement, union,
//! intersection, difference, membership, cardinality and ordered iteration.
//!
//! Two ranges are adjacent when their endpoints are neighbours on the logical
//! axis, so `..=0xD7FF` and `0xE000..` touch: the surrogate gap holds no value.

use vstd::prelude::*;

use crate::char::{char_logical, lemma_char_code_injective, lemma_char_is_scalar,
    lemma_logical_physical, lemma_u32_to_char, to_physical, Char, MAX_CODEPOINT, MAX_LOGICAL};

verus! {

/// Number of scalar values: `MAX_LOGICAL + 1`.
pub const TOTAL_CARDINALITY: u32 = 0x10F800;

/// True when the pair is a non-empty closed range.
pub open spec fn pair_wf(p: (char, char)) -> bool {
    p.0 as u32 <= p.1 as u32
}

/// True when the range holds the character.
pub open spec fn pair_contains(p: (char, char), c: char) -> bool {
    p.0 as u32 <= c as u32 <= p.1 as u32
}

/// True when the sequence of ranges is a canonical representation: every range
/// non-empty, and the ranges sorted with at least one value missing between
/// one range and the next on the logical axis.
pub open spec fn wf_seq(s: Seq<(char, char)>) -> bool {
    &&& forall|i: int| 0 <= i < s.len() ==> pair_wf(#[trigger] s[i])
    &&& forall|i: int, j: int|
        0 <= i < j < s.len() ==> char_logical(#[trigger] s[i].1) + 1 < char_logical(
            #[trigger] s[j].0,
        )
}

/// True when some range of the sequence holds the character.
pub open spec fn in_ranges(s: Seq<(char, char)>, c: char) -> bool {
    exists|i: int| 0 <= i < s.len() && pair_contains(#[trigger] s[i], c)
}

/// True when some element of the sequence views to the character.
pub open spec fn covered(out: Seq<Char>, c: char) -> bool {
    exists|k: int| 0 <= k < out.len() && out[k]@ == c
}

/// Number of scalar values inside the range: the length of its image on the
/// logical axis.
pub open spec fn pair_span(p: (char, char)) -> int {
    char_logical(p.1) - char_logical(p.0) + 1
}

/// Number of scalar values held by the sequence of ranges, counted range by
/// range; it equals the number of distinct members when the sequence is
/// canonical.
pub open spec fn seq_card(s: Seq<(char, char)>) -> int
    decreases s.len(),
{
    if s.len() == 0 {
        0
    } else {
        seq_card(s.drop_last()) + pair_span(s.last())
    }
}

/// On chars, the raw codepoint order and the logical order agree.
pub broadcast proof fn lemma_char_order(a: char, b: char)
    ensures
        #![trigger char_logical(a), char_logical(b)]
        a as u32 <= b as u32 <==> char_logical(a) <= char_logical(b),
        b as u32 <= a as u32 <==> char_logical(b) <= char_logical(a),
        0 <= char_logical(a) <= MAX_LOGICAL,
        0 <= char_logical(b) <= MAX_LOGICAL,
{
    lemma_char_is_scalar(a);
    lemma_char_is_scalar(b);
}

/// A closed range of scalar values, held as an inclusive `(min, max)` pair.
/// The range is empty when `min > max`.
#[derive(PartialEq, Eq, Hash, Clone, Copy, Debug)]
pub struct AnyRange {
    min: Char,
    max: Char,
}

impl View for AnyRange {
    type V = (char, char);

    closed spec fn view(&self) -> (char, char) {
        (self.min@, self.max@)
    }
}

impl AnyRange {
    /// Create a range from the given inclusive bounds; it is empty when
    /// `min > max`.
    pub fn new(min: Char, max: Char) -> (r: Self)
        ensures
            r@ == (min@, max@),
    {
        AnyRange { min, max }
    }

    /// Return `true` if the range holds no value.
    pub fn is_empty(&self) -> (r: bool)
        ensures
            r == !pair_wf(self@),
    {
        self.min.to_u32() > self.max.to_u32()
    }
}

/// True when some of the given ranges holds the character.
pub open spec fn in_any_ranges(rs: Seq<AnyRange>, c: char) -> bool {
    exists|k: int| 0 <= k < rs.len() && pair_contains(#[trigger] rs[k]@, c)
}

/// A set of scalar values, stored as sorted, disjoint, non-adjacent closed
/// ranges.
#[derive(PartialEq, Eq, Hash, Clone, Debug)]
pub struct RangeSet {
    ranges: Vec<(char, char)>,
}

impl View for RangeSet {
    type V = Seq<(char, char)>;

    closed spec fn view(&self) -> Seq<(char, char)> {
        self.ranges@
    }
}

impl RangeSet {
    /// The representation invariant: the stored ranges are canonical.
    pub open spec fn inv(&self) -> bool {
        wf_seq(self@)
    }

    /// True when the set holds the character, as a specification.
    pub open spec fn spec_contains(&self, c: char) -> bool {
        in_ranges(self@, c)
    }

    /// The set with no value.
    pub fn empty() -> (r: Self)
        ensures
            r.inv(),
            r@ == Seq::<(char, char)>::empty(),
            forall|c: char| !r.spec_contains(c),
    {
        let r = RangeSet { ranges: Vec::new() };
        r
    }

    /// The set of every scalar value.
    pub fn total() -> (r: Self)
        ensures
            r.inv(),
            r@ =~= seq![('\0', '\u{10FFFF}')],
            forall|c: char| r.spec_contains(c),
    {
        let mut v: Vec<(char, char)> = Vec::new();
        v.push(('\0', '\u{10FFFF}'));
        let r = RangeSet { ranges: v };
        proof {
            assert forall|c: char| r.spec_contains(c) by {
                lemma_char_is_scalar(c);
                assert(pair_contains(r@[0], c));
            }
        }
        r
    }

    /// The set of the scalar values from `min` to `max` inclusive; the empty
    /// set when `min > max`.
    pub fn new_from_range(min: Char, max: Char) -> (r: Self)
        ensures
            r.inv(),
            min@ as u32 <= max@ as u32 ==> r@ =~= seq![(min@, max@)],
            min@ as u32 > max@ as u32 ==> r@ =~= Seq::<(char, char)>::empty(),
            forall|c: char|
                r.spec_contains(c) <==> min@ as u32 <= c as u32 <= max@ as u32,
    {
        if min.to_u32() > max.to_u32() {
            Self::empty()
        } else {
            let mut v: Vec<(char, char)> = Vec::new();
            v.push((min.to_char(), max.to_char()));
            let r = RangeSet { ranges: v };
            proof {
                assert forall|c: char| #[trigger]
                    r.spec_contains(c) implies min@ as u32 <= c as u32 <= max@ as u32 by {
                    assert(pair_contains(r@[0], c));
                }
                assert forall|c: char|
                    min@ as u32 <= c as u32 <= max@ as u32 implies r.spec_contains(c) by {
                    assert(pair_contains(r@[0], c));
                }
            }
            r
        }
    }

    /// True when the set holds no value.
    pub fn is_empty(&self) -> (r: bool)
        requires
            self.inv(),
        ensures
            r <==> self@.len() == 0,
            r <==> !exists|c: char| self.spec_contains(c),
    {
        let r = self.ranges.len() == 0;
        proof {
            if self@.len() > 0 {
                assert(pair_contains(self@[0], self@[0].0));
                assert(self.spec_contains(self@[0].0));
            }
        }
        r
    }

    /// True when the set holds every scalar value.
    pub fn is_total(&self) -> (r: bool)
        requires
            self.inv(),
        ensures
            r <==> self@ =~= seq![('\0', '\u{10FFFF}')],
    {
        if self.ranges.len() != 1 {
            false
        } else {
            let (lo, hi) = self.ranges[0];
            let lo_ok = lo as u32 == 0;
            let hi_ok = hi as u32 == MAX_CODEPOINT;
            proof {
                if lo_ok {
                    lemma_char_code_injective(self@[0].0, '\0');
                }
                if hi_ok {
                    lemma_char_code_injective(self@[0].1, '\u{10FFFF}');
                }
            }
            lo_ok && hi_ok
        }
    }

    /// True when the set holds the given value.
    pub fn contains(&self, value: Char) -> (r: bool)
        requires
            self.inv(),
        ensures
            r == self.spec_contains(value@),
    {
        let c = value.to_u32();
        let n = self.ranges.len();
        proof {
            lemma_char_is_scalar(value@);
        }
        let mut i: usize = 0;
        while i < n
            invariant
                0 <= i <= n,
                n == self@.len(),
                c == value@ as u32,
                forall|j: int| 0 <= j < i ==> !pair_contains(#[trigger] self@[j], value@),
            decreases n - i,
        {
            let (lo, hi) = self.ranges[i];
            if lo as u32 <= c && c <= hi as u32 {
                proof {
                    assert(pair_contains(self@[i as int], value@));
                }
                return true;
            }
            i += 1;
        }
        false
    }

    /// Return the number of scalar values contained: the sum of the spans of
    /// the ranges on the logical axis.
    pub fn get_cardinality(&self) -> (r: u32)
        requires
            self.inv(),
        ensures
            r == seq_card(self@),
            r <= TOTAL_CARDINALITY,
    {
        broadcast use lemma_char_order;

        let ghost s = self@;
        let n = self.ranges.len();
        let mut card: u32 = 0;
        let mut i: usize = 0;
        while i < n
            invariant
                self.inv(),
                s == self@,
                n == s.len(),
                0 <= i <= n,
                card == seq_card(s.take(i as int)),
                card <= TOTAL_CARDINALITY,
            decreases n - i,
        {
            let (lo, hi) = self.ranges[i];
            let llo = logical_of(lo);
            let lhi = logical_of(hi);
            proof {
                assert(lo == s[i as int].0 && hi == s[i as int].1);
                assert(pair_wf(s[i as int]));
                lemma_char_order(lo, hi);
                lemma_take_step(s, i as int);
                lemma_wf_take(s, i as int + 1);
                lemma_seq_card_bounds(s.take(i as int + 1));
                assert(seq_card(s.take(i as int + 1)) == card + pair_span(s[i as int]));
            }
            card = card + (lhi - llo + 1);
            i += 1;
        }
        proof {
            assert(s.take(n as int) =~= s);
        }
        card
    }

    /// Return the set of every scalar value not contained in this one. The
    /// two sets' cardinalities always sum to the whole scalar space.
    pub fn complement(&self) -> (r: Self)
        requires
            self.inv(),
        ensures
            r.inv(),
            forall|c: char| r.spec_contains(c) <==> !self.spec_contains(c),
            r@ == comp_of(self@),
            seq_card(r@) + seq_card(self@) == TOTAL_CARDINALITY,
    {
        broadcast use lemma_char_order;

        let ghost s = self@;
        let n = self.ranges.len();
        if n == 0 {
            let r = Self::total();
            proof {
                lemma_char_is_scalar('\u{10FFFF}');
                assert(r@.len() == 1);
                assert(r@.last() == ('\0', '\u{10FFFF}'));
                assert(r@.drop_last() =~= Seq::<(char, char)>::empty());
                assert(seq_card(r@.drop_last()) == 0);
                assert(char_logical('\u{10FFFF}') == MAX_LOGICAL);
                assert(char_logical('\0') == 0);
                assert(seq_card(r@) == MAX_LOGICAL + 1);
                assert forall|c: char| in_ranges(r@, c) <==> !in_ranges(self@, c) by {
                    assert(r.spec_contains(c));
                }
                assert(complement_rel(self@, r@));
                lemma_canonical_unique(r@, comp_of(self@));
            }
            return r;
        }
        let mut out: Vec<(char, char)> = Vec::new();
        let mut prev_hi: char = '\0';
        let mut i: usize = 0;
        while i < n
            invariant
                self.inv(),
                s == self@,
                n == s.len(),
                0 <= i <= n,
                i > 0 ==> prev_hi == s[i - 1].1,
                wf_seq(out@),
                ({
                    let b: int = if i == 0 {
                        0
                    } else {
                        char_logical(s[i - 1].1) + 1
                    };
                    &&& seq_card(out@) + seq_card(s.take(i as int)) == b
                    &&& (forall|c: char|
                        in_ranges(out@, c) <==> (char_logical(c) < b && !in_ranges(
                            s.take(i as int),
                            c,
                        )))
                    &&& (out@.len() > 0 ==> char_logical(out@.last().1) + 1 < b)
                }),
            decreases n - i,
        {
            let (lo, hi) = self.ranges[i];
            let ghost b: int = if i == 0 {
                0
            } else {
                char_logical(s[i - 1].1) + 1
            };
            proof {
                assert(lo == s[i as int].0 && hi == s[i as int].1);
                assert(pair_wf(s[i as int]));
                if i > 0 {
                    assert(char_logical(s[i - 1].1) + 1 < char_logical(s[i as int].0));
                }
                lemma_take_step(s, i as int);
            }
            if i == 0 {
                proof {
                    if out@.len() > 0 {
                        assert(pair_wf(out@[0]));
                        assert(pair_contains(out@[0], out@[0].0));
                        assert(in_ranges(out@, out@[0].0));
                    }
                    assert(out@ =~= Seq::<(char, char)>::empty());
                    lemma_char_order(s[0].0, s[0].1);
                }
                if lo as u32 != 0 {
                    proof {
                        lemma_char_is_scalar(lo);
                        assert(char_logical('\0') == 0);
                        if char_logical(lo) == 0 {
                            lemma_char_code_injective(lo, '\0');
                        }
                    }
                    let piece = ('\0', pred_char(lo));
                    proof {
                        lemma_wf_push(out@, piece);
                        lemma_seq_card_push(out@, piece);
                        assert forall|c: char|
                            in_ranges(out@.push(piece), c) <==> (char_logical(c) < char_logical(
                                s[0].1,
                            ) + 1 && !in_ranges(s.take(1), c)) by {
                            lemma_in_ranges_push(out@, piece, c);
                            lemma_char_is_scalar(c);
                            lemma_char_order(piece.1, c);
                            lemma_char_order(s[0].0, c);
                            lemma_char_order(s[0].1, c);
                        }
                    }
                    out.push(piece);
                } else {
                    proof {
                        assert(char_logical(s[0].0) == 0);
                        assert forall|c: char|
                            in_ranges(out@, c) <==> (char_logical(c) < char_logical(s[0].1) + 1
                                && !in_ranges(s.take(1), c)) by {
                            lemma_char_is_scalar(c);
                            lemma_char_order(s[0].0, c);
                            lemma_char_order(s[0].1, c);
                            if char_logical(c) < char_logical(s[0].1) + 1 {
                                assert(s.take(1)[0] == s[0]);
                                assert(pair_contains(s.take(1)[0], c));
                            }
                        }
                    }
                }
            } else {
                proof {
                    lemma_char_order(s[i - 1].1, s[i as int].0);
                }
                let start = succ_char(prev_hi);
                let end = pred_char(lo);
                let piece = (start, end);
                proof {
                    lemma_char_order(s[i as int].0, s[i as int].1);
                    lemma_char_order(piece.0, piece.1);
                    lemma_wf_push(out@, piece);
                    lemma_seq_card_push(out@, piece);
                    assert forall|c: char|
                        in_ranges(out@.push(piece), c) <==> (char_logical(c) < char_logical(
                            s[i as int].1,
                        ) + 1 && !in_ranges(s.take(i as int + 1), c)) by {
                        lemma_in_ranges_push(out@, piece, c);
                        lemma_char_is_scalar(c);
                        lemma_char_order(piece.0, c);
                        lemma_char_order(piece.1, c);
                        lemma_char_order(s[i as int].0, c);
                        lemma_char_order(s[i as int].1, c);
                        if in_ranges(s.take(i as int), c) {
                            lemma_members_below(s, i as int, c);
                        }
                    }
                }
                out.push(piece);
            }
            prev_hi = hi;
            i += 1;
        }
        proof {
            assert(s.take(n as int) =~= s);
        }
        let last_logical = logical_of(prev_hi);
        if last_logical != MAX_LOGICAL {
            let piece = (succ_char(prev_hi), '\u{10FFFF}');
            proof {
                lemma_char_is_scalar('\u{10FFFF}');
                lemma_wf_push(out@, piece);
                lemma_seq_card_push(out@, piece);
                assert forall|c: char|
                    in_ranges(out@.push(piece), c) <==> !in_ranges(s, c) by {
                    lemma_in_ranges_push(out@, piece, c);
                    lemma_char_is_scalar(c);
                    lemma_char_order(piece.0, c);
                    lemma_char_order(piece.1, c);
                    lemma_char_order(s[n - 1].1, c);
                    if in_ranges(s, c) {
                        assert(in_ranges(s.take(n as int), c));
                        lemma_members_below(s, n as int, c);
                    }
                }
            }
            out.push(piece);
        } else {
            proof {
                assert forall|c: char| in_ranges(out@, c) <==> !in_ranges(s, c) by {
                    lemma_char_is_scalar(c);
                    if in_ranges(s, c) {
                        assert(in_ranges(s.take(n as int), c));
                        lemma_members_below(s, n as int, c);
                    }
                }
            }
        }
        let r = RangeSet { ranges: out };
        proof {
            assert(complement_rel(self@, r@));
            lemma_canonical_unique(r@, comp_of(self@));
        }
        r
    }

    /// Return the set holding this set's values together with every scalar
    /// value from `min` to `max` inclusive.
    #[verifier::rlimit(50)]
    pub fn add_range(&self, min: Char, max: Char) -> (r: Self)
        requires
            self.inv(),
            min@ as u32 <= max@ as u32,
        ensures
            r.inv(),
            forall|c: char|
                r.spec_contains(c) <==> (self.spec_contains(c) || (min@ as u32 <= c as u32
                    <= max@ as u32)),
    {
        broadcast use lemma_char_order;

        let ghost s = self@;
        let n = self.ranges.len();
        let llo = logical_of(min.to_char());
        let lhi = logical_of(max.to_char());
        let mut out: Vec<(char, char)> = Vec::new();
        let mut i: usize = 0;
        // Ranges that end more than one value before the added range stay as
        // they are.
        while i < n && logical_of(self.ranges[i].1) + 1 < llo
            invariant
                self.inv(),
                s == self@,
                n == s.len(),
                0 <= i <= n,
                llo == char_logical(min@),
                lhi == char_logical(max@),
                llo <= lhi,
                out@ == s.take(i as int),
                forall|k: int| 0 <= k < i ==> char_logical(#[trigger] s[k].1) + 1 < llo,
            decreases n - i,
        {
            proof {
                lemma_take_step(s, i as int);
            }
            let p = self.ranges[i];
            out.push(p);
            i += 1;
        }
        let ghost j0 = i as int;
        proof {
            lemma_wf_take(s, j0);
        }
        // The added range merges with every range that starts at most one
        // value past its end.
        let mut new_lo: char = min.to_char();
        if i < n && logical_of(self.ranges[i].0) < llo {
            new_lo = self.ranges[i].0;
        }
        let mut new_hi: char = max.to_char();
        let ghost mut hi_from: int = -1;
        while i < n && logical_of(self.ranges[i].0) <= lhi + 1
            invariant
                self.inv(),
                s == self@,
                n == s.len(),
                j0 <= i <= n,
                llo == char_logical(min@),
                lhi == char_logical(max@),
                llo <= lhi,
                j0 < n && char_logical(s[j0].0) < llo ==> new_lo == s[j0].0,
                !(j0 < n && char_logical(s[j0].0) < llo) ==> new_lo == min@,
                char_logical(new_lo) <= llo,
                char_logical(new_hi) >= lhi,
                forall|k: int| j0 <= k < i ==> char_logical(#[trigger] s[k].0) <= lhi + 1,
                forall|k: int| j0 <= k < i ==> char_logical(#[trigger] s[k].1) <= char_logical(
                    new_hi,
                ),
                (hi_from == -1 && new_hi == max@ && char_logical(new_hi) == lhi) || (j0 <= hi_from
                    < i && new_hi == s[hi_from].1),
            decreases n - i,
        {
            let b = self.ranges[i].1;
            if logical_of(b) > logical_of(new_hi) {
                new_hi = b;
                proof {
                    hi_from = i as int;
                }
            }
            i += 1;
        }
        let ghost i1 = i as int;
        let hull = (new_lo, new_hi);
        proof {
            lemma_char_is_scalar(min@);
            lemma_char_is_scalar(max@);
            if j0 > 0 {
                assert(pair_wf(s[j0 - 1]));
            }
            lemma_wf_push(out@, hull);
            assert forall|c: char|
                in_ranges(out@.push(hull), c) <==> (in_ranges(s.take(i1), c) || (min@ as u32 <= c
                    as u32 <= max@ as u32)) by {
                lemma_in_ranges_push(out@, hull, c);
                lemma_char_is_scalar(c);
                lemma_char_order(new_lo, c);
                lemma_char_order(new_hi, c);
                lemma_char_order(min@, c);
                lemma_char_order(max@, c);
                if pair_contains(hull, c) {
                    // Every value of the hull lies in the added range or in
                    // one of the merged ranges.
                    if char_logical(c) < llo {
                        assert(new_lo == s[j0].0);
                        assert(char_logical(s[j0].1) + 1 >= llo);
                        lemma_char_order(s[j0].0, c);
                        lemma_char_order(s[j0].1, c);
                        assert(j0 < i1);
                        assert(pair_contains(s[j0], c));
                        assert(s.take(i1)[j0] == s[j0]);
                    } else if char_logical(c) > lhi {
                        assert(j0 <= hi_from < i1);
                        assert(new_hi == s[hi_from].1);
                        assert(char_logical(s[hi_from].0) <= lhi + 1);
                        lemma_char_order(s[hi_from].0, c);
                        lemma_char_order(s[hi_from].1, c);
                        assert(pair_contains(s[hi_from], c));
                        assert(s.take(i1)[hi_from] == s[hi_from]);
                    }
                }
                if in_ranges(s.take(i1), c) {
                    let k = choose|k: int|
                        0 <= k < s.take(i1).len() && pair_contains(#[trigger] s.take(i1)[k], c);
                    assert(s.take(i1)[k] == s[k]);
                    if k < j0 {
                        assert(in_ranges(s.take(j0), c)) by {
                            assert(pair_contains(s.take(j0)[k], c));
                        }
                    } else {
                        // A merged range lies inside the hull.
                        assert(char_logical(s[k].0) <= lhi + 1);
                        assert(char_logical(s[k].1) <= char_logical(new_hi));
                        lemma_char_order(s[k].0, c);
                        lemma_char_order(s[k].1, c);
                        lemma_char_order(s[j0].0, s[k].0);
                        if j0 < k {
                            assert(char_logical(s[j0].1) + 1 < char_logical(s[k].0));
                            assert(pair_wf(s[j0]));
                        }
                        assert(char_logical(new_lo) <= char_logical(s[k].0));
                        assert(pair_contains(hull, c));
                    }
                }
                if in_ranges(s.take(j0), c) {
                    let k = choose|k: int|
                        0 <= k < s.take(j0).len() && pair_contains(#[trigger] s.take(j0)[k], c);
                    assert(s.take(j0)[k] == s[k]);
                    assert(pair_contains(s.take(i1)[k], c));
                }
            }
        }
        out.push(hull);
        // Ranges wholly past the added range stay as they are.
        while i < n
            invariant
                self.inv(),
                s == self@,
                n == s.len(),
                i1 <= i <= n,
                out@.len() > 0,
                wf_seq(out@),
                i < n ==> char_logical(out@.last().1) + 1 < char_logical(s[i as int].0),
                forall|c: char|
                    in_ranges(out@, c) <==> (in_ranges(s.take(i as int), c) || (min@ as u32 <= c
                        as u32 <= max@ as u32)),
            decreases n - i,
        {
            let p = self.ranges[i];
            proof {
                lemma_wf_push(out@, p);
                lemma_take_step(s, i as int);
                assert forall|c: char|
                    in_ranges(out@.push(p), c) <==> (in_ranges(s.take(i as int + 1), c) || (min@
                        as u32 <= c as u32 <= max@ as u32)) by {
                    lemma_in_ranges_push(out@, p, c);
                }
                if i + 1 < n {
                    assert(char_logical(s[i as int].1) + 1 < char_logical(s[i as int + 1].0));
                }
            }
            out.push(p);
            i += 1;
        }
        proof {
            assert(s.take(n as int) =~= s);
        }
        let r = RangeSet { ranges: out };
        r
    }

    /// The ranges as a plain vector of inclusive `(min, max)` pairs.
    pub fn to_pairs(&self) -> (r: Vec<(char, char)>)
        ensures
            r@ == self@,
    {
        let n = self.ranges.len();
        let mut v: Vec<(char, char)> = Vec::new();
        let mut i: usize = 0;
        while i < n
            invariant
                0 <= i <= n,
                n == self@.len(),
                v@ == self@.take(i as int),
            decreases n - i,
        {
            proof {
                assert(self@.take(i as int + 1) =~= self@.take(i as int).push(self@[i as int]));
            }
            let p = self.ranges[i];
            v.push(p);
            i += 1;
        }
        proof {
            assert(self@.take(n as int) =~= self@);
        }
        v
    }

    /// An exact copy.
    fn duplicate(&self) -> (r: Self)
        ensures
            r@ == self@,
    {
        let v = self.to_pairs();
        let r = RangeSet { ranges: v };
        r
    }

    /// Return the set of the values held by this set or by the other.
    pub fn union(&self, that: &RangeSet) -> (r: Self)
        requires
            self.inv(),
            that.inv(),
        ensures
            r.inv(),
            forall|c: char|
                r.spec_contains(c) <==> (self.spec_contains(c) || that.spec_contains(c)),
    {
        let ghost t = that@;
        let n = that.ranges.len();
        let mut r = self.duplicate();
        let mut i: usize = 0;
        while i < n
            invariant
                self.inv(),
                that.inv(),
                t == that@,
                n == t.len(),
                0 <= i <= n,
                r.inv(),
                forall|c: char|
                    r.spec_contains(c) <==> (self.spec_contains(c) || in_ranges(
                        t.take(i as int),
                        c,
                    )),
            decreases n - i,
        {
            let (lo, hi) = that.ranges[i];
            proof {
                assert(pair_wf(t[i as int]));
                lemma_take_step(t, i as int);
            }
            r = r.add_range(Char::new(lo), Char::new(hi));
            i += 1;
        }
        proof {
            assert(t.take(n as int) =~= t);
        }
        r
    }

    /// Return the set of the values held by both this set and the other.
    pub fn intersection(&self, that: &RangeSet) -> (r: Self)
        requires
            self.inv(),
            that.inv(),
        ensures
            r.inv(),
            forall|c: char|
                r.spec_contains(c) <==> (self.spec_contains(c) && that.spec_contains(c)),
    {
        self.complement().union(&that.complement()).complement()
    }

    /// Return the set of the values held by this set but not by the other.
    pub fn difference(&self, that: &RangeSet) -> (r: Self)
        requires
            self.inv(),
            that.inv(),
        ensures
            r.inv(),
            forall|c: char|
                r.spec_contains(c) <==> (self.spec_contains(c) && !that.spec_contains(c)),
    {
        self.intersection(&that.complement())
    }

    /// Create a new instance holding the values of all the given ranges;
    /// overlapping or touching ranges are merged and empty ranges are
    /// ignored.
    pub fn new_from_ranges(ranges: &Vec<AnyRange>) -> (r: Self)
        ensures
            r.inv(),
            forall|c: char| r.spec_contains(c) <==> in_any_ranges(ranges@, c),
    {
        let ghost rs = ranges@;
        let n = ranges.len();
        let mut r = Self::empty();
        let mut i: usize = 0;
        while i < n
            invariant
                rs == ranges@,
                n == rs.len(),
                0 <= i <= n,
                r.inv(),
                forall|c: char| r.spec_contains(c) <==> in_any_ranges(rs.take(i as int), c),
            decreases n - i,
        {
            let a = ranges[i];
            let ghost prev = r@;
            if a.min.to_u32() <= a.max.to_u32() {
                r = r.add_range(a.min, a.max);
            }
            proof {
                assert forall|c: char|
                    in_any_ranges(rs.take(i as int + 1), c) <==> (in_any_ranges(
                        rs.take(i as int),
                        c,
                    ) || pair_contains(rs[i as int]@, c)) by {
                    if in_any_ranges(rs.take(i as int), c) {
                        let k = choose|k: int|
                            0 <= k < rs.take(i as int).len() && pair_contains(
                                #[trigger] rs.take(i as int)[k]@,
                                c,
                            );
                        assert(pair_contains(rs.take(i as int + 1)[k]@, c));
                    }
                    if pair_contains(rs[i as int]@, c) {
                        assert(pair_contains(rs.take(i as int + 1)[i as int]@, c));
                    }
                    if in_any_ranges(rs.take(i as int + 1), c) {
                        let k = choose|k: int|
                            0 <= k < rs.take(i as int + 1).len() && pair_contains(
                                #[trigger] rs.take(i as int + 1)[k]@,
                                c,
                            );
                        if k < i as int {
                            assert(pair_contains(rs.take(i as int)[k]@, c));
                        } else {
                            assert(rs.take(i as int + 1)[k] == rs[i as int]);
                        }
                    }
                }
                assert(a@ == rs[i as int]@);
                assert forall|c: char|
                    r.spec_contains(c) <==> in_any_ranges(rs.take(i as int + 1), c) by {
                    assert(in_any_ranges(rs.take(i as int + 1), c) <==> (in_any_ranges(
                        rs.take(i as int),
                        c,
                    ) || pair_contains(rs[i as int]@, c)));
                    assert(pair_contains(rs[i as int]@, c) == (a.min@ as u32 <= c as u32 <= a.max@
                        as u32));
                    if !pair_wf(a@) {
                        assert(!pair_contains(rs[i as int]@, c));
                        assert(r.spec_contains(c) <==> in_any_ranges(rs.take(i as int), c));
                    } else {
                        assert(r.spec_contains(c) <==> (in_any_ranges(rs.take(i as int), c)
                            || (a.min@ as u32 <= c as u32 <= a.max@ as u32)));
                    }
                }
            }
            i += 1;
        }
        proof {
            assert(rs.take(n as int) =~= rs);
        }
        r
    }

    /// Return every contained scalar value, in ascending order. Each returned
    /// value is a member, every member is returned, and the number returned is
    /// the cardinality.
    pub fn iter(&self) -> (r: Vec<Char>)
        requires
            self.inv(),
        ensures
            r@.len() == seq_card(self@),
            forall|k: int| 0 <= k < r@.len() ==> self.spec_contains(#[trigger] r@[k]@),
            forall|c: char|
                self.spec_contains(c) ==> exists|k: int| 0 <= k < r@.len() && r@[k]@ == c,
            forall|k: int, j: int|
                0 <= k < j < r@.len() ==> char_logical(#[trigger] r@[k]@) < char_logical(
                    #[trigger] r@[j]@,
                ),
    {
        broadcast use lemma_char_order;

        let ghost s = self@;
        let n = self.ranges.len();
        let mut out: Vec<Char> = Vec::new();
        let mut i: usize = 0;
        while i < n
            invariant
                self.inv(),
                s == self@,
                n == s.len(),
                0 <= i <= n,
                out@.len() == seq_card(s.take(i as int)),
                forall|k: int| 0 <= k < out@.len() ==> self.spec_contains(#[trigger] out@[k]@),
                forall|c: char| in_ranges(s.take(i as int), c) ==> #[trigger] covered(out@, c),
                forall|k: int, j: int|
                    0 <= k < j < out@.len() ==> char_logical(#[trigger] out@[k]@) < char_logical(
                        #[trigger] out@[j]@,
                    ),
                out@.len() > 0 && i < n ==> char_logical(out@.last()@) < char_logical(
                    s[i as int].0,
                ),
            decreases n - i,
        {
            let (lo, hi) = self.ranges[i];
            proof {
                assert(lo == s[i as int].0 && hi == s[i as int].1);
                assert(pair_wf(s[i as int]));
                lemma_take_step(s, i as int);
                lemma_char_order(lo, hi);
            }
            let lhi = logical_of(hi);
            let mut cur: char = lo;
            let mut lcur = logical_of(cur);
            proof {
                assert forall|c: char|
                    in_ranges(s.take(i as int), c) || (pair_contains(s[i as int], c)
                        && char_logical(c) < lcur) implies #[trigger] covered(out@, c) by {
                    lemma_char_order(lo, c);
                    assert(in_ranges(s.take(i as int), c));
                }
            }
            while lcur < lhi
                invariant
                    self.inv(),
                    s == self@,
                    n == s.len(),
                    0 <= i < n,
                    lo == s[i as int].0,
                    hi == s[i as int].1,
                    lhi == char_logical(hi),
                    lcur == char_logical(cur),
                    char_logical(lo) <= lcur <= lhi,
                    out@.len() == seq_card(s.take(i as int)) + (lcur - char_logical(lo)),
                    forall|k: int| 0 <= k < out@.len() ==> self.spec_contains(#[trigger] out@[k]@),
                    forall|c: char|
                        in_ranges(s.take(i as int), c) || (pair_contains(s[i as int], c)
                            && char_logical(c) < lcur) ==> #[trigger] covered(out@, c),
                    forall|k: int, j: int|
                        0 <= k < j < out@.len() ==> char_logical(#[trigger] out@[k]@)
                            < char_logical(#[trigger] out@[j]@),
                    out@.len() > 0 ==> char_logical(out@.last()@) < lcur,
                decreases lhi - lcur,
            {
                let v = Char::new(cur);
                proof {
                    lemma_char_order(lo, cur);
                    lemma_char_order(hi, cur);
                    assert(pair_contains(s[i as int], cur));
                    assert(in_ranges(s, cur)) by {
                        assert(pair_contains(s[i as int], cur));
                    }
                    assert forall|c: char|
                        in_ranges(s.take(i as int), c) || (pair_contains(s[i as int], c)
                            && char_logical(c) < lcur + 1) implies #[trigger] covered(
                        out@.push(v),
                        c,
                    ) by {
                        lemma_char_order(c, cur);
                        if char_logical(c) == lcur && pair_contains(s[i as int], c) {
                            lemma_char_code_injective(c, cur);
                            assert(out@.push(v)[out@.len() as int]@ == c);
                        } else {
                            assert(covered(out@, c));
                            let k = choose|k: int| 0 <= k < out@.len() && out@[k]@ == c;
                            assert(out@.push(v)[k] == out@[k]);
                            assert(out@.push(v)[k]@ == c);
                        }
                    }
                }
                out.push(v);
                cur = succ_char(cur);
                lcur = lcur + 1;
            }
            proof {
                lemma_char_order(cur, hi);
                assert(cur as u32 == hi as u32);
                lemma_char_code_injective(cur, hi);
                assert(cur == hi);
                assert(pair_contains(s[i as int], cur));
                assert(in_ranges(s, cur)) by {
                    assert(pair_contains(s[i as int], cur));
                }
            }
            let v = Char::new(cur);
            proof {
                assert forall|c: char|
                    in_ranges(s.take(i as int + 1), c) implies #[trigger] covered(
                    out@.push(v),
                    c,
                ) by {
                    lemma_char_order(c, cur);
                    lemma_char_order(c, lo);
                    if pair_contains(s[i as int], c) && char_logical(c) == lhi {
                        lemma_char_code_injective(c, cur);
                        assert(out@.push(v)[out@.len() as int]@ == c);
                    } else {
                        assert(in_ranges(s.take(i as int), c) || (pair_contains(s[i as int], c)
                            && char_logical(c) < lcur));
                        assert(covered(out@, c));
                        let k = choose|k: int| 0 <= k < out@.len() && out@[k]@ == c;
                        assert(out@.push(v)[k] == out@[k]);
                        assert(out@.push(v)[k]@ == c);
                    }
                }
                if i + 1 < n {
                    assert(char_logical(s[i as int].1) + 1 < char_logical(s[i as int + 1].0));
                }
            }
            out.push(v);
            i += 1;
        }
        proof {
            assert(s.take(n as int) =~= s);
            assert forall|c: char|
                self.spec_contains(c) implies exists|k: int|
                0 <= k < out@.len() && out@[k]@ == c by {
                assert(covered(out@, c));
            }
        }
        out
    }
}

/// The logical position of a character, computed.
fn logical_of(c: char) -> (r: u32)
    ensures
        r == char_logical(c),
        r <= MAX_LOGICAL,
{
    proof {
        lemma_char_is_scalar(c);
    }
    let v = c as u32;
    if v >= 0xE000 {
        v - 0x800
    } else {
        v
    }
}

/// The next scalar value on the logical axis.
fn succ_char(c: char) -> (r: char)
    requires
        char_logical(c) < MAX_LOGICAL,
    ensures
        char_logical(r) == char_logical(c) + 1,
{
    Char::new(c).add(Char::one()).to_char()
}

/// The previous scalar value on the logical axis.
fn pred_char(c: char) -> (r: char)
    requires
        char_logical(c) >= 1,
    ensures
        char_logical(r) == char_logical(c) - 1,
{
    Char::new(c).sub(Char::one()).to_char()
}

/// A prefix of a canonical sequence is canonical.
pub proof fn lemma_wf_take(s: Seq<(char, char)>, i: int)
    requires
        wf_seq(s),
        0 <= i <= s.len(),
    ensures
        wf_seq(s.take(i)),
{
    let t = s.take(i);
    assert forall|k: int| 0 <= k < t.len() implies pair_wf(#[trigger] t[k]) by {
        assert(t[k] == s[k]);
    }
    assert forall|k: int, j: int|
        0 <= k < j < t.len() implies char_logical(#[trigger] t[k].1) + 1 < char_logical(
        #[trigger] t[j].0,
    ) by {
        assert(t[k] == s[k] && t[j] == s[j]);
    }
}

/// Pushing a non-empty range that starts past the last range's end, with a
/// value missing in between, keeps a sequence canonical.
pub proof fn lemma_wf_push(s: Seq<(char, char)>, p: (char, char))
    requires
        wf_seq(s),
        pair_wf(p),
        s.len() > 0 ==> char_logical(s.last().1) + 1 < char_logical(p.0),
    ensures
        wf_seq(s.push(p)),
{
    broadcast use lemma_char_order;

    let t = s.push(p);
    assert forall|k: int| 0 <= k < t.len() implies pair_wf(#[trigger] t[k]) by {
        if k < s.len() {
            assert(t[k] == s[k]);
        } else {
            assert(t[k] == p);
        }
    }
    assert forall|k: int, j: int|
        0 <= k < j < t.len() implies char_logical(#[trigger] t[k].1) + 1 < char_logical(
        #[trigger] t[j].0,
    ) by {
        assert(t[k] == s[k]);
        if j < s.len() {
            assert(t[j] == s[j]);
        } else {
            assert(t[j] == p);
            if k < s.len() - 1 {
                assert(char_logical(s[k].1) + 1 < char_logical(s.last().0));
                assert(pair_wf(s.last()));
            }
        }
    }
}

/// Pushing a range adds its span to the count.
pub proof fn lemma_seq_card_push(s: Seq<(char, char)>, p: (char, char))
    ensures
        seq_card(s.push(p)) == seq_card(s) + pair_span(p),
{
    assert(s.push(p).drop_last() =~= s);
}

/// A character is in a pushed sequence exactly when it is in the original
/// sequence or in the pushed range.
pub proof fn lemma_in_ranges_push(s: Seq<(char, char)>, p: (char, char), c: char)
    ensures
        in_ranges(s.push(p), c) <==> (in_ranges(s, c) || pair_contains(p, c)),
{
    let t = s.push(p);
    if in_ranges(s, c) {
        let i = choose|i: int| 0 <= i < s.len() && pair_contains(#[trigger] s[i], c);
        assert(t[i] == s[i]);
        assert(pair_contains(t[i], c));
    }
    if pair_contains(p, c) {
        assert(t[s.len() as int] == p);
        assert(pair_contains(t[s.len() as int], c));
    }
    if in_ranges(t, c) {
        let i = choose|i: int| 0 <= i < t.len() && pair_contains(#[trigger] t[i], c);
        if i < s.len() {
            assert(t[i] == s[i]);
            assert(pair_contains(s[i], c));
        } else {
            assert(t[i] == p);
        }
    }
}

/// Taking one more range adds exactly that range's members and count.
pub proof fn lemma_take_step(s: Seq<(char, char)>, i: int)
    requires
        0 <= i < s.len(),
    ensures
        s.take(i + 1) == s.take(i).push(s[i]),
        seq_card(s.take(i + 1)) == seq_card(s.take(i)) + pair_span(s[i]),
        forall|c: char|
            in_ranges(s.take(i + 1), c) <==> (in_ranges(s.take(i), c) || pair_contains(
                s[i],
                c,
            )),
{
    assert(s.take(i + 1) =~= s.take(i).push(s[i]));
    assert(s.take(i + 1).drop_last() =~= s.take(i));
    assert forall|c: char|
        in_ranges(s.take(i + 1), c) <==> (in_ranges(s.take(i), c) || pair_contains(
            s[i],
            c,
        )) by {
        lemma_in_ranges_push(s.take(i), s[i], c);
    }
}

/// Every member of a prefix of a canonical sequence lies at or below the end
/// of the prefix's last range.
pub proof fn lemma_members_below(s: Seq<(char, char)>, i: int, c: char)
    requires
        wf_seq(s),
        0 < i <= s.len(),
        in_ranges(s.take(i), c),
    ensures
        char_logical(c) <= char_logical(s[i - 1].1),
{
    broadcast use lemma_char_order;

    let k = choose|k: int| 0 <= k < s.take(i).len() && pair_contains(#[trigger] s.take(i)[k], c);
    assert(s.take(i)[k] == s[k]);
    if k < i - 1 {
        assert(char_logical(s[k].1) + 1 < char_logical(s[i - 1].0));
    }
}

/// The character with the given position on the logical axis.
pub open spec fn char_at(l: int) -> char {
    (to_physical(l) as u32) as char
}

/// For positions on the logical axis, [`char_at`] inverts [`char_logical`].
pub proof fn lemma_char_at(l: int)
    requires
        0 <= l <= MAX_LOGICAL,
    ensures
        char_logical(char_at(l)) == l,
{
    lemma_logical_physical(l);
    lemma_u32_to_char(to_physical(l) as u32);
}

/// Dropping the first range of a canonical sequence keeps it canonical, and
/// keeps exactly the members past the first range's end.
pub proof fn lemma_skip_first(s: Seq<(char, char)>)
    requires
        wf_seq(s),
        s.len() > 0,
    ensures
        wf_seq(s.skip(1)),
        forall|c: char|
            in_ranges(s.skip(1), c) <==> (in_ranges(s, c) && char_logical(c) > char_logical(
                s[0].1,
            )),
{
    broadcast use lemma_char_order;

    let t = s.skip(1);
    assert forall|k: int| 0 <= k < t.len() implies pair_wf(#[trigger] t[k]) by {
        assert(t[k] == s[k + 1]);
    }
    assert forall|k: int, j: int|
        0 <= k < j < t.len() implies char_logical(#[trigger] t[k].1) + 1 < char_logical(
        #[trigger] t[j].0,
    ) by {
        assert(t[k] == s[k + 1] && t[j] == s[j + 1]);
    }
    assert forall|c: char|
        in_ranges(t, c) <==> (in_ranges(s, c) && char_logical(c) > char_logical(s[0].1)) by {
        if in_ranges(t, c) {
            let k = choose|k: int| 0 <= k < t.len() && pair_contains(#[trigger] t[k], c);
            assert(t[k] == s[k + 1]);
            assert(pair_contains(s[k + 1], c));
            lemma_char_order(s[k + 1].0, c);
            assert(char_logical(s[0].1) + 1 < char_logical(s[k + 1].0));
        }
        if in_ranges(s, c) && char_logical(c) > char_logical(s[0].1) {
            let k = choose|k: int| 0 <= k < s.len() && pair_contains(#[trigger] s[k], c);
            lemma_char_order(s[k].1, c);
            assert(k != 0);
            assert(t[k - 1] == s[k]);
            assert(pair_contains(t[k - 1], c));
        }
    }
}

/// A set of scalar values has exactly one canonical representation: two
/// canonical sequences with the same members are equal.
pub proof fn lemma_canonical_unique(a: Seq<(char, char)>, b: Seq<(char, char)>)
    requires
        wf_seq(a),
        wf_seq(b),
        forall|c: char| in_ranges(a, c) <==> in_ranges(b, c),
    ensures
        a == b,
    decreases a.len(),
{
    broadcast use lemma_char_order;

    if a.len() == 0 {
        if b.len() > 0 {
            assert(pair_wf(b[0]));
            assert(pair_contains(b[0], b[0].0));
            assert(in_ranges(b, b[0].0));
            assert(false);
        }
        assert(a =~= b);
    } else if b.len() == 0 {
        assert(pair_wf(a[0]));
        assert(pair_contains(a[0], a[0].0));
        assert(in_ranges(a, a[0].0));
        assert(false);
    } else {
        assert(pair_wf(a[0]) && pair_wf(b[0]));
        // The first lower bounds agree: each is a member of both sequences,
        // and every member is at or above each sequence's first lower bound.
        assert(pair_contains(a[0], a[0].0));
        assert(in_ranges(b, a[0].0));
        let k1 = choose|k: int| 0 <= k < b.len() && pair_contains(#[trigger] b[k], a[0].0);
        assert(pair_wf(b[k1]));
        if k1 > 0 {
            assert(char_logical(b[0].1) + 1 < char_logical(b[k1].0));
        }
        lemma_char_order(b[k1].0, a[0].0);
        lemma_char_order(b[0].0, b[k1].0);
        assert(pair_contains(b[0], b[0].0));
        assert(in_ranges(a, b[0].0));
        let k2 = choose|k: int| 0 <= k < a.len() && pair_contains(#[trigger] a[k], b[0].0);
        assert(pair_wf(a[k2]));
        if k2 > 0 {
            assert(char_logical(a[0].1) + 1 < char_logical(a[k2].0));
        }
        lemma_char_order(a[k2].0, b[0].0);
        lemma_char_order(a[0].0, a[k2].0);
        lemma_char_order(a[0].0, b[0].0);
        lemma_char_code_injective(a[0].0, b[0].0);
        assert(a[0].0 == b[0].0);
        // The first upper bounds agree: one value past the earlier end is in
        // one sequence and not the other.
        if char_logical(a[0].1) < char_logical(b[0].1) {
            let w = char_at(char_logical(a[0].1) + 1);
            lemma_char_at(char_logical(a[0].1) + 1);
            lemma_char_order(w, a[0].1);
            lemma_char_order(w, b[0].1);
            lemma_char_order(w, b[0].0);
            lemma_char_order(w, a[0].0);
            assert(pair_contains(b[0], w));
            assert(in_ranges(b, w));
            assert(in_ranges(a, w));
            let m = choose|k: int| 0 <= k < a.len() && pair_contains(#[trigger] a[k], w);
            lemma_char_order(a[m].0, w);
            lemma_char_order(a[m].1, w);
            if m > 0 {
                assert(char_logical(a[0].1) + 1 < char_logical(a[m].0));
            }
            assert(false);
        }
        if char_logical(b[0].1) < char_logical(a[0].1) {
            let w = char_at(char_logical(b[0].1) + 1);
            lemma_char_at(char_logical(b[0].1) + 1);
            lemma_char_order(w, b[0].1);
            lemma_char_order(w, a[0].1);
            lemma_char_order(w, a[0].0);
            lemma_char_order(w, b[0].0);
            assert(pair_contains(a[0], w));
            assert(in_ranges(a, w));
            assert(in_ranges(b, w));
            let m = choose|k: int| 0 <= k < b.len() && pair_contains(#[trigger] b[k], w);
            lemma_char_order(b[m].0, w);
            lemma_char_order(b[m].1, w);
            if m > 0 {
                assert(char_logical(b[0].1) + 1 < char_logical(b[m].0));
            }
            assert(false);
        }
        lemma_char_order(a[0].1, b[0].1);
        lemma_char_code_injective(a[0].1, b[0].1);
        assert(a[0] == b[0]);
        lemma_skip_first(a);
        lemma_skip_first(b);
        assert forall|c: char| in_ranges(a.skip(1), c) <==> in_ranges(b.skip(1), c) by {
            assert(in_ranges(a.skip(1), c) <==> (in_ranges(a, c) && char_logical(c)
                > char_logical(a[0].1)));
            assert(in_ranges(b.skip(1), c) <==> (in_ranges(b, c) && char_logical(c)
                > char_logical(b[0].1)));
        }
        lemma_canonical_unique(a.skip(1), b.skip(1));
        assert(a.skip(1).len() == b.skip(1).len());
        assert forall|i: int| 0 <= i < a.len() implies a[i] == b[i] by {
            if i > 0 {
                assert(a.skip(1)[i - 1] == a[i]);
                assert(b.skip(1)[i - 1] == b[i]);
            }
        }
        assert(a =~= b);
    }
}

/// Any two canonical sequences complementary to the same sequence are equal,
/// so the complement's representation is a function of the set.
pub open spec fn complement_rel(s: Seq<(char, char)>, t: Seq<(char, char)>) -> bool {
    wf_seq(t) && (forall|c: char| in_ranges(t, c) <==> !in_ranges(s, c))
}

/// The canonical representation of a set's complement.
pub open spec fn comp_of(s: Seq<(char, char)>) -> Seq<(char, char)> {
    choose|t: Seq<(char, char)>| complement_rel(s, t)
}

/// The members counted by a canonical sequence never exceed the whole scalar
/// space, and a non-empty canonical sequence counts at least one value.
pub proof fn lemma_seq_card_bounds(s: Seq<(char, char)>)
    requires
        wf_seq(s),
    ensures
        0 <= seq_card(s) <= TOTAL_CARDINALITY,
        seq_card(s) >= s.len(),
        s.len() > 0 ==> char_logical(s.first().0) <= char_logical(s.last().1)
            && seq_card(s) <= char_logical(s.last().1) - char_logical(s.first().0) + 1,
    decreases s.len(),
{
    broadcast use lemma_char_order;

    if s.len() > 0 {
        let prefix = s.drop_last();
        assert(wf_seq(prefix));
        lemma_seq_card_bounds(prefix);
        if prefix.len() > 0 {
            assert(char_logical(prefix.last().1) + 1 < char_logical(s.last().0));
        }
    }
}

} // verus!
