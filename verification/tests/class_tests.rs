use regex_charclass::char::Char;
use regex_charclass::range_set::{AnyRange, RangeSet};
use regex_charclass::{CharBound, U32Bound};

fn ranges_of(pairs: &[(char, char)]) -> RangeSet {
    let mut v: Vec<AnyRange> = Vec::new();
    for (lo, hi) in pairs {
        v.push(AnyRange::new(Char::new(*lo), Char::new(*hi)));
    }
    RangeSet::new_from_ranges(&v)
}

#[test]
fn test_empty_and_total() -> Result<(), String> {
    let range = RangeSet::empty();
    assert!(range.is_empty());
    assert_eq!("[]", range.to_regex());
    assert_eq!(0, range.get_cardinality());

    let range = RangeSet::total();
    assert!(range.is_total());
    assert_eq!(".", range.to_regex());
    assert_eq!(1_112_064, range.get_cardinality());
    Ok(())
}

#[test]
fn test_operations() -> Result<(), String> {
    let range1 = RangeSet::new_from_range_char(
        CharBound::Included('a'),
        CharBound::Included('z'),
    );
    assert_eq!("[a-z]", range1.to_regex());

    for char in range1.iter() {
        assert!(range1.contains(char))
    }

    let range2 = RangeSet::new_from_ranges(&vec![
        AnyRange::new(Char::new('0'), Char::new('1')),
        AnyRange::new(Char::new('A'), Char::new('F')),
        AnyRange::new(Char::new('a'), Char::new('f')),
    ]);
    assert_eq!("[01A-Fa-f]", range2.to_regex());

    for char in range2.iter() {
        assert!(range2.contains(char))
    }

    let intersection = range1.intersection(&range2);
    assert_eq!("[a-f]", intersection.to_regex());

    for char in intersection.iter() {
        assert!(intersection.contains(char))
    }

    Ok(())
}

#[test]
fn test_to_regex() -> Result<(), String> {
    let range = RangeSet::new_from_range_char(
        CharBound::Included('.'),
        CharBound::Included('.'),
    );
    assert_eq!("\\.", range.to_regex());

    let range = RangeSet::new_from_ranges(&vec![
        AnyRange::new(Char::new('0'), Char::new('9')),
        AnyRange::new(Char::new('A'), Char::new('F')),
        AnyRange::new(Char::new('a'), Char::new('f')),
    ]);
    assert_eq!("\\p{ASCII_Hex_Digit}", range.to_regex());

    Ok(())
}

#[test]
fn test_cardinality() {
    let range = RangeSet::new_from_range_char(
        CharBound::Included('a'),
        CharBound::Included('z'),
    );
    assert_eq!(26, range.get_cardinality());

    // The gap is skipped: from 0xD7F0 to 0xE00F there are 32 scalar values.
    let range = RangeSet::new_from_range(Char::new('\u{D7F0}'), Char::new('\u{E00F}'));
    assert_eq!(32, range.get_cardinality());
}

#[test]
fn test_cardinality_complement() {
    let sets = [
        RangeSet::empty(),
        RangeSet::total(),
        RangeSet::new_from_range_char(CharBound::Included('a'), CharBound::Included('z')),
        ranges_of(&[('0', '1'), ('A', 'F'), ('a', 'f')]),
        ranges_of(&[('\0', '\u{D7FF}')]),
    ];
    for set in sets {
        let complement = set.complement();
        assert_eq!(
            1_112_064u64,
            set.get_cardinality() as u64 + complement.get_cardinality() as u64
        );
    }
}

#[test]
fn test_union_intersection_difference() {
    let hex = ranges_of(&[('0', '9'), ('A', 'F'), ('a', 'f')]);
    let complement = hex.complement();
    assert_eq!("\\P{ASCII_Hex_Digit}", complement.to_regex());

    assert_eq!(".", hex.union(&complement).to_regex());
    assert_eq!("[]", hex.intersection(&complement).to_regex());

    let letters = RangeSet::new_from_range_char(
        CharBound::Included('a'),
        CharBound::Included('z'),
    );
    assert_eq!("[g-z]", letters.difference(&hex).to_regex());
}

#[test]
fn test_iteration_matches_membership() {
    let set = ranges_of(&[('b', 'd'), ('x', 'z'), ('\u{D7FE}', '\u{E001}')]);
    let values = set.iter();
    assert_eq!(set.get_cardinality() as usize, values.len());
    for v in &values {
        assert!(set.contains(*v));
    }
    // Values outside the ranges are not produced and not contained.
    for probe in ['a', 'e', 'w', '\u{D7FD}', '\u{E002}'] {
        assert!(!set.contains(Char::new(probe)));
        assert!(!values.contains(&Char::new(probe)));
    }
    // The iteration is ascending and skips the surrogate gap.
    let mut prev: Option<u32> = None;
    for v in &values {
        if let Some(p) = prev {
            assert!(p < v.to_u32());
        }
        prev = Some(v.to_u32());
    }
    assert!(values.contains(&Char::new('\u{D7FE}')));
    assert!(values.contains(&Char::new('\u{E001}')));
    assert!(!values.contains(&Char::new('\u{D7FD}')));
}

#[test]
fn test_new_from_range_u32() {
    let range = RangeSet::new_from_range_u32(
        U32Bound::Included(97),
        U32Bound::Included(122),
    )
    .unwrap();
    assert_eq!(26, range.get_cardinality());
    assert_eq!("[a-z]", range.to_regex());

    // A bound inside the surrogate gap or past the largest codepoint fails.
    assert!(RangeSet::new_from_range_u32(U32Bound::Included(0xD800), U32Bound::Included(0xE000))
        .is_none());
    assert!(RangeSet::new_from_range_u32(U32Bound::Included(97), U32Bound::Included(0x110000))
        .is_none());
    // An excluded largest codepoint cannot be adjusted upward.
    assert!(RangeSet::new_from_range_u32(U32Bound::Excluded(0x10FFFF), U32Bound::Unbounded)
        .is_none());
    // An excluded zero as upper end leaves nothing below it.
    assert!(RangeSet::new_from_range_u32(U32Bound::Included(0), U32Bound::Excluded(0)).is_none());

    // Excluded bounds skip over the surrogate gap.
    let range = RangeSet::new_from_range_u32(
        U32Bound::Excluded(0xD7FF),
        U32Bound::Excluded(0xE001),
    )
    .unwrap();
    assert_eq!(1, range.get_cardinality());
    assert!(range.contains(Char::new('\u{E000}')));
}

#[test]
fn test_unbounded_upper_resolves_to_minimum() {
    // An unbounded upper end resolves to codepoint zero, so the range is
    // empty unless it starts there.
    let range = RangeSet::new_from_range_char(CharBound::Included('a'), CharBound::Unbounded);
    assert!(range.is_empty());
    assert_eq!("[]", range.to_regex());
    assert_eq!(0, range.get_cardinality());

    let range =
        RangeSet::new_from_range_u32(U32Bound::Included(0), U32Bound::Unbounded).unwrap();
    assert_eq!(1, range.get_cardinality());
    assert!(range.contains(Char::new('\0')));
}

#[test]
fn test_char_bounds_at_the_edges() {
    // An excluded bound one step before the gap lands just past it.
    let range = RangeSet::new_from_range_char(
        CharBound::Excluded('\u{D7FF}'),
        CharBound::Included('\u{E000}'),
    );
    assert_eq!(1, range.get_cardinality());
    assert!(range.contains(Char::new('\u{E000}')));

    // An excluded bound one step past the gap lands just before it.
    let range = RangeSet::new_from_range_char(
        CharBound::Included('\u{D7FF}'),
        CharBound::Excluded('\u{E000}'),
    );
    assert_eq!(1, range.get_cardinality());
    assert!(range.contains(Char::new('\u{D7FF}')));
}

#[test]
fn test_any_range_is_empty() {
    assert!(AnyRange::new(Char::new('b'), Char::new('a')).is_empty());
    assert!(!AnyRange::new(Char::new('a'), Char::new('a')).is_empty());
    // Empty input ranges contribute nothing.
    let set = RangeSet::new_from_ranges(&vec![
        AnyRange::new(Char::new('b'), Char::new('a')),
        AnyRange::new(Char::new('x'), Char::new('y')),
    ]);
    assert_eq!(2, set.get_cardinality());
    assert_eq!("[xy]", set.to_regex());
}
