use regex_charclass::char::Char;
use regex_charclass::get_printable_char;
use regex_charclass::range_set::{AnyRange, RangeSet};
use regex_charclass::tokens::{
    convert_to_range, find_class, get_perl_class, identify_character, is_perl_decimal,
    is_perl_space, is_perl_word,
};
use regex_charclass::unicode_data::{
    braille_table, control_table, decimal_number_table, greek_table, perl_word_table,
    white_space_table,
};
use regex_charclass::CharBound;
use regex_charclass::CharacterClass;

fn ranges_of(pairs: &[(char, char)]) -> RangeSet {
    let mut v: Vec<AnyRange> = Vec::new();
    for (lo, hi) in pairs {
        v.push(AnyRange::new(Char::new(*lo), Char::new(*hi)));
    }
    RangeSet::new_from_ranges(&v)
}

fn set_of_table(table: &[(char, char)]) -> RangeSet {
    ranges_of(table)
}

#[test]
fn test_escaping() {
    assert_eq!("a", get_printable_char('a'));
    assert_eq!("~", get_printable_char('~'));
    assert_eq!(" ", get_printable_char(' '));
    assert_eq!("\\.", get_printable_char('.'));
    assert_eq!("\\-", get_printable_char('-'));
    assert_eq!("\\\\", get_printable_char('\\'));
    assert_eq!("\\^", get_printable_char('^'));
    assert_eq!("\\n", get_printable_char('\n'));
    assert_eq!("\\r", get_printable_char('\r'));
    assert_eq!("\\t", get_printable_char('\t'));
    assert_eq!("\\v", get_printable_char('\u{B}'));
    assert_eq!("\\u{0000}", get_printable_char('\0'));
    assert_eq!("\\u{007f}", get_printable_char('\u{7F}'));
    assert_eq!("\\u{00e9}", get_printable_char('\u{E9}'));
    assert_eq!("\\u{10330}", get_printable_char('\u{10330}'));
}

#[test]
fn test_identify_character() {
    assert_eq!(Some("\\n"), identify_character('\n'));
    assert_eq!(Some("\\r"), identify_character('\r'));
    assert_eq!(Some("\\t"), identify_character('\t'));
    assert_eq!(Some("\\v"), identify_character('\u{B}'));
    assert_eq!(None, identify_character('a'));
    assert_eq!(None, identify_character('\0'));
}

#[test]
fn test_single_control_characters() {
    let newline = RangeSet::new_from_range(Char::new('\n'), Char::new('\n'));
    assert_eq!("\\n", newline.to_regex());
    let tab = RangeSet::new_from_range(Char::new('\t'), Char::new('\t'));
    assert_eq!("\\t", tab.to_regex());
}

#[test]
fn test_perl_classes() {
    let decimal = decimal_number_table();
    assert!(is_perl_decimal(&decimal));
    assert!(!is_perl_space(&decimal));
    assert!(!is_perl_word(&decimal));
    assert_eq!(Some("\\d"), get_perl_class(&decimal));
    assert_eq!(Some("\\s"), get_perl_class(&white_space_table()));
    assert_eq!(Some("\\w"), get_perl_class(&perl_word_table()));
    assert_eq!(None, get_perl_class(&vec![('0', '9')]));

    assert_eq!("\\d", set_of_table(&decimal).to_regex());
    assert_eq!("\\s", set_of_table(&white_space_table()).to_regex());
    assert_eq!("\\w", set_of_table(&perl_word_table()).to_regex());
    assert_eq!("\\D", set_of_table(&decimal).complement().to_regex());
    assert_eq!("\\S", set_of_table(&white_space_table()).complement().to_regex());
    assert_eq!("\\W", set_of_table(&perl_word_table()).complement().to_regex());
}

#[test]
fn test_catalog_classes() {
    assert_eq!(Some("Braille"), find_class(&braille_table()));
    assert_eq!(Some("Control"), find_class(&control_table()));
    assert_eq!(None, find_class(&vec![('a', 'z')]));

    assert_eq!("\\p{Braille}", set_of_table(&braille_table()).to_regex());
    assert_eq!("\\p{Greek}", set_of_table(&greek_table()).to_regex());
    assert_eq!("\\P{Greek}", set_of_table(&greek_table()).complement().to_regex());
    assert_eq!("\\p{Control}", set_of_table(&control_table()).to_regex());
    assert_eq!("\\P{Control}", set_of_table(&control_table()).complement().to_regex());
}

#[test]
fn test_convert_to_range() {
    let set = ranges_of(&[('a', 'f'), ('0', '9')]);
    assert_eq!(vec![('0', '9'), ('a', 'f')], convert_to_range(&set));
}

#[test]
fn test_rendering_is_deterministic() {
    // Rendering twice yields identical strings, and a set built from its
    // ranges in any order renders the same.
    let a = ranges_of(&[('0', '1'), ('A', 'F'), ('a', 'f')]);
    let b = ranges_of(&[('a', 'f'), ('0', '1'), ('A', 'F')]);
    assert_eq!(a.to_regex(), a.to_regex());
    assert_eq!(a.to_regex(), b.to_regex());

    // Overlapping and adjacent input ranges normalize to the same set.
    let c = ranges_of(&[('a', 'c'), ('b', 'f'), ('0', '0'), ('1', '1'), ('A', 'F')]);
    assert_eq!(a.to_regex(), c.to_regex());
}

#[test]
fn test_complement_rendering() {
    // The complement has fewer ranges, so the set renders complemented.
    let set = ranges_of(&[('\0', '/'), (':', '\u{10FFFF}')]);
    assert_eq!("[^0-9]", set.to_regex());

    // Two neighbouring values render with no dash between them.
    let set = ranges_of(&[('a', 'b')]);
    assert_eq!("[ab]", set.to_regex());

    // A range across the surrogate gap renders with its real endpoints.
    let set = ranges_of(&[('\u{D7FE}', '\u{E001}')]);
    assert_eq!("[\\u{d7fe}-\\u{e001}]", set.to_regex());
}

#[test]
fn test_character_class_trait() {
    fn render<C: CharacterClass>(class: &C) -> String {
        class.to_regex()
    }

    let range = <RangeSet as CharacterClass>::new_from_range_char(
        CharBound::Included('a'),
        CharBound::Included('z'),
    );
    assert_eq!(26, CharacterClass::get_cardinality(&range));
    assert_eq!("[a-z]", render(&range));
}

#[test]
fn test_display_string() {
    assert_eq!("a", Char::new('a').display_string());
    assert_eq!("-", Char::new('-').display_string());
    assert_eq!("~", Char::new('~').display_string());
    assert_eq!("\\u{0009}", Char::new('\t').display_string());
    assert_eq!("\\u{1f600}", Char::new('\u{1F600}').display_string());
}
