use regex_charclass::char::Char;

#[test]
fn char_add() -> Result<(), String> {
    assert_eq!(Char::new('\u{3}'), Char::new('\u{2}').add(Char::one()));
    assert_eq!(Char::new('\u{E000}'), Char::new('\u{D7FF}').add(Char::one()));
    assert_eq!(Char::new('\u{E001}'), Char::new('\u{E000}').add(Char::one()));

    Ok(())
}

#[test]
fn char_add_assign() -> Result<(), String> {
    let mut c = Char::new('\u{2}');
    c.add_assign(Char::one());
    assert_eq!(Char::new('\u{3}'), c);

    let mut c = Char::new('\u{D7FF}');
    c.add_assign(Char::one());
    assert_eq!(Char::new('\u{E000}'), c);

    let mut c = Char::new('\u{E000}');
    c.add_assign(Char::one());
    assert_eq!(Char::new('\u{E001}'), c);

    Ok(())
}

#[test]
fn char_sub() -> Result<(), String> {
    assert_eq!(Char::new('\u{2}'), Char::new('\u{3}').sub(Char::one()));
    assert_eq!(Char::new('\u{D7FF}'), Char::new('\u{E000}').sub(Char::one()));
    assert_eq!(Char::new('\u{E000}'), Char::new('\u{E001}').sub(Char::one()));

    Ok(())
}

#[test]
fn char_codes() {
    assert_eq!('a', Char::new('a').to_char());
    assert_eq!(97, Char::new('a').to_u32());
    assert_eq!(Some(Char::new('a')), Char::from_u32(97));
    assert_eq!(None, Char::from_u32(0xD800));
    assert_eq!(None, Char::from_u32(0xDFFF));
    assert_eq!(None, Char::from_u32(0x110000));
    assert_eq!(Some(Char::new('\u{10FFFF}')), Char::from_u32(0x10FFFF));
    assert_eq!(Char::new('\0'), Char::min_value());
    assert_eq!(Char::new('\u{10FFFF}'), Char::max_value());
}

#[test]
fn char_add_sub_inverse() {
    // Round trips across the surrogate gap.
    let cases = [
        ('\u{2}', '\u{1}'),
        ('\u{D7F0}', '\u{20}'),
        ('\u{E000}', '\u{E000}'),
        ('\u{D7FF}', '\u{1}'),
        ('a', 'z'),
    ];
    for (x, y) in cases {
        let a = Char::new(x);
        let b = Char::new(y);
        let s = a.add(b);
        assert_eq!(a, s.sub(b));
        let d = s.sub(a);
        assert_eq!(b, d);
        assert_eq!(s, d.add(a));
    }
}
