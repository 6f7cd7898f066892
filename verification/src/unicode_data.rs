//! Compiled-in Unicode data: the three Perl shorthand tables and the range
//! tables of the named classes that the catalog recognizes. Each table is a
//! sorted list of inclusive `(min, max)` codepoint ranges of the Unicode
//! Character Database.
//!
//! The Perl tables are complete. The catalog holds every general-category,
//! boolean-property and script class whose table has at most 128 ranges;
//! the handful of classes with larger tables, such as the letter categories,
//! stay out, and a set equal to one of them renders as an explicit bracket
//! expression instead of its name.

use vstd::prelude::*;

verus! {

/// Ranges of the white-space characters: the `\\s` class and the `White_Space` property.
pub closed spec fn white_space_ranges() -> Seq<(char, char)> {
    seq![
        ('\u{9}', '\u{d}'),
        (' ', ' '),
        ('\u{85}', '\u{85}'),
        ('\u{a0}', '\u{a0}'),
        ('\u{1680}', '\u{1680}'),
        ('\u{2000}', '\u{200a}'),
        ('\u{2028}', '\u{2029}'),
        ('\u{202f}', '\u{202f}'),
        ('\u{205f}', '\u{205f}'),
        ('\u{3000}', '\u{3000}'),
    ]
}

/// Build the table of [`white_space_ranges`].
#[verifier::rlimit(100)]
pub fn white_space_table() -> (r: Vec<(char, char)>)
    ensures
        r@ == white_space_ranges(),
{
    let mut v: Vec<(char, char)> = Vec::new();
    v.push(('\u{9}', '\u{d}'));
    v.push((' ', ' '));
    v.push(('\u{85}', '\u{85}'));
    v.push(('\u{a0}', '\u{a0}'));
    v.push(('\u{1680}', '\u{1680}'));
    v.push(('\u{2000}', '\u{200a}'));
    v.push(('\u{2028}', '\u{2029}'));
    v.push(('\u{202f}', '\u{202f}'));
    v.push(('\u{205f}', '\u{205f}'));
    v.push(('\u{3000}', '\u{3000}'));
    proof {
        assert(v@ =~= white_space_ranges());
    }
    v
}

/// One stretch of the `Decimal_Number` ranges.
pub closed spec fn decimal_number_part_0_ranges() -> Seq<(char, char)> {
    seq![
        ('0', '9'),
        ('\u{660}', '\u{669}'),
        ('\u{6f0}', '\u{6f9}'),
        ('\u{7c0}', '\u{7c9}'),
        ('\u{966}', '\u{96f}'),
        ('\u{9e6}', '\u{9ef}'),
        ('\u{a66}', '\u{a6f}'),
        ('\u{ae6}', '\u{aef}'),
        ('\u{b66}', '\u{b6f}'),
        ('\u{be6}', '\u{bef}'),
        ('\u{c66}', '\u{c6f}'),
        ('\u{ce6}', '\u{cef}'),
        ('\u{d66}', '\u{d6f}'),
        ('\u{de6}', '\u{def}'),
        ('\u{e50}', '\u{e59}'),
        ('\u{ed0}', '\u{ed9}'),
        ('\u{f20}', '\u{f29}'),
        ('\u{1040}', '\u{1049}'),
        ('\u{1090}', '\u{1099}'),
        ('\u{17e0}', '\u{17e9}'),
        ('\u{1810}', '\u{1819}'),
        ('\u{1946}', '\u{194f}'),
        ('\u{19d0}', '\u{19d9}'),
        ('\u{1a80}', '\u{1a89}'),
        ('\u{1a90}', '\u{1a99}'),
        ('\u{1b50}', '\u{1b59}'),
        ('\u{1bb0}', '\u{1bb9}'),
        ('\u{1c40}', '\u{1c49}'),
        ('\u{1c50}', '\u{1c59}'),
        ('\u{a620}', '\u{a629}'),
        ('\u{a8d0}', '\u{a8d9}'),
        ('\u{a900}', '\u{a909}'),
        ('\u{a9d0}', '\u{a9d9}'),
        ('\u{a9f0}', '\u{a9f9}'),
        ('\u{aa50}', '\u{aa59}'),
        ('\u{abf0}', '\u{abf9}'),
        ('\u{ff10}', '\u{ff19}'),
        ('\u{104a0}', '\u{104a9}'),
        ('\u{10d30}', '\u{10d39}'),
        ('\u{10d40}', '\u{10d49}'),
        ('\u{11066}', '\u{1106f}'),
        ('\u{110f0}', '\u{110f9}'),
        ('\u{11136}', '\u{1113f}'),
        ('\u{111d0}', '\u{111d9}'),
        ('\u{112f0}', '\u{112f9}'),
        ('\u{11450}', '\u{11459}'),
        ('\u{114d0}', '\u{114d9}'),
        ('\u{11650}', '\u{11659}'),
        ('\u{116c0}', '\u{116c9}'),
        ('\u{116d0}', '\u{116e3}'),
    ]
}

/// One stretch of the `Decimal_Number` ranges.
pub closed spec fn decimal_number_part_1_ranges() -> Seq<(char, char)> {
    seq![
        ('\u{11730}', '\u{11739}'),
        ('\u{118e0}', '\u{118e9}'),
        ('\u{11950}', '\u{11959}'),
        ('\u{11bf0}', '\u{11bf9}'),
        ('\u{11c50}', '\u{11c59}'),
        ('\u{11d50}', '\u{11d59}'),
        ('\u{11da0}', '\u{11da9}'),
        ('\u{11f50}', '\u{11f59}'),
        ('\u{16130}', '\u{16139}'),
        ('\u{16a60}', '\u{16a69}'),
        ('\u{16ac0}', '\u{16ac9}'),
        ('\u{16b50}', '\u{16b59}'),
        ('\u{16d70}', '\u{16d79}'),
        ('\u{1ccf0}', '\u{1ccf9}'),
        ('\u{1d7ce}', '\u{1d7ff}'),
        ('\u{1e140}', '\u{1e149}'),
        ('\u{1e2f0}', '\u{1e2f9}'),
        ('\u{1e4f0}', '\u{1e4f9}'),
        ('\u{1e5f1}', '\u{1e5fa}'),
        ('\u{1e950}', '\u{1e959}'),
        ('\u{1fbf0}', '\u{1fbf9}'),
    ]
}

/// Ranges of the decimal digits: the `\\d` class and the `Decimal_Number` category.
pub closed spec fn decimal_number_ranges() -> Seq<(char, char)> {
    decimal_number_part_0_ranges() + decimal_number_part_1_ranges()
}

/// Build one stretch of the `Decimal_Number` range table.
#[verifier::rlimit(100)]
fn decimal_number_part_0_table() -> (r: Vec<(char, char)>)
    ensures
        r@ == decimal_number_part_0_ranges(),
{
    let mut v: Vec<(char, char)> = Vec::new();
    v.push(('0', '9'));
    v.push(('\u{660}', '\u{669}'));
    v.push(('\u{6f0}', '\u{6f9}'));
    v.push(('\u{7c0}', '\u{7c9}'));
    v.push(('\u{966}', '\u{96f}'));
    v.push(('\u{9e6}', '\u{9ef}'));
    v.push(('\u{a66}', '\u{a6f}'));
    v.push(('\u{ae6}', '\u{aef}'));
    v.push(('\u{b66}', '\u{b6f}'));
    v.push(('\u{be6}', '\u{bef}'));
    v.push(('\u{c66}', '\u{c6f}'));
    v.push(('\u{ce6}', '\u{cef}'));
    v.push(('\u{d66}', '\u{d6f}'));
    v.push(('\u{de6}', '\u{def}'));
    v.push(('\u{e50}', '\u{e59}'));
    v.push(('\u{ed0}', '\u{ed9}'));
    v.push(('\u{f20}', '\u{f29}'));
    v.push(('\u{1040}', '\u{1049}'));
    v.push(('\u{1090}', '\u{1099}'));
    v.push(('\u{17e0}', '\u{17e9}'));
    v.push(('\u{1810}', '\u{1819}'));
    v.push(('\u{1946}', '\u{194f}'));
    v.push(('\u{19d0}', '\u{19d9}'));
    v.push(('\u{1a80}', '\u{1a89}'));
    v.push(('\u{1a90}', '\u{1a99}'));
    v.push(('\u{1b50}', '\u{1b59}'));
    v.push(('\u{1bb0}', '\u{1bb9}'));
    v.push(('\u{1c40}', '\u{1c49}'));
    v.push(('\u{1c50}', '\u{1c59}'));
    v.push(('\u{a620}', '\u{a629}'));
    v.push(('\u{a8d0}', '\u{a8d9}'));
    v.push(('\u{a900}', '\u{a909}'));
    v.push(('\u{a9d0}', '\u{a9d9}'));
    v.push(('\u{a9f0}', '\u{a9f9}'));
    v.push(('\u{aa50}', '\u{aa59}'));
    v.push(('\u{abf0}', '\u{abf9}'));
    v.push(('\u{ff10}', '\u{ff19}'));
    v.push(('\u{104a0}', '\u{104a9}'));
    v.push(('\u{10d30}', '\u{10d39}'));
    v.push(('\u{10d40}', '\u{10d49}'));
    v.push(('\u{11066}', '\u{1106f}'));
    v.push(('\u{110f0}', '\u{110f9}'));
    v.push(('\u{11136}', '\u{1113f}'));
    v.push(('\u{111d0}', '\u{111d9}'));
    v.push(('\u{112f0}', '\u{112f9}'));
    v.push(('\u{11450}', '\u{11459}'));
    v.push(('\u{114d0}', '\u{114d9}'));
    v.push(('\u{11650}', '\u{11659}'));
    v.push(('\u{116c0}', '\u{116c9}'));
    v.push(('\u{116d0}', '\u{116e3}'));
    proof {
        assert(v@ =~= decimal_number_part_0_ranges());
    }
    v
}

/// Build one stretch of the `Decimal_Number` range table.
#[verifier::rlimit(100)]
fn decimal_number_part_1_table() -> (r: Vec<(char, char)>)
    ensures
        r@ == decimal_number_part_1_ranges(),
{
    let mut v: Vec<(char, char)> = Vec::new();
    v.push(('\u{11730}', '\u{11739}'));
    v.push(('\u{118e0}', '\u{118e9}'));
    v.push(('\u{11950}', '\u{11959}'));
    v.push(('\u{11bf0}', '\u{11bf9}'));
    v.push(('\u{11c50}', '\u{11c59}'));
    v.push(('\u{11d50}', '\u{11d59}'));
    v.push(('\u{11da0}', '\u{11da9}'));
    v.push(('\u{11f50}', '\u{11f59}'));
    v.push(('\u{16130}', '\u{16139}'));
    v.push(('\u{16a60}', '\u{16a69}'));
    v.push(('\u{16ac0}', '\u{16ac9}'));
    v.push(('\u{16b50}', '\u{16b59}'));
    v.push(('\u{16d70}', '\u{16d79}'));
    v.push(('\u{1ccf0}', '\u{1ccf9}'));
    v.push(('\u{1d7ce}', '\u{1d7ff}'));
    v.push(('\u{1e140}', '\u{1e149}'));
    v.push(('\u{1e2f0}', '\u{1e2f9}'));
    v.push(('\u{1e4f0}', '\u{1e4f9}'));
    v.push(('\u{1e5f1}', '\u{1e5fa}'));
    v.push(('\u{1e950}', '\u{1e959}'));
    v.push(('\u{1fbf0}', '\u{1fbf9}'));
    proof {
        assert(v@ =~= decimal_number_part_1_ranges());
    }
    v
}

/// Build the table of [`decimal_number_ranges`].
pub fn decimal_number_table() -> (r: Vec<(char, char)>)
    ensures
        r@ == decimal_number_ranges(),
{
    let mut v: Vec<(char, char)> = decimal_number_part_0_table();
    let mut part_1: Vec<(char, char)> = decimal_number_part_1_table();
    v.append(&mut part_1);
    v
}

/// One stretch of the `word-character` ranges.
pub closed spec fn perl_word_part_0_ranges() -> Seq<(char, char)> {
    seq![
        ('0', '9'),
        ('A', 'Z'),
        ('_', '_'),
        ('a', 'z'),
        ('\u{aa}', '\u{aa}'),
        ('\u{b5}', '\u{b5}'),
        ('\u{ba}', '\u{ba}'),
        ('\u{c0}', '\u{d6}'),
        ('\u{d8}', '\u{f6}'),
        ('\u{f8}', '\u{2c1}'),
        ('\u{2c6}', '\u{2d1}'),
        ('\u{2e0}', '\u{2e4}'),
        ('\u{2ec}', '\u{2ec}'),
        ('\u{2ee}', '\u{2ee}'),
        ('\u{300}', '\u{374}'),
        ('\u{376}', '\u{377}'),
        ('\u{37a}', '\u{37d}'),
        ('\u{37f}', '\u{37f}'),
        ('\u{386}', '\u{386}'),
        ('\u{388}', '\u{38a}'),
        ('\u{38c}', '\u{38c}'),
        ('\u{38e}', '\u{3a1}'),
        ('\u{3a3}', '\u{3f5}'),
        ('\u{3f7}', '\u{481}'),
        ('\u{483}', '\u{52f}'),
        ('\u{531}', '\u{556}'),
        ('\u{559}', '\u{559}'),
        ('\u{560}', '\u{588}'),
        ('\u{591}', '\u{5bd}'),
        ('\u{5bf}', '\u{5bf}'),
        ('\u{5c1}', '\u{5c2}'),
        ('\u{5c4}', '\u{5c5}'),
        ('\u{5c7}', '\u{5c7}'),
        ('\u{5d0}', '\u{5ea}'),
        ('\u{5ef}', '\u{5f2}'),
        ('\u{610}', '\u{61a}'),
        ('\u{620}', '\u{669}'),
        ('\u{66e}', '\u{6d3}'),
        ('\u{6d5}', '\u{6dc}'),
        ('\u{6df}', '\u{6e8}'),
        ('\u{6ea}', '\u{6fc}'),
        ('\u{6ff}', '\u{6ff}'),
        ('\u{710}', '\u{74a}'),
        ('\u{74d}', '\u{7b1}'),
        ('\u{7c0}', '\u{7f5}'),
        ('\u{7fa}', '\u{7fa}'),
        ('\u{7fd}', '\u{7fd}'),
        ('\u{800}', '\u{82d}'),
        ('\u{840}', '\u{85b}'),
        ('\u{860}', '\u{86a}'),
    ]
}

/// One stretch of the `word-character` ranges.
pub closed spec fn perl_word_part_1_ranges() -> Seq<(char, char)> {
    seq![
        ('\u{870}', '\u{887}'),
        ('\u{889}', '\u{88e}'),
        ('\u{897}', '\u{8e1}'),
        ('\u{8e3}', '\u{963}'),
        ('\u{966}', '\u{96f}'),
        ('\u{971}', '\u{983}'),
        ('\u{985}', '\u{98c}'),
        ('\u{98f}', '\u{990}'),
        ('\u{993}', '\u{9a8}'),
        ('\u{9aa}', '\u{9b0}'),
        ('\u{9b2}', '\u{9b2}'),
        ('\u{9b6}', '\u{9b9}'),
        ('\u{9bc}', '\u{9c4}'),
        ('\u{9c7}', '\u{9c8}'),
        ('\u{9cb}', '\u{9ce}'),
        ('\u{9d7}', '\u{9d7}'),
        ('\u{9dc}', '\u{9dd}'),
        ('\u{9df}', '\u{9e3}'),
        ('\u{9e6}', '\u{9f1}'),
        ('\u{9fc}', '\u{9fc}'),
        ('\u{9fe}', '\u{9fe}'),
        ('\u{a01}', '\u{a03}'),
        ('\u{a05}', '\u{a0a}'),
        ('\u{a0f}', '\u{a10}'),
        ('\u{a13}', '\u{a28}'),
        ('\u{a2a}', '\u{a30}'),
        ('\u{a32}', '\u{a33}'),
        ('\u{a35}', '\u{a36}'),
        ('\u{a38}', '\u{a39}'),
        ('\u{a3c}', '\u{a3c}'),
        ('\u{a3e}', '\u{a42}'),
        ('\u{a47}', '\u{a48}'),
        ('\u{a4b}', '\u{a4d}'),
        ('\u{a51}', '\u{a51}'),
        ('\u{a59}', '\u{a5c}'),
        ('\u{a5e}', '\u{a5e}'),
        ('\u{a66}', '\u{a75}'),
        ('\u{a81}', '\u{a83}'),
        ('\u{a85}', '\u{a8d}'),
        ('\u{a8f}', '\u{a91}'),
        ('\u{a93}', '\u{aa8}'),
        ('\u{aaa}', '\u{ab0}'),
        ('\u{ab2}', '\u{ab3}'),
        ('\u{ab5}', '\u{ab9}'),
        ('\u{abc}', '\u{ac5}'),
        ('\u{ac7}', '\u{ac9}'),
        ('\u{acb}', '\u{acd}'),
        ('\u{ad0}', '\u{ad0}'),
        ('\u{ae0}', '\u{ae3}'),
        ('\u{ae6}', '\u{aef}'),
    ]
}

/// One stretch of the `word-character` ranges.
pub closed spec fn perl_word_part_2_ranges() -> Seq<(char, char)> {
    seq![
        ('\u{af9}', '\u{aff}'),
        ('\u{b01}', '\u{b03}'),
        ('\u{b05}', '\u{b0c}'),
        ('\u{b0f}', '\u{b10}'),
        ('\u{b13}', '\u{b28}'),
        ('\u{b2a}', '\u{b30}'),
        ('\u{b32}', '\u{b33}'),
        ('\u{b35}', '\u{b39}'),
        ('\u{b3c}', '\u{b44}'),
        ('\u{b47}', '\u{b48}'),
        ('\u{b4b}', '\u{b4d}'),
        ('\u{b55}', '\u{b57}'),
        ('\u{b5c}', '\u{b5d}'),
        ('\u{b5f}', '\u{b63}'),
        ('\u{b66}', '\u{b6f}'),
        ('\u{b71}', '\u{b71}'),
        ('\u{b82}', '\u{b83}'),
        ('\u{b85}', '\u{b8a}'),
        ('\u{b8e}', '\u{b90}'),
        ('\u{b92}', '\u{b95}'),
        ('\u{b99}', '\u{b9a}'),
        ('\u{b9c}', '\u{b9c}'),
        ('\u{b9e}', '\u{b9f}'),
        ('\u{ba3}', '\u{ba4}'),
        ('\u{ba8}', '\u{baa}'),
        ('\u{bae}', '\u{bb9}'),
        ('\u{bbe}', '\u{bc2}'),
        ('\u{bc6}', '\u{bc8}'),
        ('\u{bca}', '\u{bcd}'),
        ('\u{bd0}', '\u{bd0}'),
        ('\u{bd7}', '\u{bd7}'),
        ('\u{be6}', '\u{bef}'),
        ('\u{c00}', '\u{c0c}'),
        ('\u{c0e}', '\u{c10}'),
        ('\u{c12}', '\u{c28}'),
        ('\u{c2a}', '\u{c39}'),
        ('\u{c3c}', '\u{c44}'),
        ('\u{c46}', '\u{c48}'),
        ('\u{c4a}', '\u{c4d}'),
        ('\u{c55}', '\u{c56}'),
        ('\u{c58}', '\u{c5a}'),
        ('\u{c5d}', '\u{c5d}'),
        ('\u{c60}', '\u{c63}'),
        ('\u{c66}', '\u{c6f}'),
        ('\u{c80}', '\u{c83}'),
        ('\u{c85}', '\u{c8c}'),
        ('\u{c8e}', '\u{c90}'),
        ('\u{c92}', '\u{ca8}'),
        ('\u{caa}', '\u{cb3}'),
        ('\u{cb5}', '\u{cb9}'),
    ]
}

/// One stretch of the `word-character` ranges.
pub closed spec fn perl_word_part_3_ranges() -> Seq<(char, char)> {
    seq![
        ('\u{cbc}', '\u{cc4}'),
        ('\u{cc6}', '\u{cc8}'),
        ('\u{cca}', '\u{ccd}'),
        ('\u{cd5}', '\u{cd6}'),
        ('\u{cdd}', '\u{cde}'),
        ('\u{ce0}', '\u{ce3}'),
        ('\u{ce6}', '\u{cef}'),
        ('\u{cf1}', '\u{cf3}'),
        ('\u{d00}', '\u{d0c}'),
        ('\u{d0e}', '\u{d10}'),
        ('\u{d12}', '\u{d44}'),
        ('\u{d46}', '\u{d48}'),
        ('\u{d4a}', '\u{d4e}'),
        ('\u{d54}', '\u{d57}'),
        ('\u{d5f}', '\u{d63}'),
        ('\u{d66}', '\u{d6f}'),
        ('\u{d7a}', '\u{d7f}'),
        ('\u{d81}', '\u{d83}'),
        ('\u{d85}', '\u{d96}'),
        ('\u{d9a}', '\u{db1}'),
        ('\u{db3}', '\u{dbb}'),
        ('\u{dbd}', '\u{dbd}'),
        ('\u{dc0}', '\u{dc6}'),
        ('\u{dca}', '\u{dca}'),
        ('\u{dcf}', '\u{dd4}'),
        ('\u{dd6}', '\u{dd6}'),
        ('\u{dd8}', '\u{ddf}'),
        ('\u{de6}', '\u{def}'),
        ('\u{df2}', '\u{df3}'),
        ('\u{e01}', '\u{e3a}'),
        ('\u{e40}', '\u{e4e}'),
        ('\u{e50}', '\u{e59}'),
        ('\u{e81}', '\u{e82}'),
        ('\u{e84}', '\u{e84}'),
        ('\u{e86}', '\u{e8a}'),
        ('\u{e8c}', '\u{ea3}'),
        ('\u{ea5}', '\u{ea5}'),
        ('\u{ea7}', '\u{ebd}'),
        ('\u{ec0}', '\u{ec4}'),
        ('\u{ec6}', '\u{ec6}'),
        ('\u{ec8}', '\u{ece}'),
        ('\u{ed0}', '\u{ed9}'),
        ('\u{edc}', '\u{edf}'),
        ('\u{f00}', '\u{f00}'),
        ('\u{f18}', '\u{f19}'),
        ('\u{f20}', '\u{f29}'),
        ('\u{f35}', '\u{f35}'),
        ('\u{f37}', '\u{f37}'),
        ('\u{f39}', '\u{f39}'),
        ('\u{f3e}', '\u{f47}'),
    ]
}

/// One stretch of the `word-character` ranges.
pub closed spec fn perl_word_part_4_ranges() -> Seq<(char, char)> {
    seq![
        ('\u{f49}', '\u{f6c}'),
        ('\u{f71}', '\u{f84}'),
        ('\u{f86}', '\u{f97}'),
        ('\u{f99}', '\u{fbc}'),
        ('\u{fc6}', '\u{fc6}'),
        ('\u{1000}', '\u{1049}'),
        ('\u{1050}', '\u{109d}'),
        ('\u{10a0}', '\u{10c5}'),
        ('\u{10c7}', '\u{10c7}'),
        ('\u{10cd}', '\u{10cd}'),
        ('\u{10d0}', '\u{10fa}'),
        ('\u{10fc}', '\u{1248}'),
        ('\u{124a}', '\u{124d}'),
        ('\u{1250}', '\u{1256}'),
        ('\u{1258}', '\u{1258}'),
        ('\u{125a}', '\u{125d}'),
        ('\u{1260}', '\u{1288}'),
        ('\u{128a}', '\u{128d}'),
        ('\u{1290}', '\u{12b0}'),
        ('\u{12b2}', '\u{12b5}'),
        ('\u{12b8}', '\u{12be}'),
        ('\u{12c0}', '\u{12c0}'),
        ('\u{12c2}', '\u{12c5}'),
        ('\u{12c8}', '\u{12d6}'),
        ('\u{12d8}', '\u{1310}'),
        ('\u{1312}', '\u{1315}'),
        ('\u{1318}', '\u{135a}'),
        ('\u{135d}', '\u{135f}'),
        ('\u{1380}', '\u{138f}'),
        ('\u{13a0}', '\u{13f5}'),
        ('\u{13f8}', '\u{13fd}'),
        ('\u{1401}', '\u{166c}'),
        ('\u{166f}', '\u{167f}'),
        ('\u{1681}', '\u{169a}'),
        ('\u{16a0}', '\u{16ea}'),
        ('\u{16ee}', '\u{16f8}'),
        ('\u{1700}', '\u{1715}'),
        ('\u{171f}', '\u{1734}'),
        ('\u{1740}', '\u{1753}'),
        ('\u{1760}', '\u{176c}'),
        ('\u{176e}', '\u{1770}'),
        ('\u{1772}', '\u{1773}'),
        ('\u{1780}', '\u{17d3}'),
        ('\u{17d7}', '\u{17d7}'),
        ('\u{17dc}', '\u{17dd}'),
        ('\u{17e0}', '\u{17e9}'),
        ('\u{180b}', '\u{180d}'),
        ('\u{180f}', '\u{1819}'),
        ('\u{1820}', '\u{1878}'),
        ('\u{1880}', '\u{18aa}'),
    ]
}

/// One stretch of the `word-character` ranges.
pub closed spec fn perl_word_part_5_ranges() -> Seq<(char, char)> {
    seq![
        ('\u{18b0}', '\u{18f5}'),
        ('\u{1900}', '\u{191e}'),
        ('\u{1920}', '\u{192b}'),
        ('\u{1930}', '\u{193b}'),
        ('\u{1946}', '\u{196d}'),
        ('\u{1970}', '\u{1974}'),
        ('\u{1980}', '\u{19ab}'),
        ('\u{19b0}', '\u{19c9}'),
        ('\u{19d0}', '\u{19d9}'),
        ('\u{1a00}', '\u{1a1b}'),
        ('\u{1a20}', '\u{1a5e}'),
        ('\u{1a60}', '\u{1a7c}'),
        ('\u{1a7f}', '\u{1a89}'),
        ('\u{1a90}', '\u{1a99}'),
        ('\u{1aa7}', '\u{1aa7}'),
        ('\u{1ab0}', '\u{1ace}'),
        ('\u{1b00}', '\u{1b4c}'),
        ('\u{1b50}', '\u{1b59}'),
        ('\u{1b6b}', '\u{1b73}'),
        ('\u{1b80}', '\u{1bf3}'),
        ('\u{1c00}', '\u{1c37}'),
        ('\u{1c40}', '\u{1c49}'),
        ('\u{1c4d}', '\u{1c7d}'),
        ('\u{1c80}', '\u{1c8a}'),
        ('\u{1c90}', '\u{1cba}'),
        ('\u{1cbd}', '\u{1cbf}'),
        ('\u{1cd0}', '\u{1cd2}'),
        ('\u{1cd4}', '\u{1cfa}'),
        ('\u{1d00}', '\u{1f15}'),
        ('\u{1f18}', '\u{1f1d}'),
        ('\u{1f20}', '\u{1f45}'),
        ('\u{1f48}', '\u{1f4d}'),
        ('\u{1f50}', '\u{1f57}'),
        ('\u{1f59}', '\u{1f59}'),
        ('\u{1f5b}', '\u{1f5b}'),
        ('\u{1f5d}', '\u{1f5d}'),
        ('\u{1f5f}', '\u{1f7d}'),
        ('\u{1f80}', '\u{1fb4}'),
        ('\u{1fb6}', '\u{1fbc}'),
        ('\u{1fbe}', '\u{1fbe}'),
        ('\u{1fc2}', '\u{1fc4}'),
        ('\u{1fc6}', '\u{1fcc}'),
        ('\u{1fd0}', '\u{1fd3}'),
        ('\u{1fd6}', '\u{1fdb}'),
        ('\u{1fe0}', '\u{1fec}'),
        ('\u{1ff2}', '\u{1ff4}'),
        ('\u{1ff6}', '\u{1ffc}'),
        ('\u{200c}', '\u{200d}'),
        ('\u{203f}', '\u{2040}'),
        ('\u{2054}', '\u{2054}'),
    ]
}

/// One stretch of the `word-character` ranges.
pub closed spec fn perl_word_part_6_ranges() -> Seq<(char, char)> {
    seq![
        ('\u{2071}', '\u{2071}'),
        ('\u{207f}', '\u{207f}'),
        ('\u{2090}', '\u{209c}'),
        ('\u{20d0}', '\u{20f0}'),
        ('\u{2102}', '\u{2102}'),
        ('\u{2107}', '\u{2107}'),
        ('\u{210a}', '\u{2113}'),
        ('\u{2115}', '\u{2115}'),
        ('\u{2119}', '\u{211d}'),
        ('\u{2124}', '\u{2124}'),
        ('\u{2126}', '\u{2126}'),
        ('\u{2128}', '\u{2128}'),
        ('\u{212a}', '\u{212d}'),
        ('\u{212f}', '\u{2139}'),
        ('\u{213c}', '\u{213f}'),
        ('\u{2145}', '\u{2149}'),
        ('\u{214e}', '\u{214e}'),
        ('\u{2160}', '\u{2188}'),
        ('\u{24b6}', '\u{24e9}'),
        ('\u{2c00}', '\u{2ce4}'),
        ('\u{2ceb}', '\u{2cf3}'),
        ('\u{2d00}', '\u{2d25}'),
        ('\u{2d27}', '\u{2d27}'),
        ('\u{2d2d}', '\u{2d2d}'),
        ('\u{2d30}', '\u{2d67}'),
        ('\u{2d6f}', '\u{2d6f}'),
        ('\u{2d7f}', '\u{2d96}'),
        ('\u{2da0}', '\u{2da6}'),
        ('\u{2da8}', '\u{2dae}'),
        ('\u{2db0}', '\u{2db6}'),
        ('\u{2db8}', '\u{2dbe}'),
        ('\u{2dc0}', '\u{2dc6}'),
        ('\u{2dc8}', '\u{2dce}'),
        ('\u{2dd0}', '\u{2dd6}'),
        ('\u{2dd8}', '\u{2dde}'),
        ('\u{2de0}', '\u{2dff}'),
        ('\u{2e2f}', '\u{2e2f}'),
        ('\u{3005}', '\u{3007}'),
        ('\u{3021}', '\u{302f}'),
        ('\u{3031}', '\u{3035}'),
        ('\u{3038}', '\u{303c}'),
        ('\u{3041}', '\u{3096}'),
        ('\u{3099}', '\u{309a}'),
        ('\u{309d}', '\u{309f}'),
        ('\u{30a1}', '\u{30fa}'),
        ('\u{30fc}', '\u{30ff}'),
        ('\u{3105}', '\u{312f}'),
        ('\u{3131}', '\u{318e}'),
        ('\u{31a0}', '\u{31bf}'),
        ('\u{31f0}', '\u{31ff}'),
    ]
}

/// One stretch of the `word-character` ranges.
pub closed spec fn perl_word_part_7_ranges() -> Seq<(char, char)> {
    seq![
        ('\u{3400}', '\u{4dbf}'),
        ('\u{4e00}', '\u{a48c}'),
        ('\u{a4d0}', '\u{a4fd}'),
        ('\u{a500}', '\u{a60c}'),
        ('\u{a610}', '\u{a62b}'),
        ('\u{a640}', '\u{a672}'),
        ('\u{a674}', '\u{a67d}'),
        ('\u{a67f}', '\u{a6f1}'),
        ('\u{a717}', '\u{a71f}'),
        ('\u{a722}', '\u{a788}'),
        ('\u{a78b}', '\u{a7cd}'),
        ('\u{a7d0}', '\u{a7d1}'),
        ('\u{a7d3}', '\u{a7d3}'),
        ('\u{a7d5}', '\u{a7dc}'),
        ('\u{a7f2}', '\u{a827}'),
        ('\u{a82c}', '\u{a82c}'),
        ('\u{a840}', '\u{a873}'),
        ('\u{a880}', '\u{a8c5}'),
        ('\u{a8d0}', '\u{a8d9}'),
        ('\u{a8e0}', '\u{a8f7}'),
        ('\u{a8fb}', '\u{a8fb}'),
        ('\u{a8fd}', '\u{a92d}'),
        ('\u{a930}', '\u{a953}'),
        ('\u{a960}', '\u{a97c}'),
        ('\u{a980}', '\u{a9c0}'),
        ('\u{a9cf}', '\u{a9d9}'),
        ('\u{a9e0}', '\u{a9fe}'),
        ('\u{aa00}', '\u{aa36}'),
        ('\u{aa40}', '\u{aa4d}'),
        ('\u{aa50}', '\u{aa59}'),
        ('\u{aa60}', '\u{aa76}'),
        ('\u{aa7a}', '\u{aac2}'),
        ('\u{aadb}', '\u{aadd}'),
        ('\u{aae0}', '\u{aaef}'),
        ('\u{aaf2}', '\u{aaf6}'),
        ('\u{ab01}', '\u{ab06}'),
        ('\u{ab09}', '\u{ab0e}'),
        ('\u{ab11}', '\u{ab16}'),
        ('\u{ab20}', '\u{ab26}'),
        ('\u{ab28}', '\u{ab2e}'),
        ('\u{ab30}', '\u{ab5a}'),
        ('\u{ab5c}', '\u{ab69}'),
        ('\u{ab70}', '\u{abea}'),
        ('\u{abec}', '\u{abed}'),
        ('\u{abf0}', '\u{abf9}'),
        ('\u{ac00}', '\u{d7a3}'),
        ('\u{d7b0}', '\u{d7c6}'),
        ('\u{d7cb}', '\u{d7fb}'),
        ('\u{f900}', '\u{fa6d}'),
        ('\u{fa70}', '\u{fad9}'),
    ]
}

/// One stretch of the `word-character` ranges.
pub closed spec fn perl_word_part_8_ranges() -> Seq<(char, char)> {
    seq![
        ('\u{fb00}', '\u{fb06}'),
        ('\u{fb13}', '\u{fb17}'),
        ('\u{fb1d}', '\u{fb28}'),
        ('\u{fb2a}', '\u{fb36}'),
        ('\u{fb38}', '\u{fb3c}'),
        ('\u{fb3e}', '\u{fb3e}'),
        ('\u{fb40}', '\u{fb41}'),
        ('\u{fb43}', '\u{fb44}'),
        ('\u{fb46}', '\u{fbb1}'),
        ('\u{fbd3}', '\u{fd3d}'),
        ('\u{fd50}', '\u{fd8f}'),
        ('\u{fd92}', '\u{fdc7}'),
        ('\u{fdf0}', '\u{fdfb}'),
        ('\u{fe00}', '\u{fe0f}'),
        ('\u{fe20}', '\u{fe2f}'),
        ('\u{fe33}', '\u{fe34}'),
        ('\u{fe4d}', '\u{fe4f}'),
        ('\u{fe70}', '\u{fe74}'),
        ('\u{fe76}', '\u{fefc}'),
        ('\u{ff10}', '\u{ff19}'),
        ('\u{ff21}', '\u{ff3a}'),
        ('\u{ff3f}', '\u{ff3f}'),
        ('\u{ff41}', '\u{ff5a}'),
        ('\u{ff66}', '\u{ffbe}'),
        ('\u{ffc2}', '\u{ffc7}'),
        ('\u{ffca}', '\u{ffcf}'),
        ('\u{ffd2}', '\u{ffd7}'),
        ('\u{ffda}', '\u{ffdc}'),
        ('\u{10000}', '\u{1000b}'),
        ('\u{1000d}', '\u{10026}'),
        ('\u{10028}', '\u{1003a}'),
        ('\u{1003c}', '\u{1003d}'),
        ('\u{1003f}', '\u{1004d}'),
        ('\u{10050}', '\u{1005d}'),
        ('\u{10080}', '\u{100fa}'),
        ('\u{10140}', '\u{10174}'),
        ('\u{101fd}', '\u{101fd}'),
        ('\u{10280}', '\u{1029c}'),
        ('\u{102a0}', '\u{102d0}'),
        ('\u{102e0}', '\u{102e0}'),
        ('\u{10300}', '\u{1031f}'),
        ('\u{1032d}', '\u{1034a}'),
        ('\u{10350}', '\u{1037a}'),
        ('\u{10380}', '\u{1039d}'),
        ('\u{103a0}', '\u{103c3}'),
        ('\u{103c8}', '\u{103cf}'),
        ('\u{103d1}', '\u{103d5}'),
        ('\u{10400}', '\u{1049d}'),
        ('\u{104a0}', '\u{104a9}'),
        ('\u{104b0}', '\u{104d3}'),
    ]
}

/// One stretch of the `word-character` ranges.
pub closed spec fn perl_word_part_9_ranges() -> Seq<(char, char)> {
    seq![
        ('\u{104d8}', '\u{104fb}'),
        ('\u{10500}', '\u{10527}'),
        ('\u{10530}', '\u{10563}'),
        ('\u{10570}', '\u{1057a}'),
        ('\u{1057c}', '\u{1058a}'),
        ('\u{1058c}', '\u{10592}'),
        ('\u{10594}', '\u{10595}'),
        ('\u{10597}', '\u{105a1}'),
        ('\u{105a3}', '\u{105b1}'),
        ('\u{105b3}', '\u{105b9}'),
        ('\u{105bb}', '\u{105bc}'),
        ('\u{105c0}', '\u{105f3}'),
        ('\u{10600}', '\u{10736}'),
        ('\u{10740}', '\u{10755}'),
        ('\u{10760}', '\u{10767}'),
        ('\u{10780}', '\u{10785}'),
        ('\u{10787}', '\u{107b0}'),
        ('\u{107b2}', '\u{107ba}'),
        ('\u{10800}', '\u{10805}'),
        ('\u{10808}', '\u{10808}'),
        ('\u{1080a}', '\u{10835}'),
        ('\u{10837}', '\u{10838}'),
        ('\u{1083c}', '\u{1083c}'),
        ('\u{1083f}', '\u{10855}'),
        ('\u{10860}', '\u{10876}'),
        ('\u{10880}', '\u{1089e}'),
        ('\u{108e0}', '\u{108f2}'),
        ('\u{108f4}', '\u{108f5}'),
        ('\u{10900}', '\u{10915}'),
        ('\u{10920}', '\u{10939}'),
        ('\u{10980}', '\u{109b7}'),
        ('\u{109be}', '\u{109bf}'),
        ('\u{10a00}', '\u{10a03}'),
        ('\u{10a05}', '\u{10a06}'),
        ('\u{10a0c}', '\u{10a13}'),
        ('\u{10a15}', '\u{10a17}'),
        ('\u{10a19}', '\u{10a35}'),
        ('\u{10a38}', '\u{10a3a}'),
        ('\u{10a3f}', '\u{10a3f}'),
        ('\u{10a60}', '\u{10a7c}'),
        ('\u{10a80}', '\u{10a9c}'),
        ('\u{10ac0}', '\u{10ac7}'),
        ('\u{10ac9}', '\u{10ae6}'),
        ('\u{10b00}', '\u{10b35}'),
        ('\u{10b40}', '\u{10b55}'),
        ('\u{10b60}', '\u{10b72}'),
        ('\u{10b80}', '\u{10b91}'),
        ('\u{10c00}', '\u{10c48}'),
        ('\u{10c80}', '\u{10cb2}'),
        ('\u{10cc0}', '\u{10cf2}'),
    ]
}

/// One stretch of the `word-character` ranges.
pub closed spec fn perl_word_part_10_ranges() -> Seq<(char, char)> {
    seq![
        ('\u{10d00}', '\u{10d27}'),
        ('\u{10d30}', '\u{10d39}'),
        ('\u{10d40}', '\u{10d65}'),
        ('\u{10d69}', '\u{10d6d}'),
        ('\u{10d6f}', '\u{10d85}'),
        ('\u{10e80}', '\u{10ea9}'),
        ('\u{10eab}', '\u{10eac}'),
        ('\u{10eb0}', '\u{10eb1}'),
        ('\u{10ec2}', '\u{10ec4}'),
        ('\u{10efc}', '\u{10f1c}'),
        ('\u{10f27}', '\u{10f27}'),
        ('\u{10f30}', '\u{10f50}'),
        ('\u{10f70}', '\u{10f85}'),
        ('\u{10fb0}', '\u{10fc4}'),
        ('\u{10fe0}', '\u{10ff6}'),
        ('\u{11000}', '\u{11046}'),
        ('\u{11066}', '\u{11075}'),
        ('\u{1107f}', '\u{110ba}'),
        ('\u{110c2}', '\u{110c2}'),
        ('\u{110d0}', '\u{110e8}'),
        ('\u{110f0}', '\u{110f9}'),
        ('\u{11100}', '\u{11134}'),
        ('\u{11136}', '\u{1113f}'),
        ('\u{11144}', '\u{11147}'),
        ('\u{11150}', '\u{11173}'),
        ('\u{11176}', '\u{11176}'),
        ('\u{11180}', '\u{111c4}'),
        ('\u{111c9}', '\u{111cc}'),
        ('\u{111ce}', '\u{111da}'),
        ('\u{111dc}', '\u{111dc}'),
        ('\u{11200}', '\u{11211}'),
        ('\u{11213}', '\u{11237}'),
        ('\u{1123e}', '\u{11241}'),
        ('\u{11280}', '\u{11286}'),
        ('\u{11288}', '\u{11288}'),
        ('\u{1128a}', '\u{1128d}'),
        ('\u{1128f}', '\u{1129d}'),
        ('\u{1129f}', '\u{112a8}'),
        ('\u{112b0}', '\u{112ea}'),
        ('\u{112f0}', '\u{112f9}'),
        ('\u{11300}', '\u{11303}'),
        ('\u{11305}', '\u{1130c}'),
        ('\u{1130f}', '\u{11310}'),
        ('\u{11313}', '\u{11328}'),
        ('\u{1132a}', '\u{11330}'),
        ('\u{11332}', '\u{11333}'),
        ('\u{11335}', '\u{11339}'),
        ('\u{1133b}', '\u{11344}'),
        ('\u{11347}', '\u{11348}'),
        ('\u{1134b}', '\u{1134d}'),
    ]
}

/// One stretch of the `word-character` ranges.
pub closed spec fn perl_word_part_11_ranges() -> Seq<(char, char)> {
    seq![
        ('\u{11350}', '\u{11350}'),
        ('\u{11357}', '\u{11357}'),
        ('\u{1135d}', '\u{11363}'),
        ('\u{11366}', '\u{1136c}'),
        ('\u{11370}', '\u{11374}'),
        ('\u{11380}', '\u{11389}'),
        ('\u{1138b}', '\u{1138b}'),
        ('\u{1138e}', '\u{1138e}'),
        ('\u{11390}', '\u{113b5}'),
        ('\u{113b7}', '\u{113c0}'),
        ('\u{113c2}', '\u{113c2}'),
        ('\u{113c5}', '\u{113c5}'),
        ('\u{113c7}', '\u{113ca}'),
        ('\u{113cc}', '\u{113d3}'),
        ('\u{113e1}', '\u{113e2}'),
        ('\u{11400}', '\u{1144a}'),
        ('\u{11450}', '\u{11459}'),
        ('\u{1145e}', '\u{11461}'),
        ('\u{11480}', '\u{114c5}'),
        ('\u{114c7}', '\u{114c7}'),
        ('\u{114d0}', '\u{114d9}'),
        ('\u{11580}', '\u{115b5}'),
        ('\u{115b8}', '\u{115c0}'),
        ('\u{115d8}', '\u{115dd}'),
        ('\u{11600}', '\u{11640}'),
        ('\u{11644}', '\u{11644}'),
        ('\u{11650}', '\u{11659}'),
        ('\u{11680}', '\u{116b8}'),
        ('\u{116c0}', '\u{116c9}'),
        ('\u{116d0}', '\u{116e3}'),
        ('\u{11700}', '\u{1171a}'),
        ('\u{1171d}', '\u{1172b}'),
        ('\u{11730}', '\u{11739}'),
        ('\u{11740}', '\u{11746}'),
        ('\u{11800}', '\u{1183a}'),
        ('\u{118a0}', '\u{118e9}'),
        ('\u{118ff}', '\u{11906}'),
        ('\u{11909}', '\u{11909}'),
        ('\u{1190c}', '\u{11913}'),
        ('\u{11915}', '\u{11916}'),
        ('\u{11918}', '\u{11935}'),
        ('\u{11937}', '\u{11938}'),
        ('\u{1193b}', '\u{11943}'),
        ('\u{11950}', '\u{11959}'),
        ('\u{119a0}', '\u{119a7}'),
        ('\u{119aa}', '\u{119d7}'),
        ('\u{119da}', '\u{119e1}'),
        ('\u{119e3}', '\u{119e4}'),
        ('\u{11a00}', '\u{11a3e}'),
        ('\u{11a47}', '\u{11a47}'),
    ]
}

/// One stretch of the `word-character` ranges.
pub closed spec fn perl_word_part_12_ranges() -> Seq<(char, char)> {
    seq![
        ('\u{11a50}', '\u{11a99}'),
        ('\u{11a9d}', '\u{11a9d}'),
        ('\u{11ab0}', '\u{11af8}'),
        ('\u{11bc0}', '\u{11be0}'),
        ('\u{11bf0}', '\u{11bf9}'),
        ('\u{11c00}', '\u{11c08}'),
        ('\u{11c0a}', '\u{11c36}'),
        ('\u{11c38}', '\u{11c40}'),
        ('\u{11c50}', '\u{11c59}'),
        ('\u{11c72}', '\u{11c8f}'),
        ('\u{11c92}', '\u{11ca7}'),
        ('\u{11ca9}', '\u{11cb6}'),
        ('\u{11d00}', '\u{11d06}'),
        ('\u{11d08}', '\u{11d09}'),
        ('\u{11d0b}', '\u{11d36}'),
        ('\u{11d3a}', '\u{11d3a}'),
        ('\u{11d3c}', '\u{11d3d}'),
        ('\u{11d3f}', '\u{11d47}'),
        ('\u{11d50}', '\u{11d59}'),
        ('\u{11d60}', '\u{11d65}'),
        ('\u{11d67}', '\u{11d68}'),
        ('\u{11d6a}', '\u{11d8e}'),
        ('\u{11d90}', '\u{11d91}'),
        ('\u{11d93}', '\u{11d98}'),
        ('\u{11da0}', '\u{11da9}'),
        ('\u{11ee0}', '\u{11ef6}'),
        ('\u{11f00}', '\u{11f10}'),
        ('\u{11f12}', '\u{11f3a}'),
        ('\u{11f3e}', '\u{11f42}'),
        ('\u{11f50}', '\u{11f5a}'),
        ('\u{11fb0}', '\u{11fb0}'),
        ('\u{12000}', '\u{12399}'),
        ('\u{12400}', '\u{1246e}'),
        ('\u{12480}', '\u{12543}'),
        ('\u{12f90}', '\u{12ff0}'),
        ('\u{13000}', '\u{1342f}'),
        ('\u{13440}', '\u{13455}'),
        ('\u{13460}', '\u{143fa}'),
        ('\u{14400}', '\u{14646}'),
        ('\u{16100}', '\u{16139}'),
        ('\u{16800}', '\u{16a38}'),
        ('\u{16a40}', '\u{16a5e}'),
        ('\u{16a60}', '\u{16a69}'),
        ('\u{16a70}', '\u{16abe}'),
        ('\u{16ac0}', '\u{16ac9}'),
        ('\u{16ad0}', '\u{16aed}'),
        ('\u{16af0}', '\u{16af4}'),
        ('\u{16b00}', '\u{16b36}'),
        ('\u{16b40}', '\u{16b43}'),
        ('\u{16b50}', '\u{16b59}'),
    ]
}

/// One stretch of the `word-character` ranges.
pub closed spec fn perl_word_part_13_ranges() -> Seq<(char, char)> {
    seq![
        ('\u{16b63}', '\u{16b77}'),
        ('\u{16b7d}', '\u{16b8f}'),
        ('\u{16d40}', '\u{16d6c}'),
        ('\u{16d70}', '\u{16d79}'),
        ('\u{16e40}', '\u{16e7f}'),
        ('\u{16f00}', '\u{16f4a}'),
        ('\u{16f4f}', '\u{16f87}'),
        ('\u{16f8f}', '\u{16f9f}'),
        ('\u{16fe0}', '\u{16fe1}'),
        ('\u{16fe3}', '\u{16fe4}'),
        ('\u{16ff0}', '\u{16ff1}'),
        ('\u{17000}', '\u{187f7}'),
        ('\u{18800}', '\u{18cd5}'),
        ('\u{18cff}', '\u{18d08}'),
        ('\u{1aff0}', '\u{1aff3}'),
        ('\u{1aff5}', '\u{1affb}'),
        ('\u{1affd}', '\u{1affe}'),
        ('\u{1b000}', '\u{1b122}'),
        ('\u{1b132}', '\u{1b132}'),
        ('\u{1b150}', '\u{1b152}'),
        ('\u{1b155}', '\u{1b155}'),
        ('\u{1b164}', '\u{1b167}'),
        ('\u{1b170}', '\u{1b2fb}'),
        ('\u{1bc00}', '\u{1bc6a}'),
        ('\u{1bc70}', '\u{1bc7c}'),
        ('\u{1bc80}', '\u{1bc88}'),
        ('\u{1bc90}', '\u{1bc99}'),
        ('\u{1bc9d}', '\u{1bc9e}'),
        ('\u{1ccf0}', '\u{1ccf9}'),
        ('\u{1cf00}', '\u{1cf2d}'),
        ('\u{1cf30}', '\u{1cf46}'),
        ('\u{1d165}', '\u{1d169}'),
        ('\u{1d16d}', '\u{1d172}'),
        ('\u{1d17b}', '\u{1d182}'),
        ('\u{1d185}', '\u{1d18b}'),
        ('\u{1d1aa}', '\u{1d1ad}'),
        ('\u{1d242}', '\u{1d244}'),
        ('\u{1d400}', '\u{1d454}'),
        ('\u{1d456}', '\u{1d49c}'),
        ('\u{1d49e}', '\u{1d49f}'),
        ('\u{1d4a2}', '\u{1d4a2}'),
        ('\u{1d4a5}', '\u{1d4a6}'),
        ('\u{1d4a9}', '\u{1d4ac}'),
        ('\u{1d4ae}', '\u{1d4b9}'),
        ('\u{1d4bb}', '\u{1d4bb}'),
        ('\u{1d4bd}', '\u{1d4c3}'),
        ('\u{1d4c5}', '\u{1d505}'),
        ('\u{1d507}', '\u{1d50a}'),
        ('\u{1d50d}', '\u{1d514}'),
        ('\u{1d516}', '\u{1d51c}'),
    ]
}

/// One stretch of the `word-character` ranges.
pub closed spec fn perl_word_part_14_ranges() -> Seq<(char, char)> {
    seq![
        ('\u{1d51e}', '\u{1d539}'),
        ('\u{1d53b}', '\u{1d53e}'),
        ('\u{1d540}', '\u{1d544}'),
        ('\u{1d546}', '\u{1d546}'),
        ('\u{1d54a}', '\u{1d550}'),
        ('\u{1d552}', '\u{1d6a5}'),
        ('\u{1d6a8}', '\u{1d6c0}'),
        ('\u{1d6c2}', '\u{1d6da}'),
        ('\u{1d6dc}', '\u{1d6fa}'),
        ('\u{1d6fc}', '\u{1d714}'),
        ('\u{1d716}', '\u{1d734}'),
        ('\u{1d736}', '\u{1d74e}'),
        ('\u{1d750}', '\u{1d76e}'),
        ('\u{1d770}', '\u{1d788}'),
        ('\u{1d78a}', '\u{1d7a8}'),
        ('\u{1d7aa}', '\u{1d7c2}'),
        ('\u{1d7c4}', '\u{1d7cb}'),
        ('\u{1d7ce}', '\u{1d7ff}'),
        ('\u{1da00}', '\u{1da36}'),
        ('\u{1da3b}', '\u{1da6c}'),
        ('\u{1da75}', '\u{1da75}'),
        ('\u{1da84}', '\u{1da84}'),
        ('\u{1da9b}', '\u{1da9f}'),
        ('\u{1daa1}', '\u{1daaf}'),
        ('\u{1df00}', '\u{1df1e}'),
        ('\u{1df25}', '\u{1df2a}'),
        ('\u{1e000}', '\u{1e006}'),
        ('\u{1e008}', '\u{1e018}'),
        ('\u{1e01b}', '\u{1e021}'),
        ('\u{1e023}', '\u{1e024}'),
        ('\u{1e026}', '\u{1e02a}'),
        ('\u{1e030}', '\u{1e06d}'),
        ('\u{1e08f}', '\u{1e08f}'),
        ('\u{1e100}', '\u{1e12c}'),
        ('\u{1e130}', '\u{1e13d}'),
        ('\u{1e140}', '\u{1e149}'),
        ('\u{1e14e}', '\u{1e14e}'),
        ('\u{1e290}', '\u{1e2ae}'),
        ('\u{1e2c0}', '\u{1e2f9}'),
        ('\u{1e4d0}', '\u{1e4f9}'),
        ('\u{1e5d0}', '\u{1e5fa}'),
        ('\u{1e7e0}', '\u{1e7e6}'),
        ('\u{1e7e8}', '\u{1e7eb}'),
        ('\u{1e7ed}', '\u{1e7ee}'),
        ('\u{1e7f0}', '\u{1e7fe}'),
        ('\u{1e800}', '\u{1e8c4}'),
        ('\u{1e8d0}', '\u{1e8d6}'),
        ('\u{1e900}', '\u{1e94b}'),
        ('\u{1e950}', '\u{1e959}'),
        ('\u{1ee00}', '\u{1ee03}'),
    ]
}

/// One stretch of the `word-character` ranges.
pub closed spec fn perl_word_part_15_ranges() -> Seq<(char, char)> {
    seq![
        ('\u{1ee05}', '\u{1ee1f}'),
        ('\u{1ee21}', '\u{1ee22}'),
        ('\u{1ee24}', '\u{1ee24}'),
        ('\u{1ee27}', '\u{1ee27}'),
        ('\u{1ee29}', '\u{1ee32}'),
        ('\u{1ee34}', '\u{1ee37}'),
        ('\u{1ee39}', '\u{1ee39}'),
        ('\u{1ee3b}', '\u{1ee3b}'),
        ('\u{1ee42}', '\u{1ee42}'),
        ('\u{1ee47}', '\u{1ee47}'),
        ('\u{1ee49}', '\u{1ee49}'),
        ('\u{1ee4b}', '\u{1ee4b}'),
        ('\u{1ee4d}', '\u{1ee4f}'),
        ('\u{1ee51}', '\u{1ee52}'),
        ('\u{1ee54}', '\u{1ee54}'),
        ('\u{1ee57}', '\u{1ee57}'),
        ('\u{1ee59}', '\u{1ee59}'),
        ('\u{1ee5b}', '\u{1ee5b}'),
        ('\u{1ee5d}', '\u{1ee5d}'),
        ('\u{1ee5f}', '\u{1ee5f}'),
        ('\u{1ee61}', '\u{1ee62}'),
        ('\u{1ee64}', '\u{1ee64}'),
        ('\u{1ee67}', '\u{1ee6a}'),
        ('\u{1ee6c}', '\u{1ee72}'),
        ('\u{1ee74}', '\u{1ee77}'),
        ('\u{1ee79}', '\u{1ee7c}'),
        ('\u{1ee7e}', '\u{1ee7e}'),
        ('\u{1ee80}', '\u{1ee89}'),
        ('\u{1ee8b}', '\u{1ee9b}'),
        ('\u{1eea1}', '\u{1eea3}'),
        ('\u{1eea5}', '\u{1eea9}'),
        ('\u{1eeab}', '\u{1eebb}'),
        ('\u{1f130}', '\u{1f149}'),
        ('\u{1f150}', '\u{1f169}'),
        ('\u{1f170}', '\u{1f189}'),
        ('\u{1fbf0}', '\u{1fbf9}'),
        ('\u{20000}', '\u{2a6df}'),
        ('\u{2a700}', '\u{2b739}'),
        ('\u{2b740}', '\u{2b81d}'),
        ('\u{2b820}', '\u{2cea1}'),
        ('\u{2ceb0}', '\u{2ebe0}'),
        ('\u{2ebf0}', '\u{2ee5d}'),
        ('\u{2f800}', '\u{2fa1d}'),
        ('\u{30000}', '\u{3134a}'),
        ('\u{31350}', '\u{323af}'),
        ('\u{e0100}', '\u{e01ef}'),
    ]
}

/// Ranges of the word characters: the `\\w` class.
pub closed spec fn perl_word_ranges() -> Seq<(char, char)> {
    perl_word_part_0_ranges() + perl_word_part_1_ranges() + perl_word_part_2_ranges() + perl_word_part_3_ranges() + perl_word_part_4_ranges() + perl_word_part_5_ranges() + perl_word_part_6_ranges() + perl_word_part_7_ranges() + perl_word_part_8_ranges() + perl_word_part_9_ranges() + perl_word_part_10_ranges() + perl_word_part_11_ranges() + perl_word_part_12_ranges() + perl_word_part_13_ranges() + perl_word_part_14_ranges() + perl_word_part_15_ranges()
}

/// Build one stretch of the `word-character` range table.
#[verifier::rlimit(100)]
fn perl_word_part_0_table() -> (r: Vec<(char, char)>)
    ensures
        r@ == perl_word_part_0_ranges(),
{
    let mut v: Vec<(char, char)> = Vec::new();
    v.push(('0', '9'));
    v.push(('A', 'Z'));
    v.push(('_', '_'));
    v.push(('a', 'z'));
    v.push(('\u{aa}', '\u{aa}'));
    v.push(('\u{b5}', '\u{b5}'));
    v.push(('\u{ba}', '\u{ba}'));
    v.push(('\u{c0}', '\u{d6}'));
    v.push(('\u{d8}', '\u{f6}'));
    v.push(('\u{f8}', '\u{2c1}'));
    v.push(('\u{2c6}', '\u{2d1}'));
    v.push(('\u{2e0}', '\u{2e4}'));
    v.push(('\u{2ec}', '\u{2ec}'));
    v.push(('\u{2ee}', '\u{2ee}'));
    v.push(('\u{300}', '\u{374}'));
    v.push(('\u{376}', '\u{377}'));
    v.push(('\u{37a}', '\u{37d}'));
    v.push(('\u{37f}', '\u{37f}'));
    v.push(('\u{386}', '\u{386}'));
    v.push(('\u{388}', '\u{38a}'));
    v.push(('\u{38c}', '\u{38c}'));
    v.push(('\u{38e}', '\u{3a1}'));
    v.push(('\u{3a3}', '\u{3f5}'));
    v.push(('\u{3f7}', '\u{481}'));
    v.push(('\u{483}', '\u{52f}'));
    v.push(('\u{531}', '\u{556}'));
    v.push(('\u{559}', '\u{559}'));
    v.push(('\u{560}', '\u{588}'));
    v.push(('\u{591}', '\u{5bd}'));
    v.push(('\u{5bf}', '\u{5bf}'));
    v.push(('\u{5c1}', '\u{5c2}'));
    v.push(('\u{5c4}', '\u{5c5}'));
    v.push(('\u{5c7}', '\u{5c7}'));
    v.push(('\u{5d0}', '\u{5ea}'));
    v.push(('\u{5ef}', '\u{5f2}'));
    v.push(('\u{610}', '\u{61a}'));
    v.push(('\u{620}', '\u{669}'));
    v.push(('\u{66e}', '\u{6d3}'));
    v.push(('\u{6d5}', '\u{6dc}'));
    v.push(('\u{6df}', '\u{6e8}'));
    v.push(('\u{6ea}', '\u{6fc}'));
    v.push(('\u{6ff}', '\u{6ff}'));
    v.push(('\u{710}', '\u{74a}'));
    v.push(('\u{74d}', '\u{7b1}'));
    v.push(('\u{7c0}', '\u{7f5}'));
    v.push(('\u{7fa}', '\u{7fa}'));
    v.push(('\u{7fd}', '\u{7fd}'));
    v.push(('\u{800}', '\u{82d}'));
    v.push(('\u{840}', '\u{85b}'));
    v.push(('\u{860}', '\u{86a}'));
    proof {
        assert(v@ =~= perl_word_part_0_ranges());
    }
    v
}

/// Build one stretch of the `word-character` range table.
#[verifier::rlimit(100)]
fn perl_word_part_1_table() -> (r: Vec<(char, char)>)
    ensures
        r@ == perl_word_part_1_ranges(),
{
    let mut v: Vec<(char, char)> = Vec::new();
    v.push(('\u{870}', '\u{887}'));
    v.push(('\u{889}', '\u{88e}'));
    v.push(('\u{897}', '\u{8e1}'));
    v.push(('\u{8e3}', '\u{963}'));
    v.push(('\u{966}', '\u{96f}'));
    v.push(('\u{971}', '\u{983}'));
    v.push(('\u{985}', '\u{98c}'));
    v.push(('\u{98f}', '\u{990}'));
    v.push(('\u{993}', '\u{9a8}'));
    v.push(('\u{9aa}', '\u{9b0}'));
    v.push(('\u{9b2}', '\u{9b2}'));
    v.push(('\u{9b6}', '\u{9b9}'));
    v.push(('\u{9bc}', '\u{9c4}'));
    v.push(('\u{9c7}', '\u{9c8}'));
    v.push(('\u{9cb}', '\u{9ce}'));
    v.push(('\u{9d7}', '\u{9d7}'));
    v.push(('\u{9dc}', '\u{9dd}'));
    v.push(('\u{9df}', '\u{9e3}'));
    v.push(('\u{9e6}', '\u{9f1}'));
    v.push(('\u{9fc}', '\u{9fc}'));
    v.push(('\u{9fe}', '\u{9fe}'));
    v.push(('\u{a01}', '\u{a03}'));
    v.push(('\u{a05}', '\u{a0a}'));
    v.push(('\u{a0f}', '\u{a10}'));
    v.push(('\u{a13}', '\u{a28}'));
    v.push(('\u{a2a}', '\u{a30}'));
    v.push(('\u{a32}', '\u{a33}'));
    v.push(('\u{a35}', '\u{a36}'));
    v.push(('\u{a38}', '\u{a39}'));
    v.push(('\u{a3c}', '\u{a3c}'));
    v.push(('\u{a3e}', '\u{a42}'));
    v.push(('\u{a47}', '\u{a48}'));
    v.push(('\u{a4b}', '\u{a4d}'));
    v.push(('\u{a51}', '\u{a51}'));
    v.push(('\u{a59}', '\u{a5c}'));
    v.push(('\u{a5e}', '\u{a5e}'));
    v.push(('\u{a66}', '\u{a75}'));
    v.push(('\u{a81}', '\u{a83}'));
    v.push(('\u{a85}', '\u{a8d}'));
    v.push(('\u{a8f}', '\u{a91}'));
    v.push(('\u{a93}', '\u{aa8}'));
    v.push(('\u{aaa}', '\u{ab0}'));
    v.push(('\u{ab2}', '\u{ab3}'));
    v.push(('\u{ab5}', '\u{ab9}'));
    v.push(('\u{abc}', '\u{ac5}'));
    v.push(('\u{ac7}', '\u{ac9}'));
    v.push(('\u{acb}', '\u{acd}'));
    v.push(('\u{ad0}', '\u{ad0}'));
    v.push(('\u{ae0}', '\u{ae3}'));
    v.push(('\u{ae6}', '\u{aef}'));
    proof {
        assert(v@ =~= perl_word_part_1_ranges());
    }
    v
}

/// Build one stretch of the `word-character` range table.
#[verifier::rlimit(100)]
fn perl_word_part_2_table() -> (r: Vec<(char, char)>)
    ensures
        r@ == perl_word_part_2_ranges(),
{
    let mut v: Vec<(char, char)> = Vec::new();
    v.push(('\u{af9}', '\u{aff}'));
    v.push(('\u{b01}', '\u{b03}'));
    v.push(('\u{b05}', '\u{b0c}'));
    v.push(('\u{b0f}', '\u{b10}'));
    v.push(('\u{b13}', '\u{b28}'));
    v.push(('\u{b2a}', '\u{b30}'));
    v.push(('\u{b32}', '\u{b33}'));
    v.push(('\u{b35}', '\u{b39}'));
    v.push(('\u{b3c}', '\u{b44}'));
    v.push(('\u{b47}', '\u{b48}'));
    v.push(('\u{b4b}', '\u{b4d}'));
    v.push(('\u{b55}', '\u{b57}'));
    v.push(('\u{b5c}', '\u{b5d}'));
    v.push(('\u{b5f}', '\u{b63}'));
    v.push(('\u{b66}', '\u{b6f}'));
    v.push(('\u{b71}', '\u{b71}'));
    v.push(('\u{b82}', '\u{b83}'));
    v.push(('\u{b85}', '\u{b8a}'));
    v.push(('\u{b8e}', '\u{b90}'));
    v.push(('\u{b92}', '\u{b95}'));
    v.push(('\u{b99}', '\u{b9a}'));
    v.push(('\u{b9c}', '\u{b9c}'));
    v.push(('\u{b9e}', '\u{b9f}'));
    v.push(('\u{ba3}', '\u{ba4}'));
    v.push(('\u{ba8}', '\u{baa}'));
    v.push(('\u{bae}', '\u{bb9}'));
    v.push(('\u{bbe}', '\u{bc2}'));
    v.push(('\u{bc6}', '\u{bc8}'));
    v.push(('\u{bca}', '\u{bcd}'));
    v.push(('\u{bd0}', '\u{bd0}'));
    v.push(('\u{bd7}', '\u{bd7}'));
    v.push(('\u{be6}', '\u{bef}'));
    v.push(('\u{c00}', '\u{c0c}'));
    v.push(('\u{c0e}', '\u{c10}'));
    v.push(('\u{c12}', '\u{c28}'));
    v.push(('\u{c2a}', '\u{c39}'));
    v.push(('\u{c3c}', '\u{c44}'));
    v.push(('\u{c46}', '\u{c48}'));
    v.push(('\u{c4a}', '\u{c4d}'));
    v.push(('\u{c55}', '\u{c56}'));
    v.push(('\u{c58}', '\u{c5a}'));
    v.push(('\u{c5d}', '\u{c5d}'));
    v.push(('\u{c60}', '\u{c63}'));
    v.push(('\u{c66}', '\u{c6f}'));
    v.push(('\u{c80}', '\u{c83}'));
    v.push(('\u{c85}', '\u{c8c}'));
    v.push(('\u{c8e}', '\u{c90}'));
    v.push(('\u{c92}', '\u{ca8}'));
    v.push(('\u{caa}', '\u{cb3}'));
    v.push(('\u{cb5}', '\u{cb9}'));
    proof {
        assert(v@ =~= perl_word_part_2_ranges());
    }
    v
}

/// Build one stretch of the `word-character` range table.
#[verifier::rlimit(100)]
fn perl_word_part_3_table() -> (r: Vec<(char, char)>)
    ensures
        r@ == perl_word_part_3_ranges(),
{
    let mut v: Vec<(char, char)> = Vec::new();
    v.push(('\u{cbc}', '\u{cc4}'));
    v.push(('\u{cc6}', '\u{cc8}'));
    v.push(('\u{cca}', '\u{ccd}'));
    v.push(('\u{cd5}', '\u{cd6}'));
    v.push(('\u{cdd}', '\u{cde}'));
    v.push(('\u{ce0}', '\u{ce3}'));
    v.push(('\u{ce6}', '\u{cef}'));
    v.push(('\u{cf1}', '\u{cf3}'));
    v.push(('\u{d00}', '\u{d0c}'));
    v.push(('\u{d0e}', '\u{d10}'));
    v.push(('\u{d12}', '\u{d44}'));
    v.push(('\u{d46}', '\u{d48}'));
    v.push(('\u{d4a}', '\u{d4e}'));
    v.push(('\u{d54}', '\u{d57}'));
    v.push(('\u{d5f}', '\u{d63}'));
    v.push(('\u{d66}', '\u{d6f}'));
    v.push(('\u{d7a}', '\u{d7f}'));
    v.push(('\u{d81}', '\u{d83}'));
    v.push(('\u{d85}', '\u{d96}'));
    v.push(('\u{d9a}', '\u{db1}'));
    v.push(('\u{db3}', '\u{dbb}'));
    v.push(('\u{dbd}', '\u{dbd}'));
    v.push(('\u{dc0}', '\u{dc6}'));
    v.push(('\u{dca}', '\u{dca}'));
    v.push(('\u{dcf}', '\u{dd4}'));
    v.push(('\u{dd6}', '\u{dd6}'));
    v.push(('\u{dd8}', '\u{ddf}'));
    v.push(('\u{de6}', '\u{def}'));
    v.push(('\u{df2}', '\u{df3}'));
    v.push(('\u{e01}', '\u{e3a}'));
    v.push(('\u{e40}', '\u{e4e}'));
    v.push(('\u{e50}', '\u{e59}'));
    v.push(('\u{e81}', '\u{e82}'));
    v.push(('\u{e84}', '\u{e84}'));
    v.push(('\u{e86}', '\u{e8a}'));
    v.push(('\u{e8c}', '\u{ea3}'));
    v.push(('\u{ea5}', '\u{ea5}'));
    v.push(('\u{ea7}', '\u{ebd}'));
    v.push(('\u{ec0}', '\u{ec4}'));
    v.push(('\u{ec6}', '\u{ec6}'));
    v.push(('\u{ec8}', '\u{ece}'));
    v.push(('\u{ed0}', '\u{ed9}'));
    v.push(('\u{edc}', '\u{edf}'));
    v.push(('\u{f00}', '\u{f00}'));
    v.push(('\u{f18}', '\u{f19}'));
    v.push(('\u{f20}', '\u{f29}'));
    v.push(('\u{f35}', '\u{f35}'));
    v.push(('\u{f37}', '\u{f37}'));
    v.push(('\u{f39}', '\u{f39}'));
    v.push(('\u{f3e}', '\u{f47}'));
    proof {
        assert(v@ =~= perl_word_part_3_ranges());
    }
    v
}

/// Build one stretch of the `word-character` range table.
#[verifier::rlimit(100)]
fn perl_word_part_4_table() -> (r: Vec<(char, char)>)
    ensures
        r@ == perl_word_part_4_ranges(),
{
    let mut v: Vec<(char, char)> = Vec::new();
    v.push(('\u{f49}', '\u{f6c}'));
    v.push(('\u{f71}', '\u{f84}'));
    v.push(('\u{f86}', '\u{f97}'));
    v.push(('\u{f99}', '\u{fbc}'));
    v.push(('\u{fc6}', '\u{fc6}'));
    v.push(('\u{1000}', '\u{1049}'));
    v.push(('\u{1050}', '\u{109d}'));
    v.push(('\u{10a0}', '\u{10c5}'));
    v.push(('\u{10c7}', '\u{10c7}'));
    v.push(('\u{10cd}', '\u{10cd}'));
    v.push(('\u{10d0}', '\u{10fa}'));
    v.push(('\u{10fc}', '\u{1248}'));
    v.push(('\u{124a}', '\u{124d}'));
    v.push(('\u{1250}', '\u{1256}'));
    v.push(('\u{1258}', '\u{1258}'));
    v.push(('\u{125a}', '\u{125d}'));
    v.push(('\u{1260}', '\u{1288}'));
    v.push(('\u{128a}', '\u{128d}'));
    v.push(('\u{1290}', '\u{12b0}'));
    v.push(('\u{12b2}', '\u{12b5}'));
    v.push(('\u{12b8}', '\u{12be}'));
    v.push(('\u{12c0}', '\u{12c0}'));
    v.push(('\u{12c2}', '\u{12c5}'));
    v.push(('\u{12c8}', '\u{12d6}'));
    v.push(('\u{12d8}', '\u{1310}'));
    v.push(('\u{1312}', '\u{1315}'));
    v.push(('\u{1318}', '\u{135a}'));
    v.push(('\u{135d}', '\u{135f}'));
    v.push(('\u{1380}', '\u{138f}'));
    v.push(('\u{13a0}', '\u{13f5}'));
    v.push(('\u{13f8}', '\u{13fd}'));
    v.push(('\u{1401}', '\u{166c}'));
    v.push(('\u{166f}', '\u{167f}'));
    v.push(('\u{1681}', '\u{169a}'));
    v.push(('\u{16a0}', '\u{16ea}'));
    v.push(('\u{16ee}', '\u{16f8}'));
    v.push(('\u{1700}', '\u{1715}'));
    v.push(('\u{171f}', '\u{1734}'));
    v.push(('\u{1740}', '\u{1753}'));
    v.push(('\u{1760}', '\u{176c}'));
    v.push(('\u{176e}', '\u{1770}'));
    v.push(('\u{1772}', '\u{1773}'));
    v.push(('\u{1780}', '\u{17d3}'));
    v.push(('\u{17d7}', '\u{17d7}'));
    v.push(('\u{17dc}', '\u{17dd}'));
    v.push(('\u{17e0}', '\u{17e9}'));
    v.push(('\u{180b}', '\u{180d}'));
    v.push(('\u{180f}', '\u{1819}'));
    v.push(('\u{1820}', '\u{1878}'));
    v.push(('\u{1880}', '\u{18aa}'));
    proof {
        assert(v@ =~= perl_word_part_4_ranges());
    }
    v
}

/// Build one stretch of the `word-character` range table.
#[verifier::rlimit(100)]
fn perl_word_part_5_table() -> (r: Vec<(char, char)>)
    ensures
        r@ == perl_word_part_5_ranges(),
{
    let mut v: Vec<(char, char)> = Vec::new();
    v.push(('\u{18b0}', '\u{18f5}'));
    v.push(('\u{1900}', '\u{191e}'));
    v.push(('\u{1920}', '\u{192b}'));
    v.push(('\u{1930}', '\u{193b}'));
    v.push(('\u{1946}', '\u{196d}'));
    v.push(('\u{1970}', '\u{1974}'));
    v.push(('\u{1980}', '\u{19ab}'));
    v.push(('\u{19b0}', '\u{19c9}'));
    v.push(('\u{19d0}', '\u{19d9}'));
    v.push(('\u{1a00}', '\u{1a1b}'));
    v.push(('\u{1a20}', '\u{1a5e}'));
    v.push(('\u{1a60}', '\u{1a7c}'));
    v.push(('\u{1a7f}', '\u{1a89}'));
    v.push(('\u{1a90}', '\u{1a99}'));
    v.push(('\u{1aa7}', '\u{1aa7}'));
    v.push(('\u{1ab0}', '\u{1ace}'));
    v.push(('\u{1b00}', '\u{1b4c}'));
    v.push(('\u{1b50}', '\u{1b59}'));
    v.push(('\u{1b6b}', '\u{1b73}'));
    v.push(('\u{1b80}', '\u{1bf3}'));
    v.push(('\u{1c00}', '\u{1c37}'));
    v.push(('\u{1c40}', '\u{1c49}'));
    v.push(('\u{1c4d}', '\u{1c7d}'));
    v.push(('\u{1c80}', '\u{1c8a}'));
    v.push(('\u{1c90}', '\u{1cba}'));
    v.push(('\u{1cbd}', '\u{1cbf}'));
    v.push(('\u{1cd0}', '\u{1cd2}'));
    v.push(('\u{1cd4}', '\u{1cfa}'));
    v.push(('\u{1d00}', '\u{1f15}'));
    v.push(('\u{1f18}', '\u{1f1d}'));
    v.push(('\u{1f20}', '\u{1f45}'));
    v.push(('\u{1f48}', '\u{1f4d}'));
    v.push(('\u{1f50}', '\u{1f57}'));
    v.push(('\u{1f59}', '\u{1f59}'));
    v.push(('\u{1f5b}', '\u{1f5b}'));
    v.push(('\u{1f5d}', '\u{1f5d}'));
    v.push(('\u{1f5f}', '\u{1f7d}'));
    v.push(('\u{1f80}', '\u{1fb4}'));
    v.push(('\u{1fb6}', '\u{1fbc}'));
    v.push(('\u{1fbe}', '\u{1fbe}'));
    v.push(('\u{1fc2}', '\u{1fc4}'));
    v.push(('\u{1fc6}', '\u{1fcc}'));
    v.push(('\u{1fd0}', '\u{1fd3}'));
    v.push(('\u{1fd6}', '\u{1fdb}'));
    v.push(('\u{1fe0}', '\u{1fec}'));
    v.push(('\u{1ff2}', '\u{1ff4}'));
    v.push(('\u{1ff6}', '\u{1ffc}'));
    v.push(('\u{200c}', '\u{200d}'));
    v.push(('\u{203f}', '\u{2040}'));
    v.push(('\u{2054}', '\u{2054}'));
    proof {
        assert(v@ =~= perl_word_part_5_ranges());
    }
    v
}

/// Build one stretch of the `word-character` range table.
#[verifier::rlimit(100)]
fn perl_word_part_6_table() -> (r: Vec<(char, char)>)
    ensures
        r@ == perl_word_part_6_ranges(),
{
    let mut v: Vec<(char, char)> = Vec::new();
    v.push(('\u{2071}', '\u{2071}'));
    v.push(('\u{207f}', '\u{207f}'));
    v.push(('\u{2090}', '\u{209c}'));
    v.push(('\u{20d0}', '\u{20f0}'));
    v.push(('\u{2102}', '\u{2102}'));
    v.push(('\u{2107}', '\u{2107}'));
    v.push(('\u{210a}', '\u{2113}'));
    v.push(('\u{2115}', '\u{2115}'));
    v.push(('\u{2119}', '\u{211d}'));
    v.push(('\u{2124}', '\u{2124}'));
    v.push(('\u{2126}', '\u{2126}'));
    v.push(('\u{2128}', '\u{2128}'));
    v.push(('\u{212a}', '\u{212d}'));
    v.push(('\u{212f}', '\u{2139}'));
    v.push(('\u{213c}', '\u{213f}'));
    v.push(('\u{2145}', '\u{2149}'));
    v.push(('\u{214e}', '\u{214e}'));
    v.push(('\u{2160}', '\u{2188}'));
    v.push(('\u{24b6}', '\u{24e9}'));
    v.push(('\u{2c00}', '\u{2ce4}'));
    v.push(('\u{2ceb}', '\u{2cf3}'));
    v.push(('\u{2d00}', '\u{2d25}'));
    v.push(('\u{2d27}', '\u{2d27}'));
    v.push(('\u{2d2d}', '\u{2d2d}'));
    v.push(('\u{2d30}', '\u{2d67}'));
    v.push(('\u{2d6f}', '\u{2d6f}'));
    v.push(('\u{2d7f}', '\u{2d96}'));
    v.push(('\u{2da0}', '\u{2da6}'));
    v.push(('\u{2da8}', '\u{2dae}'));
    v.push(('\u{2db0}', '\u{2db6}'));
    v.push(('\u{2db8}', '\u{2dbe}'));
    v.push(('\u{2dc0}', '\u{2dc6}'));
    v.push(('\u{2dc8}', '\u{2dce}'));
    v.push(('\u{2dd0}', '\u{2dd6}'));
    v.push(('\u{2dd8}', '\u{2dde}'));
    v.push(('\u{2de0}', '\u{2dff}'));
    v.push(('\u{2e2f}', '\u{2e2f}'));
    v.push(('\u{3005}', '\u{3007}'));
    v.push(('\u{3021}', '\u{302f}'));
    v.push(('\u{3031}', '\u{3035}'));
    v.push(('\u{3038}', '\u{303c}'));
    v.push(('\u{3041}', '\u{3096}'));
    v.push(('\u{3099}', '\u{309a}'));
    v.push(('\u{309d}', '\u{309f}'));
    v.push(('\u{30a1}', '\u{30fa}'));
    v.push(('\u{30fc}', '\u{30ff}'));
    v.push(('\u{3105}', '\u{312f}'));
    v.push(('\u{3131}', '\u{318e}'));
    v.push(('\u{31a0}', '\u{31bf}'));
    v.push(('\u{31f0}', '\u{31ff}'));
    proof {
        assert(v@ =~= perl_word_part_6_ranges());
    }
    v
}

/// Build one stretch of the `word-character` range table.
#[verifier::rlimit(100)]
fn perl_word_part_7_table() -> (r: Vec<(char, char)>)
    ensures
        r@ == perl_word_part_7_ranges(),
{
    let mut v: Vec<(char, char)> = Vec::new();
    v.push(('\u{3400}', '\u{4dbf}'));
    v.push(('\u{4e00}', '\u{a48c}'));
    v.push(('\u{a4d0}', '\u{a4fd}'));
    v.push(('\u{a500}', '\u{a60c}'));
    v.push(('\u{a610}', '\u{a62b}'));
    v.push(('\u{a640}', '\u{a672}'));
    v.push(('\u{a674}', '\u{a67d}'));
    v.push(('\u{a67f}', '\u{a6f1}'));
    v.push(('\u{a717}', '\u{a71f}'));
    v.push(('\u{a722}', '\u{a788}'));
    v.push(('\u{a78b}', '\u{a7cd}'));
    v.push(('\u{a7d0}', '\u{a7d1}'));
    v.push(('\u{a7d3}', '\u{a7d3}'));
    v.push(('\u{a7d5}', '\u{a7dc}'));
    v.push(('\u{a7f2}', '\u{a827}'));
    v.push(('\u{a82c}', '\u{a82c}'));
    v.push(('\u{a840}', '\u{a873}'));
    v.push(('\u{a880}', '\u{a8c5}'));
    v.push(('\u{a8d0}', '\u{a8d9}'));
    v.push(('\u{a8e0}', '\u{a8f7}'));
    v.push(('\u{a8fb}', '\u{a8fb}'));
    v.push(('\u{a8fd}', '\u{a92d}'));
    v.push(('\u{a930}', '\u{a953}'));
    v.push(('\u{a960}', '\u{a97c}'));
    v.push(('\u{a980}', '\u{a9c0}'));
    v.push(('\u{a9cf}', '\u{a9d9}'));
    v.push(('\u{a9e0}', '\u{a9fe}'));
    v.push(('\u{aa00}', '\u{aa36}'));
    v.push(('\u{aa40}', '\u{aa4d}'));
    v.push(('\u{aa50}', '\u{aa59}'));
    v.push(('\u{aa60}', '\u{aa76}'));
    v.push(('\u{aa7a}', '\u{aac2}'));
    v.push(('\u{aadb}', '\u{aadd}'));
    v.push(('\u{aae0}', '\u{aaef}'));
    v.push(('\u{aaf2}', '\u{aaf6}'));
    v.push(('\u{ab01}', '\u{ab06}'));
    v.push(('\u{ab09}', '\u{ab0e}'));
    v.push(('\u{ab11}', '\u{ab16}'));
    v.push(('\u{ab20}', '\u{ab26}'));
    v.push(('\u{ab28}', '\u{ab2e}'));
    v.push(('\u{ab30}', '\u{ab5a}'));
    v.push(('\u{ab5c}', '\u{ab69}'));
    v.push(('\u{ab70}', '\u{abea}'));
    v.push(('\u{abec}', '\u{abed}'));
    v.push(('\u{abf0}', '\u{abf9}'));
    v.push(('\u{ac00}', '\u{d7a3}'));
    v.push(('\u{d7b0}', '\u{d7c6}'));
    v.push(('\u{d7cb}', '\u{d7fb}'));
    v.push(('\u{f900}', '\u{fa6d}'));
    v.push(('\u{fa70}', '\u{fad9}'));
    proof {
        assert(v@ =~= perl_word_part_7_ranges());
    }
    v
}

/// Build one stretch of the `word-character` range table.
#[verifier::rlimit(100)]
fn perl_word_part_8_table() -> (r: Vec<(char, char)>)
    ensures
        r@ == perl_word_part_8_ranges(),
{
    let mut v: Vec<(char, char)> = Vec::new();
    v.push(('\u{fb00}', '\u{fb06}'));
    v.push(('\u{fb13}', '\u{fb17}'));
    v.push(('\u{fb1d}', '\u{fb28}'));
    v.push(('\u{fb2a}', '\u{fb36}'));
    v.push(('\u{fb38}', '\u{fb3c}'));
    v.push(('\u{fb3e}', '\u{fb3e}'));
    v.push(('\u{fb40}', '\u{fb41}'));
    v.push(('\u{fb43}', '\u{fb44}'));
    v.push(('\u{fb46}', '\u{fbb1}'));
    v.push(('\u{fbd3}', '\u{fd3d}'));
    v.push(('\u{fd50}', '\u{fd8f}'));
    v.push(('\u{fd92}', '\u{fdc7}'));
    v.push(('\u{fdf0}', '\u{fdfb}'));
    v.push(('\u{fe00}', '\u{fe0f}'));
    v.push(('\u{fe20}', '\u{fe2f}'));
    v.push(('\u{fe33}', '\u{fe34}'));
    v.push(('\u{fe4d}', '\u{fe4f}'));
    v.push(('\u{fe70}', '\u{fe74}'));
    v.push(('\u{fe76}', '\u{fefc}'));
    v.push(('\u{ff10}', '\u{ff19}'));
    v.push(('\u{ff21}', '\u{ff3a}'));
    v.push(('\u{ff3f}', '\u{ff3f}'));
    v.push(('\u{ff41}', '\u{ff5a}'));
    v.push(('\u{ff66}', '\u{ffbe}'));
    v.push(('\u{ffc2}', '\u{ffc7}'));
    v.push(('\u{ffca}', '\u{ffcf}'));
    v.push(('\u{ffd2}', '\u{ffd7}'));
    v.push(('\u{ffda}', '\u{ffdc}'));
    v.push(('\u{10000}', '\u{1000b}'));
    v.push(('\u{1000d}', '\u{10026}'));
    v.push(('\u{10028}', '\u{1003a}'));
    v.push(('\u{1003c}', '\u{1003d}'));
    v.push(('\u{1003f}', '\u{1004d}'));
    v.push(('\u{10050}', '\u{1005d}'));
    v.push(('\u{10080}', '\u{100fa}'));
    v.push(('\u{10140}', '\u{10174}'));
    v.push(('\u{101fd}', '\u{101fd}'));
    v.push(('\u{10280}', '\u{1029c}'));
    v.push(('\u{102a0}', '\u{102d0}'));
    v.push(('\u{102e0}', '\u{102e0}'));
    v.push(('\u{10300}', '\u{1031f}'));
    v.push(('\u{1032d}', '\u{1034a}'));
    v.push(('\u{10350}', '\u{1037a}'));
    v.push(('\u{10380}', '\u{1039d}'));
    v.push(('\u{103a0}', '\u{103c3}'));
    v.push(('\u{103c8}', '\u{103cf}'));
    v.push(('\u{103d1}', '\u{103d5}'));
    v.push(('\u{10400}', '\u{1049d}'));
    v.push(('\u{104a0}', '\u{104a9}'));
    v.push(('\u{104b0}', '\u{104d3}'));
    proof {
        assert(v@ =~= perl_word_part_8_ranges());
    }
    v
}

/// Build one stretch of the `word-character` range table.
#[verifier::rlimit(100)]
fn perl_word_part_9_table() -> (r: Vec<(char, char)>)
    ensures
        r@ == perl_word_part_9_ranges(),
{
    let mut v: Vec<(char, char)> = Vec::new();
    v.push(('\u{104d8}', '\u{104fb}'));
    v.push(('\u{10500}', '\u{10527}'));
    v.push(('\u{10530}', '\u{10563}'));
    v.push(('\u{10570}', '\u{1057a}'));
    v.push(('\u{1057c}', '\u{1058a}'));
    v.push(('\u{1058c}', '\u{10592}'));
    v.push(('\u{10594}', '\u{10595}'));
    v.push(('\u{10597}', '\u{105a1}'));
    v.push(('\u{105a3}', '\u{105b1}'));
    v.push(('\u{105b3}', '\u{105b9}'));
    v.push(('\u{105bb}', '\u{105bc}'));
    v.push(('\u{105c0}', '\u{105f3}'));
    v.push(('\u{10600}', '\u{10736}'));
    v.push(('\u{10740}', '\u{10755}'));
    v.push(('\u{10760}', '\u{10767}'));
    v.push(('\u{10780}', '\u{10785}'));
    v.push(('\u{10787}', '\u{107b0}'));
    v.push(('\u{107b2}', '\u{107ba}'));
    v.push(('\u{10800}', '\u{10805}'));
    v.push(('\u{10808}', '\u{10808}'));
    v.push(('\u{1080a}', '\u{10835}'));
    v.push(('\u{10837}', '\u{10838}'));
    v.push(('\u{1083c}', '\u{1083c}'));
    v.push(('\u{1083f}', '\u{10855}'));
    v.push(('\u{10860}', '\u{10876}'));
    v.push(('\u{10880}', '\u{1089e}'));
    v.push(('\u{108e0}', '\u{108f2}'));
    v.push(('\u{108f4}', '\u{108f5}'));
    v.push(('\u{10900}', '\u{10915}'));
    v.push(('\u{10920}', '\u{10939}'));
    v.push(('\u{10980}', '\u{109b7}'));
    v.push(('\u{109be}', '\u{109bf}'));
    v.push(('\u{10a00}', '\u{10a03}'));
    v.push(('\u{10a05}', '\u{10a06}'));
    v.push(('\u{10a0c}', '\u{10a13}'));
    v.push(('\u{10a15}', '\u{10a17}'));
    v.push(('\u{10a19}', '\u{10a35}'));
    v.push(('\u{10a38}', '\u{10a3a}'));
    v.push(('\u{10a3f}', '\u{10a3f}'));
    v.push(('\u{10a60}', '\u{10a7c}'));
    v.push(('\u{10a80}', '\u{10a9c}'));
    v.push(('\u{10ac0}', '\u{10ac7}'));
    v.push(('\u{10ac9}', '\u{10ae6}'));
    v.push(('\u{10b00}', '\u{10b35}'));
    v.push(('\u{10b40}', '\u{10b55}'));
    v.push(('\u{10b60}', '\u{10b72}'));
    v.push(('\u{10b80}', '\u{10b91}'));
    v.push(('\u{10c00}', '\u{10c48}'));
    v.push(('\u{10c80}', '\u{10cb2}'));
    v.push(('\u{10cc0}', '\u{10cf2}'));
    proof {
        assert(v@ =~= perl_word_part_9_ranges());
    }
    v
}

/// Build one stretch of the `word-character` range table.
#[verifier::rlimit(100)]
fn perl_word_part_10_table() -> (r: Vec<(char, char)>)
    ensures
        r@ == perl_word_part_10_ranges(),
{
    let mut v: Vec<(char, char)> = Vec::new();
    v.push(('\u{10d00}', '\u{10d27}'));
    v.push(('\u{10d30}', '\u{10d39}'));
    v.push(('\u{10d40}', '\u{10d65}'));
    v.push(('\u{10d69}', '\u{10d6d}'));
    v.push(('\u{10d6f}', '\u{10d85}'));
    v.push(('\u{10e80}', '\u{10ea9}'));
    v.push(('\u{10eab}', '\u{10eac}'));
    v.push(('\u{10eb0}', '\u{10eb1}'));
    v.push(('\u{10ec2}', '\u{10ec4}'));
    v.push(('\u{10efc}', '\u{10f1c}'));
    v.push(('\u{10f27}', '\u{10f27}'));
    v.push(('\u{10f30}', '\u{10f50}'));
    v.push(('\u{10f70}', '\u{10f85}'));
    v.push(('\u{10fb0}', '\u{10fc4}'));
    v.push(('\u{10fe0}', '\u{10ff6}'));
    v.push(('\u{11000}', '\u{11046}'));
    v.push(('\u{11066}', '\u{11075}'));
    v.push(('\u{1107f}', '\u{110ba}'));
    v.push(('\u{110c2}', '\u{110c2}'));
    v.push(('\u{110d0}', '\u{110e8}'));
    v.push(('\u{110f0}', '\u{110f9}'));
    v.push(('\u{11100}', '\u{11134}'));
    v.push(('\u{11136}', '\u{1113f}'));
    v.push(('\u{11144}', '\u{11147}'));
    v.push(('\u{11150}', '\u{11173}'));
    v.push(('\u{11176}', '\u{11176}'));
    v.push(('\u{11180}', '\u{111c4}'));
    v.push(('\u{111c9}', '\u{111cc}'));
    v.push(('\u{111ce}', '\u{111da}'));
    v.push(('\u{111dc}', '\u{111dc}'));
    v.push(('\u{11200}', '\u{11211}'));
    v.push(('\u{11213}', '\u{11237}'));
    v.push(('\u{1123e}', '\u{11241}'));
    v.push(('\u{11280}', '\u{11286}'));
    v.push(('\u{11288}', '\u{11288}'));
    v.push(('\u{1128a}', '\u{1128d}'));
    v.push(('\u{1128f}', '\u{1129d}'));
    v.push(('\u{1129f}', '\u{112a8}'));
    v.push(('\u{112b0}', '\u{112ea}'));
    v.push(('\u{112f0}', '\u{112f9}'));
    v.push(('\u{11300}', '\u{11303}'));
    v.push(('\u{11305}', '\u{1130c}'));
    v.push(('\u{1130f}', '\u{11310}'));
    v.push(('\u{11313}', '\u{11328}'));
    v.push(('\u{1132a}', '\u{11330}'));
    v.push(('\u{11332}', '\u{11333}'));
    v.push(('\u{11335}', '\u{11339}'));
    v.push(('\u{1133b}', '\u{11344}'));
    v.push(('\u{11347}', '\u{11348}'));
    v.push(('\u{1134b}', '\u{1134d}'));
    proof {
        assert(v@ =~= perl_word_part_10_ranges());
    }
    v
}

/// Build one stretch of the `word-character` range table.
#[verifier::rlimit(100)]
fn perl_word_part_11_table() -> (r: Vec<(char, char)>)
    ensures
        r@ == perl_word_part_11_ranges(),
{
    let mut v: Vec<(char, char)> = Vec::new();
    v.push(('\u{11350}', '\u{11350}'));
    v.push(('\u{11357}', '\u{11357}'));
    v.push(('\u{1135d}', '\u{11363}'));
    v.push(('\u{11366}', '\u{1136c}'));
    v.push(('\u{11370}', '\u{11374}'));
    v.push(('\u{11380}', '\u{11389}'));
    v.push(('\u{1138b}', '\u{1138b}'));
    v.push(('\u{1138e}', '\u{1138e}'));
    v.push(('\u{11390}', '\u{113b5}'));
    v.push(('\u{113b7}', '\u{113c0}'));
    v.push(('\u{113c2}', '\u{113c2}'));
    v.push(('\u{113c5}', '\u{113c5}'));
    v.push(('\u{113c7}', '\u{113ca}'));
    v.push(('\u{113cc}', '\u{113d3}'));
    v.push(('\u{113e1}', '\u{113e2}'));
    v.push(('\u{11400}', '\u{1144a}'));
    v.push(('\u{11450}', '\u{11459}'));
    v.push(('\u{1145e}', '\u{11461}'));
    v.push(('\u{11480}', '\u{114c5}'));
    v.push(('\u{114c7}', '\u{114c7}'));
    v.push(('\u{114d0}', '\u{114d9}'));
    v.push(('\u{11580}', '\u{115b5}'));
    v.push(('\u{115b8}', '\u{115c0}'));
    v.push(('\u{115d8}', '\u{115dd}'));
    v.push(('\u{11600}', '\u{11640}'));
    v.push(('\u{11644}', '\u{11644}'));
    v.push(('\u{11650}', '\u{11659}'));
    v.push(('\u{11680}', '\u{116b8}'));
    v.push(('\u{116c0}', '\u{116c9}'));
    v.push(('\u{116d0}', '\u{116e3}'));
    v.push(('\u{11700}', '\u{1171a}'));
    v.push(('\u{1171d}', '\u{1172b}'));
    v.push(('\u{11730}', '\u{11739}'));
    v.push(('\u{11740}', '\u{11746}'));
    v.push(('\u{11800}', '\u{1183a}'));
    v.push(('\u{118a0}', '\u{118e9}'));
    v.push(('\u{118ff}', '\u{11906}'));
    v.push(('\u{11909}', '\u{11909}'));
    v.push(('\u{1190c}', '\u{11913}'));
    v.push(('\u{11915}', '\u{11916}'));
    v.push(('\u{11918}', '\u{11935}'));
    v.push(('\u{11937}', '\u{11938}'));
    v.push(('\u{1193b}', '\u{11943}'));
    v.push(('\u{11950}', '\u{11959}'));
    v.push(('\u{119a0}', '\u{119a7}'));
    v.push(('\u{119aa}', '\u{119d7}'));
    v.push(('\u{119da}', '\u{119e1}'));
    v.push(('\u{119e3}', '\u{119e4}'));
    v.push(('\u{11a00}', '\u{11a3e}'));
    v.push(('\u{11a47}', '\u{11a47}'));
    proof {
        assert(v@ =~= perl_word_part_11_ranges());
    }
    v
}

/// Build one stretch of the `word-character` range table.
#[verifier::rlimit(100)]
fn perl_word_part_12_table() -> (r: Vec<(char, char)>)
    ensures
        r@ == perl_word_part_12_ranges(),
{
    let mut v: Vec<(char, char)> = Vec::new();
    v.push(('\u{11a50}', '\u{11a99}'));
    v.push(('\u{11a9d}', '\u{11a9d}'));
    v.push(('\u{11ab0}', '\u{11af8}'));
    v.push(('\u{11bc0}', '\u{11be0}'));
    v.push(('\u{11bf0}', '\u{11bf9}'));
    v.push(('\u{11c00}', '\u{11c08}'));
    v.push(('\u{11c0a}', '\u{11c36}'));
    v.push(('\u{11c38}', '\u{11c40}'));
    v.push(('\u{11c50}', '\u{11c59}'));
    v.push(('\u{11c72}', '\u{11c8f}'));
    v.push(('\u{11c92}', '\u{11ca7}'));
    v.push(('\u{11ca9}', '\u{11cb6}'));
    v.push(('\u{11d00}', '\u{11d06}'));
    v.push(('\u{11d08}', '\u{11d09}'));
    v.push(('\u{11d0b}', '\u{11d36}'));
    v.push(('\u{11d3a}', '\u{11d3a}'));
    v.push(('\u{11d3c}', '\u{11d3d}'));
    v.push(('\u{11d3f}', '\u{11d47}'));
    v.push(('\u{11d50}', '\u{11d59}'));
    v.push(('\u{11d60}', '\u{11d65}'));
    v.push(('\u{11d67}', '\u{11d68}'));
    v.push(('\u{11d6a}', '\u{11d8e}'));
    v.push(('\u{11d90}', '\u{11d91}'));
    v.push(('\u{11d93}', '\u{11d98}'));
    v.push(('\u{11da0}', '\u{11da9}'));
    v.push(('\u{11ee0}', '\u{11ef6}'));
    v.push(('\u{11f00}', '\u{11f10}'));
    v.push(('\u{11f12}', '\u{11f3a}'));
    v.push(('\u{11f3e}', '\u{11f42}'));
    v.push(('\u{11f50}', '\u{11f5a}'));
    v.push(('\u{11fb0}', '\u{11fb0}'));
    v.push(('\u{12000}', '\u{12399}'));
    v.push(('\u{12400}', '\u{1246e}'));
    v.push(('\u{12480}', '\u{12543}'));
    v.push(('\u{12f90}', '\u{12ff0}'));
    v.push(('\u{13000}', '\u{1342f}'));
    v.push(('\u{13440}', '\u{13455}'));
    v.push(('\u{13460}', '\u{143fa}'));
    v.push(('\u{14400}', '\u{14646}'));
    v.push(('\u{16100}', '\u{16139}'));
    v.push(('\u{16800}', '\u{16a38}'));
    v.push(('\u{16a40}', '\u{16a5e}'));
    v.push(('\u{16a60}', '\u{16a69}'));
    v.push(('\u{16a70}', '\u{16abe}'));
    v.push(('\u{16ac0}', '\u{16ac9}'));
    v.push(('\u{16ad0}', '\u{16aed}'));
    v.push(('\u{16af0}', '\u{16af4}'));
    v.push(('\u{16b00}', '\u{16b36}'));
    v.push(('\u{16b40}', '\u{16b43}'));
    v.push(('\u{16b50}', '\u{16b59}'));
    proof {
        assert(v@ =~= perl_word_part_12_ranges());
    }
    v
}

/// Build one stretch of the `word-character` range table.
#[verifier::rlimit(100)]
fn perl_word_part_13_table() -> (r: Vec<(char, char)>)
    ensures
        r@ == perl_word_part_13_ranges(),
{
    let mut v: Vec<(char, char)> = Vec::new();
    v.push(('\u{16b63}', '\u{16b77}'));
    v.push(('\u{16b7d}', '\u{16b8f}'));
    v.push(('\u{16d40}', '\u{16d6c}'));
    v.push(('\u{16d70}', '\u{16d79}'));
    v.push(('\u{16e40}', '\u{16e7f}'));
    v.push(('\u{16f00}', '\u{16f4a}'));
    v.push(('\u{16f4f}', '\u{16f87}'));
    v.push(('\u{16f8f}', '\u{16f9f}'));
    v.push(('\u{16fe0}', '\u{16fe1}'));
    v.push(('\u{16fe3}', '\u{16fe4}'));
    v.push(('\u{16ff0}', '\u{16ff1}'));
    v.push(('\u{17000}', '\u{187f7}'));
    v.push(('\u{18800}', '\u{18cd5}'));
    v.push(('\u{18cff}', '\u{18d08}'));
    v.push(('\u{1aff0}', '\u{1aff3}'));
    v.push(('\u{1aff5}', '\u{1affb}'));
    v.push(('\u{1affd}', '\u{1affe}'));
    v.push(('\u{1b000}', '\u{1b122}'));
    v.push(('\u{1b132}', '\u{1b132}'));
    v.push(('\u{1b150}', '\u{1b152}'));
    v.push(('\u{1b155}', '\u{1b155}'));
    v.push(('\u{1b164}', '\u{1b167}'));
    v.push(('\u{1b170}', '\u{1b2fb}'));
    v.push(('\u{1bc00}', '\u{1bc6a}'));
    v.push(('\u{1bc70}', '\u{1bc7c}'));
    v.push(('\u{1bc80}', '\u{1bc88}'));
    v.push(('\u{1bc90}', '\u{1bc99}'));
    v.push(('\u{1bc9d}', '\u{1bc9e}'));
    v.push(('\u{1ccf0}', '\u{1ccf9}'));
    v.push(('\u{1cf00}', '\u{1cf2d}'));
    v.push(('\u{1cf30}', '\u{1cf46}'));
    v.push(('\u{1d165}', '\u{1d169}'));
    v.push(('\u{1d16d}', '\u{1d172}'));
    v.push(('\u{1d17b}', '\u{1d182}'));
    v.push(('\u{1d185}', '\u{1d18b}'));
    v.push(('\u{1d1aa}', '\u{1d1ad}'));
    v.push(('\u{1d242}', '\u{1d244}'));
    v.push(('\u{1d400}', '\u{1d454}'));
    v.push(('\u{1d456}', '\u{1d49c}'));
    v.push(('\u{1d49e}', '\u{1d49f}'));
    v.push(('\u{1d4a2}', '\u{1d4a2}'));
    v.push(('\u{1d4a5}', '\u{1d4a6}'));
    v.push(('\u{1d4a9}', '\u{1d4ac}'));
    v.push(('\u{1d4ae}', '\u{1d4b9}'));
    v.push(('\u{1d4bb}', '\u{1d4bb}'));
    v.push(('\u{1d4bd}', '\u{1d4c3}'));
    v.push(('\u{1d4c5}', '\u{1d505}'));
    v.push(('\u{1d507}', '\u{1d50a}'));
    v.push(('\u{1d50d}', '\u{1d514}'));
    v.push(('\u{1d516}', '\u{1d51c}'));
    proof {
        assert(v@ =~= perl_word_part_13_ranges());
    }
    v
}

/// Build one stretch of the `word-character` range table.
#[verifier::rlimit(100)]
fn perl_word_part_14_table() -> (r: Vec<(char, char)>)
    ensures
        r@ == perl_word_part_14_ranges(),
{
    let mut v: Vec<(char, char)> = Vec::new();
    v.push(('\u{1d51e}', '\u{1d539}'));
    v.push(('\u{1d53b}', '\u{1d53e}'));
    v.push(('\u{1d540}', '\u{1d544}'));
    v.push(('\u{1d546}', '\u{1d546}'));
    v.push(('\u{1d54a}', '\u{1d550}'));
    v.push(('\u{1d552}', '\u{1d6a5}'));
    v.push(('\u{1d6a8}', '\u{1d6c0}'));
    v.push(('\u{1d6c2}', '\u{1d6da}'));
    v.push(('\u{1d6dc}', '\u{1d6fa}'));
    v.push(('\u{1d6fc}', '\u{1d714}'));
    v.push(('\u{1d716}', '\u{1d734}'));
    v.push(('\u{1d736}', '\u{1d74e}'));
    v.push(('\u{1d750}', '\u{1d76e}'));
    v.push(('\u{1d770}', '\u{1d788}'));
    v.push(('\u{1d78a}', '\u{1d7a8}'));
    v.push(('\u{1d7aa}', '\u{1d7c2}'));
    v.push(('\u{1d7c4}', '\u{1d7cb}'));
    v.push(('\u{1d7ce}', '\u{1d7ff}'));
    v.push(('\u{1da00}', '\u{1da36}'));
    v.push(('\u{1da3b}', '\u{1da6c}'));
    v.push(('\u{1da75}', '\u{1da75}'));
    v.push(('\u{1da84}', '\u{1da84}'));
    v.push(('\u{1da9b}', '\u{1da9f}'));
    v.push(('\u{1daa1}', '\u{1daaf}'));
    v.push(('\u{1df00}', '\u{1df1e}'));
    v.push(('\u{1df25}', '\u{1df2a}'));
    v.push(('\u{1e000}', '\u{1e006}'));
    v.push(('\u{1e008}', '\u{1e018}'));
    v.push(('\u{1e01b}', '\u{1e021}'));
    v.push(('\u{1e023}', '\u{1e024}'));
    v.push(('\u{1e026}', '\u{1e02a}'));
    v.push(('\u{1e030}', '\u{1e06d}'));
    v.push(('\u{1e08f}', '\u{1e08f}'));
    v.push(('\u{1e100}', '\u{1e12c}'));
    v.push(('\u{1e130}', '\u{1e13d}'));
    v.push(('\u{1e140}', '\u{1e149}'));
    v.push(('\u{1e14e}', '\u{1e14e}'));
    v.push(('\u{1e290}', '\u{1e2ae}'));
    v.push(('\u{1e2c0}', '\u{1e2f9}'));
    v.push(('\u{1e4d0}', '\u{1e4f9}'));
    v.push(('\u{1e5d0}', '\u{1e5fa}'));
    v.push(('\u{1e7e0}', '\u{1e7e6}'));
    v.push(('\u{1e7e8}', '\u{1e7eb}'));
    v.push(('\u{1e7ed}', '\u{1e7ee}'));
    v.push(('\u{1e7f0}', '\u{1e7fe}'));
    v.push(('\u{1e800}', '\u{1e8c4}'));
    v.push(('\u{1e8d0}', '\u{1e8d6}'));
    v.push(('\u{1e900}', '\u{1e94b}'));
    v.push(('\u{1e950}', '\u{1e959}'));
    v.push(('\u{1ee00}', '\u{1ee03}'));
    proof {
        assert(v@ =~= perl_word_part_14_ranges());
    }
    v
}

/// Build one stretch of the `word-character` range table.
#[verifier::rlimit(100)]
fn perl_word_part_15_table() -> (r: Vec<(char, char)>)
    ensures
        r@ == perl_word_part_15_ranges(),
{
    let mut v: Vec<(char, char)> = Vec::new();
    v.push(('\u{1ee05}', '\u{1ee1f}'));
    v.push(('\u{1ee21}', '\u{1ee22}'));
    v.push(('\u{1ee24}', '\u{1ee24}'));
    v.push(('\u{1ee27}', '\u{1ee27}'));
    v.push(('\u{1ee29}', '\u{1ee32}'));
    v.push(('\u{1ee34}', '\u{1ee37}'));
    v.push(('\u{1ee39}', '\u{1ee39}'));
    v.push(('\u{1ee3b}', '\u{1ee3b}'));
    v.push(('\u{1ee42}', '\u{1ee42}'));
    v.push(('\u{1ee47}', '\u{1ee47}'));
    v.push(('\u{1ee49}', '\u{1ee49}'));
    v.push(('\u{1ee4b}', '\u{1ee4b}'));
    v.push(('\u{1ee4d}', '\u{1ee4f}'));
    v.push(('\u{1ee51}', '\u{1ee52}'));
    v.push(('\u{1ee54}', '\u{1ee54}'));
    v.push(('\u{1ee57}', '\u{1ee57}'));
    v.push(('\u{1ee59}', '\u{1ee59}'));
    v.push(('\u{1ee5b}', '\u{1ee5b}'));
    v.push(('\u{1ee5d}', '\u{1ee5d}'));
    v.push(('\u{1ee5f}', '\u{1ee5f}'));
    v.push(('\u{1ee61}', '\u{1ee62}'));
    v.push(('\u{1ee64}', '\u{1ee64}'));
    v.push(('\u{1ee67}', '\u{1ee6a}'));
    v.push(('\u{1ee6c}', '\u{1ee72}'));
    v.push(('\u{1ee74}', '\u{1ee77}'));
    v.push(('\u{1ee79}', '\u{1ee7c}'));
    v.push(('\u{1ee7e}', '\u{1ee7e}'));
    v.push(('\u{1ee80}', '\u{1ee89}'));
    v.push(('\u{1ee8b}', '\u{1ee9b}'));
    v.push(('\u{1eea1}', '\u{1eea3}'));
    v.push(('\u{1eea5}', '\u{1eea9}'));
    v.push(('\u{1eeab}', '\u{1eebb}'));
    v.push(('\u{1f130}', '\u{1f149}'));
    v.push(('\u{1f150}', '\u{1f169}'));
    v.push(('\u{1f170}', '\u{1f189}'));
    v.push(('\u{1fbf0}', '\u{1fbf9}'));
    v.push(('\u{20000}', '\u{2a6df}'));
    v.push(('\u{2a700}', '\u{2b739}'));
    v.push(('\u{2b740}', '\u{2b81d}'));
    v.push(('\u{2b820}', '\u{2cea1}'));
    v.push(('\u{2ceb0}', '\u{2ebe0}'));
    v.push(('\u{2ebf0}', '\u{2ee5d}'));
    v.push(('\u{2f800}', '\u{2fa1d}'));
    v.push(('\u{30000}', '\u{3134a}'));
    v.push(('\u{31350}', '\u{323af}'));
    v.push(('\u{e0100}', '\u{e01ef}'));
    proof {
        assert(v@ =~= perl_word_part_15_ranges());
    }
    v
}

/// Build the table of [`perl_word_ranges`].
pub fn perl_word_table() -> (r: Vec<(char, char)>)
    ensures
        r@ == perl_word_ranges(),
{
    let mut v: Vec<(char, char)> = perl_word_part_0_table();
    let mut part_1: Vec<(char, char)> = perl_word_part_1_table();
    v.append(&mut part_1);
    let mut part_2: Vec<(char, char)> = perl_word_part_2_table();
    v.append(&mut part_2);
    let mut part_3: Vec<(char, char)> = perl_word_part_3_table();
    v.append(&mut part_3);
    let mut part_4: Vec<(char, char)> = perl_word_part_4_table();
    v.append(&mut part_4);
    let mut part_5: Vec<(char, char)> = perl_word_part_5_table();
    v.append(&mut part_5);
    let mut part_6: Vec<(char, char)> = perl_word_part_6_table();
    v.append(&mut part_6);
    let mut part_7: Vec<(char, char)> = perl_word_part_7_table();
    v.append(&mut part_7);
    let mut part_8: Vec<(char, char)> = perl_word_part_8_table();
    v.append(&mut part_8);
    let mut part_9: Vec<(char, char)> = perl_word_part_9_table();
    v.append(&mut part_9);
    let mut part_10: Vec<(char, char)> = perl_word_part_10_table();
    v.append(&mut part_10);
    let mut part_11: Vec<(char, char)> = perl_word_part_11_table();
    v.append(&mut part_11);
    let mut part_12: Vec<(char, char)> = perl_word_part_12_table();
    v.append(&mut part_12);
    let mut part_13: Vec<(char, char)> = perl_word_part_13_table();
    v.append(&mut part_13);
    let mut part_14: Vec<(char, char)> = perl_word_part_14_table();
    v.append(&mut part_14);
    let mut part_15: Vec<(char, char)> = perl_word_part_15_table();
    v.append(&mut part_15);
    v
}

/// One stretch of the `Close_Punctuation` ranges.
pub closed spec fn close_punctuation_part_0_ranges() -> Seq<(char, char)> {
    seq![
        (')', ')'),
        (']', ']'),
        ('}', '}'),
        ('\u{f3b}', '\u{f3b}'),
        ('\u{f3d}', '\u{f3d}'),
        ('\u{169c}', '\u{169c}'),
        ('\u{2046}', '\u{2046}'),
        ('\u{207e}', '\u{207e}'),
        ('\u{208e}', '\u{208e}'),
        ('\u{2309}', '\u{2309}'),
        ('\u{230b}', '\u{230b}'),
        ('\u{232a}', '\u{232a}'),
        ('\u{2769}', '\u{2769}'),
        ('\u{276b}', '\u{276b}'),
        ('\u{276d}', '\u{276d}'),
        ('\u{276f}', '\u{276f}'),
        ('\u{2771}', '\u{2771}'),
        ('\u{2773}', '\u{2773}'),
        ('\u{2775}', '\u{2775}'),
        ('\u{27c6}', '\u{27c6}'),
        ('\u{27e7}', '\u{27e7}'),
        ('\u{27e9}', '\u{27e9}'),
        ('\u{27eb}', '\u{27eb}'),
        ('\u{27ed}', '\u{27ed}'),
        ('\u{27ef}', '\u{27ef}'),
        ('\u{2984}', '\u{2984}'),
        ('\u{2986}', '\u{2986}'),
        ('\u{2988}', '\u{2988}'),
        ('\u{298a}', '\u{298a}'),
        ('\u{298c}', '\u{298c}'),
        ('\u{298e}', '\u{298e}'),
        ('\u{2990}', '\u{2990}'),
        ('\u{2992}', '\u{2992}'),
        ('\u{2994}', '\u{2994}'),
        ('\u{2996}', '\u{2996}'),
        ('\u{2998}', '\u{2998}'),
        ('\u{29d9}', '\u{29d9}'),
        ('\u{29db}', '\u{29db}'),
        ('\u{29fd}', '\u{29fd}'),
        ('\u{2e23}', '\u{2e23}'),
        ('\u{2e25}', '\u{2e25}'),
        ('\u{2e27}', '\u{2e27}'),
        ('\u{2e29}', '\u{2e29}'),
        ('\u{2e56}', '\u{2e56}'),
        ('\u{2e58}', '\u{2e58}'),
        ('\u{2e5a}', '\u{2e5a}'),
        ('\u{2e5c}', '\u{2e5c}'),
        ('\u{3009}', '\u{3009}'),
        ('\u{300b}', '\u{300b}'),
        ('\u{300d}', '\u{300d}'),
    ]
}

/// One stretch of the `Close_Punctuation` ranges.
pub closed spec fn close_punctuation_part_1_ranges() -> Seq<(char, char)> {
    seq![
        ('\u{300f}', '\u{300f}'),
        ('\u{3011}', '\u{3011}'),
        ('\u{3015}', '\u{3015}'),
        ('\u{3017}', '\u{3017}'),
        ('\u{3019}', '\u{3019}'),
        ('\u{301b}', '\u{301b}'),
        ('\u{301e}', '\u{301f}'),
        ('\u{fd3e}', '\u{fd3e}'),
        ('\u{fe18}', '\u{fe18}'),
        ('\u{fe36}', '\u{fe36}'),
        ('\u{fe38}', '\u{fe38}'),
        ('\u{fe3a}', '\u{fe3a}'),
        ('\u{fe3c}', '\u{fe3c}'),
        ('\u{fe3e}', '\u{fe3e}'),
        ('\u{fe40}', '\u{fe40}'),
        ('\u{fe42}', '\u{fe42}'),
        ('\u{fe44}', '\u{fe44}'),
        ('\u{fe48}', '\u{fe48}'),
        ('\u{fe5a}', '\u{fe5a}'),
        ('\u{fe5c}', '\u{fe5c}'),
        ('\u{fe5e}', '\u{fe5e}'),
        ('\u{ff09}', '\u{ff09}'),
        ('\u{ff3d}', '\u{ff3d}'),
        ('\u{ff5d}', '\u{ff5d}'),
        ('\u{ff60}', '\u{ff60}'),
        ('\u{ff63}', '\u{ff63}'),
    ]
}

/// Ranges of the `Close_Punctuation` class.
pub closed spec fn close_punctuation_ranges() -> Seq<(char, char)> {
    close_punctuation_part_0_ranges() + close_punctuation_part_1_ranges()
}

/// Build one stretch of the `Close_Punctuation` range table.
#[verifier::rlimit(100)]
fn close_punctuation_part_0_table() -> (r: Vec<(char, char)>)
    ensures
        r@ == close_punctuation_part_0_ranges(),
{
    let mut v: Vec<(char, char)> = Vec::new();
    v.push((')', ')'));
    v.push((']', ']'));
    v.push(('}', '}'));
    v.push(('\u{f3b}', '\u{f3b}'));
    v.push(('\u{f3d}', '\u{f3d}'));
    v.push(('\u{169c}', '\u{169c}'));
    v.push(('\u{2046}', '\u{2046}'));
    v.push(('\u{207e}', '\u{207e}'));
    v.push(('\u{208e}', '\u{208e}'));
    v.push(('\u{2309}', '\u{2309}'));
    v.push(('\u{230b}', '\u{230b}'));
    v.push(('\u{232a}', '\u{232a}'));
    v.push(('\u{2769}', '\u{2769}'));
    v.push(('\u{276b}', '\u{276b}'));
    v.push(('\u{276d}', '\u{276d}'));
    v.push(('\u{276f}', '\u{276f}'));
    v.push(('\u{2771}', '\u{2771}'));
    v.push(('\u{2773}', '\u{2773}'));
    v.push(('\u{2775}', '\u{2775}'));
    v.push(('\u{27c6}', '\u{27c6}'));
    v.push(('\u{27e7}', '\u{27e7}'));
    v.push(('\u{27e9}', '\u{27e9}'));
    v.push(('\u{27eb}', '\u{27eb}'));
    v.push(('\u{27ed}', '\u{27ed}'));
    v.push(('\u{27ef}', '\u{27ef}'));
    v.push(('\u{2984}', '\u{2984}'));
    v.push(('\u{2986}', '\u{2986}'));
    v.push(('\u{2988}', '\u{2988}'));
    v.push(('\u{298a}', '\u{298a}'));
    v.push(('\u{298c}', '\u{298c}'));
    v.push(('\u{298e}', '\u{298e}'));
    v.push(('\u{2990}', '\u{2990}'));
    v.push(('\u{2992}', '\u{2992}'));
    v.push(('\u{2994}', '\u{2994}'));
    v.push(('\u{2996}', '\u{2996}'));
    v.push(('\u{2998}', '\u{2998}'));
    v.push(('\u{29d9}', '\u{29d9}'));
    v.push(('\u{29db}', '\u{29db}'));
    v.push(('\u{29fd}', '\u{29fd}'));
    v.push(('\u{2e23}', '\u{2e23}'));
    v.push(('\u{2e25}', '\u{2e25}'));
    v.push(('\u{2e27}', '\u{2e27}'));
    v.push(('\u{2e29}', '\u{2e29}'));
    v.push(('\u{2e56}', '\u{2e56}'));
    v.push(('\u{2e58}', '\u{2e58}'));
    v.push(('\u{2e5a}', '\u{2e5a}'));
    v.push(('\u{2e5c}', '\u{2e5c}'));
    v.push(('\u{3009}', '\u{3009}'));
    v.push(('\u{300b}', '\u{300b}'));
    v.push(('\u{300d}', '\u{300d}'));
    proof {
        assert(v@ =~= close_punctuation_part_0_ranges());
    }
    v
}

/// Build one stretch of the `Close_Punctuation` range table.
#[verifier::rlimit(100)]
fn close_punctuation_part_1_table() -> (r: Vec<(char, char)>)
    ensures
        r@ == close_punctuation_part_1_ranges(),
{
    let mut v: Vec<(char, char)> = Vec::new();
    v.push(('\u{300f}', '\u{300f}'));
    v.push(('\u{3011}', '\u{3011}'));
    v.push(('\u{3015}', '\u{3015}'));
    v.push(('\u{3017}', '\u{3017}'));
    v.push(('\u{3019}', '\u{3019}'));
    v.push(('\u{301b}', '\u{301b}'));
    v.push(('\u{301e}', '\u{301f}'));
    v.push(('\u{fd3e}', '\u{fd3e}'));
    v.push(('\u{fe18}', '\u{fe18}'));
    v.push(('\u{fe36}', '\u{fe36}'));
    v.push(('\u{fe38}', '\u{fe38}'));
    v.push(('\u{fe3a}', '\u{fe3a}'));
    v.push(('\u{fe3c}', '\u{fe3c}'));
    v.push(('\u{fe3e}', '\u{fe3e}'));
    v.push(('\u{fe40}', '\u{fe40}'));
    v.push(('\u{fe42}', '\u{fe42}'));
    v.push(('\u{fe44}', '\u{fe44}'));
    v.push(('\u{fe48}', '\u{fe48}'));
    v.push(('\u{fe5a}', '\u{fe5a}'));
    v.push(('\u{fe5c}', '\u{fe5c}'));
    v.push(('\u{fe5e}', '\u{fe5e}'));
    v.push(('\u{ff09}', '\u{ff09}'));
    v.push(('\u{ff3d}', '\u{ff3d}'));
    v.push(('\u{ff5d}', '\u{ff5d}'));
    v.push(('\u{ff60}', '\u{ff60}'));
    v.push(('\u{ff63}', '\u{ff63}'));
    proof {
        assert(v@ =~= close_punctuation_part_1_ranges());
    }
    v
}

/// Build the table of [`close_punctuation_ranges`].
pub fn close_punctuation_table() -> (r: Vec<(char, char)>)
    ensures
        r@ == close_punctuation_ranges(),
{
    let mut v: Vec<(char, char)> = close_punctuation_part_0_table();
    let mut part_1: Vec<(char, char)> = close_punctuation_part_1_table();
    v.append(&mut part_1);
    v
}

/// Ranges of the `Connector_Punctuation` class.
pub closed spec fn connector_punctuation_ranges() -> Seq<(char, char)> {
    seq![
        ('_', '_'),
        ('\u{203f}', '\u{2040}'),
        ('\u{2054}', '\u{2054}'),
        ('\u{fe33}', '\u{fe34}'),
        ('\u{fe4d}', '\u{fe4f}'),
        ('\u{ff3f}', '\u{ff3f}'),
    ]
}

/// Build the table of [`connector_punctuation_ranges`].
#[verifier::rlimit(100)]
pub fn connector_punctuation_table() -> (r: Vec<(char, char)>)
    ensures
        r@ == connector_punctuation_ranges(),
{
    let mut v: Vec<(char, char)> = Vec::new();
    v.push(('_', '_'));
    v.push(('\u{203f}', '\u{2040}'));
    v.push(('\u{2054}', '\u{2054}'));
    v.push(('\u{fe33}', '\u{fe34}'));
    v.push(('\u{fe4d}', '\u{fe4f}'));
    v.push(('\u{ff3f}', '\u{ff3f}'));
    proof {
        assert(v@ =~= connector_punctuation_ranges());
    }
    v
}

/// Ranges of the `Control` class.
pub closed spec fn control_ranges() -> Seq<(char, char)> {
    seq![
        ('\u{0}', '\u{1f}'),
        ('\u{7f}', '\u{9f}'),
    ]
}

/// Build the table of [`control_ranges`].
#[verifier::rlimit(100)]
pub fn control_table() -> (r: Vec<(char, char)>)
    ensures
        r@ == control_ranges(),
{
    let mut v: Vec<(char, char)> = Vec::new();
    v.push(('\u{0}', '\u{1f}'));
    v.push(('\u{7f}', '\u{9f}'));
    proof {
        assert(v@ =~= control_ranges());
    }
    v
}

/// Ranges of the `Currency_Symbol` class.
pub closed spec fn currency_symbol_ranges() -> Seq<(char, char)> {
    seq![
        ('$', '$'),
        ('\u{a2}', '\u{a5}'),
        ('\u{58f}', '\u{58f}'),
        ('\u{60b}', '\u{60b}'),
        ('\u{7fe}', '\u{7ff}'),
        ('\u{9f2}', '\u{9f3}'),
        ('\u{9fb}', '\u{9fb}'),
        ('\u{af1}', '\u{af1}'),
        ('\u{bf9}', '\u{bf9}'),
        ('\u{e3f}', '\u{e3f}'),
        ('\u{17db}', '\u{17db}'),
        ('\u{20a0}', '\u{20c0}'),
        ('\u{a838}', '\u{a838}'),
        ('\u{fdfc}', '\u{fdfc}'),
        ('\u{fe69}', '\u{fe69}'),
        ('\u{ff04}', '\u{ff04}'),
        ('\u{ffe0}', '\u{ffe1}'),
        ('\u{ffe5}', '\u{ffe6}'),
        ('\u{11fdd}', '\u{11fe0}'),
        ('\u{1e2ff}', '\u{1e2ff}'),
        ('\u{1ecb0}', '\u{1ecb0}'),
    ]
}

/// Build the table of [`currency_symbol_ranges`].
#[verifier::rlimit(100)]
pub fn currency_symbol_table() -> (r: Vec<(char, char)>)
    ensures
        r@ == currency_symbol_ranges(),
{
    let mut v: Vec<(char, char)> = Vec::new();
    v.push(('$', '$'));
    v.push(('\u{a2}', '\u{a5}'));
    v.push(('\u{58f}', '\u{58f}'));
    v.push(('\u{60b}', '\u{60b}'));
    v.push(('\u{7fe}', '\u{7ff}'));
    v.push(('\u{9f2}', '\u{9f3}'));
    v.push(('\u{9fb}', '\u{9fb}'));
    v.push(('\u{af1}', '\u{af1}'));
    v.push(('\u{bf9}', '\u{bf9}'));
    v.push(('\u{e3f}', '\u{e3f}'));
    v.push(('\u{17db}', '\u{17db}'));
    v.push(('\u{20a0}', '\u{20c0}'));
    v.push(('\u{a838}', '\u{a838}'));
    v.push(('\u{fdfc}', '\u{fdfc}'));
    v.push(('\u{fe69}', '\u{fe69}'));
    v.push(('\u{ff04}', '\u{ff04}'));
    v.push(('\u{ffe0}', '\u{ffe1}'));
    v.push(('\u{ffe5}', '\u{ffe6}'));
    v.push(('\u{11fdd}', '\u{11fe0}'));
    v.push(('\u{1e2ff}', '\u{1e2ff}'));
    v.push(('\u{1ecb0}', '\u{1ecb0}'));
    proof {
        assert(v@ =~= currency_symbol_ranges());
    }
    v
}

/// Ranges of the `Dash_Punctuation` class.
pub closed spec fn dash_punctuation_ranges() -> Seq<(char, char)> {
    seq![
        ('-', '-'),
        ('\u{58a}', '\u{58a}'),
        ('\u{5be}', '\u{5be}'),
        ('\u{1400}', '\u{1400}'),
        ('\u{1806}', '\u{1806}'),
        ('\u{2010}', '\u{2015}'),
        ('\u{2e17}', '\u{2e17}'),
        ('\u{2e1a}', '\u{2e1a}'),
        ('\u{2e3a}', '\u{2e3b}'),
        ('\u{2e40}', '\u{2e40}'),
        ('\u{2e5d}', '\u{2e5d}'),
        ('\u{301c}', '\u{301c}'),
        ('\u{3030}', '\u{3030}'),
        ('\u{30a0}', '\u{30a0}'),
        ('\u{fe31}', '\u{fe32}'),
        ('\u{fe58}', '\u{fe58}'),
        ('\u{fe63}', '\u{fe63}'),
        ('\u{ff0d}', '\u{ff0d}'),
        ('\u{10d6e}', '\u{10d6e}'),
        ('\u{10ead}', '\u{10ead}'),
    ]
}

/// Build the table of [`dash_punctuation_ranges`].
#[verifier::rlimit(100)]
pub fn dash_punctuation_table() -> (r: Vec<(char, char)>)
    ensures
        r@ == dash_punctuation_ranges(),
{
    let mut v: Vec<(char, char)> = Vec::new();
    v.push(('-', '-'));
    v.push(('\u{58a}', '\u{58a}'));
    v.push(('\u{5be}', '\u{5be}'));
    v.push(('\u{1400}', '\u{1400}'));
    v.push(('\u{1806}', '\u{1806}'));
    v.push(('\u{2010}', '\u{2015}'));
    v.push(('\u{2e17}', '\u{2e17}'));
    v.push(('\u{2e1a}', '\u{2e1a}'));
    v.push(('\u{2e3a}', '\u{2e3b}'));
    v.push(('\u{2e40}', '\u{2e40}'));
    v.push(('\u{2e5d}', '\u{2e5d}'));
    v.push(('\u{301c}', '\u{301c}'));
    v.push(('\u{3030}', '\u{3030}'));
    v.push(('\u{30a0}', '\u{30a0}'));
    v.push(('\u{fe31}', '\u{fe32}'));
    v.push(('\u{fe58}', '\u{fe58}'));
    v.push(('\u{fe63}', '\u{fe63}'));
    v.push(('\u{ff0d}', '\u{ff0d}'));
    v.push(('\u{10d6e}', '\u{10d6e}'));
    v.push(('\u{10ead}', '\u{10ead}'));
    proof {
        assert(v@ =~= dash_punctuation_ranges());
    }
    v
}

/// Ranges of the `Enclosing_Mark` class.
pub closed spec fn enclosing_mark_ranges() -> Seq<(char, char)> {
    seq![
        ('\u{488}', '\u{489}'),
        ('\u{1abe}', '\u{1abe}'),
        ('\u{20dd}', '\u{20e0}'),
        ('\u{20e2}', '\u{20e4}'),
        ('\u{a670}', '\u{a672}'),
    ]
}

/// Build the table of [`enclosing_mark_ranges`].
#[verifier::rlimit(100)]
pub fn enclosing_mark_table() -> (r: Vec<(char, char)>)
    ensures
        r@ == enclosing_mark_ranges(),
{
    let mut v: Vec<(char, char)> = Vec::new();
    v.push(('\u{488}', '\u{489}'));
    v.push(('\u{1abe}', '\u{1abe}'));
    v.push(('\u{20dd}', '\u{20e0}'));
    v.push(('\u{20e2}', '\u{20e4}'));
    v.push(('\u{a670}', '\u{a672}'));
    proof {
        assert(v@ =~= enclosing_mark_ranges());
    }
    v
}

/// Ranges of the `Final_Punctuation` class.
pub closed spec fn final_punctuation_ranges() -> Seq<(char, char)> {
    seq![
        ('\u{bb}', '\u{bb}'),
        ('\u{2019}', '\u{2019}'),
        ('\u{201d}', '\u{201d}'),
        ('\u{203a}', '\u{203a}'),
        ('\u{2e03}', '\u{2e03}'),
        ('\u{2e05}', '\u{2e05}'),
        ('\u{2e0a}', '\u{2e0a}'),
        ('\u{2e0d}', '\u{2e0d}'),
        ('\u{2e1d}', '\u{2e1d}'),
        ('\u{2e21}', '\u{2e21}'),
    ]
}

/// Build the table of [`final_punctuation_ranges`].
#[verifier::rlimit(100)]
pub fn final_punctuation_table() -> (r: Vec<(char, char)>)
    ensures
        r@ == final_punctuation_ranges(),
{
    let mut v: Vec<(char, char)> = Vec::new();
    v.push(('\u{bb}', '\u{bb}'));
    v.push(('\u{2019}', '\u{2019}'));
    v.push(('\u{201d}', '\u{201d}'));
    v.push(('\u{203a}', '\u{203a}'));
    v.push(('\u{2e03}', '\u{2e03}'));
    v.push(('\u{2e05}', '\u{2e05}'));
    v.push(('\u{2e0a}', '\u{2e0a}'));
    v.push(('\u{2e0d}', '\u{2e0d}'));
    v.push(('\u{2e1d}', '\u{2e1d}'));
    v.push(('\u{2e21}', '\u{2e21}'));
    proof {
        assert(v@ =~= final_punctuation_ranges());
    }
    v
}

/// Ranges of the `Format` class.
pub closed spec fn format_ranges() -> Seq<(char, char)> {
    seq![
        ('\u{ad}', '\u{ad}'),
        ('\u{600}', '\u{605}'),
        ('\u{61c}', '\u{61c}'),
        ('\u{6dd}', '\u{6dd}'),
        ('\u{70f}', '\u{70f}'),
        ('\u{890}', '\u{891}'),
        ('\u{8e2}', '\u{8e2}'),
        ('\u{180e}', '\u{180e}'),
        ('\u{200b}', '\u{200f}'),
        ('\u{202a}', '\u{202e}'),
        ('\u{2060}', '\u{2064}'),
        ('\u{2066}', '\u{206f}'),
        ('\u{feff}', '\u{feff}'),
        ('\u{fff9}', '\u{fffb}'),
        ('\u{110bd}', '\u{110bd}'),
        ('\u{110cd}', '\u{110cd}'),
        ('\u{13430}', '\u{1343f}'),
        ('\u{1bca0}', '\u{1bca3}'),
        ('\u{1d173}', '\u{1d17a}'),
        ('\u{e0001}', '\u{e0001}'),
        ('\u{e0020}', '\u{e007f}'),
    ]
}

/// Build the table of [`format_ranges`].
#[verifier::rlimit(100)]
pub fn format_table() -> (r: Vec<(char, char)>)
    ensures
        r@ == format_ranges(),
{
    let mut v: Vec<(char, char)> = Vec::new();
    v.push(('\u{ad}', '\u{ad}'));
    v.push(('\u{600}', '\u{605}'));
    v.push(('\u{61c}', '\u{61c}'));
    v.push(('\u{6dd}', '\u{6dd}'));
    v.push(('\u{70f}', '\u{70f}'));
    v.push(('\u{890}', '\u{891}'));
    v.push(('\u{8e2}', '\u{8e2}'));
    v.push(('\u{180e}', '\u{180e}'));
    v.push(('\u{200b}', '\u{200f}'));
    v.push(('\u{202a}', '\u{202e}'));
    v.push(('\u{2060}', '\u{2064}'));
    v.push(('\u{2066}', '\u{206f}'));
    v.push(('\u{feff}', '\u{feff}'));
    v.push(('\u{fff9}', '\u{fffb}'));
    v.push(('\u{110bd}', '\u{110bd}'));
    v.push(('\u{110cd}', '\u{110cd}'));
    v.push(('\u{13430}', '\u{1343f}'));
    v.push(('\u{1bca0}', '\u{1bca3}'));
    v.push(('\u{1d173}', '\u{1d17a}'));
    v.push(('\u{e0001}', '\u{e0001}'));
    v.push(('\u{e0020}', '\u{e007f}'));
    proof {
        assert(v@ =~= format_ranges());
    }
    v
}

/// Ranges of the `Initial_Punctuation` class.
pub closed spec fn initial_punctuation_ranges() -> Seq<(char, char)> {
    seq![
        ('\u{ab}', '\u{ab}'),
        ('\u{2018}', '\u{2018}'),
        ('\u{201b}', '\u{201c}'),
        ('\u{201f}', '\u{201f}'),
        ('\u{2039}', '\u{2039}'),
        ('\u{2e02}', '\u{2e02}'),
        ('\u{2e04}', '\u{2e04}'),
        ('\u{2e09}', '\u{2e09}'),
        ('\u{2e0c}', '\u{2e0c}'),
        ('\u{2e1c}', '\u{2e1c}'),
        ('\u{2e20}', '\u{2e20}'),
    ]
}

/// Build the table of [`initial_punctuation_ranges`].
#[verifier::rlimit(100)]
pub fn initial_punctuation_table() -> (r: Vec<(char, char)>)
    ensures
        r@ == initial_punctuation_ranges(),
{
    let mut v: Vec<(char, char)> = Vec::new();
    v.push(('\u{ab}', '\u{ab}'));
    v.push(('\u{2018}', '\u{2018}'));
    v.push(('\u{201b}', '\u{201c}'));
    v.push(('\u{201f}', '\u{201f}'));
    v.push(('\u{2039}', '\u{2039}'));
    v.push(('\u{2e02}', '\u{2e02}'));
    v.push(('\u{2e04}', '\u{2e04}'));
    v.push(('\u{2e09}', '\u{2e09}'));
    v.push(('\u{2e0c}', '\u{2e0c}'));
    v.push(('\u{2e1c}', '\u{2e1c}'));
    v.push(('\u{2e20}', '\u{2e20}'));
    proof {
        assert(v@ =~= initial_punctuation_ranges());
    }
    v
}

/// Ranges of the `Letter_Number` class.
pub closed spec fn letter_number_ranges() -> Seq<(char, char)> {
    seq![
        ('\u{16ee}', '\u{16f0}'),
        ('\u{2160}', '\u{2182}'),
        ('\u{2185}', '\u{2188}'),
        ('\u{3007}', '\u{3007}'),
        ('\u{3021}', '\u{3029}'),
        ('\u{3038}', '\u{303a}'),
        ('\u{a6e6}', '\u{a6ef}'),
        ('\u{10140}', '\u{10174}'),
        ('\u{10341}', '\u{10341}'),
        ('\u{1034a}', '\u{1034a}'),
        ('\u{103d1}', '\u{103d5}'),
        ('\u{12400}', '\u{1246e}'),
    ]
}

/// Build the table of [`letter_number_ranges`].
#[verifier::rlimit(100)]
pub fn letter_number_table() -> (r: Vec<(char, char)>)
    ensures
        r@ == letter_number_ranges(),
{
    let mut v: Vec<(char, char)> = Vec::new();
    v.push(('\u{16ee}', '\u{16f0}'));
    v.push(('\u{2160}', '\u{2182}'));
    v.push(('\u{2185}', '\u{2188}'));
    v.push(('\u{3007}', '\u{3007}'));
    v.push(('\u{3021}', '\u{3029}'));
    v.push(('\u{3038}', '\u{303a}'));
    v.push(('\u{a6e6}', '\u{a6ef}'));
    v.push(('\u{10140}', '\u{10174}'));
    v.push(('\u{10341}', '\u{10341}'));
    v.push(('\u{1034a}', '\u{1034a}'));
    v.push(('\u{103d1}', '\u{103d5}'));
    v.push(('\u{12400}', '\u{1246e}'));
    proof {
        assert(v@ =~= letter_number_ranges());
    }
    v
}

/// Ranges of the `Line_Separator` class.
pub closed spec fn line_separator_ranges() -> Seq<(char, char)> {
    seq![
        ('\u{2028}', '\u{2028}'),
    ]
}

/// Build the table of [`line_separator_ranges`].
#[verifier::rlimit(100)]
pub fn line_separator_table() -> (r: Vec<(char, char)>)
    ensures
        r@ == line_separator_ranges(),
{
    let mut v: Vec<(char, char)> = Vec::new();
    v.push(('\u{2028}', '\u{2028}'));
    proof {
        assert(v@ =~= line_separator_ranges());
    }
    v
}

/// One stretch of the `Math_Symbol` ranges.
pub closed spec fn math_symbol_part_0_ranges() -> Seq<(char, char)> {
    seq![
        ('+', '+'),
        ('<', '>'),
        ('|', '|'),
        ('~', '~'),
        ('\u{ac}', '\u{ac}'),
        ('\u{b1}', '\u{b1}'),
        ('\u{d7}', '\u{d7}'),
        ('\u{f7}', '\u{f7}'),
        ('\u{3f6}', '\u{3f6}'),
        ('\u{606}', '\u{608}'),
        ('\u{2044}', '\u{2044}'),
        ('\u{2052}', '\u{2052}'),
        ('\u{207a}', '\u{207c}'),
        ('\u{208a}', '\u{208c}'),
        ('\u{2118}', '\u{2118}'),
        ('\u{2140}', '\u{2144}'),
        ('\u{214b}', '\u{214b}'),
        ('\u{2190}', '\u{2194}'),
        ('\u{219a}', '\u{219b}'),
        ('\u{21a0}', '\u{21a0}'),
        ('\u{21a3}', '\u{21a3}'),
        ('\u{21a6}', '\u{21a6}'),
        ('\u{21ae}', '\u{21ae}'),
        ('\u{21ce}', '\u{21cf}'),
        ('\u{21d2}', '\u{21d2}'),
        ('\u{21d4}', '\u{21d4}'),
        ('\u{21f4}', '\u{22ff}'),
        ('\u{2320}', '\u{2321}'),
        ('\u{237c}', '\u{237c}'),
        ('\u{239b}', '\u{23b3}'),
        ('\u{23dc}', '\u{23e1}'),
        ('\u{25b7}', '\u{25b7}'),
        ('\u{25c1}', '\u{25c1}'),
        ('\u{25f8}', '\u{25ff}'),
        ('\u{266f}', '\u{266f}'),
        ('\u{27c0}', '\u{27c4}'),
        ('\u{27c7}', '\u{27e5}'),
        ('\u{27f0}', '\u{27ff}'),
        ('\u{2900}', '\u{2982}'),
        ('\u{2999}', '\u{29d7}'),
        ('\u{29dc}', '\u{29fb}'),
        ('\u{29fe}', '\u{2aff}'),
        ('\u{2b30}', '\u{2b44}'),
        ('\u{2b47}', '\u{2b4c}'),
        ('\u{fb29}', '\u{fb29}'),
        ('\u{fe62}', '\u{fe62}'),
        ('\u{fe64}', '\u{fe66}'),
        ('\u{ff0b}', '\u{ff0b}'),
        ('\u{ff1c}', '\u{ff1e}'),
        ('\u{ff5c}', '\u{ff5c}'),
    ]
}

/// One stretch of the `Math_Symbol` ranges.
pub closed spec fn math_symbol_part_1_ranges() -> Seq<(char, char)> {
    seq![
        ('\u{ff5e}', '\u{ff5e}'),
        ('\u{ffe2}', '\u{ffe2}'),
        ('\u{ffe9}', '\u{ffec}'),
        ('\u{10d8e}', '\u{10d8f}'),
        ('\u{1d6c1}', '\u{1d6c1}'),
        ('\u{1d6db}', '\u{1d6db}'),
        ('\u{1d6fb}', '\u{1d6fb}'),
        ('\u{1d715}', '\u{1d715}'),
        ('\u{1d735}', '\u{1d735}'),
        ('\u{1d74f}', '\u{1d74f}'),
        ('\u{1d76f}', '\u{1d76f}'),
        ('\u{1d789}', '\u{1d789}'),
        ('\u{1d7a9}', '\u{1d7a9}'),
        ('\u{1d7c3}', '\u{1d7c3}'),
        ('\u{1eef0}', '\u{1eef1}'),
    ]
}

/// Ranges of the `Math_Symbol` class.
pub closed spec fn math_symbol_ranges() -> Seq<(char, char)> {
    math_symbol_part_0_ranges() + math_symbol_part_1_ranges()
}

/// Build one stretch of the `Math_Symbol` range table.
#[verifier::rlimit(100)]
fn math_symbol_part_0_table() -> (r: Vec<(char, char)>)
    ensures
        r@ == math_symbol_part_0_ranges(),
{
    let mut v: Vec<(char, char)> = Vec::new();
    v.push(('+', '+'));
    v.push(('<', '>'));
    v.push(('|', '|'));
    v.push(('~', '~'));
    v.push(('\u{ac}', '\u{ac}'));
    v.push(('\u{b1}', '\u{b1}'));
    v.push(('\u{d7}', '\u{d7}'));
    v.push(('\u{f7}', '\u{f7}'));
    v.push(('\u{3f6}', '\u{3f6}'));
    v.push(('\u{606}', '\u{608}'));
    v.push(('\u{2044}', '\u{2044}'));
    v.push(('\u{2052}', '\u{2052}'));
    v.push(('\u{207a}', '\u{207c}'));
    v.push(('\u{208a}', '\u{208c}'));
    v.push(('\u{2118}', '\u{2118}'));
    v.push(('\u{2140}', '\u{2144}'));
    v.push(('\u{214b}', '\u{214b}'));
    v.push(('\u{2190}', '\u{2194}'));
    v.push(('\u{219a}', '\u{219b}'));
    v.push(('\u{21a0}', '\u{21a0}'));
    v.push(('\u{21a3}', '\u{21a3}'));
    v.push(('\u{21a6}', '\u{21a6}'));
    v.push(('\u{21ae}', '\u{21ae}'));
    v.push(('\u{21ce}', '\u{21cf}'));
    v.push(('\u{21d2}', '\u{21d2}'));
    v.push(('\u{21d4}', '\u{21d4}'));
    v.push(('\u{21f4}', '\u{22ff}'));
    v.push(('\u{2320}', '\u{2321}'));
    v.push(('\u{237c}', '\u{237c}'));
    v.push(('\u{239b}', '\u{23b3}'));
    v.push(('\u{23dc}', '\u{23e1}'));
    v.push(('\u{25b7}', '\u{25b7}'));
    v.push(('\u{25c1}', '\u{25c1}'));
    v.push(('\u{25f8}', '\u{25ff}'));
    v.push(('\u{266f}', '\u{266f}'));
    v.push(('\u{27c0}', '\u{27c4}'));
    v.push(('\u{27c7}', '\u{27e5}'));
    v.push(('\u{27f0}', '\u{27ff}'));
    v.push(('\u{2900}', '\u{2982}'));
    v.push(('\u{2999}', '\u{29d7}'));
    v.push(('\u{29dc}', '\u{29fb}'));
    v.push(('\u{29fe}', '\u{2aff}'));
    v.push(('\u{2b30}', '\u{2b44}'));
    v.push(('\u{2b47}', '\u{2b4c}'));
    v.push(('\u{fb29}', '\u{fb29}'));
    v.push(('\u{fe62}', '\u{fe62}'));
    v.push(('\u{fe64}', '\u{fe66}'));
    v.push(('\u{ff0b}', '\u{ff0b}'));
    v.push(('\u{ff1c}', '\u{ff1e}'));
    v.push(('\u{ff5c}', '\u{ff5c}'));
    proof {
        assert(v@ =~= math_symbol_part_0_ranges());
    }
    v
}

/// Build one stretch of the `Math_Symbol` range table.
#[verifier::rlimit(100)]
fn math_symbol_part_1_table() -> (r: Vec<(char, char)>)
    ensures
        r@ == math_symbol_part_1_ranges(),
{
    let mut v: Vec<(char, char)> = Vec::new();
    v.push(('\u{ff5e}', '\u{ff5e}'));
    v.push(('\u{ffe2}', '\u{ffe2}'));
    v.push(('\u{ffe9}', '\u{ffec}'));
    v.push(('\u{10d8e}', '\u{10d8f}'));
    v.push(('\u{1d6c1}', '\u{1d6c1}'));
    v.push(('\u{1d6db}', '\u{1d6db}'));
    v.push(('\u{1d6fb}', '\u{1d6fb}'));
    v.push(('\u{1d715}', '\u{1d715}'));
    v.push(('\u{1d735}', '\u{1d735}'));
    v.push(('\u{1d74f}', '\u{1d74f}'));
    v.push(('\u{1d76f}', '\u{1d76f}'));
    v.push(('\u{1d789}', '\u{1d789}'));
    v.push(('\u{1d7a9}', '\u{1d7a9}'));
    v.push(('\u{1d7c3}', '\u{1d7c3}'));
    v.push(('\u{1eef0}', '\u{1eef1}'));
    proof {
        assert(v@ =~= math_symbol_part_1_ranges());
    }
    v
}

/// Build the table of [`math_symbol_ranges`].
pub fn math_symbol_table() -> (r: Vec<(char, char)>)
    ensures
        r@ == math_symbol_ranges(),
{
    let mut v: Vec<(char, char)> = math_symbol_part_0_table();
    let mut part_1: Vec<(char, char)> = math_symbol_part_1_table();
    v.append(&mut part_1);
    v
}

/// One stretch of the `Modifier_Letter` ranges.
pub closed spec fn modifier_letter_part_0_ranges() -> Seq<(char, char)> {
    seq![
        ('\u{2b0}', '\u{2c1}'),
        ('\u{2c6}', '\u{2d1}'),
        ('\u{2e0}', '\u{2e4}'),
        ('\u{2ec}', '\u{2ec}'),
        ('\u{2ee}', '\u{2ee}'),
        ('\u{374}', '\u{374}'),
        ('\u{37a}', '\u{37a}'),
        ('\u{559}', '\u{559}'),
        ('\u{640}', '\u{640}'),
        ('\u{6e5}', '\u{6e6}'),
        ('\u{7f4}', '\u{7f5}'),
        ('\u{7fa}', '\u{7fa}'),
        ('\u{81a}', '\u{81a}'),
        ('\u{824}', '\u{824}'),
        ('\u{828}', '\u{828}'),
        ('\u{8c9}', '\u{8c9}'),
        ('\u{971}', '\u{971}'),
        ('\u{e46}', '\u{e46}'),
        ('\u{ec6}', '\u{ec6}'),
        ('\u{10fc}', '\u{10fc}'),
        ('\u{17d7}', '\u{17d7}'),
        ('\u{1843}', '\u{1843}'),
        ('\u{1aa7}', '\u{1aa7}'),
        ('\u{1c78}', '\u{1c7d}'),
        ('\u{1d2c}', '\u{1d6a}'),
        ('\u{1d78}', '\u{1d78}'),
        ('\u{1d9b}', '\u{1dbf}'),
        ('\u{2071}', '\u{2071}'),
        ('\u{207f}', '\u{207f}'),
        ('\u{2090}', '\u{209c}'),
        ('\u{2c7c}', '\u{2c7d}'),
        ('\u{2d6f}', '\u{2d6f}'),
        ('\u{2e2f}', '\u{2e2f}'),
        ('\u{3005}', '\u{3005}'),
        ('\u{3031}', '\u{3035}'),
        ('\u{303b}', '\u{303b}'),
        ('\u{309d}', '\u{309e}'),
        ('\u{30fc}', '\u{30fe}'),
        ('\u{a015}', '\u{a015}'),
        ('\u{a4f8}', '\u{a4fd}'),
        ('\u{a60c}', '\u{a60c}'),
        ('\u{a67f}', '\u{a67f}'),
        ('\u{a69c}', '\u{a69d}'),
        ('\u{a717}', '\u{a71f}'),
        ('\u{a770}', '\u{a770}'),
        ('\u{a788}', '\u{a788}'),
        ('\u{a7f2}', '\u{a7f4}'),
        ('\u{a7f8}', '\u{a7f9}'),
        ('\u{a9cf}', '\u{a9cf}'),
        ('\u{a9e6}', '\u{a9e6}'),
    ]
}

/// One stretch of the `Modifier_Letter` ranges.
pub closed spec fn modifier_letter_part_1_ranges() -> Seq<(char, char)> {
    seq![
        ('\u{aa70}', '\u{aa70}'),
        ('\u{aadd}', '\u{aadd}'),
        ('\u{aaf3}', '\u{aaf4}'),
        ('\u{ab5c}', '\u{ab5f}'),
        ('\u{ab69}', '\u{ab69}'),
        ('\u{ff70}', '\u{ff70}'),
        ('\u{ff9e}', '\u{ff9f}'),
        ('\u{10780}', '\u{10785}'),
        ('\u{10787}', '\u{107b0}'),
        ('\u{107b2}', '\u{107ba}'),
        ('\u{10d4e}', '\u{10d4e}'),
        ('\u{10d6f}', '\u{10d6f}'),
        ('\u{16b40}', '\u{16b43}'),
        ('\u{16d40}', '\u{16d42}'),
        ('\u{16d6b}', '\u{16d6c}'),
        ('\u{16f93}', '\u{16f9f}'),
        ('\u{16fe0}', '\u{16fe1}'),
        ('\u{16fe3}', '\u{16fe3}'),
        ('\u{1aff0}', '\u{1aff3}'),
        ('\u{1aff5}', '\u{1affb}'),
        ('\u{1affd}', '\u{1affe}'),
        ('\u{1e030}', '\u{1e06d}'),
        ('\u{1e137}', '\u{1e13d}'),
        ('\u{1e4eb}', '\u{1e4eb}'),
        ('\u{1e94b}', '\u{1e94b}'),
    ]
}

/// Ranges of the `Modifier_Letter` class.
pub closed spec fn modifier_letter_ranges() -> Seq<(char, char)> {
    modifier_letter_part_0_ranges() + modifier_letter_part_1_ranges()
}

/// Build one stretch of the `Modifier_Letter` range table.
#[verifier::rlimit(100)]
fn modifier_letter_part_0_table() -> (r: Vec<(char, char)>)
    ensures
        r@ == modifier_letter_part_0_ranges(),
{
    let mut v: Vec<(char, char)> = Vec::new();
    v.push(('\u{2b0}', '\u{2c1}'));
    v.push(('\u{2c6}', '\u{2d1}'));
    v.push(('\u{2e0}', '\u{2e4}'));
    v.push(('\u{2ec}', '\u{2ec}'));
    v.push(('\u{2ee}', '\u{2ee}'));
    v.push(('\u{374}', '\u{374}'));
    v.push(('\u{37a}', '\u{37a}'));
    v.push(('\u{559}', '\u{559}'));
    v.push(('\u{640}', '\u{640}'));
    v.push(('\u{6e5}', '\u{6e6}'));
    v.push(('\u{7f4}', '\u{7f5}'));
    v.push(('\u{7fa}', '\u{7fa}'));
    v.push(('\u{81a}', '\u{81a}'));
    v.push(('\u{824}', '\u{824}'));
    v.push(('\u{828}', '\u{828}'));
    v.push(('\u{8c9}', '\u{8c9}'));
    v.push(('\u{971}', '\u{971}'));
    v.push(('\u{e46}', '\u{e46}'));
    v.push(('\u{ec6}', '\u{ec6}'));
    v.push(('\u{10fc}', '\u{10fc}'));
    v.push(('\u{17d7}', '\u{17d7}'));
    v.push(('\u{1843}', '\u{1843}'));
    v.push(('\u{1aa7}', '\u{1aa7}'));
    v.push(('\u{1c78}', '\u{1c7d}'));
    v.push(('\u{1d2c}', '\u{1d6a}'));
    v.push(('\u{1d78}', '\u{1d78}'));
    v.push(('\u{1d9b}', '\u{1dbf}'));
    v.push(('\u{2071}', '\u{2071}'));
    v.push(('\u{207f}', '\u{207f}'));
    v.push(('\u{2090}', '\u{209c}'));
    v.push(('\u{2c7c}', '\u{2c7d}'));
    v.push(('\u{2d6f}', '\u{2d6f}'));
    v.push(('\u{2e2f}', '\u{2e2f}'));
    v.push(('\u{3005}', '\u{3005}'));
    v.push(('\u{3031}', '\u{3035}'));
    v.push(('\u{303b}', '\u{303b}'));
    v.push(('\u{309d}', '\u{309e}'));
    v.push(('\u{30fc}', '\u{30fe}'));
    v.push(('\u{a015}', '\u{a015}'));
    v.push(('\u{a4f8}', '\u{a4fd}'));
    v.push(('\u{a60c}', '\u{a60c}'));
    v.push(('\u{a67f}', '\u{a67f}'));
    v.push(('\u{a69c}', '\u{a69d}'));
    v.push(('\u{a717}', '\u{a71f}'));
    v.push(('\u{a770}', '\u{a770}'));
    v.push(('\u{a788}', '\u{a788}'));
    v.push(('\u{a7f2}', '\u{a7f4}'));
    v.push(('\u{a7f8}', '\u{a7f9}'));
    v.push(('\u{a9cf}', '\u{a9cf}'));
    v.push(('\u{a9e6}', '\u{a9e6}'));
    proof {
        assert(v@ =~= modifier_letter_part_0_ranges());
    }
    v
}

/// Build one stretch of the `Modifier_Letter` range table.
#[verifier::rlimit(100)]
fn modifier_letter_part_1_table() -> (r: Vec<(char, char)>)
    ensures
        r@ == modifier_letter_part_1_ranges(),
{
    let mut v: Vec<(char, char)> = Vec::new();
    v.push(('\u{aa70}', '\u{aa70}'));
    v.push(('\u{aadd}', '\u{aadd}'));
    v.push(('\u{aaf3}', '\u{aaf4}'));
    v.push(('\u{ab5c}', '\u{ab5f}'));
    v.push(('\u{ab69}', '\u{ab69}'));
    v.push(('\u{ff70}', '\u{ff70}'));
    v.push(('\u{ff9e}', '\u{ff9f}'));
    v.push(('\u{10780}', '\u{10785}'));
    v.push(('\u{10787}', '\u{107b0}'));
    v.push(('\u{107b2}', '\u{107ba}'));
    v.push(('\u{10d4e}', '\u{10d4e}'));
    v.push(('\u{10d6f}', '\u{10d6f}'));
    v.push(('\u{16b40}', '\u{16b43}'));
    v.push(('\u{16d40}', '\u{16d42}'));
    v.push(('\u{16d6b}', '\u{16d6c}'));
    v.push(('\u{16f93}', '\u{16f9f}'));
    v.push(('\u{16fe0}', '\u{16fe1}'));
    v.push(('\u{16fe3}', '\u{16fe3}'));
    v.push(('\u{1aff0}', '\u{1aff3}'));
    v.push(('\u{1aff5}', '\u{1affb}'));
    v.push(('\u{1affd}', '\u{1affe}'));
    v.push(('\u{1e030}', '\u{1e06d}'));
    v.push(('\u{1e137}', '\u{1e13d}'));
    v.push(('\u{1e4eb}', '\u{1e4eb}'));
    v.push(('\u{1e94b}', '\u{1e94b}'));
    proof {
        assert(v@ =~= modifier_letter_part_1_ranges());
    }
    v
}

/// Build the table of [`modifier_letter_ranges`].
pub fn modifier_letter_table() -> (r: Vec<(char, char)>)
    ensures
        r@ == modifier_letter_ranges(),
{
    let mut v: Vec<(char, char)> = modifier_letter_part_0_table();
    let mut part_1: Vec<(char, char)> = modifier_letter_part_1_table();
    v.append(&mut part_1);
    v
}

/// Ranges of the `Modifier_Symbol` class.
pub closed spec fn modifier_symbol_ranges() -> Seq<(char, char)> {
    seq![
        ('^', '^'),
        ('`', '`'),
        ('\u{a8}', '\u{a8}'),
        ('\u{af}', '\u{af}'),
        ('\u{b4}', '\u{b4}'),
        ('\u{b8}', '\u{b8}'),
        ('\u{2c2}', '\u{2c5}'),
        ('\u{2d2}', '\u{2df}'),
        ('\u{2e5}', '\u{2eb}'),
        ('\u{2ed}', '\u{2ed}'),
        ('\u{2ef}', '\u{2ff}'),
        ('\u{375}', '\u{375}'),
        ('\u{384}', '\u{385}'),
        ('\u{888}', '\u{888}'),
        ('\u{1fbd}', '\u{1fbd}'),
        ('\u{1fbf}', '\u{1fc1}'),
        ('\u{1fcd}', '\u{1fcf}'),
        ('\u{1fdd}', '\u{1fdf}'),
        ('\u{1fed}', '\u{1fef}'),
        ('\u{1ffd}', '\u{1ffe}'),
        ('\u{309b}', '\u{309c}'),
        ('\u{a700}', '\u{a716}'),
        ('\u{a720}', '\u{a721}'),
        ('\u{a789}', '\u{a78a}'),
        ('\u{ab5b}', '\u{ab5b}'),
        ('\u{ab6a}', '\u{ab6b}'),
        ('\u{fbb2}', '\u{fbc2}'),
        ('\u{ff3e}', '\u{ff3e}'),
        ('\u{ff40}', '\u{ff40}'),
        ('\u{ffe3}', '\u{ffe3}'),
        ('\u{1f3fb}', '\u{1f3ff}'),
    ]
}

/// Build the table of [`modifier_symbol_ranges`].
#[verifier::rlimit(100)]
pub fn modifier_symbol_table() -> (r: Vec<(char, char)>)
    ensures
        r@ == modifier_symbol_ranges(),
{
    let mut v: Vec<(char, char)> = Vec::new();
    v.push(('^', '^'));
    v.push(('`', '`'));
    v.push(('\u{a8}', '\u{a8}'));
    v.push(('\u{af}', '\u{af}'));
    v.push(('\u{b4}', '\u{b4}'));
    v.push(('\u{b8}', '\u{b8}'));
    v.push(('\u{2c2}', '\u{2c5}'));
    v.push(('\u{2d2}', '\u{2df}'));
    v.push(('\u{2e5}', '\u{2eb}'));
    v.push(('\u{2ed}', '\u{2ed}'));
    v.push(('\u{2ef}', '\u{2ff}'));
    v.push(('\u{375}', '\u{375}'));
    v.push(('\u{384}', '\u{385}'));
    v.push(('\u{888}', '\u{888}'));
    v.push(('\u{1fbd}', '\u{1fbd}'));
    v.push(('\u{1fbf}', '\u{1fc1}'));
    v.push(('\u{1fcd}', '\u{1fcf}'));
    v.push(('\u{1fdd}', '\u{1fdf}'));
    v.push(('\u{1fed}', '\u{1fef}'));
    v.push(('\u{1ffd}', '\u{1ffe}'));
    v.push(('\u{309b}', '\u{309c}'));
    v.push(('\u{a700}', '\u{a716}'));
    v.push(('\u{a720}', '\u{a721}'));
    v.push(('\u{a789}', '\u{a78a}'));
    v.push(('\u{ab5b}', '\u{ab5b}'));
    v.push(('\u{ab6a}', '\u{ab6b}'));
    v.push(('\u{fbb2}', '\u{fbc2}'));
    v.push(('\u{ff3e}', '\u{ff3e}'));
    v.push(('\u{ff40}', '\u{ff40}'));
    v.push(('\u{ffe3}', '\u{ffe3}'));
    v.push(('\u{1f3fb}', '\u{1f3ff}'));
    proof {
        assert(v@ =~= modifier_symbol_ranges());
    }
    v
}

/// One stretch of the `Open_Punctuation` ranges.
pub closed spec fn open_punctuation_part_0_ranges() -> Seq<(char, char)> {
    seq![
        ('(', '('),
        ('[', '['),
        ('{', '{'),
        ('\u{f3a}', '\u{f3a}'),
        ('\u{f3c}', '\u{f3c}'),
        ('\u{169b}', '\u{169b}'),
        ('\u{201a}', '\u{201a}'),
        ('\u{201e}', '\u{201e}'),
        ('\u{2045}', '\u{2045}'),
        ('\u{207d}', '\u{207d}'),
        ('\u{208d}', '\u{208d}'),
        ('\u{2308}', '\u{2308}'),
        ('\u{230a}', '\u{230a}'),
        ('\u{2329}', '\u{2329}'),
        ('\u{2768}', '\u{2768}'),
        ('\u{276a}', '\u{276a}'),
        ('\u{276c}', '\u{276c}'),
        ('\u{276e}', '\u{276e}'),
        ('\u{2770}', '\u{2770}'),
        ('\u{2772}', '\u{2772}'),
        ('\u{2774}', '\u{2774}'),
        ('\u{27c5}', '\u{27c5}'),
        ('\u{27e6}', '\u{27e6}'),
        ('\u{27e8}', '\u{27e8}'),
        ('\u{27ea}', '\u{27ea}'),
        ('\u{27ec}', '\u{27ec}'),
        ('\u{27ee}', '\u{27ee}'),
        ('\u{2983}', '\u{2983}'),
        ('\u{2985}', '\u{2985}'),
        ('\u{2987}', '\u{2987}'),
        ('\u{2989}', '\u{2989}'),
        ('\u{298b}', '\u{298b}'),
        ('\u{298d}', '\u{298d}'),
        ('\u{298f}', '\u{298f}'),
        ('\u{2991}', '\u{2991}'),
        ('\u{2993}', '\u{2993}'),
        ('\u{2995}', '\u{2995}'),
        ('\u{2997}', '\u{2997}'),
        ('\u{29d8}', '\u{29d8}'),
        ('\u{29da}', '\u{29da}'),
        ('\u{29fc}', '\u{29fc}'),
        ('\u{2e22}', '\u{2e22}'),
        ('\u{2e24}', '\u{2e24}'),
        ('\u{2e26}', '\u{2e26}'),
        ('\u{2e28}', '\u{2e28}'),
        ('\u{2e42}', '\u{2e42}'),
        ('\u{2e55}', '\u{2e55}'),
        ('\u{2e57}', '\u{2e57}'),
        ('\u{2e59}', '\u{2e59}'),
        ('\u{2e5b}', '\u{2e5b}'),
    ]
}

/// One stretch of the `Open_Punctuation` ranges.
pub closed spec fn open_punctuation_part_1_ranges() -> Seq<(char, char)> {
    seq![
        ('\u{3008}', '\u{3008}'),
        ('\u{300a}', '\u{300a}'),
        ('\u{300c}', '\u{300c}'),
        ('\u{300e}', '\u{300e}'),
        ('\u{3010}', '\u{3010}'),
        ('\u{3014}', '\u{3014}'),
        ('\u{3016}', '\u{3016}'),
        ('\u{3018}', '\u{3018}'),
        ('\u{301a}', '\u{301a}'),
        ('\u{301d}', '\u{301d}'),
        ('\u{fd3f}', '\u{fd3f}'),
        ('\u{fe17}', '\u{fe17}'),
        ('\u{fe35}', '\u{fe35}'),
        ('\u{fe37}', '\u{fe37}'),
        ('\u{fe39}', '\u{fe39}'),
        ('\u{fe3b}', '\u{fe3b}'),
        ('\u{fe3d}', '\u{fe3d}'),
        ('\u{fe3f}', '\u{fe3f}'),
        ('\u{fe41}', '\u{fe41}'),
        ('\u{fe43}', '\u{fe43}'),
        ('\u{fe47}', '\u{fe47}'),
        ('\u{fe59}', '\u{fe59}'),
        ('\u{fe5b}', '\u{fe5b}'),
        ('\u{fe5d}', '\u{fe5d}'),
        ('\u{ff08}', '\u{ff08}'),
        ('\u{ff3b}', '\u{ff3b}'),
        ('\u{ff5b}', '\u{ff5b}'),
        ('\u{ff5f}', '\u{ff5f}'),
        ('\u{ff62}', '\u{ff62}'),
    ]
}

/// Ranges of the `Open_Punctuation` class.
pub closed spec fn open_punctuation_ranges() -> Seq<(char, char)> {
    open_punctuation_part_0_ranges() + open_punctuation_part_1_ranges()
}

/// Build one stretch of the `Open_Punctuation` range table.
#[verifier::rlimit(100)]
fn open_punctuation_part_0_table() -> (r: Vec<(char, char)>)
    ensures
        r@ == open_punctuation_part_0_ranges(),
{
    let mut v: Vec<(char, char)> = Vec::new();
    v.push(('(', '('));
    v.push(('[', '['));
    v.push(('{', '{'));
    v.push(('\u{f3a}', '\u{f3a}'));
    v.push(('\u{f3c}', '\u{f3c}'));
    v.push(('\u{169b}', '\u{169b}'));
    v.push(('\u{201a}', '\u{201a}'));
    v.push(('\u{201e}', '\u{201e}'));
    v.push(('\u{2045}', '\u{2045}'));
    v.push(('\u{207d}', '\u{207d}'));
    v.push(('\u{208d}', '\u{208d}'));
    v.push(('\u{2308}', '\u{2308}'));
    v.push(('\u{230a}', '\u{230a}'));
    v.push(('\u{2329}', '\u{2329}'));
    v.push(('\u{2768}', '\u{2768}'));
    v.push(('\u{276a}', '\u{276a}'));
    v.push(('\u{276c}', '\u{276c}'));
    v.push(('\u{276e}', '\u{276e}'));
    v.push(('\u{2770}', '\u{2770}'));
    v.push(('\u{2772}', '\u{2772}'));
    v.push(('\u{2774}', '\u{2774}'));
    v.push(('\u{27c5}', '\u{27c5}'));
    v.push(('\u{27e6}', '\u{27e6}'));
    v.push(('\u{27e8}', '\u{27e8}'));
    v.push(('\u{27ea}', '\u{27ea}'));
    v.push(('\u{27ec}', '\u{27ec}'));
    v.push(('\u{27ee}', '\u{27ee}'));
    v.push(('\u{2983}', '\u{2983}'));
    v.push(('\u{2985}', '\u{2985}'));
    v.push(('\u{2987}', '\u{2987}'));
    v.push(('\u{2989}', '\u{2989}'));
    v.push(('\u{298b}', '\u{298b}'));
    v.push(('\u{298d}', '\u{298d}'));
    v.push(('\u{298f}', '\u{298f}'));
    v.push(('\u{2991}', '\u{2991}'));
    v.push(('\u{2993}', '\u{2993}'));
    v.push(('\u{2995}', '\u{2995}'));
    v.push(('\u{2997}', '\u{2997}'));
    v.push(('\u{29d8}', '\u{29d8}'));
    v.push(('\u{29da}', '\u{29da}'));
    v.push(('\u{29fc}', '\u{29fc}'));
    v.push(('\u{2e22}', '\u{2e22}'));
    v.push(('\u{2e24}', '\u{2e24}'));
    v.push(('\u{2e26}', '\u{2e26}'));
    v.push(('\u{2e28}', '\u{2e28}'));
    v.push(('\u{2e42}', '\u{2e42}'));
    v.push(('\u{2e55}', '\u{2e55}'));
    v.push(('\u{2e57}', '\u{2e57}'));
    v.push(('\u{2e59}', '\u{2e59}'));
    v.push(('\u{2e5b}', '\u{2e5b}'));
    proof {
        assert(v@ =~= open_punctuation_part_0_ranges());
    }
    v
}

/// Build one stretch of the `Open_Punctuation` range table.
#[verifier::rlimit(100)]
fn open_punctuation_part_1_table() -> (r: Vec<(char, char)>)
    ensures
        r@ == open_punctuation_part_1_ranges(),
{
    let mut v: Vec<(char, char)> = Vec::new();
    v.push(('\u{3008}', '\u{3008}'));
    v.push(('\u{300a}', '\u{300a}'));
    v.push(('\u{300c}', '\u{300c}'));
    v.push(('\u{300e}', '\u{300e}'));
    v.push(('\u{3010}', '\u{3010}'));
    v.push(('\u{3014}', '\u{3014}'));
    v.push(('\u{3016}', '\u{3016}'));
    v.push(('\u{3018}', '\u{3018}'));
    v.push(('\u{301a}', '\u{301a}'));
    v.push(('\u{301d}', '\u{301d}'));
    v.push(('\u{fd3f}', '\u{fd3f}'));
    v.push(('\u{fe17}', '\u{fe17}'));
    v.push(('\u{fe35}', '\u{fe35}'));
    v.push(('\u{fe37}', '\u{fe37}'));
    v.push(('\u{fe39}', '\u{fe39}'));
    v.push(('\u{fe3b}', '\u{fe3b}'));
    v.push(('\u{fe3d}', '\u{fe3d}'));
    v.push(('\u{fe3f}', '\u{fe3f}'));
    v.push(('\u{fe41}', '\u{fe41}'));
    v.push(('\u{fe43}', '\u{fe43}'));
    v.push(('\u{fe47}', '\u{fe47}'));
    v.push(('\u{fe59}', '\u{fe59}'));
    v.push(('\u{fe5b}', '\u{fe5b}'));
    v.push(('\u{fe5d}', '\u{fe5d}'));
    v.push(('\u{ff08}', '\u{ff08}'));
    v.push(('\u{ff3b}', '\u{ff3b}'));
    v.push(('\u{ff5b}', '\u{ff5b}'));
    v.push(('\u{ff5f}', '\u{ff5f}'));
    v.push(('\u{ff62}', '\u{ff62}'));
    proof {
        assert(v@ =~= open_punctuation_part_1_ranges());
    }
    v
}

/// Build the table of [`open_punctuation_ranges`].
pub fn open_punctuation_table() -> (r: Vec<(char, char)>)
    ensures
        r@ == open_punctuation_ranges(),
{
    let mut v: Vec<(char, char)> = open_punctuation_part_0_table();
    let mut part_1: Vec<(char, char)> = open_punctuation_part_1_table();
    v.append(&mut part_1);
    v
}

/// One stretch of the `Other_Number` ranges.
pub closed spec fn other_number_part_0_ranges() -> Seq<(char, char)> {
    seq![
        ('\u{b2}', '\u{b3}'),
        ('\u{b9}', '\u{b9}'),
        ('\u{bc}', '\u{be}'),
        ('\u{9f4}', '\u{9f9}'),
        ('\u{b72}', '\u{b77}'),
        ('\u{bf0}', '\u{bf2}'),
        ('\u{c78}', '\u{c7e}'),
        ('\u{d58}', '\u{d5e}'),
        ('\u{d70}', '\u{d78}'),
        ('\u{f2a}', '\u{f33}'),
        ('\u{1369}', '\u{137c}'),
        ('\u{17f0}', '\u{17f9}'),
        ('\u{19da}', '\u{19da}'),
        ('\u{2070}', '\u{2070}'),
        ('\u{2074}', '\u{2079}'),
        ('\u{2080}', '\u{2089}'),
        ('\u{2150}', '\u{215f}'),
        ('\u{2189}', '\u{2189}'),
        ('\u{2460}', '\u{249b}'),
        ('\u{24ea}', '\u{24ff}'),
        ('\u{2776}', '\u{2793}'),
        ('\u{2cfd}', '\u{2cfd}'),
        ('\u{3192}', '\u{3195}'),
        ('\u{3220}', '\u{3229}'),
        ('\u{3248}', '\u{324f}'),
        ('\u{3251}', '\u{325f}'),
        ('\u{3280}', '\u{3289}'),
        ('\u{32b1}', '\u{32bf}'),
        ('\u{a830}', '\u{a835}'),
        ('\u{10107}', '\u{10133}'),
        ('\u{10175}', '\u{10178}'),
        ('\u{1018a}', '\u{1018b}'),
        ('\u{102e1}', '\u{102fb}'),
        ('\u{10320}', '\u{10323}'),
        ('\u{10858}', '\u{1085f}'),
        ('\u{10879}', '\u{1087f}'),
        ('\u{108a7}', '\u{108af}'),
        ('\u{108fb}', '\u{108ff}'),
        ('\u{10916}', '\u{1091b}'),
        ('\u{109bc}', '\u{109bd}'),
        ('\u{109c0}', '\u{109cf}'),
        ('\u{109d2}', '\u{109ff}'),
        ('\u{10a40}', '\u{10a48}'),
        ('\u{10a7d}', '\u{10a7e}'),
        ('\u{10a9d}', '\u{10a9f}'),
        ('\u{10aeb}', '\u{10aef}'),
        ('\u{10b58}', '\u{10b5f}'),
        ('\u{10b78}', '\u{10b7f}'),
        ('\u{10ba9}', '\u{10baf}'),
        ('\u{10cfa}', '\u{10cff}'),
    ]
}

/// One stretch of the `Other_Number` ranges.
pub closed spec fn other_number_part_1_ranges() -> Seq<(char, char)> {
    seq![
        ('\u{10e60}', '\u{10e7e}'),
        ('\u{10f1d}', '\u{10f26}'),
        ('\u{10f51}', '\u{10f54}'),
        ('\u{10fc5}', '\u{10fcb}'),
        ('\u{11052}', '\u{11065}'),
        ('\u{111e1}', '\u{111f4}'),
        ('\u{1173a}', '\u{1173b}'),
        ('\u{118ea}', '\u{118f2}'),
        ('\u{11c5a}', '\u{11c6c}'),
        ('\u{11fc0}', '\u{11fd4}'),
        ('\u{16b5b}', '\u{16b61}'),
        ('\u{16e80}', '\u{16e96}'),
        ('\u{1d2c0}', '\u{1d2d3}'),
        ('\u{1d2e0}', '\u{1d2f3}'),
        ('\u{1d360}', '\u{1d378}'),
        ('\u{1e8c7}', '\u{1e8cf}'),
        ('\u{1ec71}', '\u{1ecab}'),
        ('\u{1ecad}', '\u{1ecaf}'),
        ('\u{1ecb1}', '\u{1ecb4}'),
        ('\u{1ed01}', '\u{1ed2d}'),
        ('\u{1ed2f}', '\u{1ed3d}'),
        ('\u{1f100}', '\u{1f10c}'),
    ]
}

/// Ranges of the `Other_Number` class.
pub closed spec fn other_number_ranges() -> Seq<(char, char)> {
    other_number_part_0_ranges() + other_number_part_1_ranges()
}

/// Build one stretch of the `Other_Number` range table.
#[verifier::rlimit(100)]
fn other_number_part_0_table() -> (r: Vec<(char, char)>)
    ensures
        r@ == other_number_part_0_ranges(),
{
    let mut v: Vec<(char, char)> = Vec::new();
    v.push(('\u{b2}', '\u{b3}'));
    v.push(('\u{b9}', '\u{b9}'));
    v.push(('\u{bc}', '\u{be}'));
    v.push(('\u{9f4}', '\u{9f9}'));
    v.push(('\u{b72}', '\u{b77}'));
    v.push(('\u{bf0}', '\u{bf2}'));
    v.push(('\u{c78}', '\u{c7e}'));
    v.push(('\u{d58}', '\u{d5e}'));
    v.push(('\u{d70}', '\u{d78}'));
    v.push(('\u{f2a}', '\u{f33}'));
    v.push(('\u{1369}', '\u{137c}'));
    v.push(('\u{17f0}', '\u{17f9}'));
    v.push(('\u{19da}', '\u{19da}'));
    v.push(('\u{2070}', '\u{2070}'));
    v.push(('\u{2074}', '\u{2079}'));
    v.push(('\u{2080}', '\u{2089}'));
    v.push(('\u{2150}', '\u{215f}'));
    v.push(('\u{2189}', '\u{2189}'));
    v.push(('\u{2460}', '\u{249b}'));
    v.push(('\u{24ea}', '\u{24ff}'));
    v.push(('\u{2776}', '\u{2793}'));
    v.push(('\u{2cfd}', '\u{2cfd}'));
    v.push(('\u{3192}', '\u{3195}'));
    v.push(('\u{3220}', '\u{3229}'));
    v.push(('\u{3248}', '\u{324f}'));
    v.push(('\u{3251}', '\u{325f}'));
    v.push(('\u{3280}', '\u{3289}'));
    v.push(('\u{32b1}', '\u{32bf}'));
    v.push(('\u{a830}', '\u{a835}'));
    v.push(('\u{10107}', '\u{10133}'));
    v.push(('\u{10175}', '\u{10178}'));
    v.push(('\u{1018a}', '\u{1018b}'));
    v.push(('\u{102e1}', '\u{102fb}'));
    v.push(('\u{10320}', '\u{10323}'));
    v.push(('\u{10858}', '\u{1085f}'));
    v.push(('\u{10879}', '\u{1087f}'));
    v.push(('\u{108a7}', '\u{108af}'));
    v.push(('\u{108fb}', '\u{108ff}'));
    v.push(('\u{10916}', '\u{1091b}'));
    v.push(('\u{109bc}', '\u{109bd}'));
    v.push(('\u{109c0}', '\u{109cf}'));
    v.push(('\u{109d2}', '\u{109ff}'));
    v.push(('\u{10a40}', '\u{10a48}'));
    v.push(('\u{10a7d}', '\u{10a7e}'));
    v.push(('\u{10a9d}', '\u{10a9f}'));
    v.push(('\u{10aeb}', '\u{10aef}'));
    v.push(('\u{10b58}', '\u{10b5f}'));
    v.push(('\u{10b78}', '\u{10b7f}'));
    v.push(('\u{10ba9}', '\u{10baf}'));
    v.push(('\u{10cfa}', '\u{10cff}'));
    proof {
        assert(v@ =~= other_number_part_0_ranges());
    }
    v
}

/// Build one stretch of the `Other_Number` range table.
#[verifier::rlimit(100)]
fn other_number_part_1_table() -> (r: Vec<(char, char)>)
    ensures
        r@ == other_number_part_1_ranges(),
{
    let mut v: Vec<(char, char)> = Vec::new();
    v.push(('\u{10e60}', '\u{10e7e}'));
    v.push(('\u{10f1d}', '\u{10f26}'));
    v.push(('\u{10f51}', '\u{10f54}'));
    v.push(('\u{10fc5}', '\u{10fcb}'));
    v.push(('\u{11052}', '\u{11065}'));
    v.push(('\u{111e1}', '\u{111f4}'));
    v.push(('\u{1173a}', '\u{1173b}'));
    v.push(('\u{118ea}', '\u{118f2}'));
    v.push(('\u{11c5a}', '\u{11c6c}'));
    v.push(('\u{11fc0}', '\u{11fd4}'));
    v.push(('\u{16b5b}', '\u{16b61}'));
    v.push(('\u{16e80}', '\u{16e96}'));
    v.push(('\u{1d2c0}', '\u{1d2d3}'));
    v.push(('\u{1d2e0}', '\u{1d2f3}'));
    v.push(('\u{1d360}', '\u{1d378}'));
    v.push(('\u{1e8c7}', '\u{1e8cf}'));
    v.push(('\u{1ec71}', '\u{1ecab}'));
    v.push(('\u{1ecad}', '\u{1ecaf}'));
    v.push(('\u{1ecb1}', '\u{1ecb4}'));
    v.push(('\u{1ed01}', '\u{1ed2d}'));
    v.push(('\u{1ed2f}', '\u{1ed3d}'));
    v.push(('\u{1f100}', '\u{1f10c}'));
    proof {
        assert(v@ =~= other_number_part_1_ranges());
    }
    v
}

/// Build the table of [`other_number_ranges`].
pub fn other_number_table() -> (r: Vec<(char, char)>)
    ensures
        r@ == other_number_ranges(),
{
    let mut v: Vec<(char, char)> = other_number_part_0_table();
    let mut part_1: Vec<(char, char)> = other_number_part_1_table();
    v.append(&mut part_1);
    v
}

/// Ranges of the `Paragraph_Separator` class.
pub closed spec fn paragraph_separator_ranges() -> Seq<(char, char)> {
    seq![
        ('\u{2029}', '\u{2029}'),
    ]
}

/// Build the table of [`paragraph_separator_ranges`].
#[verifier::rlimit(100)]
pub fn paragraph_separator_table() -> (r: Vec<(char, char)>)
    ensures
        r@ == paragraph_separator_ranges(),
{
    let mut v: Vec<(char, char)> = Vec::new();
    v.push(('\u{2029}', '\u{2029}'));
    proof {
        assert(v@ =~= paragraph_separator_ranges());
    }
    v
}

/// Ranges of the `Private_Use` class.
pub closed spec fn private_use_ranges() -> Seq<(char, char)> {
    seq![
        ('\u{e000}', '\u{f8ff}'),
        ('\u{f0000}', '\u{ffffd}'),
        ('\u{100000}', '\u{10fffd}'),
    ]
}

/// Build the table of [`private_use_ranges`].
#[verifier::rlimit(100)]
pub fn private_use_table() -> (r: Vec<(char, char)>)
    ensures
        r@ == private_use_ranges(),
{
    let mut v: Vec<(char, char)> = Vec::new();
    v.push(('\u{e000}', '\u{f8ff}'));
    v.push(('\u{f0000}', '\u{ffffd}'));
    v.push(('\u{100000}', '\u{10fffd}'));
    proof {
        assert(v@ =~= private_use_ranges());
    }
    v
}

/// Ranges of the `Separator` class.
pub closed spec fn separator_ranges() -> Seq<(char, char)> {
    seq![
        (' ', ' '),
        ('\u{a0}', '\u{a0}'),
        ('\u{1680}', '\u{1680}'),
        ('\u{2000}', '\u{200a}'),
        ('\u{2028}', '\u{2029}'),
        ('\u{202f}', '\u{202f}'),
        ('\u{205f}', '\u{205f}'),
        ('\u{3000}', '\u{3000}'),
    ]
}

/// Build the table of [`separator_ranges`].
#[verifier::rlimit(100)]
pub fn separator_table() -> (r: Vec<(char, char)>)
    ensures
        r@ == separator_ranges(),
{
    let mut v: Vec<(char, char)> = Vec::new();
    v.push((' ', ' '));
    v.push(('\u{a0}', '\u{a0}'));
    v.push(('\u{1680}', '\u{1680}'));
    v.push(('\u{2000}', '\u{200a}'));
    v.push(('\u{2028}', '\u{2029}'));
    v.push(('\u{202f}', '\u{202f}'));
    v.push(('\u{205f}', '\u{205f}'));
    v.push(('\u{3000}', '\u{3000}'));
    proof {
        assert(v@ =~= separator_ranges());
    }
    v
}

/// Ranges of the `Space_Separator` class.
pub closed spec fn space_separator_ranges() -> Seq<(char, char)> {
    seq![
        (' ', ' '),
        ('\u{a0}', '\u{a0}'),
        ('\u{1680}', '\u{1680}'),
        ('\u{2000}', '\u{200a}'),
        ('\u{202f}', '\u{202f}'),
        ('\u{205f}', '\u{205f}'),
        ('\u{3000}', '\u{3000}'),
    ]
}

/// Build the table of [`space_separator_ranges`].
#[verifier::rlimit(100)]
pub fn space_separator_table() -> (r: Vec<(char, char)>)
    ensures
        r@ == space_separator_ranges(),
{
    let mut v: Vec<(char, char)> = Vec::new();
    v.push((' ', ' '));
    v.push(('\u{a0}', '\u{a0}'));
    v.push(('\u{1680}', '\u{1680}'));
    v.push(('\u{2000}', '\u{200a}'));
    v.push(('\u{202f}', '\u{202f}'));
    v.push(('\u{205f}', '\u{205f}'));
    v.push(('\u{3000}', '\u{3000}'));
    proof {
        assert(v@ =~= space_separator_ranges());
    }
    v
}

/// Ranges of the `Titlecase_Letter` class.
pub closed spec fn titlecase_letter_ranges() -> Seq<(char, char)> {
    seq![
        ('\u{1c5}', '\u{1c5}'),
        ('\u{1c8}', '\u{1c8}'),
        ('\u{1cb}', '\u{1cb}'),
        ('\u{1f2}', '\u{1f2}'),
        ('\u{1f88}', '\u{1f8f}'),
        ('\u{1f98}', '\u{1f9f}'),
        ('\u{1fa8}', '\u{1faf}'),
        ('\u{1fbc}', '\u{1fbc}'),
        ('\u{1fcc}', '\u{1fcc}'),
        ('\u{1ffc}', '\u{1ffc}'),
    ]
}

/// Build the table of [`titlecase_letter_ranges`].
#[verifier::rlimit(100)]
pub fn titlecase_letter_table() -> (r: Vec<(char, char)>)
    ensures
        r@ == titlecase_letter_ranges(),
{
    let mut v: Vec<(char, char)> = Vec::new();
    v.push(('\u{1c5}', '\u{1c5}'));
    v.push(('\u{1c8}', '\u{1c8}'));
    v.push(('\u{1cb}', '\u{1cb}'));
    v.push(('\u{1f2}', '\u{1f2}'));
    v.push(('\u{1f88}', '\u{1f8f}'));
    v.push(('\u{1f98}', '\u{1f9f}'));
    v.push(('\u{1fa8}', '\u{1faf}'));
    v.push(('\u{1fbc}', '\u{1fbc}'));
    v.push(('\u{1fcc}', '\u{1fcc}'));
    v.push(('\u{1ffc}', '\u{1ffc}'));
    proof {
        assert(v@ =~= titlecase_letter_ranges());
    }
    v
}

/// Ranges of the `ASCII_Hex_Digit` class.
pub closed spec fn ascii_hex_digit_ranges() -> Seq<(char, char)> {
    seq![
        ('0', '9'),
        ('A', 'F'),
        ('a', 'f'),
    ]
}

/// Build the table of [`ascii_hex_digit_ranges`].
#[verifier::rlimit(100)]
pub fn ascii_hex_digit_table() -> (r: Vec<(char, char)>)
    ensures
        r@ == ascii_hex_digit_ranges(),
{
    let mut v: Vec<(char, char)> = Vec::new();
    v.push(('0', '9'));
    v.push(('A', 'F'));
    v.push(('a', 'f'));
    proof {
        assert(v@ =~= ascii_hex_digit_ranges());
    }
    v
}

/// Ranges of the `Bidi_Control` class.
pub closed spec fn bidi_control_ranges() -> Seq<(char, char)> {
    seq![
        ('\u{61c}', '\u{61c}'),
        ('\u{200e}', '\u{200f}'),
        ('\u{202a}', '\u{202e}'),
        ('\u{2066}', '\u{2069}'),
    ]
}

/// Build the table of [`bidi_control_ranges`].
#[verifier::rlimit(100)]
pub fn bidi_control_table() -> (r: Vec<(char, char)>)
    ensures
        r@ == bidi_control_ranges(),
{
    let mut v: Vec<(char, char)> = Vec::new();
    v.push(('\u{61c}', '\u{61c}'));
    v.push(('\u{200e}', '\u{200f}'));
    v.push(('\u{202a}', '\u{202e}'));
    v.push(('\u{2066}', '\u{2069}'));
    proof {
        assert(v@ =~= bidi_control_ranges());
    }
    v
}

/// One stretch of the `Bidi_Mirrored` ranges.
pub closed spec fn bidi_mirrored_part_0_ranges() -> Seq<(char, char)> {
    seq![
        ('(', ')'),
        ('<', '<'),
        ('>', '>'),
        ('[', '['),
        (']', ']'),
        ('{', '{'),
        ('}', '}'),
        ('\u{ab}', '\u{ab}'),
        ('\u{bb}', '\u{bb}'),
        ('\u{f3a}', '\u{f3d}'),
        ('\u{169b}', '\u{169c}'),
        ('\u{2039}', '\u{203a}'),
        ('\u{2045}', '\u{2046}'),
        ('\u{207d}', '\u{207e}'),
        ('\u{208d}', '\u{208e}'),
        ('\u{2140}', '\u{2140}'),
        ('\u{2201}', '\u{2204}'),
        ('\u{2208}', '\u{220d}'),
        ('\u{2211}', '\u{2211}'),
        ('\u{2215}', '\u{2216}'),
        ('\u{221a}', '\u{221d}'),
        ('\u{221f}', '\u{2222}'),
        ('\u{2224}', '\u{2224}'),
        ('\u{2226}', '\u{2226}'),
        ('\u{222b}', '\u{2233}'),
        ('\u{2239}', '\u{2239}'),
        ('\u{223b}', '\u{224c}'),
        ('\u{2252}', '\u{2255}'),
        ('\u{225f}', '\u{2260}'),
        ('\u{2262}', '\u{2262}'),
        ('\u{2264}', '\u{226b}'),
        ('\u{226d}', '\u{228c}'),
        ('\u{228f}', '\u{2292}'),
        ('\u{2298}', '\u{2298}'),
        ('\u{22a2}', '\u{22a3}'),
        ('\u{22a6}', '\u{22b8}'),
        ('\u{22be}', '\u{22bf}'),
        ('\u{22c9}', '\u{22cd}'),
        ('\u{22d0}', '\u{22d1}'),
        ('\u{22d6}', '\u{22ed}'),
        ('\u{22f0}', '\u{22ff}'),
        ('\u{2308}', '\u{230b}'),
        ('\u{2320}', '\u{2321}'),
        ('\u{2329}', '\u{232a}'),
        ('\u{2768}', '\u{2775}'),
        ('\u{27c0}', '\u{27c0}'),
        ('\u{27c3}', '\u{27c6}'),
        ('\u{27c8}', '\u{27c9}'),
        ('\u{27cb}', '\u{27cd}'),
        ('\u{27d3}', '\u{27d6}'),
    ]
}

/// One stretch of the `Bidi_Mirrored` ranges.
pub closed spec fn bidi_mirrored_part_1_ranges() -> Seq<(char, char)> {
    seq![
        ('\u{27dc}', '\u{27de}'),
        ('\u{27e2}', '\u{27ef}'),
        ('\u{2983}', '\u{2998}'),
        ('\u{299b}', '\u{29a0}'),
        ('\u{29a2}', '\u{29af}'),
        ('\u{29b8}', '\u{29b8}'),
        ('\u{29c0}', '\u{29c5}'),
        ('\u{29c9}', '\u{29c9}'),
        ('\u{29ce}', '\u{29d2}'),
        ('\u{29d4}', '\u{29d5}'),
        ('\u{29d8}', '\u{29dc}'),
        ('\u{29e1}', '\u{29e1}'),
        ('\u{29e3}', '\u{29e5}'),
        ('\u{29e8}', '\u{29e9}'),
        ('\u{29f4}', '\u{29f9}'),
        ('\u{29fc}', '\u{29fd}'),
        ('\u{2a0a}', '\u{2a1c}'),
        ('\u{2a1e}', '\u{2a21}'),
        ('\u{2a24}', '\u{2a24}'),
        ('\u{2a26}', '\u{2a26}'),
        ('\u{2a29}', '\u{2a29}'),
        ('\u{2a2b}', '\u{2a2e}'),
        ('\u{2a34}', '\u{2a35}'),
        ('\u{2a3c}', '\u{2a3e}'),
        ('\u{2a57}', '\u{2a58}'),
        ('\u{2a64}', '\u{2a65}'),
        ('\u{2a6a}', '\u{2a6d}'),
        ('\u{2a6f}', '\u{2a70}'),
        ('\u{2a73}', '\u{2a74}'),
        ('\u{2a79}', '\u{2aa3}'),
        ('\u{2aa6}', '\u{2aad}'),
        ('\u{2aaf}', '\u{2ad6}'),
        ('\u{2adc}', '\u{2adc}'),
        ('\u{2ade}', '\u{2ade}'),
        ('\u{2ae2}', '\u{2ae6}'),
        ('\u{2aec}', '\u{2aee}'),
        ('\u{2af3}', '\u{2af3}'),
        ('\u{2af7}', '\u{2afb}'),
        ('\u{2afd}', '\u{2afd}'),
        ('\u{2bfe}', '\u{2bfe}'),
        ('\u{2e02}', '\u{2e05}'),
        ('\u{2e09}', '\u{2e0a}'),
        ('\u{2e0c}', '\u{2e0d}'),
        ('\u{2e1c}', '\u{2e1d}'),
        ('\u{2e20}', '\u{2e29}'),
        ('\u{2e55}', '\u{2e5c}'),
        ('\u{3008}', '\u{3011}'),
        ('\u{3014}', '\u{301b}'),
        ('\u{fe59}', '\u{fe5e}'),
        ('\u{fe64}', '\u{fe65}'),
    ]
}

/// One stretch of the `Bidi_Mirrored` ranges.
pub closed spec fn bidi_mirrored_part_2_ranges() -> Seq<(char, char)> {
    seq![
        ('\u{ff08}', '\u{ff09}'),
        ('\u{ff1c}', '\u{ff1c}'),
        ('\u{ff1e}', '\u{ff1e}'),
        ('\u{ff3b}', '\u{ff3b}'),
        ('\u{ff3d}', '\u{ff3d}'),
        ('\u{ff5b}', '\u{ff5b}'),
        ('\u{ff5d}', '\u{ff5d}'),
        ('\u{ff5f}', '\u{ff60}'),
        ('\u{ff62}', '\u{ff63}'),
        ('\u{1d6db}', '\u{1d6db}'),
        ('\u{1d715}', '\u{1d715}'),
        ('\u{1d74f}', '\u{1d74f}'),
        ('\u{1d789}', '\u{1d789}'),
        ('\u{1d7c3}', '\u{1d7c3}'),
    ]
}

/// Ranges of the `Bidi_Mirrored` class.
pub closed spec fn bidi_mirrored_ranges() -> Seq<(char, char)> {
    bidi_mirrored_part_0_ranges() + bidi_mirrored_part_1_ranges() + bidi_mirrored_part_2_ranges()
}

/// Build one stretch of the `Bidi_Mirrored` range table.
#[verifier::rlimit(100)]
fn bidi_mirrored_part_0_table() -> (r: Vec<(char, char)>)
    ensures
        r@ == bidi_mirrored_part_0_ranges(),
{
    let mut v: Vec<(char, char)> = Vec::new();
    v.push(('(', ')'));
    v.push(('<', '<'));
    v.push(('>', '>'));
    v.push(('[', '['));
    v.push((']', ']'));
    v.push(('{', '{'));
    v.push(('}', '}'));
    v.push(('\u{ab}', '\u{ab}'));
    v.push(('\u{bb}', '\u{bb}'));
    v.push(('\u{f3a}', '\u{f3d}'));
    v.push(('\u{169b}', '\u{169c}'));
    v.push(('\u{2039}', '\u{203a}'));
    v.push(('\u{2045}', '\u{2046}'));
    v.push(('\u{207d}', '\u{207e}'));
    v.push(('\u{208d}', '\u{208e}'));
    v.push(('\u{2140}', '\u{2140}'));
    v.push(('\u{2201}', '\u{2204}'));
    v.push(('\u{2208}', '\u{220d}'));
    v.push(('\u{2211}', '\u{2211}'));
    v.push(('\u{2215}', '\u{2216}'));
    v.push(('\u{221a}', '\u{221d}'));
    v.push(('\u{221f}', '\u{2222}'));
    v.push(('\u{2224}', '\u{2224}'));
    v.push(('\u{2226}', '\u{2226}'));
    v.push(('\u{222b}', '\u{2233}'));
    v.push(('\u{2239}', '\u{2239}'));
    v.push(('\u{223b}', '\u{224c}'));
    v.push(('\u{2252}', '\u{2255}'));
    v.push(('\u{225f}', '\u{2260}'));
    v.push(('\u{2262}', '\u{2262}'));
    v.push(('\u{2264}', '\u{226b}'));
    v.push(('\u{226d}', '\u{228c}'));
    v.push(('\u{228f}', '\u{2292}'));
    v.push(('\u{2298}', '\u{2298}'));
    v.push(('\u{22a2}', '\u{22a3}'));
    v.push(('\u{22a6}', '\u{22b8}'));
    v.push(('\u{22be}', '\u{22bf}'));
    v.push(('\u{22c9}', '\u{22cd}'));
    v.push(('\u{22d0}', '\u{22d1}'));
    v.push(('\u{22d6}', '\u{22ed}'));
    v.push(('\u{22f0}', '\u{22ff}'));
    v.push(('\u{2308}', '\u{230b}'));
    v.push(('\u{2320}', '\u{2321}'));
    v.push(('\u{2329}', '\u{232a}'));
    v.push(('\u{2768}', '\u{2775}'));
    v.push(('\u{27c0}', '\u{27c0}'));
    v.push(('\u{27c3}', '\u{27c6}'));
    v.push(('\u{27c8}', '\u{27c9}'));
    v.push(('\u{27cb}', '\u{27cd}'));
    v.push(('\u{27d3}', '\u{27d6}'));
    proof {
        assert(v@ =~= bidi_mirrored_part_0_ranges());
    }
    v
}

/// Build one stretch of the `Bidi_Mirrored` range table.
#[verifier::rlimit(100)]
fn bidi_mirrored_part_1_table() -> (r: Vec<(char, char)>)
    ensures
        r@ == bidi_mirrored_part_1_ranges(),
{
    let mut v: Vec<(char, char)> = Vec::new();
    v.push(('\u{27dc}', '\u{27de}'));
    v.push(('\u{27e2}', '\u{27ef}'));
    v.push(('\u{2983}', '\u{2998}'));
    v.push(('\u{299b}', '\u{29a0}'));
    v.push(('\u{29a2}', '\u{29af}'));
    v.push(('\u{29b8}', '\u{29b8}'));
    v.push(('\u{29c0}', '\u{29c5}'));
    v.push(('\u{29c9}', '\u{29c9}'));
    v.push(('\u{29ce}', '\u{29d2}'));
    v.push(('\u{29d4}', '\u{29d5}'));
    v.push(('\u{29d8}', '\u{29dc}'));
    v.push(('\u{29e1}', '\u{29e1}'));
    v.push(('\u{29e3}', '\u{29e5}'));
    v.push(('\u{29e8}', '\u{29e9}'));
    v.push(('\u{29f4}', '\u{29f9}'));
    v.push(('\u{29fc}', '\u{29fd}'));
    v.push(('\u{2a0a}', '\u{2a1c}'));
    v.push(('\u{2a1e}', '\u{2a21}'));
    v.push(('\u{2a24}', '\u{2a24}'));
    v.push(('\u{2a26}', '\u{2a26}'));
    v.push(('\u{2a29}', '\u{2a29}'));
    v.push(('\u{2a2b}', '\u{2a2e}'));
    v.push(('\u{2a34}', '\u{2a35}'));
    v.push(('\u{2a3c}', '\u{2a3e}'));
    v.push(('\u{2a57}', '\u{2a58}'));
    v.push(('\u{2a64}', '\u{2a65}'));
    v.push(('\u{2a6a}', '\u{2a6d}'));
    v.push(('\u{2a6f}', '\u{2a70}'));
    v.push(('\u{2a73}', '\u{2a74}'));
    v.push(('\u{2a79}', '\u{2aa3}'));
    v.push(('\u{2aa6}', '\u{2aad}'));
    v.push(('\u{2aaf}', '\u{2ad6}'));
    v.push(('\u{2adc}', '\u{2adc}'));
    v.push(('\u{2ade}', '\u{2ade}'));
    v.push(('\u{2ae2}', '\u{2ae6}'));
    v.push(('\u{2aec}', '\u{2aee}'));
    v.push(('\u{2af3}', '\u{2af3}'));
    v.push(('\u{2af7}', '\u{2afb}'));
    v.push(('\u{2afd}', '\u{2afd}'));
    v.push(('\u{2bfe}', '\u{2bfe}'));
    v.push(('\u{2e02}', '\u{2e05}'));
    v.push(('\u{2e09}', '\u{2e0a}'));
    v.push(('\u{2e0c}', '\u{2e0d}'));
    v.push(('\u{2e1c}', '\u{2e1d}'));
    v.push(('\u{2e20}', '\u{2e29}'));
    v.push(('\u{2e55}', '\u{2e5c}'));
    v.push(('\u{3008}', '\u{3011}'));
    v.push(('\u{3014}', '\u{301b}'));
    v.push(('\u{fe59}', '\u{fe5e}'));
    v.push(('\u{fe64}', '\u{fe65}'));
    proof {
        assert(v@ =~= bidi_mirrored_part_1_ranges());
    }
    v
}

/// Build one stretch of the `Bidi_Mirrored` range table.
#[verifier::rlimit(100)]
fn bidi_mirrored_part_2_table() -> (r: Vec<(char, char)>)
    ensures
        r@ == bidi_mirrored_part_2_ranges(),
{
    let mut v: Vec<(char, char)> = Vec::new();
    v.push(('\u{ff08}', '\u{ff09}'));
    v.push(('\u{ff1c}', '\u{ff1c}'));
    v.push(('\u{ff1e}', '\u{ff1e}'));
    v.push(('\u{ff3b}', '\u{ff3b}'));
    v.push(('\u{ff3d}', '\u{ff3d}'));
    v.push(('\u{ff5b}', '\u{ff5b}'));
    v.push(('\u{ff5d}', '\u{ff5d}'));
    v.push(('\u{ff5f}', '\u{ff60}'));
    v.push(('\u{ff62}', '\u{ff63}'));
    v.push(('\u{1d6db}', '\u{1d6db}'));
    v.push(('\u{1d715}', '\u{1d715}'));
    v.push(('\u{1d74f}', '\u{1d74f}'));
    v.push(('\u{1d789}', '\u{1d789}'));
    v.push(('\u{1d7c3}', '\u{1d7c3}'));
    proof {
        assert(v@ =~= bidi_mirrored_part_2_ranges());
    }
    v
}

/// Build the table of [`bidi_mirrored_ranges`].
pub fn bidi_mirrored_table() -> (r: Vec<(char, char)>)
    ensures
        r@ == bidi_mirrored_ranges(),
{
    let mut v: Vec<(char, char)> = bidi_mirrored_part_0_table();
    let mut part_1: Vec<(char, char)> = bidi_mirrored_part_1_table();
    v.append(&mut part_1);
    let mut part_2: Vec<(char, char)> = bidi_mirrored_part_2_table();
    v.append(&mut part_2);
    v
}

/// Ranges of the `Dash` class.
pub closed spec fn dash_ranges() -> Seq<(char, char)> {
    seq![
        ('-', '-'),
        ('\u{58a}', '\u{58a}'),
        ('\u{5be}', '\u{5be}'),
        ('\u{1400}', '\u{1400}'),
        ('\u{1806}', '\u{1806}'),
        ('\u{2010}', '\u{2015}'),
        ('\u{2053}', '\u{2053}'),
        ('\u{207b}', '\u{207b}'),
        ('\u{208b}', '\u{208b}'),
        ('\u{2212}', '\u{2212}'),
        ('\u{2e17}', '\u{2e17}'),
        ('\u{2e1a}', '\u{2e1a}'),
        ('\u{2e3a}', '\u{2e3b}'),
        ('\u{2e40}', '\u{2e40}'),
        ('\u{2e5d}', '\u{2e5d}'),
        ('\u{301c}', '\u{301c}'),
        ('\u{3030}', '\u{3030}'),
        ('\u{30a0}', '\u{30a0}'),
        ('\u{fe31}', '\u{fe32}'),
        ('\u{fe58}', '\u{fe58}'),
        ('\u{fe63}', '\u{fe63}'),
        ('\u{ff0d}', '\u{ff0d}'),
        ('\u{10d6e}', '\u{10d6e}'),
        ('\u{10ead}', '\u{10ead}'),
    ]
}

/// Build the table of [`dash_ranges`].
#[verifier::rlimit(100)]
pub fn dash_table() -> (r: Vec<(char, char)>)
    ensures
        r@ == dash_ranges(),
{
    let mut v: Vec<(char, char)> = Vec::new();
    v.push(('-', '-'));
    v.push(('\u{58a}', '\u{58a}'));
    v.push(('\u{5be}', '\u{5be}'));
    v.push(('\u{1400}', '\u{1400}'));
    v.push(('\u{1806}', '\u{1806}'));
    v.push(('\u{2010}', '\u{2015}'));
    v.push(('\u{2053}', '\u{2053}'));
    v.push(('\u{207b}', '\u{207b}'));
    v.push(('\u{208b}', '\u{208b}'));
    v.push(('\u{2212}', '\u{2212}'));
    v.push(('\u{2e17}', '\u{2e17}'));
    v.push(('\u{2e1a}', '\u{2e1a}'));
    v.push(('\u{2e3a}', '\u{2e3b}'));
    v.push(('\u{2e40}', '\u{2e40}'));
    v.push(('\u{2e5d}', '\u{2e5d}'));
    v.push(('\u{301c}', '\u{301c}'));
    v.push(('\u{3030}', '\u{3030}'));
    v.push(('\u{30a0}', '\u{30a0}'));
    v.push(('\u{fe31}', '\u{fe32}'));
    v.push(('\u{fe58}', '\u{fe58}'));
    v.push(('\u{fe63}', '\u{fe63}'));
    v.push(('\u{ff0d}', '\u{ff0d}'));
    v.push(('\u{10d6e}', '\u{10d6e}'));
    v.push(('\u{10ead}', '\u{10ead}'));
    proof {
        assert(v@ =~= dash_ranges());
    }
    v
}

/// Ranges of the `Default_Ignorable_Code_Point` class.
pub closed spec fn default_ignorable_code_point_ranges() -> Seq<(char, char)> {
    seq![
        ('\u{ad}', '\u{ad}'),
        ('\u{34f}', '\u{34f}'),
        ('\u{61c}', '\u{61c}'),
        ('\u{115f}', '\u{1160}'),
        ('\u{17b4}', '\u{17b5}'),
        ('\u{180b}', '\u{180f}'),
        ('\u{200b}', '\u{200f}'),
        ('\u{202a}', '\u{202e}'),
        ('\u{2060}', '\u{206f}'),
        ('\u{3164}', '\u{3164}'),
        ('\u{fe00}', '\u{fe0f}'),
        ('\u{feff}', '\u{feff}'),
        ('\u{ffa0}', '\u{ffa0}'),
        ('\u{fff0}', '\u{fff8}'),
        ('\u{1bca0}', '\u{1bca3}'),
        ('\u{1d173}', '\u{1d17a}'),
        ('\u{e0000}', '\u{e0fff}'),
    ]
}

/// Build the table of [`default_ignorable_code_point_ranges`].
#[verifier::rlimit(100)]
pub fn default_ignorable_code_point_table() -> (r: Vec<(char, char)>)
    ensures
        r@ == default_ignorable_code_point_ranges(),
{
    let mut v: Vec<(char, char)> = Vec::new();
    v.push(('\u{ad}', '\u{ad}'));
    v.push(('\u{34f}', '\u{34f}'));
    v.push(('\u{61c}', '\u{61c}'));
    v.push(('\u{115f}', '\u{1160}'));
    v.push(('\u{17b4}', '\u{17b5}'));
    v.push(('\u{180b}', '\u{180f}'));
    v.push(('\u{200b}', '\u{200f}'));
    v.push(('\u{202a}', '\u{202e}'));
    v.push(('\u{2060}', '\u{206f}'));
    v.push(('\u{3164}', '\u{3164}'));
    v.push(('\u{fe00}', '\u{fe0f}'));
    v.push(('\u{feff}', '\u{feff}'));
    v.push(('\u{ffa0}', '\u{ffa0}'));
    v.push(('\u{fff0}', '\u{fff8}'));
    v.push(('\u{1bca0}', '\u{1bca3}'));
    v.push(('\u{1d173}', '\u{1d17a}'));
    v.push(('\u{e0000}', '\u{e0fff}'));
    proof {
        assert(v@ =~= default_ignorable_code_point_ranges());
    }
    v
}

/// Ranges of the `Deprecated` class.
pub closed spec fn deprecated_ranges() -> Seq<(char, char)> {
    seq![
        ('\u{149}', '\u{149}'),
        ('\u{673}', '\u{673}'),
        ('\u{f77}', '\u{f77}'),
        ('\u{f79}', '\u{f79}'),
        ('\u{17a3}', '\u{17a4}'),
        ('\u{206a}', '\u{206f}'),
        ('\u{2329}', '\u{232a}'),
        ('\u{e0001}', '\u{e0001}'),
    ]
}

/// Build the table of [`deprecated_ranges`].
#[verifier::rlimit(100)]
pub fn deprecated_table() -> (r: Vec<(char, char)>)
    ensures
        r@ == deprecated_ranges(),
{
    let mut v: Vec<(char, char)> = Vec::new();
    v.push(('\u{149}', '\u{149}'));
    v.push(('\u{673}', '\u{673}'));
    v.push(('\u{f77}', '\u{f77}'));
    v.push(('\u{f79}', '\u{f79}'));
    v.push(('\u{17a3}', '\u{17a4}'));
    v.push(('\u{206a}', '\u{206f}'));
    v.push(('\u{2329}', '\u{232a}'));
    v.push(('\u{e0001}', '\u{e0001}'));
    proof {
        assert(v@ =~= deprecated_ranges());
    }
    v
}

/// Ranges of the `Emoji_Component` class.
pub closed spec fn emoji_component_ranges() -> Seq<(char, char)> {
    seq![
        ('#', '#'),
        ('*', '*'),
        ('0', '9'),
        ('\u{200d}', '\u{200d}'),
        ('\u{20e3}', '\u{20e3}'),
        ('\u{fe0f}', '\u{fe0f}'),
        ('\u{1f1e6}', '\u{1f1ff}'),
        ('\u{1f3fb}', '\u{1f3ff}'),
        ('\u{1f9b0}', '\u{1f9b3}'),
        ('\u{e0020}', '\u{e007f}'),
    ]
}

/// Build the table of [`emoji_component_ranges`].
#[verifier::rlimit(100)]
pub fn emoji_component_table() -> (r: Vec<(char, char)>)
    ensures
        r@ == emoji_component_ranges(),
{
    let mut v: Vec<(char, char)> = Vec::new();
    v.push(('#', '#'));
    v.push(('*', '*'));
    v.push(('0', '9'));
    v.push(('\u{200d}', '\u{200d}'));
    v.push(('\u{20e3}', '\u{20e3}'));
    v.push(('\u{fe0f}', '\u{fe0f}'));
    v.push(('\u{1f1e6}', '\u{1f1ff}'));
    v.push(('\u{1f3fb}', '\u{1f3ff}'));
    v.push(('\u{1f9b0}', '\u{1f9b3}'));
    v.push(('\u{e0020}', '\u{e007f}'));
    proof {
        assert(v@ =~= emoji_component_ranges());
    }
    v
}

/// Ranges of the `Emoji_Modifier` class.
pub closed spec fn emoji_modifier_ranges() -> Seq<(char, char)> {
    seq![
        ('\u{1f3fb}', '\u{1f3ff}'),
    ]
}

/// Build the table of [`emoji_modifier_ranges`].
#[verifier::rlimit(100)]
pub fn emoji_modifier_table() -> (r: Vec<(char, char)>)
    ensures
        r@ == emoji_modifier_ranges(),
{
    let mut v: Vec<(char, char)> = Vec::new();
    v.push(('\u{1f3fb}', '\u{1f3ff}'));
    proof {
        assert(v@ =~= emoji_modifier_ranges());
    }
    v
}

/// Ranges of the `Emoji_Modifier_Base` class.
pub closed spec fn emoji_modifier_base_ranges() -> Seq<(char, char)> {
    seq![
        ('\u{261d}', '\u{261d}'),
        ('\u{26f9}', '\u{26f9}'),
        ('\u{270a}', '\u{270d}'),
        ('\u{1f385}', '\u{1f385}'),
        ('\u{1f3c2}', '\u{1f3c4}'),
        ('\u{1f3c7}', '\u{1f3c7}'),
        ('\u{1f3ca}', '\u{1f3cc}'),
        ('\u{1f442}', '\u{1f443}'),
        ('\u{1f446}', '\u{1f450}'),
        ('\u{1f466}', '\u{1f478}'),
        ('\u{1f47c}', '\u{1f47c}'),
        ('\u{1f481}', '\u{1f483}'),
        ('\u{1f485}', '\u{1f487}'),
        ('\u{1f48f}', '\u{1f48f}'),
        ('\u{1f491}', '\u{1f491}'),
        ('\u{1f4aa}', '\u{1f4aa}'),
        ('\u{1f574}', '\u{1f575}'),
        ('\u{1f57a}', '\u{1f57a}'),
        ('\u{1f590}', '\u{1f590}'),
        ('\u{1f595}', '\u{1f596}'),
        ('\u{1f645}', '\u{1f647}'),
        ('\u{1f64b}', '\u{1f64f}'),
        ('\u{1f6a3}', '\u{1f6a3}'),
        ('\u{1f6b4}', '\u{1f6b6}'),
        ('\u{1f6c0}', '\u{1f6c0}'),
        ('\u{1f6cc}', '\u{1f6cc}'),
        ('\u{1f90c}', '\u{1f90c}'),
        ('\u{1f90f}', '\u{1f90f}'),
        ('\u{1f918}', '\u{1f91f}'),
        ('\u{1f926}', '\u{1f926}'),
        ('\u{1f930}', '\u{1f939}'),
        ('\u{1f93c}', '\u{1f93e}'),
        ('\u{1f977}', '\u{1f977}'),
        ('\u{1f9b5}', '\u{1f9b6}'),
        ('\u{1f9b8}', '\u{1f9b9}'),
        ('\u{1f9bb}', '\u{1f9bb}'),
        ('\u{1f9cd}', '\u{1f9cf}'),
        ('\u{1f9d1}', '\u{1f9dd}'),
        ('\u{1fac3}', '\u{1fac5}'),
        ('\u{1faf0}', '\u{1faf8}'),
    ]
}

/// Build the table of [`emoji_modifier_base_ranges`].
#[verifier::rlimit(100)]
pub fn emoji_modifier_base_table() -> (r: Vec<(char, char)>)
    ensures
        r@ == emoji_modifier_base_ranges(),
{
    let mut v: Vec<(char, char)> = Vec::new();
    v.push(('\u{261d}', '\u{261d}'));
    v.push(('\u{26f9}', '\u{26f9}'));
    v.push(('\u{270a}', '\u{270d}'));
    v.push(('\u{1f385}', '\u{1f385}'));
    v.push(('\u{1f3c2}', '\u{1f3c4}'));
    v.push(('\u{1f3c7}', '\u{1f3c7}'));
    v.push(('\u{1f3ca}', '\u{1f3cc}'));
    v.push(('\u{1f442}', '\u{1f443}'));
    v.push(('\u{1f446}', '\u{1f450}'));
    v.push(('\u{1f466}', '\u{1f478}'));
    v.push(('\u{1f47c}', '\u{1f47c}'));
    v.push(('\u{1f481}', '\u{1f483}'));
    v.push(('\u{1f485}', '\u{1f487}'));
    v.push(('\u{1f48f}', '\u{1f48f}'));
    v.push(('\u{1f491}', '\u{1f491}'));
    v.push(('\u{1f4aa}', '\u{1f4aa}'));
    v.push(('\u{1f574}', '\u{1f575}'));
    v.push(('\u{1f57a}', '\u{1f57a}'));
    v.push(('\u{1f590}', '\u{1f590}'));
    v.push(('\u{1f595}', '\u{1f596}'));
    v.push(('\u{1f645}', '\u{1f647}'));
    v.push(('\u{1f64b}', '\u{1f64f}'));
    v.push(('\u{1f6a3}', '\u{1f6a3}'));
    v.push(('\u{1f6b4}', '\u{1f6b6}'));
    v.push(('\u{1f6c0}', '\u{1f6c0}'));
    v.push(('\u{1f6cc}', '\u{1f6cc}'));
    v.push(('\u{1f90c}', '\u{1f90c}'));
    v.push(('\u{1f90f}', '\u{1f90f}'));
    v.push(('\u{1f918}', '\u{1f91f}'));
    v.push(('\u{1f926}', '\u{1f926}'));
    v.push(('\u{1f930}', '\u{1f939}'));
    v.push(('\u{1f93c}', '\u{1f93e}'));
    v.push(('\u{1f977}', '\u{1f977}'));
    v.push(('\u{1f9b5}', '\u{1f9b6}'));
    v.push(('\u{1f9b8}', '\u{1f9b9}'));
    v.push(('\u{1f9bb}', '\u{1f9bb}'));
    v.push(('\u{1f9cd}', '\u{1f9cf}'));
    v.push(('\u{1f9d1}', '\u{1f9dd}'));
    v.push(('\u{1fac3}', '\u{1fac5}'));
    v.push(('\u{1faf0}', '\u{1faf8}'));
    proof {
        assert(v@ =~= emoji_modifier_base_ranges());
    }
    v
}

/// One stretch of the `Emoji_Presentation` ranges.
pub closed spec fn emoji_presentation_part_0_ranges() -> Seq<(char, char)> {
    seq![
        ('\u{231a}', '\u{231b}'),
        ('\u{23e9}', '\u{23ec}'),
        ('\u{23f0}', '\u{23f0}'),
        ('\u{23f3}', '\u{23f3}'),
        ('\u{25fd}', '\u{25fe}'),
        ('\u{2614}', '\u{2615}'),
        ('\u{2648}', '\u{2653}'),
        ('\u{267f}', '\u{267f}'),
        ('\u{2693}', '\u{2693}'),
        ('\u{26a1}', '\u{26a1}'),
        ('\u{26aa}', '\u{26ab}'),
        ('\u{26bd}', '\u{26be}'),
        ('\u{26c4}', '\u{26c5}'),
        ('\u{26ce}', '\u{26ce}'),
        ('\u{26d4}', '\u{26d4}'),
        ('\u{26ea}', '\u{26ea}'),
        ('\u{26f2}', '\u{26f3}'),
        ('\u{26f5}', '\u{26f5}'),
        ('\u{26fa}', '\u{26fa}'),
        ('\u{26fd}', '\u{26fd}'),
        ('\u{2705}', '\u{2705}'),
        ('\u{270a}', '\u{270b}'),
        ('\u{2728}', '\u{2728}'),
        ('\u{274c}', '\u{274c}'),
        ('\u{274e}', '\u{274e}'),
        ('\u{2753}', '\u{2755}'),
        ('\u{2757}', '\u{2757}'),
        ('\u{2795}', '\u{2797}'),
        ('\u{27b0}', '\u{27b0}'),
        ('\u{27bf}', '\u{27bf}'),
        ('\u{2b1b}', '\u{2b1c}'),
        ('\u{2b50}', '\u{2b50}'),
        ('\u{2b55}', '\u{2b55}'),
        ('\u{1f004}', '\u{1f004}'),
        ('\u{1f0cf}', '\u{1f0cf}'),
        ('\u{1f18e}', '\u{1f18e}'),
        ('\u{1f191}', '\u{1f19a}'),
        ('\u{1f1e6}', '\u{1f1ff}'),
        ('\u{1f201}', '\u{1f201}'),
        ('\u{1f21a}', '\u{1f21a}'),
        ('\u{1f22f}', '\u{1f22f}'),
        ('\u{1f232}', '\u{1f236}'),
        ('\u{1f238}', '\u{1f23a}'),
        ('\u{1f250}', '\u{1f251}'),
        ('\u{1f300}', '\u{1f320}'),
        ('\u{1f32d}', '\u{1f335}'),
        ('\u{1f337}', '\u{1f37c}'),
        ('\u{1f37e}', '\u{1f393}'),
        ('\u{1f3a0}', '\u{1f3ca}'),
        ('\u{1f3cf}', '\u{1f3d3}'),
    ]
}

/// One stretch of the `Emoji_Presentation` ranges.
pub closed spec fn emoji_presentation_part_1_ranges() -> Seq<(char, char)> {
    seq![
        ('\u{1f3e0}', '\u{1f3f0}'),
        ('\u{1f3f4}', '\u{1f3f4}'),
        ('\u{1f3f8}', '\u{1f43e}'),
        ('\u{1f440}', '\u{1f440}'),
        ('\u{1f442}', '\u{1f4fc}'),
        ('\u{1f4ff}', '\u{1f53d}'),
        ('\u{1f54b}', '\u{1f54e}'),
        ('\u{1f550}', '\u{1f567}'),
        ('\u{1f57a}', '\u{1f57a}'),
        ('\u{1f595}', '\u{1f596}'),
        ('\u{1f5a4}', '\u{1f5a4}'),
        ('\u{1f5fb}', '\u{1f64f}'),
        ('\u{1f680}', '\u{1f6c5}'),
        ('\u{1f6cc}', '\u{1f6cc}'),
        ('\u{1f6d0}', '\u{1f6d2}'),
        ('\u{1f6d5}', '\u{1f6d7}'),
        ('\u{1f6dc}', '\u{1f6df}'),
        ('\u{1f6eb}', '\u{1f6ec}'),
        ('\u{1f6f4}', '\u{1f6fc}'),
        ('\u{1f7e0}', '\u{1f7eb}'),
        ('\u{1f7f0}', '\u{1f7f0}'),
        ('\u{1f90c}', '\u{1f93a}'),
        ('\u{1f93c}', '\u{1f945}'),
        ('\u{1f947}', '\u{1f9ff}'),
        ('\u{1fa70}', '\u{1fa7c}'),
        ('\u{1fa80}', '\u{1fa89}'),
        ('\u{1fa8f}', '\u{1fac6}'),
        ('\u{1face}', '\u{1fadc}'),
        ('\u{1fadf}', '\u{1fae9}'),
        ('\u{1faf0}', '\u{1faf8}'),
    ]
}

/// Ranges of the `Emoji_Presentation` class.
pub closed spec fn emoji_presentation_ranges() -> Seq<(char, char)> {
    emoji_presentation_part_0_ranges() + emoji_presentation_part_1_ranges()
}

/// Build one stretch of the `Emoji_Presentation` range table.
#[verifier::rlimit(100)]
fn emoji_presentation_part_0_table() -> (r: Vec<(char, char)>)
    ensures
        r@ == emoji_presentation_part_0_ranges(),
{
    let mut v: Vec<(char, char)> = Vec::new();
    v.push(('\u{231a}', '\u{231b}'));
    v.push(('\u{23e9}', '\u{23ec}'));
    v.push(('\u{23f0}', '\u{23f0}'));
    v.push(('\u{23f3}', '\u{23f3}'));
    v.push(('\u{25fd}', '\u{25fe}'));
    v.push(('\u{2614}', '\u{2615}'));
    v.push(('\u{2648}', '\u{2653}'));
    v.push(('\u{267f}', '\u{267f}'));
    v.push(('\u{2693}', '\u{2693}'));
    v.push(('\u{26a1}', '\u{26a1}'));
    v.push(('\u{26aa}', '\u{26ab}'));
    v.push(('\u{26bd}', '\u{26be}'));
    v.push(('\u{26c4}', '\u{26c5}'));
    v.push(('\u{26ce}', '\u{26ce}'));
    v.push(('\u{26d4}', '\u{26d4}'));
    v.push(('\u{26ea}', '\u{26ea}'));
    v.push(('\u{26f2}', '\u{26f3}'));
    v.push(('\u{26f5}', '\u{26f5}'));
    v.push(('\u{26fa}', '\u{26fa}'));
    v.push(('\u{26fd}', '\u{26fd}'));
    v.push(('\u{2705}', '\u{2705}'));
    v.push(('\u{270a}', '\u{270b}'));
    v.push(('\u{2728}', '\u{2728}'));
    v.push(('\u{274c}', '\u{274c}'));
    v.push(('\u{274e}', '\u{274e}'));
    v.push(('\u{2753}', '\u{2755}'));
    v.push(('\u{2757}', '\u{2757}'));
    v.push(('\u{2795}', '\u{2797}'));
    v.push(('\u{27b0}', '\u{27b0}'));
    v.push(('\u{27bf}', '\u{27bf}'));
    v.push(('\u{2b1b}', '\u{2b1c}'));
    v.push(('\u{2b50}', '\u{2b50}'));
    v.push(('\u{2b55}', '\u{2b55}'));
    v.push(('\u{1f004}', '\u{1f004}'));
    v.push(('\u{1f0cf}', '\u{1f0cf}'));
    v.push(('\u{1f18e}', '\u{1f18e}'));
    v.push(('\u{1f191}', '\u{1f19a}'));
    v.push(('\u{1f1e6}', '\u{1f1ff}'));
    v.push(('\u{1f201}', '\u{1f201}'));
    v.push(('\u{1f21a}', '\u{1f21a}'));
    v.push(('\u{1f22f}', '\u{1f22f}'));
    v.push(('\u{1f232}', '\u{1f236}'));
    v.push(('\u{1f238}', '\u{1f23a}'));
    v.push(('\u{1f250}', '\u{1f251}'));
    v.push(('\u{1f300}', '\u{1f320}'));
    v.push(('\u{1f32d}', '\u{1f335}'));
    v.push(('\u{1f337}', '\u{1f37c}'));
    v.push(('\u{1f37e}', '\u{1f393}'));
    v.push(('\u{1f3a0}', '\u{1f3ca}'));
    v.push(('\u{1f3cf}', '\u{1f3d3}'));
    proof {
        assert(v@ =~= emoji_presentation_part_0_ranges());
    }
    v
}

/// Build one stretch of the `Emoji_Presentation` range table.
#[verifier::rlimit(100)]
fn emoji_presentation_part_1_table() -> (r: Vec<(char, char)>)
    ensures
        r@ == emoji_presentation_part_1_ranges(),
{
    let mut v: Vec<(char, char)> = Vec::new();
    v.push(('\u{1f3e0}', '\u{1f3f0}'));
    v.push(('\u{1f3f4}', '\u{1f3f4}'));
    v.push(('\u{1f3f8}', '\u{1f43e}'));
    v.push(('\u{1f440}', '\u{1f440}'));
    v.push(('\u{1f442}', '\u{1f4fc}'));
    v.push(('\u{1f4ff}', '\u{1f53d}'));
    v.push(('\u{1f54b}', '\u{1f54e}'));
    v.push(('\u{1f550}', '\u{1f567}'));
    v.push(('\u{1f57a}', '\u{1f57a}'));
    v.push(('\u{1f595}', '\u{1f596}'));
    v.push(('\u{1f5a4}', '\u{1f5a4}'));
    v.push(('\u{1f5fb}', '\u{1f64f}'));
    v.push(('\u{1f680}', '\u{1f6c5}'));
    v.push(('\u{1f6cc}', '\u{1f6cc}'));
    v.push(('\u{1f6d0}', '\u{1f6d2}'));
    v.push(('\u{1f6d5}', '\u{1f6d7}'));
    v.push(('\u{1f6dc}', '\u{1f6df}'));
    v.push(('\u{1f6eb}', '\u{1f6ec}'));
    v.push(('\u{1f6f4}', '\u{1f6fc}'));
    v.push(('\u{1f7e0}', '\u{1f7eb}'));
    v.push(('\u{1f7f0}', '\u{1f7f0}'));
    v.push(('\u{1f90c}', '\u{1f93a}'));
    v.push(('\u{1f93c}', '\u{1f945}'));
    v.push(('\u{1f947}', '\u{1f9ff}'));
    v.push(('\u{1fa70}', '\u{1fa7c}'));
    v.push(('\u{1fa80}', '\u{1fa89}'));
    v.push(('\u{1fa8f}', '\u{1fac6}'));
    v.push(('\u{1face}', '\u{1fadc}'));
    v.push(('\u{1fadf}', '\u{1fae9}'));
    v.push(('\u{1faf0}', '\u{1faf8}'));
    proof {
        assert(v@ =~= emoji_presentation_part_1_ranges());
    }
    v
}

/// Build the table of [`emoji_presentation_ranges`].
pub fn emoji_presentation_table() -> (r: Vec<(char, char)>)
    ensures
        r@ == emoji_presentation_ranges(),
{
    let mut v: Vec<(char, char)> = emoji_presentation_part_0_table();
    let mut part_1: Vec<(char, char)> = emoji_presentation_part_1_table();
    v.append(&mut part_1);
    v
}

/// One stretch of the `Extended_Pictographic` ranges.
pub closed spec fn extended_pictographic_part_0_ranges() -> Seq<(char, char)> {
    seq![
        ('\u{a9}', '\u{a9}'),
        ('\u{ae}', '\u{ae}'),
        ('\u{203c}', '\u{203c}'),
        ('\u{2049}', '\u{2049}'),
        ('\u{2122}', '\u{2122}'),
        ('\u{2139}', '\u{2139}'),
        ('\u{2194}', '\u{2199}'),
        ('\u{21a9}', '\u{21aa}'),
        ('\u{231a}', '\u{231b}'),
        ('\u{2328}', '\u{2328}'),
        ('\u{2388}', '\u{2388}'),
        ('\u{23cf}', '\u{23cf}'),
        ('\u{23e9}', '\u{23f3}'),
        ('\u{23f8}', '\u{23fa}'),
        ('\u{24c2}', '\u{24c2}'),
        ('\u{25aa}', '\u{25ab}'),
        ('\u{25b6}', '\u{25b6}'),
        ('\u{25c0}', '\u{25c0}'),
        ('\u{25fb}', '\u{25fe}'),
        ('\u{2600}', '\u{2605}'),
        ('\u{2607}', '\u{2612}'),
        ('\u{2614}', '\u{2685}'),
        ('\u{2690}', '\u{2705}'),
        ('\u{2708}', '\u{2712}'),
        ('\u{2714}', '\u{2714}'),
        ('\u{2716}', '\u{2716}'),
        ('\u{271d}', '\u{271d}'),
        ('\u{2721}', '\u{2721}'),
        ('\u{2728}', '\u{2728}'),
        ('\u{2733}', '\u{2734}'),
        ('\u{2744}', '\u{2744}'),
        ('\u{2747}', '\u{2747}'),
        ('\u{274c}', '\u{274c}'),
        ('\u{274e}', '\u{274e}'),
        ('\u{2753}', '\u{2755}'),
        ('\u{2757}', '\u{2757}'),
        ('\u{2763}', '\u{2767}'),
        ('\u{2795}', '\u{2797}'),
        ('\u{27a1}', '\u{27a1}'),
        ('\u{27b0}', '\u{27b0}'),
        ('\u{27bf}', '\u{27bf}'),
        ('\u{2934}', '\u{2935}'),
        ('\u{2b05}', '\u{2b07}'),
        ('\u{2b1b}', '\u{2b1c}'),
        ('\u{2b50}', '\u{2b50}'),
        ('\u{2b55}', '\u{2b55}'),
        ('\u{3030}', '\u{3030}'),
        ('\u{303d}', '\u{303d}'),
        ('\u{3297}', '\u{3297}'),
        ('\u{3299}', '\u{3299}'),
    ]
}

/// One stretch of the `Extended_Pictographic` ranges.
pub closed spec fn extended_pictographic_part_1_ranges() -> Seq<(char, char)> {
    seq![
        ('\u{1f000}', '\u{1f0ff}'),
        ('\u{1f10d}', '\u{1f10f}'),
        ('\u{1f12f}', '\u{1f12f}'),
        ('\u{1f16c}', '\u{1f171}'),
        ('\u{1f17e}', '\u{1f17f}'),
        ('\u{1f18e}', '\u{1f18e}'),
        ('\u{1f191}', '\u{1f19a}'),
        ('\u{1f1ad}', '\u{1f1e5}'),
        ('\u{1f201}', '\u{1f20f}'),
        ('\u{1f21a}', '\u{1f21a}'),
        ('\u{1f22f}', '\u{1f22f}'),
        ('\u{1f232}', '\u{1f23a}'),
        ('\u{1f23c}', '\u{1f23f}'),
        ('\u{1f249}', '\u{1f3fa}'),
        ('\u{1f400}', '\u{1f53d}'),
        ('\u{1f546}', '\u{1f64f}'),
        ('\u{1f680}', '\u{1f6ff}'),
        ('\u{1f774}', '\u{1f77f}'),
        ('\u{1f7d5}', '\u{1f7ff}'),
        ('\u{1f80c}', '\u{1f80f}'),
        ('\u{1f848}', '\u{1f84f}'),
        ('\u{1f85a}', '\u{1f85f}'),
        ('\u{1f888}', '\u{1f88f}'),
        ('\u{1f8ae}', '\u{1f8ff}'),
        ('\u{1f90c}', '\u{1f93a}'),
        ('\u{1f93c}', '\u{1f945}'),
        ('\u{1f947}', '\u{1faff}'),
        ('\u{1fc00}', '\u{1fffd}'),
    ]
}

/// Ranges of the `Extended_Pictographic` class.
pub closed spec fn extended_pictographic_ranges() -> Seq<(char, char)> {
    extended_pictographic_part_0_ranges() + extended_pictographic_part_1_ranges()
}

/// Build one stretch of the `Extended_Pictographic` range table.
#[verifier::rlimit(100)]
fn extended_pictographic_part_0_table() -> (r: Vec<(char, char)>)
    ensures
        r@ == extended_pictographic_part_0_ranges(),
{
    let mut v: Vec<(char, char)> = Vec::new();
    v.push(('\u{a9}', '\u{a9}'));
    v.push(('\u{ae}', '\u{ae}'));
    v.push(('\u{203c}', '\u{203c}'));
    v.push(('\u{2049}', '\u{2049}'));
    v.push(('\u{2122}', '\u{2122}'));
    v.push(('\u{2139}', '\u{2139}'));
    v.push(('\u{2194}', '\u{2199}'));
    v.push(('\u{21a9}', '\u{21aa}'));
    v.push(('\u{231a}', '\u{231b}'));
    v.push(('\u{2328}', '\u{2328}'));
    v.push(('\u{2388}', '\u{2388}'));
    v.push(('\u{23cf}', '\u{23cf}'));
    v.push(('\u{23e9}', '\u{23f3}'));
    v.push(('\u{23f8}', '\u{23fa}'));
    v.push(('\u{24c2}', '\u{24c2}'));
    v.push(('\u{25aa}', '\u{25ab}'));
    v.push(('\u{25b6}', '\u{25b6}'));
    v.push(('\u{25c0}', '\u{25c0}'));
    v.push(('\u{25fb}', '\u{25fe}'));
    v.push(('\u{2600}', '\u{2605}'));
    v.push(('\u{2607}', '\u{2612}'));
    v.push(('\u{2614}', '\u{2685}'));
    v.push(('\u{2690}', '\u{2705}'));
    v.push(('\u{2708}', '\u{2712}'));
    v.push(('\u{2714}', '\u{2714}'));
    v.push(('\u{2716}', '\u{2716}'));
    v.push(('\u{271d}', '\u{271d}'));
    v.push(('\u{2721}', '\u{2721}'));
    v.push(('\u{2728}', '\u{2728}'));
    v.push(('\u{2733}', '\u{2734}'));
    v.push(('\u{2744}', '\u{2744}'));
    v.push(('\u{2747}', '\u{2747}'));
    v.push(('\u{274c}', '\u{274c}'));
    v.push(('\u{274e}', '\u{274e}'));
    v.push(('\u{2753}', '\u{2755}'));
    v.push(('\u{2757}', '\u{2757}'));
    v.push(('\u{2763}', '\u{2767}'));
    v.push(('\u{2795}', '\u{2797}'));
    v.push(('\u{27a1}', '\u{27a1}'));
    v.push(('\u{27b0}', '\u{27b0}'));
    v.push(('\u{27bf}', '\u{27bf}'));
    v.push(('\u{2934}', '\u{2935}'));
    v.push(('\u{2b05}', '\u{2b07}'));
    v.push(('\u{2b1b}', '\u{2b1c}'));
    v.push(('\u{2b50}', '\u{2b50}'));
    v.push(('\u{2b55}', '\u{2b55}'));
    v.push(('\u{3030}', '\u{3030}'));
    v.push(('\u{303d}', '\u{303d}'));
    v.push(('\u{3297}', '\u{3297}'));
    v.push(('\u{3299}', '\u{3299}'));
    proof {
        assert(v@ =~= extended_pictographic_part_0_ranges());
    }
    v
}

/// Build one stretch of the `Extended_Pictographic` range table.
#[verifier::rlimit(100)]
fn extended_pictographic_part_1_table() -> (r: Vec<(char, char)>)
    ensures
        r@ == extended_pictographic_part_1_ranges(),
{
    let mut v: Vec<(char, char)> = Vec::new();
    v.push(('\u{1f000}', '\u{1f0ff}'));
    v.push(('\u{1f10d}', '\u{1f10f}'));
    v.push(('\u{1f12f}', '\u{1f12f}'));
    v.push(('\u{1f16c}', '\u{1f171}'));
    v.push(('\u{1f17e}', '\u{1f17f}'));
    v.push(('\u{1f18e}', '\u{1f18e}'));
    v.push(('\u{1f191}', '\u{1f19a}'));
    v.push(('\u{1f1ad}', '\u{1f1e5}'));
    v.push(('\u{1f201}', '\u{1f20f}'));
    v.push(('\u{1f21a}', '\u{1f21a}'));
    v.push(('\u{1f22f}', '\u{1f22f}'));
    v.push(('\u{1f232}', '\u{1f23a}'));
    v.push(('\u{1f23c}', '\u{1f23f}'));
    v.push(('\u{1f249}', '\u{1f3fa}'));
    v.push(('\u{1f400}', '\u{1f53d}'));
    v.push(('\u{1f546}', '\u{1f64f}'));
    v.push(('\u{1f680}', '\u{1f6ff}'));
    v.push(('\u{1f774}', '\u{1f77f}'));
    v.push(('\u{1f7d5}', '\u{1f7ff}'));
    v.push(('\u{1f80c}', '\u{1f80f}'));
    v.push(('\u{1f848}', '\u{1f84f}'));
    v.push(('\u{1f85a}', '\u{1f85f}'));
    v.push(('\u{1f888}', '\u{1f88f}'));
    v.push(('\u{1f8ae}', '\u{1f8ff}'));
    v.push(('\u{1f90c}', '\u{1f93a}'));
    v.push(('\u{1f93c}', '\u{1f945}'));
    v.push(('\u{1f947}', '\u{1faff}'));
    v.push(('\u{1fc00}', '\u{1fffd}'));
    proof {
        assert(v@ =~= extended_pictographic_part_1_ranges());
    }
    v
}

/// Build the table of [`extended_pictographic_ranges`].
pub fn extended_pictographic_table() -> (r: Vec<(char, char)>)
    ensures
        r@ == extended_pictographic_ranges(),
{
    let mut v: Vec<(char, char)> = extended_pictographic_part_0_table();
    let mut part_1: Vec<(char, char)> = extended_pictographic_part_1_table();
    v.append(&mut part_1);
    v
}

/// Ranges of the `Extender` class.
pub closed spec fn extender_ranges() -> Seq<(char, char)> {
    seq![
        ('\u{b7}', '\u{b7}'),
        ('\u{2d0}', '\u{2d1}'),
        ('\u{640}', '\u{640}'),
        ('\u{7fa}', '\u{7fa}'),
        ('\u{a71}', '\u{a71}'),
        ('\u{afb}', '\u{afb}'),
        ('\u{b55}', '\u{b55}'),
        ('\u{e46}', '\u{e46}'),
        ('\u{ec6}', '\u{ec6}'),
        ('\u{180a}', '\u{180a}'),
        ('\u{1843}', '\u{1843}'),
        ('\u{1aa7}', '\u{1aa7}'),
        ('\u{1c36}', '\u{1c36}'),
        ('\u{1c7b}', '\u{1c7b}'),
        ('\u{3005}', '\u{3005}'),
        ('\u{3031}', '\u{3035}'),
        ('\u{309d}', '\u{309e}'),
        ('\u{30fc}', '\u{30fe}'),
        ('\u{a015}', '\u{a015}'),
        ('\u{a60c}', '\u{a60c}'),
        ('\u{a9cf}', '\u{a9cf}'),
        ('\u{a9e6}', '\u{a9e6}'),
        ('\u{aa70}', '\u{aa70}'),
        ('\u{aadd}', '\u{aadd}'),
        ('\u{aaf3}', '\u{aaf4}'),
        ('\u{ff70}', '\u{ff70}'),
        ('\u{10781}', '\u{10782}'),
        ('\u{10d4e}', '\u{10d4e}'),
        ('\u{10d6a}', '\u{10d6a}'),
        ('\u{10d6f}', '\u{10d6f}'),
        ('\u{11237}', '\u{11237}'),
        ('\u{1135d}', '\u{1135d}'),
        ('\u{113d2}', '\u{113d3}'),
        ('\u{115c6}', '\u{115c8}'),
        ('\u{11a98}', '\u{11a98}'),
        ('\u{16b42}', '\u{16b43}'),
        ('\u{16fe0}', '\u{16fe1}'),
        ('\u{16fe3}', '\u{16fe3}'),
        ('\u{1e13c}', '\u{1e13d}'),
        ('\u{1e5ef}', '\u{1e5ef}'),
        ('\u{1e944}', '\u{1e946}'),
    ]
}

/// Build the table of [`extender_ranges`].
#[verifier::rlimit(100)]
pub fn extender_table() -> (r: Vec<(char, char)>)
    ensures
        r@ == extender_ranges(),
{
    let mut v: Vec<(char, char)> = Vec::new();
    v.push(('\u{b7}', '\u{b7}'));
    v.push(('\u{2d0}', '\u{2d1}'));
    v.push(('\u{640}', '\u{640}'));
    v.push(('\u{7fa}', '\u{7fa}'));
    v.push(('\u{a71}', '\u{a71}'));
    v.push(('\u{afb}', '\u{afb}'));
    v.push(('\u{b55}', '\u{b55}'));
    v.push(('\u{e46}', '\u{e46}'));
    v.push(('\u{ec6}', '\u{ec6}'));
    v.push(('\u{180a}', '\u{180a}'));
    v.push(('\u{1843}', '\u{1843}'));
    v.push(('\u{1aa7}', '\u{1aa7}'));
    v.push(('\u{1c36}', '\u{1c36}'));
    v.push(('\u{1c7b}', '\u{1c7b}'));
    v.push(('\u{3005}', '\u{3005}'));
    v.push(('\u{3031}', '\u{3035}'));
    v.push(('\u{309d}', '\u{309e}'));
    v.push(('\u{30fc}', '\u{30fe}'));
    v.push(('\u{a015}', '\u{a015}'));
    v.push(('\u{a60c}', '\u{a60c}'));
    v.push(('\u{a9cf}', '\u{a9cf}'));
    v.push(('\u{a9e6}', '\u{a9e6}'));
    v.push(('\u{aa70}', '\u{aa70}'));
    v.push(('\u{aadd}', '\u{aadd}'));
    v.push(('\u{aaf3}', '\u{aaf4}'));
    v.push(('\u{ff70}', '\u{ff70}'));
    v.push(('\u{10781}', '\u{10782}'));
    v.push(('\u{10d4e}', '\u{10d4e}'));
    v.push(('\u{10d6a}', '\u{10d6a}'));
    v.push(('\u{10d6f}', '\u{10d6f}'));
    v.push(('\u{11237}', '\u{11237}'));
    v.push(('\u{1135d}', '\u{1135d}'));
    v.push(('\u{113d2}', '\u{113d3}'));
    v.push(('\u{115c6}', '\u{115c8}'));
    v.push(('\u{11a98}', '\u{11a98}'));
    v.push(('\u{16b42}', '\u{16b43}'));
    v.push(('\u{16fe0}', '\u{16fe1}'));
    v.push(('\u{16fe3}', '\u{16fe3}'));
    v.push(('\u{1e13c}', '\u{1e13d}'));
    v.push(('\u{1e5ef}', '\u{1e5ef}'));
    v.push(('\u{1e944}', '\u{1e946}'));
    proof {
        assert(v@ =~= extender_ranges());
    }
    v
}

/// Ranges of the `Grapheme_Link` class.
pub closed spec fn grapheme_link_ranges() -> Seq<(char, char)> {
    seq![
        ('\u{94d}', '\u{94d}'),
        ('\u{9cd}', '\u{9cd}'),
        ('\u{a4d}', '\u{a4d}'),
        ('\u{acd}', '\u{acd}'),
        ('\u{b4d}', '\u{b4d}'),
        ('\u{bcd}', '\u{bcd}'),
        ('\u{c4d}', '\u{c4d}'),
        ('\u{ccd}', '\u{ccd}'),
        ('\u{d3b}', '\u{d3c}'),
        ('\u{d4d}', '\u{d4d}'),
        ('\u{dca}', '\u{dca}'),
        ('\u{e3a}', '\u{e3a}'),
        ('\u{eba}', '\u{eba}'),
        ('\u{f84}', '\u{f84}'),
        ('\u{1039}', '\u{103a}'),
        ('\u{1714}', '\u{1715}'),
        ('\u{1734}', '\u{1734}'),
        ('\u{17d2}', '\u{17d2}'),
        ('\u{1a60}', '\u{1a60}'),
        ('\u{1b44}', '\u{1b44}'),
        ('\u{1baa}', '\u{1bab}'),
        ('\u{1bf2}', '\u{1bf3}'),
        ('\u{2d7f}', '\u{2d7f}'),
        ('\u{a806}', '\u{a806}'),
        ('\u{a82c}', '\u{a82c}'),
        ('\u{a8c4}', '\u{a8c4}'),
        ('\u{a953}', '\u{a953}'),
        ('\u{a9c0}', '\u{a9c0}'),
        ('\u{aaf6}', '\u{aaf6}'),
        ('\u{abed}', '\u{abed}'),
        ('\u{10a3f}', '\u{10a3f}'),
        ('\u{11046}', '\u{11046}'),
        ('\u{11070}', '\u{11070}'),
        ('\u{1107f}', '\u{1107f}'),
        ('\u{110b9}', '\u{110b9}'),
        ('\u{11133}', '\u{11134}'),
        ('\u{111c0}', '\u{111c0}'),
        ('\u{11235}', '\u{11235}'),
        ('\u{112ea}', '\u{112ea}'),
        ('\u{1134d}', '\u{1134d}'),
        ('\u{113ce}', '\u{113d0}'),
        ('\u{11442}', '\u{11442}'),
        ('\u{114c2}', '\u{114c2}'),
        ('\u{115bf}', '\u{115bf}'),
        ('\u{1163f}', '\u{1163f}'),
        ('\u{116b6}', '\u{116b6}'),
        ('\u{1172b}', '\u{1172b}'),
        ('\u{11839}', '\u{11839}'),
        ('\u{1193d}', '\u{1193e}'),
        ('\u{119e0}', '\u{119e0}'),
        ('\u{11a34}', '\u{11a34}'),
        ('\u{11a47}', '\u{11a47}'),
        ('\u{11a99}', '\u{11a99}'),
        ('\u{11c3f}', '\u{11c3f}'),
        ('\u{11d44}', '\u{11d45}'),
        ('\u{11d97}', '\u{11d97}'),
        ('\u{11f41}', '\u{11f42}'),
        ('\u{1612f}', '\u{1612f}'),
    ]
}

/// Build the table of [`grapheme_link_ranges`].
#[verifier::rlimit(100)]
pub fn grapheme_link_table() -> (r: Vec<(char, char)>)
    ensures
        r@ == grapheme_link_ranges(),
{
    let mut v: Vec<(char, char)> = Vec::new();
    v.push(('\u{94d}', '\u{94d}'));
    v.push(('\u{9cd}', '\u{9cd}'));
    v.push(('\u{a4d}', '\u{a4d}'));
    v.push(('\u{acd}', '\u{acd}'));
    v.push(('\u{b4d}', '\u{b4d}'));
    v.push(('\u{bcd}', '\u{bcd}'));
    v.push(('\u{c4d}', '\u{c4d}'));
    v.push(('\u{ccd}', '\u{ccd}'));
    v.push(('\u{d3b}', '\u{d3c}'));
    v.push(('\u{d4d}', '\u{d4d}'));
    v.push(('\u{dca}', '\u{dca}'));
    v.push(('\u{e3a}', '\u{e3a}'));
    v.push(('\u{eba}', '\u{eba}'));
    v.push(('\u{f84}', '\u{f84}'));
    v.push(('\u{1039}', '\u{103a}'));
    v.push(('\u{1714}', '\u{1715}'));
    v.push(('\u{1734}', '\u{1734}'));
    v.push(('\u{17d2}', '\u{17d2}'));
    v.push(('\u{1a60}', '\u{1a60}'));
    v.push(('\u{1b44}', '\u{1b44}'));
    v.push(('\u{1baa}', '\u{1bab}'));
    v.push(('\u{1bf2}', '\u{1bf3}'));
    v.push(('\u{2d7f}', '\u{2d7f}'));
    v.push(('\u{a806}', '\u{a806}'));
    v.push(('\u{a82c}', '\u{a82c}'));
    v.push(('\u{a8c4}', '\u{a8c4}'));
    v.push(('\u{a953}', '\u{a953}'));
    v.push(('\u{a9c0}', '\u{a9c0}'));
    v.push(('\u{aaf6}', '\u{aaf6}'));
    v.push(('\u{abed}', '\u{abed}'));
    v.push(('\u{10a3f}', '\u{10a3f}'));
    v.push(('\u{11046}', '\u{11046}'));
    v.push(('\u{11070}', '\u{11070}'));
    v.push(('\u{1107f}', '\u{1107f}'));
    v.push(('\u{110b9}', '\u{110b9}'));
    v.push(('\u{11133}', '\u{11134}'));
    v.push(('\u{111c0}', '\u{111c0}'));
    v.push(('\u{11235}', '\u{11235}'));
    v.push(('\u{112ea}', '\u{112ea}'));
    v.push(('\u{1134d}', '\u{1134d}'));
    v.push(('\u{113ce}', '\u{113d0}'));
    v.push(('\u{11442}', '\u{11442}'));
    v.push(('\u{114c2}', '\u{114c2}'));
    v.push(('\u{115bf}', '\u{115bf}'));
    v.push(('\u{1163f}', '\u{1163f}'));
    v.push(('\u{116b6}', '\u{116b6}'));
    v.push(('\u{1172b}', '\u{1172b}'));
    v.push(('\u{11839}', '\u{11839}'));
    v.push(('\u{1193d}', '\u{1193e}'));
    v.push(('\u{119e0}', '\u{119e0}'));
    v.push(('\u{11a34}', '\u{11a34}'));
    v.push(('\u{11a47}', '\u{11a47}'));
    v.push(('\u{11a99}', '\u{11a99}'));
    v.push(('\u{11c3f}', '\u{11c3f}'));
    v.push(('\u{11d44}', '\u{11d45}'));
    v.push(('\u{11d97}', '\u{11d97}'));
    v.push(('\u{11f41}', '\u{11f42}'));
    v.push(('\u{1612f}', '\u{1612f}'));
    proof {
        assert(v@ =~= grapheme_link_ranges());
    }
    v
}

/// Ranges of the `Hex_Digit` class.
pub closed spec fn hex_digit_ranges() -> Seq<(char, char)> {
    seq![
        ('0', '9'),
        ('A', 'F'),
        ('a', 'f'),
        ('\u{ff10}', '\u{ff19}'),
        ('\u{ff21}', '\u{ff26}'),
        ('\u{ff41}', '\u{ff46}'),
    ]
}

/// Build the table of [`hex_digit_ranges`].
#[verifier::rlimit(100)]
pub fn hex_digit_table() -> (r: Vec<(char, char)>)
    ensures
        r@ == hex_digit_ranges(),
{
    let mut v: Vec<(char, char)> = Vec::new();
    v.push(('0', '9'));
    v.push(('A', 'F'));
    v.push(('a', 'f'));
    v.push(('\u{ff10}', '\u{ff19}'));
    v.push(('\u{ff21}', '\u{ff26}'));
    v.push(('\u{ff41}', '\u{ff46}'));
    proof {
        assert(v@ =~= hex_digit_ranges());
    }
    v
}

/// Ranges of the `Hyphen` class.
pub closed spec fn hyphen_ranges() -> Seq<(char, char)> {
    seq![
        ('-', '-'),
        ('\u{ad}', '\u{ad}'),
        ('\u{58a}', '\u{58a}'),
        ('\u{1806}', '\u{1806}'),
        ('\u{2010}', '\u{2011}'),
        ('\u{2e17}', '\u{2e17}'),
        ('\u{30fb}', '\u{30fb}'),
        ('\u{fe63}', '\u{fe63}'),
        ('\u{ff0d}', '\u{ff0d}'),
        ('\u{ff65}', '\u{ff65}'),
    ]
}

/// Build the table of [`hyphen_ranges`].
#[verifier::rlimit(100)]
pub fn hyphen_table() -> (r: Vec<(char, char)>)
    ensures
        r@ == hyphen_ranges(),
{
    let mut v: Vec<(char, char)> = Vec::new();
    v.push(('-', '-'));
    v.push(('\u{ad}', '\u{ad}'));
    v.push(('\u{58a}', '\u{58a}'));
    v.push(('\u{1806}', '\u{1806}'));
    v.push(('\u{2010}', '\u{2011}'));
    v.push(('\u{2e17}', '\u{2e17}'));
    v.push(('\u{30fb}', '\u{30fb}'));
    v.push(('\u{fe63}', '\u{fe63}'));
    v.push(('\u{ff0d}', '\u{ff0d}'));
    v.push(('\u{ff65}', '\u{ff65}'));
    proof {
        assert(v@ =~= hyphen_ranges());
    }
    v
}

/// Ranges of the `IDS_Binary_Operator` class.
pub closed spec fn ids_binary_operator_ranges() -> Seq<(char, char)> {
    seq![
        ('\u{2ff0}', '\u{2ff1}'),
        ('\u{2ff4}', '\u{2ffd}'),
        ('\u{31ef}', '\u{31ef}'),
    ]
}

/// Build the table of [`ids_binary_operator_ranges`].
#[verifier::rlimit(100)]
pub fn ids_binary_operator_table() -> (r: Vec<(char, char)>)
    ensures
        r@ == ids_binary_operator_ranges(),
{
    let mut v: Vec<(char, char)> = Vec::new();
    v.push(('\u{2ff0}', '\u{2ff1}'));
    v.push(('\u{2ff4}', '\u{2ffd}'));
    v.push(('\u{31ef}', '\u{31ef}'));
    proof {
        assert(v@ =~= ids_binary_operator_ranges());
    }
    v
}

/// Ranges of the `IDS_Trinary_Operator` class.
pub closed spec fn ids_trinary_operator_ranges() -> Seq<(char, char)> {
    seq![
        ('\u{2ff2}', '\u{2ff3}'),
    ]
}

/// Build the table of [`ids_trinary_operator_ranges`].
#[verifier::rlimit(100)]
pub fn ids_trinary_operator_table() -> (r: Vec<(char, char)>)
    ensures
        r@ == ids_trinary_operator_ranges(),
{
    let mut v: Vec<(char, char)> = Vec::new();
    v.push(('\u{2ff2}', '\u{2ff3}'));
    proof {
        assert(v@ =~= ids_trinary_operator_ranges());
    }
    v
}

/// Ranges of the `IDS_Unary_Operator` class.
pub closed spec fn ids_unary_operator_ranges() -> Seq<(char, char)> {
    seq![
        ('\u{2ffe}', '\u{2fff}'),
    ]
}

/// Build the table of [`ids_unary_operator_ranges`].
#[verifier::rlimit(100)]
pub fn ids_unary_operator_table() -> (r: Vec<(char, char)>)
    ensures
        r@ == ids_unary_operator_ranges(),
{
    let mut v: Vec<(char, char)> = Vec::new();
    v.push(('\u{2ffe}', '\u{2fff}'));
    proof {
        assert(v@ =~= ids_unary_operator_ranges());
    }
    v
}

/// Ranges of the `ID_Compat_Math_Continue` class.
pub closed spec fn id_compat_math_continue_ranges() -> Seq<(char, char)> {
    seq![
        ('\u{b2}', '\u{b3}'),
        ('\u{b9}', '\u{b9}'),
        ('\u{2070}', '\u{2070}'),
        ('\u{2074}', '\u{207e}'),
        ('\u{2080}', '\u{208e}'),
        ('\u{2202}', '\u{2202}'),
        ('\u{2207}', '\u{2207}'),
        ('\u{221e}', '\u{221e}'),
        ('\u{1d6c1}', '\u{1d6c1}'),
        ('\u{1d6db}', '\u{1d6db}'),
        ('\u{1d6fb}', '\u{1d6fb}'),
        ('\u{1d715}', '\u{1d715}'),
        ('\u{1d735}', '\u{1d735}'),
        ('\u{1d74f}', '\u{1d74f}'),
        ('\u{1d76f}', '\u{1d76f}'),
        ('\u{1d789}', '\u{1d789}'),
        ('\u{1d7a9}', '\u{1d7a9}'),
        ('\u{1d7c3}', '\u{1d7c3}'),
    ]
}

/// Build the table of [`id_compat_math_continue_ranges`].
#[verifier::rlimit(100)]
pub fn id_compat_math_continue_table() -> (r: Vec<(char, char)>)
    ensures
        r@ == id_compat_math_continue_ranges(),
{
    let mut v: Vec<(char, char)> = Vec::new();
    v.push(('\u{b2}', '\u{b3}'));
    v.push(('\u{b9}', '\u{b9}'));
    v.push(('\u{2070}', '\u{2070}'));
    v.push(('\u{2074}', '\u{207e}'));
    v.push(('\u{2080}', '\u{208e}'));
    v.push(('\u{2202}', '\u{2202}'));
    v.push(('\u{2207}', '\u{2207}'));
    v.push(('\u{221e}', '\u{221e}'));
    v.push(('\u{1d6c1}', '\u{1d6c1}'));
    v.push(('\u{1d6db}', '\u{1d6db}'));
    v.push(('\u{1d6fb}', '\u{1d6fb}'));
    v.push(('\u{1d715}', '\u{1d715}'));
    v.push(('\u{1d735}', '\u{1d735}'));
    v.push(('\u{1d74f}', '\u{1d74f}'));
    v.push(('\u{1d76f}', '\u{1d76f}'));
    v.push(('\u{1d789}', '\u{1d789}'));
    v.push(('\u{1d7a9}', '\u{1d7a9}'));
    v.push(('\u{1d7c3}', '\u{1d7c3}'));
    proof {
        assert(v@ =~= id_compat_math_continue_ranges());
    }
    v
}

/// Ranges of the `ID_Compat_Math_Start` class.
pub closed spec fn id_compat_math_start_ranges() -> Seq<(char, char)> {
    seq![
        ('\u{2202}', '\u{2202}'),
        ('\u{2207}', '\u{2207}'),
        ('\u{221e}', '\u{221e}'),
        ('\u{1d6c1}', '\u{1d6c1}'),
        ('\u{1d6db}', '\u{1d6db}'),
        ('\u{1d6fb}', '\u{1d6fb}'),
        ('\u{1d715}', '\u{1d715}'),
        ('\u{1d735}', '\u{1d735}'),
        ('\u{1d74f}', '\u{1d74f}'),
        ('\u{1d76f}', '\u{1d76f}'),
        ('\u{1d789}', '\u{1d789}'),
        ('\u{1d7a9}', '\u{1d7a9}'),
        ('\u{1d7c3}', '\u{1d7c3}'),
    ]
}

/// Build the table of [`id_compat_math_start_ranges`].
#[verifier::rlimit(100)]
pub fn id_compat_math_start_table() -> (r: Vec<(char, char)>)
    ensures
        r@ == id_compat_math_start_ranges(),
{
    let mut v: Vec<(char, char)> = Vec::new();
    v.push(('\u{2202}', '\u{2202}'));
    v.push(('\u{2207}', '\u{2207}'));
    v.push(('\u{221e}', '\u{221e}'));
    v.push(('\u{1d6c1}', '\u{1d6c1}'));
    v.push(('\u{1d6db}', '\u{1d6db}'));
    v.push(('\u{1d6fb}', '\u{1d6fb}'));
    v.push(('\u{1d715}', '\u{1d715}'));
    v.push(('\u{1d735}', '\u{1d735}'));
    v.push(('\u{1d74f}', '\u{1d74f}'));
    v.push(('\u{1d76f}', '\u{1d76f}'));
    v.push(('\u{1d789}', '\u{1d789}'));
    v.push(('\u{1d7a9}', '\u{1d7a9}'));
    v.push(('\u{1d7c3}', '\u{1d7c3}'));
    proof {
        assert(v@ =~= id_compat_math_start_ranges());
    }
    v
}

/// Ranges of the `Ideographic` class.
pub closed spec fn ideographic_ranges() -> Seq<(char, char)> {
    seq![
        ('\u{3006}', '\u{3007}'),
        ('\u{3021}', '\u{3029}'),
        ('\u{3038}', '\u{303a}'),
        ('\u{3400}', '\u{4dbf}'),
        ('\u{4e00}', '\u{9fff}'),
        ('\u{f900}', '\u{fa6d}'),
        ('\u{fa70}', '\u{fad9}'),
        ('\u{16fe4}', '\u{16fe4}'),
        ('\u{17000}', '\u{187f7}'),
        ('\u{18800}', '\u{18cd5}'),
        ('\u{18cff}', '\u{18d08}'),
        ('\u{1b170}', '\u{1b2fb}'),
        ('\u{20000}', '\u{2a6df}'),
        ('\u{2a700}', '\u{2b739}'),
        ('\u{2b740}', '\u{2b81d}'),
        ('\u{2b820}', '\u{2cea1}'),
        ('\u{2ceb0}', '\u{2ebe0}'),
        ('\u{2ebf0}', '\u{2ee5d}'),
        ('\u{2f800}', '\u{2fa1d}'),
        ('\u{30000}', '\u{3134a}'),
        ('\u{31350}', '\u{323af}'),
    ]
}

/// Build the table of [`ideographic_ranges`].
#[verifier::rlimit(100)]
pub fn ideographic_table() -> (r: Vec<(char, char)>)
    ensures
        r@ == ideographic_ranges(),
{
    let mut v: Vec<(char, char)> = Vec::new();
    v.push(('\u{3006}', '\u{3007}'));
    v.push(('\u{3021}', '\u{3029}'));
    v.push(('\u{3038}', '\u{303a}'));
    v.push(('\u{3400}', '\u{4dbf}'));
    v.push(('\u{4e00}', '\u{9fff}'));
    v.push(('\u{f900}', '\u{fa6d}'));
    v.push(('\u{fa70}', '\u{fad9}'));
    v.push(('\u{16fe4}', '\u{16fe4}'));
    v.push(('\u{17000}', '\u{187f7}'));
    v.push(('\u{18800}', '\u{18cd5}'));
    v.push(('\u{18cff}', '\u{18d08}'));
    v.push(('\u{1b170}', '\u{1b2fb}'));
    v.push(('\u{20000}', '\u{2a6df}'));
    v.push(('\u{2a700}', '\u{2b739}'));
    v.push(('\u{2b740}', '\u{2b81d}'));
    v.push(('\u{2b820}', '\u{2cea1}'));
    v.push(('\u{2ceb0}', '\u{2ebe0}'));
    v.push(('\u{2ebf0}', '\u{2ee5d}'));
    v.push(('\u{2f800}', '\u{2fa1d}'));
    v.push(('\u{30000}', '\u{3134a}'));
    v.push(('\u{31350}', '\u{323af}'));
    proof {
        assert(v@ =~= ideographic_ranges());
    }
    v
}

/// Ranges of the `Join_Control` class.
pub closed spec fn join_control_ranges() -> Seq<(char, char)> {
    seq![
        ('\u{200c}', '\u{200d}'),
    ]
}

/// Build the table of [`join_control_ranges`].
#[verifier::rlimit(100)]
pub fn join_control_table() -> (r: Vec<(char, char)>)
    ensures
        r@ == join_control_ranges(),
{
    let mut v: Vec<(char, char)> = Vec::new();
    v.push(('\u{200c}', '\u{200d}'));
    proof {
        assert(v@ =~= join_control_ranges());
    }
    v
}

/// Ranges of the `Logical_Order_Exception` class.
pub closed spec fn logical_order_exception_ranges() -> Seq<(char, char)> {
    seq![
        ('\u{e40}', '\u{e44}'),
        ('\u{ec0}', '\u{ec4}'),
        ('\u{19b5}', '\u{19b7}'),
        ('\u{19ba}', '\u{19ba}'),
        ('\u{aab5}', '\u{aab6}'),
        ('\u{aab9}', '\u{aab9}'),
        ('\u{aabb}', '\u{aabc}'),
    ]
}

/// Build the table of [`logical_order_exception_ranges`].
#[verifier::rlimit(100)]
pub fn logical_order_exception_table() -> (r: Vec<(char, char)>)
    ensures
        r@ == logical_order_exception_ranges(),
{
    let mut v: Vec<(char, char)> = Vec::new();
    v.push(('\u{e40}', '\u{e44}'));
    v.push(('\u{ec0}', '\u{ec4}'));
    v.push(('\u{19b5}', '\u{19b7}'));
    v.push(('\u{19ba}', '\u{19ba}'));
    v.push(('\u{aab5}', '\u{aab6}'));
    v.push(('\u{aab9}', '\u{aab9}'));
    v.push(('\u{aabb}', '\u{aabc}'));
    proof {
        assert(v@ =~= logical_order_exception_ranges());
    }
    v
}

/// Ranges of the `Modifier_Combining_Mark` class.
pub closed spec fn modifier_combining_mark_ranges() -> Seq<(char, char)> {
    seq![
        ('\u{654}', '\u{655}'),
        ('\u{658}', '\u{658}'),
        ('\u{6dc}', '\u{6dc}'),
        ('\u{6e3}', '\u{6e3}'),
        ('\u{6e7}', '\u{6e8}'),
        ('\u{8ca}', '\u{8cb}'),
        ('\u{8cd}', '\u{8cf}'),
        ('\u{8d3}', '\u{8d3}'),
        ('\u{8f3}', '\u{8f3}'),
    ]
}

/// Build the table of [`modifier_combining_mark_ranges`].
#[verifier::rlimit(100)]
pub fn modifier_combining_mark_table() -> (r: Vec<(char, char)>)
    ensures
        r@ == modifier_combining_mark_ranges(),
{
    let mut v: Vec<(char, char)> = Vec::new();
    v.push(('\u{654}', '\u{655}'));
    v.push(('\u{658}', '\u{658}'));
    v.push(('\u{6dc}', '\u{6dc}'));
    v.push(('\u{6e3}', '\u{6e3}'));
    v.push(('\u{6e7}', '\u{6e8}'));
    v.push(('\u{8ca}', '\u{8cb}'));
    v.push(('\u{8cd}', '\u{8cf}'));
    v.push(('\u{8d3}', '\u{8d3}'));
    v.push(('\u{8f3}', '\u{8f3}'));
    proof {
        assert(v@ =~= modifier_combining_mark_ranges());
    }
    v
}

/// Ranges of the `Noncharacter_Code_Point` class.
pub closed spec fn noncharacter_code_point_ranges() -> Seq<(char, char)> {
    seq![
        ('\u{fdd0}', '\u{fdef}'),
        ('\u{fffe}', '\u{ffff}'),
        ('\u{1fffe}', '\u{1ffff}'),
        ('\u{2fffe}', '\u{2ffff}'),
        ('\u{3fffe}', '\u{3ffff}'),
        ('\u{4fffe}', '\u{4ffff}'),
        ('\u{5fffe}', '\u{5ffff}'),
        ('\u{6fffe}', '\u{6ffff}'),
        ('\u{7fffe}', '\u{7ffff}'),
        ('\u{8fffe}', '\u{8ffff}'),
        ('\u{9fffe}', '\u{9ffff}'),
        ('\u{afffe}', '\u{affff}'),
        ('\u{bfffe}', '\u{bffff}'),
        ('\u{cfffe}', '\u{cffff}'),
        ('\u{dfffe}', '\u{dffff}'),
        ('\u{efffe}', '\u{effff}'),
        ('\u{ffffe}', '\u{fffff}'),
        ('\u{10fffe}', '\u{10ffff}'),
    ]
}

/// Build the table of [`noncharacter_code_point_ranges`].
#[verifier::rlimit(100)]
pub fn noncharacter_code_point_table() -> (r: Vec<(char, char)>)
    ensures
        r@ == noncharacter_code_point_ranges(),
{
    let mut v: Vec<(char, char)> = Vec::new();
    v.push(('\u{fdd0}', '\u{fdef}'));
    v.push(('\u{fffe}', '\u{ffff}'));
    v.push(('\u{1fffe}', '\u{1ffff}'));
    v.push(('\u{2fffe}', '\u{2ffff}'));
    v.push(('\u{3fffe}', '\u{3ffff}'));
    v.push(('\u{4fffe}', '\u{4ffff}'));
    v.push(('\u{5fffe}', '\u{5ffff}'));
    v.push(('\u{6fffe}', '\u{6ffff}'));
    v.push(('\u{7fffe}', '\u{7ffff}'));
    v.push(('\u{8fffe}', '\u{8ffff}'));
    v.push(('\u{9fffe}', '\u{9ffff}'));
    v.push(('\u{afffe}', '\u{affff}'));
    v.push(('\u{bfffe}', '\u{bffff}'));
    v.push(('\u{cfffe}', '\u{cffff}'));
    v.push(('\u{dfffe}', '\u{dffff}'));
    v.push(('\u{efffe}', '\u{effff}'));
    v.push(('\u{ffffe}', '\u{fffff}'));
    v.push(('\u{10fffe}', '\u{10ffff}'));
    proof {
        assert(v@ =~= noncharacter_code_point_ranges());
    }
    v
}

/// Ranges of the `Other_Default_Ignorable_Code_Point` class.
pub closed spec fn other_default_ignorable_code_point_ranges() -> Seq<(char, char)> {
    seq![
        ('\u{34f}', '\u{34f}'),
        ('\u{115f}', '\u{1160}'),
        ('\u{17b4}', '\u{17b5}'),
        ('\u{2065}', '\u{2065}'),
        ('\u{3164}', '\u{3164}'),
        ('\u{ffa0}', '\u{ffa0}'),
        ('\u{fff0}', '\u{fff8}'),
        ('\u{e0000}', '\u{e0000}'),
        ('\u{e0002}', '\u{e001f}'),
        ('\u{e0080}', '\u{e00ff}'),
        ('\u{e01f0}', '\u{e0fff}'),
    ]
}

/// Build the table of [`other_default_ignorable_code_point_ranges`].
#[verifier::rlimit(100)]
pub fn other_default_ignorable_code_point_table() -> (r: Vec<(char, char)>)
    ensures
        r@ == other_default_ignorable_code_point_ranges(),
{
    let mut v: Vec<(char, char)> = Vec::new();
    v.push(('\u{34f}', '\u{34f}'));
    v.push(('\u{115f}', '\u{1160}'));
    v.push(('\u{17b4}', '\u{17b5}'));
    v.push(('\u{2065}', '\u{2065}'));
    v.push(('\u{3164}', '\u{3164}'));
    v.push(('\u{ffa0}', '\u{ffa0}'));
    v.push(('\u{fff0}', '\u{fff8}'));
    v.push(('\u{e0000}', '\u{e0000}'));
    v.push(('\u{e0002}', '\u{e001f}'));
    v.push(('\u{e0080}', '\u{e00ff}'));
    v.push(('\u{e01f0}', '\u{e0fff}'));
    proof {
        assert(v@ =~= other_default_ignorable_code_point_ranges());
    }
    v
}

/// Ranges of the `Other_Grapheme_Extend` class.
pub closed spec fn other_grapheme_extend_ranges() -> Seq<(char, char)> {
    seq![
        ('\u{9be}', '\u{9be}'),
        ('\u{9d7}', '\u{9d7}'),
        ('\u{b3e}', '\u{b3e}'),
        ('\u{b57}', '\u{b57}'),
        ('\u{bbe}', '\u{bbe}'),
        ('\u{bd7}', '\u{bd7}'),
        ('\u{cc0}', '\u{cc0}'),
        ('\u{cc2}', '\u{cc2}'),
        ('\u{cc7}', '\u{cc8}'),
        ('\u{cca}', '\u{ccb}'),
        ('\u{cd5}', '\u{cd6}'),
        ('\u{d3e}', '\u{d3e}'),
        ('\u{d57}', '\u{d57}'),
        ('\u{dcf}', '\u{dcf}'),
        ('\u{ddf}', '\u{ddf}'),
        ('\u{1715}', '\u{1715}'),
        ('\u{1734}', '\u{1734}'),
        ('\u{1b35}', '\u{1b35}'),
        ('\u{1b3b}', '\u{1b3b}'),
        ('\u{1b3d}', '\u{1b3d}'),
        ('\u{1b43}', '\u{1b44}'),
        ('\u{1baa}', '\u{1baa}'),
        ('\u{1bf2}', '\u{1bf3}'),
        ('\u{200c}', '\u{200c}'),
        ('\u{302e}', '\u{302f}'),
        ('\u{a953}', '\u{a953}'),
        ('\u{a9c0}', '\u{a9c0}'),
        ('\u{ff9e}', '\u{ff9f}'),
        ('\u{111c0}', '\u{111c0}'),
        ('\u{11235}', '\u{11235}'),
        ('\u{1133e}', '\u{1133e}'),
        ('\u{1134d}', '\u{1134d}'),
        ('\u{11357}', '\u{11357}'),
        ('\u{113b8}', '\u{113b8}'),
        ('\u{113c2}', '\u{113c2}'),
        ('\u{113c5}', '\u{113c5}'),
        ('\u{113c7}', '\u{113c9}'),
        ('\u{113cf}', '\u{113cf}'),
        ('\u{114b0}', '\u{114b0}'),
        ('\u{114bd}', '\u{114bd}'),
        ('\u{115af}', '\u{115af}'),
        ('\u{116b6}', '\u{116b6}'),
        ('\u{11930}', '\u{11930}'),
        ('\u{1193d}', '\u{1193d}'),
        ('\u{11f41}', '\u{11f41}'),
        ('\u{16ff0}', '\u{16ff1}'),
        ('\u{1d165}', '\u{1d166}'),
        ('\u{1d16d}', '\u{1d172}'),
        ('\u{e0020}', '\u{e007f}'),
    ]
}

/// Build the table of [`other_grapheme_extend_ranges`].
#[verifier::rlimit(100)]
pub fn other_grapheme_extend_table() -> (r: Vec<(char, char)>)
    ensures
        r@ == other_grapheme_extend_ranges(),
{
    let mut v: Vec<(char, char)> = Vec::new();
    v.push(('\u{9be}', '\u{9be}'));
    v.push(('\u{9d7}', '\u{9d7}'));
    v.push(('\u{b3e}', '\u{b3e}'));
    v.push(('\u{b57}', '\u{b57}'));
    v.push(('\u{bbe}', '\u{bbe}'));
    v.push(('\u{bd7}', '\u{bd7}'));
    v.push(('\u{cc0}', '\u{cc0}'));
    v.push(('\u{cc2}', '\u{cc2}'));
    v.push(('\u{cc7}', '\u{cc8}'));
    v.push(('\u{cca}', '\u{ccb}'));
    v.push(('\u{cd5}', '\u{cd6}'));
    v.push(('\u{d3e}', '\u{d3e}'));
    v.push(('\u{d57}', '\u{d57}'));
    v.push(('\u{dcf}', '\u{dcf}'));
    v.push(('\u{ddf}', '\u{ddf}'));
    v.push(('\u{1715}', '\u{1715}'));
    v.push(('\u{1734}', '\u{1734}'));
    v.push(('\u{1b35}', '\u{1b35}'));
    v.push(('\u{1b3b}', '\u{1b3b}'));
    v.push(('\u{1b3d}', '\u{1b3d}'));
    v.push(('\u{1b43}', '\u{1b44}'));
    v.push(('\u{1baa}', '\u{1baa}'));
    v.push(('\u{1bf2}', '\u{1bf3}'));
    v.push(('\u{200c}', '\u{200c}'));
    v.push(('\u{302e}', '\u{302f}'));
    v.push(('\u{a953}', '\u{a953}'));
    v.push(('\u{a9c0}', '\u{a9c0}'));
    v.push(('\u{ff9e}', '\u{ff9f}'));
    v.push(('\u{111c0}', '\u{111c0}'));
    v.push(('\u{11235}', '\u{11235}'));
    v.push(('\u{1133e}', '\u{1133e}'));
    v.push(('\u{1134d}', '\u{1134d}'));
    v.push(('\u{11357}', '\u{11357}'));
    v.push(('\u{113b8}', '\u{113b8}'));
    v.push(('\u{113c2}', '\u{113c2}'));
    v.push(('\u{113c5}', '\u{113c5}'));
    v.push(('\u{113c7}', '\u{113c9}'));
    v.push(('\u{113cf}', '\u{113cf}'));
    v.push(('\u{114b0}', '\u{114b0}'));
    v.push(('\u{114bd}', '\u{114bd}'));
    v.push(('\u{115af}', '\u{115af}'));
    v.push(('\u{116b6}', '\u{116b6}'));
    v.push(('\u{11930}', '\u{11930}'));
    v.push(('\u{1193d}', '\u{1193d}'));
    v.push(('\u{11f41}', '\u{11f41}'));
    v.push(('\u{16ff0}', '\u{16ff1}'));
    v.push(('\u{1d165}', '\u{1d166}'));
    v.push(('\u{1d16d}', '\u{1d172}'));
    v.push(('\u{e0020}', '\u{e007f}'));
    proof {
        assert(v@ =~= other_grapheme_extend_ranges());
    }
    v
}

/// Ranges of the `Other_ID_Continue` class.
pub closed spec fn other_id_continue_ranges() -> Seq<(char, char)> {
    seq![
        ('\u{b7}', '\u{b7}'),
        ('\u{387}', '\u{387}'),
        ('\u{1369}', '\u{1371}'),
        ('\u{19da}', '\u{19da}'),
        ('\u{200c}', '\u{200d}'),
        ('\u{30fb}', '\u{30fb}'),
        ('\u{ff65}', '\u{ff65}'),
    ]
}

/// Build the table of [`other_id_continue_ranges`].
#[verifier::rlimit(100)]
pub fn other_id_continue_table() -> (r: Vec<(char, char)>)
    ensures
        r@ == other_id_continue_ranges(),
{
    let mut v: Vec<(char, char)> = Vec::new();
    v.push(('\u{b7}', '\u{b7}'));
    v.push(('\u{387}', '\u{387}'));
    v.push(('\u{1369}', '\u{1371}'));
    v.push(('\u{19da}', '\u{19da}'));
    v.push(('\u{200c}', '\u{200d}'));
    v.push(('\u{30fb}', '\u{30fb}'));
    v.push(('\u{ff65}', '\u{ff65}'));
    proof {
        assert(v@ =~= other_id_continue_ranges());
    }
    v
}

/// Ranges of the `Other_ID_Start` class.
pub closed spec fn other_id_start_ranges() -> Seq<(char, char)> {
    seq![
        ('\u{1885}', '\u{1886}'),
        ('\u{2118}', '\u{2118}'),
        ('\u{212e}', '\u{212e}'),
        ('\u{309b}', '\u{309c}'),
    ]
}

/// Build the table of [`other_id_start_ranges`].
#[verifier::rlimit(100)]
pub fn other_id_start_table() -> (r: Vec<(char, char)>)
    ensures
        r@ == other_id_start_ranges(),
{
    let mut v: Vec<(char, char)> = Vec::new();
    v.push(('\u{1885}', '\u{1886}'));
    v.push(('\u{2118}', '\u{2118}'));
    v.push(('\u{212e}', '\u{212e}'));
    v.push(('\u{309b}', '\u{309c}'));
    proof {
        assert(v@ =~= other_id_start_ranges());
    }
    v
}

/// Ranges of the `Other_Lowercase` class.
pub closed spec fn other_lowercase_ranges() -> Seq<(char, char)> {
    seq![
        ('\u{aa}', '\u{aa}'),
        ('\u{ba}', '\u{ba}'),
        ('\u{2b0}', '\u{2b8}'),
        ('\u{2c0}', '\u{2c1}'),
        ('\u{2e0}', '\u{2e4}'),
        ('\u{345}', '\u{345}'),
        ('\u{37a}', '\u{37a}'),
        ('\u{10fc}', '\u{10fc}'),
        ('\u{1d2c}', '\u{1d6a}'),
        ('\u{1d78}', '\u{1d78}'),
        ('\u{1d9b}', '\u{1dbf}'),
        ('\u{2071}', '\u{2071}'),
        ('\u{207f}', '\u{207f}'),
        ('\u{2090}', '\u{209c}'),
        ('\u{2170}', '\u{217f}'),
        ('\u{24d0}', '\u{24e9}'),
        ('\u{2c7c}', '\u{2c7d}'),
        ('\u{a69c}', '\u{a69d}'),
        ('\u{a770}', '\u{a770}'),
        ('\u{a7f2}', '\u{a7f4}'),
        ('\u{a7f8}', '\u{a7f9}'),
        ('\u{ab5c}', '\u{ab5f}'),
        ('\u{ab69}', '\u{ab69}'),
        ('\u{10780}', '\u{10780}'),
        ('\u{10783}', '\u{10785}'),
        ('\u{10787}', '\u{107b0}'),
        ('\u{107b2}', '\u{107ba}'),
        ('\u{1e030}', '\u{1e06d}'),
    ]
}

/// Build the table of [`other_lowercase_ranges`].
#[verifier::rlimit(100)]
pub fn other_lowercase_table() -> (r: Vec<(char, char)>)
    ensures
        r@ == other_lowercase_ranges(),
{
    let mut v: Vec<(char, char)> = Vec::new();
    v.push(('\u{aa}', '\u{aa}'));
    v.push(('\u{ba}', '\u{ba}'));
    v.push(('\u{2b0}', '\u{2b8}'));
    v.push(('\u{2c0}', '\u{2c1}'));
    v.push(('\u{2e0}', '\u{2e4}'));
    v.push(('\u{345}', '\u{345}'));
    v.push(('\u{37a}', '\u{37a}'));
    v.push(('\u{10fc}', '\u{10fc}'));
    v.push(('\u{1d2c}', '\u{1d6a}'));
    v.push(('\u{1d78}', '\u{1d78}'));
    v.push(('\u{1d9b}', '\u{1dbf}'));
    v.push(('\u{2071}', '\u{2071}'));
    v.push(('\u{207f}', '\u{207f}'));
    v.push(('\u{2090}', '\u{209c}'));
    v.push(('\u{2170}', '\u{217f}'));
    v.push(('\u{24d0}', '\u{24e9}'));
    v.push(('\u{2c7c}', '\u{2c7d}'));
    v.push(('\u{a69c}', '\u{a69d}'));
    v.push(('\u{a770}', '\u{a770}'));
    v.push(('\u{a7f2}', '\u{a7f4}'));
    v.push(('\u{a7f8}', '\u{a7f9}'));
    v.push(('\u{ab5c}', '\u{ab5f}'));
    v.push(('\u{ab69}', '\u{ab69}'));
    v.push(('\u{10780}', '\u{10780}'));
    v.push(('\u{10783}', '\u{10785}'));
    v.push(('\u{10787}', '\u{107b0}'));
    v.push(('\u{107b2}', '\u{107ba}'));
    v.push(('\u{1e030}', '\u{1e06d}'));
    proof {
        assert(v@ =~= other_lowercase_ranges());
    }
    v
}

/// Ranges of the `Other_Uppercase` class.
pub closed spec fn other_uppercase_ranges() -> Seq<(char, char)> {
    seq![
        ('\u{2160}', '\u{216f}'),
        ('\u{24b6}', '\u{24cf}'),
        ('\u{1f130}', '\u{1f149}'),
        ('\u{1f150}', '\u{1f169}'),
        ('\u{1f170}', '\u{1f189}'),
    ]
}

/// Build the table of [`other_uppercase_ranges`].
#[verifier::rlimit(100)]
pub fn other_uppercase_table() -> (r: Vec<(char, char)>)
    ensures
        r@ == other_uppercase_ranges(),
{
    let mut v: Vec<(char, char)> = Vec::new();
    v.push(('\u{2160}', '\u{216f}'));
    v.push(('\u{24b6}', '\u{24cf}'));
    v.push(('\u{1f130}', '\u{1f149}'));
    v.push(('\u{1f150}', '\u{1f169}'));
    v.push(('\u{1f170}', '\u{1f189}'));
    proof {
        assert(v@ =~= other_uppercase_ranges());
    }
    v
}

/// Ranges of the `Pattern_Syntax` class.
pub closed spec fn pattern_syntax_ranges() -> Seq<(char, char)> {
    seq![
        ('!', '/'),
        (':', '@'),
        ('[', '^'),
        ('`', '`'),
        ('{', '~'),
        ('\u{a1}', '\u{a7}'),
        ('\u{a9}', '\u{a9}'),
        ('\u{ab}', '\u{ac}'),
        ('\u{ae}', '\u{ae}'),
        ('\u{b0}', '\u{b1}'),
        ('\u{b6}', '\u{b6}'),
        ('\u{bb}', '\u{bb}'),
        ('\u{bf}', '\u{bf}'),
        ('\u{d7}', '\u{d7}'),
        ('\u{f7}', '\u{f7}'),
        ('\u{2010}', '\u{2027}'),
        ('\u{2030}', '\u{203e}'),
        ('\u{2041}', '\u{2053}'),
        ('\u{2055}', '\u{205e}'),
        ('\u{2190}', '\u{245f}'),
        ('\u{2500}', '\u{2775}'),
        ('\u{2794}', '\u{2bff}'),
        ('\u{2e00}', '\u{2e7f}'),
        ('\u{3001}', '\u{3003}'),
        ('\u{3008}', '\u{3020}'),
        ('\u{3030}', '\u{3030}'),
        ('\u{fd3e}', '\u{fd3f}'),
        ('\u{fe45}', '\u{fe46}'),
    ]
}

/// Build the table of [`pattern_syntax_ranges`].
#[verifier::rlimit(100)]
pub fn pattern_syntax_table() -> (r: Vec<(char, char)>)
    ensures
        r@ == pattern_syntax_ranges(),
{
    let mut v: Vec<(char, char)> = Vec::new();
    v.push(('!', '/'));
    v.push((':', '@'));
    v.push(('[', '^'));
    v.push(('`', '`'));
    v.push(('{', '~'));
    v.push(('\u{a1}', '\u{a7}'));
    v.push(('\u{a9}', '\u{a9}'));
    v.push(('\u{ab}', '\u{ac}'));
    v.push(('\u{ae}', '\u{ae}'));
    v.push(('\u{b0}', '\u{b1}'));
    v.push(('\u{b6}', '\u{b6}'));
    v.push(('\u{bb}', '\u{bb}'));
    v.push(('\u{bf}', '\u{bf}'));
    v.push(('\u{d7}', '\u{d7}'));
    v.push(('\u{f7}', '\u{f7}'));
    v.push(('\u{2010}', '\u{2027}'));
    v.push(('\u{2030}', '\u{203e}'));
    v.push(('\u{2041}', '\u{2053}'));
    v.push(('\u{2055}', '\u{205e}'));
    v.push(('\u{2190}', '\u{245f}'));
    v.push(('\u{2500}', '\u{2775}'));
    v.push(('\u{2794}', '\u{2bff}'));
    v.push(('\u{2e00}', '\u{2e7f}'));
    v.push(('\u{3001}', '\u{3003}'));
    v.push(('\u{3008}', '\u{3020}'));
    v.push(('\u{3030}', '\u{3030}'));
    v.push(('\u{fd3e}', '\u{fd3f}'));
    v.push(('\u{fe45}', '\u{fe46}'));
    proof {
        assert(v@ =~= pattern_syntax_ranges());
    }
    v
}

/// Ranges of the `Pattern_White_Space` class.
pub closed spec fn pattern_white_space_ranges() -> Seq<(char, char)> {
    seq![
        ('\u{9}', '\u{d}'),
        (' ', ' '),
        ('\u{85}', '\u{85}'),
        ('\u{200e}', '\u{200f}'),
        ('\u{2028}', '\u{2029}'),
    ]
}

/// Build the table of [`pattern_white_space_ranges`].
#[verifier::rlimit(100)]
pub fn pattern_white_space_table() -> (r: Vec<(char, char)>)
    ensures
        r@ == pattern_white_space_ranges(),
{
    let mut v: Vec<(char, char)> = Vec::new();
    v.push(('\u{9}', '\u{d}'));
    v.push((' ', ' '));
    v.push(('\u{85}', '\u{85}'));
    v.push(('\u{200e}', '\u{200f}'));
    v.push(('\u{2028}', '\u{2029}'));
    proof {
        assert(v@ =~= pattern_white_space_ranges());
    }
    v
}

/// Ranges of the `Prepended_Concatenation_Mark` class.
pub closed spec fn prepended_concatenation_mark_ranges() -> Seq<(char, char)> {
    seq![
        ('\u{600}', '\u{605}'),
        ('\u{6dd}', '\u{6dd}'),
        ('\u{70f}', '\u{70f}'),
        ('\u{890}', '\u{891}'),
        ('\u{8e2}', '\u{8e2}'),
        ('\u{110bd}', '\u{110bd}'),
        ('\u{110cd}', '\u{110cd}'),
    ]
}

/// Build the table of [`prepended_concatenation_mark_ranges`].
#[verifier::rlimit(100)]
pub fn prepended_concatenation_mark_table() -> (r: Vec<(char, char)>)
    ensures
        r@ == prepended_concatenation_mark_ranges(),
{
    let mut v: Vec<(char, char)> = Vec::new();
    v.push(('\u{600}', '\u{605}'));
    v.push(('\u{6dd}', '\u{6dd}'));
    v.push(('\u{70f}', '\u{70f}'));
    v.push(('\u{890}', '\u{891}'));
    v.push(('\u{8e2}', '\u{8e2}'));
    v.push(('\u{110bd}', '\u{110bd}'));
    v.push(('\u{110cd}', '\u{110cd}'));
    proof {
        assert(v@ =~= prepended_concatenation_mark_ranges());
    }
    v
}

/// Ranges of the `Quotation_Mark` class.
pub closed spec fn quotation_mark_ranges() -> Seq<(char, char)> {
    seq![
        ('"', '"'),
        ('\u{27}', '\u{27}'),
        ('\u{ab}', '\u{ab}'),
        ('\u{bb}', '\u{bb}'),
        ('\u{2018}', '\u{201f}'),
        ('\u{2039}', '\u{203a}'),
        ('\u{2e42}', '\u{2e42}'),
        ('\u{300c}', '\u{300f}'),
        ('\u{301d}', '\u{301f}'),
        ('\u{fe41}', '\u{fe44}'),
        ('\u{ff02}', '\u{ff02}'),
        ('\u{ff07}', '\u{ff07}'),
        ('\u{ff62}', '\u{ff63}'),
    ]
}

/// Build the table of [`quotation_mark_ranges`].
#[verifier::rlimit(100)]
pub fn quotation_mark_table() -> (r: Vec<(char, char)>)
    ensures
        r@ == quotation_mark_ranges(),
{
    let mut v: Vec<(char, char)> = Vec::new();
    v.push(('"', '"'));
    v.push(('\u{27}', '\u{27}'));
    v.push(('\u{ab}', '\u{ab}'));
    v.push(('\u{bb}', '\u{bb}'));
    v.push(('\u{2018}', '\u{201f}'));
    v.push(('\u{2039}', '\u{203a}'));
    v.push(('\u{2e42}', '\u{2e42}'));
    v.push(('\u{300c}', '\u{300f}'));
    v.push(('\u{301d}', '\u{301f}'));
    v.push(('\u{fe41}', '\u{fe44}'));
    v.push(('\u{ff02}', '\u{ff02}'));
    v.push(('\u{ff07}', '\u{ff07}'));
    v.push(('\u{ff62}', '\u{ff63}'));
    proof {
        assert(v@ =~= quotation_mark_ranges());
    }
    v
}

/// Ranges of the `Radical` class.
pub closed spec fn radical_ranges() -> Seq<(char, char)> {
    seq![
        ('\u{2e80}', '\u{2e99}'),
        ('\u{2e9b}', '\u{2ef3}'),
        ('\u{2f00}', '\u{2fd5}'),
    ]
}

/// Build the table of [`radical_ranges`].
#[verifier::rlimit(100)]
pub fn radical_table() -> (r: Vec<(char, char)>)
    ensures
        r@ == radical_ranges(),
{
    let mut v: Vec<(char, char)> = Vec::new();
    v.push(('\u{2e80}', '\u{2e99}'));
    v.push(('\u{2e9b}', '\u{2ef3}'));
    v.push(('\u{2f00}', '\u{2fd5}'));
    proof {
        assert(v@ =~= radical_ranges());
    }
    v
}

/// Ranges of the `Regional_Indicator` class.
pub closed spec fn regional_indicator_ranges() -> Seq<(char, char)> {
    seq![
        ('\u{1f1e6}', '\u{1f1ff}'),
    ]
}

/// Build the table of [`regional_indicator_ranges`].
#[verifier::rlimit(100)]
pub fn regional_indicator_table() -> (r: Vec<(char, char)>)
    ensures
        r@ == regional_indicator_ranges(),
{
    let mut v: Vec<(char, char)> = Vec::new();
    v.push(('\u{1f1e6}', '\u{1f1ff}'));
    proof {
        assert(v@ =~= regional_indicator_ranges());
    }
    v
}

/// One stretch of the `Sentence_Terminal` ranges.
pub closed spec fn sentence_terminal_part_0_ranges() -> Seq<(char, char)> {
    seq![
        ('!', '!'),
        ('.', '.'),
        ('?', '?'),
        ('\u{589}', '\u{589}'),
        ('\u{61d}', '\u{61f}'),
        ('\u{6d4}', '\u{6d4}'),
        ('\u{700}', '\u{702}'),
        ('\u{7f9}', '\u{7f9}'),
        ('\u{837}', '\u{837}'),
        ('\u{839}', '\u{839}'),
        ('\u{83d}', '\u{83e}'),
        ('\u{964}', '\u{965}'),
        ('\u{104a}', '\u{104b}'),
        ('\u{1362}', '\u{1362}'),
        ('\u{1367}', '\u{1368}'),
        ('\u{166e}', '\u{166e}'),
        ('\u{1735}', '\u{1736}'),
        ('\u{17d4}', '\u{17d5}'),
        ('\u{1803}', '\u{1803}'),
        ('\u{1809}', '\u{1809}'),
        ('\u{1944}', '\u{1945}'),
        ('\u{1aa8}', '\u{1aab}'),
        ('\u{1b4e}', '\u{1b4f}'),
        ('\u{1b5a}', '\u{1b5b}'),
        ('\u{1b5e}', '\u{1b5f}'),
        ('\u{1b7d}', '\u{1b7f}'),
        ('\u{1c3b}', '\u{1c3c}'),
        ('\u{1c7e}', '\u{1c7f}'),
        ('\u{2024}', '\u{2024}'),
        ('\u{203c}', '\u{203d}'),
        ('\u{2047}', '\u{2049}'),
        ('\u{2cf9}', '\u{2cfb}'),
        ('\u{2e2e}', '\u{2e2e}'),
        ('\u{2e3c}', '\u{2e3c}'),
        ('\u{2e53}', '\u{2e54}'),
        ('\u{3002}', '\u{3002}'),
        ('\u{a4ff}', '\u{a4ff}'),
        ('\u{a60e}', '\u{a60f}'),
        ('\u{a6f3}', '\u{a6f3}'),
        ('\u{a6f7}', '\u{a6f7}'),
        ('\u{a876}', '\u{a877}'),
        ('\u{a8ce}', '\u{a8cf}'),
        ('\u{a92f}', '\u{a92f}'),
        ('\u{a9c8}', '\u{a9c9}'),
        ('\u{aa5d}', '\u{aa5f}'),
        ('\u{aaf0}', '\u{aaf1}'),
        ('\u{abeb}', '\u{abeb}'),
        ('\u{fe12}', '\u{fe12}'),
        ('\u{fe15}', '\u{fe16}'),
        ('\u{fe52}', '\u{fe52}'),
    ]
}

/// One stretch of the `Sentence_Terminal` ranges.
pub closed spec fn sentence_terminal_part_1_ranges() -> Seq<(char, char)> {
    seq![
        ('\u{fe56}', '\u{fe57}'),
        ('\u{ff01}', '\u{ff01}'),
        ('\u{ff0e}', '\u{ff0e}'),
        ('\u{ff1f}', '\u{ff1f}'),
        ('\u{ff61}', '\u{ff61}'),
        ('\u{10a56}', '\u{10a57}'),
        ('\u{10f55}', '\u{10f59}'),
        ('\u{10f86}', '\u{10f89}'),
        ('\u{11047}', '\u{11048}'),
        ('\u{110be}', '\u{110c1}'),
        ('\u{11141}', '\u{11143}'),
        ('\u{111c5}', '\u{111c6}'),
        ('\u{111cd}', '\u{111cd}'),
        ('\u{111de}', '\u{111df}'),
        ('\u{11238}', '\u{11239}'),
        ('\u{1123b}', '\u{1123c}'),
        ('\u{112a9}', '\u{112a9}'),
        ('\u{113d4}', '\u{113d5}'),
        ('\u{1144b}', '\u{1144c}'),
        ('\u{115c2}', '\u{115c3}'),
        ('\u{115c9}', '\u{115d7}'),
        ('\u{11641}', '\u{11642}'),
        ('\u{1173c}', '\u{1173e}'),
        ('\u{11944}', '\u{11944}'),
        ('\u{11946}', '\u{11946}'),
        ('\u{11a42}', '\u{11a43}'),
        ('\u{11a9b}', '\u{11a9c}'),
        ('\u{11c41}', '\u{11c42}'),
        ('\u{11ef7}', '\u{11ef8}'),
        ('\u{11f43}', '\u{11f44}'),
        ('\u{16a6e}', '\u{16a6f}'),
        ('\u{16af5}', '\u{16af5}'),
        ('\u{16b37}', '\u{16b38}'),
        ('\u{16b44}', '\u{16b44}'),
        ('\u{16d6e}', '\u{16d6f}'),
        ('\u{16e98}', '\u{16e98}'),
        ('\u{1bc9f}', '\u{1bc9f}'),
        ('\u{1da88}', '\u{1da88}'),
    ]
}

/// Ranges of the `Sentence_Terminal` class.
pub closed spec fn sentence_terminal_ranges() -> Seq<(char, char)> {
    sentence_terminal_part_0_ranges() + sentence_terminal_part_1_ranges()
}

/// Build one stretch of the `Sentence_Terminal` range table.
#[verifier::rlimit(100)]
fn sentence_terminal_part_0_table() -> (r: Vec<(char, char)>)
    ensures
        r@ == sentence_terminal_part_0_ranges(),
{
    let mut v: Vec<(char, char)> = Vec::new();
    v.push(('!', '!'));
    v.push(('.', '.'));
    v.push(('?', '?'));
    v.push(('\u{589}', '\u{589}'));
    v.push(('\u{61d}', '\u{61f}'));
    v.push(('\u{6d4}', '\u{6d4}'));
    v.push(('\u{700}', '\u{702}'));
    v.push(('\u{7f9}', '\u{7f9}'));
    v.push(('\u{837}', '\u{837}'));
    v.push(('\u{839}', '\u{839}'));
    v.push(('\u{83d}', '\u{83e}'));
    v.push(('\u{964}', '\u{965}'));
    v.push(('\u{104a}', '\u{104b}'));
    v.push(('\u{1362}', '\u{1362}'));
    v.push(('\u{1367}', '\u{1368}'));
    v.push(('\u{166e}', '\u{166e}'));
    v.push(('\u{1735}', '\u{1736}'));
    v.push(('\u{17d4}', '\u{17d5}'));
    v.push(('\u{1803}', '\u{1803}'));
    v.push(('\u{1809}', '\u{1809}'));
    v.push(('\u{1944}', '\u{1945}'));
    v.push(('\u{1aa8}', '\u{1aab}'));
    v.push(('\u{1b4e}', '\u{1b4f}'));
    v.push(('\u{1b5a}', '\u{1b5b}'));
    v.push(('\u{1b5e}', '\u{1b5f}'));
    v.push(('\u{1b7d}', '\u{1b7f}'));
    v.push(('\u{1c3b}', '\u{1c3c}'));
    v.push(('\u{1c7e}', '\u{1c7f}'));
    v.push(('\u{2024}', '\u{2024}'));
    v.push(('\u{203c}', '\u{203d}'));
    v.push(('\u{2047}', '\u{2049}'));
    v.push(('\u{2cf9}', '\u{2cfb}'));
    v.push(('\u{2e2e}', '\u{2e2e}'));
    v.push(('\u{2e3c}', '\u{2e3c}'));
    v.push(('\u{2e53}', '\u{2e54}'));
    v.push(('\u{3002}', '\u{3002}'));
    v.push(('\u{a4ff}', '\u{a4ff}'));
    v.push(('\u{a60e}', '\u{a60f}'));
    v.push(('\u{a6f3}', '\u{a6f3}'));
    v.push(('\u{a6f7}', '\u{a6f7}'));
    v.push(('\u{a876}', '\u{a877}'));
    v.push(('\u{a8ce}', '\u{a8cf}'));
    v.push(('\u{a92f}', '\u{a92f}'));
    v.push(('\u{a9c8}', '\u{a9c9}'));
    v.push(('\u{aa5d}', '\u{aa5f}'));
    v.push(('\u{aaf0}', '\u{aaf1}'));
    v.push(('\u{abeb}', '\u{abeb}'));
    v.push(('\u{fe12}', '\u{fe12}'));
    v.push(('\u{fe15}', '\u{fe16}'));
    v.push(('\u{fe52}', '\u{fe52}'));
    proof {
        assert(v@ =~= sentence_terminal_part_0_ranges());
    }
    v
}

/// Build one stretch of the `Sentence_Terminal` range table.
#[verifier::rlimit(100)]
fn sentence_terminal_part_1_table() -> (r: Vec<(char, char)>)
    ensures
        r@ == sentence_terminal_part_1_ranges(),
{
    let mut v: Vec<(char, char)> = Vec::new();
    v.push(('\u{fe56}', '\u{fe57}'));
    v.push(('\u{ff01}', '\u{ff01}'));
    v.push(('\u{ff0e}', '\u{ff0e}'));
    v.push(('\u{ff1f}', '\u{ff1f}'));
    v.push(('\u{ff61}', '\u{ff61}'));
    v.push(('\u{10a56}', '\u{10a57}'));
    v.push(('\u{10f55}', '\u{10f59}'));
    v.push(('\u{10f86}', '\u{10f89}'));
    v.push(('\u{11047}', '\u{11048}'));
    v.push(('\u{110be}', '\u{110c1}'));
    v.push(('\u{11141}', '\u{11143}'));
    v.push(('\u{111c5}', '\u{111c6}'));
    v.push(('\u{111cd}', '\u{111cd}'));
    v.push(('\u{111de}', '\u{111df}'));
    v.push(('\u{11238}', '\u{11239}'));
    v.push(('\u{1123b}', '\u{1123c}'));
    v.push(('\u{112a9}', '\u{112a9}'));
    v.push(('\u{113d4}', '\u{113d5}'));
    v.push(('\u{1144b}', '\u{1144c}'));
    v.push(('\u{115c2}', '\u{115c3}'));
    v.push(('\u{115c9}', '\u{115d7}'));
    v.push(('\u{11641}', '\u{11642}'));
    v.push(('\u{1173c}', '\u{1173e}'));
    v.push(('\u{11944}', '\u{11944}'));
    v.push(('\u{11946}', '\u{11946}'));
    v.push(('\u{11a42}', '\u{11a43}'));
    v.push(('\u{11a9b}', '\u{11a9c}'));
    v.push(('\u{11c41}', '\u{11c42}'));
    v.push(('\u{11ef7}', '\u{11ef8}'));
    v.push(('\u{11f43}', '\u{11f44}'));
    v.push(('\u{16a6e}', '\u{16a6f}'));
    v.push(('\u{16af5}', '\u{16af5}'));
    v.push(('\u{16b37}', '\u{16b38}'));
    v.push(('\u{16b44}', '\u{16b44}'));
    v.push(('\u{16d6e}', '\u{16d6f}'));
    v.push(('\u{16e98}', '\u{16e98}'));
    v.push(('\u{1bc9f}', '\u{1bc9f}'));
    v.push(('\u{1da88}', '\u{1da88}'));
    proof {
        assert(v@ =~= sentence_terminal_part_1_ranges());
    }
    v
}

/// Build the table of [`sentence_terminal_ranges`].
pub fn sentence_terminal_table() -> (r: Vec<(char, char)>)
    ensures
        r@ == sentence_terminal_ranges(),
{
    let mut v: Vec<(char, char)> = sentence_terminal_part_0_table();
    let mut part_1: Vec<(char, char)> = sentence_terminal_part_1_table();
    v.append(&mut part_1);
    v
}

/// Ranges of the `Soft_Dotted` class.
pub closed spec fn soft_dotted_ranges() -> Seq<(char, char)> {
    seq![
        ('i', 'j'),
        ('\u{12f}', '\u{12f}'),
        ('\u{249}', '\u{249}'),
        ('\u{268}', '\u{268}'),
        ('\u{29d}', '\u{29d}'),
        ('\u{2b2}', '\u{2b2}'),
        ('\u{3f3}', '\u{3f3}'),
        ('\u{456}', '\u{456}'),
        ('\u{458}', '\u{458}'),
        ('\u{1d62}', '\u{1d62}'),
        ('\u{1d96}', '\u{1d96}'),
        ('\u{1da4}', '\u{1da4}'),
        ('\u{1da8}', '\u{1da8}'),
        ('\u{1e2d}', '\u{1e2d}'),
        ('\u{1ecb}', '\u{1ecb}'),
        ('\u{2071}', '\u{2071}'),
        ('\u{2148}', '\u{2149}'),
        ('\u{2c7c}', '\u{2c7c}'),
        ('\u{1d422}', '\u{1d423}'),
        ('\u{1d456}', '\u{1d457}'),
        ('\u{1d48a}', '\u{1d48b}'),
        ('\u{1d4be}', '\u{1d4bf}'),
        ('\u{1d4f2}', '\u{1d4f3}'),
        ('\u{1d526}', '\u{1d527}'),
        ('\u{1d55a}', '\u{1d55b}'),
        ('\u{1d58e}', '\u{1d58f}'),
        ('\u{1d5c2}', '\u{1d5c3}'),
        ('\u{1d5f6}', '\u{1d5f7}'),
        ('\u{1d62a}', '\u{1d62b}'),
        ('\u{1d65e}', '\u{1d65f}'),
        ('\u{1d692}', '\u{1d693}'),
        ('\u{1df1a}', '\u{1df1a}'),
        ('\u{1e04c}', '\u{1e04d}'),
        ('\u{1e068}', '\u{1e068}'),
    ]
}

/// Build the table of [`soft_dotted_ranges`].
#[verifier::rlimit(100)]
pub fn soft_dotted_table() -> (r: Vec<(char, char)>)
    ensures
        r@ == soft_dotted_ranges(),
{
    let mut v: Vec<(char, char)> = Vec::new();
    v.push(('i', 'j'));
    v.push(('\u{12f}', '\u{12f}'));
    v.push(('\u{249}', '\u{249}'));
    v.push(('\u{268}', '\u{268}'));
    v.push(('\u{29d}', '\u{29d}'));
    v.push(('\u{2b2}', '\u{2b2}'));
    v.push(('\u{3f3}', '\u{3f3}'));
    v.push(('\u{456}', '\u{456}'));
    v.push(('\u{458}', '\u{458}'));
    v.push(('\u{1d62}', '\u{1d62}'));
    v.push(('\u{1d96}', '\u{1d96}'));
    v.push(('\u{1da4}', '\u{1da4}'));
    v.push(('\u{1da8}', '\u{1da8}'));
    v.push(('\u{1e2d}', '\u{1e2d}'));
    v.push(('\u{1ecb}', '\u{1ecb}'));
    v.push(('\u{2071}', '\u{2071}'));
    v.push(('\u{2148}', '\u{2149}'));
    v.push(('\u{2c7c}', '\u{2c7c}'));
    v.push(('\u{1d422}', '\u{1d423}'));
    v.push(('\u{1d456}', '\u{1d457}'));
    v.push(('\u{1d48a}', '\u{1d48b}'));
    v.push(('\u{1d4be}', '\u{1d4bf}'));
    v.push(('\u{1d4f2}', '\u{1d4f3}'));
    v.push(('\u{1d526}', '\u{1d527}'));
    v.push(('\u{1d55a}', '\u{1d55b}'));
    v.push(('\u{1d58e}', '\u{1d58f}'));
    v.push(('\u{1d5c2}', '\u{1d5c3}'));
    v.push(('\u{1d5f6}', '\u{1d5f7}'));
    v.push(('\u{1d62a}', '\u{1d62b}'));
    v.push(('\u{1d65e}', '\u{1d65f}'));
    v.push(('\u{1d692}', '\u{1d693}'));
    v.push(('\u{1df1a}', '\u{1df1a}'));
    v.push(('\u{1e04c}', '\u{1e04d}'));
    v.push(('\u{1e068}', '\u{1e068}'));
    proof {
        assert(v@ =~= soft_dotted_ranges());
    }
    v
}

/// One stretch of the `Terminal_Punctuation` ranges.
pub closed spec fn terminal_punctuation_part_0_ranges() -> Seq<(char, char)> {
    seq![
        ('!', '!'),
        (',', ','),
        ('.', '.'),
        (':', ';'),
        ('?', '?'),
        ('\u{37e}', '\u{37e}'),
        ('\u{387}', '\u{387}'),
        ('\u{589}', '\u{589}'),
        ('\u{5c3}', '\u{5c3}'),
        ('\u{60c}', '\u{60c}'),
        ('\u{61b}', '\u{61b}'),
        ('\u{61d}', '\u{61f}'),
        ('\u{6d4}', '\u{6d4}'),
        ('\u{700}', '\u{70a}'),
        ('\u{70c}', '\u{70c}'),
        ('\u{7f8}', '\u{7f9}'),
        ('\u{830}', '\u{835}'),
        ('\u{837}', '\u{83e}'),
        ('\u{85e}', '\u{85e}'),
        ('\u{964}', '\u{965}'),
        ('\u{e5a}', '\u{e5b}'),
        ('\u{f08}', '\u{f08}'),
        ('\u{f0d}', '\u{f12}'),
        ('\u{104a}', '\u{104b}'),
        ('\u{1361}', '\u{1368}'),
        ('\u{166e}', '\u{166e}'),
        ('\u{16eb}', '\u{16ed}'),
        ('\u{1735}', '\u{1736}'),
        ('\u{17d4}', '\u{17d6}'),
        ('\u{17da}', '\u{17da}'),
        ('\u{1802}', '\u{1805}'),
        ('\u{1808}', '\u{1809}'),
        ('\u{1944}', '\u{1945}'),
        ('\u{1aa8}', '\u{1aab}'),
        ('\u{1b4e}', '\u{1b4f}'),
        ('\u{1b5a}', '\u{1b5b}'),
        ('\u{1b5d}', '\u{1b5f}'),
        ('\u{1b7d}', '\u{1b7f}'),
        ('\u{1c3b}', '\u{1c3f}'),
        ('\u{1c7e}', '\u{1c7f}'),
        ('\u{2024}', '\u{2024}'),
        ('\u{203c}', '\u{203d}'),
        ('\u{2047}', '\u{2049}'),
        ('\u{2cf9}', '\u{2cfb}'),
        ('\u{2e2e}', '\u{2e2e}'),
        ('\u{2e3c}', '\u{2e3c}'),
        ('\u{2e41}', '\u{2e41}'),
        ('\u{2e4c}', '\u{2e4c}'),
        ('\u{2e4e}', '\u{2e4f}'),
        ('\u{2e53}', '\u{2e54}'),
    ]
}

/// One stretch of the `Terminal_Punctuation` ranges.
pub closed spec fn terminal_punctuation_part_1_ranges() -> Seq<(char, char)> {
    seq![
        ('\u{3001}', '\u{3002}'),
        ('\u{a4fe}', '\u{a4ff}'),
        ('\u{a60d}', '\u{a60f}'),
        ('\u{a6f3}', '\u{a6f7}'),
        ('\u{a876}', '\u{a877}'),
        ('\u{a8ce}', '\u{a8cf}'),
        ('\u{a92f}', '\u{a92f}'),
        ('\u{a9c7}', '\u{a9c9}'),
        ('\u{aa5d}', '\u{aa5f}'),
        ('\u{aadf}', '\u{aadf}'),
        ('\u{aaf0}', '\u{aaf1}'),
        ('\u{abeb}', '\u{abeb}'),
        ('\u{fe12}', '\u{fe12}'),
        ('\u{fe15}', '\u{fe16}'),
        ('\u{fe50}', '\u{fe52}'),
        ('\u{fe54}', '\u{fe57}'),
        ('\u{ff01}', '\u{ff01}'),
        ('\u{ff0c}', '\u{ff0c}'),
        ('\u{ff0e}', '\u{ff0e}'),
        ('\u{ff1a}', '\u{ff1b}'),
        ('\u{ff1f}', '\u{ff1f}'),
        ('\u{ff61}', '\u{ff61}'),
        ('\u{ff64}', '\u{ff64}'),
        ('\u{1039f}', '\u{1039f}'),
        ('\u{103d0}', '\u{103d0}'),
        ('\u{10857}', '\u{10857}'),
        ('\u{1091f}', '\u{1091f}'),
        ('\u{10a56}', '\u{10a57}'),
        ('\u{10af0}', '\u{10af5}'),
        ('\u{10b3a}', '\u{10b3f}'),
        ('\u{10b99}', '\u{10b9c}'),
        ('\u{10f55}', '\u{10f59}'),
        ('\u{10f86}', '\u{10f89}'),
        ('\u{11047}', '\u{1104d}'),
        ('\u{110be}', '\u{110c1}'),
        ('\u{11141}', '\u{11143}'),
        ('\u{111c5}', '\u{111c6}'),
        ('\u{111cd}', '\u{111cd}'),
        ('\u{111de}', '\u{111df}'),
        ('\u{11238}', '\u{1123c}'),
        ('\u{112a9}', '\u{112a9}'),
        ('\u{113d4}', '\u{113d5}'),
        ('\u{1144b}', '\u{1144d}'),
        ('\u{1145a}', '\u{1145b}'),
        ('\u{115c2}', '\u{115c5}'),
        ('\u{115c9}', '\u{115d7}'),
        ('\u{11641}', '\u{11642}'),
        ('\u{1173c}', '\u{1173e}'),
        ('\u{11944}', '\u{11944}'),
        ('\u{11946}', '\u{11946}'),
    ]
}

/// One stretch of the `Terminal_Punctuation` ranges.
pub closed spec fn terminal_punctuation_part_2_ranges() -> Seq<(char, char)> {
    seq![
        ('\u{11a42}', '\u{11a43}'),
        ('\u{11a9b}', '\u{11a9c}'),
        ('\u{11aa1}', '\u{11aa2}'),
        ('\u{11c41}', '\u{11c43}'),
        ('\u{11c71}', '\u{11c71}'),
        ('\u{11ef7}', '\u{11ef8}'),
        ('\u{11f43}', '\u{11f44}'),
        ('\u{12470}', '\u{12474}'),
        ('\u{16a6e}', '\u{16a6f}'),
        ('\u{16af5}', '\u{16af5}'),
        ('\u{16b37}', '\u{16b39}'),
        ('\u{16b44}', '\u{16b44}'),
        ('\u{16d6e}', '\u{16d6f}'),
        ('\u{16e97}', '\u{16e98}'),
        ('\u{1bc9f}', '\u{1bc9f}'),
        ('\u{1da87}', '\u{1da8a}'),
    ]
}

/// Ranges of the `Terminal_Punctuation` class.
pub closed spec fn terminal_punctuation_ranges() -> Seq<(char, char)> {
    terminal_punctuation_part_0_ranges() + terminal_punctuation_part_1_ranges() + terminal_punctuation_part_2_ranges()
}

/// Build one stretch of the `Terminal_Punctuation` range table.
#[verifier::rlimit(100)]
fn terminal_punctuation_part_0_table() -> (r: Vec<(char, char)>)
    ensures
        r@ == terminal_punctuation_part_0_ranges(),
{
    let mut v: Vec<(char, char)> = Vec::new();
    v.push(('!', '!'));
    v.push((',', ','));
    v.push(('.', '.'));
    v.push((':', ';'));
    v.push(('?', '?'));
    v.push(('\u{37e}', '\u{37e}'));
    v.push(('\u{387}', '\u{387}'));
    v.push(('\u{589}', '\u{589}'));
    v.push(('\u{5c3}', '\u{5c3}'));
    v.push(('\u{60c}', '\u{60c}'));
    v.push(('\u{61b}', '\u{61b}'));
    v.push(('\u{61d}', '\u{61f}'));
    v.push(('\u{6d4}', '\u{6d4}'));
    v.push(('\u{700}', '\u{70a}'));
    v.push(('\u{70c}', '\u{70c}'));
    v.push(('\u{7f8}', '\u{7f9}'));
    v.push(('\u{830}', '\u{835}'));
    v.push(('\u{837}', '\u{83e}'));
    v.push(('\u{85e}', '\u{85e}'));
    v.push(('\u{964}', '\u{965}'));
    v.push(('\u{e5a}', '\u{e5b}'));
    v.push(('\u{f08}', '\u{f08}'));
    v.push(('\u{f0d}', '\u{f12}'));
    v.push(('\u{104a}', '\u{104b}'));
    v.push(('\u{1361}', '\u{1368}'));
    v.push(('\u{166e}', '\u{166e}'));
    v.push(('\u{16eb}', '\u{16ed}'));
    v.push(('\u{1735}', '\u{1736}'));
    v.push(('\u{17d4}', '\u{17d6}'));
    v.push(('\u{17da}', '\u{17da}'));
    v.push(('\u{1802}', '\u{1805}'));
    v.push(('\u{1808}', '\u{1809}'));
    v.push(('\u{1944}', '\u{1945}'));
    v.push(('\u{1aa8}', '\u{1aab}'));
    v.push(('\u{1b4e}', '\u{1b4f}'));
    v.push(('\u{1b5a}', '\u{1b5b}'));
    v.push(('\u{1b5d}', '\u{1b5f}'));
    v.push(('\u{1b7d}', '\u{1b7f}'));
    v.push(('\u{1c3b}', '\u{1c3f}'));
    v.push(('\u{1c7e}', '\u{1c7f}'));
    v.push(('\u{2024}', '\u{2024}'));
    v.push(('\u{203c}', '\u{203d}'));
    v.push(('\u{2047}', '\u{2049}'));
    v.push(('\u{2cf9}', '\u{2cfb}'));
    v.push(('\u{2e2e}', '\u{2e2e}'));
    v.push(('\u{2e3c}', '\u{2e3c}'));
    v.push(('\u{2e41}', '\u{2e41}'));
    v.push(('\u{2e4c}', '\u{2e4c}'));
    v.push(('\u{2e4e}', '\u{2e4f}'));
    v.push(('\u{2e53}', '\u{2e54}'));
    proof {
        assert(v@ =~= terminal_punctuation_part_0_ranges());
    }
    v
}

/// Build one stretch of the `Terminal_Punctuation` range table.
#[verifier::rlimit(100)]
fn terminal_punctuation_part_1_table() -> (r: Vec<(char, char)>)
    ensures
        r@ == terminal_punctuation_part_1_ranges(),
{
    let mut v: Vec<(char, char)> = Vec::new();
    v.push(('\u{3001}', '\u{3002}'));
    v.push(('\u{a4fe}', '\u{a4ff}'));
    v.push(('\u{a60d}', '\u{a60f}'));
    v.push(('\u{a6f3}', '\u{a6f7}'));
    v.push(('\u{a876}', '\u{a877}'));
    v.push(('\u{a8ce}', '\u{a8cf}'));
    v.push(('\u{a92f}', '\u{a92f}'));
    v.push(('\u{a9c7}', '\u{a9c9}'));
    v.push(('\u{aa5d}', '\u{aa5f}'));
    v.push(('\u{aadf}', '\u{aadf}'));
    v.push(('\u{aaf0}', '\u{aaf1}'));
    v.push(('\u{abeb}', '\u{abeb}'));
    v.push(('\u{fe12}', '\u{fe12}'));
    v.push(('\u{fe15}', '\u{fe16}'));
    v.push(('\u{fe50}', '\u{fe52}'));
    v.push(('\u{fe54}', '\u{fe57}'));
    v.push(('\u{ff01}', '\u{ff01}'));
    v.push(('\u{ff0c}', '\u{ff0c}'));
    v.push(('\u{ff0e}', '\u{ff0e}'));
    v.push(('\u{ff1a}', '\u{ff1b}'));
    v.push(('\u{ff1f}', '\u{ff1f}'));
    v.push(('\u{ff61}', '\u{ff61}'));
    v.push(('\u{ff64}', '\u{ff64}'));
    v.push(('\u{1039f}', '\u{1039f}'));
    v.push(('\u{103d0}', '\u{103d0}'));
    v.push(('\u{10857}', '\u{10857}'));
    v.push(('\u{1091f}', '\u{1091f}'));
    v.push(('\u{10a56}', '\u{10a57}'));
    v.push(('\u{10af0}', '\u{10af5}'));
    v.push(('\u{10b3a}', '\u{10b3f}'));
    v.push(('\u{10b99}', '\u{10b9c}'));
    v.push(('\u{10f55}', '\u{10f59}'));
    v.push(('\u{10f86}', '\u{10f89}'));
    v.push(('\u{11047}', '\u{1104d}'));
    v.push(('\u{110be}', '\u{110c1}'));
    v.push(('\u{11141}', '\u{11143}'));
    v.push(('\u{111c5}', '\u{111c6}'));
    v.push(('\u{111cd}', '\u{111cd}'));
    v.push(('\u{111de}', '\u{111df}'));
    v.push(('\u{11238}', '\u{1123c}'));
    v.push(('\u{112a9}', '\u{112a9}'));
    v.push(('\u{113d4}', '\u{113d5}'));
    v.push(('\u{1144b}', '\u{1144d}'));
    v.push(('\u{1145a}', '\u{1145b}'));
    v.push(('\u{115c2}', '\u{115c5}'));
    v.push(('\u{115c9}', '\u{115d7}'));
    v.push(('\u{11641}', '\u{11642}'));
    v.push(('\u{1173c}', '\u{1173e}'));
    v.push(('\u{11944}', '\u{11944}'));
    v.push(('\u{11946}', '\u{11946}'));
    proof {
        assert(v@ =~= terminal_punctuation_part_1_ranges());
    }
    v
}

/// Build one stretch of the `Terminal_Punctuation` range table.
#[verifier::rlimit(100)]
fn terminal_punctuation_part_2_table() -> (r: Vec<(char, char)>)
    ensures
        r@ == terminal_punctuation_part_2_ranges(),
{
    let mut v: Vec<(char, char)> = Vec::new();
    v.push(('\u{11a42}', '\u{11a43}'));
    v.push(('\u{11a9b}', '\u{11a9c}'));
    v.push(('\u{11aa1}', '\u{11aa2}'));
    v.push(('\u{11c41}', '\u{11c43}'));
    v.push(('\u{11c71}', '\u{11c71}'));
    v.push(('\u{11ef7}', '\u{11ef8}'));
    v.push(('\u{11f43}', '\u{11f44}'));
    v.push(('\u{12470}', '\u{12474}'));
    v.push(('\u{16a6e}', '\u{16a6f}'));
    v.push(('\u{16af5}', '\u{16af5}'));
    v.push(('\u{16b37}', '\u{16b39}'));
    v.push(('\u{16b44}', '\u{16b44}'));
    v.push(('\u{16d6e}', '\u{16d6f}'));
    v.push(('\u{16e97}', '\u{16e98}'));
    v.push(('\u{1bc9f}', '\u{1bc9f}'));
    v.push(('\u{1da87}', '\u{1da8a}'));
    proof {
        assert(v@ =~= terminal_punctuation_part_2_ranges());
    }
    v
}

/// Build the table of [`terminal_punctuation_ranges`].
pub fn terminal_punctuation_table() -> (r: Vec<(char, char)>)
    ensures
        r@ == terminal_punctuation_ranges(),
{
    let mut v: Vec<(char, char)> = terminal_punctuation_part_0_table();
    let mut part_1: Vec<(char, char)> = terminal_punctuation_part_1_table();
    v.append(&mut part_1);
    let mut part_2: Vec<(char, char)> = terminal_punctuation_part_2_table();
    v.append(&mut part_2);
    v
}

/// Ranges of the `Unified_Ideograph` class.
pub closed spec fn unified_ideograph_ranges() -> Seq<(char, char)> {
    seq![
        ('\u{3400}', '\u{4dbf}'),
        ('\u{4e00}', '\u{9fff}'),
        ('\u{fa0e}', '\u{fa0f}'),
        ('\u{fa11}', '\u{fa11}'),
        ('\u{fa13}', '\u{fa14}'),
        ('\u{fa1f}', '\u{fa1f}'),
        ('\u{fa21}', '\u{fa21}'),
        ('\u{fa23}', '\u{fa24}'),
        ('\u{fa27}', '\u{fa29}'),
        ('\u{20000}', '\u{2a6df}'),
        ('\u{2a700}', '\u{2b739}'),
        ('\u{2b740}', '\u{2b81d}'),
        ('\u{2b820}', '\u{2cea1}'),
        ('\u{2ceb0}', '\u{2ebe0}'),
        ('\u{2ebf0}', '\u{2ee5d}'),
        ('\u{30000}', '\u{3134a}'),
        ('\u{31350}', '\u{323af}'),
    ]
}

/// Build the table of [`unified_ideograph_ranges`].
#[verifier::rlimit(100)]
pub fn unified_ideograph_table() -> (r: Vec<(char, char)>)
    ensures
        r@ == unified_ideograph_ranges(),
{
    let mut v: Vec<(char, char)> = Vec::new();
    v.push(('\u{3400}', '\u{4dbf}'));
    v.push(('\u{4e00}', '\u{9fff}'));
    v.push(('\u{fa0e}', '\u{fa0f}'));
    v.push(('\u{fa11}', '\u{fa11}'));
    v.push(('\u{fa13}', '\u{fa14}'));
    v.push(('\u{fa1f}', '\u{fa1f}'));
    v.push(('\u{fa21}', '\u{fa21}'));
    v.push(('\u{fa23}', '\u{fa24}'));
    v.push(('\u{fa27}', '\u{fa29}'));
    v.push(('\u{20000}', '\u{2a6df}'));
    v.push(('\u{2a700}', '\u{2b739}'));
    v.push(('\u{2b740}', '\u{2b81d}'));
    v.push(('\u{2b820}', '\u{2cea1}'));
    v.push(('\u{2ceb0}', '\u{2ebe0}'));
    v.push(('\u{2ebf0}', '\u{2ee5d}'));
    v.push(('\u{30000}', '\u{3134a}'));
    v.push(('\u{31350}', '\u{323af}'));
    proof {
        assert(v@ =~= unified_ideograph_ranges());
    }
    v
}

/// Ranges of the `Variation_Selector` class.
pub closed spec fn variation_selector_ranges() -> Seq<(char, char)> {
    seq![
        ('\u{180b}', '\u{180d}'),
        ('\u{180f}', '\u{180f}'),
        ('\u{fe00}', '\u{fe0f}'),
        ('\u{e0100}', '\u{e01ef}'),
    ]
}

/// Build the table of [`variation_selector_ranges`].
#[verifier::rlimit(100)]
pub fn variation_selector_table() -> (r: Vec<(char, char)>)
    ensures
        r@ == variation_selector_ranges(),
{
    let mut v: Vec<(char, char)> = Vec::new();
    v.push(('\u{180b}', '\u{180d}'));
    v.push(('\u{180f}', '\u{180f}'));
    v.push(('\u{fe00}', '\u{fe0f}'));
    v.push(('\u{e0100}', '\u{e01ef}'));
    proof {
        assert(v@ =~= variation_selector_ranges());
    }
    v
}

/// Ranges of the `Adlam` class.
pub closed spec fn adlam_ranges() -> Seq<(char, char)> {
    seq![
        ('\u{1e900}', '\u{1e94b}'),
        ('\u{1e950}', '\u{1e959}'),
        ('\u{1e95e}', '\u{1e95f}'),
    ]
}

/// Build the table of [`adlam_ranges`].
#[verifier::rlimit(100)]
pub fn adlam_table() -> (r: Vec<(char, char)>)
    ensures
        r@ == adlam_ranges(),
{
    let mut v: Vec<(char, char)> = Vec::new();
    v.push(('\u{1e900}', '\u{1e94b}'));
    v.push(('\u{1e950}', '\u{1e959}'));
    v.push(('\u{1e95e}', '\u{1e95f}'));
    proof {
        assert(v@ =~= adlam_ranges());
    }
    v
}

/// Ranges of the `Ahom` class.
pub closed spec fn ahom_ranges() -> Seq<(char, char)> {
    seq![
        ('\u{11700}', '\u{1171a}'),
        ('\u{1171d}', '\u{1172b}'),
        ('\u{11730}', '\u{11746}'),
    ]
}

/// Build the table of [`ahom_ranges`].
#[verifier::rlimit(100)]
pub fn ahom_table() -> (r: Vec<(char, char)>)
    ensures
        r@ == ahom_ranges(),
{
    let mut v: Vec<(char, char)> = Vec::new();
    v.push(('\u{11700}', '\u{1171a}'));
    v.push(('\u{1171d}', '\u{1172b}'));
    v.push(('\u{11730}', '\u{11746}'));
    proof {
        assert(v@ =~= ahom_ranges());
    }
    v
}

/// Ranges of the `Anatolian_Hieroglyphs` class.
pub closed spec fn anatolian_hieroglyphs_ranges() -> Seq<(char, char)> {
    seq![
        ('\u{14400}', '\u{14646}'),
    ]
}

/// Build the table of [`anatolian_hieroglyphs_ranges`].
#[verifier::rlimit(100)]
pub fn anatolian_hieroglyphs_table() -> (r: Vec<(char, char)>)
    ensures
        r@ == anatolian_hieroglyphs_ranges(),
{
    let mut v: Vec<(char, char)> = Vec::new();
    v.push(('\u{14400}', '\u{14646}'));
    proof {
        assert(v@ =~= anatolian_hieroglyphs_ranges());
    }
    v
}

/// Ranges of the `Arabic` class.
pub closed spec fn arabic_ranges() -> Seq<(char, char)> {
    seq![
        ('\u{600}', '\u{604}'),
        ('\u{606}', '\u{60b}'),
        ('\u{60d}', '\u{61a}'),
        ('\u{61c}', '\u{61e}'),
        ('\u{620}', '\u{63f}'),
        ('\u{641}', '\u{64a}'),
        ('\u{656}', '\u{66f}'),
        ('\u{671}', '\u{6dc}'),
        ('\u{6de}', '\u{6ff}'),
        ('\u{750}', '\u{77f}'),
        ('\u{870}', '\u{88e}'),
        ('\u{890}', '\u{891}'),
        ('\u{897}', '\u{8e1}'),
        ('\u{8e3}', '\u{8ff}'),
        ('\u{fb50}', '\u{fbc2}'),
        ('\u{fbd3}', '\u{fd3d}'),
        ('\u{fd40}', '\u{fd8f}'),
        ('\u{fd92}', '\u{fdc7}'),
        ('\u{fdcf}', '\u{fdcf}'),
        ('\u{fdf0}', '\u{fdff}'),
        ('\u{fe70}', '\u{fe74}'),
        ('\u{fe76}', '\u{fefc}'),
        ('\u{10e60}', '\u{10e7e}'),
        ('\u{10ec2}', '\u{10ec4}'),
        ('\u{10efc}', '\u{10eff}'),
        ('\u{1ee00}', '\u{1ee03}'),
        ('\u{1ee05}', '\u{1ee1f}'),
        ('\u{1ee21}', '\u{1ee22}'),
        ('\u{1ee24}', '\u{1ee24}'),
        ('\u{1ee27}', '\u{1ee27}'),
        ('\u{1ee29}', '\u{1ee32}'),
        ('\u{1ee34}', '\u{1ee37}'),
        ('\u{1ee39}', '\u{1ee39}'),
        ('\u{1ee3b}', '\u{1ee3b}'),
        ('\u{1ee42}', '\u{1ee42}'),
        ('\u{1ee47}', '\u{1ee47}'),
        ('\u{1ee49}', '\u{1ee49}'),
        ('\u{1ee4b}', '\u{1ee4b}'),
        ('\u{1ee4d}', '\u{1ee4f}'),
        ('\u{1ee51}', '\u{1ee52}'),
        ('\u{1ee54}', '\u{1ee54}'),
        ('\u{1ee57}', '\u{1ee57}'),
        ('\u{1ee59}', '\u{1ee59}'),
        ('\u{1ee5b}', '\u{1ee5b}'),
        ('\u{1ee5d}', '\u{1ee5d}'),
        ('\u{1ee5f}', '\u{1ee5f}'),
        ('\u{1ee61}', '\u{1ee62}'),
        ('\u{1ee64}', '\u{1ee64}'),
        ('\u{1ee67}', '\u{1ee6a}'),
        ('\u{1ee6c}', '\u{1ee72}'),
        ('\u{1ee74}', '\u{1ee77}'),
        ('\u{1ee79}', '\u{1ee7c}'),
        ('\u{1ee7e}', '\u{1ee7e}'),
        ('\u{1ee80}', '\u{1ee89}'),
        ('\u{1ee8b}', '\u{1ee9b}'),
        ('\u{1eea1}', '\u{1eea3}'),
        ('\u{1eea5}', '\u{1eea9}'),
        ('\u{1eeab}', '\u{1eebb}'),
        ('\u{1eef0}', '\u{1eef1}'),
    ]
}

/// Build the table of [`arabic_ranges`].
#[verifier::rlimit(100)]
pub fn arabic_table() -> (r: Vec<(char, char)>)
    ensures
        r@ == arabic_ranges(),
{
    let mut v: Vec<(char, char)> = Vec::new();
    v.push(('\u{600}', '\u{604}'));
    v.push(('\u{606}', '\u{60b}'));
    v.push(('\u{60d}', '\u{61a}'));
    v.push(('\u{61c}', '\u{61e}'));
    v.push(('\u{620}', '\u{63f}'));
    v.push(('\u{641}', '\u{64a}'));
    v.push(('\u{656}', '\u{66f}'));
    v.push(('\u{671}', '\u{6dc}'));
    v.push(('\u{6de}', '\u{6ff}'));
    v.push(('\u{750}', '\u{77f}'));
    v.push(('\u{870}', '\u{88e}'));
    v.push(('\u{890}', '\u{891}'));
    v.push(('\u{897}', '\u{8e1}'));
    v.push(('\u{8e3}', '\u{8ff}'));
    v.push(('\u{fb50}', '\u{fbc2}'));
    v.push(('\u{fbd3}', '\u{fd3d}'));
    v.push(('\u{fd40}', '\u{fd8f}'));
    v.push(('\u{fd92}', '\u{fdc7}'));
    v.push(('\u{fdcf}', '\u{fdcf}'));
    v.push(('\u{fdf0}', '\u{fdff}'));
    v.push(('\u{fe70}', '\u{fe74}'));
    v.push(('\u{fe76}', '\u{fefc}'));
    v.push(('\u{10e60}', '\u{10e7e}'));
    v.push(('\u{10ec2}', '\u{10ec4}'));
    v.push(('\u{10efc}', '\u{10eff}'));
    v.push(('\u{1ee00}', '\u{1ee03}'));
    v.push(('\u{1ee05}', '\u{1ee1f}'));
    v.push(('\u{1ee21}', '\u{1ee22}'));
    v.push(('\u{1ee24}', '\u{1ee24}'));
    v.push(('\u{1ee27}', '\u{1ee27}'));
    v.push(('\u{1ee29}', '\u{1ee32}'));
    v.push(('\u{1ee34}', '\u{1ee37}'));
    v.push(('\u{1ee39}', '\u{1ee39}'));
    v.push(('\u{1ee3b}', '\u{1ee3b}'));
    v.push(('\u{1ee42}', '\u{1ee42}'));
    v.push(('\u{1ee47}', '\u{1ee47}'));
    v.push(('\u{1ee49}', '\u{1ee49}'));
    v.push(('\u{1ee4b}', '\u{1ee4b}'));
    v.push(('\u{1ee4d}', '\u{1ee4f}'));
    v.push(('\u{1ee51}', '\u{1ee52}'));
    v.push(('\u{1ee54}', '\u{1ee54}'));
    v.push(('\u{1ee57}', '\u{1ee57}'));
    v.push(('\u{1ee59}', '\u{1ee59}'));
    v.push(('\u{1ee5b}', '\u{1ee5b}'));
    v.push(('\u{1ee5d}', '\u{1ee5d}'));
    v.push(('\u{1ee5f}', '\u{1ee5f}'));
    v.push(('\u{1ee61}', '\u{1ee62}'));
    v.push(('\u{1ee64}', '\u{1ee64}'));
    v.push(('\u{1ee67}', '\u{1ee6a}'));
    v.push(('\u{1ee6c}', '\u{1ee72}'));
    v.push(('\u{1ee74}', '\u{1ee77}'));
    v.push(('\u{1ee79}', '\u{1ee7c}'));
    v.push(('\u{1ee7e}', '\u{1ee7e}'));
    v.push(('\u{1ee80}', '\u{1ee89}'));
    v.push(('\u{1ee8b}', '\u{1ee9b}'));
    v.push(('\u{1eea1}', '\u{1eea3}'));
    v.push(('\u{1eea5}', '\u{1eea9}'));
    v.push(('\u{1eeab}', '\u{1eebb}'));
    v.push(('\u{1eef0}', '\u{1eef1}'));
    proof {
        assert(v@ =~= arabic_ranges());
    }
    v
}

/// Ranges of the `Armenian` class.
pub closed spec fn armenian_ranges() -> Seq<(char, char)> {
    seq![
        ('\u{531}', '\u{556}'),
        ('\u{559}', '\u{58a}'),
        ('\u{58d}', '\u{58f}'),
        ('\u{fb13}', '\u{fb17}'),
    ]
}

/// Build the table of [`armenian_ranges`].
#[verifier::rlimit(100)]
pub fn armenian_table() -> (r: Vec<(char, char)>)
    ensures
        r@ == armenian_ranges(),
{
    let mut v: Vec<(char, char)> = Vec::new();
    v.push(('\u{531}', '\u{556}'));
    v.push(('\u{559}', '\u{58a}'));
    v.push(('\u{58d}', '\u{58f}'));
    v.push(('\u{fb13}', '\u{fb17}'));
    proof {
        assert(v@ =~= armenian_ranges());
    }
    v
}

/// Ranges of the `Avestan` class.
pub closed spec fn avestan_ranges() -> Seq<(char, char)> {
    seq![
        ('\u{10b00}', '\u{10b35}'),
        ('\u{10b39}', '\u{10b3f}'),
    ]
}

/// Build the table of [`avestan_ranges`].
#[verifier::rlimit(100)]
pub fn avestan_table() -> (r: Vec<(char, char)>)
    ensures
        r@ == avestan_ranges(),
{
    let mut v: Vec<(char, char)> = Vec::new();
    v.push(('\u{10b00}', '\u{10b35}'));
    v.push(('\u{10b39}', '\u{10b3f}'));
    proof {
        assert(v@ =~= avestan_ranges());
    }
    v
}

/// Ranges of the `Balinese` class.
pub closed spec fn balinese_ranges() -> Seq<(char, char)> {
    seq![
        ('\u{1b00}', '\u{1b4c}'),
        ('\u{1b4e}', '\u{1b7f}'),
    ]
}

/// Build the table of [`balinese_ranges`].
#[verifier::rlimit(100)]
pub fn balinese_table() -> (r: Vec<(char, char)>)
    ensures
        r@ == balinese_ranges(),
{
    let mut v: Vec<(char, char)> = Vec::new();
    v.push(('\u{1b00}', '\u{1b4c}'));
    v.push(('\u{1b4e}', '\u{1b7f}'));
    proof {
        assert(v@ =~= balinese_ranges());
    }
    v
}

/// Ranges of the `Bamum` class.
pub closed spec fn bamum_ranges() -> Seq<(char, char)> {
    seq![
        ('\u{a6a0}', '\u{a6f7}'),
        ('\u{16800}', '\u{16a38}'),
    ]
}

/// Build the table of [`bamum_ranges`].
#[verifier::rlimit(100)]
pub fn bamum_table() -> (r: Vec<(char, char)>)
    ensures
        r@ == bamum_ranges(),
{
    let mut v: Vec<(char, char)> = Vec::new();
    v.push(('\u{a6a0}', '\u{a6f7}'));
    v.push(('\u{16800}', '\u{16a38}'));
    proof {
        assert(v@ =~= bamum_ranges());
    }
    v
}

/// Ranges of the `Bassa_Vah` class.
pub closed spec fn bassa_vah_ranges() -> Seq<(char, char)> {
    seq![
        ('\u{16ad0}', '\u{16aed}'),
        ('\u{16af0}', '\u{16af5}'),
    ]
}

/// Build the table of [`bassa_vah_ranges`].
#[verifier::rlimit(100)]
pub fn bassa_vah_table() -> (r: Vec<(char, char)>)
    ensures
        r@ == bassa_vah_ranges(),
{
    let mut v: Vec<(char, char)> = Vec::new();
    v.push(('\u{16ad0}', '\u{16aed}'));
    v.push(('\u{16af0}', '\u{16af5}'));
    proof {
        assert(v@ =~= bassa_vah_ranges());
    }
    v
}

/// Ranges of the `Batak` class.
pub closed spec fn batak_ranges() -> Seq<(char, char)> {
    seq![
        ('\u{1bc0}', '\u{1bf3}'),
        ('\u{1bfc}', '\u{1bff}'),
    ]
}

/// Build the table of [`batak_ranges`].
#[verifier::rlimit(100)]
pub fn batak_table() -> (r: Vec<(char, char)>)
    ensures
        r@ == batak_ranges(),
{
    let mut v: Vec<(char, char)> = Vec::new();
    v.push(('\u{1bc0}', '\u{1bf3}'));
    v.push(('\u{1bfc}', '\u{1bff}'));
    proof {
        assert(v@ =~= batak_ranges());
    }
    v
}

/// Ranges of the `Bengali` class.
pub closed spec fn bengali_ranges() -> Seq<(char, char)> {
    seq![
        ('\u{980}', '\u{983}'),
        ('\u{985}', '\u{98c}'),
        ('\u{98f}', '\u{990}'),
        ('\u{993}', '\u{9a8}'),
        ('\u{9aa}', '\u{9b0}'),
        ('\u{9b2}', '\u{9b2}'),
        ('\u{9b6}', '\u{9b9}'),
        ('\u{9bc}', '\u{9c4}'),
        ('\u{9c7}', '\u{9c8}'),
        ('\u{9cb}', '\u{9ce}'),
        ('\u{9d7}', '\u{9d7}'),
        ('\u{9dc}', '\u{9dd}'),
        ('\u{9df}', '\u{9e3}'),
        ('\u{9e6}', '\u{9fe}'),
    ]
}

/// Build the table of [`bengali_ranges`].
#[verifier::rlimit(100)]
pub fn bengali_table() -> (r: Vec<(char, char)>)
    ensures
        r@ == bengali_ranges(),
{
    let mut v: Vec<(char, char)> = Vec::new();
    v.push(('\u{980}', '\u{983}'));
    v.push(('\u{985}', '\u{98c}'));
    v.push(('\u{98f}', '\u{990}'));
    v.push(('\u{993}', '\u{9a8}'));
    v.push(('\u{9aa}', '\u{9b0}'));
    v.push(('\u{9b2}', '\u{9b2}'));
    v.push(('\u{9b6}', '\u{9b9}'));
    v.push(('\u{9bc}', '\u{9c4}'));
    v.push(('\u{9c7}', '\u{9c8}'));
    v.push(('\u{9cb}', '\u{9ce}'));
    v.push(('\u{9d7}', '\u{9d7}'));
    v.push(('\u{9dc}', '\u{9dd}'));
    v.push(('\u{9df}', '\u{9e3}'));
    v.push(('\u{9e6}', '\u{9fe}'));
    proof {
        assert(v@ =~= bengali_ranges());
    }
    v
}

/// Ranges of the `Bhaiksuki` class.
pub closed spec fn bhaiksuki_ranges() -> Seq<(char, char)> {
    seq![
        ('\u{11c00}', '\u{11c08}'),
        ('\u{11c0a}', '\u{11c36}'),
        ('\u{11c38}', '\u{11c45}'),
        ('\u{11c50}', '\u{11c6c}'),
    ]
}

/// Build the table of [`bhaiksuki_ranges`].
#[verifier::rlimit(100)]
pub fn bhaiksuki_table() -> (r: Vec<(char, char)>)
    ensures
        r@ == bhaiksuki_ranges(),
{
    let mut v: Vec<(char, char)> = Vec::new();
    v.push(('\u{11c00}', '\u{11c08}'));
    v.push(('\u{11c0a}', '\u{11c36}'));
    v.push(('\u{11c38}', '\u{11c45}'));
    v.push(('\u{11c50}', '\u{11c6c}'));
    proof {
        assert(v@ =~= bhaiksuki_ranges());
    }
    v
}

/// Ranges of the `Bopomofo` class.
pub closed spec fn bopomofo_ranges() -> Seq<(char, char)> {
    seq![
        ('\u{2ea}', '\u{2eb}'),
        ('\u{3105}', '\u{312f}'),
        ('\u{31a0}', '\u{31bf}'),
    ]
}

/// Build the table of [`bopomofo_ranges`].
#[verifier::rlimit(100)]
pub fn bopomofo_table() -> (r: Vec<(char, char)>)
    ensures
        r@ == bopomofo_ranges(),
{
    let mut v: Vec<(char, char)> = Vec::new();
    v.push(('\u{2ea}', '\u{2eb}'));
    v.push(('\u{3105}', '\u{312f}'));
    v.push(('\u{31a0}', '\u{31bf}'));
    proof {
        assert(v@ =~= bopomofo_ranges());
    }
    v
}

/// Ranges of the `Brahmi` class.
pub closed spec fn brahmi_ranges() -> Seq<(char, char)> {
    seq![
        ('\u{11000}', '\u{1104d}'),
        ('\u{11052}', '\u{11075}'),
        ('\u{1107f}', '\u{1107f}'),
    ]
}

/// Build the table of [`brahmi_ranges`].
#[verifier::rlimit(100)]
pub fn brahmi_table() -> (r: Vec<(char, char)>)
    ensures
        r@ == brahmi_ranges(),
{
    let mut v: Vec<(char, char)> = Vec::new();
    v.push(('\u{11000}', '\u{1104d}'));
    v.push(('\u{11052}', '\u{11075}'));
    v.push(('\u{1107f}', '\u{1107f}'));
    proof {
        assert(v@ =~= brahmi_ranges());
    }
    v
}

/// Ranges of the `Braille` class.
pub closed spec fn braille_ranges() -> Seq<(char, char)> {
    seq![
        ('\u{2800}', '\u{28ff}'),
    ]
}

/// Build the table of [`braille_ranges`].
#[verifier::rlimit(100)]
pub fn braille_table() -> (r: Vec<(char, char)>)
    ensures
        r@ == braille_ranges(),
{
    let mut v: Vec<(char, char)> = Vec::new();
    v.push(('\u{2800}', '\u{28ff}'));
    proof {
        assert(v@ =~= braille_ranges());
    }
    v
}

/// Ranges of the `Buginese` class.
pub closed spec fn buginese_ranges() -> Seq<(char, char)> {
    seq![
        ('\u{1a00}', '\u{1a1b}'),
        ('\u{1a1e}', '\u{1a1f}'),
    ]
}

/// Build the table of [`buginese_ranges`].
#[verifier::rlimit(100)]
pub fn buginese_table() -> (r: Vec<(char, char)>)
    ensures
        r@ == buginese_ranges(),
{
    let mut v: Vec<(char, char)> = Vec::new();
    v.push(('\u{1a00}', '\u{1a1b}'));
    v.push(('\u{1a1e}', '\u{1a1f}'));
    proof {
        assert(v@ =~= buginese_ranges());
    }
    v
}

/// Ranges of the `Buhid` class.
pub closed spec fn buhid_ranges() -> Seq<(char, char)> {
    seq![
        ('\u{1740}', '\u{1753}'),
    ]
}

/// Build the table of [`buhid_ranges`].
#[verifier::rlimit(100)]
pub fn buhid_table() -> (r: Vec<(char, char)>)
    ensures
        r@ == buhid_ranges(),
{
    let mut v: Vec<(char, char)> = Vec::new();
    v.push(('\u{1740}', '\u{1753}'));
    proof {
        assert(v@ =~= buhid_ranges());
    }
    v
}

/// Ranges of the `Canadian_Aboriginal` class.
pub closed spec fn canadian_aboriginal_ranges() -> Seq<(char, char)> {
    seq![
        ('\u{1400}', '\u{167f}'),
        ('\u{18b0}', '\u{18f5}'),
        ('\u{11ab0}', '\u{11abf}'),
    ]
}

/// Build the table of [`canadian_aboriginal_ranges`].
#[verifier::rlimit(100)]
pub fn canadian_aboriginal_table() -> (r: Vec<(char, char)>)
    ensures
        r@ == canadian_aboriginal_ranges(),
{
    let mut v: Vec<(char, char)> = Vec::new();
    v.push(('\u{1400}', '\u{167f}'));
    v.push(('\u{18b0}', '\u{18f5}'));
    v.push(('\u{11ab0}', '\u{11abf}'));
    proof {
        assert(v@ =~= canadian_aboriginal_ranges());
    }
    v
}

/// Ranges of the `Carian` class.
pub closed spec fn carian_ranges() -> Seq<(char, char)> {
    seq![
        ('\u{102a0}', '\u{102d0}'),
    ]
}

/// Build the table of [`carian_ranges`].
#[verifier::rlimit(100)]
pub fn carian_table() -> (r: Vec<(char, char)>)
    ensures
        r@ == carian_ranges(),
{
    let mut v: Vec<(char, char)> = Vec::new();
    v.push(('\u{102a0}', '\u{102d0}'));
    proof {
        assert(v@ =~= carian_ranges());
    }
    v
}

/// Ranges of the `Caucasian_Albanian` class.
pub closed spec fn caucasian_albanian_ranges() -> Seq<(char, char)> {
    seq![
        ('\u{10530}', '\u{10563}'),
        ('\u{1056f}', '\u{1056f}'),
    ]
}

/// Build the table of [`caucasian_albanian_ranges`].
#[verifier::rlimit(100)]
pub fn caucasian_albanian_table() -> (r: Vec<(char, char)>)
    ensures
        r@ == caucasian_albanian_ranges(),
{
    let mut v: Vec<(char, char)> = Vec::new();
    v.push(('\u{10530}', '\u{10563}'));
    v.push(('\u{1056f}', '\u{1056f}'));
    proof {
        assert(v@ =~= caucasian_albanian_ranges());
    }
    v
}

/// Ranges of the `Chakma` class.
pub closed spec fn chakma_ranges() -> Seq<(char, char)> {
    seq![
        ('\u{11100}', '\u{11134}'),
        ('\u{11136}', '\u{11147}'),
    ]
}

/// Build the table of [`chakma_ranges`].
#[verifier::rlimit(100)]
pub fn chakma_table() -> (r: Vec<(char, char)>)
    ensures
        r@ == chakma_ranges(),
{
    let mut v: Vec<(char, char)> = Vec::new();
    v.push(('\u{11100}', '\u{11134}'));
    v.push(('\u{11136}', '\u{11147}'));
    proof {
        assert(v@ =~= chakma_ranges());
    }
    v
}

/// Ranges of the `Cham` class.
pub closed spec fn cham_ranges() -> Seq<(char, char)> {
    seq![
        ('\u{aa00}', '\u{aa36}'),
        ('\u{aa40}', '\u{aa4d}'),
        ('\u{aa50}', '\u{aa59}'),
        ('\u{aa5c}', '\u{aa5f}'),
    ]
}

/// Build the table of [`cham_ranges`].
#[verifier::rlimit(100)]
pub fn cham_table() -> (r: Vec<(char, char)>)
    ensures
        r@ == cham_ranges(),
{
    let mut v: Vec<(char, char)> = Vec::new();
    v.push(('\u{aa00}', '\u{aa36}'));
    v.push(('\u{aa40}', '\u{aa4d}'));
    v.push(('\u{aa50}', '\u{aa59}'));
    v.push(('\u{aa5c}', '\u{aa5f}'));
    proof {
        assert(v@ =~= cham_ranges());
    }
    v
}

/// Ranges of the `Cherokee` class.
pub closed spec fn cherokee_ranges() -> Seq<(char, char)> {
    seq![
        ('\u{13a0}', '\u{13f5}'),
        ('\u{13f8}', '\u{13fd}'),
        ('\u{ab70}', '\u{abbf}'),
    ]
}

/// Build the table of [`cherokee_ranges`].
#[verifier::rlimit(100)]
pub fn cherokee_table() -> (r: Vec<(char, char)>)
    ensures
        r@ == cherokee_ranges(),
{
    let mut v: Vec<(char, char)> = Vec::new();
    v.push(('\u{13a0}', '\u{13f5}'));
    v.push(('\u{13f8}', '\u{13fd}'));
    v.push(('\u{ab70}', '\u{abbf}'));
    proof {
        assert(v@ =~= cherokee_ranges());
    }
    v
}

/// Ranges of the `Chorasmian` class.
pub closed spec fn chorasmian_ranges() -> Seq<(char, char)> {
    seq![
        ('\u{10fb0}', '\u{10fcb}'),
    ]
}

/// Build the table of [`chorasmian_ranges`].
#[verifier::rlimit(100)]
pub fn chorasmian_table() -> (r: Vec<(char, char)>)
    ensures
        r@ == chorasmian_ranges(),
{
    let mut v: Vec<(char, char)> = Vec::new();
    v.push(('\u{10fb0}', '\u{10fcb}'));
    proof {
        assert(v@ =~= chorasmian_ranges());
    }
    v
}

/// Ranges of the `Coptic` class.
pub closed spec fn coptic_ranges() -> Seq<(char, char)> {
    seq![
        ('\u{3e2}', '\u{3ef}'),
        ('\u{2c80}', '\u{2cf3}'),
        ('\u{2cf9}', '\u{2cff}'),
    ]
}

/// Build the table of [`coptic_ranges`].
#[verifier::rlimit(100)]
pub fn coptic_table() -> (r: Vec<(char, char)>)
    ensures
        r@ == coptic_ranges(),
{
    let mut v: Vec<(char, char)> = Vec::new();
    v.push(('\u{3e2}', '\u{3ef}'));
    v.push(('\u{2c80}', '\u{2cf3}'));
    v.push(('\u{2cf9}', '\u{2cff}'));
    proof {
        assert(v@ =~= coptic_ranges());
    }
    v
}

/// Ranges of the `Cuneiform` class.
pub closed spec fn cuneiform_ranges() -> Seq<(char, char)> {
    seq![
        ('\u{12000}', '\u{12399}'),
        ('\u{12400}', '\u{1246e}'),
        ('\u{12470}', '\u{12474}'),
        ('\u{12480}', '\u{12543}'),
    ]
}

/// Build the table of [`cuneiform_ranges`].
#[verifier::rlimit(100)]
pub fn cuneiform_table() -> (r: Vec<(char, char)>)
    ensures
        r@ == cuneiform_ranges(),
{
    let mut v: Vec<(char, char)> = Vec::new();
    v.push(('\u{12000}', '\u{12399}'));
    v.push(('\u{12400}', '\u{1246e}'));
    v.push(('\u{12470}', '\u{12474}'));
    v.push(('\u{12480}', '\u{12543}'));
    proof {
        assert(v@ =~= cuneiform_ranges());
    }
    v
}

/// Ranges of the `Cypriot` class.
pub closed spec fn cypriot_ranges() -> Seq<(char, char)> {
    seq![
        ('\u{10800}', '\u{10805}'),
        ('\u{10808}', '\u{10808}'),
        ('\u{1080a}', '\u{10835}'),
        ('\u{10837}', '\u{10838}'),
        ('\u{1083c}', '\u{1083c}'),
        ('\u{1083f}', '\u{1083f}'),
    ]
}

/// Build the table of [`cypriot_ranges`].
#[verifier::rlimit(100)]
pub fn cypriot_table() -> (r: Vec<(char, char)>)
    ensures
        r@ == cypriot_ranges(),
{
    let mut v: Vec<(char, char)> = Vec::new();
    v.push(('\u{10800}', '\u{10805}'));
    v.push(('\u{10808}', '\u{10808}'));
    v.push(('\u{1080a}', '\u{10835}'));
    v.push(('\u{10837}', '\u{10838}'));
    v.push(('\u{1083c}', '\u{1083c}'));
    v.push(('\u{1083f}', '\u{1083f}'));
    proof {
        assert(v@ =~= cypriot_ranges());
    }
    v
}

/// Ranges of the `Cypro_Minoan` class.
pub closed spec fn cypro_minoan_ranges() -> Seq<(char, char)> {
    seq![
        ('\u{12f90}', '\u{12ff2}'),
    ]
}

/// Build the table of [`cypro_minoan_ranges`].
#[verifier::rlimit(100)]
pub fn cypro_minoan_table() -> (r: Vec<(char, char)>)
    ensures
        r@ == cypro_minoan_ranges(),
{
    let mut v: Vec<(char, char)> = Vec::new();
    v.push(('\u{12f90}', '\u{12ff2}'));
    proof {
        assert(v@ =~= cypro_minoan_ranges());
    }
    v
}

/// Ranges of the `Cyrillic` class.
pub closed spec fn cyrillic_ranges() -> Seq<(char, char)> {
    seq![
        ('\u{400}', '\u{484}'),
        ('\u{487}', '\u{52f}'),
        ('\u{1c80}', '\u{1c8a}'),
        ('\u{1d2b}', '\u{1d2b}'),
        ('\u{1d78}', '\u{1d78}'),
        ('\u{2de0}', '\u{2dff}'),
        ('\u{a640}', '\u{a69f}'),
        ('\u{fe2e}', '\u{fe2f}'),
        ('\u{1e030}', '\u{1e06d}'),
        ('\u{1e08f}', '\u{1e08f}'),
    ]
}

/// Build the table of [`cyrillic_ranges`].
#[verifier::rlimit(100)]
pub fn cyrillic_table() -> (r: Vec<(char, char)>)
    ensures
        r@ == cyrillic_ranges(),
{
    let mut v: Vec<(char, char)> = Vec::new();
    v.push(('\u{400}', '\u{484}'));
    v.push(('\u{487}', '\u{52f}'));
    v.push(('\u{1c80}', '\u{1c8a}'));
    v.push(('\u{1d2b}', '\u{1d2b}'));
    v.push(('\u{1d78}', '\u{1d78}'));
    v.push(('\u{2de0}', '\u{2dff}'));
    v.push(('\u{a640}', '\u{a69f}'));
    v.push(('\u{fe2e}', '\u{fe2f}'));
    v.push(('\u{1e030}', '\u{1e06d}'));
    v.push(('\u{1e08f}', '\u{1e08f}'));
    proof {
        assert(v@ =~= cyrillic_ranges());
    }
    v
}

/// Ranges of the `Deseret` class.
pub closed spec fn deseret_ranges() -> Seq<(char, char)> {
    seq![
        ('\u{10400}', '\u{1044f}'),
    ]
}

/// Build the table of [`deseret_ranges`].
#[verifier::rlimit(100)]
pub fn deseret_table() -> (r: Vec<(char, char)>)
    ensures
        r@ == deseret_ranges(),
{
    let mut v: Vec<(char, char)> = Vec::new();
    v.push(('\u{10400}', '\u{1044f}'));
    proof {
        assert(v@ =~= deseret_ranges());
    }
    v
}

/// Ranges of the `Devanagari` class.
pub closed spec fn devanagari_ranges() -> Seq<(char, char)> {
    seq![
        ('\u{900}', '\u{950}'),
        ('\u{955}', '\u{963}'),
        ('\u{966}', '\u{97f}'),
        ('\u{a8e0}', '\u{a8ff}'),
        ('\u{11b00}', '\u{11b09}'),
    ]
}

/// Build the table of [`devanagari_ranges`].
#[verifier::rlimit(100)]
pub fn devanagari_table() -> (r: Vec<(char, char)>)
    ensures
        r@ == devanagari_ranges(),
{
    let mut v: Vec<(char, char)> = Vec::new();
    v.push(('\u{900}', '\u{950}'));
    v.push(('\u{955}', '\u{963}'));
    v.push(('\u{966}', '\u{97f}'));
    v.push(('\u{a8e0}', '\u{a8ff}'));
    v.push(('\u{11b00}', '\u{11b09}'));
    proof {
        assert(v@ =~= devanagari_ranges());
    }
    v
}

/// Ranges of the `Dives_Akuru` class.
pub closed spec fn dives_akuru_ranges() -> Seq<(char, char)> {
    seq![
        ('\u{11900}', '\u{11906}'),
        ('\u{11909}', '\u{11909}'),
        ('\u{1190c}', '\u{11913}'),
        ('\u{11915}', '\u{11916}'),
        ('\u{11918}', '\u{11935}'),
        ('\u{11937}', '\u{11938}'),
        ('\u{1193b}', '\u{11946}'),
        ('\u{11950}', '\u{11959}'),
    ]
}

/// Build the table of [`dives_akuru_ranges`].
#[verifier::rlimit(100)]
pub fn dives_akuru_table() -> (r: Vec<(char, char)>)
    ensures
        r@ == dives_akuru_ranges(),
{
    let mut v: Vec<(char, char)> = Vec::new();
    v.push(('\u{11900}', '\u{11906}'));
    v.push(('\u{11909}', '\u{11909}'));
    v.push(('\u{1190c}', '\u{11913}'));
    v.push(('\u{11915}', '\u{11916}'));
    v.push(('\u{11918}', '\u{11935}'));
    v.push(('\u{11937}', '\u{11938}'));
    v.push(('\u{1193b}', '\u{11946}'));
    v.push(('\u{11950}', '\u{11959}'));
    proof {
        assert(v@ =~= dives_akuru_ranges());
    }
    v
}

/// Ranges of the `Dogra` class.
pub closed spec fn dogra_ranges() -> Seq<(char, char)> {
    seq![
        ('\u{11800}', '\u{1183b}'),
    ]
}

/// Build the table of [`dogra_ranges`].
#[verifier::rlimit(100)]
pub fn dogra_table() -> (r: Vec<(char, char)>)
    ensures
        r@ == dogra_ranges(),
{
    let mut v: Vec<(char, char)> = Vec::new();
    v.push(('\u{11800}', '\u{1183b}'));
    proof {
        assert(v@ =~= dogra_ranges());
    }
    v
}

/// Ranges of the `Duployan` class.
pub closed spec fn duployan_ranges() -> Seq<(char, char)> {
    seq![
        ('\u{1bc00}', '\u{1bc6a}'),
        ('\u{1bc70}', '\u{1bc7c}'),
        ('\u{1bc80}', '\u{1bc88}'),
        ('\u{1bc90}', '\u{1bc99}'),
        ('\u{1bc9c}', '\u{1bc9f}'),
    ]
}

/// Build the table of [`duployan_ranges`].
#[verifier::rlimit(100)]
pub fn duployan_table() -> (r: Vec<(char, char)>)
    ensures
        r@ == duployan_ranges(),
{
    let mut v: Vec<(char, char)> = Vec::new();
    v.push(('\u{1bc00}', '\u{1bc6a}'));
    v.push(('\u{1bc70}', '\u{1bc7c}'));
    v.push(('\u{1bc80}', '\u{1bc88}'));
    v.push(('\u{1bc90}', '\u{1bc99}'));
    v.push(('\u{1bc9c}', '\u{1bc9f}'));
    proof {
        assert(v@ =~= duployan_ranges());
    }
    v
}

/// Ranges of the `Egyptian_Hieroglyphs` class.
pub closed spec fn egyptian_hieroglyphs_ranges() -> Seq<(char, char)> {
    seq![
        ('\u{13000}', '\u{13455}'),
        ('\u{13460}', '\u{143fa}'),
    ]
}

/// Build the table of [`egyptian_hieroglyphs_ranges`].
#[verifier::rlimit(100)]
pub fn egyptian_hieroglyphs_table() -> (r: Vec<(char, char)>)
    ensures
        r@ == egyptian_hieroglyphs_ranges(),
{
    let mut v: Vec<(char, char)> = Vec::new();
    v.push(('\u{13000}', '\u{13455}'));
    v.push(('\u{13460}', '\u{143fa}'));
    proof {
        assert(v@ =~= egyptian_hieroglyphs_ranges());
    }
    v
}

/// Ranges of the `Elbasan` class.
pub closed spec fn elbasan_ranges() -> Seq<(char, char)> {
    seq![
        ('\u{10500}', '\u{10527}'),
    ]
}

/// Build the table of [`elbasan_ranges`].
#[verifier::rlimit(100)]
pub fn elbasan_table() -> (r: Vec<(char, char)>)
    ensures
        r@ == elbasan_ranges(),
{
    let mut v: Vec<(char, char)> = Vec::new();
    v.push(('\u{10500}', '\u{10527}'));
    proof {
        assert(v@ =~= elbasan_ranges());
    }
    v
}

/// Ranges of the `Elymaic` class.
pub closed spec fn elymaic_ranges() -> Seq<(char, char)> {
    seq![
        ('\u{10fe0}', '\u{10ff6}'),
    ]
}

/// Build the table of [`elymaic_ranges`].
#[verifier::rlimit(100)]
pub fn elymaic_table() -> (r: Vec<(char, char)>)
    ensures
        r@ == elymaic_ranges(),
{
    let mut v: Vec<(char, char)> = Vec::new();
    v.push(('\u{10fe0}', '\u{10ff6}'));
    proof {
        assert(v@ =~= elymaic_ranges());
    }
    v
}

/// Ranges of the `Ethiopic` class.
pub closed spec fn ethiopic_ranges() -> Seq<(char, char)> {
    seq![
        ('\u{1200}', '\u{1248}'),
        ('\u{124a}', '\u{124d}'),
        ('\u{1250}', '\u{1256}'),
        ('\u{1258}', '\u{1258}'),
        ('\u{125a}', '\u{125d}'),
        ('\u{1260}', '\u{1288}'),
        ('\u{128a}', '\u{128d}'),
        ('\u{1290}', '\u{12b0}'),
        ('\u{12b2}', '\u{12b5}'),
        ('\u{12b8}', '\u{12be}'),
        ('\u{12c0}', '\u{12c0}'),
        ('\u{12c2}', '\u{12c5}'),
        ('\u{12c8}', '\u{12d6}'),
        ('\u{12d8}', '\u{1310}'),
        ('\u{1312}', '\u{1315}'),
        ('\u{1318}', '\u{135a}'),
        ('\u{135d}', '\u{137c}'),
        ('\u{1380}', '\u{1399}'),
        ('\u{2d80}', '\u{2d96}'),
        ('\u{2da0}', '\u{2da6}'),
        ('\u{2da8}', '\u{2dae}'),
        ('\u{2db0}', '\u{2db6}'),
        ('\u{2db8}', '\u{2dbe}'),
        ('\u{2dc0}', '\u{2dc6}'),
        ('\u{2dc8}', '\u{2dce}'),
        ('\u{2dd0}', '\u{2dd6}'),
        ('\u{2dd8}', '\u{2dde}'),
        ('\u{ab01}', '\u{ab06}'),
        ('\u{ab09}', '\u{ab0e}'),
        ('\u{ab11}', '\u{ab16}'),
        ('\u{ab20}', '\u{ab26}'),
        ('\u{ab28}', '\u{ab2e}'),
        ('\u{1e7e0}', '\u{1e7e6}'),
        ('\u{1e7e8}', '\u{1e7eb}'),
        ('\u{1e7ed}', '\u{1e7ee}'),
        ('\u{1e7f0}', '\u{1e7fe}'),
    ]
}

/// Build the table of [`ethiopic_ranges`].
#[verifier::rlimit(100)]
pub fn ethiopic_table() -> (r: Vec<(char, char)>)
    ensures
        r@ == ethiopic_ranges(),
{
    let mut v: Vec<(char, char)> = Vec::new();
    v.push(('\u{1200}', '\u{1248}'));
    v.push(('\u{124a}', '\u{124d}'));
    v.push(('\u{1250}', '\u{1256}'));
    v.push(('\u{1258}', '\u{1258}'));
    v.push(('\u{125a}', '\u{125d}'));
    v.push(('\u{1260}', '\u{1288}'));
    v.push(('\u{128a}', '\u{128d}'));
    v.push(('\u{1290}', '\u{12b0}'));
    v.push(('\u{12b2}', '\u{12b5}'));
    v.push(('\u{12b8}', '\u{12be}'));
    v.push(('\u{12c0}', '\u{12c0}'));
    v.push(('\u{12c2}', '\u{12c5}'));
    v.push(('\u{12c8}', '\u{12d6}'));
    v.push(('\u{12d8}', '\u{1310}'));
    v.push(('\u{1312}', '\u{1315}'));
    v.push(('\u{1318}', '\u{135a}'));
    v.push(('\u{135d}', '\u{137c}'));
    v.push(('\u{1380}', '\u{1399}'));
    v.push(('\u{2d80}', '\u{2d96}'));
    v.push(('\u{2da0}', '\u{2da6}'));
    v.push(('\u{2da8}', '\u{2dae}'));
    v.push(('\u{2db0}', '\u{2db6}'));
    v.push(('\u{2db8}', '\u{2dbe}'));
    v.push(('\u{2dc0}', '\u{2dc6}'));
    v.push(('\u{2dc8}', '\u{2dce}'));
    v.push(('\u{2dd0}', '\u{2dd6}'));
    v.push(('\u{2dd8}', '\u{2dde}'));
    v.push(('\u{ab01}', '\u{ab06}'));
    v.push(('\u{ab09}', '\u{ab0e}'));
    v.push(('\u{ab11}', '\u{ab16}'));
    v.push(('\u{ab20}', '\u{ab26}'));
    v.push(('\u{ab28}', '\u{ab2e}'));
    v.push(('\u{1e7e0}', '\u{1e7e6}'));
    v.push(('\u{1e7e8}', '\u{1e7eb}'));
    v.push(('\u{1e7ed}', '\u{1e7ee}'));
    v.push(('\u{1e7f0}', '\u{1e7fe}'));
    proof {
        assert(v@ =~= ethiopic_ranges());
    }
    v
}

/// Ranges of the `Garay` class.
pub closed spec fn garay_ranges() -> Seq<(char, char)> {
    seq![
        ('\u{10d40}', '\u{10d65}'),
        ('\u{10d69}', '\u{10d85}'),
        ('\u{10d8e}', '\u{10d8f}'),
    ]
}

/// Build the table of [`garay_ranges`].
#[verifier::rlimit(100)]
pub fn garay_table() -> (r: Vec<(char, char)>)
    ensures
        r@ == garay_ranges(),
{
    let mut v: Vec<(char, char)> = Vec::new();
    v.push(('\u{10d40}', '\u{10d65}'));
    v.push(('\u{10d69}', '\u{10d85}'));
    v.push(('\u{10d8e}', '\u{10d8f}'));
    proof {
        assert(v@ =~= garay_ranges());
    }
    v
}

/// Ranges of the `Georgian` class.
pub closed spec fn georgian_ranges() -> Seq<(char, char)> {
    seq![
        ('\u{10a0}', '\u{10c5}'),
        ('\u{10c7}', '\u{10c7}'),
        ('\u{10cd}', '\u{10cd}'),
        ('\u{10d0}', '\u{10fa}'),
        ('\u{10fc}', '\u{10ff}'),
        ('\u{1c90}', '\u{1cba}'),
        ('\u{1cbd}', '\u{1cbf}'),
        ('\u{2d00}', '\u{2d25}'),
        ('\u{2d27}', '\u{2d27}'),
        ('\u{2d2d}', '\u{2d2d}'),
    ]
}

/// Build the table of [`georgian_ranges`].
#[verifier::rlimit(100)]
pub fn georgian_table() -> (r: Vec<(char, char)>)
    ensures
        r@ == georgian_ranges(),
{
    let mut v: Vec<(char, char)> = Vec::new();
    v.push(('\u{10a0}', '\u{10c5}'));
    v.push(('\u{10c7}', '\u{10c7}'));
    v.push(('\u{10cd}', '\u{10cd}'));
    v.push(('\u{10d0}', '\u{10fa}'));
    v.push(('\u{10fc}', '\u{10ff}'));
    v.push(('\u{1c90}', '\u{1cba}'));
    v.push(('\u{1cbd}', '\u{1cbf}'));
    v.push(('\u{2d00}', '\u{2d25}'));
    v.push(('\u{2d27}', '\u{2d27}'));
    v.push(('\u{2d2d}', '\u{2d2d}'));
    proof {
        assert(v@ =~= georgian_ranges());
    }
    v
}

/// Ranges of the `Glagolitic` class.
pub closed spec fn glagolitic_ranges() -> Seq<(char, char)> {
    seq![
        ('\u{2c00}', '\u{2c5f}'),
        ('\u{1e000}', '\u{1e006}'),
        ('\u{1e008}', '\u{1e018}'),
        ('\u{1e01b}', '\u{1e021}'),
        ('\u{1e023}', '\u{1e024}'),
        ('\u{1e026}', '\u{1e02a}'),
    ]
}

/// Build the table of [`glagolitic_ranges`].
#[verifier::rlimit(100)]
pub fn glagolitic_table() -> (r: Vec<(char, char)>)
    ensures
        r@ == glagolitic_ranges(),
{
    let mut v: Vec<(char, char)> = Vec::new();
    v.push(('\u{2c00}', '\u{2c5f}'));
    v.push(('\u{1e000}', '\u{1e006}'));
    v.push(('\u{1e008}', '\u{1e018}'));
    v.push(('\u{1e01b}', '\u{1e021}'));
    v.push(('\u{1e023}', '\u{1e024}'));
    v.push(('\u{1e026}', '\u{1e02a}'));
    proof {
        assert(v@ =~= glagolitic_ranges());
    }
    v
}

/// Ranges of the `Gothic` class.
pub closed spec fn gothic_ranges() -> Seq<(char, char)> {
    seq![
        ('\u{10330}', '\u{1034a}'),
    ]
}

/// Build the table of [`gothic_ranges`].
#[verifier::rlimit(100)]
pub fn gothic_table() -> (r: Vec<(char, char)>)
    ensures
        r@ == gothic_ranges(),
{
    let mut v: Vec<(char, char)> = Vec::new();
    v.push(('\u{10330}', '\u{1034a}'));
    proof {
        assert(v@ =~= gothic_ranges());
    }
    v
}

/// Ranges of the `Grantha` class.
pub closed spec fn grantha_ranges() -> Seq<(char, char)> {
    seq![
        ('\u{11300}', '\u{11303}'),
        ('\u{11305}', '\u{1130c}'),
        ('\u{1130f}', '\u{11310}'),
        ('\u{11313}', '\u{11328}'),
        ('\u{1132a}', '\u{11330}'),
        ('\u{11332}', '\u{11333}'),
        ('\u{11335}', '\u{11339}'),
        ('\u{1133c}', '\u{11344}'),
        ('\u{11347}', '\u{11348}'),
        ('\u{1134b}', '\u{1134d}'),
        ('\u{11350}', '\u{11350}'),
        ('\u{11357}', '\u{11357}'),
        ('\u{1135d}', '\u{11363}'),
        ('\u{11366}', '\u{1136c}'),
        ('\u{11370}', '\u{11374}'),
    ]
}

/// Build the table of [`grantha_ranges`].
#[verifier::rlimit(100)]
pub fn grantha_table() -> (r: Vec<(char, char)>)
    ensures
        r@ == grantha_ranges(),
{
    let mut v: Vec<(char, char)> = Vec::new();
    v.push(('\u{11300}', '\u{11303}'));
    v.push(('\u{11305}', '\u{1130c}'));
    v.push(('\u{1130f}', '\u{11310}'));
    v.push(('\u{11313}', '\u{11328}'));
    v.push(('\u{1132a}', '\u{11330}'));
    v.push(('\u{11332}', '\u{11333}'));
    v.push(('\u{11335}', '\u{11339}'));
    v.push(('\u{1133c}', '\u{11344}'));
    v.push(('\u{11347}', '\u{11348}'));
    v.push(('\u{1134b}', '\u{1134d}'));
    v.push(('\u{11350}', '\u{11350}'));
    v.push(('\u{11357}', '\u{11357}'));
    v.push(('\u{1135d}', '\u{11363}'));
    v.push(('\u{11366}', '\u{1136c}'));
    v.push(('\u{11370}', '\u{11374}'));
    proof {
        assert(v@ =~= grantha_ranges());
    }
    v
}

/// Ranges of the `Greek` class.
pub closed spec fn greek_ranges() -> Seq<(char, char)> {
    seq![
        ('\u{370}', '\u{373}'),
        ('\u{375}', '\u{377}'),
        ('\u{37a}', '\u{37d}'),
        ('\u{37f}', '\u{37f}'),
        ('\u{384}', '\u{384}'),
        ('\u{386}', '\u{386}'),
        ('\u{388}', '\u{38a}'),
        ('\u{38c}', '\u{38c}'),
        ('\u{38e}', '\u{3a1}'),
        ('\u{3a3}', '\u{3e1}'),
        ('\u{3f0}', '\u{3ff}'),
        ('\u{1d26}', '\u{1d2a}'),
        ('\u{1d5d}', '\u{1d61}'),
        ('\u{1d66}', '\u{1d6a}'),
        ('\u{1dbf}', '\u{1dbf}'),
        ('\u{1f00}', '\u{1f15}'),
        ('\u{1f18}', '\u{1f1d}'),
        ('\u{1f20}', '\u{1f45}'),
        ('\u{1f48}', '\u{1f4d}'),
        ('\u{1f50}', '\u{1f57}'),
        ('\u{1f59}', '\u{1f59}'),
        ('\u{1f5b}', '\u{1f5b}'),
        ('\u{1f5d}', '\u{1f5d}'),
        ('\u{1f5f}', '\u{1f7d}'),
        ('\u{1f80}', '\u{1fb4}'),
        ('\u{1fb6}', '\u{1fc4}'),
        ('\u{1fc6}', '\u{1fd3}'),
        ('\u{1fd6}', '\u{1fdb}'),
        ('\u{1fdd}', '\u{1fef}'),
        ('\u{1ff2}', '\u{1ff4}'),
        ('\u{1ff6}', '\u{1ffe}'),
        ('\u{2126}', '\u{2126}'),
        ('\u{ab65}', '\u{ab65}'),
        ('\u{10140}', '\u{1018e}'),
        ('\u{101a0}', '\u{101a0}'),
        ('\u{1d200}', '\u{1d245}'),
    ]
}

/// Build the table of [`greek_ranges`].
#[verifier::rlimit(100)]
pub fn greek_table() -> (r: Vec<(char, char)>)
    ensures
        r@ == greek_ranges(),
{
    let mut v: Vec<(char, char)> = Vec::new();
    v.push(('\u{370}', '\u{373}'));
    v.push(('\u{375}', '\u{377}'));
    v.push(('\u{37a}', '\u{37d}'));
    v.push(('\u{37f}', '\u{37f}'));
    v.push(('\u{384}', '\u{384}'));
    v.push(('\u{386}', '\u{386}'));
    v.push(('\u{388}', '\u{38a}'));
    v.push(('\u{38c}', '\u{38c}'));
    v.push(('\u{38e}', '\u{3a1}'));
    v.push(('\u{3a3}', '\u{3e1}'));
    v.push(('\u{3f0}', '\u{3ff}'));
    v.push(('\u{1d26}', '\u{1d2a}'));
    v.push(('\u{1d5d}', '\u{1d61}'));
    v.push(('\u{1d66}', '\u{1d6a}'));
    v.push(('\u{1dbf}', '\u{1dbf}'));
    v.push(('\u{1f00}', '\u{1f15}'));
    v.push(('\u{1f18}', '\u{1f1d}'));
    v.push(('\u{1f20}', '\u{1f45}'));
    v.push(('\u{1f48}', '\u{1f4d}'));
    v.push(('\u{1f50}', '\u{1f57}'));
    v.push(('\u{1f59}', '\u{1f59}'));
    v.push(('\u{1f5b}', '\u{1f5b}'));
    v.push(('\u{1f5d}', '\u{1f5d}'));
    v.push(('\u{1f5f}', '\u{1f7d}'));
    v.push(('\u{1f80}', '\u{1fb4}'));
    v.push(('\u{1fb6}', '\u{1fc4}'));
    v.push(('\u{1fc6}', '\u{1fd3}'));
    v.push(('\u{1fd6}', '\u{1fdb}'));
    v.push(('\u{1fdd}', '\u{1fef}'));
    v.push(('\u{1ff2}', '\u{1ff4}'));
    v.push(('\u{1ff6}', '\u{1ffe}'));
    v.push(('\u{2126}', '\u{2126}'));
    v.push(('\u{ab65}', '\u{ab65}'));
    v.push(('\u{10140}', '\u{1018e}'));
    v.push(('\u{101a0}', '\u{101a0}'));
    v.push(('\u{1d200}', '\u{1d245}'));
    proof {
        assert(v@ =~= greek_ranges());
    }
    v
}

/// Ranges of the `Gujarati` class.
pub closed spec fn gujarati_ranges() -> Seq<(char, char)> {
    seq![
        ('\u{a81}', '\u{a83}'),
        ('\u{a85}', '\u{a8d}'),
        ('\u{a8f}', '\u{a91}'),
        ('\u{a93}', '\u{aa8}'),
        ('\u{aaa}', '\u{ab0}'),
        ('\u{ab2}', '\u{ab3}'),
        ('\u{ab5}', '\u{ab9}'),
        ('\u{abc}', '\u{ac5}'),
        ('\u{ac7}', '\u{ac9}'),
        ('\u{acb}', '\u{acd}'),
        ('\u{ad0}', '\u{ad0}'),
        ('\u{ae0}', '\u{ae3}'),
        ('\u{ae6}', '\u{af1}'),
        ('\u{af9}', '\u{aff}'),
    ]
}

/// Build the table of [`gujarati_ranges`].
#[verifier::rlimit(100)]
pub fn gujarati_table() -> (r: Vec<(char, char)>)
    ensures
        r@ == gujarati_ranges(),
{
    let mut v: Vec<(char, char)> = Vec::new();
    v.push(('\u{a81}', '\u{a83}'));
    v.push(('\u{a85}', '\u{a8d}'));
    v.push(('\u{a8f}', '\u{a91}'));
    v.push(('\u{a93}', '\u{aa8}'));
    v.push(('\u{aaa}', '\u{ab0}'));
    v.push(('\u{ab2}', '\u{ab3}'));
    v.push(('\u{ab5}', '\u{ab9}'));
    v.push(('\u{abc}', '\u{ac5}'));
    v.push(('\u{ac7}', '\u{ac9}'));
    v.push(('\u{acb}', '\u{acd}'));
    v.push(('\u{ad0}', '\u{ad0}'));
    v.push(('\u{ae0}', '\u{ae3}'));
    v.push(('\u{ae6}', '\u{af1}'));
    v.push(('\u{af9}', '\u{aff}'));
    proof {
        assert(v@ =~= gujarati_ranges());
    }
    v
}

/// Ranges of the `Gunjala_Gondi` class.
pub closed spec fn gunjala_gondi_ranges() -> Seq<(char, char)> {
    seq![
        ('\u{11d60}', '\u{11d65}'),
        ('\u{11d67}', '\u{11d68}'),
        ('\u{11d6a}', '\u{11d8e}'),
        ('\u{11d90}', '\u{11d91}'),
        ('\u{11d93}', '\u{11d98}'),
        ('\u{11da0}', '\u{11da9}'),
    ]
}

/// Build the table of [`gunjala_gondi_ranges`].
#[verifier::rlimit(100)]
pub fn gunjala_gondi_table() -> (r: Vec<(char, char)>)
    ensures
        r@ == gunjala_gondi_ranges(),
{
    let mut v: Vec<(char, char)> = Vec::new();
    v.push(('\u{11d60}', '\u{11d65}'));
    v.push(('\u{11d67}', '\u{11d68}'));
    v.push(('\u{11d6a}', '\u{11d8e}'));
    v.push(('\u{11d90}', '\u{11d91}'));
    v.push(('\u{11d93}', '\u{11d98}'));
    v.push(('\u{11da0}', '\u{11da9}'));
    proof {
        assert(v@ =~= gunjala_gondi_ranges());
    }
    v
}

/// Ranges of the `Gurmukhi` class.
pub closed spec fn gurmukhi_ranges() -> Seq<(char, char)> {
    seq![
        ('\u{a01}', '\u{a03}'),
        ('\u{a05}', '\u{a0a}'),
        ('\u{a0f}', '\u{a10}'),
        ('\u{a13}', '\u{a28}'),
        ('\u{a2a}', '\u{a30}'),
        ('\u{a32}', '\u{a33}'),
        ('\u{a35}', '\u{a36}'),
        ('\u{a38}', '\u{a39}'),
        ('\u{a3c}', '\u{a3c}'),
        ('\u{a3e}', '\u{a42}'),
        ('\u{a47}', '\u{a48}'),
        ('\u{a4b}', '\u{a4d}'),
        ('\u{a51}', '\u{a51}'),
        ('\u{a59}', '\u{a5c}'),
        ('\u{a5e}', '\u{a5e}'),
        ('\u{a66}', '\u{a76}'),
    ]
}

/// Build the table of [`gurmukhi_ranges`].
#[verifier::rlimit(100)]
pub fn gurmukhi_table() -> (r: Vec<(char, char)>)
    ensures
        r@ == gurmukhi_ranges(),
{
    let mut v: Vec<(char, char)> = Vec::new();
    v.push(('\u{a01}', '\u{a03}'));
    v.push(('\u{a05}', '\u{a0a}'));
    v.push(('\u{a0f}', '\u{a10}'));
    v.push(('\u{a13}', '\u{a28}'));
    v.push(('\u{a2a}', '\u{a30}'));
    v.push(('\u{a32}', '\u{a33}'));
    v.push(('\u{a35}', '\u{a36}'));
    v.push(('\u{a38}', '\u{a39}'));
    v.push(('\u{a3c}', '\u{a3c}'));
    v.push(('\u{a3e}', '\u{a42}'));
    v.push(('\u{a47}', '\u{a48}'));
    v.push(('\u{a4b}', '\u{a4d}'));
    v.push(('\u{a51}', '\u{a51}'));
    v.push(('\u{a59}', '\u{a5c}'));
    v.push(('\u{a5e}', '\u{a5e}'));
    v.push(('\u{a66}', '\u{a76}'));
    proof {
        assert(v@ =~= gurmukhi_ranges());
    }
    v
}

/// Ranges of the `Gurung_Khema` class.
pub closed spec fn gurung_khema_ranges() -> Seq<(char, char)> {
    seq![
        ('\u{16100}', '\u{16139}'),
    ]
}

/// Build the table of [`gurung_khema_ranges`].
#[verifier::rlimit(100)]
pub fn gurung_khema_table() -> (r: Vec<(char, char)>)
    ensures
        r@ == gurung_khema_ranges(),
{
    let mut v: Vec<(char, char)> = Vec::new();
    v.push(('\u{16100}', '\u{16139}'));
    proof {
        assert(v@ =~= gurung_khema_ranges());
    }
    v
}

/// Ranges of the `Han` class.
pub closed spec fn han_ranges() -> Seq<(char, char)> {
    seq![
        ('\u{2e80}', '\u{2e99}'),
        ('\u{2e9b}', '\u{2ef3}'),
        ('\u{2f00}', '\u{2fd5}'),
        ('\u{3005}', '\u{3005}'),
        ('\u{3007}', '\u{3007}'),
        ('\u{3021}', '\u{3029}'),
        ('\u{3038}', '\u{303b}'),
        ('\u{3400}', '\u{4dbf}'),
        ('\u{4e00}', '\u{9fff}'),
        ('\u{f900}', '\u{fa6d}'),
        ('\u{fa70}', '\u{fad9}'),
        ('\u{16fe2}', '\u{16fe3}'),
        ('\u{16ff0}', '\u{16ff1}'),
        ('\u{20000}', '\u{2a6df}'),
        ('\u{2a700}', '\u{2b739}'),
        ('\u{2b740}', '\u{2b81d}'),
        ('\u{2b820}', '\u{2cea1}'),
        ('\u{2ceb0}', '\u{2ebe0}'),
        ('\u{2ebf0}', '\u{2ee5d}'),
        ('\u{2f800}', '\u{2fa1d}'),
        ('\u{30000}', '\u{3134a}'),
        ('\u{31350}', '\u{323af}'),
    ]
}

/// Build the table of [`han_ranges`].
#[verifier::rlimit(100)]
pub fn han_table() -> (r: Vec<(char, char)>)
    ensures
        r@ == han_ranges(),
{
    let mut v: Vec<(char, char)> = Vec::new();
    v.push(('\u{2e80}', '\u{2e99}'));
    v.push(('\u{2e9b}', '\u{2ef3}'));
    v.push(('\u{2f00}', '\u{2fd5}'));
    v.push(('\u{3005}', '\u{3005}'));
    v.push(('\u{3007}', '\u{3007}'));
    v.push(('\u{3021}', '\u{3029}'));
    v.push(('\u{3038}', '\u{303b}'));
    v.push(('\u{3400}', '\u{4dbf}'));
    v.push(('\u{4e00}', '\u{9fff}'));
    v.push(('\u{f900}', '\u{fa6d}'));
    v.push(('\u{fa70}', '\u{fad9}'));
    v.push(('\u{16fe2}', '\u{16fe3}'));
    v.push(('\u{16ff0}', '\u{16ff1}'));
    v.push(('\u{20000}', '\u{2a6df}'));
    v.push(('\u{2a700}', '\u{2b739}'));
    v.push(('\u{2b740}', '\u{2b81d}'));
    v.push(('\u{2b820}', '\u{2cea1}'));
    v.push(('\u{2ceb0}', '\u{2ebe0}'));
    v.push(('\u{2ebf0}', '\u{2ee5d}'));
    v.push(('\u{2f800}', '\u{2fa1d}'));
    v.push(('\u{30000}', '\u{3134a}'));
    v.push(('\u{31350}', '\u{323af}'));
    proof {
        assert(v@ =~= han_ranges());
    }
    v
}

/// Ranges of the `Hangul` class.
pub closed spec fn hangul_ranges() -> Seq<(char, char)> {
    seq![
        ('\u{1100}', '\u{11ff}'),
        ('\u{302e}', '\u{302f}'),
        ('\u{3131}', '\u{318e}'),
        ('\u{3200}', '\u{321e}'),
        ('\u{3260}', '\u{327e}'),
        ('\u{a960}', '\u{a97c}'),
        ('\u{ac00}', '\u{d7a3}'),
        ('\u{d7b0}', '\u{d7c6}'),
        ('\u{d7cb}', '\u{d7fb}'),
        ('\u{ffa0}', '\u{ffbe}'),
        ('\u{ffc2}', '\u{ffc7}'),
        ('\u{ffca}', '\u{ffcf}'),
        ('\u{ffd2}', '\u{ffd7}'),
        ('\u{ffda}', '\u{ffdc}'),
    ]
}

/// Build the table of [`hangul_ranges`].
#[verifier::rlimit(100)]
pub fn hangul_table() -> (r: Vec<(char, char)>)
    ensures
        r@ == hangul_ranges(),
{
    let mut v: Vec<(char, char)> = Vec::new();
    v.push(('\u{1100}', '\u{11ff}'));
    v.push(('\u{302e}', '\u{302f}'));
    v.push(('\u{3131}', '\u{318e}'));
    v.push(('\u{3200}', '\u{321e}'));
    v.push(('\u{3260}', '\u{327e}'));
    v.push(('\u{a960}', '\u{a97c}'));
    v.push(('\u{ac00}', '\u{d7a3}'));
    v.push(('\u{d7b0}', '\u{d7c6}'));
    v.push(('\u{d7cb}', '\u{d7fb}'));
    v.push(('\u{ffa0}', '\u{ffbe}'));
    v.push(('\u{ffc2}', '\u{ffc7}'));
    v.push(('\u{ffca}', '\u{ffcf}'));
    v.push(('\u{ffd2}', '\u{ffd7}'));
    v.push(('\u{ffda}', '\u{ffdc}'));
    proof {
        assert(v@ =~= hangul_ranges());
    }
    v
}

/// Ranges of the `Hanifi_Rohingya` class.
pub closed spec fn hanifi_rohingya_ranges() -> Seq<(char, char)> {
    seq![
        ('\u{10d00}', '\u{10d27}'),
        ('\u{10d30}', '\u{10d39}'),
    ]
}

/// Build the table of [`hanifi_rohingya_ranges`].
#[verifier::rlimit(100)]
pub fn hanifi_rohingya_table() -> (r: Vec<(char, char)>)
    ensures
        r@ == hanifi_rohingya_ranges(),
{
    let mut v: Vec<(char, char)> = Vec::new();
    v.push(('\u{10d00}', '\u{10d27}'));
    v.push(('\u{10d30}', '\u{10d39}'));
    proof {
        assert(v@ =~= hanifi_rohingya_ranges());
    }
    v
}

/// Ranges of the `Hanunoo` class.
pub closed spec fn hanunoo_ranges() -> Seq<(char, char)> {
    seq![
        ('\u{1720}', '\u{1734}'),
    ]
}

/// Build the table of [`hanunoo_ranges`].
#[verifier::rlimit(100)]
pub fn hanunoo_table() -> (r: Vec<(char, char)>)
    ensures
        r@ == hanunoo_ranges(),
{
    let mut v: Vec<(char, char)> = Vec::new();
    v.push(('\u{1720}', '\u{1734}'));
    proof {
        assert(v@ =~= hanunoo_ranges());
    }
    v
}

/// Ranges of the `Hatran` class.
pub closed spec fn hatran_ranges() -> Seq<(char, char)> {
    seq![
        ('\u{108e0}', '\u{108f2}'),
        ('\u{108f4}', '\u{108f5}'),
        ('\u{108fb}', '\u{108ff}'),
    ]
}

/// Build the table of [`hatran_ranges`].
#[verifier::rlimit(100)]
pub fn hatran_table() -> (r: Vec<(char, char)>)
    ensures
        r@ == hatran_ranges(),
{
    let mut v: Vec<(char, char)> = Vec::new();
    v.push(('\u{108e0}', '\u{108f2}'));
    v.push(('\u{108f4}', '\u{108f5}'));
    v.push(('\u{108fb}', '\u{108ff}'));
    proof {
        assert(v@ =~= hatran_ranges());
    }
    v
}

/// Ranges of the `Hebrew` class.
pub closed spec fn hebrew_ranges() -> Seq<(char, char)> {
    seq![
        ('\u{591}', '\u{5c7}'),
        ('\u{5d0}', '\u{5ea}'),
        ('\u{5ef}', '\u{5f4}'),
        ('\u{fb1d}', '\u{fb36}'),
        ('\u{fb38}', '\u{fb3c}'),
        ('\u{fb3e}', '\u{fb3e}'),
        ('\u{fb40}', '\u{fb41}'),
        ('\u{fb43}', '\u{fb44}'),
        ('\u{fb46}', '\u{fb4f}'),
    ]
}

/// Build the table of [`hebrew_ranges`].
#[verifier::rlimit(100)]
pub fn hebrew_table() -> (r: Vec<(char, char)>)
    ensures
        r@ == hebrew_ranges(),
{
    let mut v: Vec<(char, char)> = Vec::new();
    v.push(('\u{591}', '\u{5c7}'));
    v.push(('\u{5d0}', '\u{5ea}'));
    v.push(('\u{5ef}', '\u{5f4}'));
    v.push(('\u{fb1d}', '\u{fb36}'));
    v.push(('\u{fb38}', '\u{fb3c}'));
    v.push(('\u{fb3e}', '\u{fb3e}'));
    v.push(('\u{fb40}', '\u{fb41}'));
    v.push(('\u{fb43}', '\u{fb44}'));
    v.push(('\u{fb46}', '\u{fb4f}'));
    proof {
        assert(v@ =~= hebrew_ranges());
    }
    v
}

/// Ranges of the `Hiragana` class.
pub closed spec fn hiragana_ranges() -> Seq<(char, char)> {
    seq![
        ('\u{3041}', '\u{3096}'),
        ('\u{309d}', '\u{309f}'),
        ('\u{1b001}', '\u{1b11f}'),
        ('\u{1b132}', '\u{1b132}'),
        ('\u{1b150}', '\u{1b152}'),
        ('\u{1f200}', '\u{1f200}'),
    ]
}

/// Build the table of [`hiragana_ranges`].
#[verifier::rlimit(100)]
pub fn hiragana_table() -> (r: Vec<(char, char)>)
    ensures
        r@ == hiragana_ranges(),
{
    let mut v: Vec<(char, char)> = Vec::new();
    v.push(('\u{3041}', '\u{3096}'));
    v.push(('\u{309d}', '\u{309f}'));
    v.push(('\u{1b001}', '\u{1b11f}'));
    v.push(('\u{1b132}', '\u{1b132}'));
    v.push(('\u{1b150}', '\u{1b152}'));
    v.push(('\u{1f200}', '\u{1f200}'));
    proof {
        assert(v@ =~= hiragana_ranges());
    }
    v
}

/// Ranges of the `Imperial_Aramaic` class.
pub closed spec fn imperial_aramaic_ranges() -> Seq<(char, char)> {
    seq![
        ('\u{10840}', '\u{10855}'),
        ('\u{10857}', '\u{1085f}'),
    ]
}

/// Build the table of [`imperial_aramaic_ranges`].
#[verifier::rlimit(100)]
pub fn imperial_aramaic_table() -> (r: Vec<(char, char)>)
    ensures
        r@ == imperial_aramaic_ranges(),
{
    let mut v: Vec<(char, char)> = Vec::new();
    v.push(('\u{10840}', '\u{10855}'));
    v.push(('\u{10857}', '\u{1085f}'));
    proof {
        assert(v@ =~= imperial_aramaic_ranges());
    }
    v
}

/// Ranges of the `Inherited` class.
pub closed spec fn inherited_ranges() -> Seq<(char, char)> {
    seq![
        ('\u{300}', '\u{36f}'),
        ('\u{485}', '\u{486}'),
        ('\u{64b}', '\u{655}'),
        ('\u{670}', '\u{670}'),
        ('\u{951}', '\u{954}'),
        ('\u{1ab0}', '\u{1ace}'),
        ('\u{1cd0}', '\u{1cd2}'),
        ('\u{1cd4}', '\u{1ce0}'),
        ('\u{1ce2}', '\u{1ce8}'),
        ('\u{1ced}', '\u{1ced}'),
        ('\u{1cf4}', '\u{1cf4}'),
        ('\u{1cf8}', '\u{1cf9}'),
        ('\u{1dc0}', '\u{1dff}'),
        ('\u{200c}', '\u{200d}'),
        ('\u{20d0}', '\u{20f0}'),
        ('\u{302a}', '\u{302d}'),
        ('\u{3099}', '\u{309a}'),
        ('\u{fe00}', '\u{fe0f}'),
        ('\u{fe20}', '\u{fe2d}'),
        ('\u{101fd}', '\u{101fd}'),
        ('\u{102e0}', '\u{102e0}'),
        ('\u{1133b}', '\u{1133b}'),
        ('\u{1cf00}', '\u{1cf2d}'),
        ('\u{1cf30}', '\u{1cf46}'),
        ('\u{1d167}', '\u{1d169}'),
        ('\u{1d17b}', '\u{1d182}'),
        ('\u{1d185}', '\u{1d18b}'),
        ('\u{1d1aa}', '\u{1d1ad}'),
        ('\u{e0100}', '\u{e01ef}'),
    ]
}

/// Build the table of [`inherited_ranges`].
#[verifier::rlimit(100)]
pub fn inherited_table() -> (r: Vec<(char, char)>)
    ensures
        r@ == inherited_ranges(),
{
    let mut v: Vec<(char, char)> = Vec::new();
    v.push(('\u{300}', '\u{36f}'));
    v.push(('\u{485}', '\u{486}'));
    v.push(('\u{64b}', '\u{655}'));
    v.push(('\u{670}', '\u{670}'));
    v.push(('\u{951}', '\u{954}'));
    v.push(('\u{1ab0}', '\u{1ace}'));
    v.push(('\u{1cd0}', '\u{1cd2}'));
    v.push(('\u{1cd4}', '\u{1ce0}'));
    v.push(('\u{1ce2}', '\u{1ce8}'));
    v.push(('\u{1ced}', '\u{1ced}'));
    v.push(('\u{1cf4}', '\u{1cf4}'));
    v.push(('\u{1cf8}', '\u{1cf9}'));
    v.push(('\u{1dc0}', '\u{1dff}'));
    v.push(('\u{200c}', '\u{200d}'));
    v.push(('\u{20d0}', '\u{20f0}'));
    v.push(('\u{302a}', '\u{302d}'));
    v.push(('\u{3099}', '\u{309a}'));
    v.push(('\u{fe00}', '\u{fe0f}'));
    v.push(('\u{fe20}', '\u{fe2d}'));
    v.push(('\u{101fd}', '\u{101fd}'));
    v.push(('\u{102e0}', '\u{102e0}'));
    v.push(('\u{1133b}', '\u{1133b}'));
    v.push(('\u{1cf00}', '\u{1cf2d}'));
    v.push(('\u{1cf30}', '\u{1cf46}'));
    v.push(('\u{1d167}', '\u{1d169}'));
    v.push(('\u{1d17b}', '\u{1d182}'));
    v.push(('\u{1d185}', '\u{1d18b}'));
    v.push(('\u{1d1aa}', '\u{1d1ad}'));
    v.push(('\u{e0100}', '\u{e01ef}'));
    proof {
        assert(v@ =~= inherited_ranges());
    }
    v
}

/// Ranges of the `Inscriptional_Pahlavi` class.
pub closed spec fn inscriptional_pahlavi_ranges() -> Seq<(char, char)> {
    seq![
        ('\u{10b60}', '\u{10b72}'),
        ('\u{10b78}', '\u{10b7f}'),
    ]
}

/// Build the table of [`inscriptional_pahlavi_ranges`].
#[verifier::rlimit(100)]
pub fn inscriptional_pahlavi_table() -> (r: Vec<(char, char)>)
    ensures
        r@ == inscriptional_pahlavi_ranges(),
{
    let mut v: Vec<(char, char)> = Vec::new();
    v.push(('\u{10b60}', '\u{10b72}'));
    v.push(('\u{10b78}', '\u{10b7f}'));
    proof {
        assert(v@ =~= inscriptional_pahlavi_ranges());
    }
    v
}

/// Ranges of the `Inscriptional_Parthian` class.
pub closed spec fn inscriptional_parthian_ranges() -> Seq<(char, char)> {
    seq![
        ('\u{10b40}', '\u{10b55}'),
        ('\u{10b58}', '\u{10b5f}'),
    ]
}

/// Build the table of [`inscriptional_parthian_ranges`].
#[verifier::rlimit(100)]
pub fn inscriptional_parthian_table() -> (r: Vec<(char, char)>)
    ensures
        r@ == inscriptional_parthian_ranges(),
{
    let mut v: Vec<(char, char)> = Vec::new();
    v.push(('\u{10b40}', '\u{10b55}'));
    v.push(('\u{10b58}', '\u{10b5f}'));
    proof {
        assert(v@ =~= inscriptional_parthian_ranges());
    }
    v
}

/// Ranges of the `Javanese` class.
pub closed spec fn javanese_ranges() -> Seq<(char, char)> {
    seq![
        ('\u{a980}', '\u{a9cd}'),
        ('\u{a9d0}', '\u{a9d9}'),
        ('\u{a9de}', '\u{a9df}'),
    ]
}

/// Build the table of [`javanese_ranges`].
#[verifier::rlimit(100)]
pub fn javanese_table() -> (r: Vec<(char, char)>)
    ensures
        r@ == javanese_ranges(),
{
    let mut v: Vec<(char, char)> = Vec::new();
    v.push(('\u{a980}', '\u{a9cd}'));
    v.push(('\u{a9d0}', '\u{a9d9}'));
    v.push(('\u{a9de}', '\u{a9df}'));
    proof {
        assert(v@ =~= javanese_ranges());
    }
    v
}

/// Ranges of the `Kaithi` class.
pub closed spec fn kaithi_ranges() -> Seq<(char, char)> {
    seq![
        ('\u{11080}', '\u{110c2}'),
        ('\u{110cd}', '\u{110cd}'),
    ]
}

/// Build the table of [`kaithi_ranges`].
#[verifier::rlimit(100)]
pub fn kaithi_table() -> (r: Vec<(char, char)>)
    ensures
        r@ == kaithi_ranges(),
{
    let mut v: Vec<(char, char)> = Vec::new();
    v.push(('\u{11080}', '\u{110c2}'));
    v.push(('\u{110cd}', '\u{110cd}'));
    proof {
        assert(v@ =~= kaithi_ranges());
    }
    v
}

/// Ranges of the `Kannada` class.
pub closed spec fn kannada_ranges() -> Seq<(char, char)> {
    seq![
        ('\u{c80}', '\u{c8c}'),
        ('\u{c8e}', '\u{c90}'),
        ('\u{c92}', '\u{ca8}'),
        ('\u{caa}', '\u{cb3}'),
        ('\u{cb5}', '\u{cb9}'),
        ('\u{cbc}', '\u{cc4}'),
        ('\u{cc6}', '\u{cc8}'),
        ('\u{cca}', '\u{ccd}'),
        ('\u{cd5}', '\u{cd6}'),
        ('\u{cdd}', '\u{cde}'),
        ('\u{ce0}', '\u{ce3}'),
        ('\u{ce6}', '\u{cef}'),
        ('\u{cf1}', '\u{cf3}'),
    ]
}

/// Build the table of [`kannada_ranges`].
#[verifier::rlimit(100)]
pub fn kannada_table() -> (r: Vec<(char, char)>)
    ensures
        r@ == kannada_ranges(),
{
    let mut v: Vec<(char, char)> = Vec::new();
    v.push(('\u{c80}', '\u{c8c}'));
    v.push(('\u{c8e}', '\u{c90}'));
    v.push(('\u{c92}', '\u{ca8}'));
    v.push(('\u{caa}', '\u{cb3}'));
    v.push(('\u{cb5}', '\u{cb9}'));
    v.push(('\u{cbc}', '\u{cc4}'));
    v.push(('\u{cc6}', '\u{cc8}'));
    v.push(('\u{cca}', '\u{ccd}'));
    v.push(('\u{cd5}', '\u{cd6}'));
    v.push(('\u{cdd}', '\u{cde}'));
    v.push(('\u{ce0}', '\u{ce3}'));
    v.push(('\u{ce6}', '\u{cef}'));
    v.push(('\u{cf1}', '\u{cf3}'));
    proof {
        assert(v@ =~= kannada_ranges());
    }
    v
}

/// Ranges of the `Katakana` class.
pub closed spec fn katakana_ranges() -> Seq<(char, char)> {
    seq![
        ('\u{30a1}', '\u{30fa}'),
        ('\u{30fd}', '\u{30ff}'),
        ('\u{31f0}', '\u{31ff}'),
        ('\u{32d0}', '\u{32fe}'),
        ('\u{3300}', '\u{3357}'),
        ('\u{ff66}', '\u{ff6f}'),
        ('\u{ff71}', '\u{ff9d}'),
        ('\u{1aff0}', '\u{1aff3}'),
        ('\u{1aff5}', '\u{1affb}'),
        ('\u{1affd}', '\u{1affe}'),
        ('\u{1b000}', '\u{1b000}'),
        ('\u{1b120}', '\u{1b122}'),
        ('\u{1b155}', '\u{1b155}'),
        ('\u{1b164}', '\u{1b167}'),
    ]
}

/// Build the table of [`katakana_ranges`].
#[verifier::rlimit(100)]
pub fn katakana_table() -> (r: Vec<(char, char)>)
    ensures
        r@ == katakana_ranges(),
{
    let mut v: Vec<(char, char)> = Vec::new();
    v.push(('\u{30a1}', '\u{30fa}'));
    v.push(('\u{30fd}', '\u{30ff}'));
    v.push(('\u{31f0}', '\u{31ff}'));
    v.push(('\u{32d0}', '\u{32fe}'));
    v.push(('\u{3300}', '\u{3357}'));
    v.push(('\u{ff66}', '\u{ff6f}'));
    v.push(('\u{ff71}', '\u{ff9d}'));
    v.push(('\u{1aff0}', '\u{1aff3}'));
    v.push(('\u{1aff5}', '\u{1affb}'));
    v.push(('\u{1affd}', '\u{1affe}'));
    v.push(('\u{1b000}', '\u{1b000}'));
    v.push(('\u{1b120}', '\u{1b122}'));
    v.push(('\u{1b155}', '\u{1b155}'));
    v.push(('\u{1b164}', '\u{1b167}'));
    proof {
        assert(v@ =~= katakana_ranges());
    }
    v
}

/// Ranges of the `Kawi` class.
pub closed spec fn kawi_ranges() -> Seq<(char, char)> {
    seq![
        ('\u{11f00}', '\u{11f10}'),
        ('\u{11f12}', '\u{11f3a}'),
        ('\u{11f3e}', '\u{11f5a}'),
    ]
}

/// Build the table of [`kawi_ranges`].
#[verifier::rlimit(100)]
pub fn kawi_table() -> (r: Vec<(char, char)>)
    ensures
        r@ == kawi_ranges(),
{
    let mut v: Vec<(char, char)> = Vec::new();
    v.push(('\u{11f00}', '\u{11f10}'));
    v.push(('\u{11f12}', '\u{11f3a}'));
    v.push(('\u{11f3e}', '\u{11f5a}'));
    proof {
        assert(v@ =~= kawi_ranges());
    }
    v
}

/// Ranges of the `Kayah_Li` class.
pub closed spec fn kayah_li_ranges() -> Seq<(char, char)> {
    seq![
        ('\u{a900}', '\u{a92d}'),
        ('\u{a92f}', '\u{a92f}'),
    ]
}

/// Build the table of [`kayah_li_ranges`].
#[verifier::rlimit(100)]
pub fn kayah_li_table() -> (r: Vec<(char, char)>)
    ensures
        r@ == kayah_li_ranges(),
{
    let mut v: Vec<(char, char)> = Vec::new();
    v.push(('\u{a900}', '\u{a92d}'));
    v.push(('\u{a92f}', '\u{a92f}'));
    proof {
        assert(v@ =~= kayah_li_ranges());
    }
    v
}

/// Ranges of the `Kharoshthi` class.
pub closed spec fn kharoshthi_ranges() -> Seq<(char, char)> {
    seq![
        ('\u{10a00}', '\u{10a03}'),
        ('\u{10a05}', '\u{10a06}'),
        ('\u{10a0c}', '\u{10a13}'),
        ('\u{10a15}', '\u{10a17}'),
        ('\u{10a19}', '\u{10a35}'),
        ('\u{10a38}', '\u{10a3a}'),
        ('\u{10a3f}', '\u{10a48}'),
        ('\u{10a50}', '\u{10a58}'),
    ]
}

/// Build the table of [`kharoshthi_ranges`].
#[verifier::rlimit(100)]
pub fn kharoshthi_table() -> (r: Vec<(char, char)>)
    ensures
        r@ == kharoshthi_ranges(),
{
    let mut v: Vec<(char, char)> = Vec::new();
    v.push(('\u{10a00}', '\u{10a03}'));
    v.push(('\u{10a05}', '\u{10a06}'));
    v.push(('\u{10a0c}', '\u{10a13}'));
    v.push(('\u{10a15}', '\u{10a17}'));
    v.push(('\u{10a19}', '\u{10a35}'));
    v.push(('\u{10a38}', '\u{10a3a}'));
    v.push(('\u{10a3f}', '\u{10a48}'));
    v.push(('\u{10a50}', '\u{10a58}'));
    proof {
        assert(v@ =~= kharoshthi_ranges());
    }
    v
}

/// Ranges of the `Khitan_Small_Script` class.
pub closed spec fn khitan_small_script_ranges() -> Seq<(char, char)> {
    seq![
        ('\u{16fe4}', '\u{16fe4}'),
        ('\u{18b00}', '\u{18cd5}'),
        ('\u{18cff}', '\u{18cff}'),
    ]
}

/// Build the table of [`khitan_small_script_ranges`].
#[verifier::rlimit(100)]
pub fn khitan_small_script_table() -> (r: Vec<(char, char)>)
    ensures
        r@ == khitan_small_script_ranges(),
{
    let mut v: Vec<(char, char)> = Vec::new();
    v.push(('\u{16fe4}', '\u{16fe4}'));
    v.push(('\u{18b00}', '\u{18cd5}'));
    v.push(('\u{18cff}', '\u{18cff}'));
    proof {
        assert(v@ =~= khitan_small_script_ranges());
    }
    v
}

/// Ranges of the `Khmer` class.
pub closed spec fn khmer_ranges() -> Seq<(char, char)> {
    seq![
        ('\u{1780}', '\u{17dd}'),
        ('\u{17e0}', '\u{17e9}'),
        ('\u{17f0}', '\u{17f9}'),
        ('\u{19e0}', '\u{19ff}'),
    ]
}

/// Build the table of [`khmer_ranges`].
#[verifier::rlimit(100)]
pub fn khmer_table() -> (r: Vec<(char, char)>)
    ensures
        r@ == khmer_ranges(),
{
    let mut v: Vec<(char, char)> = Vec::new();
    v.push(('\u{1780}', '\u{17dd}'));
    v.push(('\u{17e0}', '\u{17e9}'));
    v.push(('\u{17f0}', '\u{17f9}'));
    v.push(('\u{19e0}', '\u{19ff}'));
    proof {
        assert(v@ =~= khmer_ranges());
    }
    v
}

/// Ranges of the `Khojki` class.
pub closed spec fn khojki_ranges() -> Seq<(char, char)> {
    seq![
        ('\u{11200}', '\u{11211}'),
        ('\u{11213}', '\u{11241}'),
    ]
}

/// Build the table of [`khojki_ranges`].
#[verifier::rlimit(100)]
pub fn khojki_table() -> (r: Vec<(char, char)>)
    ensures
        r@ == khojki_ranges(),
{
    let mut v: Vec<(char, char)> = Vec::new();
    v.push(('\u{11200}', '\u{11211}'));
    v.push(('\u{11213}', '\u{11241}'));
    proof {
        assert(v@ =~= khojki_ranges());
    }
    v
}

/// Ranges of the `Khudawadi` class.
pub closed spec fn khudawadi_ranges() -> Seq<(char, char)> {
    seq![
        ('\u{112b0}', '\u{112ea}'),
        ('\u{112f0}', '\u{112f9}'),
    ]
}

/// Build the table of [`khudawadi_ranges`].
#[verifier::rlimit(100)]
pub fn khudawadi_table() -> (r: Vec<(char, char)>)
    ensures
        r@ == khudawadi_ranges(),
{
    let mut v: Vec<(char, char)> = Vec::new();
    v.push(('\u{112b0}', '\u{112ea}'));
    v.push(('\u{112f0}', '\u{112f9}'));
    proof {
        assert(v@ =~= khudawadi_ranges());
    }
    v
}

/// Ranges of the `Kirat_Rai` class.
pub closed spec fn kirat_rai_ranges() -> Seq<(char, char)> {
    seq![
        ('\u{16d40}', '\u{16d79}'),
    ]
}

/// Build the table of [`kirat_rai_ranges`].
#[verifier::rlimit(100)]
pub fn kirat_rai_table() -> (r: Vec<(char, char)>)
    ensures
        r@ == kirat_rai_ranges(),
{
    let mut v: Vec<(char, char)> = Vec::new();
    v.push(('\u{16d40}', '\u{16d79}'));
    proof {
        assert(v@ =~= kirat_rai_ranges());
    }
    v
}

/// Ranges of the `Lao` class.
pub closed spec fn lao_ranges() -> Seq<(char, char)> {
    seq![
        ('\u{e81}', '\u{e82}'),
        ('\u{e84}', '\u{e84}'),
        ('\u{e86}', '\u{e8a}'),
        ('\u{e8c}', '\u{ea3}'),
        ('\u{ea5}', '\u{ea5}'),
        ('\u{ea7}', '\u{ebd}'),
        ('\u{ec0}', '\u{ec4}'),
        ('\u{ec6}', '\u{ec6}'),
        ('\u{ec8}', '\u{ece}'),
        ('\u{ed0}', '\u{ed9}'),
        ('\u{edc}', '\u{edf}'),
    ]
}

/// Build the table of [`lao_ranges`].
#[verifier::rlimit(100)]
pub fn lao_table() -> (r: Vec<(char, char)>)
    ensures
        r@ == lao_ranges(),
{
    let mut v: Vec<(char, char)> = Vec::new();
    v.push(('\u{e81}', '\u{e82}'));
    v.push(('\u{e84}', '\u{e84}'));
    v.push(('\u{e86}', '\u{e8a}'));
    v.push(('\u{e8c}', '\u{ea3}'));
    v.push(('\u{ea5}', '\u{ea5}'));
    v.push(('\u{ea7}', '\u{ebd}'));
    v.push(('\u{ec0}', '\u{ec4}'));
    v.push(('\u{ec6}', '\u{ec6}'));
    v.push(('\u{ec8}', '\u{ece}'));
    v.push(('\u{ed0}', '\u{ed9}'));
    v.push(('\u{edc}', '\u{edf}'));
    proof {
        assert(v@ =~= lao_ranges());
    }
    v
}

/// Ranges of the `Latin` class.
pub closed spec fn latin_ranges() -> Seq<(char, char)> {
    seq![
        ('A', 'Z'),
        ('a', 'z'),
        ('\u{aa}', '\u{aa}'),
        ('\u{ba}', '\u{ba}'),
        ('\u{c0}', '\u{d6}'),
        ('\u{d8}', '\u{f6}'),
        ('\u{f8}', '\u{2b8}'),
        ('\u{2e0}', '\u{2e4}'),
        ('\u{1d00}', '\u{1d25}'),
        ('\u{1d2c}', '\u{1d5c}'),
        ('\u{1d62}', '\u{1d65}'),
        ('\u{1d6b}', '\u{1d77}'),
        ('\u{1d79}', '\u{1dbe}'),
        ('\u{1e00}', '\u{1eff}'),
        ('\u{2071}', '\u{2071}'),
        ('\u{207f}', '\u{207f}'),
        ('\u{2090}', '\u{209c}'),
        ('\u{212a}', '\u{212b}'),
        ('\u{2132}', '\u{2132}'),
        ('\u{214e}', '\u{214e}'),
        ('\u{2160}', '\u{2188}'),
        ('\u{2c60}', '\u{2c7f}'),
        ('\u{a722}', '\u{a787}'),
        ('\u{a78b}', '\u{a7cd}'),
        ('\u{a7d0}', '\u{a7d1}'),
        ('\u{a7d3}', '\u{a7d3}'),
        ('\u{a7d5}', '\u{a7dc}'),
        ('\u{a7f2}', '\u{a7ff}'),
        ('\u{ab30}', '\u{ab5a}'),
        ('\u{ab5c}', '\u{ab64}'),
        ('\u{ab66}', '\u{ab69}'),
        ('\u{fb00}', '\u{fb06}'),
        ('\u{ff21}', '\u{ff3a}'),
        ('\u{ff41}', '\u{ff5a}'),
        ('\u{10780}', '\u{10785}'),
        ('\u{10787}', '\u{107b0}'),
        ('\u{107b2}', '\u{107ba}'),
        ('\u{1df00}', '\u{1df1e}'),
        ('\u{1df25}', '\u{1df2a}'),
    ]
}

/// Build the table of [`latin_ranges`].
#[verifier::rlimit(100)]
pub fn latin_table() -> (r: Vec<(char, char)>)
    ensures
        r@ == latin_ranges(),
{
    let mut v: Vec<(char, char)> = Vec::new();
    v.push(('A', 'Z'));
    v.push(('a', 'z'));
    v.push(('\u{aa}', '\u{aa}'));
    v.push(('\u{ba}', '\u{ba}'));
    v.push(('\u{c0}', '\u{d6}'));
    v.push(('\u{d8}', '\u{f6}'));
    v.push(('\u{f8}', '\u{2b8}'));
    v.push(('\u{2e0}', '\u{2e4}'));
    v.push(('\u{1d00}', '\u{1d25}'));
    v.push(('\u{1d2c}', '\u{1d5c}'));
    v.push(('\u{1d62}', '\u{1d65}'));
    v.push(('\u{1d6b}', '\u{1d77}'));
    v.push(('\u{1d79}', '\u{1dbe}'));
    v.push(('\u{1e00}', '\u{1eff}'));
    v.push(('\u{2071}', '\u{2071}'));
    v.push(('\u{207f}', '\u{207f}'));
    v.push(('\u{2090}', '\u{209c}'));
    v.push(('\u{212a}', '\u{212b}'));
    v.push(('\u{2132}', '\u{2132}'));
    v.push(('\u{214e}', '\u{214e}'));
    v.push(('\u{2160}', '\u{2188}'));
    v.push(('\u{2c60}', '\u{2c7f}'));
    v.push(('\u{a722}', '\u{a787}'));
    v.push(('\u{a78b}', '\u{a7cd}'));
    v.push(('\u{a7d0}', '\u{a7d1}'));
    v.push(('\u{a7d3}', '\u{a7d3}'));
    v.push(('\u{a7d5}', '\u{a7dc}'));
    v.push(('\u{a7f2}', '\u{a7ff}'));
    v.push(('\u{ab30}', '\u{ab5a}'));
    v.push(('\u{ab5c}', '\u{ab64}'));
    v.push(('\u{ab66}', '\u{ab69}'));
    v.push(('\u{fb00}', '\u{fb06}'));
    v.push(('\u{ff21}', '\u{ff3a}'));
    v.push(('\u{ff41}', '\u{ff5a}'));
    v.push(('\u{10780}', '\u{10785}'));
    v.push(('\u{10787}', '\u{107b0}'));
    v.push(('\u{107b2}', '\u{107ba}'));
    v.push(('\u{1df00}', '\u{1df1e}'));
    v.push(('\u{1df25}', '\u{1df2a}'));
    proof {
        assert(v@ =~= latin_ranges());
    }
    v
}

/// Ranges of the `Lepcha` class.
pub closed spec fn lepcha_ranges() -> Seq<(char, char)> {
    seq![
        ('\u{1c00}', '\u{1c37}'),
        ('\u{1c3b}', '\u{1c49}'),
        ('\u{1c4d}', '\u{1c4f}'),
    ]
}

/// Build the table of [`lepcha_ranges`].
#[verifier::rlimit(100)]
pub fn lepcha_table() -> (r: Vec<(char, char)>)
    ensures
        r@ == lepcha_ranges(),
{
    let mut v: Vec<(char, char)> = Vec::new();
    v.push(('\u{1c00}', '\u{1c37}'));
    v.push(('\u{1c3b}', '\u{1c49}'));
    v.push(('\u{1c4d}', '\u{1c4f}'));
    proof {
        assert(v@ =~= lepcha_ranges());
    }
    v
}

/// Ranges of the `Limbu` class.
pub closed spec fn limbu_ranges() -> Seq<(char, char)> {
    seq![
        ('\u{1900}', '\u{191e}'),
        ('\u{1920}', '\u{192b}'),
        ('\u{1930}', '\u{193b}'),
        ('\u{1940}', '\u{1940}'),
        ('\u{1944}', '\u{194f}'),
    ]
}

/// Build the table of [`limbu_ranges`].
#[verifier::rlimit(100)]
pub fn limbu_table() -> (r: Vec<(char, char)>)
    ensures
        r@ == limbu_ranges(),
{
    let mut v: Vec<(char, char)> = Vec::new();
    v.push(('\u{1900}', '\u{191e}'));
    v.push(('\u{1920}', '\u{192b}'));
    v.push(('\u{1930}', '\u{193b}'));
    v.push(('\u{1940}', '\u{1940}'));
    v.push(('\u{1944}', '\u{194f}'));
    proof {
        assert(v@ =~= limbu_ranges());
    }
    v
}

/// Ranges of the `Linear_A` class.
pub closed spec fn linear_a_ranges() -> Seq<(char, char)> {
    seq![
        ('\u{10600}', '\u{10736}'),
        ('\u{10740}', '\u{10755}'),
        ('\u{10760}', '\u{10767}'),
    ]
}

/// Build the table of [`linear_a_ranges`].
#[verifier::rlimit(100)]
pub fn linear_a_table() -> (r: Vec<(char, char)>)
    ensures
        r@ == linear_a_ranges(),
{
    let mut v: Vec<(char, char)> = Vec::new();
    v.push(('\u{10600}', '\u{10736}'));
    v.push(('\u{10740}', '\u{10755}'));
    v.push(('\u{10760}', '\u{10767}'));
    proof {
        assert(v@ =~= linear_a_ranges());
    }
    v
}

/// Ranges of the `Linear_B` class.
pub closed spec fn linear_b_ranges() -> Seq<(char, char)> {
    seq![
        ('\u{10000}', '\u{1000b}'),
        ('\u{1000d}', '\u{10026}'),
        ('\u{10028}', '\u{1003a}'),
        ('\u{1003c}', '\u{1003d}'),
        ('\u{1003f}', '\u{1004d}'),
        ('\u{10050}', '\u{1005d}'),
        ('\u{10080}', '\u{100fa}'),
    ]
}

/// Build the table of [`linear_b_ranges`].
#[verifier::rlimit(100)]
pub fn linear_b_table() -> (r: Vec<(char, char)>)
    ensures
        r@ == linear_b_ranges(),
{
    let mut v: Vec<(char, char)> = Vec::new();
    v.push(('\u{10000}', '\u{1000b}'));
    v.push(('\u{1000d}', '\u{10026}'));
    v.push(('\u{10028}', '\u{1003a}'));
    v.push(('\u{1003c}', '\u{1003d}'));
    v.push(('\u{1003f}', '\u{1004d}'));
    v.push(('\u{10050}', '\u{1005d}'));
    v.push(('\u{10080}', '\u{100fa}'));
    proof {
        assert(v@ =~= linear_b_ranges());
    }
    v
}

/// Ranges of the `Lisu` class.
pub closed spec fn lisu_ranges() -> Seq<(char, char)> {
    seq![
        ('\u{a4d0}', '\u{a4ff}'),
        ('\u{11fb0}', '\u{11fb0}'),
    ]
}

/// Build the table of [`lisu_ranges`].
#[verifier::rlimit(100)]
pub fn lisu_table() -> (r: Vec<(char, char)>)
    ensures
        r@ == lisu_ranges(),
{
    let mut v: Vec<(char, char)> = Vec::new();
    v.push(('\u{a4d0}', '\u{a4ff}'));
    v.push(('\u{11fb0}', '\u{11fb0}'));
    proof {
        assert(v@ =~= lisu_ranges());
    }
    v
}

/// Ranges of the `Lycian` class.
pub closed spec fn lycian_ranges() -> Seq<(char, char)> {
    seq![
        ('\u{10280}', '\u{1029c}'),
    ]
}

/// Build the table of [`lycian_ranges`].
#[verifier::rlimit(100)]
pub fn lycian_table() -> (r: Vec<(char, char)>)
    ensures
        r@ == lycian_ranges(),
{
    let mut v: Vec<(char, char)> = Vec::new();
    v.push(('\u{10280}', '\u{1029c}'));
    proof {
        assert(v@ =~= lycian_ranges());
    }
    v
}

/// Ranges of the `Lydian` class.
pub closed spec fn lydian_ranges() -> Seq<(char, char)> {
    seq![
        ('\u{10920}', '\u{10939}'),
        ('\u{1093f}', '\u{1093f}'),
    ]
}

/// Build the table of [`lydian_ranges`].
#[verifier::rlimit(100)]
pub fn lydian_table() -> (r: Vec<(char, char)>)
    ensures
        r@ == lydian_ranges(),
{
    let mut v: Vec<(char, char)> = Vec::new();
    v.push(('\u{10920}', '\u{10939}'));
    v.push(('\u{1093f}', '\u{1093f}'));
    proof {
        assert(v@ =~= lydian_ranges());
    }
    v
}

/// Ranges of the `Mahajani` class.
pub closed spec fn mahajani_ranges() -> Seq<(char, char)> {
    seq![
        ('\u{11150}', '\u{11176}'),
    ]
}

/// Build the table of [`mahajani_ranges`].
#[verifier::rlimit(100)]
pub fn mahajani_table() -> (r: Vec<(char, char)>)
    ensures
        r@ == mahajani_ranges(),
{
    let mut v: Vec<(char, char)> = Vec::new();
    v.push(('\u{11150}', '\u{11176}'));
    proof {
        assert(v@ =~= mahajani_ranges());
    }
    v
}

/// Ranges of the `Makasar` class.
pub closed spec fn makasar_ranges() -> Seq<(char, char)> {
    seq![
        ('\u{11ee0}', '\u{11ef8}'),
    ]
}

/// Build the table of [`makasar_ranges`].
#[verifier::rlimit(100)]
pub fn makasar_table() -> (r: Vec<(char, char)>)
    ensures
        r@ == makasar_ranges(),
{
    let mut v: Vec<(char, char)> = Vec::new();
    v.push(('\u{11ee0}', '\u{11ef8}'));
    proof {
        assert(v@ =~= makasar_ranges());
    }
    v
}

/// Ranges of the `Malayalam` class.
pub closed spec fn malayalam_ranges() -> Seq<(char, char)> {
    seq![
        ('\u{d00}', '\u{d0c}'),
        ('\u{d0e}', '\u{d10}'),
        ('\u{d12}', '\u{d44}'),
        ('\u{d46}', '\u{d48}'),
        ('\u{d4a}', '\u{d4f}'),
        ('\u{d54}', '\u{d63}'),
        ('\u{d66}', '\u{d7f}'),
    ]
}

/// Build the table of [`malayalam_ranges`].
#[verifier::rlimit(100)]
pub fn malayalam_table() -> (r: Vec<(char, char)>)
    ensures
        r@ == malayalam_ranges(),
{
    let mut v: Vec<(char, char)> = Vec::new();
    v.push(('\u{d00}', '\u{d0c}'));
    v.push(('\u{d0e}', '\u{d10}'));
    v.push(('\u{d12}', '\u{d44}'));
    v.push(('\u{d46}', '\u{d48}'));
    v.push(('\u{d4a}', '\u{d4f}'));
    v.push(('\u{d54}', '\u{d63}'));
    v.push(('\u{d66}', '\u{d7f}'));
    proof {
        assert(v@ =~= malayalam_ranges());
    }
    v
}

/// Ranges of the `Mandaic` class.
pub closed spec fn mandaic_ranges() -> Seq<(char, char)> {
    seq![
        ('\u{840}', '\u{85b}'),
        ('\u{85e}', '\u{85e}'),
    ]
}

/// Build the table of [`mandaic_ranges`].
#[verifier::rlimit(100)]
pub fn mandaic_table() -> (r: Vec<(char, char)>)
    ensures
        r@ == mandaic_ranges(),
{
    let mut v: Vec<(char, char)> = Vec::new();
    v.push(('\u{840}', '\u{85b}'));
    v.push(('\u{85e}', '\u{85e}'));
    proof {
        assert(v@ =~= mandaic_ranges());
    }
    v
}

/// Ranges of the `Manichaean` class.
pub closed spec fn manichaean_ranges() -> Seq<(char, char)> {
    seq![
        ('\u{10ac0}', '\u{10ae6}'),
        ('\u{10aeb}', '\u{10af6}'),
    ]
}

/// Build the table of [`manichaean_ranges`].
#[verifier::rlimit(100)]
pub fn manichaean_table() -> (r: Vec<(char, char)>)
    ensures
        r@ == manichaean_ranges(),
{
    let mut v: Vec<(char, char)> = Vec::new();
    v.push(('\u{10ac0}', '\u{10ae6}'));
    v.push(('\u{10aeb}', '\u{10af6}'));
    proof {
        assert(v@ =~= manichaean_ranges());
    }
    v
}

/// Ranges of the `Marchen` class.
pub closed spec fn marchen_ranges() -> Seq<(char, char)> {
    seq![
        ('\u{11c70}', '\u{11c8f}'),
        ('\u{11c92}', '\u{11ca7}'),
        ('\u{11ca9}', '\u{11cb6}'),
    ]
}

/// Build the table of [`marchen_ranges`].
#[verifier::rlimit(100)]
pub fn marchen_table() -> (r: Vec<(char, char)>)
    ensures
        r@ == marchen_ranges(),
{
    let mut v: Vec<(char, char)> = Vec::new();
    v.push(('\u{11c70}', '\u{11c8f}'));
    v.push(('\u{11c92}', '\u{11ca7}'));
    v.push(('\u{11ca9}', '\u{11cb6}'));
    proof {
        assert(v@ =~= marchen_ranges());
    }
    v
}

/// Ranges of the `Masaram_Gondi` class.
pub closed spec fn masaram_gondi_ranges() -> Seq<(char, char)> {
    seq![
        ('\u{11d00}', '\u{11d06}'),
        ('\u{11d08}', '\u{11d09}'),
        ('\u{11d0b}', '\u{11d36}'),
        ('\u{11d3a}', '\u{11d3a}'),
        ('\u{11d3c}', '\u{11d3d}'),
        ('\u{11d3f}', '\u{11d47}'),
        ('\u{11d50}', '\u{11d59}'),
    ]
}

/// Build the table of [`masaram_gondi_ranges`].
#[verifier::rlimit(100)]
pub fn masaram_gondi_table() -> (r: Vec<(char, char)>)
    ensures
        r@ == masaram_gondi_ranges(),
{
    let mut v: Vec<(char, char)> = Vec::new();
    v.push(('\u{11d00}', '\u{11d06}'));
    v.push(('\u{11d08}', '\u{11d09}'));
    v.push(('\u{11d0b}', '\u{11d36}'));
    v.push(('\u{11d3a}', '\u{11d3a}'));
    v.push(('\u{11d3c}', '\u{11d3d}'));
    v.push(('\u{11d3f}', '\u{11d47}'));
    v.push(('\u{11d50}', '\u{11d59}'));
    proof {
        assert(v@ =~= masaram_gondi_ranges());
    }
    v
}

/// Ranges of the `Medefaidrin` class.
pub closed spec fn medefaidrin_ranges() -> Seq<(char, char)> {
    seq![
        ('\u{16e40}', '\u{16e9a}'),
    ]
}

/// Build the table of [`medefaidrin_ranges`].
#[verifier::rlimit(100)]
pub fn medefaidrin_table() -> (r: Vec<(char, char)>)
    ensures
        r@ == medefaidrin_ranges(),
{
    let mut v: Vec<(char, char)> = Vec::new();
    v.push(('\u{16e40}', '\u{16e9a}'));
    proof {
        assert(v@ =~= medefaidrin_ranges());
    }
    v
}

/// Ranges of the `Meetei_Mayek` class.
pub closed spec fn meetei_mayek_ranges() -> Seq<(char, char)> {
    seq![
        ('\u{aae0}', '\u{aaf6}'),
        ('\u{abc0}', '\u{abed}'),
        ('\u{abf0}', '\u{abf9}'),
    ]
}

/// Build the table of [`meetei_mayek_ranges`].
#[verifier::rlimit(100)]
pub fn meetei_mayek_table() -> (r: Vec<(char, char)>)
    ensures
        r@ == meetei_mayek_ranges(),
{
    let mut v: Vec<(char, char)> = Vec::new();
    v.push(('\u{aae0}', '\u{aaf6}'));
    v.push(('\u{abc0}', '\u{abed}'));
    v.push(('\u{abf0}', '\u{abf9}'));
    proof {
        assert(v@ =~= meetei_mayek_ranges());
    }
    v
}

/// Ranges of the `Mende_Kikakui` class.
pub closed spec fn mende_kikakui_ranges() -> Seq<(char, char)> {
    seq![
        ('\u{1e800}', '\u{1e8c4}'),
        ('\u{1e8c7}', '\u{1e8d6}'),
    ]
}

/// Build the table of [`mende_kikakui_ranges`].
#[verifier::rlimit(100)]
pub fn mende_kikakui_table() -> (r: Vec<(char, char)>)
    ensures
        r@ == mende_kikakui_ranges(),
{
    let mut v: Vec<(char, char)> = Vec::new();
    v.push(('\u{1e800}', '\u{1e8c4}'));
    v.push(('\u{1e8c7}', '\u{1e8d6}'));
    proof {
        assert(v@ =~= mende_kikakui_ranges());
    }
    v
}

/// Ranges of the `Meroitic_Cursive` class.
pub closed spec fn meroitic_cursive_ranges() -> Seq<(char, char)> {
    seq![
        ('\u{109a0}', '\u{109b7}'),
        ('\u{109bc}', '\u{109cf}'),
        ('\u{109d2}', '\u{109ff}'),
    ]
}

/// Build the table of [`meroitic_cursive_ranges`].
#[verifier::rlimit(100)]
pub fn meroitic_cursive_table() -> (r: Vec<(char, char)>)
    ensures
        r@ == meroitic_cursive_ranges(),
{
    let mut v: Vec<(char, char)> = Vec::new();
    v.push(('\u{109a0}', '\u{109b7}'));
    v.push(('\u{109bc}', '\u{109cf}'));
    v.push(('\u{109d2}', '\u{109ff}'));
    proof {
        assert(v@ =~= meroitic_cursive_ranges());
    }
    v
}

/// Ranges of the `Meroitic_Hieroglyphs` class.
pub closed spec fn meroitic_hieroglyphs_ranges() -> Seq<(char, char)> {
    seq![
        ('\u{10980}', '\u{1099f}'),
    ]
}

/// Build the table of [`meroitic_hieroglyphs_ranges`].
#[verifier::rlimit(100)]
pub fn meroitic_hieroglyphs_table() -> (r: Vec<(char, char)>)
    ensures
        r@ == meroitic_hieroglyphs_ranges(),
{
    let mut v: Vec<(char, char)> = Vec::new();
    v.push(('\u{10980}', '\u{1099f}'));
    proof {
        assert(v@ =~= meroitic_hieroglyphs_ranges());
    }
    v
}

/// Ranges of the `Miao` class.
pub closed spec fn miao_ranges() -> Seq<(char, char)> {
    seq![
        ('\u{16f00}', '\u{16f4a}'),
        ('\u{16f4f}', '\u{16f87}'),
        ('\u{16f8f}', '\u{16f9f}'),
    ]
}

/// Build the table of [`miao_ranges`].
#[verifier::rlimit(100)]
pub fn miao_table() -> (r: Vec<(char, char)>)
    ensures
        r@ == miao_ranges(),
{
    let mut v: Vec<(char, char)> = Vec::new();
    v.push(('\u{16f00}', '\u{16f4a}'));
    v.push(('\u{16f4f}', '\u{16f87}'));
    v.push(('\u{16f8f}', '\u{16f9f}'));
    proof {
        assert(v@ =~= miao_ranges());
    }
    v
}

/// Ranges of the `Modi` class.
pub closed spec fn modi_ranges() -> Seq<(char, char)> {
    seq![
        ('\u{11600}', '\u{11644}'),
        ('\u{11650}', '\u{11659}'),
    ]
}

/// Build the table of [`modi_ranges`].
#[verifier::rlimit(100)]
pub fn modi_table() -> (r: Vec<(char, char)>)
    ensures
        r@ == modi_ranges(),
{
    let mut v: Vec<(char, char)> = Vec::new();
    v.push(('\u{11600}', '\u{11644}'));
    v.push(('\u{11650}', '\u{11659}'));
    proof {
        assert(v@ =~= modi_ranges());
    }
    v
}

/// Ranges of the `Mongolian` class.
pub closed spec fn mongolian_ranges() -> Seq<(char, char)> {
    seq![
        ('\u{1800}', '\u{1801}'),
        ('\u{1804}', '\u{1804}'),
        ('\u{1806}', '\u{1819}'),
        ('\u{1820}', '\u{1878}'),
        ('\u{1880}', '\u{18aa}'),
        ('\u{11660}', '\u{1166c}'),
    ]
}

/// Build the table of [`mongolian_ranges`].
#[verifier::rlimit(100)]
pub fn mongolian_table() -> (r: Vec<(char, char)>)
    ensures
        r@ == mongolian_ranges(),
{
    let mut v: Vec<(char, char)> = Vec::new();
    v.push(('\u{1800}', '\u{1801}'));
    v.push(('\u{1804}', '\u{1804}'));
    v.push(('\u{1806}', '\u{1819}'));
    v.push(('\u{1820}', '\u{1878}'));
    v.push(('\u{1880}', '\u{18aa}'));
    v.push(('\u{11660}', '\u{1166c}'));
    proof {
        assert(v@ =~= mongolian_ranges());
    }
    v
}

/// Ranges of the `Mro` class.
pub closed spec fn mro_ranges() -> Seq<(char, char)> {
    seq![
        ('\u{16a40}', '\u{16a5e}'),
        ('\u{16a60}', '\u{16a69}'),
        ('\u{16a6e}', '\u{16a6f}'),
    ]
}

/// Build the table of [`mro_ranges`].
#[verifier::rlimit(100)]
pub fn mro_table() -> (r: Vec<(char, char)>)
    ensures
        r@ == mro_ranges(),
{
    let mut v: Vec<(char, char)> = Vec::new();
    v.push(('\u{16a40}', '\u{16a5e}'));
    v.push(('\u{16a60}', '\u{16a69}'));
    v.push(('\u{16a6e}', '\u{16a6f}'));
    proof {
        assert(v@ =~= mro_ranges());
    }
    v
}

/// Ranges of the `Multani` class.
pub closed spec fn multani_ranges() -> Seq<(char, char)> {
    seq![
        ('\u{11280}', '\u{11286}'),
        ('\u{11288}', '\u{11288}'),
        ('\u{1128a}', '\u{1128d}'),
        ('\u{1128f}', '\u{1129d}'),
        ('\u{1129f}', '\u{112a9}'),
    ]
}

/// Build the table of [`multani_ranges`].
#[verifier::rlimit(100)]
pub fn multani_table() -> (r: Vec<(char, char)>)
    ensures
        r@ == multani_ranges(),
{
    let mut v: Vec<(char, char)> = Vec::new();
    v.push(('\u{11280}', '\u{11286}'));
    v.push(('\u{11288}', '\u{11288}'));
    v.push(('\u{1128a}', '\u{1128d}'));
    v.push(('\u{1128f}', '\u{1129d}'));
    v.push(('\u{1129f}', '\u{112a9}'));
    proof {
        assert(v@ =~= multani_ranges());
    }
    v
}

/// Ranges of the `Myanmar` class.
pub closed spec fn myanmar_ranges() -> Seq<(char, char)> {
    seq![
        ('\u{1000}', '\u{109f}'),
        ('\u{a9e0}', '\u{a9fe}'),
        ('\u{aa60}', '\u{aa7f}'),
        ('\u{116d0}', '\u{116e3}'),
    ]
}

/// Build the table of [`myanmar_ranges`].
#[verifier::rlimit(100)]
pub fn myanmar_table() -> (r: Vec<(char, char)>)
    ensures
        r@ == myanmar_ranges(),
{
    let mut v: Vec<(char, char)> = Vec::new();
    v.push(('\u{1000}', '\u{109f}'));
    v.push(('\u{a9e0}', '\u{a9fe}'));
    v.push(('\u{aa60}', '\u{aa7f}'));
    v.push(('\u{116d0}', '\u{116e3}'));
    proof {
        assert(v@ =~= myanmar_ranges());
    }
    v
}

/// Ranges of the `Nabataean` class.
pub closed spec fn nabataean_ranges() -> Seq<(char, char)> {
    seq![
        ('\u{10880}', '\u{1089e}'),
        ('\u{108a7}', '\u{108af}'),
    ]
}

/// Build the table of [`nabataean_ranges`].
#[verifier::rlimit(100)]
pub fn nabataean_table() -> (r: Vec<(char, char)>)
    ensures
        r@ == nabataean_ranges(),
{
    let mut v: Vec<(char, char)> = Vec::new();
    v.push(('\u{10880}', '\u{1089e}'));
    v.push(('\u{108a7}', '\u{108af}'));
    proof {
        assert(v@ =~= nabataean_ranges());
    }
    v
}

/// Ranges of the `Nag_Mundari` class.
pub closed spec fn nag_mundari_ranges() -> Seq<(char, char)> {
    seq![
        ('\u{1e4d0}', '\u{1e4f9}'),
    ]
}

/// Build the table of [`nag_mundari_ranges`].
#[verifier::rlimit(100)]
pub fn nag_mundari_table() -> (r: Vec<(char, char)>)
    ensures
        r@ == nag_mundari_ranges(),
{
    let mut v: Vec<(char, char)> = Vec::new();
    v.push(('\u{1e4d0}', '\u{1e4f9}'));
    proof {
        assert(v@ =~= nag_mundari_ranges());
    }
    v
}

/// Ranges of the `Nandinagari` class.
pub closed spec fn nandinagari_ranges() -> Seq<(char, char)> {
    seq![
        ('\u{119a0}', '\u{119a7}'),
        ('\u{119aa}', '\u{119d7}'),
        ('\u{119da}', '\u{119e4}'),
    ]
}

/// Build the table of [`nandinagari_ranges`].
#[verifier::rlimit(100)]
pub fn nandinagari_table() -> (r: Vec<(char, char)>)
    ensures
        r@ == nandinagari_ranges(),
{
    let mut v: Vec<(char, char)> = Vec::new();
    v.push(('\u{119a0}', '\u{119a7}'));
    v.push(('\u{119aa}', '\u{119d7}'));
    v.push(('\u{119da}', '\u{119e4}'));
    proof {
        assert(v@ =~= nandinagari_ranges());
    }
    v
}

/// Ranges of the `New_Tai_Lue` class.
pub closed spec fn new_tai_lue_ranges() -> Seq<(char, char)> {
    seq![
        ('\u{1980}', '\u{19ab}'),
        ('\u{19b0}', '\u{19c9}'),
        ('\u{19d0}', '\u{19da}'),
        ('\u{19de}', '\u{19df}'),
    ]
}

/// Build the table of [`new_tai_lue_ranges`].
#[verifier::rlimit(100)]
pub fn new_tai_lue_table() -> (r: Vec<(char, char)>)
    ensures
        r@ == new_tai_lue_ranges(),
{
    let mut v: Vec<(char, char)> = Vec::new();
    v.push(('\u{1980}', '\u{19ab}'));
    v.push(('\u{19b0}', '\u{19c9}'));
    v.push(('\u{19d0}', '\u{19da}'));
    v.push(('\u{19de}', '\u{19df}'));
    proof {
        assert(v@ =~= new_tai_lue_ranges());
    }
    v
}

/// Ranges of the `Newa` class.
pub closed spec fn newa_ranges() -> Seq<(char, char)> {
    seq![
        ('\u{11400}', '\u{1145b}'),
        ('\u{1145d}', '\u{11461}'),
    ]
}

/// Build the table of [`newa_ranges`].
#[verifier::rlimit(100)]
pub fn newa_table() -> (r: Vec<(char, char)>)
    ensures
        r@ == newa_ranges(),
{
    let mut v: Vec<(char, char)> = Vec::new();
    v.push(('\u{11400}', '\u{1145b}'));
    v.push(('\u{1145d}', '\u{11461}'));
    proof {
        assert(v@ =~= newa_ranges());
    }
    v
}

/// Ranges of the `Nko` class.
pub closed spec fn nko_ranges() -> Seq<(char, char)> {
    seq![
        ('\u{7c0}', '\u{7fa}'),
        ('\u{7fd}', '\u{7ff}'),
    ]
}

/// Build the table of [`nko_ranges`].
#[verifier::rlimit(100)]
pub fn nko_table() -> (r: Vec<(char, char)>)
    ensures
        r@ == nko_ranges(),
{
    let mut v: Vec<(char, char)> = Vec::new();
    v.push(('\u{7c0}', '\u{7fa}'));
    v.push(('\u{7fd}', '\u{7ff}'));
    proof {
        assert(v@ =~= nko_ranges());
    }
    v
}

/// Ranges of the `Nushu` class.
pub closed spec fn nushu_ranges() -> Seq<(char, char)> {
    seq![
        ('\u{16fe1}', '\u{16fe1}'),
        ('\u{1b170}', '\u{1b2fb}'),
    ]
}

/// Build the table of [`nushu_ranges`].
#[verifier::rlimit(100)]
pub fn nushu_table() -> (r: Vec<(char, char)>)
    ensures
        r@ == nushu_ranges(),
{
    let mut v: Vec<(char, char)> = Vec::new();
    v.push(('\u{16fe1}', '\u{16fe1}'));
    v.push(('\u{1b170}', '\u{1b2fb}'));
    proof {
        assert(v@ =~= nushu_ranges());
    }
    v
}

/// Ranges of the `Nyiakeng_Puachue_Hmong` class.
pub closed spec fn nyiakeng_puachue_hmong_ranges() -> Seq<(char, char)> {
    seq![
        ('\u{1e100}', '\u{1e12c}'),
        ('\u{1e130}', '\u{1e13d}'),
        ('\u{1e140}', '\u{1e149}'),
        ('\u{1e14e}', '\u{1e14f}'),
    ]
}

/// Build the table of [`nyiakeng_puachue_hmong_ranges`].
#[verifier::rlimit(100)]
pub fn nyiakeng_puachue_hmong_table() -> (r: Vec<(char, char)>)
    ensures
        r@ == nyiakeng_puachue_hmong_ranges(),
{
    let mut v: Vec<(char, char)> = Vec::new();
    v.push(('\u{1e100}', '\u{1e12c}'));
    v.push(('\u{1e130}', '\u{1e13d}'));
    v.push(('\u{1e140}', '\u{1e149}'));
    v.push(('\u{1e14e}', '\u{1e14f}'));
    proof {
        assert(v@ =~= nyiakeng_puachue_hmong_ranges());
    }
    v
}

/// Ranges of the `Ogham` class.
pub closed spec fn ogham_ranges() -> Seq<(char, char)> {
    seq![
        ('\u{1680}', '\u{169c}'),
    ]
}

/// Build the table of [`ogham_ranges`].
#[verifier::rlimit(100)]
pub fn ogham_table() -> (r: Vec<(char, char)>)
    ensures
        r@ == ogham_ranges(),
{
    let mut v: Vec<(char, char)> = Vec::new();
    v.push(('\u{1680}', '\u{169c}'));
    proof {
        assert(v@ =~= ogham_ranges());
    }
    v
}

/// Ranges of the `Ol_Chiki` class.
pub closed spec fn ol_chiki_ranges() -> Seq<(char, char)> {
    seq![
        ('\u{1c50}', '\u{1c7f}'),
    ]
}

/// Build the table of [`ol_chiki_ranges`].
#[verifier::rlimit(100)]
pub fn ol_chiki_table() -> (r: Vec<(char, char)>)
    ensures
        r@ == ol_chiki_ranges(),
{
    let mut v: Vec<(char, char)> = Vec::new();
    v.push(('\u{1c50}', '\u{1c7f}'));
    proof {
        assert(v@ =~= ol_chiki_ranges());
    }
    v
}

/// Ranges of the `Ol_Onal` class.
pub closed spec fn ol_onal_ranges() -> Seq<(char, char)> {
    seq![
        ('\u{1e5d0}', '\u{1e5fa}'),
        ('\u{1e5ff}', '\u{1e5ff}'),
    ]
}

/// Build the table of [`ol_onal_ranges`].
#[verifier::rlimit(100)]
pub fn ol_onal_table() -> (r: Vec<(char, char)>)
    ensures
        r@ == ol_onal_ranges(),
{
    let mut v: Vec<(char, char)> = Vec::new();
    v.push(('\u{1e5d0}', '\u{1e5fa}'));
    v.push(('\u{1e5ff}', '\u{1e5ff}'));
    proof {
        assert(v@ =~= ol_onal_ranges());
    }
    v
}

/// Ranges of the `Old_Hungarian` class.
pub closed spec fn old_hungarian_ranges() -> Seq<(char, char)> {
    seq![
        ('\u{10c80}', '\u{10cb2}'),
        ('\u{10cc0}', '\u{10cf2}'),
        ('\u{10cfa}', '\u{10cff}'),
    ]
}

/// Build the table of [`old_hungarian_ranges`].
#[verifier::rlimit(100)]
pub fn old_hungarian_table() -> (r: Vec<(char, char)>)
    ensures
        r@ == old_hungarian_ranges(),
{
    let mut v: Vec<(char, char)> = Vec::new();
    v.push(('\u{10c80}', '\u{10cb2}'));
    v.push(('\u{10cc0}', '\u{10cf2}'));
    v.push(('\u{10cfa}', '\u{10cff}'));
    proof {
        assert(v@ =~= old_hungarian_ranges());
    }
    v
}

/// Ranges of the `Old_Italic` class.
pub closed spec fn old_italic_ranges() -> Seq<(char, char)> {
    seq![
        ('\u{10300}', '\u{10323}'),
        ('\u{1032d}', '\u{1032f}'),
    ]
}

/// Build the table of [`old_italic_ranges`].
#[verifier::rlimit(100)]
pub fn old_italic_table() -> (r: Vec<(char, char)>)
    ensures
        r@ == old_italic_ranges(),
{
    let mut v: Vec<(char, char)> = Vec::new();
    v.push(('\u{10300}', '\u{10323}'));
    v.push(('\u{1032d}', '\u{1032f}'));
    proof {
        assert(v@ =~= old_italic_ranges());
    }
    v
}

/// Ranges of the `Old_North_Arabian` class.
pub closed spec fn old_north_arabian_ranges() -> Seq<(char, char)> {
    seq![
        ('\u{10a80}', '\u{10a9f}'),
    ]
}

/// Build the table of [`old_north_arabian_ranges`].
#[verifier::rlimit(100)]
pub fn old_north_arabian_table() -> (r: Vec<(char, char)>)
    ensures
        r@ == old_north_arabian_ranges(),
{
    let mut v: Vec<(char, char)> = Vec::new();
    v.push(('\u{10a80}', '\u{10a9f}'));
    proof {
        assert(v@ =~= old_north_arabian_ranges());
    }
    v
}

/// Ranges of the `Old_Permic` class.
pub closed spec fn old_permic_ranges() -> Seq<(char, char)> {
    seq![
        ('\u{10350}', '\u{1037a}'),
    ]
}

/// Build the table of [`old_permic_ranges`].
#[verifier::rlimit(100)]
pub fn old_permic_table() -> (r: Vec<(char, char)>)
    ensures
        r@ == old_permic_ranges(),
{
    let mut v: Vec<(char, char)> = Vec::new();
    v.push(('\u{10350}', '\u{1037a}'));
    proof {
        assert(v@ =~= old_permic_ranges());
    }
    v
}

/// Ranges of the `Old_Persian` class.
pub closed spec fn old_persian_ranges() -> Seq<(char, char)> {
    seq![
        ('\u{103a0}', '\u{103c3}'),
        ('\u{103c8}', '\u{103d5}'),
    ]
}

/// Build the table of [`old_persian_ranges`].
#[verifier::rlimit(100)]
pub fn old_persian_table() -> (r: Vec<(char, char)>)
    ensures
        r@ == old_persian_ranges(),
{
    let mut v: Vec<(char, char)> = Vec::new();
    v.push(('\u{103a0}', '\u{103c3}'));
    v.push(('\u{103c8}', '\u{103d5}'));
    proof {
        assert(v@ =~= old_persian_ranges());
    }
    v
}

/// Ranges of the `Old_Sogdian` class.
pub closed spec fn old_sogdian_ranges() -> Seq<(char, char)> {
    seq![
        ('\u{10f00}', '\u{10f27}'),
    ]
}

/// Build the table of [`old_sogdian_ranges`].
#[verifier::rlimit(100)]
pub fn old_sogdian_table() -> (r: Vec<(char, char)>)
    ensures
        r@ == old_sogdian_ranges(),
{
    let mut v: Vec<(char, char)> = Vec::new();
    v.push(('\u{10f00}', '\u{10f27}'));
    proof {
        assert(v@ =~= old_sogdian_ranges());
    }
    v
}

/// Ranges of the `Old_South_Arabian` class.
pub closed spec fn old_south_arabian_ranges() -> Seq<(char, char)> {
    seq![
        ('\u{10a60}', '\u{10a7f}'),
    ]
}

/// Build the table of [`old_south_arabian_ranges`].
#[verifier::rlimit(100)]
pub fn old_south_arabian_table() -> (r: Vec<(char, char)>)
    ensures
        r@ == old_south_arabian_ranges(),
{
    let mut v: Vec<(char, char)> = Vec::new();
    v.push(('\u{10a60}', '\u{10a7f}'));
    proof {
        assert(v@ =~= old_south_arabian_ranges());
    }
    v
}

/// Ranges of the `Old_Turkic` class.
pub closed spec fn old_turkic_ranges() -> Seq<(char, char)> {
    seq![
        ('\u{10c00}', '\u{10c48}'),
    ]
}

/// Build the table of [`old_turkic_ranges`].
#[verifier::rlimit(100)]
pub fn old_turkic_table() -> (r: Vec<(char, char)>)
    ensures
        r@ == old_turkic_ranges(),
{
    let mut v: Vec<(char, char)> = Vec::new();
    v.push(('\u{10c00}', '\u{10c48}'));
    proof {
        assert(v@ =~= old_turkic_ranges());
    }
    v
}

/// Ranges of the `Old_Uyghur` class.
pub closed spec fn old_uyghur_ranges() -> Seq<(char, char)> {
    seq![
        ('\u{10f70}', '\u{10f89}'),
    ]
}

/// Build the table of [`old_uyghur_ranges`].
#[verifier::rlimit(100)]
pub fn old_uyghur_table() -> (r: Vec<(char, char)>)
    ensures
        r@ == old_uyghur_ranges(),
{
    let mut v: Vec<(char, char)> = Vec::new();
    v.push(('\u{10f70}', '\u{10f89}'));
    proof {
        assert(v@ =~= old_uyghur_ranges());
    }
    v
}

/// Ranges of the `Oriya` class.
pub closed spec fn oriya_ranges() -> Seq<(char, char)> {
    seq![
        ('\u{b01}', '\u{b03}'),
        ('\u{b05}', '\u{b0c}'),
        ('\u{b0f}', '\u{b10}'),
        ('\u{b13}', '\u{b28}'),
        ('\u{b2a}', '\u{b30}'),
        ('\u{b32}', '\u{b33}'),
        ('\u{b35}', '\u{b39}'),
        ('\u{b3c}', '\u{b44}'),
        ('\u{b47}', '\u{b48}'),
        ('\u{b4b}', '\u{b4d}'),
        ('\u{b55}', '\u{b57}'),
        ('\u{b5c}', '\u{b5d}'),
        ('\u{b5f}', '\u{b63}'),
        ('\u{b66}', '\u{b77}'),
    ]
}

/// Build the table of [`oriya_ranges`].
#[verifier::rlimit(100)]
pub fn oriya_table() -> (r: Vec<(char, char)>)
    ensures
        r@ == oriya_ranges(),
{
    let mut v: Vec<(char, char)> = Vec::new();
    v.push(('\u{b01}', '\u{b03}'));
    v.push(('\u{b05}', '\u{b0c}'));
    v.push(('\u{b0f}', '\u{b10}'));
    v.push(('\u{b13}', '\u{b28}'));
    v.push(('\u{b2a}', '\u{b30}'));
    v.push(('\u{b32}', '\u{b33}'));
    v.push(('\u{b35}', '\u{b39}'));
    v.push(('\u{b3c}', '\u{b44}'));
    v.push(('\u{b47}', '\u{b48}'));
    v.push(('\u{b4b}', '\u{b4d}'));
    v.push(('\u{b55}', '\u{b57}'));
    v.push(('\u{b5c}', '\u{b5d}'));
    v.push(('\u{b5f}', '\u{b63}'));
    v.push(('\u{b66}', '\u{b77}'));
    proof {
        assert(v@ =~= oriya_ranges());
    }
    v
}

/// Ranges of the `Osage` class.
pub closed spec fn osage_ranges() -> Seq<(char, char)> {
    seq![
        ('\u{104b0}', '\u{104d3}'),
        ('\u{104d8}', '\u{104fb}'),
    ]
}

/// Build the table of [`osage_ranges`].
#[verifier::rlimit(100)]
pub fn osage_table() -> (r: Vec<(char, char)>)
    ensures
        r@ == osage_ranges(),
{
    let mut v: Vec<(char, char)> = Vec::new();
    v.push(('\u{104b0}', '\u{104d3}'));
    v.push(('\u{104d8}', '\u{104fb}'));
    proof {
        assert(v@ =~= osage_ranges());
    }
    v
}

/// Ranges of the `Osmanya` class.
pub closed spec fn osmanya_ranges() -> Seq<(char, char)> {
    seq![
        ('\u{10480}', '\u{1049d}'),
        ('\u{104a0}', '\u{104a9}'),
    ]
}

/// Build the table of [`osmanya_ranges`].
#[verifier::rlimit(100)]
pub fn osmanya_table() -> (r: Vec<(char, char)>)
    ensures
        r@ == osmanya_ranges(),
{
    let mut v: Vec<(char, char)> = Vec::new();
    v.push(('\u{10480}', '\u{1049d}'));
    v.push(('\u{104a0}', '\u{104a9}'));
    proof {
        assert(v@ =~= osmanya_ranges());
    }
    v
}

/// Ranges of the `Pahawh_Hmong` class.
pub closed spec fn pahawh_hmong_ranges() -> Seq<(char, char)> {
    seq![
        ('\u{16b00}', '\u{16b45}'),
        ('\u{16b50}', '\u{16b59}'),
        ('\u{16b5b}', '\u{16b61}'),
        ('\u{16b63}', '\u{16b77}'),
        ('\u{16b7d}', '\u{16b8f}'),
    ]
}

/// Build the table of [`pahawh_hmong_ranges`].
#[verifier::rlimit(100)]
pub fn pahawh_hmong_table() -> (r: Vec<(char, char)>)
    ensures
        r@ == pahawh_hmong_ranges(),
{
    let mut v: Vec<(char, char)> = Vec::new();
    v.push(('\u{16b00}', '\u{16b45}'));
    v.push(('\u{16b50}', '\u{16b59}'));
    v.push(('\u{16b5b}', '\u{16b61}'));
    v.push(('\u{16b63}', '\u{16b77}'));
    v.push(('\u{16b7d}', '\u{16b8f}'));
    proof {
        assert(v@ =~= pahawh_hmong_ranges());
    }
    v
}

/// Ranges of the `Palmyrene` class.
pub closed spec fn palmyrene_ranges() -> Seq<(char, char)> {
    seq![
        ('\u{10860}', '\u{1087f}'),
    ]
}

/// Build the table of [`palmyrene_ranges`].
#[verifier::rlimit(100)]
pub fn palmyrene_table() -> (r: Vec<(char, char)>)
    ensures
        r@ == palmyrene_ranges(),
{
    let mut v: Vec<(char, char)> = Vec::new();
    v.push(('\u{10860}', '\u{1087f}'));
    proof {
        assert(v@ =~= palmyrene_ranges());
    }
    v
}

/// Ranges of the `Pau_Cin_Hau` class.
pub closed spec fn pau_cin_hau_ranges() -> Seq<(char, char)> {
    seq![
        ('\u{11ac0}', '\u{11af8}'),
    ]
}

/// Build the table of [`pau_cin_hau_ranges`].
#[verifier::rlimit(100)]
pub fn pau_cin_hau_table() -> (r: Vec<(char, char)>)
    ensures
        r@ == pau_cin_hau_ranges(),
{
    let mut v: Vec<(char, char)> = Vec::new();
    v.push(('\u{11ac0}', '\u{11af8}'));
    proof {
        assert(v@ =~= pau_cin_hau_ranges());
    }
    v
}

/// Ranges of the `Phags_Pa` class.
pub closed spec fn phags_pa_ranges() -> Seq<(char, char)> {
    seq![
        ('\u{a840}', '\u{a877}'),
    ]
}

/// Build the table of [`phags_pa_ranges`].
#[verifier::rlimit(100)]
pub fn phags_pa_table() -> (r: Vec<(char, char)>)
    ensures
        r@ == phags_pa_ranges(),
{
    let mut v: Vec<(char, char)> = Vec::new();
    v.push(('\u{a840}', '\u{a877}'));
    proof {
        assert(v@ =~= phags_pa_ranges());
    }
    v
}

/// Ranges of the `Phoenician` class.
pub closed spec fn phoenician_ranges() -> Seq<(char, char)> {
    seq![
        ('\u{10900}', '\u{1091b}'),
        ('\u{1091f}', '\u{1091f}'),
    ]
}

/// Build the table of [`phoenician_ranges`].
#[verifier::rlimit(100)]
pub fn phoenician_table() -> (r: Vec<(char, char)>)
    ensures
        r@ == phoenician_ranges(),
{
    let mut v: Vec<(char, char)> = Vec::new();
    v.push(('\u{10900}', '\u{1091b}'));
    v.push(('\u{1091f}', '\u{1091f}'));
    proof {
        assert(v@ =~= phoenician_ranges());
    }
    v
}

/// Ranges of the `Psalter_Pahlavi` class.
pub closed spec fn psalter_pahlavi_ranges() -> Seq<(char, char)> {
    seq![
        ('\u{10b80}', '\u{10b91}'),
        ('\u{10b99}', '\u{10b9c}'),
        ('\u{10ba9}', '\u{10baf}'),
    ]
}

/// Build the table of [`psalter_pahlavi_ranges`].
#[verifier::rlimit(100)]
pub fn psalter_pahlavi_table() -> (r: Vec<(char, char)>)
    ensures
        r@ == psalter_pahlavi_ranges(),
{
    let mut v: Vec<(char, char)> = Vec::new();
    v.push(('\u{10b80}', '\u{10b91}'));
    v.push(('\u{10b99}', '\u{10b9c}'));
    v.push(('\u{10ba9}', '\u{10baf}'));
    proof {
        assert(v@ =~= psalter_pahlavi_ranges());
    }
    v
}

/// Ranges of the `Rejang` class.
pub closed spec fn rejang_ranges() -> Seq<(char, char)> {
    seq![
        ('\u{a930}', '\u{a953}'),
        ('\u{a95f}', '\u{a95f}'),
    ]
}

/// Build the table of [`rejang_ranges`].
#[verifier::rlimit(100)]
pub fn rejang_table() -> (r: Vec<(char, char)>)
    ensures
        r@ == rejang_ranges(),
{
    let mut v: Vec<(char, char)> = Vec::new();
    v.push(('\u{a930}', '\u{a953}'));
    v.push(('\u{a95f}', '\u{a95f}'));
    proof {
        assert(v@ =~= rejang_ranges());
    }
    v
}

/// Ranges of the `Runic` class.
pub closed spec fn runic_ranges() -> Seq<(char, char)> {
    seq![
        ('\u{16a0}', '\u{16ea}'),
        ('\u{16ee}', '\u{16f8}'),
    ]
}

/// Build the table of [`runic_ranges`].
#[verifier::rlimit(100)]
pub fn runic_table() -> (r: Vec<(char, char)>)
    ensures
        r@ == runic_ranges(),
{
    let mut v: Vec<(char, char)> = Vec::new();
    v.push(('\u{16a0}', '\u{16ea}'));
    v.push(('\u{16ee}', '\u{16f8}'));
    proof {
        assert(v@ =~= runic_ranges());
    }
    v
}

/// Ranges of the `Samaritan` class.
pub closed spec fn samaritan_ranges() -> Seq<(char, char)> {
    seq![
        ('\u{800}', '\u{82d}'),
        ('\u{830}', '\u{83e}'),
    ]
}

/// Build the table of [`samaritan_ranges`].
#[verifier::rlimit(100)]
pub fn samaritan_table() -> (r: Vec<(char, char)>)
    ensures
        r@ == samaritan_ranges(),
{
    let mut v: Vec<(char, char)> = Vec::new();
    v.push(('\u{800}', '\u{82d}'));
    v.push(('\u{830}', '\u{83e}'));
    proof {
        assert(v@ =~= samaritan_ranges());
    }
    v
}

/// Ranges of the `Saurashtra` class.
pub closed spec fn saurashtra_ranges() -> Seq<(char, char)> {
    seq![
        ('\u{a880}', '\u{a8c5}'),
        ('\u{a8ce}', '\u{a8d9}'),
    ]
}

/// Build the table of [`saurashtra_ranges`].
#[verifier::rlimit(100)]
pub fn saurashtra_table() -> (r: Vec<(char, char)>)
    ensures
        r@ == saurashtra_ranges(),
{
    let mut v: Vec<(char, char)> = Vec::new();
    v.push(('\u{a880}', '\u{a8c5}'));
    v.push(('\u{a8ce}', '\u{a8d9}'));
    proof {
        assert(v@ =~= saurashtra_ranges());
    }
    v
}

/// Ranges of the `Sharada` class.
pub closed spec fn sharada_ranges() -> Seq<(char, char)> {
    seq![
        ('\u{11180}', '\u{111df}'),
    ]
}

/// Build the table of [`sharada_ranges`].
#[verifier::rlimit(100)]
pub fn sharada_table() -> (r: Vec<(char, char)>)
    ensures
        r@ == sharada_ranges(),
{
    let mut v: Vec<(char, char)> = Vec::new();
    v.push(('\u{11180}', '\u{111df}'));
    proof {
        assert(v@ =~= sharada_ranges());
    }
    v
}

/// Ranges of the `Shavian` class.
pub closed spec fn shavian_ranges() -> Seq<(char, char)> {
    seq![
        ('\u{10450}', '\u{1047f}'),
    ]
}

/// Build the table of [`shavian_ranges`].
#[verifier::rlimit(100)]
pub fn shavian_table() -> (r: Vec<(char, char)>)
    ensures
        r@ == shavian_ranges(),
{
    let mut v: Vec<(char, char)> = Vec::new();
    v.push(('\u{10450}', '\u{1047f}'));
    proof {
        assert(v@ =~= shavian_ranges());
    }
    v
}

/// Ranges of the `Siddham` class.
pub closed spec fn siddham_ranges() -> Seq<(char, char)> {
    seq![
        ('\u{11580}', '\u{115b5}'),
        ('\u{115b8}', '\u{115dd}'),
    ]
}

/// Build the table of [`siddham_ranges`].
#[verifier::rlimit(100)]
pub fn siddham_table() -> (r: Vec<(char, char)>)
    ensures
        r@ == siddham_ranges(),
{
    let mut v: Vec<(char, char)> = Vec::new();
    v.push(('\u{11580}', '\u{115b5}'));
    v.push(('\u{115b8}', '\u{115dd}'));
    proof {
        assert(v@ =~= siddham_ranges());
    }
    v
}

/// Ranges of the `SignWriting` class.
pub closed spec fn signwriting_ranges() -> Seq<(char, char)> {
    seq![
        ('\u{1d800}', '\u{1da8b}'),
        ('\u{1da9b}', '\u{1da9f}'),
        ('\u{1daa1}', '\u{1daaf}'),
    ]
}

/// Build the table of [`signwriting_ranges`].
#[verifier::rlimit(100)]
pub fn signwriting_table() -> (r: Vec<(char, char)>)
    ensures
        r@ == signwriting_ranges(),
{
    let mut v: Vec<(char, char)> = Vec::new();
    v.push(('\u{1d800}', '\u{1da8b}'));
    v.push(('\u{1da9b}', '\u{1da9f}'));
    v.push(('\u{1daa1}', '\u{1daaf}'));
    proof {
        assert(v@ =~= signwriting_ranges());
    }
    v
}

/// Ranges of the `Sinhala` class.
pub closed spec fn sinhala_ranges() -> Seq<(char, char)> {
    seq![
        ('\u{d81}', '\u{d83}'),
        ('\u{d85}', '\u{d96}'),
        ('\u{d9a}', '\u{db1}'),
        ('\u{db3}', '\u{dbb}'),
        ('\u{dbd}', '\u{dbd}'),
        ('\u{dc0}', '\u{dc6}'),
        ('\u{dca}', '\u{dca}'),
        ('\u{dcf}', '\u{dd4}'),
        ('\u{dd6}', '\u{dd6}'),
        ('\u{dd8}', '\u{ddf}'),
        ('\u{de6}', '\u{def}'),
        ('\u{df2}', '\u{df4}'),
        ('\u{111e1}', '\u{111f4}'),
    ]
}

/// Build the table of [`sinhala_ranges`].
#[verifier::rlimit(100)]
pub fn sinhala_table() -> (r: Vec<(char, char)>)
    ensures
        r@ == sinhala_ranges(),
{
    let mut v: Vec<(char, char)> = Vec::new();
    v.push(('\u{d81}', '\u{d83}'));
    v.push(('\u{d85}', '\u{d96}'));
    v.push(('\u{d9a}', '\u{db1}'));
    v.push(('\u{db3}', '\u{dbb}'));
    v.push(('\u{dbd}', '\u{dbd}'));
    v.push(('\u{dc0}', '\u{dc6}'));
    v.push(('\u{dca}', '\u{dca}'));
    v.push(('\u{dcf}', '\u{dd4}'));
    v.push(('\u{dd6}', '\u{dd6}'));
    v.push(('\u{dd8}', '\u{ddf}'));
    v.push(('\u{de6}', '\u{def}'));
    v.push(('\u{df2}', '\u{df4}'));
    v.push(('\u{111e1}', '\u{111f4}'));
    proof {
        assert(v@ =~= sinhala_ranges());
    }
    v
}

/// Ranges of the `Sogdian` class.
pub closed spec fn sogdian_ranges() -> Seq<(char, char)> {
    seq![
        ('\u{10f30}', '\u{10f59}'),
    ]
}

/// Build the table of [`sogdian_ranges`].
#[verifier::rlimit(100)]
pub fn sogdian_table() -> (r: Vec<(char, char)>)
    ensures
        r@ == sogdian_ranges(),
{
    let mut v: Vec<(char, char)> = Vec::new();
    v.push(('\u{10f30}', '\u{10f59}'));
    proof {
        assert(v@ =~= sogdian_ranges());
    }
    v
}

/// Ranges of the `Sora_Sompeng` class.
pub closed spec fn sora_sompeng_ranges() -> Seq<(char, char)> {
    seq![
        ('\u{110d0}', '\u{110e8}'),
        ('\u{110f0}', '\u{110f9}'),
    ]
}

/// Build the table of [`sora_sompeng_ranges`].
#[verifier::rlimit(100)]
pub fn sora_sompeng_table() -> (r: Vec<(char, char)>)
    ensures
        r@ == sora_sompeng_ranges(),
{
    let mut v: Vec<(char, char)> = Vec::new();
    v.push(('\u{110d0}', '\u{110e8}'));
    v.push(('\u{110f0}', '\u{110f9}'));
    proof {
        assert(v@ =~= sora_sompeng_ranges());
    }
    v
}

/// Ranges of the `Soyombo` class.
pub closed spec fn soyombo_ranges() -> Seq<(char, char)> {
    seq![
        ('\u{11a50}', '\u{11aa2}'),
    ]
}

/// Build the table of [`soyombo_ranges`].
#[verifier::rlimit(100)]
pub fn soyombo_table() -> (r: Vec<(char, char)>)
    ensures
        r@ == soyombo_ranges(),
{
    let mut v: Vec<(char, char)> = Vec::new();
    v.push(('\u{11a50}', '\u{11aa2}'));
    proof {
        assert(v@ =~= soyombo_ranges());
    }
    v
}

/// Ranges of the `Sundanese` class.
pub closed spec fn sundanese_ranges() -> Seq<(char, char)> {
    seq![
        ('\u{1b80}', '\u{1bbf}'),
        ('\u{1cc0}', '\u{1cc7}'),
    ]
}

/// Build the table of [`sundanese_ranges`].
#[verifier::rlimit(100)]
pub fn sundanese_table() -> (r: Vec<(char, char)>)
    ensures
        r@ == sundanese_ranges(),
{
    let mut v: Vec<(char, char)> = Vec::new();
    v.push(('\u{1b80}', '\u{1bbf}'));
    v.push(('\u{1cc0}', '\u{1cc7}'));
    proof {
        assert(v@ =~= sundanese_ranges());
    }
    v
}

/// Ranges of the `Sunuwar` class.
pub closed spec fn sunuwar_ranges() -> Seq<(char, char)> {
    seq![
        ('\u{11bc0}', '\u{11be1}'),
        ('\u{11bf0}', '\u{11bf9}'),
    ]
}

/// Build the table of [`sunuwar_ranges`].
#[verifier::rlimit(100)]
pub fn sunuwar_table() -> (r: Vec<(char, char)>)
    ensures
        r@ == sunuwar_ranges(),
{
    let mut v: Vec<(char, char)> = Vec::new();
    v.push(('\u{11bc0}', '\u{11be1}'));
    v.push(('\u{11bf0}', '\u{11bf9}'));
    proof {
        assert(v@ =~= sunuwar_ranges());
    }
    v
}

/// Ranges of the `Syloti_Nagri` class.
pub closed spec fn syloti_nagri_ranges() -> Seq<(char, char)> {
    seq![
        ('\u{a800}', '\u{a82c}'),
    ]
}

/// Build the table of [`syloti_nagri_ranges`].
#[verifier::rlimit(100)]
pub fn syloti_nagri_table() -> (r: Vec<(char, char)>)
    ensures
        r@ == syloti_nagri_ranges(),
{
    let mut v: Vec<(char, char)> = Vec::new();
    v.push(('\u{a800}', '\u{a82c}'));
    proof {
        assert(v@ =~= syloti_nagri_ranges());
    }
    v
}

/// Ranges of the `Syriac` class.
pub closed spec fn syriac_ranges() -> Seq<(char, char)> {
    seq![
        ('\u{700}', '\u{70d}'),
        ('\u{70f}', '\u{74a}'),
        ('\u{74d}', '\u{74f}'),
        ('\u{860}', '\u{86a}'),
    ]
}

/// Build the table of [`syriac_ranges`].
#[verifier::rlimit(100)]
pub fn syriac_table() -> (r: Vec<(char, char)>)
    ensures
        r@ == syriac_ranges(),
{
    let mut v: Vec<(char, char)> = Vec::new();
    v.push(('\u{700}', '\u{70d}'));
    v.push(('\u{70f}', '\u{74a}'));
    v.push(('\u{74d}', '\u{74f}'));
    v.push(('\u{860}', '\u{86a}'));
    proof {
        assert(v@ =~= syriac_ranges());
    }
    v
}

/// Ranges of the `Tagalog` class.
pub closed spec fn tagalog_ranges() -> Seq<(char, char)> {
    seq![
        ('\u{1700}', '\u{1715}'),
        ('\u{171f}', '\u{171f}'),
    ]
}

/// Build the table of [`tagalog_ranges`].
#[verifier::rlimit(100)]
pub fn tagalog_table() -> (r: Vec<(char, char)>)
    ensures
        r@ == tagalog_ranges(),
{
    let mut v: Vec<(char, char)> = Vec::new();
    v.push(('\u{1700}', '\u{1715}'));
    v.push(('\u{171f}', '\u{171f}'));
    proof {
        assert(v@ =~= tagalog_ranges());
    }
    v
}

/// Ranges of the `Tagbanwa` class.
pub closed spec fn tagbanwa_ranges() -> Seq<(char, char)> {
    seq![
        ('\u{1760}', '\u{176c}'),
        ('\u{176e}', '\u{1770}'),
        ('\u{1772}', '\u{1773}'),
    ]
}

/// Build the table of [`tagbanwa_ranges`].
#[verifier::rlimit(100)]
pub fn tagbanwa_table() -> (r: Vec<(char, char)>)
    ensures
        r@ == tagbanwa_ranges(),
{
    let mut v: Vec<(char, char)> = Vec::new();
    v.push(('\u{1760}', '\u{176c}'));
    v.push(('\u{176e}', '\u{1770}'));
    v.push(('\u{1772}', '\u{1773}'));
    proof {
        assert(v@ =~= tagbanwa_ranges());
    }
    v
}

/// Ranges of the `Tai_Le` class.
pub closed spec fn tai_le_ranges() -> Seq<(char, char)> {
    seq![
        ('\u{1950}', '\u{196d}'),
        ('\u{1970}', '\u{1974}'),
    ]
}

/// Build the table of [`tai_le_ranges`].
#[verifier::rlimit(100)]
pub fn tai_le_table() -> (r: Vec<(char, char)>)
    ensures
        r@ == tai_le_ranges(),
{
    let mut v: Vec<(char, char)> = Vec::new();
    v.push(('\u{1950}', '\u{196d}'));
    v.push(('\u{1970}', '\u{1974}'));
    proof {
        assert(v@ =~= tai_le_ranges());
    }
    v
}

/// Ranges of the `Tai_Tham` class.
pub closed spec fn tai_tham_ranges() -> Seq<(char, char)> {
    seq![
        ('\u{1a20}', '\u{1a5e}'),
        ('\u{1a60}', '\u{1a7c}'),
        ('\u{1a7f}', '\u{1a89}'),
        ('\u{1a90}', '\u{1a99}'),
        ('\u{1aa0}', '\u{1aad}'),
    ]
}

/// Build the table of [`tai_tham_ranges`].
#[verifier::rlimit(100)]
pub fn tai_tham_table() -> (r: Vec<(char, char)>)
    ensures
        r@ == tai_tham_ranges(),
{
    let mut v: Vec<(char, char)> = Vec::new();
    v.push(('\u{1a20}', '\u{1a5e}'));
    v.push(('\u{1a60}', '\u{1a7c}'));
    v.push(('\u{1a7f}', '\u{1a89}'));
    v.push(('\u{1a90}', '\u{1a99}'));
    v.push(('\u{1aa0}', '\u{1aad}'));
    proof {
        assert(v@ =~= tai_tham_ranges());
    }
    v
}

/// Ranges of the `Tai_Viet` class.
pub closed spec fn tai_viet_ranges() -> Seq<(char, char)> {
    seq![
        ('\u{aa80}', '\u{aac2}'),
        ('\u{aadb}', '\u{aadf}'),
    ]
}

/// Build the table of [`tai_viet_ranges`].
#[verifier::rlimit(100)]
pub fn tai_viet_table() -> (r: Vec<(char, char)>)
    ensures
        r@ == tai_viet_ranges(),
{
    let mut v: Vec<(char, char)> = Vec::new();
    v.push(('\u{aa80}', '\u{aac2}'));
    v.push(('\u{aadb}', '\u{aadf}'));
    proof {
        assert(v@ =~= tai_viet_ranges());
    }
    v
}

/// Ranges of the `Takri` class.
pub closed spec fn takri_ranges() -> Seq<(char, char)> {
    seq![
        ('\u{11680}', '\u{116b9}'),
        ('\u{116c0}', '\u{116c9}'),
    ]
}

/// Build the table of [`takri_ranges`].
#[verifier::rlimit(100)]
pub fn takri_table() -> (r: Vec<(char, char)>)
    ensures
        r@ == takri_ranges(),
{
    let mut v: Vec<(char, char)> = Vec::new();
    v.push(('\u{11680}', '\u{116b9}'));
    v.push(('\u{116c0}', '\u{116c9}'));
    proof {
        assert(v@ =~= takri_ranges());
    }
    v
}

/// Ranges of the `Tamil` class.
pub closed spec fn tamil_ranges() -> Seq<(char, char)> {
    seq![
        ('\u{b82}', '\u{b83}'),
        ('\u{b85}', '\u{b8a}'),
        ('\u{b8e}', '\u{b90}'),
        ('\u{b92}', '\u{b95}'),
        ('\u{b99}', '\u{b9a}'),
        ('\u{b9c}', '\u{b9c}'),
        ('\u{b9e}', '\u{b9f}'),
        ('\u{ba3}', '\u{ba4}'),
        ('\u{ba8}', '\u{baa}'),
        ('\u{bae}', '\u{bb9}'),
        ('\u{bbe}', '\u{bc2}'),
        ('\u{bc6}', '\u{bc8}'),
        ('\u{bca}', '\u{bcd}'),
        ('\u{bd0}', '\u{bd0}'),
        ('\u{bd7}', '\u{bd7}'),
        ('\u{be6}', '\u{bfa}'),
        ('\u{11fc0}', '\u{11ff1}'),
        ('\u{11fff}', '\u{11fff}'),
    ]
}

/// Build the table of [`tamil_ranges`].
#[verifier::rlimit(100)]
pub fn tamil_table() -> (r: Vec<(char, char)>)
    ensures
        r@ == tamil_ranges(),
{
    let mut v: Vec<(char, char)> = Vec::new();
    v.push(('\u{b82}', '\u{b83}'));
    v.push(('\u{b85}', '\u{b8a}'));
    v.push(('\u{b8e}', '\u{b90}'));
    v.push(('\u{b92}', '\u{b95}'));
    v.push(('\u{b99}', '\u{b9a}'));
    v.push(('\u{b9c}', '\u{b9c}'));
    v.push(('\u{b9e}', '\u{b9f}'));
    v.push(('\u{ba3}', '\u{ba4}'));
    v.push(('\u{ba8}', '\u{baa}'));
    v.push(('\u{bae}', '\u{bb9}'));
    v.push(('\u{bbe}', '\u{bc2}'));
    v.push(('\u{bc6}', '\u{bc8}'));
    v.push(('\u{bca}', '\u{bcd}'));
    v.push(('\u{bd0}', '\u{bd0}'));
    v.push(('\u{bd7}', '\u{bd7}'));
    v.push(('\u{be6}', '\u{bfa}'));
    v.push(('\u{11fc0}', '\u{11ff1}'));
    v.push(('\u{11fff}', '\u{11fff}'));
    proof {
        assert(v@ =~= tamil_ranges());
    }
    v
}

/// Ranges of the `Tangsa` class.
pub closed spec fn tangsa_ranges() -> Seq<(char, char)> {
    seq![
        ('\u{16a70}', '\u{16abe}'),
        ('\u{16ac0}', '\u{16ac9}'),
    ]
}

/// Build the table of [`tangsa_ranges`].
#[verifier::rlimit(100)]
pub fn tangsa_table() -> (r: Vec<(char, char)>)
    ensures
        r@ == tangsa_ranges(),
{
    let mut v: Vec<(char, char)> = Vec::new();
    v.push(('\u{16a70}', '\u{16abe}'));
    v.push(('\u{16ac0}', '\u{16ac9}'));
    proof {
        assert(v@ =~= tangsa_ranges());
    }
    v
}

/// Ranges of the `Tangut` class.
pub closed spec fn tangut_ranges() -> Seq<(char, char)> {
    seq![
        ('\u{16fe0}', '\u{16fe0}'),
        ('\u{17000}', '\u{187f7}'),
        ('\u{18800}', '\u{18aff}'),
        ('\u{18d00}', '\u{18d08}'),
    ]
}

/// Build the table of [`tangut_ranges`].
#[verifier::rlimit(100)]
pub fn tangut_table() -> (r: Vec<(char, char)>)
    ensures
        r@ == tangut_ranges(),
{
    let mut v: Vec<(char, char)> = Vec::new();
    v.push(('\u{16fe0}', '\u{16fe0}'));
    v.push(('\u{17000}', '\u{187f7}'));
    v.push(('\u{18800}', '\u{18aff}'));
    v.push(('\u{18d00}', '\u{18d08}'));
    proof {
        assert(v@ =~= tangut_ranges());
    }
    v
}

/// Ranges of the `Telugu` class.
pub closed spec fn telugu_ranges() -> Seq<(char, char)> {
    seq![
        ('\u{c00}', '\u{c0c}'),
        ('\u{c0e}', '\u{c10}'),
        ('\u{c12}', '\u{c28}'),
        ('\u{c2a}', '\u{c39}'),
        ('\u{c3c}', '\u{c44}'),
        ('\u{c46}', '\u{c48}'),
        ('\u{c4a}', '\u{c4d}'),
        ('\u{c55}', '\u{c56}'),
        ('\u{c58}', '\u{c5a}'),
        ('\u{c5d}', '\u{c5d}'),
        ('\u{c60}', '\u{c63}'),
        ('\u{c66}', '\u{c6f}'),
        ('\u{c77}', '\u{c7f}'),
    ]
}

/// Build the table of [`telugu_ranges`].
#[verifier::rlimit(100)]
pub fn telugu_table() -> (r: Vec<(char, char)>)
    ensures
        r@ == telugu_ranges(),
{
    let mut v: Vec<(char, char)> = Vec::new();
    v.push(('\u{c00}', '\u{c0c}'));
    v.push(('\u{c0e}', '\u{c10}'));
    v.push(('\u{c12}', '\u{c28}'));
    v.push(('\u{c2a}', '\u{c39}'));
    v.push(('\u{c3c}', '\u{c44}'));
    v.push(('\u{c46}', '\u{c48}'));
    v.push(('\u{c4a}', '\u{c4d}'));
    v.push(('\u{c55}', '\u{c56}'));
    v.push(('\u{c58}', '\u{c5a}'));
    v.push(('\u{c5d}', '\u{c5d}'));
    v.push(('\u{c60}', '\u{c63}'));
    v.push(('\u{c66}', '\u{c6f}'));
    v.push(('\u{c77}', '\u{c7f}'));
    proof {
        assert(v@ =~= telugu_ranges());
    }
    v
}

/// Ranges of the `Thaana` class.
pub closed spec fn thaana_ranges() -> Seq<(char, char)> {
    seq![
        ('\u{780}', '\u{7b1}'),
    ]
}

/// Build the table of [`thaana_ranges`].
#[verifier::rlimit(100)]
pub fn thaana_table() -> (r: Vec<(char, char)>)
    ensures
        r@ == thaana_ranges(),
{
    let mut v: Vec<(char, char)> = Vec::new();
    v.push(('\u{780}', '\u{7b1}'));
    proof {
        assert(v@ =~= thaana_ranges());
    }
    v
}

/// Ranges of the `Thai` class.
pub closed spec fn thai_ranges() -> Seq<(char, char)> {
    seq![
        ('\u{e01}', '\u{e3a}'),
        ('\u{e40}', '\u{e5b}'),
    ]
}

/// Build the table of [`thai_ranges`].
#[verifier::rlimit(100)]
pub fn thai_table() -> (r: Vec<(char, char)>)
    ensures
        r@ == thai_ranges(),
{
    let mut v: Vec<(char, char)> = Vec::new();
    v.push(('\u{e01}', '\u{e3a}'));
    v.push(('\u{e40}', '\u{e5b}'));
    proof {
        assert(v@ =~= thai_ranges());
    }
    v
}

/// Ranges of the `Tibetan` class.
pub closed spec fn tibetan_ranges() -> Seq<(char, char)> {
    seq![
        ('\u{f00}', '\u{f47}'),
        ('\u{f49}', '\u{f6c}'),
        ('\u{f71}', '\u{f97}'),
        ('\u{f99}', '\u{fbc}'),
        ('\u{fbe}', '\u{fcc}'),
        ('\u{fce}', '\u{fd4}'),
        ('\u{fd9}', '\u{fda}'),
    ]
}

/// Build the table of [`tibetan_ranges`].
#[verifier::rlimit(100)]
pub fn tibetan_table() -> (r: Vec<(char, char)>)
    ensures
        r@ == tibetan_ranges(),
{
    let mut v: Vec<(char, char)> = Vec::new();
    v.push(('\u{f00}', '\u{f47}'));
    v.push(('\u{f49}', '\u{f6c}'));
    v.push(('\u{f71}', '\u{f97}'));
    v.push(('\u{f99}', '\u{fbc}'));
    v.push(('\u{fbe}', '\u{fcc}'));
    v.push(('\u{fce}', '\u{fd4}'));
    v.push(('\u{fd9}', '\u{fda}'));
    proof {
        assert(v@ =~= tibetan_ranges());
    }
    v
}

/// Ranges of the `Tifinagh` class.
pub closed spec fn tifinagh_ranges() -> Seq<(char, char)> {
    seq![
        ('\u{2d30}', '\u{2d67}'),
        ('\u{2d6f}', '\u{2d70}'),
        ('\u{2d7f}', '\u{2d7f}'),
    ]
}

/// Build the table of [`tifinagh_ranges`].
#[verifier::rlimit(100)]
pub fn tifinagh_table() -> (r: Vec<(char, char)>)
    ensures
        r@ == tifinagh_ranges(),
{
    let mut v: Vec<(char, char)> = Vec::new();
    v.push(('\u{2d30}', '\u{2d67}'));
    v.push(('\u{2d6f}', '\u{2d70}'));
    v.push(('\u{2d7f}', '\u{2d7f}'));
    proof {
        assert(v@ =~= tifinagh_ranges());
    }
    v
}

/// Ranges of the `Tirhuta` class.
pub closed spec fn tirhuta_ranges() -> Seq<(char, char)> {
    seq![
        ('\u{11480}', '\u{114c7}'),
        ('\u{114d0}', '\u{114d9}'),
    ]
}

/// Build the table of [`tirhuta_ranges`].
#[verifier::rlimit(100)]
pub fn tirhuta_table() -> (r: Vec<(char, char)>)
    ensures
        r@ == tirhuta_ranges(),
{
    let mut v: Vec<(char, char)> = Vec::new();
    v.push(('\u{11480}', '\u{114c7}'));
    v.push(('\u{114d0}', '\u{114d9}'));
    proof {
        assert(v@ =~= tirhuta_ranges());
    }
    v
}

/// Ranges of the `Todhri` class.
pub closed spec fn todhri_ranges() -> Seq<(char, char)> {
    seq![
        ('\u{105c0}', '\u{105f3}'),
    ]
}

/// Build the table of [`todhri_ranges`].
#[verifier::rlimit(100)]
pub fn todhri_table() -> (r: Vec<(char, char)>)
    ensures
        r@ == todhri_ranges(),
{
    let mut v: Vec<(char, char)> = Vec::new();
    v.push(('\u{105c0}', '\u{105f3}'));
    proof {
        assert(v@ =~= todhri_ranges());
    }
    v
}

/// Ranges of the `Toto` class.
pub closed spec fn toto_ranges() -> Seq<(char, char)> {
    seq![
        ('\u{1e290}', '\u{1e2ae}'),
    ]
}

/// Build the table of [`toto_ranges`].
#[verifier::rlimit(100)]
pub fn toto_table() -> (r: Vec<(char, char)>)
    ensures
        r@ == toto_ranges(),
{
    let mut v: Vec<(char, char)> = Vec::new();
    v.push(('\u{1e290}', '\u{1e2ae}'));
    proof {
        assert(v@ =~= toto_ranges());
    }
    v
}

/// Ranges of the `Tulu_Tigalari` class.
pub closed spec fn tulu_tigalari_ranges() -> Seq<(char, char)> {
    seq![
        ('\u{11380}', '\u{11389}'),
        ('\u{1138b}', '\u{1138b}'),
        ('\u{1138e}', '\u{1138e}'),
        ('\u{11390}', '\u{113b5}'),
        ('\u{113b7}', '\u{113c0}'),
        ('\u{113c2}', '\u{113c2}'),
        ('\u{113c5}', '\u{113c5}'),
        ('\u{113c7}', '\u{113ca}'),
        ('\u{113cc}', '\u{113d5}'),
        ('\u{113d7}', '\u{113d8}'),
        ('\u{113e1}', '\u{113e2}'),
    ]
}

/// Build the table of [`tulu_tigalari_ranges`].
#[verifier::rlimit(100)]
pub fn tulu_tigalari_table() -> (r: Vec<(char, char)>)
    ensures
        r@ == tulu_tigalari_ranges(),
{
    let mut v: Vec<(char, char)> = Vec::new();
    v.push(('\u{11380}', '\u{11389}'));
    v.push(('\u{1138b}', '\u{1138b}'));
    v.push(('\u{1138e}', '\u{1138e}'));
    v.push(('\u{11390}', '\u{113b5}'));
    v.push(('\u{113b7}', '\u{113c0}'));
    v.push(('\u{113c2}', '\u{113c2}'));
    v.push(('\u{113c5}', '\u{113c5}'));
    v.push(('\u{113c7}', '\u{113ca}'));
    v.push(('\u{113cc}', '\u{113d5}'));
    v.push(('\u{113d7}', '\u{113d8}'));
    v.push(('\u{113e1}', '\u{113e2}'));
    proof {
        assert(v@ =~= tulu_tigalari_ranges());
    }
    v
}

/// Ranges of the `Ugaritic` class.
pub closed spec fn ugaritic_ranges() -> Seq<(char, char)> {
    seq![
        ('\u{10380}', '\u{1039d}'),
        ('\u{1039f}', '\u{1039f}'),
    ]
}

/// Build the table of [`ugaritic_ranges`].
#[verifier::rlimit(100)]
pub fn ugaritic_table() -> (r: Vec<(char, char)>)
    ensures
        r@ == ugaritic_ranges(),
{
    let mut v: Vec<(char, char)> = Vec::new();
    v.push(('\u{10380}', '\u{1039d}'));
    v.push(('\u{1039f}', '\u{1039f}'));
    proof {
        assert(v@ =~= ugaritic_ranges());
    }
    v
}

/// Ranges of the `Vai` class.
pub closed spec fn vai_ranges() -> Seq<(char, char)> {
    seq![
        ('\u{a500}', '\u{a62b}'),
    ]
}

/// Build the table of [`vai_ranges`].
#[verifier::rlimit(100)]
pub fn vai_table() -> (r: Vec<(char, char)>)
    ensures
        r@ == vai_ranges(),
{
    let mut v: Vec<(char, char)> = Vec::new();
    v.push(('\u{a500}', '\u{a62b}'));
    proof {
        assert(v@ =~= vai_ranges());
    }
    v
}

/// Ranges of the `Vithkuqi` class.
pub closed spec fn vithkuqi_ranges() -> Seq<(char, char)> {
    seq![
        ('\u{10570}', '\u{1057a}'),
        ('\u{1057c}', '\u{1058a}'),
        ('\u{1058c}', '\u{10592}'),
        ('\u{10594}', '\u{10595}'),
        ('\u{10597}', '\u{105a1}'),
        ('\u{105a3}', '\u{105b1}'),
        ('\u{105b3}', '\u{105b9}'),
        ('\u{105bb}', '\u{105bc}'),
    ]
}

/// Build the table of [`vithkuqi_ranges`].
#[verifier::rlimit(100)]
pub fn vithkuqi_table() -> (r: Vec<(char, char)>)
    ensures
        r@ == vithkuqi_ranges(),
{
    let mut v: Vec<(char, char)> = Vec::new();
    v.push(('\u{10570}', '\u{1057a}'));
    v.push(('\u{1057c}', '\u{1058a}'));
    v.push(('\u{1058c}', '\u{10592}'));
    v.push(('\u{10594}', '\u{10595}'));
    v.push(('\u{10597}', '\u{105a1}'));
    v.push(('\u{105a3}', '\u{105b1}'));
    v.push(('\u{105b3}', '\u{105b9}'));
    v.push(('\u{105bb}', '\u{105bc}'));
    proof {
        assert(v@ =~= vithkuqi_ranges());
    }
    v
}

/// Ranges of the `Wancho` class.
pub closed spec fn wancho_ranges() -> Seq<(char, char)> {
    seq![
        ('\u{1e2c0}', '\u{1e2f9}'),
        ('\u{1e2ff}', '\u{1e2ff}'),
    ]
}

/// Build the table of [`wancho_ranges`].
#[verifier::rlimit(100)]
pub fn wancho_table() -> (r: Vec<(char, char)>)
    ensures
        r@ == wancho_ranges(),
{
    let mut v: Vec<(char, char)> = Vec::new();
    v.push(('\u{1e2c0}', '\u{1e2f9}'));
    v.push(('\u{1e2ff}', '\u{1e2ff}'));
    proof {
        assert(v@ =~= wancho_ranges());
    }
    v
}

/// Ranges of the `Warang_Citi` class.
pub closed spec fn warang_citi_ranges() -> Seq<(char, char)> {
    seq![
        ('\u{118a0}', '\u{118f2}'),
        ('\u{118ff}', '\u{118ff}'),
    ]
}

/// Build the table of [`warang_citi_ranges`].
#[verifier::rlimit(100)]
pub fn warang_citi_table() -> (r: Vec<(char, char)>)
    ensures
        r@ == warang_citi_ranges(),
{
    let mut v: Vec<(char, char)> = Vec::new();
    v.push(('\u{118a0}', '\u{118f2}'));
    v.push(('\u{118ff}', '\u{118ff}'));
    proof {
        assert(v@ =~= warang_citi_ranges());
    }
    v
}

/// Ranges of the `Yezidi` class.
pub closed spec fn yezidi_ranges() -> Seq<(char, char)> {
    seq![
        ('\u{10e80}', '\u{10ea9}'),
        ('\u{10eab}', '\u{10ead}'),
        ('\u{10eb0}', '\u{10eb1}'),
    ]
}

/// Build the table of [`yezidi_ranges`].
#[verifier::rlimit(100)]
pub fn yezidi_table() -> (r: Vec<(char, char)>)
    ensures
        r@ == yezidi_ranges(),
{
    let mut v: Vec<(char, char)> = Vec::new();
    v.push(('\u{10e80}', '\u{10ea9}'));
    v.push(('\u{10eab}', '\u{10ead}'));
    v.push(('\u{10eb0}', '\u{10eb1}'));
    proof {
        assert(v@ =~= yezidi_ranges());
    }
    v
}

/// Ranges of the `Yi` class.
pub closed spec fn yi_ranges() -> Seq<(char, char)> {
    seq![
        ('\u{a000}', '\u{a48c}'),
        ('\u{a490}', '\u{a4c6}'),
    ]
}

/// Build the table of [`yi_ranges`].
#[verifier::rlimit(100)]
pub fn yi_table() -> (r: Vec<(char, char)>)
    ensures
        r@ == yi_ranges(),
{
    let mut v: Vec<(char, char)> = Vec::new();
    v.push(('\u{a000}', '\u{a48c}'));
    v.push(('\u{a490}', '\u{a4c6}'));
    proof {
        assert(v@ =~= yi_ranges());
    }
    v
}

/// Ranges of the `Zanabazar_Square` class.
pub closed spec fn zanabazar_square_ranges() -> Seq<(char, char)> {
    seq![
        ('\u{11a00}', '\u{11a47}'),
    ]
}

/// Build the table of [`zanabazar_square_ranges`].
#[verifier::rlimit(100)]
pub fn zanabazar_square_table() -> (r: Vec<(char, char)>)
    ensures
        r@ == zanabazar_square_ranges(),
{
    let mut v: Vec<(char, char)> = Vec::new();
    v.push(('\u{11a00}', '\u{11a47}'));
    proof {
        assert(v@ =~= zanabazar_square_ranges());
    }
    v
}

} // verus!
