//! Recognition of symbolic class tokens: the two-character control escapes,
//! the Perl shorthand classes, and the catalog of named Unicode classes. Every
//! lookup is an exact structural match on the range list: two classes match
//! only when their range decompositions are identical.

use vstd::prelude::*;
use vstd::string::StringExecFns;

use crate::char::lemma_char_code_injective;
use crate::range_set::{comp_of, lemma_char_order, lemma_seq_card_bounds, pair_contains,
    pair_span, seq_card, wf_seq, RangeSet};
use crate::unicode_data::{adlam_ranges, adlam_table, ahom_ranges, ahom_table, anatolian_hieroglyphs_ranges, anatolian_hieroglyphs_table, arabic_ranges, arabic_table, armenian_ranges, armenian_table, ascii_hex_digit_ranges, ascii_hex_digit_table, avestan_ranges, avestan_table, balinese_ranges, balinese_table, bamum_ranges, bamum_table, bassa_vah_ranges, bassa_vah_table, batak_ranges, batak_table, bengali_ranges, bengali_table, bhaiksuki_ranges, bhaiksuki_table, bidi_control_ranges, bidi_control_table, bidi_mirrored_ranges, bidi_mirrored_table, bopomofo_ranges, bopomofo_table, brahmi_ranges, brahmi_table, braille_ranges, braille_table, buginese_ranges, buginese_table, buhid_ranges, buhid_table, canadian_aboriginal_ranges, canadian_aboriginal_table, carian_ranges, carian_table, caucasian_albanian_ranges, caucasian_albanian_table, chakma_ranges, chakma_table, cham_ranges, cham_table, cherokee_ranges, cherokee_table, chorasmian_ranges, chorasmian_table, close_punctuation_ranges, close_punctuation_table, connector_punctuation_ranges, connector_punctuation_table, control_ranges, control_table, coptic_ranges, coptic_table, cuneiform_ranges, cuneiform_table, currency_symbol_ranges, currency_symbol_table, cypriot_ranges, cypriot_table, cypro_minoan_ranges, cypro_minoan_table, cyrillic_ranges, cyrillic_table, dash_punctuation_ranges, dash_punctuation_table, dash_ranges, dash_table, decimal_number_ranges, decimal_number_table, default_ignorable_code_point_ranges, default_ignorable_code_point_table, deprecated_ranges, deprecated_table, deseret_ranges, deseret_table, devanagari_ranges, devanagari_table, dives_akuru_ranges, dives_akuru_table, dogra_ranges, dogra_table, duployan_ranges, duployan_table, egyptian_hieroglyphs_ranges, egyptian_hieroglyphs_table, elbasan_ranges, elbasan_table, elymaic_ranges, elymaic_table, emoji_component_ranges, emoji_component_table, emoji_modifier_base_ranges, emoji_modifier_base_table, emoji_modifier_ranges, emoji_modifier_table, emoji_presentation_ranges, emoji_presentation_table, enclosing_mark_ranges, enclosing_mark_table, ethiopic_ranges, ethiopic_table, extended_pictographic_ranges, extended_pictographic_table, extender_ranges, extender_table, final_punctuation_ranges, final_punctuation_table, format_ranges, format_table, garay_ranges, garay_table, georgian_ranges, georgian_table, glagolitic_ranges, glagolitic_table, gothic_ranges, gothic_table, grantha_ranges, grantha_table, grapheme_link_ranges, grapheme_link_table, greek_ranges, greek_table, gujarati_ranges, gujarati_table, gunjala_gondi_ranges, gunjala_gondi_table, gurmukhi_ranges, gurmukhi_table, gurung_khema_ranges, gurung_khema_table, han_ranges, han_table, hangul_ranges, hangul_table, hanifi_rohingya_ranges, hanifi_rohingya_table, hanunoo_ranges, hanunoo_table, hatran_ranges, hatran_table, hebrew_ranges, hebrew_table, hex_digit_ranges, hex_digit_table, hiragana_ranges, hiragana_table, hyphen_ranges, hyphen_table, id_compat_math_continue_ranges, id_compat_math_continue_table, id_compat_math_start_ranges, id_compat_math_start_table, ideographic_ranges, ideographic_table, ids_binary_operator_ranges, ids_binary_operator_table, ids_trinary_operator_ranges, ids_trinary_operator_table, ids_unary_operator_ranges, ids_unary_operator_table, imperial_aramaic_ranges, imperial_aramaic_table, inherited_ranges, inherited_table, initial_punctuation_ranges, initial_punctuation_table, inscriptional_pahlavi_ranges, inscriptional_pahlavi_table, inscriptional_parthian_ranges, inscriptional_parthian_table, javanese_ranges, javanese_table, join_control_ranges, join_control_table, kaithi_ranges, kaithi_table, kannada_ranges, kannada_table, katakana_ranges, katakana_table, kawi_ranges, kawi_table, kayah_li_ranges, kayah_li_table, kharoshthi_ranges, kharoshthi_table, khitan_small_script_ranges, khitan_small_script_table, khmer_ranges, khmer_table, khojki_ranges, khojki_table, khudawadi_ranges, khudawadi_table, kirat_rai_ranges, kirat_rai_table, lao_ranges, lao_table, latin_ranges, latin_table, lepcha_ranges, lepcha_table, letter_number_ranges, letter_number_table, limbu_ranges, limbu_table, line_separator_ranges, line_separator_table, linear_a_ranges, linear_a_table, linear_b_ranges, linear_b_table, lisu_ranges, lisu_table, logical_order_exception_ranges, logical_order_exception_table, lycian_ranges, lycian_table, lydian_ranges, lydian_table, mahajani_ranges, mahajani_table, makasar_ranges, makasar_table, malayalam_ranges, malayalam_table, mandaic_ranges, mandaic_table, manichaean_ranges, manichaean_table, marchen_ranges, marchen_table, masaram_gondi_ranges, masaram_gondi_table, math_symbol_ranges, math_symbol_table, medefaidrin_ranges, medefaidrin_table, meetei_mayek_ranges, meetei_mayek_table, mende_kikakui_ranges, mende_kikakui_table, meroitic_cursive_ranges, meroitic_cursive_table, meroitic_hieroglyphs_ranges, meroitic_hieroglyphs_table, miao_ranges, miao_table, modi_ranges, modi_table, modifier_combining_mark_ranges, modifier_combining_mark_table, modifier_letter_ranges, modifier_letter_table, modifier_symbol_ranges, modifier_symbol_table, mongolian_ranges, mongolian_table, mro_ranges, mro_table, multani_ranges, multani_table, myanmar_ranges, myanmar_table, nabataean_ranges, nabataean_table, nag_mundari_ranges, nag_mundari_table, nandinagari_ranges, nandinagari_table, new_tai_lue_ranges, new_tai_lue_table, newa_ranges, newa_table, nko_ranges, nko_table, noncharacter_code_point_ranges, noncharacter_code_point_table, nushu_ranges, nushu_table, nyiakeng_puachue_hmong_ranges, nyiakeng_puachue_hmong_table, ogham_ranges, ogham_table, ol_chiki_ranges, ol_chiki_table, ol_onal_ranges, ol_onal_table, old_hungarian_ranges, old_hungarian_table, old_italic_ranges, old_italic_table, old_north_arabian_ranges, old_north_arabian_table, old_permic_ranges, old_permic_table, old_persian_ranges, old_persian_table, old_sogdian_ranges, old_sogdian_table, old_south_arabian_ranges, old_south_arabian_table, old_turkic_ranges, old_turkic_table, old_uyghur_ranges, old_uyghur_table, open_punctuation_ranges, open_punctuation_table, oriya_ranges, oriya_table, osage_ranges, osage_table, osmanya_ranges, osmanya_table, other_default_ignorable_code_point_ranges, other_default_ignorable_code_point_table, other_grapheme_extend_ranges, other_grapheme_extend_table, other_id_continue_ranges, other_id_continue_table, other_id_start_ranges, other_id_start_table, other_lowercase_ranges, other_lowercase_table, other_number_ranges, other_number_table, other_uppercase_ranges, other_uppercase_table, pahawh_hmong_ranges, pahawh_hmong_table, palmyrene_ranges, palmyrene_table, paragraph_separator_ranges, paragraph_separator_table, pattern_syntax_ranges, pattern_syntax_table, pattern_white_space_ranges, pattern_white_space_table, pau_cin_hau_ranges, pau_cin_hau_table, perl_word_ranges, perl_word_table, phags_pa_ranges, phags_pa_table, phoenician_ranges, phoenician_table, prepended_concatenation_mark_ranges, prepended_concatenation_mark_table, private_use_ranges, private_use_table, psalter_pahlavi_ranges, psalter_pahlavi_table, quotation_mark_ranges, quotation_mark_table, radical_ranges, radical_table, regional_indicator_ranges, regional_indicator_table, rejang_ranges, rejang_table, runic_ranges, runic_table, samaritan_ranges, samaritan_table, saurashtra_ranges, saurashtra_table, sentence_terminal_ranges, sentence_terminal_table, separator_ranges, separator_table, sharada_ranges, sharada_table, shavian_ranges, shavian_table, siddham_ranges, siddham_table, signwriting_ranges, signwriting_table, sinhala_ranges, sinhala_table, soft_dotted_ranges, soft_dotted_table, sogdian_ranges, sogdian_table, sora_sompeng_ranges, sora_sompeng_table, soyombo_ranges, soyombo_table, space_separator_ranges, space_separator_table, sundanese_ranges, sundanese_table, sunuwar_ranges, sunuwar_table, syloti_nagri_ranges, syloti_nagri_table, syriac_ranges, syriac_table, tagalog_ranges, tagalog_table, tagbanwa_ranges, tagbanwa_table, tai_le_ranges, tai_le_table, tai_tham_ranges, tai_tham_table, tai_viet_ranges, tai_viet_table, takri_ranges, takri_table, tamil_ranges, tamil_table, tangsa_ranges, tangsa_table, tangut_ranges, tangut_table, telugu_ranges, telugu_table, terminal_punctuation_ranges, terminal_punctuation_table, thaana_ranges, thaana_table, thai_ranges, thai_table, tibetan_ranges, tibetan_table, tifinagh_ranges, tifinagh_table, tirhuta_ranges, tirhuta_table, titlecase_letter_ranges, titlecase_letter_table, todhri_ranges, todhri_table, toto_ranges, toto_table, tulu_tigalari_ranges, tulu_tigalari_table, ugaritic_ranges, ugaritic_table, unified_ideograph_ranges, unified_ideograph_table, vai_ranges, vai_table, variation_selector_ranges, variation_selector_table, vithkuqi_ranges, vithkuqi_table, wancho_ranges, wancho_table, warang_citi_ranges, warang_citi_table, white_space_ranges, white_space_table, yezidi_ranges, yezidi_table, yi_ranges, yi_table, zanabazar_square_ranges, zanabazar_square_table};

verus! {

/// The canonical two-character escape of the four recognized control
/// characters, or nothing.
pub open spec fn spec_identify_character(c: char) -> Option<Seq<char>> {
    if c == '\n' {
        Some("\\n"@)
    } else if c == '\r' {
        Some("\\r"@)
    } else if c == '\t' {
        Some("\\t"@)
    } else if c == '\u{b}' {
        Some("\\v"@)
    } else {
        None
    }
}

/// Return the canonical two-character escape of the four recognized control
/// characters: newline, carriage return, tab and vertical tab.
pub fn identify_character(this: char) -> (r: Option<&'static str>)
    ensures
        match r {
            Some(t) => spec_identify_character(this) == Some(t@),
            None => spec_identify_character(this) is None,
        },
{
    if this == '\n' {
        Some("\\n")
    } else if this == '\r' {
        Some("\\r")
    } else if this == '\t' {
        Some("\\t")
    } else if this == '\u{b}' {
        Some("\\v")
    } else {
        None
    }
}

/// True when the two vectors hold the same pairs.
fn ranges_eq(a: &Vec<(char, char)>, b: &Vec<(char, char)>) -> (r: bool)
    ensures
        r == (a@ == b@),
{
    if a.len() != b.len() {
        proof {
            assert(a@ != b@) by {
                if a@ == b@ {
                    assert(a@.len() == b@.len());
                }
            }
        }
        return false;
    }
    let n = a.len();
    let mut i: usize = 0;
    while i < n
        invariant
            0 <= i <= n,
            n == a@.len() == b@.len(),
            forall|j: int| 0 <= j < i ==> a@[j] == b@[j],
        decreases n - i,
    {
        let (a0, a1) = a[i];
        let (b0, b1) = b[i];
        if a0 as u32 != b0 as u32 || a1 as u32 != b1 as u32 {
            proof {
                assert(a@ != b@) by {
                    if a@ == b@ {
                        assert(a@[i as int] == b@[i as int]);
                    }
                }
            }
            return false;
        }
        proof {
            lemma_char_code_injective(a@[i as int].0, b@[i as int].0);
            lemma_char_code_injective(a@[i as int].1, b@[i as int].1);
        }
        i += 1;
    }
    proof {
        assert(a@ =~= b@);
    }
    true
}

/// The Perl shorthand for the given range list: `\d`, `\s` or `\w` when the
/// list equals the matching fixed table exactly, nothing otherwise.
pub open spec fn spec_perl_class(s: Seq<(char, char)>) -> Option<Seq<char>> {
    if s == decimal_number_ranges() {
        Some("\\d"@)
    } else if s == white_space_ranges() {
        Some("\\s"@)
    } else if s == perl_word_ranges() {
        Some("\\w"@)
    } else {
        None
    }
}

/// True when the range list is exactly the decimal-digit table.
pub fn is_perl_decimal(range: &Vec<(char, char)>) -> (r: bool)
    ensures
        r == (range@ == decimal_number_ranges()),
{
    let t = decimal_number_table();
    ranges_eq(range, &t)
}

/// True when the range list is exactly the white-space table.
pub fn is_perl_space(range: &Vec<(char, char)>) -> (r: bool)
    ensures
        r == (range@ == white_space_ranges()),
{
    let t = white_space_table();
    ranges_eq(range, &t)
}

/// True when the range list is exactly the word-character table.
pub fn is_perl_word(range: &Vec<(char, char)>) -> (r: bool)
    ensures
        r == (range@ == perl_word_ranges()),
{
    let t = perl_word_table();
    ranges_eq(range, &t)
}

/// Return the Perl shorthand class matching the range list exactly.
pub fn get_perl_class(range: &Vec<(char, char)>) -> (r: Option<&'static str>)
    ensures
        match r {
            Some(t) => spec_perl_class(range@) == Some(t@),
            None => spec_perl_class(range@) is None,
        },
{
    if is_perl_decimal(range) {
        Some("\\d")
    } else if is_perl_space(range) {
        Some("\\s")
    } else if is_perl_word(range) {
        Some("\\w")
    } else {
        None
    }
}

/// The name of the catalog class whose range list equals the given one
/// exactly, or nothing. The catalog holds the general-category,
/// boolean-property and script classes whose tables are compiled in.
pub open spec fn spec_find_class(s: Seq<(char, char)>) -> Option<Seq<char>> {
    if s == close_punctuation_ranges() {
        Some("Close_Punctuation"@)
    } else if s == connector_punctuation_ranges() {
        Some("Connector_Punctuation"@)
    } else if s == control_ranges() {
        Some("Control"@)
    } else if s == currency_symbol_ranges() {
        Some("Currency_Symbol"@)
    } else if s == dash_punctuation_ranges() {
        Some("Dash_Punctuation"@)
    } else if s == decimal_number_ranges() {
        Some("Decimal_Number"@)
    } else if s == enclosing_mark_ranges() {
        Some("Enclosing_Mark"@)
    } else if s == final_punctuation_ranges() {
        Some("Final_Punctuation"@)
    } else if s == format_ranges() {
        Some("Format"@)
    } else if s == initial_punctuation_ranges() {
        Some("Initial_Punctuation"@)
    } else if s == letter_number_ranges() {
        Some("Letter_Number"@)
    } else if s == line_separator_ranges() {
        Some("Line_Separator"@)
    } else if s == math_symbol_ranges() {
        Some("Math_Symbol"@)
    } else if s == modifier_letter_ranges() {
        Some("Modifier_Letter"@)
    } else if s == modifier_symbol_ranges() {
        Some("Modifier_Symbol"@)
    } else if s == open_punctuation_ranges() {
        Some("Open_Punctuation"@)
    } else if s == other_number_ranges() {
        Some("Other_Number"@)
    } else if s == paragraph_separator_ranges() {
        Some("Paragraph_Separator"@)
    } else if s == private_use_ranges() {
        Some("Private_Use"@)
    } else if s == separator_ranges() {
        Some("Separator"@)
    } else if s == space_separator_ranges() {
        Some("Space_Separator"@)
    } else if s == titlecase_letter_ranges() {
        Some("Titlecase_Letter"@)
    } else if s == ascii_hex_digit_ranges() {
        Some("ASCII_Hex_Digit"@)
    } else if s == bidi_control_ranges() {
        Some("Bidi_Control"@)
    } else if s == bidi_mirrored_ranges() {
        Some("Bidi_Mirrored"@)
    } else if s == dash_ranges() {
        Some("Dash"@)
    } else if s == default_ignorable_code_point_ranges() {
        Some("Default_Ignorable_Code_Point"@)
    } else if s == deprecated_ranges() {
        Some("Deprecated"@)
    } else if s == emoji_component_ranges() {
        Some("Emoji_Component"@)
    } else if s == emoji_modifier_ranges() {
        Some("Emoji_Modifier"@)
    } else if s == emoji_modifier_base_ranges() {
        Some("Emoji_Modifier_Base"@)
    } else if s == emoji_presentation_ranges() {
        Some("Emoji_Presentation"@)
    } else if s == extended_pictographic_ranges() {
        Some("Extended_Pictographic"@)
    } else if s == extender_ranges() {
        Some("Extender"@)
    } else if s == grapheme_link_ranges() {
        Some("Grapheme_Link"@)
    } else if s == hex_digit_ranges() {
        Some("Hex_Digit"@)
    } else if s == hyphen_ranges() {
        Some("Hyphen"@)
    } else if s == ids_binary_operator_ranges() {
        Some("IDS_Binary_Operator"@)
    } else if s == ids_trinary_operator_ranges() {
        Some("IDS_Trinary_Operator"@)
    } else if s == ids_unary_operator_ranges() {
        Some("IDS_Unary_Operator"@)
    } else if s == id_compat_math_continue_ranges() {
        Some("ID_Compat_Math_Continue"@)
    } else if s == id_compat_math_start_ranges() {
        Some("ID_Compat_Math_Start"@)
    } else if s == ideographic_ranges() {
        Some("Ideographic"@)
    } else if s == join_control_ranges() {
        Some("Join_Control"@)
    } else if s == logical_order_exception_ranges() {
        Some("Logical_Order_Exception"@)
    } else if s == modifier_combining_mark_ranges() {
        Some("Modifier_Combining_Mark"@)
    } else if s == noncharacter_code_point_ranges() {
        Some("Noncharacter_Code_Point"@)
    } else if s == other_default_ignorable_code_point_ranges() {
        Some("Other_Default_Ignorable_Code_Point"@)
    } else if s == other_grapheme_extend_ranges() {
        Some("Other_Grapheme_Extend"@)
    } else if s == other_id_continue_ranges() {
        Some("Other_ID_Continue"@)
    } else if s == other_id_start_ranges() {
        Some("Other_ID_Start"@)
    } else if s == other_lowercase_ranges() {
        Some("Other_Lowercase"@)
    } else if s == other_uppercase_ranges() {
        Some("Other_Uppercase"@)
    } else if s == pattern_syntax_ranges() {
        Some("Pattern_Syntax"@)
    } else if s == pattern_white_space_ranges() {
        Some("Pattern_White_Space"@)
    } else if s == prepended_concatenation_mark_ranges() {
        Some("Prepended_Concatenation_Mark"@)
    } else if s == quotation_mark_ranges() {
        Some("Quotation_Mark"@)
    } else if s == radical_ranges() {
        Some("Radical"@)
    } else if s == regional_indicator_ranges() {
        Some("Regional_Indicator"@)
    } else if s == sentence_terminal_ranges() {
        Some("Sentence_Terminal"@)
    } else if s == soft_dotted_ranges() {
        Some("Soft_Dotted"@)
    } else if s == terminal_punctuation_ranges() {
        Some("Terminal_Punctuation"@)
    } else if s == unified_ideograph_ranges() {
        Some("Unified_Ideograph"@)
    } else if s == variation_selector_ranges() {
        Some("Variation_Selector"@)
    } else if s == white_space_ranges() {
        Some("White_Space"@)
    } else if s == adlam_ranges() {
        Some("Adlam"@)
    } else if s == ahom_ranges() {
        Some("Ahom"@)
    } else if s == anatolian_hieroglyphs_ranges() {
        Some("Anatolian_Hieroglyphs"@)
    } else if s == arabic_ranges() {
        Some("Arabic"@)
    } else if s == armenian_ranges() {
        Some("Armenian"@)
    } else if s == avestan_ranges() {
        Some("Avestan"@)
    } else if s == balinese_ranges() {
        Some("Balinese"@)
    } else if s == bamum_ranges() {
        Some("Bamum"@)
    } else if s == bassa_vah_ranges() {
        Some("Bassa_Vah"@)
    } else if s == batak_ranges() {
        Some("Batak"@)
    } else if s == bengali_ranges() {
        Some("Bengali"@)
    } else if s == bhaiksuki_ranges() {
        Some("Bhaiksuki"@)
    } else if s == bopomofo_ranges() {
        Some("Bopomofo"@)
    } else if s == brahmi_ranges() {
        Some("Brahmi"@)
    } else if s == braille_ranges() {
        Some("Braille"@)
    } else if s == buginese_ranges() {
        Some("Buginese"@)
    } else if s == buhid_ranges() {
        Some("Buhid"@)
    } else if s == canadian_aboriginal_ranges() {
        Some("Canadian_Aboriginal"@)
    } else if s == carian_ranges() {
        Some("Carian"@)
    } else if s == caucasian_albanian_ranges() {
        Some("Caucasian_Albanian"@)
    } else if s == chakma_ranges() {
        Some("Chakma"@)
    } else if s == cham_ranges() {
        Some("Cham"@)
    } else if s == cherokee_ranges() {
        Some("Cherokee"@)
    } else if s == chorasmian_ranges() {
        Some("Chorasmian"@)
    } else if s == coptic_ranges() {
        Some("Coptic"@)
    } else if s == cuneiform_ranges() {
        Some("Cuneiform"@)
    } else if s == cypriot_ranges() {
        Some("Cypriot"@)
    } else if s == cypro_minoan_ranges() {
        Some("Cypro_Minoan"@)
    } else if s == cyrillic_ranges() {
        Some("Cyrillic"@)
    } else if s == deseret_ranges() {
        Some("Deseret"@)
    } else if s == devanagari_ranges() {
        Some("Devanagari"@)
    } else if s == dives_akuru_ranges() {
        Some("Dives_Akuru"@)
    } else if s == dogra_ranges() {
        Some("Dogra"@)
    } else if s == duployan_ranges() {
        Some("Duployan"@)
    } else if s == egyptian_hieroglyphs_ranges() {
        Some("Egyptian_Hieroglyphs"@)
    } else if s == elbasan_ranges() {
        Some("Elbasan"@)
    } else if s == elymaic_ranges() {
        Some("Elymaic"@)
    } else if s == ethiopic_ranges() {
        Some("Ethiopic"@)
    } else if s == garay_ranges() {
        Some("Garay"@)
    } else if s == georgian_ranges() {
        Some("Georgian"@)
    } else if s == glagolitic_ranges() {
        Some("Glagolitic"@)
    } else if s == gothic_ranges() {
        Some("Gothic"@)
    } else if s == grantha_ranges() {
        Some("Grantha"@)
    } else if s == greek_ranges() {
        Some("Greek"@)
    } else if s == gujarati_ranges() {
        Some("Gujarati"@)
    } else if s == gunjala_gondi_ranges() {
        Some("Gunjala_Gondi"@)
    } else if s == gurmukhi_ranges() {
        Some("Gurmukhi"@)
    } else if s == gurung_khema_ranges() {
        Some("Gurung_Khema"@)
    } else if s == han_ranges() {
        Some("Han"@)
    } else if s == hangul_ranges() {
        Some("Hangul"@)
    } else if s == hanifi_rohingya_ranges() {
        Some("Hanifi_Rohingya"@)
    } else if s == hanunoo_ranges() {
        Some("Hanunoo"@)
    } else if s == hatran_ranges() {
        Some("Hatran"@)
    } else if s == hebrew_ranges() {
        Some("Hebrew"@)
    } else if s == hiragana_ranges() {
        Some("Hiragana"@)
    } else if s == imperial_aramaic_ranges() {
        Some("Imperial_Aramaic"@)
    } else if s == inherited_ranges() {
        Some("Inherited"@)
    } else if s == inscriptional_pahlavi_ranges() {
        Some("Inscriptional_Pahlavi"@)
    } else if s == inscriptional_parthian_ranges() {
        Some("Inscriptional_Parthian"@)
    } else if s == javanese_ranges() {
        Some("Javanese"@)
    } else if s == kaithi_ranges() {
        Some("Kaithi"@)
    } else if s == kannada_ranges() {
        Some("Kannada"@)
    } else if s == katakana_ranges() {
        Some("Katakana"@)
    } else if s == kawi_ranges() {
        Some("Kawi"@)
    } else if s == kayah_li_ranges() {
        Some("Kayah_Li"@)
    } else if s == kharoshthi_ranges() {
        Some("Kharoshthi"@)
    } else if s == khitan_small_script_ranges() {
        Some("Khitan_Small_Script"@)
    } else if s == khmer_ranges() {
        Some("Khmer"@)
    } else if s == khojki_ranges() {
        Some("Khojki"@)
    } else if s == khudawadi_ranges() {
        Some("Khudawadi"@)
    } else if s == kirat_rai_ranges() {
        Some("Kirat_Rai"@)
    } else if s == lao_ranges() {
        Some("Lao"@)
    } else if s == latin_ranges() {
        Some("Latin"@)
    } else if s == lepcha_ranges() {
        Some("Lepcha"@)
    } else if s == limbu_ranges() {
        Some("Limbu"@)
    } else if s == linear_a_ranges() {
        Some("Linear_A"@)
    } else if s == linear_b_ranges() {
        Some("Linear_B"@)
    } else if s == lisu_ranges() {
        Some("Lisu"@)
    } else if s == lycian_ranges() {
        Some("Lycian"@)
    } else if s == lydian_ranges() {
        Some("Lydian"@)
    } else if s == mahajani_ranges() {
        Some("Mahajani"@)
    } else if s == makasar_ranges() {
        Some("Makasar"@)
    } else if s == malayalam_ranges() {
        Some("Malayalam"@)
    } else if s == mandaic_ranges() {
        Some("Mandaic"@)
    } else if s == manichaean_ranges() {
        Some("Manichaean"@)
    } else if s == marchen_ranges() {
        Some("Marchen"@)
    } else if s == masaram_gondi_ranges() {
        Some("Masaram_Gondi"@)
    } else if s == medefaidrin_ranges() {
        Some("Medefaidrin"@)
    } else if s == meetei_mayek_ranges() {
        Some("Meetei_Mayek"@)
    } else if s == mende_kikakui_ranges() {
        Some("Mende_Kikakui"@)
    } else if s == meroitic_cursive_ranges() {
        Some("Meroitic_Cursive"@)
    } else if s == meroitic_hieroglyphs_ranges() {
        Some("Meroitic_Hieroglyphs"@)
    } else if s == miao_ranges() {
        Some("Miao"@)
    } else if s == modi_ranges() {
        Some("Modi"@)
    } else if s == mongolian_ranges() {
        Some("Mongolian"@)
    } else if s == mro_ranges() {
        Some("Mro"@)
    } else if s == multani_ranges() {
        Some("Multani"@)
    } else if s == myanmar_ranges() {
        Some("Myanmar"@)
    } else if s == nabataean_ranges() {
        Some("Nabataean"@)
    } else if s == nag_mundari_ranges() {
        Some("Nag_Mundari"@)
    } else if s == nandinagari_ranges() {
        Some("Nandinagari"@)
    } else if s == new_tai_lue_ranges() {
        Some("New_Tai_Lue"@)
    } else if s == newa_ranges() {
        Some("Newa"@)
    } else if s == nko_ranges() {
        Some("Nko"@)
    } else if s == nushu_ranges() {
        Some("Nushu"@)
    } else if s == nyiakeng_puachue_hmong_ranges() {
        Some("Nyiakeng_Puachue_Hmong"@)
    } else if s == ogham_ranges() {
        Some("Ogham"@)
    } else if s == ol_chiki_ranges() {
        Some("Ol_Chiki"@)
    } else if s == ol_onal_ranges() {
        Some("Ol_Onal"@)
    } else if s == old_hungarian_ranges() {
        Some("Old_Hungarian"@)
    } else if s == old_italic_ranges() {
        Some("Old_Italic"@)
    } else if s == old_north_arabian_ranges() {
        Some("Old_North_Arabian"@)
    } else if s == old_permic_ranges() {
        Some("Old_Permic"@)
    } else if s == old_persian_ranges() {
        Some("Old_Persian"@)
    } else if s == old_sogdian_ranges() {
        Some("Old_Sogdian"@)
    } else if s == old_south_arabian_ranges() {
        Some("Old_South_Arabian"@)
    } else if s == old_turkic_ranges() {
        Some("Old_Turkic"@)
    } else if s == old_uyghur_ranges() {
        Some("Old_Uyghur"@)
    } else if s == oriya_ranges() {
        Some("Oriya"@)
    } else if s == osage_ranges() {
        Some("Osage"@)
    } else if s == osmanya_ranges() {
        Some("Osmanya"@)
    } else if s == pahawh_hmong_ranges() {
        Some("Pahawh_Hmong"@)
    } else if s == palmyrene_ranges() {
        Some("Palmyrene"@)
    } else if s == pau_cin_hau_ranges() {
        Some("Pau_Cin_Hau"@)
    } else if s == phags_pa_ranges() {
        Some("Phags_Pa"@)
    } else if s == phoenician_ranges() {
        Some("Phoenician"@)
    } else if s == psalter_pahlavi_ranges() {
        Some("Psalter_Pahlavi"@)
    } else if s == rejang_ranges() {
        Some("Rejang"@)
    } else if s == runic_ranges() {
        Some("Runic"@)
    } else if s == samaritan_ranges() {
        Some("Samaritan"@)
    } else if s == saurashtra_ranges() {
        Some("Saurashtra"@)
    } else if s == sharada_ranges() {
        Some("Sharada"@)
    } else if s == shavian_ranges() {
        Some("Shavian"@)
    } else if s == siddham_ranges() {
        Some("Siddham"@)
    } else if s == signwriting_ranges() {
        Some("SignWriting"@)
    } else if s == sinhala_ranges() {
        Some("Sinhala"@)
    } else if s == sogdian_ranges() {
        Some("Sogdian"@)
    } else if s == sora_sompeng_ranges() {
        Some("Sora_Sompeng"@)
    } else if s == soyombo_ranges() {
        Some("Soyombo"@)
    } else if s == sundanese_ranges() {
        Some("Sundanese"@)
    } else if s == sunuwar_ranges() {
        Some("Sunuwar"@)
    } else if s == syloti_nagri_ranges() {
        Some("Syloti_Nagri"@)
    } else if s == syriac_ranges() {
        Some("Syriac"@)
    } else if s == tagalog_ranges() {
        Some("Tagalog"@)
    } else if s == tagbanwa_ranges() {
        Some("Tagbanwa"@)
    } else if s == tai_le_ranges() {
        Some("Tai_Le"@)
    } else if s == tai_tham_ranges() {
        Some("Tai_Tham"@)
    } else if s == tai_viet_ranges() {
        Some("Tai_Viet"@)
    } else if s == takri_ranges() {
        Some("Takri"@)
    } else if s == tamil_ranges() {
        Some("Tamil"@)
    } else if s == tangsa_ranges() {
        Some("Tangsa"@)
    } else if s == tangut_ranges() {
        Some("Tangut"@)
    } else if s == telugu_ranges() {
        Some("Telugu"@)
    } else if s == thaana_ranges() {
        Some("Thaana"@)
    } else if s == thai_ranges() {
        Some("Thai"@)
    } else if s == tibetan_ranges() {
        Some("Tibetan"@)
    } else if s == tifinagh_ranges() {
        Some("Tifinagh"@)
    } else if s == tirhuta_ranges() {
        Some("Tirhuta"@)
    } else if s == todhri_ranges() {
        Some("Todhri"@)
    } else if s == toto_ranges() {
        Some("Toto"@)
    } else if s == tulu_tigalari_ranges() {
        Some("Tulu_Tigalari"@)
    } else if s == ugaritic_ranges() {
        Some("Ugaritic"@)
    } else if s == vai_ranges() {
        Some("Vai"@)
    } else if s == vithkuqi_ranges() {
        Some("Vithkuqi"@)
    } else if s == wancho_ranges() {
        Some("Wancho"@)
    } else if s == warang_citi_ranges() {
        Some("Warang_Citi"@)
    } else if s == yezidi_ranges() {
        Some("Yezidi"@)
    } else if s == yi_ranges() {
        Some("Yi"@)
    } else if s == zanabazar_square_ranges() {
        Some("Zanabazar_Square"@)
    } else {
        None
    }
}

/// Look the range list up in the catalog of named classes; the match is
/// exact and the first matching entry wins.
pub fn find_class(ranges: &Vec<(char, char)>) -> (r: Option<&'static str>)
    ensures
        match r {
            Some(n) => spec_find_class(ranges@) == Some(n@),
            None => spec_find_class(ranges@) is None,
        },
{
    let t = close_punctuation_table();
    if ranges_eq(ranges, &t) {
        return Some("Close_Punctuation");
    }
    let t = connector_punctuation_table();
    if ranges_eq(ranges, &t) {
        return Some("Connector_Punctuation");
    }
    let t = control_table();
    if ranges_eq(ranges, &t) {
        return Some("Control");
    }
    let t = currency_symbol_table();
    if ranges_eq(ranges, &t) {
        return Some("Currency_Symbol");
    }
    let t = dash_punctuation_table();
    if ranges_eq(ranges, &t) {
        return Some("Dash_Punctuation");
    }
    let t = decimal_number_table();
    if ranges_eq(ranges, &t) {
        return Some("Decimal_Number");
    }
    let t = enclosing_mark_table();
    if ranges_eq(ranges, &t) {
        return Some("Enclosing_Mark");
    }
    let t = final_punctuation_table();
    if ranges_eq(ranges, &t) {
        return Some("Final_Punctuation");
    }
    let t = format_table();
    if ranges_eq(ranges, &t) {
        return Some("Format");
    }
    let t = initial_punctuation_table();
    if ranges_eq(ranges, &t) {
        return Some("Initial_Punctuation");
    }
    let t = letter_number_table();
    if ranges_eq(ranges, &t) {
        return Some("Letter_Number");
    }
    let t = line_separator_table();
    if ranges_eq(ranges, &t) {
        return Some("Line_Separator");
    }
    let t = math_symbol_table();
    if ranges_eq(ranges, &t) {
        return Some("Math_Symbol");
    }
    let t = modifier_letter_table();
    if ranges_eq(ranges, &t) {
        return Some("Modifier_Letter");
    }
    let t = modifier_symbol_table();
    if ranges_eq(ranges, &t) {
        return Some("Modifier_Symbol");
    }
    let t = open_punctuation_table();
    if ranges_eq(ranges, &t) {
        return Some("Open_Punctuation");
    }
    let t = other_number_table();
    if ranges_eq(ranges, &t) {
        return Some("Other_Number");
    }
    let t = paragraph_separator_table();
    if ranges_eq(ranges, &t) {
        return Some("Paragraph_Separator");
    }
    let t = private_use_table();
    if ranges_eq(ranges, &t) {
        return Some("Private_Use");
    }
    let t = separator_table();
    if ranges_eq(ranges, &t) {
        return Some("Separator");
    }
    let t = space_separator_table();
    if ranges_eq(ranges, &t) {
        return Some("Space_Separator");
    }
    let t = titlecase_letter_table();
    if ranges_eq(ranges, &t) {
        return Some("Titlecase_Letter");
    }
    let t = ascii_hex_digit_table();
    if ranges_eq(ranges, &t) {
        return Some("ASCII_Hex_Digit");
    }
    let t = bidi_control_table();
    if ranges_eq(ranges, &t) {
        return Some("Bidi_Control");
    }
    let t = bidi_mirrored_table();
    if ranges_eq(ranges, &t) {
        return Some("Bidi_Mirrored");
    }
    let t = dash_table();
    if ranges_eq(ranges, &t) {
        return Some("Dash");
    }
    let t = default_ignorable_code_point_table();
    if ranges_eq(ranges, &t) {
        return Some("Default_Ignorable_Code_Point");
    }
    let t = deprecated_table();
    if ranges_eq(ranges, &t) {
        return Some("Deprecated");
    }
    let t = emoji_component_table();
    if ranges_eq(ranges, &t) {
        return Some("Emoji_Component");
    }
    let t = emoji_modifier_table();
    if ranges_eq(ranges, &t) {
        return Some("Emoji_Modifier");
    }
    let t = emoji_modifier_base_table();
    if ranges_eq(ranges, &t) {
        return Some("Emoji_Modifier_Base");
    }
    let t = emoji_presentation_table();
    if ranges_eq(ranges, &t) {
        return Some("Emoji_Presentation");
    }
    let t = extended_pictographic_table();
    if ranges_eq(ranges, &t) {
        return Some("Extended_Pictographic");
    }
    let t = extender_table();
    if ranges_eq(ranges, &t) {
        return Some("Extender");
    }
    let t = grapheme_link_table();
    if ranges_eq(ranges, &t) {
        return Some("Grapheme_Link");
    }
    let t = hex_digit_table();
    if ranges_eq(ranges, &t) {
        return Some("Hex_Digit");
    }
    let t = hyphen_table();
    if ranges_eq(ranges, &t) {
        return Some("Hyphen");
    }
    let t = ids_binary_operator_table();
    if ranges_eq(ranges, &t) {
        return Some("IDS_Binary_Operator");
    }
    let t = ids_trinary_operator_table();
    if ranges_eq(ranges, &t) {
        return Some("IDS_Trinary_Operator");
    }
    let t = ids_unary_operator_table();
    if ranges_eq(ranges, &t) {
        return Some("IDS_Unary_Operator");
    }
    let t = id_compat_math_continue_table();
    if ranges_eq(ranges, &t) {
        return Some("ID_Compat_Math_Continue");
    }
    let t = id_compat_math_start_table();
    if ranges_eq(ranges, &t) {
        return Some("ID_Compat_Math_Start");
    }
    let t = ideographic_table();
    if ranges_eq(ranges, &t) {
        return Some("Ideographic");
    }
    let t = join_control_table();
    if ranges_eq(ranges, &t) {
        return Some("Join_Control");
    }
    let t = logical_order_exception_table();
    if ranges_eq(ranges, &t) {
        return Some("Logical_Order_Exception");
    }
    let t = modifier_combining_mark_table();
    if ranges_eq(ranges, &t) {
        return Some("Modifier_Combining_Mark");
    }
    let t = noncharacter_code_point_table();
    if ranges_eq(ranges, &t) {
        return Some("Noncharacter_Code_Point");
    }
    let t = other_default_ignorable_code_point_table();
    if ranges_eq(ranges, &t) {
        return Some("Other_Default_Ignorable_Code_Point");
    }
    let t = other_grapheme_extend_table();
    if ranges_eq(ranges, &t) {
        return Some("Other_Grapheme_Extend");
    }
    let t = other_id_continue_table();
    if ranges_eq(ranges, &t) {
        return Some("Other_ID_Continue");
    }
    let t = other_id_start_table();
    if ranges_eq(ranges, &t) {
        return Some("Other_ID_Start");
    }
    let t = other_lowercase_table();
    if ranges_eq(ranges, &t) {
        return Some("Other_Lowercase");
    }
    let t = other_uppercase_table();
    if ranges_eq(ranges, &t) {
        return Some("Other_Uppercase");
    }
    let t = pattern_syntax_table();
    if ranges_eq(ranges, &t) {
        return Some("Pattern_Syntax");
    }
    let t = pattern_white_space_table();
    if ranges_eq(ranges, &t) {
        return Some("Pattern_White_Space");
    }
    let t = prepended_concatenation_mark_table();
    if ranges_eq(ranges, &t) {
        return Some("Prepended_Concatenation_Mark");
    }
    let t = quotation_mark_table();
    if ranges_eq(ranges, &t) {
        return Some("Quotation_Mark");
    }
    let t = radical_table();
    if ranges_eq(ranges, &t) {
        return Some("Radical");
    }
    let t = regional_indicator_table();
    if ranges_eq(ranges, &t) {
        return Some("Regional_Indicator");
    }
    let t = sentence_terminal_table();
    if ranges_eq(ranges, &t) {
        return Some("Sentence_Terminal");
    }
    let t = soft_dotted_table();
    if ranges_eq(ranges, &t) {
        return Some("Soft_Dotted");
    }
    let t = terminal_punctuation_table();
    if ranges_eq(ranges, &t) {
        return Some("Terminal_Punctuation");
    }
    let t = unified_ideograph_table();
    if ranges_eq(ranges, &t) {
        return Some("Unified_Ideograph");
    }
    let t = variation_selector_table();
    if ranges_eq(ranges, &t) {
        return Some("Variation_Selector");
    }
    let t = white_space_table();
    if ranges_eq(ranges, &t) {
        return Some("White_Space");
    }
    let t = adlam_table();
    if ranges_eq(ranges, &t) {
        return Some("Adlam");
    }
    let t = ahom_table();
    if ranges_eq(ranges, &t) {
        return Some("Ahom");
    }
    let t = anatolian_hieroglyphs_table();
    if ranges_eq(ranges, &t) {
        return Some("Anatolian_Hieroglyphs");
    }
    let t = arabic_table();
    if ranges_eq(ranges, &t) {
        return Some("Arabic");
    }
    let t = armenian_table();
    if ranges_eq(ranges, &t) {
        return Some("Armenian");
    }
    let t = avestan_table();
    if ranges_eq(ranges, &t) {
        return Some("Avestan");
    }
    let t = balinese_table();
    if ranges_eq(ranges, &t) {
        return Some("Balinese");
    }
    let t = bamum_table();
    if ranges_eq(ranges, &t) {
        return Some("Bamum");
    }
    let t = bassa_vah_table();
    if ranges_eq(ranges, &t) {
        return Some("Bassa_Vah");
    }
    let t = batak_table();
    if ranges_eq(ranges, &t) {
        return Some("Batak");
    }
    let t = bengali_table();
    if ranges_eq(ranges, &t) {
        return Some("Bengali");
    }
    let t = bhaiksuki_table();
    if ranges_eq(ranges, &t) {
        return Some("Bhaiksuki");
    }
    let t = bopomofo_table();
    if ranges_eq(ranges, &t) {
        return Some("Bopomofo");
    }
    let t = brahmi_table();
    if ranges_eq(ranges, &t) {
        return Some("Brahmi");
    }
    let t = braille_table();
    if ranges_eq(ranges, &t) {
        return Some("Braille");
    }
    let t = buginese_table();
    if ranges_eq(ranges, &t) {
        return Some("Buginese");
    }
    let t = buhid_table();
    if ranges_eq(ranges, &t) {
        return Some("Buhid");
    }
    let t = canadian_aboriginal_table();
    if ranges_eq(ranges, &t) {
        return Some("Canadian_Aboriginal");
    }
    let t = carian_table();
    if ranges_eq(ranges, &t) {
        return Some("Carian");
    }
    let t = caucasian_albanian_table();
    if ranges_eq(ranges, &t) {
        return Some("Caucasian_Albanian");
    }
    let t = chakma_table();
    if ranges_eq(ranges, &t) {
        return Some("Chakma");
    }
    let t = cham_table();
    if ranges_eq(ranges, &t) {
        return Some("Cham");
    }
    let t = cherokee_table();
    if ranges_eq(ranges, &t) {
        return Some("Cherokee");
    }
    let t = chorasmian_table();
    if ranges_eq(ranges, &t) {
        return Some("Chorasmian");
    }
    let t = coptic_table();
    if ranges_eq(ranges, &t) {
        return Some("Coptic");
    }
    let t = cuneiform_table();
    if ranges_eq(ranges, &t) {
        return Some("Cuneiform");
    }
    let t = cypriot_table();
    if ranges_eq(ranges, &t) {
        return Some("Cypriot");
    }
    let t = cypro_minoan_table();
    if ranges_eq(ranges, &t) {
        return Some("Cypro_Minoan");
    }
    let t = cyrillic_table();
    if ranges_eq(ranges, &t) {
        return Some("Cyrillic");
    }
    let t = deseret_table();
    if ranges_eq(ranges, &t) {
        return Some("Deseret");
    }
    let t = devanagari_table();
    if ranges_eq(ranges, &t) {
        return Some("Devanagari");
    }
    let t = dives_akuru_table();
    if ranges_eq(ranges, &t) {
        return Some("Dives_Akuru");
    }
    let t = dogra_table();
    if ranges_eq(ranges, &t) {
        return Some("Dogra");
    }
    let t = duployan_table();
    if ranges_eq(ranges, &t) {
        return Some("Duployan");
    }
    let t = egyptian_hieroglyphs_table();
    if ranges_eq(ranges, &t) {
        return Some("Egyptian_Hieroglyphs");
    }
    let t = elbasan_table();
    if ranges_eq(ranges, &t) {
        return Some("Elbasan");
    }
    let t = elymaic_table();
    if ranges_eq(ranges, &t) {
        return Some("Elymaic");
    }
    let t = ethiopic_table();
    if ranges_eq(ranges, &t) {
        return Some("Ethiopic");
    }
    let t = garay_table();
    if ranges_eq(ranges, &t) {
        return Some("Garay");
    }
    let t = georgian_table();
    if ranges_eq(ranges, &t) {
        return Some("Georgian");
    }
    let t = glagolitic_table();
    if ranges_eq(ranges, &t) {
        return Some("Glagolitic");
    }
    let t = gothic_table();
    if ranges_eq(ranges, &t) {
        return Some("Gothic");
    }
    let t = grantha_table();
    if ranges_eq(ranges, &t) {
        return Some("Grantha");
    }
    let t = greek_table();
    if ranges_eq(ranges, &t) {
        return Some("Greek");
    }
    let t = gujarati_table();
    if ranges_eq(ranges, &t) {
        return Some("Gujarati");
    }
    let t = gunjala_gondi_table();
    if ranges_eq(ranges, &t) {
        return Some("Gunjala_Gondi");
    }
    let t = gurmukhi_table();
    if ranges_eq(ranges, &t) {
        return Some("Gurmukhi");
    }
    let t = gurung_khema_table();
    if ranges_eq(ranges, &t) {
        return Some("Gurung_Khema");
    }
    let t = han_table();
    if ranges_eq(ranges, &t) {
        return Some("Han");
    }
    let t = hangul_table();
    if ranges_eq(ranges, &t) {
        return Some("Hangul");
    }
    let t = hanifi_rohingya_table();
    if ranges_eq(ranges, &t) {
        return Some("Hanifi_Rohingya");
    }
    let t = hanunoo_table();
    if ranges_eq(ranges, &t) {
        return Some("Hanunoo");
    }
    let t = hatran_table();
    if ranges_eq(ranges, &t) {
        return Some("Hatran");
    }
    let t = hebrew_table();
    if ranges_eq(ranges, &t) {
        return Some("Hebrew");
    }
    let t = hiragana_table();
    if ranges_eq(ranges, &t) {
        return Some("Hiragana");
    }
    let t = imperial_aramaic_table();
    if ranges_eq(ranges, &t) {
        return Some("Imperial_Aramaic");
    }
    let t = inherited_table();
    if ranges_eq(ranges, &t) {
        return Some("Inherited");
    }
    let t = inscriptional_pahlavi_table();
    if ranges_eq(ranges, &t) {
        return Some("Inscriptional_Pahlavi");
    }
    let t = inscriptional_parthian_table();
    if ranges_eq(ranges, &t) {
        return Some("Inscriptional_Parthian");
    }
    let t = javanese_table();
    if ranges_eq(ranges, &t) {
        return Some("Javanese");
    }
    let t = kaithi_table();
    if ranges_eq(ranges, &t) {
        return Some("Kaithi");
    }
    let t = kannada_table();
    if ranges_eq(ranges, &t) {
        return Some("Kannada");
    }
    let t = katakana_table();
    if ranges_eq(ranges, &t) {
        return Some("Katakana");
    }
    let t = kawi_table();
    if ranges_eq(ranges, &t) {
        return Some("Kawi");
    }
    let t = kayah_li_table();
    if ranges_eq(ranges, &t) {
        return Some("Kayah_Li");
    }
    let t = kharoshthi_table();
    if ranges_eq(ranges, &t) {
        return Some("Kharoshthi");
    }
    let t = khitan_small_script_table();
    if ranges_eq(ranges, &t) {
        return Some("Khitan_Small_Script");
    }
    let t = khmer_table();
    if ranges_eq(ranges, &t) {
        return Some("Khmer");
    }
    let t = khojki_table();
    if ranges_eq(ranges, &t) {
        return Some("Khojki");
    }
    let t = khudawadi_table();
    if ranges_eq(ranges, &t) {
        return Some("Khudawadi");
    }
    let t = kirat_rai_table();
    if ranges_eq(ranges, &t) {
        return Some("Kirat_Rai");
    }
    let t = lao_table();
    if ranges_eq(ranges, &t) {
        return Some("Lao");
    }
    let t = latin_table();
    if ranges_eq(ranges, &t) {
        return Some("Latin");
    }
    let t = lepcha_table();
    if ranges_eq(ranges, &t) {
        return Some("Lepcha");
    }
    let t = limbu_table();
    if ranges_eq(ranges, &t) {
        return Some("Limbu");
    }
    let t = linear_a_table();
    if ranges_eq(ranges, &t) {
        return Some("Linear_A");
    }
    let t = linear_b_table();
    if ranges_eq(ranges, &t) {
        return Some("Linear_B");
    }
    let t = lisu_table();
    if ranges_eq(ranges, &t) {
        return Some("Lisu");
    }
    let t = lycian_table();
    if ranges_eq(ranges, &t) {
        return Some("Lycian");
    }
    let t = lydian_table();
    if ranges_eq(ranges, &t) {
        return Some("Lydian");
    }
    let t = mahajani_table();
    if ranges_eq(ranges, &t) {
        return Some("Mahajani");
    }
    let t = makasar_table();
    if ranges_eq(ranges, &t) {
        return Some("Makasar");
    }
    let t = malayalam_table();
    if ranges_eq(ranges, &t) {
        return Some("Malayalam");
    }
    let t = mandaic_table();
    if ranges_eq(ranges, &t) {
        return Some("Mandaic");
    }
    let t = manichaean_table();
    if ranges_eq(ranges, &t) {
        return Some("Manichaean");
    }
    let t = marchen_table();
    if ranges_eq(ranges, &t) {
        return Some("Marchen");
    }
    let t = masaram_gondi_table();
    if ranges_eq(ranges, &t) {
        return Some("Masaram_Gondi");
    }
    let t = medefaidrin_table();
    if ranges_eq(ranges, &t) {
        return Some("Medefaidrin");
    }
    let t = meetei_mayek_table();
    if ranges_eq(ranges, &t) {
        return Some("Meetei_Mayek");
    }
    let t = mende_kikakui_table();
    if ranges_eq(ranges, &t) {
        return Some("Mende_Kikakui");
    }
    let t = meroitic_cursive_table();
    if ranges_eq(ranges, &t) {
        return Some("Meroitic_Cursive");
    }
    let t = meroitic_hieroglyphs_table();
    if ranges_eq(ranges, &t) {
        return Some("Meroitic_Hieroglyphs");
    }
    let t = miao_table();
    if ranges_eq(ranges, &t) {
        return Some("Miao");
    }
    let t = modi_table();
    if ranges_eq(ranges, &t) {
        return Some("Modi");
    }
    let t = mongolian_table();
    if ranges_eq(ranges, &t) {
        return Some("Mongolian");
    }
    let t = mro_table();
    if ranges_eq(ranges, &t) {
        return Some("Mro");
    }
    let t = multani_table();
    if ranges_eq(ranges, &t) {
        return Some("Multani");
    }
    let t = myanmar_table();
    if ranges_eq(ranges, &t) {
        return Some("Myanmar");
    }
    let t = nabataean_table();
    if ranges_eq(ranges, &t) {
        return Some("Nabataean");
    }
    let t = nag_mundari_table();
    if ranges_eq(ranges, &t) {
        return Some("Nag_Mundari");
    }
    let t = nandinagari_table();
    if ranges_eq(ranges, &t) {
        return Some("Nandinagari");
    }
    let t = new_tai_lue_table();
    if ranges_eq(ranges, &t) {
        return Some("New_Tai_Lue");
    }
    let t = newa_table();
    if ranges_eq(ranges, &t) {
        return Some("Newa");
    }
    let t = nko_table();
    if ranges_eq(ranges, &t) {
        return Some("Nko");
    }
    let t = nushu_table();
    if ranges_eq(ranges, &t) {
        return Some("Nushu");
    }
    let t = nyiakeng_puachue_hmong_table();
    if ranges_eq(ranges, &t) {
        return Some("Nyiakeng_Puachue_Hmong");
    }
    let t = ogham_table();
    if ranges_eq(ranges, &t) {
        return Some("Ogham");
    }
    let t = ol_chiki_table();
    if ranges_eq(ranges, &t) {
        return Some("Ol_Chiki");
    }
    let t = ol_onal_table();
    if ranges_eq(ranges, &t) {
        return Some("Ol_Onal");
    }
    let t = old_hungarian_table();
    if ranges_eq(ranges, &t) {
        return Some("Old_Hungarian");
    }
    let t = old_italic_table();
    if ranges_eq(ranges, &t) {
        return Some("Old_Italic");
    }
    let t = old_north_arabian_table();
    if ranges_eq(ranges, &t) {
        return Some("Old_North_Arabian");
    }
    let t = old_permic_table();
    if ranges_eq(ranges, &t) {
        return Some("Old_Permic");
    }
    let t = old_persian_table();
    if ranges_eq(ranges, &t) {
        return Some("Old_Persian");
    }
    let t = old_sogdian_table();
    if ranges_eq(ranges, &t) {
        return Some("Old_Sogdian");
    }
    let t = old_south_arabian_table();
    if ranges_eq(ranges, &t) {
        return Some("Old_South_Arabian");
    }
    let t = old_turkic_table();
    if ranges_eq(ranges, &t) {
        return Some("Old_Turkic");
    }
    let t = old_uyghur_table();
    if ranges_eq(ranges, &t) {
        return Some("Old_Uyghur");
    }
    let t = oriya_table();
    if ranges_eq(ranges, &t) {
        return Some("Oriya");
    }
    let t = osage_table();
    if ranges_eq(ranges, &t) {
        return Some("Osage");
    }
    let t = osmanya_table();
    if ranges_eq(ranges, &t) {
        return Some("Osmanya");
    }
    let t = pahawh_hmong_table();
    if ranges_eq(ranges, &t) {
        return Some("Pahawh_Hmong");
    }
    let t = palmyrene_table();
    if ranges_eq(ranges, &t) {
        return Some("Palmyrene");
    }
    let t = pau_cin_hau_table();
    if ranges_eq(ranges, &t) {
        return Some("Pau_Cin_Hau");
    }
    let t = phags_pa_table();
    if ranges_eq(ranges, &t) {
        return Some("Phags_Pa");
    }
    let t = phoenician_table();
    if ranges_eq(ranges, &t) {
        return Some("Phoenician");
    }
    let t = psalter_pahlavi_table();
    if ranges_eq(ranges, &t) {
        return Some("Psalter_Pahlavi");
    }
    let t = rejang_table();
    if ranges_eq(ranges, &t) {
        return Some("Rejang");
    }
    let t = runic_table();
    if ranges_eq(ranges, &t) {
        return Some("Runic");
    }
    let t = samaritan_table();
    if ranges_eq(ranges, &t) {
        return Some("Samaritan");
    }
    let t = saurashtra_table();
    if ranges_eq(ranges, &t) {
        return Some("Saurashtra");
    }
    let t = sharada_table();
    if ranges_eq(ranges, &t) {
        return Some("Sharada");
    }
    let t = shavian_table();
    if ranges_eq(ranges, &t) {
        return Some("Shavian");
    }
    let t = siddham_table();
    if ranges_eq(ranges, &t) {
        return Some("Siddham");
    }
    let t = signwriting_table();
    if ranges_eq(ranges, &t) {
        return Some("SignWriting");
    }
    let t = sinhala_table();
    if ranges_eq(ranges, &t) {
        return Some("Sinhala");
    }
    let t = sogdian_table();
    if ranges_eq(ranges, &t) {
        return Some("Sogdian");
    }
    let t = sora_sompeng_table();
    if ranges_eq(ranges, &t) {
        return Some("Sora_Sompeng");
    }
    let t = soyombo_table();
    if ranges_eq(ranges, &t) {
        return Some("Soyombo");
    }
    let t = sundanese_table();
    if ranges_eq(ranges, &t) {
        return Some("Sundanese");
    }
    let t = sunuwar_table();
    if ranges_eq(ranges, &t) {
        return Some("Sunuwar");
    }
    let t = syloti_nagri_table();
    if ranges_eq(ranges, &t) {
        return Some("Syloti_Nagri");
    }
    let t = syriac_table();
    if ranges_eq(ranges, &t) {
        return Some("Syriac");
    }
    let t = tagalog_table();
    if ranges_eq(ranges, &t) {
        return Some("Tagalog");
    }
    let t = tagbanwa_table();
    if ranges_eq(ranges, &t) {
        return Some("Tagbanwa");
    }
    let t = tai_le_table();
    if ranges_eq(ranges, &t) {
        return Some("Tai_Le");
    }
    let t = tai_tham_table();
    if ranges_eq(ranges, &t) {
        return Some("Tai_Tham");
    }
    let t = tai_viet_table();
    if ranges_eq(ranges, &t) {
        return Some("Tai_Viet");
    }
    let t = takri_table();
    if ranges_eq(ranges, &t) {
        return Some("Takri");
    }
    let t = tamil_table();
    if ranges_eq(ranges, &t) {
        return Some("Tamil");
    }
    let t = tangsa_table();
    if ranges_eq(ranges, &t) {
        return Some("Tangsa");
    }
    let t = tangut_table();
    if ranges_eq(ranges, &t) {
        return Some("Tangut");
    }
    let t = telugu_table();
    if ranges_eq(ranges, &t) {
        return Some("Telugu");
    }
    let t = thaana_table();
    if ranges_eq(ranges, &t) {
        return Some("Thaana");
    }
    let t = thai_table();
    if ranges_eq(ranges, &t) {
        return Some("Thai");
    }
    let t = tibetan_table();
    if ranges_eq(ranges, &t) {
        return Some("Tibetan");
    }
    let t = tifinagh_table();
    if ranges_eq(ranges, &t) {
        return Some("Tifinagh");
    }
    let t = tirhuta_table();
    if ranges_eq(ranges, &t) {
        return Some("Tirhuta");
    }
    let t = todhri_table();
    if ranges_eq(ranges, &t) {
        return Some("Todhri");
    }
    let t = toto_table();
    if ranges_eq(ranges, &t) {
        return Some("Toto");
    }
    let t = tulu_tigalari_table();
    if ranges_eq(ranges, &t) {
        return Some("Tulu_Tigalari");
    }
    let t = ugaritic_table();
    if ranges_eq(ranges, &t) {
        return Some("Ugaritic");
    }
    let t = vai_table();
    if ranges_eq(ranges, &t) {
        return Some("Vai");
    }
    let t = vithkuqi_table();
    if ranges_eq(ranges, &t) {
        return Some("Vithkuqi");
    }
    let t = wancho_table();
    if ranges_eq(ranges, &t) {
        return Some("Wancho");
    }
    let t = warang_citi_table();
    if ranges_eq(ranges, &t) {
        return Some("Warang_Citi");
    }
    let t = yezidi_table();
    if ranges_eq(ranges, &t) {
        return Some("Yezidi");
    }
    let t = yi_table();
    if ranges_eq(ranges, &t) {
        return Some("Yi");
    }
    let t = zanabazar_square_table();
    if ranges_eq(ranges, &t) {
        return Some("Zanabazar_Square");
    }
    None
}

/// The range list of a range set as plain `(min, max)` character pairs.
pub fn convert_to_range(range_set: &RangeSet) -> (r: Vec<(char, char)>)
    ensures
        r@ == range_set@,
{
    range_set.to_pairs()
}

/// The upper-cased Perl shorthand, for a complement match.
pub open spec fn spec_upper_perl(p: Seq<char>) -> Seq<char> {
    if p == "\\d"@ {
        "\\D"@
    } else if p == "\\s"@ {
        "\\S"@
    } else {
        "\\W"@
    }
}

/// The symbolic token of the set, chosen in this order: a control-character
/// escape for a single recognized character; a Perl shorthand; a catalog name
/// as `\p{Name}`; the same two lookups on the complement, as the upper-cased
/// shorthand or `\P{Name}`; otherwise nothing.
pub open spec fn spec_identify_class(s: Seq<(char, char)>) -> Option<Seq<char>> {
    if s.len() == 1 && s[0].0 == s[0].1 && spec_identify_character(s[0].0) is Some {
        spec_identify_character(s[0].0)
    } else if spec_perl_class(s) is Some {
        spec_perl_class(s)
    } else {
        match spec_find_class(s) {
            Some(n) => Some("\\p{"@ + n + "}"@),
            None => match spec_perl_class(comp_of(s)) {
                Some(p) => Some(spec_upper_perl(p)),
                None => match spec_find_class(comp_of(s)) {
                    Some(n) => Some("\\P{"@ + n + "}"@),
                    None => None,
                },
            },
        }
    }
}

/// A canonical sequence counting exactly one value is a single one-value
/// range.
proof fn lemma_card_one(s: Seq<(char, char)>)
    requires
        wf_seq(s),
        seq_card(s) == 1,
    ensures
        s.len() == 1,
        s[0].0 == s[0].1,
{
    broadcast use lemma_char_order;

    lemma_seq_card_bounds(s);
    assert(s.len() == 1);
    assert(s.drop_last() =~= Seq::<(char, char)>::empty());
    assert(seq_card(s.drop_last()) == 0);
    assert(s.last() == s[0]);
    assert(pair_span(s[0]) == 1);
    lemma_char_order(s[0].0, s[0].1);
    lemma_char_code_injective(s[0].0, s[0].1);
}

/// Attempt to produce the shortest symbolic token of the set, as
/// [`spec_identify_class`] describes.
pub fn identify_class(this: &RangeSet) -> (r: Option<String>)
    requires
        this.inv(),
    ensures
        match r {
            Some(t) => spec_identify_class(this@) == Some(t@),
            None => spec_identify_class(this@) is None,
        },
{
    broadcast use lemma_char_order;

    let ghost s = this@;
    let card = this.get_cardinality();
    proof {
        if card != 1 && s.len() == 1 && s[0].0 == s[0].1 {
            assert(s.drop_last() =~= Seq::<(char, char)>::empty());
            assert(s.last() == s[0]);
            assert(seq_card(s.drop_last()) == 0);
            assert(seq_card(s) == pair_span(s[0]));
        }
    }
    if card == 1 {
        proof {
            lemma_card_one(s);
        }
        let vs = this.iter();
        let c = vs[0].to_char();
        proof {
            assert(this.spec_contains(vs@[0]@));
            let k = choose|k: int| 0 <= k < s.len() && pair_contains(#[trigger] s[k], c);
            lemma_char_code_injective(c, s[0].0);
        }
        match identify_character(c) {
            Some(t) => {
                return Some(t.to_owned());
            },
            None => {},
        }
    }
    let pairs = convert_to_range(this);
    match get_perl_class(&pairs) {
        Some(p) => {
            return Some(p.to_owned());
        },
        None => {},
    }
    match find_class(&pairs) {
        Some(n) => {
            let mut out = "\\p{".to_owned();
            out.append(n);
            out.append("}");
            return Some(out);
        },
        None => {},
    }
    let comp = this.complement();
    let cpairs = convert_to_range(&comp);
    if is_perl_decimal(&cpairs) {
        return Some("\\D".to_owned());
    }
    if is_perl_space(&cpairs) {
        proof {
            reveal_strlit("\\d");
            reveal_strlit("\\s");
            assert("\\s"@ != "\\d"@) by {
                if "\\s"@ == "\\d"@ {
                    assert("\\s"@[1] == "\\d"@[1]);
                }
            }
        }
        return Some("\\S".to_owned());
    }
    if is_perl_word(&cpairs) {
        proof {
            reveal_strlit("\\d");
            reveal_strlit("\\s");
            reveal_strlit("\\w");
            assert("\\w"@ != "\\d"@ && "\\w"@ != "\\s"@) by {
                if "\\w"@ == "\\d"@ {
                    assert("\\w"@[1] == "\\d"@[1]);
                }
                if "\\w"@ == "\\s"@ {
                    assert("\\w"@[1] == "\\s"@[1]);
                }
            }
        }
        return Some("\\W".to_owned());
    }
    match find_class(&cpairs) {
        Some(n) => {
            let mut out = "\\P{".to_owned();
            out.append(n);
            out.append("}");
            return Some(out);
        },
        None => {},
    }
    None
}

} // verus!
