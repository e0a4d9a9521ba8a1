use widechar_width::classify::{classify, classify_with};
use widechar_width::ranges::{in_table, CodeRange};
use widechar_width::tables::{
    AMBIGUOUS_TABLE, ASCII_TABLE, COMBININGLETTERS_TABLE, COMBINING_TABLE, DOUBLEWIDE_TABLE,
    NONCHAR_TABLE, NONPRINT_TABLE, PRIVATE_TABLE, UNASSIGNED_TABLE, WIDENED_TABLE,
};
use widechar_width::WcWidth;

fn priority() -> Vec<(&'static [CodeRange], WcWidth)> {
    vec![
        (&ASCII_TABLE[..], WcWidth::One),
        (&PRIVATE_TABLE[..], WcWidth::PrivateUse),
        (&NONPRINT_TABLE[..], WcWidth::NonPrint),
        (&NONCHAR_TABLE[..], WcWidth::NonCharacter),
        (&COMBINING_TABLE[..], WcWidth::Combining),
        (&COMBININGLETTERS_TABLE[..], WcWidth::Combining),
        (&DOUBLEWIDE_TABLE[..], WcWidth::Two),
        (&AMBIGUOUS_TABLE[..], WcWidth::Ambiguous),
        (&UNASSIGNED_TABLE[..], WcWidth::Unassigned),
        (&WIDENED_TABLE[..], WcWidth::WidenedIn9),
    ]
}

fn linear(table: &[CodeRange], c: u32) -> bool {
    table.iter().any(|r| r.0 <= c && c <= r.1)
}

fn first_match(rules: &[(&[CodeRange], WcWidth)], c: u32) -> WcWidth {
    for (table, category) in rules {
        if linear(table, c) {
            return *category;
        }
    }
    WcWidth::One
}

#[test]
fn basics() {
    assert_eq!(WcWidth::from_char('w'), WcWidth::One);
    assert_eq!(WcWidth::from_char('\x1f'), WcWidth::NonPrint);
    assert_eq!(WcWidth::from_char('\u{e001}'), WcWidth::PrivateUse);
    assert_eq!(WcWidth::from_char('\u{2716}'), WcWidth::One);
    assert_eq!(WcWidth::from_char('\u{270a}'), WcWidth::WidenedIn9);
    assert_eq!(WcWidth::from_char('\u{3fffd}'), WcWidth::Two);
}

#[test]
fn lowercase_w_is_single_width() {
    assert_eq!(classify(0x0077), WcWidth::One);
    assert_eq!(WcWidth::from_char('w').width_unicode_8_or_earlier(), 1);
    assert_eq!(WcWidth::from_char('w').width_unicode_9_or_later(), 1);
}

#[test]
fn unit_separator_is_not_printable() {
    assert_eq!(classify(0x001F), WcWidth::NonPrint);
    assert_eq!(classify(0x001F).width_unicode_9_or_later(), 0);
}

#[test]
fn private_use_codepoint() {
    assert_eq!(classify(0xE001), WcWidth::PrivateUse);
    assert_eq!(classify(0xE001).width_unicode_8_or_earlier(), 1);
}

#[test]
fn heavy_multiplication_x_matches_no_table() {
    assert_eq!(classify(0x2716), WcWidth::One);
    for (table, _) in priority() {
        assert!(!in_table(table, 0x2716));
    }
}

#[test]
fn raised_fist_was_widened() {
    let category = classify(0x270A);
    assert_eq!(category, WcWidth::WidenedIn9);
    assert_eq!(category.width_unicode_8_or_earlier(), 1);
    assert_eq!(category.width_unicode_9_or_later(), 2);
}

#[test]
fn end_of_plane_three_is_double_wide() {
    assert_eq!(classify(0x3FFFD), WcWidth::Two);
    assert_eq!(classify(0x3FFFD).width_unicode_8_or_earlier(), 2);
    assert_eq!(classify(0x3FFFE), WcWidth::NonCharacter);
}

#[test]
fn one_codepoint_of_each_category() {
    assert_eq!(classify(0x0041), WcWidth::One);
    assert_eq!(classify(0x4E2D), WcWidth::Two);
    assert_eq!(classify(0x0000), WcWidth::NonPrint);
    assert_eq!(classify(0x0301), WcWidth::Combining);
    assert_eq!(classify(0x1160), WcWidth::Combining);
    assert_eq!(classify(0x00A1), WcWidth::Ambiguous);
    assert_eq!(classify(0xF0000), WcWidth::PrivateUse);
    assert_eq!(classify(0x0378), WcWidth::Unassigned);
    assert_eq!(classify(0x1F600), WcWidth::WidenedIn9);
    assert_eq!(classify(0xFDD0), WcWidth::NonCharacter);
}

#[test]
fn earlier_table_wins_where_two_contain_a_codepoint() {
    // combining marks before ambiguous
    assert!(in_table(&COMBINING_TABLE, 0x0300) && in_table(&AMBIGUOUS_TABLE, 0x0300));
    assert_eq!(classify(0x0300), WcWidth::Combining);
    // private use before ambiguous
    assert!(in_table(&PRIVATE_TABLE, 0xE000) && in_table(&AMBIGUOUS_TABLE, 0xE000));
    assert_eq!(classify(0xE000), WcWidth::PrivateUse);
    // noncharacter before unassigned
    assert!(in_table(&NONCHAR_TABLE, 0x4FFFE) && in_table(&UNASSIGNED_TABLE, 0x4FFFE));
    assert_eq!(classify(0x4FFFE), WcWidth::NonCharacter);
    // combining marks before double-wide
    assert!(in_table(&COMBINING_TABLE, 0x3099) && in_table(&DOUBLEWIDE_TABLE, 0x3099));
    assert_eq!(classify(0x3099), WcWidth::Combining);
}

#[test]
fn surrogates_and_values_past_the_last_plane() {
    assert_eq!(classify(0xD800), WcWidth::NonPrint);
    assert_eq!(classify(0xDFFF), WcWidth::NonPrint);
    assert_eq!(classify(0x10FFFF), WcWidth::NonCharacter);
    assert_eq!(classify(0x110000), WcWidth::One);
    assert_eq!(classify(u32::MAX), WcWidth::One);
}

#[test]
fn from_char_agrees_with_classify() {
    for c in ['\0', ' ', '~', '\u{7f}', '\u{ad}', '\u{e9}', '\u{3042}', '\u{ac00}', '\u{1f4a9}', '\u{10ffff}'] {
        assert_eq!(WcWidth::from_char(c), classify(c as u32));
    }
}

#[test]
fn every_table_is_strictly_increasing() {
    for (table, category) in priority() {
        for r in table {
            assert!(r.0 <= r.1, "{:?} {:x?}", category, r);
        }
        for pair in table.windows(2) {
            assert!(pair[0].1 < pair[1].0, "{:?} {:x?}", category, pair);
        }
    }
}

#[test]
fn range_points_have_their_table_category_unless_shadowed() {
    let rules = priority();
    for (k, (table, category)) in rules.iter().enumerate() {
        for r in table.iter() {
            let mid = ((r.0 as u64 + r.1 as u64) / 2) as u32;
            for c in [r.0, r.1, mid] {
                assert!(in_table(table, c));
                let shadowed = rules[..k].iter().any(|(earlier, _)| linear(earlier, c));
                if !shadowed {
                    assert_eq!(classify(c), *category, "codepoint {:x}", c);
                }
            }
        }
    }
}

#[test]
fn classify_is_the_first_match_over_the_built_in_tables() {
    let rules = priority();
    let mut c: u32 = 0;
    while c <= 0x110000 {
        assert_eq!(classify(c), first_match(&rules, c), "codepoint {:x}", c);
        c += 7;
    }
    for (table, _) in rules.iter() {
        for r in table.iter() {
            for c in [r.0.saturating_sub(1), r.0, r.1, r.1 + 1] {
                assert_eq!(classify(c), first_match(&rules, c), "codepoint {:x}", c);
            }
        }
    }
}

#[test]
fn classify_with_no_tables_gives_one() {
    let rules: [(&[CodeRange], WcWidth); 0] = [];
    assert_eq!(classify_with(&rules, 0), WcWidth::One);
    assert_eq!(classify_with(&rules, 0x4E2D), WcWidth::One);
}

#[test]
fn classify_with_takes_the_first_matching_table() {
    let a: [CodeRange; 2] = [(1, 5), (9, 12)];
    let b: [CodeRange; 1] = [(4, 10)];
    let rules: [(&[CodeRange], WcWidth); 2] = [(&a, WcWidth::Two), (&b, WcWidth::Combining)];
    assert_eq!(classify_with(&rules, 0), WcWidth::One);
    assert_eq!(classify_with(&rules, 3), WcWidth::Two);
    assert_eq!(classify_with(&rules, 4), WcWidth::Two);
    assert_eq!(classify_with(&rules, 7), WcWidth::Combining);
    assert_eq!(classify_with(&rules, 10), WcWidth::Two);
    assert_eq!(classify_with(&rules, 13), WcWidth::One);
    let swapped: [(&[CodeRange], WcWidth); 2] = [(&b, WcWidth::Combining), (&a, WcWidth::Two)];
    assert_eq!(classify_with(&swapped, 4), WcWidth::Combining);
    assert_eq!(classify_with(&swapped, 10), WcWidth::Combining);
    assert_eq!(classify_with(&swapped, 3), WcWidth::Two);
}

#[test]
fn classify_with_skips_empty_tables() {
    let none: [CodeRange; 0] = [];
    let some: [CodeRange; 1] = [(0x41, 0x5A)];
    let rules: [(&[CodeRange], WcWidth); 3] =
        [(&none, WcWidth::NonPrint), (&some, WcWidth::Ambiguous), (&none, WcWidth::Two)];
    assert_eq!(classify_with(&rules, 0x41), WcWidth::Ambiguous);
    assert_eq!(classify_with(&rules, 0x5B), WcWidth::One);
}
