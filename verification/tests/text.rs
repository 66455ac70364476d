use jomai::text::chars_of;
use jomai::text::string_of;
use jomai::text::trim_chars;

fn listed(c: char) -> bool {
    matches!(
        c,
        '\u{9}'..='\u{d}'
            | ' '
            | '\u{85}'
            | '\u{a0}'
            | '\u{1680}'
            | '\u{2000}'..='\u{200a}'
            | '\u{2028}'
            | '\u{2029}'
            | '\u{202f}'
            | '\u{205f}'
            | '\u{3000}'
    )
}

#[test]
fn white_space_is_what_the_list_says() {
    let mut count = 0;
    for n in 0..=0x10ffff_u32 {
        if let Some(c) = char::from_u32(n) {
            let gone = trim_chars(&vec![c]).is_empty();
            assert_eq!(gone, listed(c), "U+{:04X}", n);
            if gone {
                count += 1;
            }
        }
    }
    assert_eq!(count, 25);
}

#[test]
fn trimming_takes_white_space_from_both_ends_only() {
    let trimmed = trim_chars(&chars_of("\t\u{3000} a \u{a0}b\u{2003}\r\n"));
    assert_eq!(string_of(&trimmed), "a \u{a0}b");
    assert_eq!(string_of(&trim_chars(&chars_of("\u{200b}a\u{180e}"))), "\u{200b}a\u{180e}");
    assert_eq!(string_of(&trim_chars(&chars_of(" \u{1680}\u{205f}"))), "");
    assert_eq!(string_of(&trim_chars(&chars_of(""))), "");
}
