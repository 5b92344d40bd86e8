use hiku_rs::text::{
    holds_block_quote, holds_string_literal, is_admitted, is_narrow_text, respell,
};

#[test]
fn a_quote_outside_a_comment_starts_a_literal() {
    assert!(holds_string_literal("\""));
    assert!(holds_string_literal("{ a(x: \"s\") }"));
    assert!(holds_string_literal("\"#"));
    assert!(holds_string_literal("{ a(x: \"\"\"block\"\"\") }"));
}

#[test]
fn a_quote_inside_a_comment_starts_nothing() {
    assert!(!holds_string_literal(""));
    assert!(!holds_string_literal("{ a }"));
    assert!(!holds_string_literal("# \""));
    assert!(!holds_string_literal("{ a # \"quoted\" # \"again\"\n b }"));
    assert!(!holds_string_literal("a#b\"c"));
    assert!(!holds_string_literal("##\""));
}

#[test]
fn a_comment_ends_with_its_line() {
    assert!(holds_string_literal("# x\n\""));
    assert!(holds_string_literal("# x\r\""));
    assert!(holds_string_literal("# x\r\n\""));
    assert!(holds_string_literal("#\n\"#"));
    assert!(!holds_string_literal("# x\n# \""));
    assert!(!holds_string_literal("# x\n { a } #\""));
}

#[test]
fn bytes_of_wide_characters_are_no_quotes() {
    assert!(!holds_string_literal("{ a } # caf\u{e9} \u{2003} \u{1f600}"));
    assert!(holds_string_literal("\u{e9}\""));
    assert!(!holds_string_literal("#\u{e9}\""));
}

#[test]
fn three_quotes_in_a_row_open_a_block() {
    assert!(!holds_block_quote(""));
    assert!(!holds_block_quote("\""));
    assert!(!holds_block_quote("\"\""));
    assert!(holds_block_quote("\"\"\""));
    assert!(holds_block_quote("{ a(x: \"\"\"b\"\"\") }"));
    assert!(holds_block_quote("# \"\"\""));
    assert!(holds_block_quote("ab\"\"\""));
    assert!(!holds_block_quote("\"\" \"\" \"a\"b\"c\""));
    assert!(!holds_block_quote("{ a(x: \"caf\u{e9}\", y: \"\") }"));
}

#[test]
fn narrow_text_is_ascii_and_byte_order_marks() {
    assert!(is_narrow_text(""));
    assert!(is_narrow_text("{ a(x: \"s\") } \u{7f}\u{0}"));
    assert!(is_narrow_text("\u{feff}{ a }\u{feff}"));
    assert!(!is_narrow_text("\u{80}"));
    assert!(!is_narrow_text("{ a } # caf\u{e9}"));
    assert!(!is_narrow_text("\u{feff}\u{2003}"));
    assert!(!is_narrow_text("a\u{fefe}"));
    assert!(!is_narrow_text("a\u{10ffff}"));
}

#[test]
fn respelling_replaces_wide_characters_one_for_one() {
    assert_eq!(respell(""), "");
    assert_eq!(respell("{ a(x: \"s\") }"), "{ a(x: \"s\") }");
    assert_eq!(respell("caf\u{e9}"), "caf?");
    assert_eq!(respell("\u{feff}\u{2003}b\u{1f600}\u{a0}c"), "\u{feff}?b??c");
    assert_eq!(respell("\u{7f}\u{80}"), "\u{7f}?");
    assert!(is_narrow_text(&respell("\"\"\"\n\u{2003}b\n c\"\"\"")));
    assert!(is_admitted(&respell("\"\"\"\n\u{2003}b\n c\"\"\"")));
}

#[test]
fn narrow_text_is_always_admitted() {
    assert!(is_admitted(""));
    assert!(is_admitted("{ a }"));
    assert!(is_admitted("{ a(x: \"s\") }"));
    assert!(is_admitted("\"\"\""));
    assert!(is_admitted("\u{feff}{ a(x: \"\"\"b\"\"\") }"));
}

#[test]
fn wide_text_is_admitted_without_a_block_string() {
    assert!(is_admitted("{ a } # caf\u{e9}"));
    assert!(is_admitted("{ a # \"caf\u{e9}\"\n }"));
    assert!(is_admitted("{ a # \"\"\"caf\u{e9}\"\"\"\n }"));
    assert!(is_admitted("{ a(x: \"caf\u{e9}\") }"));
    assert!(is_admitted("{ a(x: \"s\") } # caf\u{e9}"));
    assert!(is_admitted("\u{e9}\""));
    assert!(is_admitted("\u{e9}\"\" \""));
    assert!(!is_admitted("\u{e9}\"\"\""));
    assert!(!is_admitted("{ a(x: \"\"\"\n\u{2003}b\n c\"\"\") }"));
    assert!(!is_admitted("{ a(x: \"#\", y: \"\"\"\n\u{2003}b\n c\"\"\") }"));
    assert!(!is_admitted("{ a(x: \"\"\"b\"\"\") } # caf\u{e9}"));
}
