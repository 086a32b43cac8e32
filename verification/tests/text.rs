use thesis_rewriter::text::{replace_slashes_with_dashes, trim_white_space};

#[test]
fn trim_removes_surrounding_spaces_and_newlines() {
    assert_eq!(trim_white_space("  \n\tHello, world.\r\n "), "Hello, world.");
}

#[test]
fn trim_keeps_inner_white_space() {
    assert_eq!(trim_white_space(" a  b\tc "), "a  b\tc");
}

#[test]
fn trim_of_blank_text_is_empty() {
    assert_eq!(trim_white_space(" \t\n\u{3000}\u{a0}"), "");
    assert_eq!(trim_white_space(""), "");
}

#[test]
fn trim_handles_multibyte_text() {
    assert_eq!(trim_white_space("\u{2003}Über naïve café\u{2029}"), "Über naïve café");
}

#[test]
fn trim_agrees_with_std_for_every_char() {
    for code in 0u32..=0x10FFFF {
        if let Some(c) = char::from_u32(code) {
            let s = format!("{c}x{c}");
            assert_eq!(trim_white_space(&s), s.trim(), "char U+{code:04X}");
        }
    }
}

#[test]
fn trim_is_idempotent_on_examples() {
    for s in ["  a ", "\n\nb c\n", "   ", "x"] {
        let once = trim_white_space(s);
        assert_eq!(trim_white_space(once), once);
    }
}

#[test]
fn replace_slashes_turns_repo_into_dir_name() {
    assert_eq!(replace_slashes_with_dashes("Qwen/Qwen3-1.7B-GGUF"), "Qwen--Qwen3-1.7B-GGUF");
}

#[test]
fn replace_slashes_handles_edges() {
    assert_eq!(replace_slashes_with_dashes(""), "");
    assert_eq!(replace_slashes_with_dashes("/a//b/"), "--a----b--");
    assert_eq!(replace_slashes_with_dashes("no-slash"), "no-slash");
    assert_eq!(replace_slashes_with_dashes("é/ü"), "é--ü");
}

#[test]
fn white_space_is_exactly_the_unicode_property() {
    let listed = |u: u32| {
        (0x09..=0x0d).contains(&u)
            || u == 0x20
            || u == 0x85
            || u == 0xa0
            || u == 0x1680
            || (0x2000..=0x200a).contains(&u)
            || u == 0x2028
            || u == 0x2029
            || u == 0x202f
            || u == 0x205f
            || u == 0x3000
    };
    for code in 0u32..=0x10FFFF {
        if let Some(c) = char::from_u32(code) {
            let s = format!("{c}x");
            let stripped = trim_white_space(&s) == "x";
            assert_eq!(stripped, listed(code), "char U+{code:04X}");
        }
    }
}

#[test]
fn white_space_test_agrees_with_std() {
    for code in 0u32..=0x10FFFF {
        if let Some(c) = char::from_u32(code) {
            assert_eq!(
                thesis_rewriter::text::char_is_white_space(c),
                c.is_whitespace(),
                "char U+{code:04X}"
            );
        }
    }
}
