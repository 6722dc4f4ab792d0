use trae_accounts::cookie::{is_space_char, join_trimmed_lines, sanitize, squeeze_spaces};
use trae_accounts::text::{chars_of, copy_text, same_text};

#[test]
fn lines_are_trimmed_and_joined() {
    assert_eq!(sanitize("a=1;\n b=2;\r\n\tc=3  \n"), "a=1;b=2;c=3");
}

#[test]
fn runs_of_spaces_shrink_to_one() {
    assert_eq!(sanitize("a  b"), "a b");
    assert_eq!(sanitize("a   b"), "a b");
    assert_eq!(sanitize("a    b     c"), "a b c");
    assert_eq!(sanitize("a b"), "a b");
}

#[test]
fn clean_cookie_stays_as_it_is() {
    let cookie = "sid=abc; store-idc=useast; lang=en";
    assert_eq!(sanitize(cookie), cookie);
}

#[test]
fn empty_and_blank_cookies_become_empty() {
    assert_eq!(sanitize(""), "");
    assert_eq!(sanitize("   "), "");
    assert_eq!(sanitize("\n\n"), "");
    assert_eq!(sanitize(" \t\r\n \u{a0}\n"), "");
}

#[test]
fn inner_white_space_other_than_space_runs_stays() {
    assert_eq!(sanitize("a\tb"), "a\tb");
    assert_eq!(sanitize("a\rb"), "a\rb");
    assert_eq!(sanitize("a \t b"), "a \t b");
}

#[test]
fn spaces_that_meet_across_lines_shrink_too() {
    // Trimming removes them at the ends of lines, so none can meet.
    assert_eq!(sanitize("a \n b"), "ab");
    assert_eq!(sanitize("a b \n c d"), "a bc d");
}

#[test]
fn unicode_white_space_is_trimmed() {
    assert_eq!(sanitize("\u{3000}a=1\u{2003}\n\u{85}b=2\u{2028}"), "a=1b=2");
    assert_eq!(sanitize("名=值 \n 名2=值2"), "名=值名2=值2");
}

#[test]
fn sanitized_cookie_has_no_line_feed_and_no_doubled_space() {
    let inputs = ["a  \n  b   c\n\n d", "  x   y  \r\n z", "\n", "p    q", "k=v;  \n  k2=v2;   k3"];
    for input in inputs {
        let clean = sanitize(input);
        assert!(!clean.contains('\n'));
        assert!(!clean.contains("  "));
    }
}

#[test]
fn white_space_is_the_unicode_property() {
    for c in ['\t', '\n', '\u{b}', '\u{c}', '\r', ' ', '\u{85}', '\u{a0}', '\u{1680}', '\u{2000}',
        '\u{200a}', '\u{2028}', '\u{2029}', '\u{202f}', '\u{205f}', '\u{3000}'] {
        assert!(is_space_char(c));
    }
    for c in ['a', '0', '\u{8}', '\u{e}', '\u{200b}', '\u{feff}', '\u{2060}', '=', ';'] {
        assert!(!is_space_char(c));
    }
    let mut code = 0u32;
    while code < 0x3100 {
        if let Some(c) = char::from_u32(code) {
            assert_eq!(is_space_char(c), c.is_whitespace());
        }
        code += 1;
    }
}

#[test]
fn join_and_squeeze_are_the_two_steps() {
    let chars: Vec<char> = " a  b \n c ".chars().collect();
    let raw = join_trimmed_lines(&chars);
    assert_eq!(raw, vec!['a', ' ', ' ', 'b', 'c']);
    assert_eq!(squeeze_spaces(&raw), "a bc");
    assert_eq!(squeeze_spaces(&vec![' ', ' ', ' ']), " ");
    assert_eq!(squeeze_spaces(&Vec::new()), "");
}

#[test]
fn chars_of_gives_the_characters() {
    assert_eq!(chars_of("a é 名"), vec!['a', ' ', 'é', ' ', '名']);
    assert_eq!(chars_of(""), Vec::<char>::new());
}

#[test]
fn same_text_compares_characters() {
    assert!(same_text("", ""));
    assert!(same_text("名", "名"));
    assert!(!same_text("a", "b"));
    assert!(!same_text("a", "ab"));
}

#[test]
fn copy_text_copies() {
    assert_eq!(copy_text(&Some("x".to_string())), Some("x".to_string()));
    assert_eq!(copy_text(&None), None);
}

#[test]
fn cleaning_is_trim_join_and_replace_where_no_run_is_longer_than_two() {
    let inputs = [
        "a=1; b=2",
        " a=1;\n b=2;  c=3 \r\n\td=4\n\n",
        "x  y\n  z",
        "\u{a0}k=v \n",
        "one\rtwo\r\nthree",
        "",
    ];
    for input in inputs {
        let expected =
            input.lines().map(|line| line.trim()).collect::<Vec<_>>().join("").replace("  ", " ");
        assert_eq!(sanitize(input), expected);
    }
}
