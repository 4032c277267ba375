use rusty_socket::text::{is_whitespace, same_text, split_fields, to_chars, trim, Separator};

#[test]
fn whitespace_agrees_with_std_on_every_char() {
    let mut code: u32 = 0;
    while code <= 0x10FFFF {
        if let Some(c) = char::from_u32(code) {
            assert_eq!(is_whitespace(c), c.is_whitespace(), "U+{:04X}", code);
        }
        code += 1;
    }
}

#[test]
fn whitespace_named_cases() {
    assert!(is_whitespace(' '));
    assert!(is_whitespace('\t'));
    assert!(is_whitespace('\r'));
    assert!(is_whitespace('\n'));
    assert!(is_whitespace('\u{A0}'));
    assert!(is_whitespace('\u{3000}'));
    assert!(!is_whitespace('a'));
    assert!(!is_whitespace('/'));
    assert!(!is_whitespace('\u{200B}'));
    assert!(!is_whitespace('\u{180E}'));
}

#[test]
fn separator_classes() {
    assert!(Separator::Whitespace.test(' '));
    assert!(!Separator::Whitespace.test('/'));
    assert!(Separator::Slash.test('/'));
    assert!(!Separator::Slash.test('\\'));
    assert!(Separator::LineFeed.test('\n'));
    assert!(!Separator::LineFeed.test('\r'));
}

#[test]
fn to_chars_keeps_every_char() {
    assert_eq!(to_chars(""), Vec::<char>::new());
    assert_eq!(to_chars("aé👾"), vec!['a', 'é', '👾']);
}

fn std_words(s: &str) -> Vec<String> {
    s.split_whitespace().map(|w| w.to_string()).collect()
}

#[test]
fn split_whitespace_agrees_with_std() {
    let samples = [
        "",
        " ",
        "a",
        " a",
        "a ",
        "  a  b\tc\r\nd  ",
        "GET / HTTP/1.1",
        "GET\u{A0}/\u{2003}HTTP/1.1",
        "é👾 x\u{3000}y",
        "\n\n\n",
        "one\u{85}two",
    ];
    for s in samples {
        assert_eq!(split_fields(s, Separator::Whitespace), std_words(s), "{:?}", s);
    }
}

#[test]
fn split_slash_drops_empty_components() {
    assert_eq!(split_fields("/var/www", Separator::Slash), vec!["var", "www"]);
    assert_eq!(split_fields("//var///www//", Separator::Slash), vec!["var", "www"]);
    assert_eq!(split_fields("/", Separator::Slash), Vec::<String>::new());
    assert_eq!(split_fields("", Separator::Slash), Vec::<String>::new());
    assert_eq!(split_fields("a b/c", Separator::Slash), vec!["a b", "c"]);
}

#[test]
fn split_line_feed_keeps_carriage_return() {
    assert_eq!(split_fields("a\r\nb\n\nc", Separator::LineFeed), vec!["a\r", "b", "c"]);
}

#[test]
fn trim_agrees_with_std() {
    let samples = [
        "",
        " ",
        "\t\r\n",
        "a",
        "  a",
        "a  ",
        " a b ",
        "\u{A0}/index.html\u{3000}",
        " / ",
        "é ",
    ];
    for s in samples {
        assert_eq!(trim(s), s.trim(), "{:?}", s);
    }
}

#[test]
fn same_text_compares_characters() {
    assert!(same_text("", ""));
    assert!(same_text("html", "html"));
    assert!(!same_text("html", "htm"));
    assert!(!same_text("htm", "html"));
    assert!(!same_text("html", "HTML"));
    assert!(same_text("é👾", "é👾"));
    assert!(!same_text("é", "e"));
}
