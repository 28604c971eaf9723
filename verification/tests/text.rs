use whisper_transcribe::text::{assemble_text, decimal, is_whitespace, trim};

#[test]
fn whitespace_is_what_the_standard_library_calls_whitespace() {
    let mut code: u32 = 0;
    let mut found = 0;
    while code <= 0x10FFFF {
        if let Some(c) = char::from_u32(code) {
            assert_eq!(is_whitespace(c), c.is_whitespace(), "U+{:04X}", code);
            if is_whitespace(c) {
                found += 1;
            }
        }
        code += 1;
    }
    assert_eq!(found, 25);
}

#[test]
fn trim_removes_whitespace_at_both_ends_only() {
    assert_eq!(trim("  hello world \n"), "hello world");
    assert_eq!(trim("hello"), "hello");
    assert_eq!(trim(" a"), "a");
    assert_eq!(trim("a "), "a");
    assert_eq!(trim("\t a \u{3000} b \r\n"), "a \u{3000} b");
    assert_eq!(trim("\u{a0}\u{2003}x\u{2028}\u{85}"), "x");
}

#[test]
fn trim_of_nothing_but_whitespace_is_empty() {
    assert_eq!(trim(""), "");
    assert_eq!(trim(" "), "");
    assert_eq!(trim(" \t\r\n\u{3000}"), "");
}

#[test]
fn trim_agrees_with_the_standard_library() {
    let samples = [
        "",
        " ",
        "x",
        "  x",
        "x  ",
        " x y ",
        "\n\n multi\nline \n",
        "\u{feff}bom is no whitespace ",
        " ünïcödé \u{2009}",
        "\u{200b}zero width space stays\u{200b}",
        "日本語 ",
    ];
    for sample in samples {
        assert_eq!(trim(sample), sample.trim(), "{:?}", sample);
    }
}

#[test]
fn segments_are_joined_in_order_and_trimmed() {
    let segments = vec![" Hello".to_string(), " world.".to_string(), " Bye. ".to_string()];
    assert_eq!(assemble_text(&segments), "Hello world. Bye.");
}

#[test]
fn inner_whitespace_of_segments_is_kept() {
    let segments = vec!["a ".to_string(), " ".to_string(), " b".to_string()];
    assert_eq!(assemble_text(&segments), "a   b");
}

#[test]
fn no_segments_give_the_empty_text() {
    let segments: Vec<String> = Vec::new();
    assert_eq!(assemble_text(&segments), "");
}

#[test]
fn blank_segments_give_the_empty_text() {
    let segments = vec![" ".to_string(), "".to_string(), "\n".to_string()];
    assert_eq!(assemble_text(&segments), "");
}

#[test]
fn decimal_writes_the_digits_without_leading_zeros() {
    assert_eq!(decimal(0), "0");
    assert_eq!(decimal(7), "7");
    assert_eq!(decimal(10), "10");
    assert_eq!(decimal(404), "404");
    assert_eq!(decimal(1000), "1000");
    assert_eq!(decimal(65535), "65535");
    assert_eq!(decimal(u64::MAX), "18446744073709551615");
    for n in 0..=70000u64 {
        assert_eq!(decimal(n), n.to_string());
    }
}
