use ps_payload_injector::text::{decimal_string, is_blank, parse_port, whitespace};

#[test]
fn decimal_string_agrees_with_std() {
    let mut samples: Vec<usize> = (0..=1200).collect();
    samples.extend([
        9_999,
        10_000,
        65_535,
        65_536,
        1_048_576,
        4_294_967_295,
        usize::MAX - 1,
        usize::MAX,
    ]);
    for n in samples {
        assert_eq!(decimal_string(n), n.to_string());
    }
}

#[test]
fn decimal_string_exact_values() {
    assert_eq!(decimal_string(0), "0");
    assert_eq!(decimal_string(7), "7");
    assert_eq!(decimal_string(10), "10");
    assert_eq!(decimal_string(56), "56");
    assert_eq!(decimal_string(1024), "1024");
    assert_eq!(decimal_string(1_048_576), "1048576");
}

#[test]
fn parse_port_exact_values() {
    assert_eq!(parse_port("8080"), Some(8080));
    assert_eq!(parse_port("0"), Some(0));
    assert_eq!(parse_port("1"), Some(1));
    assert_eq!(parse_port("65535"), Some(65535));
    assert_eq!(parse_port("+9025"), Some(9025));
    assert_eq!(parse_port("00080"), Some(80));
    assert_eq!(parse_port("000000000000000000000000065535"), Some(65535));
    assert_eq!(parse_port("65536"), None);
    assert_eq!(parse_port("99999999999999999999"), None);
    assert_eq!(parse_port(""), None);
    assert_eq!(parse_port("+"), None);
    assert_eq!(parse_port("++1"), None);
    assert_eq!(parse_port("-1"), None);
    assert_eq!(parse_port("1+"), None);
    assert_eq!(parse_port(" 80"), None);
    assert_eq!(parse_port("80 "), None);
    assert_eq!(parse_port("8_0"), None);
    assert_eq!(parse_port("invalid"), None);
    assert_eq!(parse_port("８０"), None);
    assert_eq!(parse_port("٨٠"), None);
}

#[test]
fn parse_port_agrees_with_std_on_all_numbers() {
    for n in 0u32..=70_000 {
        let plain = n.to_string();
        assert_eq!(parse_port(&plain), plain.parse::<u16>().ok());
        let signed = format!("+{}", n);
        assert_eq!(parse_port(&signed), signed.parse::<u16>().ok());
        let padded = format!("000{}", n);
        assert_eq!(parse_port(&padded), padded.parse::<u16>().ok());
    }
}

#[test]
fn parse_port_agrees_with_std_on_short_texts() {
    let alphabet = ['0', '1', '5', '6', '9', '+', '-', ' ', 'a', '_', '.', '\u{a0}', '٣'];
    let mut texts: Vec<String> = vec![String::new()];
    let mut level: Vec<String> = vec![String::new()];
    for _ in 0..4 {
        let mut next = Vec::new();
        for text in &level {
            for c in alphabet {
                let mut longer = text.clone();
                longer.push(c);
                next.push(longer);
            }
        }
        texts.extend(next.iter().cloned());
        level = next;
    }
    for text in texts {
        assert_eq!(parse_port(&text), text.parse::<u16>().ok(), "text {:?}", text);
    }
}

#[test]
fn whitespace_agrees_with_std_on_every_char() {
    let mut c = '\0';
    loop {
        assert_eq!(whitespace(c), c.is_whitespace(), "char {:?}", c);
        if c == char::MAX {
            break;
        }
        c = match char::from_u32(c as u32 + 1) {
            Some(next) => next,
            None => '\u{e000}',
        };
    }
}

#[test]
fn is_blank_agrees_with_trim() {
    let texts = vec![
        "",
        " ",
        "   ",
        "\t\r\n",
        "\u{3000}\u{2003}\u{a0}",
        "\u{200b}",
        "a",
        " a ",
        "  192.168.1.1  ",
        "\u{85}x",
        "файл",
        "\u{feff}",
    ];
    for text in texts {
        assert_eq!(is_blank(text), text.trim().is_empty(), "text {:?}", text);
    }
    assert!(is_blank(""));
    assert!(is_blank("   "));
    assert!(!is_blank("  192.168.1.1  "));
}
