//! Texts and numbers, compared with what the standard library does.
use kit_vpn_companion::ipv4::Ipv4Addr;
use kit_vpn_companion::number::{decimal_of, read_i32, read_u16, read_u8};
use kit_vpn_companion::text;

fn samples() -> Vec<&'static str> {
    vec![
        "",
        " ",
        "a",
        "a b",
        "  a\tb  c ",
        "\n",
        "\r\n",
        "a\nb",
        "a\r\nb\r\n",
        "a\rb\n\nc",
        "a\r",
        "ü—x\u{2003}y\u{85}z",
        "remote vpn 1194",
        ",",
        "a,b,,c",
        "::",
    ]
}

#[test]
fn white_space_is_that_of_char() {
    let mut code: u32 = 0;
    while code <= 0x10ffff {
        if let Some(c) = char::from_u32(code) {
            assert_eq!(text::is_white_space(c), c.is_whitespace(), "{}", code);
        }
        code += 1;
    }
}

#[test]
fn splitting_is_that_of_str() {
    for s in samples() {
        let lines: Vec<&str> = s.lines().collect();
        assert_eq!(text::split_lines(s), lines, "{:?}", s);
        let words: Vec<&str> = s.split_whitespace().collect();
        assert_eq!(text::split_words(s), words, "{:?}", s);
        for sep in [',', ':', 'a'] {
            let pieces: Vec<&str> = s.split(sep).collect();
            assert_eq!(text::split_at(s, sep), pieces, "{:?}", s);
        }
    }
}

#[test]
fn trimming_and_searching_are_those_of_str() {
    for s in samples() {
        assert_eq!(text::trimmed(s), s.trim(), "{:?}", s);
        assert_eq!(text::trimmed_start(s), s.trim_start(), "{:?}", s);
        for p in samples() {
            assert_eq!(text::has(s, p), s.contains(p), "{:?} {:?}", s, p);
            assert_eq!(text::has_prefix(s, p), s.starts_with(p), "{:?} {:?}", s, p);
            assert_eq!(text::same(s, p), s == p, "{:?} {:?}", s, p);
            assert_eq!(text::cat(s, p), format!("{}{}", s, p));
        }
    }
}

#[test]
fn joining_and_splitting_back() {
    let parts = text::owned(&["a", "", "bc"]);
    assert_eq!(text::joined(&parts, ", "), "a, , bc");
    assert_eq!(text::split_at(&text::joined(&parts, ","), ','), parts);
    assert_eq!(text::joined(&Vec::new(), ","), "");
    // nothing joined is split into one empty text
    assert_eq!(text::split_at("", ','), vec![""]);
    assert!(text::among(&parts, "bc"));
    assert!(!text::among(&parts, "b"));
    assert_eq!(text::copied(&parts), parts);
    assert_eq!(text::slice(&text::chars("häuser"), 1, 3), "äu");
}

#[test]
fn numbers_are_those_of_std() {
    for n in [0u64, 1, 9, 10, 99, 100, 65535, 4294967296, u64::MAX] {
        assert_eq!(decimal_of(n), n.to_string());
    }
    for n in [0i32, 1, -1, 10, -10, i32::MAX, i32::MIN] {
        assert_eq!(read_i32(&n.to_string()), Some(n));
    }
    let texts = [
        "", "0", "00", "7", "+7", "-7", "-0", "+", "-", "+-7", " 7", "7 ", "255", "256", "0255",
        "65535", "65536", "2147483647", "2147483648", "-2147483648", "-2147483649",
        "99999999999999999999999", "١", "1_0", "0x1", "1.0",
    ];
    for t in texts {
        assert_eq!(read_u8(t), t.parse::<u8>().ok(), "{:?}", t);
        assert_eq!(read_u16(t), t.parse::<u16>().ok(), "{:?}", t);
        assert_eq!(read_i32(t), t.parse::<i32>().ok(), "{:?}", t);
    }
}

#[test]
fn addresses_as_text() {
    assert_eq!(Ipv4Addr::new(1, 2, 3, 4).to_text(), "1.2.3.4");
    for t in ["1.2.3.4", "0.0.0.0", "255.255.255.255", "10.0.200.30"] {
        assert_eq!(Ipv4Addr::from_text(t).unwrap().to_text(), t);
    }
    let none = [
        "256.0.0.1", "01.2.3.4", "1.2.3", "1.2.3.4.5", "1.2.3.4 ", "", "a.b.c.d", "1..2.3",
        "+1.2.3.4", "001.2.3.4", "1.2.3.0000", "::1", "1.2.3.", "1.2.3.1000",
    ];
    for t in none {
        assert_eq!(Ipv4Addr::from_text(t), None, "{:?}", t);
    }
}
