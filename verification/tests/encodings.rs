use unai::telegram::eq_ignore_ascii_case;
use unai::text::{i64_to_decimal, u64_to_decimal, utf16_units};

#[test]
fn utf16_units_match_std() {
    for s in ["", "abc", "héllo", "\u{1F600} @bot", "\u{FFFF}\u{10000}\u{10FFFF}", "日本語"] {
        let expected: Vec<u16> = s.encode_utf16().collect();
        assert_eq!(utf16_units(s), expected);
    }
}

#[test]
fn decimal_matches_std() {
    for n in [0u64, 7, 10, 42, 999, 1_000_000, u64::MAX] {
        assert_eq!(u64_to_decimal(n), n.to_string());
    }
    for n in [0i64, -1, 9, -10, 123, -1_001_234, i64::MIN, i64::MAX] {
        assert_eq!(i64_to_decimal(n), n.to_string());
    }
}

#[test]
fn utf16_comparison_agrees_with_str() {
    let texts = ["@MyBot", "@mybot", "@MYBOT", "@mybo", "Éa", "éA", "\u{1F600}x", "\u{1F600}X", "[", "{"];
    for a in texts {
        for b in texts {
            let ua: Vec<u16> = a.encode_utf16().collect();
            let ub: Vec<u16> = b.encode_utf16().collect();
            assert_eq!(eq_ignore_ascii_case(&ua, &ub), a.eq_ignore_ascii_case(b), "{a} {b}");
        }
    }
}
