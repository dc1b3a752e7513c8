use twba_backup_config::text::{parse_i64, parse_u64, split};

fn pieces(text: &str) -> Vec<String> {
    split(text, ',')
}

fn std_pieces(text: &str) -> Vec<String> {
    text.split(",").map(|s| s.to_string()).collect()
}

const SAMPLES: [&str; 44] = [
    "",
    "0",
    "5",
    "50",
    "300",
    "359",
    "+5",
    "-5",
    "+",
    "-",
    "++5",
    "--5",
    "+-5",
    "5+",
    "5-",
    " 5",
    "5 ",
    "5_000",
    "0x10",
    "1e3",
    "1.5",
    "abc",
    "12a",
    "a12",
    "007",
    "-007",
    "+007",
    "-0",
    "+0",
    "00000000000000000000000000000000000000005",
    "18446744073709551615",
    "18446744073709551616",
    "+18446744073709551615",
    "99999999999999999999999999",
    "9223372036854775807",
    "9223372036854775808",
    "-9223372036854775808",
    "-9223372036854775809",
    "-18446744073709551616",
    "٣",
    "５",
    "1٣",
    "true",
    "\u{0}",
];

#[test]
fn parse_u64_agrees_with_std_on_samples() {
    for text in SAMPLES {
        assert_eq!(parse_u64(text), text.parse::<u64>().ok(), "text {:?}", text);
    }
}

#[test]
fn parse_i64_agrees_with_std_on_samples() {
    for text in SAMPLES {
        assert_eq!(parse_i64(text), text.parse::<i64>().ok(), "text {:?}", text);
    }
}

#[test]
fn parse_u64_reads_plain_digits() {
    assert_eq!(parse_u64("5"), Some(5));
    assert_eq!(parse_u64("50"), Some(50));
    assert_eq!(parse_u64("1234567890"), Some(1_234_567_890));
    assert_eq!(parse_u64("0"), Some(0));
}

#[test]
fn parse_u64_accepts_one_leading_plus() {
    assert_eq!(parse_u64("+42"), Some(42));
    assert_eq!(parse_u64("++42"), None);
    assert_eq!(parse_u64("+"), None);
}

#[test]
fn parse_u64_rejects_minus_blank_and_empty() {
    assert_eq!(parse_u64("-1"), None);
    assert_eq!(parse_u64("-0"), None);
    assert_eq!(parse_u64(""), None);
    assert_eq!(parse_u64(" 1"), None);
    assert_eq!(parse_u64("1 "), None);
}

#[test]
fn parse_u64_keeps_leading_zeros() {
    assert_eq!(parse_u64("0005"), Some(5));
    assert_eq!(parse_u64("0000000000000000000000000000000000018446744073709551615"), Some(u64::MAX));
}

#[test]
fn parse_u64_stops_at_the_largest_value() {
    assert_eq!(parse_u64("18446744073709551615"), Some(u64::MAX));
    assert_eq!(parse_u64("18446744073709551616"), None);
    assert_eq!(parse_u64("184467440737095516150"), None);
}

#[test]
fn parse_i64_reads_both_signs() {
    assert_eq!(parse_i64("300"), Some(300));
    assert_eq!(parse_i64("+300"), Some(300));
    assert_eq!(parse_i64("-300"), Some(-300));
    assert_eq!(parse_i64("-0"), Some(0));
}

#[test]
fn parse_i64_stops_at_both_ends() {
    assert_eq!(parse_i64("9223372036854775807"), Some(i64::MAX));
    assert_eq!(parse_i64("9223372036854775808"), None);
    assert_eq!(parse_i64("+9223372036854775808"), None);
    assert_eq!(parse_i64("-9223372036854775808"), Some(i64::MIN));
    assert_eq!(parse_i64("-9223372036854775809"), None);
}

#[test]
fn parse_i64_rejects_a_lone_sign_and_other_text() {
    assert_eq!(parse_i64(""), None);
    assert_eq!(parse_i64("-"), None);
    assert_eq!(parse_i64("+"), None);
    assert_eq!(parse_i64("-+1"), None);
    assert_eq!(parse_i64("12x"), None);
}

#[test]
fn parse_u64_agrees_with_std_on_a_sweep() {
    let mut seed: u64 = 0x2545_f491_4f6c_dd1d;
    let alphabet: Vec<char> = "0123456789+- a".chars().collect();
    for _ in 0..4000 {
        let mut text = String::new();
        seed ^= seed << 13;
        seed ^= seed >> 7;
        seed ^= seed << 17;
        let len = (seed % 24) as usize;
        for _ in 0..len {
            seed ^= seed << 13;
            seed ^= seed >> 7;
            seed ^= seed << 17;
            let pick = if seed % 5 == 0 { (seed >> 8) % 14 } else { (seed >> 8) % 10 };
            text.push(alphabet[pick as usize]);
        }
        assert_eq!(parse_u64(&text), text.parse::<u64>().ok(), "text {:?}", text);
        assert_eq!(parse_i64(&text), text.parse::<i64>().ok(), "text {:?}", text);
    }
}

#[test]
fn split_gives_the_pieces_in_order() {
    assert_eq!(pieces("a,b,c"), vec!["a".to_string(), "b".to_string(), "c".to_string()]);
}

#[test]
fn split_of_the_empty_text_is_one_empty_piece() {
    assert_eq!(pieces(""), vec![String::new()]);
}

#[test]
fn split_keeps_empty_pieces() {
    assert_eq!(pieces(","), vec![String::new(), String::new()]);
    assert_eq!(pieces("a,"), vec!["a".to_string(), String::new()]);
    assert_eq!(pieces(",a"), vec![String::new(), "a".to_string()]);
    assert_eq!(pieces("a,,b"), vec!["a".to_string(), String::new(), "b".to_string()]);
}

#[test]
fn split_without_separator_is_the_text() {
    assert_eq!(pieces("gaming"), vec!["gaming".to_string()]);
    assert_eq!(pieces("a b;c"), vec!["a b;c".to_string()]);
}

#[test]
fn split_counts_characters_not_bytes() {
    assert_eq!(
        pieces("héllo,wörld,日本語,"),
        vec!["héllo".to_string(), "wörld".to_string(), "日本語".to_string(), String::new()]
    );
}

#[test]
fn split_agrees_with_std_on_samples() {
    for text in ["", ",", ",,", "a", "a,b", ",a,", "a,,b,,", "tag one, tag two", "é,ü,,ß", "，,，"] {
        assert_eq!(pieces(text), std_pieces(text), "text {:?}", text);
    }
}

#[test]
fn split_uses_the_given_separator() {
    assert_eq!(split("a;b,c", ';'), vec!["a".to_string(), "b,c".to_string()]);
}
