use snipe_bot::number::{i64_chars, parse_i64, u64_chars};
use snipe_bot::text::{
    chars_of, contains, field_one, field_two, remove_char, replace_char, replace_text, same_text,
    starts_with, text_of, trim_start, utf8_longer_than,
};

fn s(v: Vec<char>) -> String {
    v.into_iter().collect()
}

#[test]
fn chars_round_trip() {
    assert_eq!(chars_of("加盟#abc"), vec!['加', '盟', '#', 'a', 'b', 'c']);
    assert_eq!(text_of(&chars_of("对战日志#x")), "对战日志#x");
    assert_eq!(text_of(&Vec::new()), "");
}

#[test]
fn contains_and_prefix() {
    let m = chars_of("请加盟#q82u");
    assert!(contains(&m, &chars_of("加盟#")));
    assert!(!contains(&m, &chars_of("更新#")));
    assert!(contains(&m, &chars_of("")));
    assert!(!starts_with(&m, &chars_of("加盟#")));
    assert!(starts_with(&m, &chars_of("请")));
    assert!(!contains(&chars_of("ab"), &chars_of("abc")));
    assert!(same_text(&chars_of("fwa"), &chars_of("fwa")));
    assert!(!same_text(&chars_of("fwa"), &chars_of("fwa#")));
}

#[test]
fn split_fields() {
    assert_eq!(s(field_two(&chars_of("加盟#abc"), '#')), "abc");
    assert_eq!(s(field_two(&chars_of("加盟#abc#def"), '#')), "abc");
    assert_eq!(s(field_two(&chars_of("审核#"), '#')), "");
    assert_eq!(s(field_two(&chars_of("none"), '#')), "");
    assert_eq!(s(field_one(&chars_of("fwa#12:00"), '#')), "fwa");
    assert_eq!(s(field_one(&chars_of("fwa"), '#')), "fwa");
}

#[test]
fn char_edits() {
    assert_eq!(s(remove_char(&chars_of("#a#b#"), '#')), "ab");
    assert_eq!(s(replace_char(&chars_of("12：30：00"), '：', ':')), "12:30:00");
}

#[test]
fn trim_and_replace() {
    let decl = chars_of("<?>");
    assert_eq!(s(trim_start(&chars_of("<?><?>x<?>"), &decl)), "x<?>");
    assert_eq!(s(trim_start(&chars_of("x"), &chars_of(""))), "x");
    let v = chars_of("<WxSendText><a/></WxSendText>");
    assert_eq!(s(replace_text(&v, &chars_of("WxSendText"), &chars_of("xml"))), "<xml><a/></xml>");
    assert_eq!(s(replace_text(&chars_of("aaa"), &chars_of("aa"), &chars_of("b"))), "ba");
}

#[test]
fn utf8_lengths() {
    assert!(!utf8_longer_than(&chars_of("abc"), 3));
    assert!(utf8_longer_than(&chars_of("abcd"), 3));
    assert!(!utf8_longer_than(&chars_of("中"), 3));
    assert!(utf8_longer_than(&chars_of("中a"), 3));
    assert!(utf8_longer_than(&chars_of("é€"), 3));
    assert!(!utf8_longer_than(&chars_of(""), 0));
}

#[test]
fn parse_accepts_signed_decimals() {
    assert_eq!(parse_i64(&chars_of("123")), Some(123));
    assert_eq!(parse_i64(&chars_of("-5")), Some(-5));
    assert_eq!(parse_i64(&chars_of("+7")), Some(7));
    assert_eq!(parse_i64(&chars_of("007")), Some(7));
    assert_eq!(parse_i64(&chars_of("9223372036854775807")), Some(i64::MAX));
    assert_eq!(parse_i64(&chars_of("-9223372036854775808")), Some(i64::MIN));
}

#[test]
fn parse_rejects_the_rest() {
    assert_eq!(parse_i64(&chars_of("")), None);
    assert_eq!(parse_i64(&chars_of("-")), None);
    assert_eq!(parse_i64(&chars_of("+")), None);
    assert_eq!(parse_i64(&chars_of("12a")), None);
    assert_eq!(parse_i64(&chars_of(" 1")), None);
    assert_eq!(parse_i64(&chars_of("--1")), None);
    assert_eq!(parse_i64(&chars_of("9223372036854775808")), None);
    assert_eq!(parse_i64(&chars_of("-9223372036854775809")), None);
    assert_eq!(parse_i64(&chars_of("99999999999999999999999")), None);
}

#[test]
fn parse_agrees_with_std() {
    for t in ["0", "-0", "+0", "42", "-42", "1a", "", "+-1", "18446744073709551615", "-1"] {
        assert_eq!(parse_i64(&chars_of(t)), t.parse::<i64>().ok(), "{}", t);
    }
}

#[test]
fn display_of_integers() {
    assert_eq!(s(i64_chars(0)), "0");
    assert_eq!(s(i64_chars(-42)), "-42");
    assert_eq!(s(i64_chars(1234567)), "1234567");
    assert_eq!(s(i64_chars(i64::MIN)), i64::MIN.to_string());
    assert_eq!(s(i64_chars(i64::MAX)), i64::MAX.to_string());
    assert_eq!(s(u64_chars(83)), "83");
}

#[test]
fn id_text_reads_back() {
    for n in [0i64, 7, -7, 81, 123456789, i64::MIN, i64::MAX] {
        assert_eq!(parse_i64(&i64_chars(n)), Some(n));
    }
}
