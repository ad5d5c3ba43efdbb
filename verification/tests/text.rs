use construct_tui::clock::{current_time_hhmm, message_time};
use construct_tui::ids::{generate_message_id, uuid_from, uuid_v4};
use construct_tui::text::{
    add_name, cat2, cat3, cat4, cat5, contains, decimal, digit_char, is_bytes_before, padded,
    position_of, push_byte_hex, remove_name, same_text, signed_decimal, trim, words,
};

fn is_random_uuid(t: &str) -> bool {
    let groups: Vec<&str> = t.split('-').collect();
    let lengths: Vec<usize> = groups.iter().map(|g| g.len()).collect();
    lengths == [8, 4, 4, 4, 12]
        && t.chars().all(|c| c == '-' || c.is_ascii_digit() || ('a'..='f').contains(&c))
        && groups[2].starts_with('4')
        && groups[3].starts_with(['8', '9', 'a', 'b'])
}

#[test]
fn texts_are_trimmed_and_split() {
    assert_eq!(trim("  a b\t\n"), "a b");
    assert_eq!(trim("\u{a0}\u{3000}x\u{2003}"), "x");
    assert_eq!(trim(" \n "), "");
    assert_eq!(words(" a  bc\td "), vec!["a", "bc", "d"]);
    assert!(words("  ").is_empty());
}

#[test]
fn texts_are_compared() {
    assert!(contains("abcabd", "abd"));
    assert!(contains("abc", ""));
    assert!(!contains("abc", "abcd"));
    assert!(same_text("ü", "ü") && !same_text("u", "ü"));
    assert!(is_bytes_before(b"a", b"ab"));
    assert!(is_bytes_before(b"Z", b"a"));
    assert!(!is_bytes_before(b"b", b"ab"));
    assert!(!is_bytes_before(b"a", b"a"));
}

#[test]
fn texts_are_joined() {
    assert_eq!(cat2("a", "b"), "ab");
    assert_eq!(cat3("a", "b", "c"), "abc");
    assert_eq!(cat4("a", "b", "c", "d"), "abcd");
    assert_eq!(cat5("a", "b", "c", "d", "e"), "abcde");
}

#[test]
fn numbers_are_written() {
    assert_eq!(decimal(0), "0");
    assert_eq!(decimal(u64::MAX), "18446744073709551615");
    assert_eq!(signed_decimal(i64::MIN), "-9223372036854775808");
    assert_eq!(signed_decimal(42), "42");
    assert_eq!(padded(7, 5), "00007");
    assert_eq!(padded(99999, 5), "99999");
    assert_eq!(digit_char(15), 'f');
    let mut s = String::new();
    push_byte_hex(&mut s, 0x0a);
    push_byte_hex(&mut s, 0xf1);
    assert_eq!(s, "0af1");
}

#[test]
fn names_are_kept_once() {
    let mut v: Vec<String> = Vec::new();
    add_name(&mut v, "a".to_string());
    add_name(&mut v, "b".to_string());
    add_name(&mut v, "a".to_string());
    assert_eq!(v, vec!["a", "b"]);
    assert_eq!(position_of(&v, "b"), Some(1));
    assert!(remove_name(&mut v, "a"));
    assert!(!remove_name(&mut v, "a"));
    assert_eq!(v, vec!["b"]);
}

#[test]
fn times_are_written() {
    assert_eq!(current_time_hhmm(0), "00:00");
    assert_eq!(current_time_hhmm(86_399), "23:59");
    assert_eq!(current_time_hhmm(1_700_000_000), "22:13");
    assert_eq!(message_time(1_700_000_000_000), "22:13");
    assert_eq!(message_time(60_000), "00:01");
    assert_eq!(message_time(-60_000), "00:-1");
    assert_eq!(message_time(-3_600_000), "-1:00");
    assert_eq!(message_time(i64::MIN), "-7:-12");
}

#[test]
fn ids_are_random_uuids() {
    assert_eq!(uuid_from(&vec![0xff; 16]), "ffffffff-ffff-4fff-bfff-ffffffffffff");
    assert_eq!(uuid_from(&vec![0; 16]), "00000000-0000-4000-8000-000000000000");
    assert!(is_random_uuid(&uuid_v4()));
    assert!(is_random_uuid(&generate_message_id()));
    assert_ne!(uuid_v4(), uuid_v4());
    assert_ne!(generate_message_id(), generate_message_id());
}
