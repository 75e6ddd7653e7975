use tealdrive::protocol::message_type::MessageType;
use tealdrive::strings::{
    chars_of, contains_char, decimal_string, find_last, lower_code, parse_usize_digits,
    split_after_last, str_ends_with, str_eq, str_eq_ignore_ascii_case, str_eq_lowered,
    str_starts_with, substring,
};

#[test]
fn text_helpers_work_on_characters() {
    assert!(str_eq("héllo", "héllo"));
    assert!(!str_eq("a", "ab"));
    assert!(contains_char("a/b", '/'));
    assert!(!contains_char("ab", '/'));
    assert_eq!(chars_of("hé!"), vec!['h', 'é', '!']);
    assert_eq!(substring("héllo", 1, 3), "él");
    assert_eq!(tealdrive::strings::concat("offset:", "12"), "offset:12");
    assert_eq!(find_last("a/b/c", '/'), Some(3));
    assert_eq!(find_last("abc", '/'), None);
    assert_eq!(split_after_last("archive.tar.gz", '.'), Some("gz"));
    assert_eq!(split_after_last("README", '.'), None);
    assert!(str_ends_with("photo.JPG", ".JPG"));
    assert!(!str_ends_with("a", "abc"));
    assert!(str_starts_with(".env.local", ".env"));
    assert!(!str_starts_with(".en", ".env"));
}

#[test]
fn ascii_case_is_folded_and_nothing_else() {
    assert_eq!(lower_code('A'), 'a' as u32);
    assert_eq!(lower_code('z'), 'z' as u32);
    assert_eq!(lower_code('É'), 'É' as u32);
    assert!(str_eq_ignore_ascii_case("UTF-8", "utf-8"));
    assert!(!str_eq_ignore_ascii_case("utf-8", "utf8"));
    assert!(str_eq_lowered("php", "PhP"));
    assert!(!str_eq_lowered("PHP", "php"));
}

#[test]
fn decimals_are_written_and_read_back() {
    assert_eq!(decimal_string(0), "0");
    assert_eq!(decimal_string(1203), "1203");
    assert_eq!(decimal_string(u64::MAX), "18446744073709551615");
    assert_eq!(parse_usize_digits("1203"), Some(1203));
    assert_eq!(parse_usize_digits("007"), Some(7));
    assert_eq!(parse_usize_digits(""), None);
    assert_eq!(parse_usize_digits("12a"), None);
    assert_eq!(parse_usize_digits("-1"), None);
    assert_eq!(parse_usize_digits("99999999999999999999999"), None);
}

#[test]
fn message_codes_name_their_messages() {
    for m in [MessageType::ListDirectory, MessageType::UploadChunk, MessageType::DownloadBegin] {
        assert_eq!(MessageType::from_code(m.code()), m);
    }
}
