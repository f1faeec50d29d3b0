use nyalog::logpath::fmt_u32;
use nyalog::logpath::fmt_u32_padded;
use nyalog::logpath::get_date_string;
use nyalog::logpath::get_log_dir;
use nyalog::logpath::get_log_file;
use nyalog::text::split_lines;
use nyalog::text::str_colon_field1;
use nyalog::text::str_contains_ci;
use nyalog::text::str_second_token;
use nyalog::text::str_trim;
use nyalog::text::str_trim_quote_comma;

#[test]
fn decimal_formatting() {
    assert_eq!(fmt_u32(0), "0");
    assert_eq!(fmt_u32(7), "7");
    assert_eq!(fmt_u32(1234567890), "1234567890");
    assert_eq!(fmt_u32(u32::MAX), "4294967295");
    assert_eq!(fmt_u32_padded(3, 2), "03");
    assert_eq!(fmt_u32_padded(2024, 4), "2024");
    assert_eq!(fmt_u32_padded(12345, 4), "12345");
    assert_eq!(fmt_u32_padded(0, 4), "0000");
}

#[test]
fn date_string_from_clock_fields() {
    assert_eq!(get_date_string(124, 2, 5), "2024-03-05");
    assert_eq!(get_date_string(124, 11, 31), "2024-12-31");
    assert_eq!(get_date_string(70, 0, 1), "1970-01-01");
}

#[test]
fn log_dir_prefers_elevated_user() {
    assert_eq!(
        get_log_dir(&Some("alice".to_string()), &Some("/root".to_string())),
        "/home/alice/.config/nyalog"
    );
    assert_eq!(get_log_dir(&None, &Some("/home/bob".to_string())), "/home/bob/.config/nyalog");
    assert_eq!(get_log_dir(&None, &None), ".config/nyalog");
}

#[test]
fn log_file_joins_dir_and_date() {
    assert_eq!(
        get_log_file(&None, &Some("/home/bob".to_string()), 124, 2, 5),
        "/home/bob/.config/nyalog/2024-03-05.log"
    );
}

#[test]
fn text_helpers() {
    assert!(str_contains_ci("SWISS French", "swiss"));
    assert!(str_contains_ci("swiss", "SWISS"));
    assert!(!str_contains_ci("swis", "swiss"));
    assert_eq!(str_trim("  x \t"), "x");
    assert_eq!(str_trim("   "), "");
    assert_eq!(str_trim_quote_comma("\"English (US)\","), "English (US)");
    assert_eq!(str_second_token("layout:     us"), Some("us".to_string()));
    assert_eq!(str_second_token("layout:"), None);
    assert_eq!(str_colon_field1("a:b:c"), Some("b".to_string()));
    assert_eq!(str_colon_field1("a:b"), Some("b".to_string()));
    assert_eq!(str_colon_field1("nothing"), None);
    assert_eq!(split_lines("a\r\nb\nc"), vec!["a", "b", "c"]);
    assert_eq!(split_lines("a\n"), vec!["a"]);
    assert_eq!(split_lines(""), Vec::<String>::new());
    assert_eq!(split_lines("a\n\n"), vec!["a", ""]);
}
