use flashscreen::clock::{format_stamp, recording_file_name, LocalStamp};
use flashscreen::paths::{app_folder_in, get_output_directory};
use flashscreen::text::{decimal_text, digit_count, push_signed_decimal, push_zero_padded, text_eq};

fn stamp(year: i32, month: u32, day: u32, hour: u32, minute: u32, second: u32) -> LocalStamp {
    LocalStamp { year, month, day, hour, minute, second }
}

#[test]
fn file_name_from_stamp() {
    let s = stamp(2024, 3, 5, 7, 8, 9);
    assert_eq!(recording_file_name(&s), "FlashScreen_20240305_070809.mp4");
    assert_eq!(format_stamp(&stamp(1999, 12, 31, 23, 59, 59)), "19991231_235959");
}

#[test]
fn file_name_with_unusual_years() {
    assert_eq!(format_stamp(&stamp(987, 1, 1, 0, 0, 0)), "09870101_000000");
    assert_eq!(format_stamp(&stamp(12345, 1, 1, 0, 0, 0)), "+123450101_000000");
    assert_eq!(format_stamp(&stamp(-44, 3, 15, 12, 0, 0)), "-00440315_120000");
}

#[test]
fn decimal_rendering() {
    assert_eq!(decimal_text(0), "0");
    assert_eq!(decimal_text(60), "60");
    assert_eq!(decimal_text(u64::MAX), "18446744073709551615");
    assert_eq!(digit_count(u64::MAX), 20);
    assert_eq!(digit_count(9), 1);
    let mut s = String::from("v=");
    push_signed_decimal(&mut s, i64::MIN);
    assert_eq!(s, "v=-9223372036854775808");
    let mut p = String::new();
    push_zero_padded(&mut p, 7, 3);
    push_zero_padded(&mut p, 12345, 2);
    assert_eq!(p, "00712345");
}

#[test]
fn text_equality() {
    assert!(text_eq("1080p", "1080p"));
    assert!(!text_eq("1080p", "1080"));
    assert!(!text_eq("abc", "abd"));
    assert!(text_eq("", ""));
}

#[test]
fn app_folder_joins_video_folder() {
    assert_eq!(app_folder_in(Some("/home/u/Videos".to_string())), Some("/home/u/Videos/FlashScreen".to_string()));
    assert_eq!(app_folder_in(Some("/home/u/Videos/".to_string())), Some("/home/u/Videos/FlashScreen".to_string()));
    assert_eq!(app_folder_in(None), None);
    let d = get_output_directory();
    assert!(d.is_empty() || d.ends_with("FlashScreen"));
}
