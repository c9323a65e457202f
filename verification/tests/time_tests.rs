use dsh_desktop::base64::base64_encode;
use dsh_desktop::logs::should_rotate;
use dsh_desktop::prompt::should_prompt_given;
use dsh_desktop::timestamp::{export_filename, format_timestamp, timestamp_compact};

#[test]
fn should_prompt_given_24h_dedup_rules() {
    let day = 24 * 3600;
    // Same version, still fresh: suppress.
    assert!(!should_prompt_given("1.0.2", 100, "1.0.2", 100 + day - 1));
    // Same version, a day old or more: prompt.
    assert!(should_prompt_given("1.0.2", 100, "1.0.2", 100 + day));
    // Different version: prompt regardless of age.
    assert!(should_prompt_given("1.0.2", 100, "1.0.3", 100 + 1));
}

#[test]
fn timestamp_compact_known_epochs_utc() {
    assert_eq!(timestamp_compact(0), "19700101-000000");
    assert_eq!(timestamp_compact(946_684_800), "20000101-000000");
    assert_eq!(timestamp_compact(951_782_400), "20000229-000000");
    assert_eq!(timestamp_compact(951_868_800), "20000301-000000");
    assert_eq!(timestamp_compact(951_868_800 + 36_000), "20000301-100000");
}

#[test]
fn format_timestamp_known_epochs_utc() {
    assert_eq!(format_timestamp(0, 0), "1970-01-01 00:00:00.000");
    assert_eq!(format_timestamp(946_684_800, 123), "2000-01-01 00:00:00.123");
    assert_eq!(format_timestamp(951_868_800 + 36_000, 7), "2000-03-01 10:00:00.007");
}

#[test]
fn export_filename_format() {
    assert_eq!(export_filename(951_868_800), "dsh-desktop-20000301-000000.log");
}

#[test]
fn should_rotate_only_above_cap() {
    assert!(!should_rotate(1024 * 1024, 1024 * 1024));
    assert!(should_rotate(1024 * 1024 + 1, 1024 * 1024));
}

#[test]
fn base64_encode_matches_known_vectors() {
    assert_eq!(base64_encode(b""), "");
    assert_eq!(base64_encode(b"f"), "Zg==");
    assert_eq!(base64_encode(b"fo"), "Zm8=");
    assert_eq!(base64_encode(b"foo"), "Zm9v");
    assert_eq!(base64_encode(b"foob"), "Zm9vYg==");
    assert_eq!(base64_encode(b"fooba"), "Zm9vYmE=");
    assert_eq!(base64_encode(b"foobar"), "Zm9vYmFy");
}
