use downloader_bot::size::{format_size, format_size_u64, to_nearest_f64};
use downloader_bot::stats::Statistics;
use downloader_bot::text::{append_decimal, append_digits, joined, same_text, strip_prefix};

fn float_size(size: u32) -> String {
    let mb = size as f64 / 1024.0 / 1024.0;
    if mb >= 1.0 {
        format!("{:.1}MB", mb)
    } else {
        format!("{:.0}KB", size as f64 / 1024.0)
    }
}

fn float_total(size: u64) -> String {
    let gb = size as f64 / 1024.0 / 1024.0 / 1024.0;
    if gb >= 1.0 {
        return format!("{:.2}GB", gb);
    }
    let mb = size as f64 / 1024.0 / 1024.0;
    if mb >= 1.0 {
        format!("{:.1}MB", mb)
    } else {
        format!("{:.0}KB", size as f64 / 1024.0)
    }
}

/// A fixed pseudo-random sequence.
fn next(state: &mut u64) -> u64 {
    *state ^= *state << 13;
    *state ^= *state >> 7;
    *state ^= *state << 17;
    *state
}

#[test]
fn decimal_of_integers() {
    for n in [0i64, 7, -7, 10, 99, 100, -120, i64::MAX, i64::MIN] {
        let mut s = String::from("x");
        append_decimal(&mut s, n);
        assert_eq!(s, format!("x{}", n));
    }
    let mut s = String::new();
    append_digits(&mut s, u64::MAX);
    assert_eq!(s, "18446744073709551615");
}

#[test]
fn prefixes_and_joins() {
    assert_eq!(strip_prefix("confirm:ä1", "confirm:"), Some("ä1".to_string()));
    assert_eq!(strip_prefix("confirm:", "confirm:"), Some(String::new()));
    assert_eq!(strip_prefix("confirm", "confirm:"), None);
    assert_eq!(strip_prefix("xconfirm:", "confirm:"), None);
    assert_eq!(joined("ab", "ç"), "abç");
    assert!(same_text("é", "é"));
    assert!(!same_text("é", "e"));
}

#[test]
fn sizes_in_kilobytes_and_megabytes() {
    assert_eq!(format_size(0), "0KB");
    assert_eq!(format_size(512), "0KB");
    assert_eq!(format_size(513), "1KB");
    assert_eq!(format_size(1536), "2KB");
    assert_eq!(format_size(2560), "2KB");
    assert_eq!(format_size(1048575), "1024KB");
    assert_eq!(format_size(1048576), "1.0MB");
    assert_eq!(format_size(1572864), "1.5MB");
    assert_eq!(format_size(2000 * 1024 * 1024), "2000.0MB");
    assert_eq!(format_size(u32::MAX), "4096.0MB");
}

#[test]
fn sizes_read_like_rounded_floats() {
    for size in 0..70_000u32 {
        assert_eq!(format_size(size), float_size(size));
    }
    // Exact halves of a tenth of a megabyte: n / 20 MB with n odd, where a quarter is a tie.
    for quarter in 4..40_000u32 {
        for shift in [0u32, 1, 2] {
            let size = quarter.wrapping_mul(262_144 >> shift);
            assert_eq!(format_size(size), float_size(size));
        }
    }
    let mut state = 88172645463325252;
    for _ in 0..50_000 {
        let size = next(&mut state) as u32;
        assert_eq!(format_size(size), float_size(size));
    }
}

#[test]
fn totals_in_gigabytes() {
    assert_eq!(format_size_u64(0), "0KB");
    assert_eq!(format_size_u64(1073741823), "1024.0MB");
    assert_eq!(format_size_u64(1073741824), "1.00GB");
    assert_eq!(format_size_u64(1610612736), "1.50GB");
    assert_eq!(format_size_u64(1073741824 + 1073741824 / 8), "1.12GB");
    assert_eq!(format_size_u64(1073741824 + 3 * 1073741824 / 8), "1.38GB");
    assert_eq!(format_size_u64(u64::MAX), "17179869184.00GB");
}

#[test]
fn totals_read_like_rounded_floats() {
    let mut state = 1234567891011;
    for i in 0..60_000u32 {
        let size = next(&mut state) >> (i % 64);
        assert_eq!(format_size_u64(size), float_total(size));
    }
    for bit in 0..64u32 {
        for delta in 0..40u64 {
            let size = (1u64 << bit).wrapping_add(delta);
            assert_eq!(format_size_u64(size), float_total(size));
            let below = (1u64 << bit).wrapping_sub(delta);
            assert_eq!(format_size_u64(below), float_total(below));
        }
    }
}

#[test]
fn large_totals_round_like_doubles() {
    assert_eq!(to_nearest_f64((1 << 53) - 1), (1 << 53) - 1);
    assert_eq!(to_nearest_f64((1 << 53) + 1), 1 << 53);
    assert_eq!(to_nearest_f64((1 << 53) + 3), (1 << 53) + 4);
    assert_eq!(to_nearest_f64(u64::MAX), 1 << 64);
    let mut state = 424242;
    for i in 0..20_000u32 {
        let n = next(&mut state) >> (i % 12);
        assert_eq!(to_nearest_f64(n), n as f64 as u128);
    }
}

#[test]
fn totals_below_a_gigabyte_read_like_sizes() {
    for size in [0u32, 1024, 999_999, 1048576, 123_456_789, 1073741823] {
        assert_eq!(format_size_u64(size as u64), format_size(size));
    }
}

#[test]
fn statistics_start_at_zero_or_where_they_were() {
    let fresh = Statistics::new();
    assert_eq!((fresh.total_downloaded_count, fresh.total_downloaded_bytes), (0, 0));
    assert_eq!(Statistics::load(None), fresh);
    let saved = Statistics { total_downloaded_count: 4, total_downloaded_bytes: 99 };
    assert_eq!(Statistics::load(Some(saved)), saved);
}

#[test]
fn statistics_count_until_full() {
    let mut s = Statistics { total_downloaded_count: 1, total_downloaded_bytes: 10 };
    assert!(s.has_room(7));
    s.record(7);
    assert_eq!(s, Statistics { total_downloaded_count: 2, total_downloaded_bytes: 17 });
    let full = Statistics { total_downloaded_count: u64::MAX, total_downloaded_bytes: 0 };
    assert!(!full.has_room(0));
    let heavy = Statistics { total_downloaded_count: 0, total_downloaded_bytes: u64::MAX - 3 };
    assert!(heavy.has_room(3));
    assert!(!heavy.has_room(4));
}

#[test]
fn every_chat_has_its_own_statistics_file() {
    assert_eq!(Statistics::file_name(42), "stats_42.json");
    assert_eq!(Statistics::file_name(-1001234567890), "stats_-1001234567890.json");
}
