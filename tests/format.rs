use rzp::size::format_bytes;

#[test]
fn format_bytes_small_values() {
    assert_eq!(format_bytes(0), "0.00 B");
    assert_eq!(format_bytes(1023), "1023.00 B");
    assert_eq!(format_bytes(1024), "1.00 KB");
    assert_eq!(format_bytes(1048576), "1.00 MB");
}

#[test]
fn format_bytes_up_the_ladder() {
    assert_eq!(format_bytes(1536), "1.50 KB");
    assert_eq!(format_bytes(1073741824), "1.00 GB");
    assert_eq!(format_bytes(1099511627776), "1.00 TB");
    assert_eq!(format_bytes(1048575), "1024.00 KB");
}

#[test]
fn format_bytes_stays_in_terabytes() {
    assert_eq!(format_bytes(1125899906842624), "1024.00 TB");
    assert_eq!(format_bytes(u64::MAX), "16777216.00 TB");
}

#[test]
fn format_bytes_rounds_ties_to_even() {
    // 1152 bytes are exactly 1.125 KB, 1160 bytes 1.1328125 KB.
    assert_eq!(format_bytes(1152), "1.12 KB");
    assert_eq!(format_bytes(1160), "1.13 KB");
}

fn float_rendering(b: u64) -> String {
    let units = ["B", "KB", "MB", "GB", "TB"];
    let mut size = b as f64;
    let mut k = 0;
    while size >= 1024.0 && k < 4 {
        size /= 1024.0;
        k += 1;
    }
    format!("{:.2} {}", size, units[k])
}

#[test]
fn format_bytes_agrees_with_float_rendering() {
    for b in 0..20000u64 {
        assert_eq!(format_bytes(b), float_rendering(b), "{}", b);
    }
    let mut b: u64 = 7;
    while b < u64::MAX / 4 {
        assert_eq!(format_bytes(b), float_rendering(b), "{}", b);
        assert_eq!(format_bytes(b + 1), float_rendering(b + 1), "{}", b + 1);
        b = b * 3 + 11;
    }
    for b in [(1u64 << 53) - 1, 1u64 << 53, (1u64 << 53) + 1, (1u64 << 54) + 2, u64::MAX - 1, u64::MAX] {
        assert_eq!(format_bytes(b), float_rendering(b), "{}", b);
    }
}

#[test]
fn format_bytes_takes_the_count_as_a_double() {
    // As a double this count is exactly 8192.125 TB, a tie that goes to even.
    assert_eq!(format_bytes(9007336693694465), "8192.12 TB");
    assert_eq!(format_bytes(9007336693694465), float_rendering(9007336693694465));
}
