use patentupload::utils::format_file_size;

/// The same size shown by way of binary floating point: divide by 1024 until
/// the number is below 1024 or the largest unit is reached, then print it
/// with one digit behind the point.
fn shown_by_floating_point(size: u64) -> String {
    let units = ["B", "KB", "MB", "GB", "TB"];
    let mut value = size as f64;
    let mut unit = 0;
    while value >= 1024.0 && unit < units.len() - 1 {
        value /= 1024.0;
        unit += 1;
    }
    if unit == 0 {
        format!("{} {}", value as u64, units[unit])
    } else {
        format!("{:.1} {}", value, units[unit])
    }
}

#[test]
fn sizes_below_one_kilobyte_are_counted_in_bytes() {
    assert_eq!(format_file_size(0), "0 B");
    assert_eq!(format_file_size(1), "1 B");
    assert_eq!(format_file_size(512), "512 B");
    assert_eq!(format_file_size(1023), "1023 B");
}

#[test]
fn sizes_take_the_largest_unit_that_fits() {
    assert_eq!(format_file_size(1024), "1.0 KB");
    assert_eq!(format_file_size(1536), "1.5 KB");
    assert_eq!(format_file_size(1024 * 1024), "1.0 MB");
    assert_eq!(format_file_size(5 * 1024 * 1024 + 512 * 1024), "5.5 MB");
    assert_eq!(format_file_size(1024 * 1024 * 1024), "1.0 GB");
    assert_eq!(format_file_size(1024u64 * 1024 * 1024 * 1024), "1.0 TB");
    assert_eq!(format_file_size(3 * 1024u64 * 1024 * 1024 * 1024), "3.0 TB");
}

#[test]
fn sizes_are_rounded_to_the_nearest_tenth() {
    assert_eq!(format_file_size(1100), "1.1 KB");
    assert_eq!(format_file_size(1075), "1.0 KB");
    assert_eq!(format_file_size(1076), "1.1 KB");
    assert_eq!(format_file_size(1024 * 1024 - 1), "1024.0 KB");
}

#[test]
fn a_size_half_way_between_two_tenths_goes_to_the_even_one() {
    // 1280 bytes are 1.25 KB, 1792 bytes are 1.75 KB.
    assert_eq!(format_file_size(1280), "1.2 KB");
    assert_eq!(format_file_size(1792), "1.8 KB");
    assert_eq!(format_file_size(1024 + 512 + 256), "1.8 KB");
}

#[test]
fn the_largest_unit_has_no_upper_end() {
    assert_eq!(format_file_size(2048u64 * 1024 * 1024 * 1024 * 1024), "2048.0 TB");
    assert_eq!(format_file_size(u64::MAX), "16777216.0 TB");
}

#[test]
fn sizes_agree_with_floating_point_at_the_unit_borders() {
    let mut border: u64 = 1;
    for _ in 0..64 {
        for delta in 0..3u64 {
            let below = border.wrapping_sub(delta);
            let above = border.wrapping_add(delta);
            assert_eq!(format_file_size(below), shown_by_floating_point(below), "size {}", below);
            assert_eq!(format_file_size(above), shown_by_floating_point(above), "size {}", above);
        }
        border = border.wrapping_mul(2);
    }
}

#[test]
fn sizes_agree_with_floating_point_on_scattered_values() {
    // A fixed multiplicative sequence that visits sizes of every magnitude.
    let mut state: u64 = 0x9E37_79B9_7F4A_7C15;
    for round in 0..20_000u32 {
        state = state.wrapping_mul(6364136223846793005).wrapping_add(1442695040888963407);
        let size = state >> (round % 64);
        assert_eq!(format_file_size(size), shown_by_floating_point(size), "size {}", size);
    }
}

#[test]
fn sizes_agree_with_floating_point_around_half_way_cases() {
    for unit in [1u64 << 10, 1 << 20, 1 << 30, 1 << 40] {
        for whole in [1u64, 2, 7, 10, 99, 1000, 1023] {
            for twentieths in 0..20u64 {
                let size = whole * unit + twentieths * (unit / 20);
                for delta in 0..3u64 {
                    let a = size + delta;
                    let b = size - delta;
                    assert_eq!(format_file_size(a), shown_by_floating_point(a), "size {}", a);
                    assert_eq!(format_file_size(b), shown_by_floating_point(b), "size {}", b);
                }
            }
            for quarter in [unit / 4, 3 * (unit / 4), unit / 8, unit / 2] {
                let size = whole * unit + quarter;
                assert_eq!(format_file_size(size), shown_by_floating_point(size), "size {}", size);
            }
        }
    }
}

#[test]
fn sizes_agree_with_floating_point_beyond_fifty_three_bits() {
    for bits in 53..64u32 {
        let base = 1u64 << bits;
        let step = 1u64 << (bits - 52);
        for k in 0..200u64 {
            for size in [base + k, base + k * step / 2, base + k * step + step / 2, base - 1 - k] {
                assert_eq!(format_file_size(size), shown_by_floating_point(size), "size {}", size);
            }
        }
    }
    for k in 0..5000u64 {
        let size = u64::MAX - k;
        assert_eq!(format_file_size(size), shown_by_floating_point(size), "size {}", size);
    }
}
