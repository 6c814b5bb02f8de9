use tool_provision::sizes::format_file_size;

/// The same size, computed in floating point.
fn by_float(bytes: u64) -> String {
    let units = ["B", "KB", "MB", "GB"];
    let mut size = bytes as f64;
    let mut unit = 0;
    while size >= 1024.0 && unit < units.len() - 1 {
        size /= 1024.0;
        unit += 1;
    }
    format!("{:.1} {}", size, units[unit])
}

#[test]
fn sizes_in_each_unit() {
    assert_eq!(format_file_size(0), "0.0 B");
    assert_eq!(format_file_size(1), "1.0 B");
    assert_eq!(format_file_size(1023), "1023.0 B");
    assert_eq!(format_file_size(1024), "1.0 KB");
    assert_eq!(format_file_size(1536), "1.5 KB");
    assert_eq!(format_file_size(1048575), "1024.0 KB");
    assert_eq!(format_file_size(1048576), "1.0 MB");
    assert_eq!(format_file_size(30 * 1048576 + 524288), "30.5 MB");
    assert_eq!(format_file_size(1073741824), "1.0 GB");
    assert_eq!(format_file_size(5 * 1073741824), "5.0 GB");
    assert_eq!(format_file_size(u64::MAX), "17179869184.0 GB");
}

#[test]
fn a_half_goes_to_the_even_tenth() {
    assert_eq!(format_file_size(1280), "1.2 KB");
    assert_eq!(format_file_size(1792), "1.8 KB");
    assert_eq!(format_file_size(1331), "1.3 KB");
    assert_eq!(format_file_size(1024 + 51), "1.0 KB");
    assert_eq!(format_file_size(1024 + 52), "1.1 KB");
}

#[test]
fn sizes_agree_with_floating_point_at_the_edges() {
    let mut values = vec![0u64, 1, 9, 10, 1023, 1024, 1025, 1279, 1280, 1281, 1791, 1792, 1793];
    for shift in 0..64 {
        let p = 1u64 << shift;
        for d in [0u64, 1, 2, 3, 51, 52, 256, 512, 768] {
            values.push(p.wrapping_add(d));
            values.push(p.wrapping_sub(d));
        }
        values.push(p + p / 4);
        values.push(p + p / 2 + p / 4);
        values.push(p / 8 * 10);
    }
    values.push(u64::MAX);
    values.push(u64::MAX - 1023);
    values.push(u64::MAX - 1024);
    for v in values {
        assert_eq!(format_file_size(v), by_float(v), "{}", v);
    }
}

#[test]
fn sizes_agree_with_floating_point_on_a_sweep() {
    let mut x: u64 = 0x9e37_79b9_7f4a_7c15;
    for i in 0..200_000u32 {
        x = x.wrapping_mul(6364136223846793005).wrapping_add(1442695040888963407);
        let v = x >> (i % 64);
        assert_eq!(format_file_size(v), by_float(v), "{}", v);
    }
    for v in 0..20_000u64 {
        assert_eq!(format_file_size(v), by_float(v), "{}", v);
        let m = v * 1048576 / 1000 + 1048576;
        assert_eq!(format_file_size(m), by_float(m), "{}", m);
    }
}
