use aerolithdb::format::{format_bytes, format_key_name};

#[test]
fn test_format_key_name() {
    assert_eq!(format_key_name("total_docs"), "Total Docs");
    assert_eq!(format_key_name("avg_query_time_ms"), "Avg Query Time Ms");
    assert_eq!(format_key_name("cache_hit_rate"), "Cache Hit Rate");
}

#[test]
fn test_format_bytes() {
    assert_eq!(format_bytes(1024), "1.0 KB");
    assert_eq!(format_bytes(1048576), "1.0 MB");
    assert_eq!(format_bytes(1073741824), "1.0 GB");
    assert_eq!(format_bytes(512), "512 B");
}

fn reference_bytes(bytes: u64) -> String {
    let units = ["B", "KB", "MB", "GB", "TB"];
    let mut size = bytes as f64;
    let mut unit_index = 0;
    while size >= 1024.0 && unit_index < units.len() - 1 {
        size /= 1024.0;
        unit_index += 1;
    }
    if unit_index == 0 {
        format!("{} {}", bytes, units[unit_index])
    } else {
        format!("{:.1} {}", size, units[unit_index])
    }
}

#[test]
fn format_bytes_matches_float_rendering() {
    let samples: [u64; 14] = [
        0, 1, 1023, 1024, 1280, 1536, 1587, 10_485_760, 1_099_511_627_776, 5_000_000_000_000,
        u64::MAX, 9_007_199_254_740_993, 3 * 1024 * 1024 + 512 * 1024, 1_125_899_906_842_624,
    ];
    for b in samples {
        assert_eq!(format_bytes(b), reference_bytes(b), "bytes = {}", b);
    }
}

#[test]
fn format_bytes_ties_round_to_even() {
    assert_eq!(format_bytes(1280), "1.2 KB");
    assert_eq!(format_bytes(1536), "1.5 KB");
}

#[test]
fn format_key_name_collapses_separators() {
    assert_eq!(format_key_name("__a__b"), "A B");
    assert_eq!(format_key_name(""), "");
    assert_eq!(format_key_name("already Spaced"), "Already Spaced");
}

#[test]
fn format_key_name_is_idempotent_on_ascii_keys() {
    for key in ["total_docs", "__a__b", "already Spaced", "cpu_percent  now", "x"] {
        let label = format_key_name(key);
        assert_eq!(format_key_name(&label), label);
        assert!(!label.contains('_'));
    }
}
