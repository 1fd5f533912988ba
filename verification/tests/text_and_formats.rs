use atlas_backend::config::Config;
use atlas_backend::db::content_range_total;
use atlas_backend::documents::format_file_size;
use atlas_backend::text::{decimal_string, parse_unsigned, trim};

fn reference_size(bytes: usize) -> String {
    if bytes < 1024 {
        format!("{} B", bytes)
    } else if bytes < 1024 * 1024 {
        format!("{:.1} KB", bytes as f64 / 1024.0)
    } else {
        format!("{:.1} MB", bytes as f64 / (1024.0 * 1024.0))
    }
}

#[test]
fn file_size_matches_float_formatting() {
    let mut samples: Vec<usize> = Vec::new();
    for b in 0..5000usize {
        samples.push(b);
    }
    for k in 0..4000usize {
        samples.push(1024 * 1024 - 2000 + k);
        samples.push(k * 262 + 1024);
        samples.push(k * 52429 + 1048576);
    }
    samples.push(usize::MAX);
    samples.push(usize::MAX - 1);
    samples.push(1usize << 53);
    samples.push((1usize << 53) + 1);
    samples.push((1usize << 60) + 12345);
    samples.push(52428800);
    for b in samples {
        assert_eq!(format_file_size(b), reference_size(b), "bytes = {b}");
    }
}

#[test]
fn file_size_exact_values() {
    assert_eq!(format_file_size(0), "0 B");
    assert_eq!(format_file_size(1023), "1023 B");
    assert_eq!(format_file_size(1024), "1.0 KB");
    assert_eq!(format_file_size(1536), "1.5 KB");
    assert_eq!(format_file_size(1048576), "1.0 MB");
    assert_eq!(format_file_size(52428800), "50.0 MB");
}

#[test]
fn trim_matches_std() {
    let cases = [
        "", " ", "  a  ", "\t\nabc\r\n", "\u{3000}x\u{2029}", "a b", "\u{85}\u{a0}z", "x\u{200b}",
        "\u{1680}\u{2000}\u{200a}\u{2028}\u{202f}\u{205f}",
    ];
    for c in cases {
        assert_eq!(trim(c), c.trim(), "case {c:?}");
    }
}

#[test]
fn parse_unsigned_matches_std() {
    let cases = [
        "", "+", "-", "0", "+0", "-0", "8080", "65535", "65536", "+65535", "0065535", " 1", "1 ",
        "12a", "99999999999999999999", "18446744073709551615", "18446744073709551616", "٣",
    ];
    for c in cases {
        assert_eq!(parse_unsigned(c, u16::MAX as u64), c.parse::<u16>().ok().map(|v| v as u64), "u16 {c:?}");
        assert_eq!(parse_unsigned(c, u64::MAX), c.parse::<u64>().ok(), "u64 {c:?}");
    }
}

#[test]
fn decimal_rendering() {
    for n in [0u64, 7, 10, 99, 100, 8080, 65535, u64::MAX] {
        assert_eq!(decimal_string(n), n.to_string());
    }
}

#[test]
fn config_defaults_and_bind_addr() {
    let c = Config::from_values(None, None, None);
    assert_eq!(c.host, "127.0.0.1");
    assert_eq!(c.port, 8080);
    assert_eq!(c.frontend_url, "http://localhost:3000");
    assert_eq!(c.bind_addr(), "127.0.0.1:8080");
    let c = Config::from_values(Some("0.0.0.0".to_string()), Some("9000".to_string()), Some("https://app".to_string()));
    assert_eq!(c.bind_addr(), "0.0.0.0:9000");
    assert_eq!(c.frontend_url, "https://app");
    let c = Config::from_values(None, Some("70000".to_string()), None);
    assert_eq!(c.port, 8080);
    let c = Config::from_values(None, Some("abc".to_string()), None);
    assert_eq!(c.port, 8080);
}

#[test]
fn content_range_totals() {
    assert_eq!(content_range_total(Some("0-24/573".to_string())), 573);
    assert_eq!(content_range_total(Some("*/0".to_string())), 0);
    assert_eq!(content_range_total(Some("*/12/7".to_string())), 12);
    assert_eq!(content_range_total(Some("no-slash".to_string())), 0);
    assert_eq!(content_range_total(Some("0-1/abc".to_string())), 0);
    assert_eq!(content_range_total(None), 0);
}

#[test]
fn port_round_trip() {
    for p in [0u16, 1, 9, 10, 80, 443, 8080, 65535] {
        let c = Config::from_values(None, Some(decimal_string(p as u64)), None);
        assert_eq!(c.port, p);
        assert_eq!(c.bind_addr(), format!("127.0.0.1:{p}"));
    }
}

#[test]
fn content_range_round_trip() {
    for t in [0u64, 7, 573, 1_000_000, u64::MAX] {
        for range in ["*", "0-24", ""] {
            let header = format!("{range}/{}", decimal_string(t));
            assert_eq!(content_range_total(Some(header)), t);
        }
    }
}
