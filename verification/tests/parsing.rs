use lib::evidence::{format_size, Evidence, EvidenceValue, ProbeStatus};
use lib::evidence::Confidence as EvidenceConfidence;
use lib::kconfig::{config_is_set, config_val_label, config_value, ConfigValue};
use lib::scan::{is_ws_char, mount_ok, second_field_str, trim_str};
use lib::text::{concat3, join_strs, str_contains, str_find, str_starts_with, u64_to_string};
use lib::update::{compare_versions, parse_u16, release_tag, UpdateCheckError};

const CONFIG: &str = "#\n# Linux kernel config\nCONFIG_MODULES=y\nCONFIG_MODULE_SIG=m\n# CONFIG_RUST is not set\nCONFIG_BPF=n\n  CONFIG_KALLSYMS=y  \n";

#[test]
fn config_values_by_line() {
    assert_eq!(config_value(CONFIG, "MODULES"), ConfigValue::Yes);
    assert_eq!(config_value(CONFIG, "MODULE_SIG"), ConfigValue::Module);
    assert_eq!(config_value(CONFIG, "RUST"), ConfigValue::No);
    assert_eq!(config_value(CONFIG, "BPF"), ConfigValue::No);
    assert_eq!(config_value(CONFIG, "KALLSYMS"), ConfigValue::Yes);
    assert_eq!(config_value(CONFIG, "LIVEPATCH"), ConfigValue::Missing);
    // A prefix of another option's name is not that option.
    assert_eq!(config_value(CONFIG, "MODULE"), ConfigValue::Missing);
    assert_eq!(config_value("", "MODULES"), ConfigValue::Missing);
}

#[test]
fn config_is_set_tristate() {
    assert_eq!(config_is_set(CONFIG, "MODULES"), Some(true));
    assert_eq!(config_is_set(CONFIG, "MODULE_SIG"), Some(true));
    assert_eq!(config_is_set(CONFIG, "RUST"), Some(false));
    assert_eq!(config_is_set(CONFIG, "LIVEPATCH"), None);
}

#[test]
fn config_value_labels() {
    assert_eq!(config_val_label(Some(CONFIG), "MODULE_SIG"), "m");
    assert_eq!(config_val_label(Some(CONFIG), "MODULES"), "y");
    assert_eq!(config_val_label(Some(CONFIG), "RUST"), "y");
    assert_eq!(config_val_label(None, "MODULES"), "y");
    assert_eq!(ConfigValue::Missing.label(true), "not set");
    assert_eq!(ConfigValue::Missing.label(false), "Unknown");
    assert!(ConfigValue::Module.is_enabled());
    assert!(!ConfigValue::No.is_enabled());
    assert!(ConfigValue::No.is_known());
    assert!(!ConfigValue::Missing.is_known());
}

#[test]
fn mount_table_second_field() {
    let mounts = "sysfs /sys sysfs rw 0 0\ndebugfs /sys/kernel/debug debugfs rw 0 0\n";
    assert!(mount_ok(mounts, "/sys/kernel/debug"));
    assert!(mount_ok(mounts, "/sys"));
    assert!(!mount_ok(mounts, "/sys/kernel/tracing"));
    assert!(!mount_ok("", "/sys"));
    assert_eq!(second_field_str("  a\tb c"), Some("b"));
    assert_eq!(second_field_str("only"), None);
}

#[test]
fn trimming_unicode_white_space() {
    assert_eq!(trim_str("  x y \t\n"), "x y");
    assert_eq!(trim_str("\u{a0}z\u{3000}"), "z");
    assert_eq!(trim_str("   "), "");
    assert!(is_ws_char('\u{2028}'));
    assert!(!is_ws_char('x'));
}

#[test]
fn text_helpers() {
    assert_eq!(str_find("abcabc", "ca"), Some(2));
    assert_eq!(str_find("abc", "d"), None);
    assert_eq!(str_find("abc", ""), Some(0));
    assert!(str_contains("kernel headers", "head"));
    assert!(str_starts_with("config.MODULES", "config."));
    assert!(!str_starts_with("con", "config."));
    assert_eq!(concat3("a", "-", "b"), "a-b");
    assert_eq!(join_strs(&vec!["x", "y", "z"], ", "), "x, y, z");
    assert_eq!(join_strs(&vec![], ", "), "");
    assert_eq!(u64_to_string(0), "0");
    assert_eq!(u64_to_string(18446744073709551615), "18446744073709551615");
}

#[test]
fn sizes_match_one_decimal_formatting() {
    for bytes in [0u64, 1, 1023, 1024, 1536, 1075, 1126, 10 * 1024 * 1024, 1048575, 1048576, 3 * 1048576 / 2, 123456789] {
        let expected = if bytes >= 1_048_576 {
            format!("{:.1} MB", bytes as f64 / 1_048_576.0)
        } else if bytes >= 1024 {
            format!("{:.1} KB", bytes as f64 / 1024.0)
        } else {
            format!("{bytes} B")
        };
        assert_eq!(format_size(bytes), expected, "bytes = {bytes}");
    }
}

#[test]
fn evidence_display_values() {
    assert_eq!(EvidenceValue::Text(None).display(), "Unknown");
    assert_eq!(EvidenceValue::Bool(true).display(), "yes");
    assert_eq!(EvidenceValue::Bool(false).display(), "no");
    assert_eq!(EvidenceValue::Config(ConfigValue::Module).display(), "m");
    assert_eq!(EvidenceValue::Config(ConfigValue::Missing).display(), "not set");
    assert_eq!(EvidenceValue::Count(42).display(), "42");
    assert_eq!(EvidenceValue::Size(2048).display(), "2.0 KB");
    assert_eq!(EvidenceValue::Path(None).display(), "not found");
    assert_eq!(EvidenceValue::Status("readable").display(), "readable");
    let e = Evidence::missing("fs.debugfs", EvidenceValue::Bool(false)).with_confidence(EvidenceConfidence::Low);
    assert_eq!(e.status, ProbeStatus::Missing);
    assert_eq!(e.confidence, EvidenceConfidence::Low);
    assert_eq!(ProbeStatus::Denied.label(), "denied");
}

#[test]
fn parse_status_codes() {
    assert_eq!(parse_u16("200"), Some(200));
    assert_eq!(parse_u16("+7"), Some(7));
    assert_eq!(parse_u16("0065535"), Some(65535));
    assert_eq!(parse_u16("65536"), None);
    assert_eq!(parse_u16(""), None);
    assert_eq!(parse_u16("+"), None);
    assert_eq!(parse_u16("-1"), None);
    assert_eq!(parse_u16("2 0"), None);
    for s in ["1", "404", "+12", "99999", "a1", "12a", "", "+"] {
        assert_eq!(parse_u16(s), s.parse::<u16>().ok(), "{s:?}");
    }
}

#[test]
fn release_tag_from_api_answer() {
    let raw = "{\n  \"url\": \"x\",\n  \"tag_name\" :  \"v0.3.0\",\n  \"name\": \"r\"\n}\n200";
    assert_eq!(release_tag(raw), Ok("v0.3.0".to_string()));
    assert_eq!(release_tag("{\"tag_name\":\"1.2\"}\n 200 \n"), Err(UpdateCheckError::HttpStatus(0)));
    assert_eq!(release_tag("{\"tag_name\":\"1.2\"}\n 200 "), Ok("1.2".to_string()));
}

#[test]
fn release_tag_errors() {
    assert_eq!(release_tag("no newline"), Err(UpdateCheckError::Malformed));
    assert_eq!(release_tag("{}\n404"), Err(UpdateCheckError::HttpStatus(404)));
    assert_eq!(release_tag("{}\nnot a number"), Err(UpdateCheckError::HttpStatus(0)));
    assert_eq!(release_tag("{\"name\": \"x\"}\n200"), Err(UpdateCheckError::TagNotFound));
    assert_eq!(release_tag("{\"tag_name\" 1}\n200"), Err(UpdateCheckError::TagNotFound));
    assert_eq!(release_tag("{\"tag_name\": 1}\n200"), Err(UpdateCheckError::TagNotFound));
    assert_eq!(release_tag("{\"tag_name\": \"open\n200"), Err(UpdateCheckError::TagNotFound));
}

#[test]
fn version_comparison() {
    let r = compare_versions("0.2.0", "v0.2.0");
    assert_eq!(r.current, "v0.2.0");
    assert_eq!(r.latest, "v0.2.0");
    assert!(r.up_to_date);
    let r = compare_versions("0.2.0", "0.3.0");
    assert_eq!(r.latest, "v0.3.0");
    assert!(!r.up_to_date);
}

#[test]
fn own_version_is_up_to_date() {
    for v in ["0.2.0", "1.0.0-rc1"] {
        assert!(compare_versions(v, v).up_to_date);
        assert!(compare_versions(v, &format!("v{v}")).up_to_date);
    }
}
