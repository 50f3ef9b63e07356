use wa_cli::config::Config;
use wa_cli::config::config_dir;
use wa_cli::config::config_file_path;
use wa_cli::request::plan_request;
use wa_cli::text::trim_chars;
use wa_cli::text::u32_to_decimal;

#[test]
fn decimal_zero() {
    assert_eq!(u32_to_decimal(0), "0");
}

#[test]
fn decimal_default_font_size() {
    assert_eq!(u32_to_decimal(14), "14");
}

#[test]
fn decimal_largest() {
    assert_eq!(u32_to_decimal(u32::MAX), "4294967295");
}

#[test]
fn decimal_round_number() {
    assert_eq!(u32_to_decimal(1000), "1000");
}

#[test]
fn decimal_matches_std() {
    for n in [0u32, 1, 9, 10, 99, 100, 12345, 400000000, u32::MAX] {
        assert_eq!(u32_to_decimal(n), n.to_string());
    }
}

#[test]
fn trim_newline() {
    assert_eq!(trim_chars("ABCDEF-123456\n"), "ABCDEF-123456");
}

#[test]
fn trim_both_ends() {
    assert_eq!(trim_chars(" \t key \r\n"), "key");
}

#[test]
fn trim_empty() {
    assert_eq!(trim_chars(""), "");
}

#[test]
fn trim_all_whitespace() {
    assert_eq!(trim_chars(" \t\r\n"), "");
}

#[test]
fn trim_keeps_inner_whitespace() {
    assert_eq!(trim_chars("a b"), "a b");
}

#[test]
fn trim_unicode_whitespace() {
    assert_eq!(trim_chars("\u{3000}x\u{2028}"), "x");
}

#[test]
fn trim_matches_std() {
    for s in ["", "  ", "a", " a b\u{A0}", "\u{1680}q\u{205F}", "\nkey\r"] {
        assert_eq!(trim_chars(s), s.trim());
    }
}

#[test]
fn fresh_config_defaults() {
    let c = Config::with_app_id("XXXXXX-YYYYYYYYYY".to_string());
    assert_eq!(c.app_id, "XXXXXX-YYYYYYYYYY");
    assert_eq!(c.background, "FFFFFF");
    assert_eq!(c.foreground, "000000");
    assert_eq!(c.font_size, 14);
    assert_eq!(c.units, "metric");
}

#[test]
fn entered_key_is_trimmed() {
    let c = Config::from_entered_key("  XXXXXX-YYYYYYYYYY\n");
    assert_eq!(c.app_id, "XXXXXX-YYYYYYYYYY");
    assert_eq!(c.units, "metric");
}

#[test]
fn dir_from_xdg_config_home() {
    let r = config_dir(Some("/tmp/conf".to_string()), Some("/home/u".to_string()));
    assert_eq!(r, Some("/tmp/conf/wa-cli".to_string()));
}

#[test]
fn dir_from_home() {
    let r = config_dir(None, Some("/home/u".to_string()));
    assert_eq!(r, Some("/home/u/.config/wa-cli".to_string()));
}

#[test]
fn dir_from_nothing() {
    assert_eq!(config_dir(None, None), None);
}

#[test]
fn file_path_inside_dir() {
    assert_eq!(config_file_path("/home/u/.config/wa-cli"), "/home/u/.config/wa-cli/config.toml");
}

#[test]
fn empty_query_is_refused() {
    let c = Config::with_app_id("K".to_string());
    assert!(plan_request(&c, "", false).is_none());
    assert!(plan_request(&c, "", true).is_none());
}

#[test]
fn text_answer_plan() {
    let c = Config::with_app_id("APPID-1".to_string());
    let p = plan_request(&c, "2+2", false).unwrap();
    assert_eq!(p.url, "https://api.wolframalpha.com/v1/result");
    let want = [
        ("appid", "APPID-1"),
        ("i", "2+2"),
        ("units", "metric"),
        ("background", "FFFFFF"),
        ("foreground", "000000"),
        ("fontsize", "14"),
    ];
    assert_eq!(p.params.len(), want.len());
    for (got, expect) in p.params.iter().zip(want.iter()) {
        assert_eq!(got.0, expect.0);
        assert_eq!(got.1, expect.1);
    }
}

#[test]
fn image_answer_plan() {
    let mut c = Config::with_app_id("APPID-2".to_string());
    c.font_size = 200;
    c.units = "imperial".to_string();
    let p = plan_request(&c, "mass of the moon", true).unwrap();
    assert_eq!(p.url, "https://api.wolframalpha.com/v1/simple");
    assert_eq!(p.params[2].1, "imperial");
    assert_eq!(p.params[5].1, "200");
}
