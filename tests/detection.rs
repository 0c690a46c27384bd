use ua_matcher::browser::Browser;
use ua_matcher::registry::{get_browser, Registry};

fn detected(ua: &str) -> Option<(String, String)> {
    get_browser(ua).map(|b| (b.display_name, b.version))
}

fn found(name: &str, version: &str) -> Option<(String, String)> {
    Some((name.to_string(), version.to_string()))
}

#[test]
fn test_detects_browser() {
    let user_agent_string =
        "Mozilla/5.0 (Windows NT 10.0; Win64; x64; rv:64.0) Gecko/20100101 Firefox/64.0";

    let result = get_browser(user_agent_string);

    assert!(result.is_some());

    assert_eq!(
        result.unwrap(),
        Browser {
            display_name: "Firefox".to_string(),
            version: "64.0".to_string()
        }
    )
}

#[test]
fn firefox_token_in_any_case() {
    assert_eq!(detected("x firefox/12.0 y"), found("Firefox", "12.0"));
    assert_eq!(detected("FIREFOX/64.0"), found("Firefox", "64.0"));
    assert_eq!(detected("Firefox/64.0"), found("Firefox", "64.0"));
    assert_eq!(detected("firefox/64.0"), found("Firefox", "64.0"));
    assert_eq!(detected("fIrEfOx/64.0"), found("Firefox", "64.0"));
}

#[test]
fn firefox_version_stops_at_other_characters() {
    assert_eq!(detected("Firefox/12.0; rv"), found("Firefox", "12.0"));
    assert_eq!(detected("Firefox/1.2.3.4"), found("Firefox", "1.2.3.4"));
    assert_eq!(detected("Firefox/.5x"), found("Firefox", ".5"));
}

#[test]
fn firefox_token_without_version_is_no_match() {
    assert_eq!(detected("Firefox/"), None);
    assert_eq!(detected("Firefox/abc"), None);
}

#[test]
fn leftmost_firefox_token_wins() {
    assert_eq!(detected("Firefox/3.6 Firefox/12.0"), found("Firefox", "3.6"));
    assert_eq!(detected("Firefox/ Firefox/12.0"), found("Firefox", "12.0"));
}

#[test]
fn edge_token_with_two_digits() {
    let ua = "Mozilla/5.0 (Windows NT 10.0; Win64; x64) AppleWebKit/537.36 \
              (KHTML, like Gecko) Chrome/70.0.3538.102 Safari/537.36 Edge/18.17763";
    assert_eq!(detected(ua), found("Edge", "18.17763"));
    assert_eq!(detected("Edge/18.1"), found("Edge", "18.1"));
    assert_eq!(detected("EDGE/18.1"), found("Edge", "18.1"));
    assert_eq!(detected("edge/18.1.5"), found("Edge", "18.1"));
}

#[test]
fn edge_token_with_one_or_three_digits_is_no_match() {
    assert_eq!(detected("edge/8.1"), None);
    assert_eq!(detected("Edge/118.0"), None);
    assert_eq!(detected("Edge/18."), None);
}

#[test]
fn chrome_and_chromium_tokens() {
    assert_eq!(detected("Chrome/70.0.3538.77"), found("Chrome", "70.0.3538.77"));
    assert_eq!(detected("chromium/70.0.3538.77"), found("Chrome", "70.0.3538.77"));
    assert_eq!(detected("CHROMIUM/70.0.3538.77 Safari"), found("Chrome", "70.0.3538.77"));
    let ua = "Mozilla/5.0 (X11; Linux x86_64) AppleWebKit/537.36 (KHTML, like Gecko) \
              Chrome/70.0.3538.77 Safari/537.36";
    assert_eq!(detected(ua), found("Chrome", "70.0.3538.77"));
}

#[test]
fn rules_are_tried_in_order() {
    assert_eq!(detected("Chrome/70.0 Firefox/64.0"), found("Firefox", "64.0"));
    assert_eq!(detected("Chrome/70.0 Edge/18.1"), found("Edge", "18.1"));
    assert_eq!(detected("Edge/18.1 Firefox/64.0"), found("Firefox", "64.0"));
}

#[test]
fn no_token_gives_nothing() {
    assert_eq!(detected("curl/7.64.1"), None);
    assert_eq!(detected("Mozilla/5.0 Safari/537.36"), None);
    assert_eq!(detected(""), None);
}

#[test]
fn detection_is_repeatable() {
    let ua = "Mozilla/5.0 Gecko/20100101 Firefox/64.0";
    assert_eq!(get_browser(ua), get_browser(ua));
    let registry = Registry::build();
    assert_eq!(registry.detect(ua), registry.detect(ua));
    assert_eq!(registry.detect("none"), registry.detect("none"));
}

#[test]
fn non_ascii_text_around_a_token() {
    assert_eq!(detected("ünïcödé Firefox/64.0 ✓"), found("Firefox", "64.0"));
    assert_eq!(detected("日本 Chrome/1.2"), found("Chrome", "1.2"));
}

#[test]
fn registry_lists_rules_in_order() {
    let registry = Registry::build();
    let labels: Vec<&str> = registry.entries().iter().map(|r| r.label.as_str()).collect();
    assert_eq!(labels, vec!["Firefox", "Edge", "Chrome"]);
    assert_eq!(registry.entries()[2].pattern.prefixes, vec!["chromium/", "chrome/"]);
}

#[test]
fn browser_display_line() {
    let b = Browser::new("Firefox", "64.0");
    assert_eq!(b.to_display_string(), "Browser: Firefox Version: 64.0");
    assert_eq!(b, get_browser("Firefox/64.0").unwrap());
    assert_ne!(b, Browser::new("Firefox", "64.1"));
}

#[test]
fn versions_in_non_ascii_decimal_digits() {
    assert_eq!(detected("Firefox/١٢"), found("Firefox", "١٢"));
    assert_eq!(detected("Firefox/१२.०"), found("Firefox", "१२.०"));
    assert_eq!(detected("Edge/١٨.٣"), found("Edge", "١٨.٣"));
    assert_eq!(detected("Edge/1٨.3x"), found("Edge", "1٨.3"));
    assert_eq!(detected("chrome/٧٠.٠.٣"), found("Chrome", "٧٠.٠.٣"));
}

#[test]
fn other_numeric_characters_are_not_digits() {
    assert_eq!(detected("Firefox/²"), None);
    assert_eq!(detected("Firefox/Ⅻ"), None);
    assert_eq!(detected("Firefox/12½"), found("Firefox", "12"));
    assert_eq!(detected("Edge/١.٣"), None);
}
