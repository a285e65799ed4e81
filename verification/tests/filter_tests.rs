use netcapture::{should_capture, EventStreamConfig};

fn config(url: Option<&str>, content_type: Option<&str>) -> EventStreamConfig {
    EventStreamConfig {
        url_substring_filter: url.map(|s| s.to_string()),
        content_type_substring_filter: content_type.map(|s| s.to_string()),
    }
}

#[test]
fn default_config_has_no_filters() {
    let c = EventStreamConfig::default();
    assert!(c.url_substring_filter.is_none());
    assert!(c.content_type_substring_filter.is_none());
}

#[test]
fn cloned_config_keeps_the_filters() {
    let c = config(Some("api"), Some("json"));
    let d = c.clone();
    assert_eq!(d.url_substring_filter.as_deref(), Some("api"));
    assert_eq!(d.content_type_substring_filter.as_deref(), Some("json"));
}

#[test]
fn no_filters_capture_everything() {
    let c = EventStreamConfig::default();
    assert!(should_capture(&c, "https://x/a", None));
    assert!(should_capture(&c, "", Some("text/html")));
    assert!(should_capture(&c, "", None));
}

#[test]
fn url_filter_matches_substring() {
    let c = config(Some("api/v1"), None);
    assert!(should_capture(&c, "https://x/api/v1/items", None));
    assert!(should_capture(&c, "api/v1", Some("text/html")));
    assert!(!should_capture(&c, "https://x/api/v2/items", Some("application/json")));
    assert!(!should_capture(&c, "api/v", None));
    assert!(!should_capture(&c, "", None));
}

#[test]
fn url_filter_is_case_sensitive() {
    let c = config(Some("API"), None);
    assert!(!should_capture(&c, "https://x/api", None));
    assert!(should_capture(&c, "https://x/API", None));
}

#[test]
fn content_type_filter_needs_a_content_type() {
    let c = config(None, Some("application/json"));
    assert!(!should_capture(&c, "https://x/a", None));
    assert!(should_capture(&c, "https://x/a", Some("application/json")));
    assert!(should_capture(&c, "https://x/a", Some("application/json; charset=utf-8")));
    assert!(!should_capture(&c, "https://x/application/json", Some("text/html")));
}

#[test]
fn both_filters_must_pass() {
    let c = config(Some("api"), Some("json"));
    assert!(should_capture(&c, "https://x/api", Some("application/json")));
    assert!(!should_capture(&c, "https://x/api", Some("text/html")));
    assert!(!should_capture(&c, "https://x/other", Some("application/json")));
    assert!(!should_capture(&c, "https://x/other", Some("text/html")));
    assert!(!should_capture(&c, "https://x/api", None));
}

#[test]
fn empty_filter_matches_every_present_value() {
    let c = config(Some(""), Some(""));
    assert!(should_capture(&c, "", Some("")));
    assert!(should_capture(&c, "https://x", Some("text/plain")));
    assert!(!should_capture(&c, "https://x", None));
}

#[test]
fn filter_matches_beyond_ascii() {
    let c = config(Some("é/ü"), None);
    assert!(should_capture(&c, "https://x/café/über", None));
    assert!(!should_capture(&c, "https://x/cafe/uber", None));
}
