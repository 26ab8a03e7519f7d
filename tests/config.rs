use doubler::config::{
    allowed_headers, allowed_methods, ServerConfig, DEFAULT_PORT, SUPPORTS_CREDENTIALS,
};
use doubler::origins::{drop_empty, origin_allowed, parse_origin_list, split_commas};

fn strings(v: &[&str]) -> Vec<String> {
    v.iter().map(|s| s.to_string()).collect()
}

#[test]
fn parses_an_empty_setting_to_no_origins() {
    assert_eq!(parse_origin_list(""), Vec::<String>::new());
    assert_eq!(parse_origin_list(",,,"), Vec::<String>::new());
    assert_eq!(parse_origin_list(" ,\t, "), Vec::<String>::new());
}

#[test]
fn parses_a_single_origin() {
    assert_eq!(parse_origin_list("http://a.example"), strings(&["http://a.example"]));
}

#[test]
fn trims_fields_and_drops_empty_ones() {
    assert_eq!(
        parse_origin_list("  http://a.example , http://b.example,, ,http://c.example  ,"),
        strings(&["http://a.example", "http://b.example", "http://c.example"])
    );
}

#[test]
fn keeps_order_and_repeats() {
    assert_eq!(parse_origin_list("b,a,b"), strings(&["b", "a", "b"]));
}

#[test]
fn default_configuration() {
    let config = ServerConfig::from_settings(None, None);
    assert_eq!(config.port, "8080");
    assert_eq!(DEFAULT_PORT, "8080");
    assert_eq!(
        config.allowed_origins,
        strings(&[
            "http://127.0.0.1:5002",
            "http://localhost:5002",
            "http://127.0.0.1:4200",
            "http://localhost:4200",
            "https://completely-understood-vo-a0f23.web.app",
        ])
    );
    assert_eq!(config.bind_address(), "0.0.0.0:8080");
}

#[test]
fn configured_port_and_origins() {
    let config = ServerConfig::from_settings(Some("9000"), Some("https://x.example, https://y.example"));
    assert_eq!(config.port, "9000");
    assert_eq!(config.bind_address(), "0.0.0.0:9000");
    assert_eq!(config.allowed_origins, strings(&["https://x.example", "https://y.example"]));
}

#[test]
fn listed_origin_is_allowed() {
    let config = ServerConfig::from_settings(None, None);
    assert!(config.allows_origin("http://localhost:4200"));
    assert!(config.allows_origin("https://completely-understood-vo-a0f23.web.app"));
}

#[test]
fn unlisted_origin_is_refused() {
    let config = ServerConfig::from_settings(None, None);
    assert!(!config.allows_origin("http://evil.example"));
    assert!(!config.allows_origin("http://localhost:4200/"));
    assert!(!config.allows_origin("http://localhost:4201"));
    assert!(!config.allows_origin(""));
    let custom = ServerConfig::from_settings(None, Some("https://x.example"));
    assert!(!custom.allows_origin("http://localhost:4200"));
    assert!(custom.allows_origin("https://x.example"));
}

#[test]
fn empty_allow_list_refuses_everything() {
    let config = ServerConfig::from_settings(None, Some(""));
    assert!(config.allowed_origins.is_empty());
    assert!(!config.allows_origin("http://localhost:4200"));
    assert!(!origin_allowed(&Vec::new(), ""));
}

#[test]
fn fixed_methods_and_headers() {
    assert_eq!(allowed_methods(), vec!["GET", "POST", "PUT", "DELETE", "OPTIONS"]);
    assert_eq!(allowed_headers(), vec!["authorization", "accept", "content-type"]);
    assert!(SUPPORTS_CREDENTIALS);
}

#[test]
fn splits_at_every_comma() {
    assert_eq!(split_commas("a,,b"), strings(&["a", "", "b"]));
    assert_eq!(split_commas(""), strings(&[""]));
    assert_eq!(split_commas(","), strings(&["", ""]));
    assert_eq!(split_commas(" x , y"), strings(&[" x ", " y"]));
    assert_eq!(split_commas("é,ü"), strings(&["é", "ü"]));
}

#[test]
fn drops_empty_texts_only() {
    assert_eq!(drop_empty(strings(&["", "a", "", " ", "b", ""])), strings(&["a", " ", "b"]));
    assert_eq!(drop_empty(Vec::new()), Vec::<String>::new());
}
