use paykit::cors::{CorsConfig, HttpMethod};
use paykit::logger::{get_log_path, log_file_name};
use paykit::text::{join, parse_i64, split_unique, to_hex};

#[test]
fn cors_defaults() {
    let c = CorsConfig::new();
    assert!(c.allowed_origins.is_empty());
    let names: Vec<&str> = c.allowed_methods.iter().map(|m| m.as_str()).collect();
    assert_eq!(names, vec!["GET", "POST", "PUT", "DELETE", "PATCH", "OPTIONS"]);
    assert_eq!(HttpMethod::Head.as_str(), "HEAD");
}

#[test]
fn log_paths() {
    assert_eq!(log_file_name("app"), "app.log");
    assert_eq!(get_log_path("app"), std::path::PathBuf::from("logs").join("app.log"));
}

#[test]
fn text_helpers() {
    assert_eq!(join(&vec!["a".to_string(), "b".to_string(), "c".to_string()], "&"), "a&b&c");
    assert_eq!(join(&vec![], "&"), "");
    assert_eq!(parse_i64("-42"), Some(-42));
    assert_eq!(parse_i64("4x"), None);
    assert_eq!(to_hex(&[0, 255, 16]), "00ff10");
    assert_eq!(split_unique("a|b", "|"), Some(("a".to_string(), "b".to_string())));
    assert_eq!(split_unique("a|b|c", "|"), None);
}
