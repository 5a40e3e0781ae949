use paykit::email_templates::{magic_link, notification, password_reset, verify_email, welcome, EmailTemplateConfig};

fn config() -> EmailTemplateConfig {
    EmailTemplateConfig::new("Acme", "https://acme.io")
}

#[test]
fn template_config_defaults() {
    let c = config();
    assert_eq!(c.primary_color, "#667eea");
    assert_eq!(c.secondary_color, "#764ba2");
    assert!(c.app_logo_url.is_none());
    let c = c.with_logo("https://acme.io/logo.png").with_colors("#111111", "#222222");
    assert_eq!(c.app_logo_url.as_deref(), Some("https://acme.io/logo.png"));
    assert_eq!(c.primary_color, "#111111");
}

#[test]
fn password_reset_email() {
    let e = password_reset::build(&config(), "https://acme.io/r/1");
    assert_eq!(e.subject, "Password Reset Request");
    assert_eq!(e.to, "placeholder@example.com");
    let html = e.body_html.unwrap();
    assert!(html.starts_with("<!DOCTYPE html>\n<html>\n<head>"));
    assert!(html.contains("<title>Acme - Password Reset Request</title>"));
    assert_eq!(html.matches("https://acme.io/r/1").count(), 3);
    assert!(html.contains("This email was sent by Acme."));
    assert!(html.ends_with("</html>"));
    assert!(!html.contains("<img"));
}

#[test]
fn welcome_email_greeting_and_link() {
    let e = welcome::build(&config(), "Ann", Some("https://acme.io/v"));
    let html = e.body_html.unwrap();
    assert!(html.contains("Hello Ann,</p>"));
    assert!(html.contains("Welcome to Acme!"));
    assert!(html.contains("https://acme.io/v"));
    let anonymous = welcome::build(&config(), "", None).body_html.unwrap();
    assert!(anonymous.contains(">Hello,</p>"));
    assert!(!anonymous.contains("Verify Email</a>"));
}

#[test]
fn verify_and_magic_codes() {
    let v = verify_email::build(&config(), "https://acme.io/v", Some("123456")).body_html.unwrap();
    assert!(v.contains("Or use this verification code:"));
    assert!(v.contains(">123456</p>"));
    let m = magic_link::build(&config().with_logo("L"), "https://acme.io/m", None);
    assert_eq!(m.subject, "Your Magic Login Link");
    let html = m.body_html.unwrap();
    assert!(html.contains("<img src=\"L\" alt=\"Acme Logo\""));
    assert!(!html.contains("magic code"));
}

#[test]
fn notification_action_needs_text_and_link() {
    let n = notification::build(&config(), "Shipped", "On its way", Some("Track"), Some("https://t"));
    assert_eq!(n.subject, "Shipped");
    let html = n.body_html.unwrap();
    assert!(html.contains(">Track</a>"));
    let half = notification::build(&config(), "Shipped", "On its way", Some("Track"), None).body_html.unwrap();
    assert!(!half.contains(">Track</a>"));
}
