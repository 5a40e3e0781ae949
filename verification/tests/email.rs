use paykit::email::templates::{notification, order_confirmation, password_reset, verify_email, welcome_email};
use paykit::email::{ApiConfig, Email, EmailBackend, EmailConfig, EmailError, EmailProvider, EmailResult, EmailService, SmtpConfig};

#[test]
fn email_builders() {
    let e = Email::new("a@x.io", "b@y.io", "Hi")
        .html("<p>hi</p>")
        .text("hi")
        .from_name("A")
        .to_name("B")
        .reply_to("r@x.io")
        .cc(vec!["c@z.io".to_string()])
        .bcc(vec!["d@z.io".to_string()])
        .header("X-Id", "1")
        .header("X-Id", "2")
        .header("X-Other", "3");
    assert_eq!(e.body_html.as_deref(), Some("<p>hi</p>"));
    assert_eq!(e.body_text.as_deref(), Some("hi"));
    assert_eq!(e.from_name.as_deref(), Some("A"));
    assert_eq!(e.cc, Some(vec!["c@z.io".to_string()]));
    let h = e.headers.as_ref().unwrap();
    assert_eq!(h.len(), 2);
    assert_eq!(h.get("X-Id").map(|v| v.as_str()), Some("2"));
}

#[test]
fn copies_for_each_recipient() {
    let e = Email::new("a@x.io", "nobody", "S").html("H").header("k", "v");
    let copies = EmailService::copies_for(&vec!["p@q.io".to_string(), "r@s.io".to_string()], &e);
    assert_eq!(copies.len(), 2);
    assert_eq!(copies[0].to, "p@q.io");
    assert_eq!(copies[1].to, "r@s.io");
    assert_eq!(copies[1].body_html.as_deref(), Some("H"));
    assert_eq!(copies[1].headers.as_ref().unwrap().get("k").map(|v| v.as_str()), Some("v"));
}

#[test]
fn results_and_configs() {
    let ok = EmailResult::success("m1");
    assert!(ok.success && ok.error.is_none());
    let bad = EmailResult::failed("down");
    assert_eq!(bad.error.as_deref(), Some("down"));
    let smtp = SmtpConfig::new("smtp.x.io", 587, "u", "p");
    assert!(smtp.use_tls);
    assert!(!smtp.clone().no_tls().use_tls);
    let api = ApiConfig::new("key").with_region("eu-west-1").with_endpoint("mg.x.io");
    assert_eq!(api.region.as_deref(), Some("eu-west-1"));
    assert_eq!(EmailProvider::default(), EmailProvider::Smtp);
}

#[test]
fn services_from_configuration() {
    let smtp = SmtpConfig::new("h", 25, "u", "p");
    let s = EmailService::from_config(EmailConfig::new(EmailProvider::Smtp).with_smtp(smtp)).unwrap();
    assert!(matches!(s.backend(), EmailBackend::Smtp(_)));
    let ses = EmailService::from_config(EmailConfig::new(EmailProvider::Ses).with_api(ApiConfig::new("k"))).unwrap();
    match ses.backend() {
        EmailBackend::Ses { region, from_email } => {
            assert_eq!(region, "us-east-1");
            assert_eq!(from_email, "noreply@example.com");
        },
        _ => panic!("expected SES"),
    }
    let mg = EmailService::from_config(EmailConfig::new(EmailProvider::Mailgun).with_api(ApiConfig::new("k").with_endpoint("mg.io"))).unwrap();
    assert!(matches!(mg.backend(), EmailBackend::Mailgun { domain, .. } if domain == "mg.io"));
}

#[test]
fn missing_settings_are_refused() {
    let cases = [
        (EmailConfig::new(EmailProvider::Smtp), "Config: SMTP config required"),
        (EmailConfig::new(EmailProvider::SendGrid), "Config: API config required"),
        (EmailConfig::new(EmailProvider::Mailgun).with_api(ApiConfig::new("k")), "Config: Domain required"),
        (EmailConfig::new(EmailProvider::HttpApi), "Config: HTTP API not implemented"),
    ];
    for (cfg, text) in cases {
        match EmailService::from_config(cfg) {
            Err(e) => assert_eq!(e.to_string(), text),
            Ok(_) => panic!("expected a refusal"),
        }
    }
    assert_eq!(EmailError::RateLimit("slow".to_string()).to_string(), "RateLimit: slow");
}

#[test]
fn direct_constructors() {
    assert!(matches!(EmailService::sendgrid("k", "f@x.io").backend(), EmailBackend::SendGrid { api_key, .. } if api_key == "k"));
    assert!(matches!(EmailService::ses("r", "f").backend(), EmailBackend::Ses { .. }));
    assert!(matches!(EmailService::mailgun("k", "d").backend(), EmailBackend::Mailgun { .. }));
    assert!(matches!(EmailService::smtp(SmtpConfig::new("h", 1, "u", "p")).backend(), EmailBackend::Smtp(_)));
}

#[test]
fn ready_made_emails() {
    let w = welcome_email("x@y.io", "Ann");
    assert_eq!(w.subject, "Welcome!");
    assert_eq!(w.body_html.as_deref(), Some("<html><body><h1>Welcome, Ann!</h1><p>Thank you for joining us.</p></body></html>"));
    let r = password_reset("x@y.io", "T1");
    assert_eq!(r.body_html.as_deref(), Some("<html><body><h1>Reset Password</h1><p>Click <a href='https://example.com/reset?token=T1'>here</a> to reset.</p></body></html>"));
    let v = verify_email("x@y.io", "T2");
    assert!(v.body_html.unwrap().contains("verify?token=T2"));
    let o = order_confirmation("x@y.io", "77", "$5");
    assert_eq!(o.from, "orders@example.com");
    assert_eq!(o.subject, "Order #77");
    assert_eq!(o.body_html.as_deref(), Some("<html><body><h1>Order Confirmed!</h1><p>Order: 77<br>Amount: $5</p></body></html>"));
    let n = notification("x@y.io", "Hi", "There");
    assert_eq!(n.from, "notifications@example.com");
    assert_eq!(n.body_html.as_deref(), Some("<html><body><h1>Hi</h1><p>There</p></body></html>"));
}
