use paykit::sms::templates::{alert, appointment_reminder, order_confirmation, password_reset, verification_code, welcome};
use paykit::sms::{NexmoConfig, SmsBackend, SmsConfig, SmsError, SmsMessage, SmsProvider, SmsResult, SmsService, SnsConfig, TwilioConfig};

#[test]
fn sms_message_builders() {
    let m = SmsMessage::new("+100", "hi").from("+200").with_callback("https://cb");
    assert_eq!(m.to, "+100");
    assert_eq!(m.from.as_deref(), Some("+200"));
    assert_eq!(m.status_callback.as_deref(), Some("https://cb"));
    assert!(SmsResult::success("id").success);
    assert_eq!(SmsResult::failed("x").error.as_deref(), Some("x"));
    assert_eq!(SmsProvider::default(), SmsProvider::Twilio);
}

#[test]
fn sms_services_from_configuration() {
    let t = SmsService::from_config(SmsConfig::new(SmsProvider::Twilio).with_twilio(TwilioConfig::new("sid", "tok", "+1"))).unwrap();
    assert!(matches!(t.backend(), SmsBackend::Twilio(c) if c.account_sid == "sid"));
    let s = SmsService::from_config(SmsConfig::new(SmsProvider::AwsSns).with_sns(SnsConfig::new("r", "a", "s").with_sender_id("ME"))).unwrap();
    assert!(matches!(s.backend(), SmsBackend::Sns(c) if c.sender_id.as_deref() == Some("ME")));
    let n = SmsService::from_config(SmsConfig::new(SmsProvider::Nexmo).with_nexmo(NexmoConfig::new("k", "s", "f"))).unwrap();
    assert!(matches!(n.backend(), SmsBackend::Nexmo(_)));
    assert!(matches!(SmsService::twilio(TwilioConfig::new("a", "b", "c")).backend(), SmsBackend::Twilio(_)));
    assert!(matches!(SmsService::sns(SnsConfig::new("a", "b", "c")).backend(), SmsBackend::Sns(_)));
    assert!(matches!(SmsService::nexmo(NexmoConfig::new("a", "b", "c")).backend(), SmsBackend::Nexmo(_)));
}

#[test]
fn sms_missing_settings_are_refused() {
    let cases = [
        (SmsConfig::new(SmsProvider::Twilio), "Config: Twilio config required"),
        (SmsConfig::new(SmsProvider::AwsSns), "Config: SNS config required"),
        (SmsConfig::new(SmsProvider::Nexmo), "Config: Nexmo config required"),
        (SmsConfig::new(SmsProvider::HttpApi), "Config: HTTP API not implemented"),
    ];
    for (cfg, text) in cases {
        match SmsService::from_config(cfg) {
            Err(e) => assert_eq!(e.to_string(), text),
            Ok(_) => panic!("expected a refusal"),
        }
    }
    assert_eq!(SmsError::InvalidNumber("0".to_string()).to_string(), "InvalidNumber: 0");
}

#[test]
fn one_message_per_recipient() {
    let ms = SmsService::messages_for(&vec!["+1".to_string(), "+2".to_string()], "hello");
    assert_eq!(ms.len(), 2);
    assert_eq!(ms[1].to, "+2");
    assert_eq!(ms[1].body, "hello");
}

#[test]
fn ready_made_messages() {
    assert_eq!(verification_code("+1", "123456").body, "Your verification code is: 123456. Valid for 10 minutes.");
    assert_eq!(welcome("+1", "Ann").body, "Welcome Ann! Thank you for joining us.");
    assert_eq!(order_confirmation("+1", "9").body, "Your order #9 has been confirmed!");
    assert_eq!(password_reset("+1", "42").body, "Password reset code: 42. Don't share this code.");
    assert_eq!(alert("+1", "Low balance").body, "Alert: Low balance");
    assert_eq!(appointment_reminder("+1", "Mon 9:00").body, "Reminder: Your appointment is scheduled for Mon 9:00");
}
