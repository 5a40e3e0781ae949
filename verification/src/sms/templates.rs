//! Ready-made text messages.
use vstd::prelude::*;
use crate::sms::SmsMessage;

verus! {

/// A verification code, valid for ten minutes.
pub fn verification_code(to: &str, code: &str) -> (r: SmsMessage)
    ensures
        r.to@ == to@,
        r.body@ == "Your verification code is: "@ + code@ + ". Valid for 10 minutes."@,
        r.from is None,
        r.status_callback is None,
{
    let mut body = String::from_str("Your verification code is: ");
    body.append(code);
    body.append(". Valid for 10 minutes.");
    SmsMessage::new(to, body.as_str())
}

/// A welcome message.
pub fn welcome(to: &str, name: &str) -> (r: SmsMessage)
    ensures
        r.to@ == to@,
        r.body@ == "Welcome "@ + name@ + "! Thank you for joining us."@,
        r.from is None,
        r.status_callback is None,
{
    let mut body = String::from_str("Welcome ");
    body.append(name);
    body.append("! Thank you for joining us.");
    SmsMessage::new(to, body.as_str())
}

/// An order confirmation.
pub fn order_confirmation(to: &str, order_id: &str) -> (r: SmsMessage)
    ensures
        r.to@ == to@,
        r.body@ == "Your order #"@ + order_id@ + " has been confirmed!"@,
        r.from is None,
        r.status_callback is None,
{
    let mut body = String::from_str("Your order #");
    body.append(order_id);
    body.append(" has been confirmed!");
    SmsMessage::new(to, body.as_str())
}

/// A password reset code.
pub fn password_reset(to: &str, code: &str) -> (r: SmsMessage)
    ensures
        r.to@ == to@,
        r.body@ == "Password reset code: "@ + code@ + ". Don't share this code."@,
        r.from is None,
        r.status_callback is None,
{
    let mut body = String::from_str("Password reset code: ");
    body.append(code);
    body.append(". Don't share this code.");
    SmsMessage::new(to, body.as_str())
}

/// An alert.
pub fn alert(to: &str, message: &str) -> (r: SmsMessage)
    ensures
        r.to@ == to@,
        r.body@ == "Alert: "@ + message@,
        r.from is None,
        r.status_callback is None,
{
    let mut body = String::from_str("Alert: ");
    body.append(message);
    SmsMessage::new(to, body.as_str())
}

/// An appointment reminder.
pub fn appointment_reminder(to: &str, datetime: &str) -> (r: SmsMessage)
    ensures
        r.to@ == to@,
        r.body@ == "Reminder: Your appointment is scheduled for "@ + datetime@,
        r.from is None,
        r.status_callback is None,
{
    let mut body = String::from_str("Reminder: Your appointment is scheduled for ");
    body.append(datetime);
    SmsMessage::new(to, body.as_str())
}

} // verus!
