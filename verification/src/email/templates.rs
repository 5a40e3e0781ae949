//! Ready-made emails: welcome, password reset, address verification, order
//! confirmation and notification.
use vstd::prelude::*;
use crate::email::Email;
use crate::payments::types::opt_view;

verus! {

/// The HTML of a welcome email.
pub open spec fn welcome_html(name: Seq<char>) -> Seq<char> {
    "<html><body><h1>Welcome, "@ + name + "!</h1><p>Thank you for joining us.</p></body></html>"@
}

/// A welcome email from "noreply@example.com".
pub fn welcome_email(to: &str, name: &str) -> (r: Email)
    ensures
        r.from@ == "noreply@example.com"@,
        r.to@ == to@,
        r.subject@ == "Welcome!"@,
        opt_view(r.body_html) == Some(welcome_html(name@)),
        r.body_text is None,
        r.headers is None,
{
    let mut html = String::from_str("<html><body><h1>Welcome, ");
    html.append(name);
    html.append("!</h1><p>Thank you for joining us.</p></body></html>");
    Email::new("noreply@example.com", to, "Welcome!").html(html.as_str())
}

/// The HTML of a password reset email.
pub open spec fn password_reset_html(token: Seq<char>) -> Seq<char> {
    "<html><body><h1>Reset Password</h1><p>Click <a href='https://example.com/reset?token="@ + token
        + "'>here</a> to reset.</p></body></html>"@
}

/// A password reset email from "noreply@example.com", with a link that
/// carries the token.
pub fn password_reset(to: &str, token: &str) -> (r: Email)
    ensures
        r.from@ == "noreply@example.com"@,
        r.to@ == to@,
        r.subject@ == "Reset Password"@,
        opt_view(r.body_html) == Some(password_reset_html(token@)),
        r.body_text is None,
        r.headers is None,
{
    let mut html = String::from_str("<html><body><h1>Reset Password</h1><p>Click <a href='https://example.com/reset?token=");
    html.append(token);
    html.append("'>here</a> to reset.</p></body></html>");
    Email::new("noreply@example.com", to, "Reset Password").html(html.as_str())
}

/// The HTML of an address verification email.
pub open spec fn verify_email_html(token: Seq<char>) -> Seq<char> {
    "<html><body><h1>Verify Email</h1><p>Click <a href='https://example.com/verify?token="@ + token
        + "'>here</a> to verify.</p></body></html>"@
}

/// An address verification email from "noreply@example.com", with a link
/// that carries the token.
pub fn verify_email(to: &str, token: &str) -> (r: Email)
    ensures
        r.from@ == "noreply@example.com"@,
        r.to@ == to@,
        r.subject@ == "Verify Email"@,
        opt_view(r.body_html) == Some(verify_email_html(token@)),
        r.body_text is None,
        r.headers is None,
{
    let mut html = String::from_str("<html><body><h1>Verify Email</h1><p>Click <a href='https://example.com/verify?token=");
    html.append(token);
    html.append("'>here</a> to verify.</p></body></html>");
    Email::new("noreply@example.com", to, "Verify Email").html(html.as_str())
}

/// The HTML of an order confirmation email.
pub open spec fn order_confirmation_html(order_id: Seq<char>, amount: Seq<char>) -> Seq<char> {
    "<html><body><h1>Order Confirmed!</h1><p>Order: "@ + order_id + "<br>Amount: "@ + amount + "</p></body></html>"@
}

/// An order confirmation from "orders@example.com", with the subject
/// "Order #<id>".
pub fn order_confirmation(to: &str, order_id: &str, amount: &str) -> (r: Email)
    ensures
        r.from@ == "orders@example.com"@,
        r.to@ == to@,
        r.subject@ == "Order #"@ + order_id@,
        opt_view(r.body_html) == Some(order_confirmation_html(order_id@, amount@)),
        r.body_text is None,
        r.headers is None,
{
    let mut subject = String::from_str("Order #");
    subject.append(order_id);
    let mut html = String::from_str("<html><body><h1>Order Confirmed!</h1><p>Order: ");
    html.append(order_id);
    html.append("<br>Amount: ");
    html.append(amount);
    html.append("</p></body></html>");
    Email::new("orders@example.com", to, subject.as_str()).html(html.as_str())
}

/// The HTML of a notification email.
pub open spec fn notification_html(title: Seq<char>, message: Seq<char>) -> Seq<char> {
    "<html><body><h1>"@ + title + "</h1><p>"@ + message + "</p></body></html>"@
}

/// A notification from "notifications@example.com", titled as its subject.
pub fn notification(to: &str, title: &str, message: &str) -> (r: Email)
    ensures
        r.from@ == "notifications@example.com"@,
        r.to@ == to@,
        r.subject@ == title@,
        opt_view(r.body_html) == Some(notification_html(title@, message@)),
        r.body_text is None,
        r.headers is None,
{
    let mut html = String::from_str("<html><body><h1>");
    html.append(title);
    html.append("</h1><p>");
    html.append(message);
    html.append("</p></body></html>");
    Email::new("notifications@example.com", to, title).html(html.as_str())
}

} // verus!
