//! Professional email templates with a consistent design: a page with a
//! coloured header, the content, and a footer, for password resets,
//! welcomes, address verification, magic login links and notifications.
use vstd::prelude::*;
use crate::email::Email;

pub mod password_reset;
pub mod welcome;
pub mod verify_email;
pub mod magic_link;
pub mod notification;

verus! {

/// Email template configuration
#[derive(Debug, Clone)]
pub struct EmailTemplateConfig {
    pub app_name: String,
    pub app_logo_url: Option<String>,
    pub primary_color: String,
    pub secondary_color: String,
    pub frontend_url: String,
}

impl EmailTemplateConfig {
    /// A configuration without logo, in the colours #667eea and #764ba2.
    pub fn new(app_name: &str, frontend_url: &str) -> (r: Self)
        ensures
            r.app_name@ == app_name@,
            r.app_logo_url is None,
            r.primary_color@ == "#667eea"@,
            r.secondary_color@ == "#764ba2"@,
            r.frontend_url@ == frontend_url@,
    {
        EmailTemplateConfig {
            app_name: app_name.to_owned(),
            app_logo_url: None,
            primary_color: String::from_str("#667eea"),
            secondary_color: String::from_str("#764ba2"),
            frontend_url: frontend_url.to_owned(),
        }
    }

    pub fn with_logo(self, logo_url: &str) -> (r: Self)
        ensures
            r.app_logo_url matches Some(l) && l@ == logo_url@,
            r == (EmailTemplateConfig { app_logo_url: r.app_logo_url, ..self }),
    {
        EmailTemplateConfig { app_logo_url: Some(logo_url.to_owned()), ..self }
    }

    pub fn with_colors(self, primary: &str, secondary: &str) -> (r: Self)
        ensures
            r.primary_color@ == primary@,
            r.secondary_color@ == secondary@,
            r == (EmailTemplateConfig { primary_color: r.primary_color, secondary_color: r.secondary_color, ..self }),
    {
        EmailTemplateConfig { primary_color: primary.to_owned(), secondary_color: secondary.to_owned(), ..self }
    }
}

/// The logo shown in the header of an email.
pub open spec fn logo_img(logo: Seq<char>, app_name: Seq<char>) -> Seq<char> {
    "<img src=\""@ + logo + "\" alt=\""@ + app_name + " Logo\" style=\"height: 50px; margin-bottom: 10px;\">"@
}

/// The logo shown in the header of an email.
pub(crate) fn logo_img_text(logo: &str, app_name: &str) -> (r: String)
    ensures
        r@ == logo_img(logo@, app_name@),
{
    let mut s = String::from_str("<img src=\"");
    s.append(logo);
    s.append("\" alt=\"");
    s.append(app_name);
    s.append(" Logo\" style=\"height: 50px; margin-bottom: 10px;\">");
    s
}

/// The page an email's content stands in: a title, a coloured header with the logo, the content, and a footer naming the application.
pub open spec fn page(app_name: Seq<char>, header: Seq<char>, primary: Seq<char>, secondary: Seq<char>, logo: Seq<char>, content: Seq<char>) -> Seq<char> {
    "<!DOCTYPE html>\n<html>\n<head>\n    <meta charset=\"utf-8\">\n    <meta name=\"viewport\" content=\"width=device-width, initial-scale=1.0\">\n    <title>"@ + app_name + " - "@ + header + "</title>\n</head>\n<body style=\"font-family: -apple-system, BlinkMacSystemFont, 'Segoe UI', Roboto, 'Helvetica Neue', Arial, sans-serif; line-height: 1.6; color: #333; max-width: 600px; margin: 0 auto; padding: 0; background-color: #f4f4f4;\">\n    <table width=\"100%\" cellpadding=\"0\" cellspacing=\"0\" style=\"background-color: #f4f4f4; padding: 20px 0;\">\n        <tr>\n            <td align=\"center\">\n                <table width=\"100%\" cellpadding=\"0\" cellspacing=\"0\" style=\"max-width: 600px; background-color: #ffffff; border-radius: 8px; overflow: hidden; box-shadow: 0 2px 4px rgba(0,0,0,0.1);\">\n                    <!-- Header -->\n                    <tr>\n                        <td style=\"background: linear-gradient(135deg, "@ + primary + " 0%, "@ + secondary + " 100%); padding: 30px; text-align: center;\">\n                            "@ + logo + "\n                            <h1 style=\"color: #ffffff; margin: 10px 0 0 0; font-size: 24px; font-weight: 600;\">"@ + header + "</h1>\n                        </td>\n                    </tr>\n                    <!-- Content -->\n                    <tr>\n                        <td style=\"padding: 40px 30px;\">\n                            "@ + content + "\n                        </td>\n                    </tr>\n                    <!-- Footer -->\n                    <tr>\n                        <td style=\"background-color: #f8f9fa; padding: 20px 30px; text-align: center; border-top: 1px solid #e9ecef;\">\n                            <p style=\"color: #6c757d; font-size: 12px; margin: 0 0 5px 0;\">\n                                This email was sent by "@ + app_name + ". If you didn't request this, please ignore it.\n                            </p>\n                            <p style=\"color: #adb5bd; font-size: 11px; margin: 0;\">\n                                &copy; "@ + app_name + " All rights reserved.\n                            </p>\n                        </td>\n                    </tr>\n                </table>\n            </td>\n        </tr>\n    </table>\n</body>\n</html>"@
}

/// The page an email's content stands in: a title, a coloured header with the logo, the content, and a footer naming the application.
pub(crate) fn page_text(app_name: &str, header: &str, primary: &str, secondary: &str, logo: &str, content: &str) -> (r: String)
    ensures
        r@ == page(app_name@, header@, primary@, secondary@, logo@, content@),
{
    let mut s = String::from_str("<!DOCTYPE html>\n<html>\n<head>\n    <meta charset=\"utf-8\">\n    <meta name=\"viewport\" content=\"width=device-width, initial-scale=1.0\">\n    <title>");
    s.append(app_name);
    s.append(" - ");
    s.append(header);
    s.append("</title>\n</head>\n<body style=\"font-family: -apple-system, BlinkMacSystemFont, 'Segoe UI', Roboto, 'Helvetica Neue', Arial, sans-serif; line-height: 1.6; color: #333; max-width: 600px; margin: 0 auto; padding: 0; background-color: #f4f4f4;\">\n    <table width=\"100%\" cellpadding=\"0\" cellspacing=\"0\" style=\"background-color: #f4f4f4; padding: 20px 0;\">\n        <tr>\n            <td align=\"center\">\n                <table width=\"100%\" cellpadding=\"0\" cellspacing=\"0\" style=\"max-width: 600px; background-color: #ffffff; border-radius: 8px; overflow: hidden; box-shadow: 0 2px 4px rgba(0,0,0,0.1);\">\n                    <!-- Header -->\n                    <tr>\n                        <td style=\"background: linear-gradient(135deg, ");
    s.append(primary);
    s.append(" 0%, ");
    s.append(secondary);
    s.append(" 100%); padding: 30px; text-align: center;\">\n                            ");
    s.append(logo);
    s.append("\n                            <h1 style=\"color: #ffffff; margin: 10px 0 0 0; font-size: 24px; font-weight: 600;\">");
    s.append(header);
    s.append("</h1>\n                        </td>\n                    </tr>\n                    <!-- Content -->\n                    <tr>\n                        <td style=\"padding: 40px 30px;\">\n                            ");
    s.append(content);
    s.append("\n                        </td>\n                    </tr>\n                    <!-- Footer -->\n                    <tr>\n                        <td style=\"background-color: #f8f9fa; padding: 20px 30px; text-align: center; border-top: 1px solid #e9ecef;\">\n                            <p style=\"color: #6c757d; font-size: 12px; margin: 0 0 5px 0;\">\n                                This email was sent by ");
    s.append(app_name);
    s.append(". If you didn't request this, please ignore it.\n                            </p>\n                            <p style=\"color: #adb5bd; font-size: 11px; margin: 0;\">\n                                &copy; ");
    s.append(app_name);
    s.append(" All rights reserved.\n                            </p>\n                        </td>\n                    </tr>\n                </table>\n            </td>\n        </tr>\n    </table>\n</body>\n</html>");
    s
}

/// The content of a password reset email: a button to the reset link, which expires in an hour, and the link again in plain text.
pub open spec fn reset_content(link: Seq<char>, primary: Seq<char>) -> Seq<char> {
    "<p style=\"margin: 0 0 20px 0; font-size: 16px;\">Hello,</p>\n<p style=\"margin: 0 0 20px 0; font-size: 16px;\">We received a request to reset your password. Click the button below to create a new password:</p>\n<table width=\"100%\" cellpadding=\"0\" cellspacing=\"0\">\n    <tr>\n        <td align=\"center\" style=\"padding: 20px 0;\">\n            <a href=\""@ + link + "\" style=\"background: "@ + primary + "; color: #ffffff; padding: 14px 32px; text-decoration: none; border-radius: 6px; font-weight: 600; font-size: 16px; display: inline-block;\">Reset Password</a>\n        </td>\n    </tr>\n</table>\n<p style=\"margin: 0 0 20px 0; font-size: 14px; color: #666;\">This link will expire in 1 hour.</p>\n<p style=\"margin: 0 0 20px 0; font-size: 14px; color: #666;\">If you didn't request this password reset, please ignore this email. Your password will remain unchanged.</p>\n<hr style=\"border: none; border-top: 1px solid #e9ecef; margin: 25px 0;\">\n<p style=\"margin: 0; font-size: 12px; color: #999;\">If the button doesn't work, copy and paste this link into your browser:<br><a href=\""@ + link + "\" style=\"color: "@ + primary + "; text-decoration: underline;\">"@ + link + "</a></p>"@
}

/// The content of a password reset email: a button to the reset link, which expires in an hour, and the link again in plain text.
pub(crate) fn reset_content_text(link: &str, primary: &str) -> (r: String)
    ensures
        r@ == reset_content(link@, primary@),
{
    let mut s = String::from_str("<p style=\"margin: 0 0 20px 0; font-size: 16px;\">Hello,</p>\n<p style=\"margin: 0 0 20px 0; font-size: 16px;\">We received a request to reset your password. Click the button below to create a new password:</p>\n<table width=\"100%\" cellpadding=\"0\" cellspacing=\"0\">\n    <tr>\n        <td align=\"center\" style=\"padding: 20px 0;\">\n            <a href=\"");
    s.append(link);
    s.append("\" style=\"background: ");
    s.append(primary);
    s.append("; color: #ffffff; padding: 14px 32px; text-decoration: none; border-radius: 6px; font-weight: 600; font-size: 16px; display: inline-block;\">Reset Password</a>\n        </td>\n    </tr>\n</table>\n<p style=\"margin: 0 0 20px 0; font-size: 14px; color: #666;\">This link will expire in 1 hour.</p>\n<p style=\"margin: 0 0 20px 0; font-size: 14px; color: #666;\">If you didn't request this password reset, please ignore this email. Your password will remain unchanged.</p>\n<hr style=\"border: none; border-top: 1px solid #e9ecef; margin: 25px 0;\">\n<p style=\"margin: 0; font-size: 12px; color: #999;\">If the button doesn't work, copy and paste this link into your browser:<br><a href=\"");
    s.append(link);
    s.append("\" style=\"color: ");
    s.append(primary);
    s.append("; text-decoration: underline;\">");
    s.append(link);
    s.append("</a></p>");
    s
}

/// The button of a welcome email that leads to the address verification link, which expires in 24 hours.
pub open spec fn verify_button(link: Seq<char>, primary: Seq<char>) -> Seq<char> {
    "<table width=\"100%\" cellpadding=\"0\" cellspacing=\"0\" style=\"margin: 20px 0;\">\n    <tr>\n        <td align=\"center\">\n            <a href=\""@ + link + "\" style=\"background: "@ + primary + "; color: #ffffff; padding: 14px 32px; text-decoration: none; border-radius: 6px; font-weight: 600; font-size: 16px; display: inline-block;\">Verify Email</a>\n        </td>\n    </tr>\n</table>\n<p style=\"margin: 0 0 20px 0; font-size: 14px; color: #666;\">This link will expire in 24 hours.</p>"@
}

/// The button of a welcome email that leads to the address verification link, which expires in 24 hours.
pub(crate) fn verify_button_text(link: &str, primary: &str) -> (r: String)
    ensures
        r@ == verify_button(link@, primary@),
{
    let mut s = String::from_str("<table width=\"100%\" cellpadding=\"0\" cellspacing=\"0\" style=\"margin: 20px 0;\">\n    <tr>\n        <td align=\"center\">\n            <a href=\"");
    s.append(link);
    s.append("\" style=\"background: ");
    s.append(primary);
    s.append("; color: #ffffff; padding: 14px 32px; text-decoration: none; border-radius: 6px; font-weight: 600; font-size: 16px; display: inline-block;\">Verify Email</a>\n        </td>\n    </tr>\n</table>\n<p style=\"margin: 0 0 20px 0; font-size: 14px; color: #666;\">This link will expire in 24 hours.</p>");
    s
}

/// The content of a welcome email.
pub open spec fn welcome_content(greeting: Seq<char>, app_name: Seq<char>, verify_section: Seq<char>) -> Seq<char> {
    "<p style=\"margin: 0 0 20px 0; font-size: 16px;\">Hello"@ + greeting + ",</p>\n<p style=\"margin: 0 0 20px 0; font-size: 16px;\">Welcome to "@ + app_name + "! We're excited to have you on board.</p>\n<p style=\"margin: 0 0 20px 0; font-size: 16px;\">To get started, please verify your email address:</p>\n"@ + verify_section
}

/// The content of a welcome email.
pub(crate) fn welcome_content_text(greeting: &str, app_name: &str, verify_section: &str) -> (r: String)
    ensures
        r@ == welcome_content(greeting@, app_name@, verify_section@),
{
    let mut s = String::from_str("<p style=\"margin: 0 0 20px 0; font-size: 16px;\">Hello");
    s.append(greeting);
    s.append(",</p>\n<p style=\"margin: 0 0 20px 0; font-size: 16px;\">Welcome to ");
    s.append(app_name);
    s.append("! We're excited to have you on board.</p>\n<p style=\"margin: 0 0 20px 0; font-size: 16px;\">To get started, please verify your email address:</p>\n");
    s.append(verify_section);
    s
}

/// The box of an address verification email that shows the verification code.
pub open spec fn code_box(primary: Seq<char>, code: Seq<char>) -> Seq<char> {
    "<div style=\"background: #f8f9fa; padding: 15px; border-radius: 6px; text-align: center; margin: 20px 0;\">\n    <p style=\"margin: 0 0 10px 0; font-size: 14px; color: #666;\">Or use this verification code:</p>\n    <p style=\"margin: 0; font-size: 24px; font-weight: bold; letter-spacing: 4px; color: "@ + primary + ";\">"@ + code + "</p>\n</div>"@
}

/// The box of an address verification email that shows the verification code.
pub(crate) fn code_box_text(primary: &str, code: &str) -> (r: String)
    ensures
        r@ == code_box(primary@, code@),
{
    let mut s = String::from_str("<div style=\"background: #f8f9fa; padding: 15px; border-radius: 6px; text-align: center; margin: 20px 0;\">\n    <p style=\"margin: 0 0 10px 0; font-size: 14px; color: #666;\">Or use this verification code:</p>\n    <p style=\"margin: 0; font-size: 24px; font-weight: bold; letter-spacing: 4px; color: ");
    s.append(primary);
    s.append(";\">");
    s.append(code);
    s.append("</p>\n</div>");
    s
}

/// The content of an address verification email: a button to the link, the code box, and the link's expiry in 24 hours.
pub open spec fn verify_content(link: Seq<char>, primary: Seq<char>, code_section: Seq<char>) -> Seq<char> {
    "<p style=\"margin: 0 0 20px 0; font-size: 16px;\">Hello,</p>\n<p style=\"margin: 0 0 20px 0; font-size: 16px;\">Please verify your email address by clicking the button below:</p>\n<table width=\"100%\" cellpadding=\"0\" cellspacing=\"0\" style=\"margin: 20px 0;\">\n    <tr>\n        <td align=\"center\">\n            <a href=\""@ + link + "\" style=\"background: "@ + primary + "; color: #ffffff; padding: 14px 32px; text-decoration: none; border-radius: 6px; font-weight: 600; font-size: 16px; display: inline-block;\">Verify Email</a>\n        </td>\n    </tr>\n</table>\n"@ + code_section + "\n<p style=\"margin: 0 0 20px 0; font-size: 14px; color: #666;\">This link will expire in 24 hours.</p>"@
}

/// The content of an address verification email: a button to the link, the code box, and the link's expiry in 24 hours.
pub(crate) fn verify_content_text(link: &str, primary: &str, code_section: &str) -> (r: String)
    ensures
        r@ == verify_content(link@, primary@, code_section@),
{
    let mut s = String::from_str("<p style=\"margin: 0 0 20px 0; font-size: 16px;\">Hello,</p>\n<p style=\"margin: 0 0 20px 0; font-size: 16px;\">Please verify your email address by clicking the button below:</p>\n<table width=\"100%\" cellpadding=\"0\" cellspacing=\"0\" style=\"margin: 20px 0;\">\n    <tr>\n        <td align=\"center\">\n            <a href=\"");
    s.append(link);
    s.append("\" style=\"background: ");
    s.append(primary);
    s.append("; color: #ffffff; padding: 14px 32px; text-decoration: none; border-radius: 6px; font-weight: 600; font-size: 16px; display: inline-block;\">Verify Email</a>\n        </td>\n    </tr>\n</table>\n");
    s.append(code_section);
    s.append("\n<p style=\"margin: 0 0 20px 0; font-size: 14px; color: #666;\">This link will expire in 24 hours.</p>");
    s
}

/// The box of a magic link email that shows the magic code.
pub open spec fn magic_code_box(primary: Seq<char>, code: Seq<char>) -> Seq<char> {
    "<div style=\"background: #f8f9fa; padding: 15px; border-radius: 6px; text-align: center; margin: 20px 0;\">\n    <p style=\"margin: 0 0 10px 0; font-size: 14px; color: #666;\">Or use this magic code:</p>\n    <p style=\"margin: 0; font-size: 28px; font-weight: bold; letter-spacing: 6px; color: "@ + primary + ";\">"@ + code + "</p>\n</div>"@
}

/// The box of a magic link email that shows the magic code.
pub(crate) fn magic_code_box_text(primary: &str, code: &str) -> (r: String)
    ensures
        r@ == magic_code_box(primary@, code@),
{
    let mut s = String::from_str("<div style=\"background: #f8f9fa; padding: 15px; border-radius: 6px; text-align: center; margin: 20px 0;\">\n    <p style=\"margin: 0 0 10px 0; font-size: 14px; color: #666;\">Or use this magic code:</p>\n    <p style=\"margin: 0; font-size: 28px; font-weight: bold; letter-spacing: 6px; color: ");
    s.append(primary);
    s.append(";\">");
    s.append(code);
    s.append("</p>\n</div>");
    s
}

/// The content of a magic link email: a login button, the code box, and the link's expiry in 15 minutes.
pub open spec fn magic_content(link: Seq<char>, primary: Seq<char>, code_section: Seq<char>) -> Seq<char> {
    "<p style=\"margin: 0 0 20px 0; font-size: 16px;\">Hello,</p>\n<p style=\"margin: 0 0 20px 0; font-size: 16px;\">Use the button below to log in to your account instantly - no password needed!</p>\n<table width=\"100%\" cellpadding=\"0\" cellspacing=\"0\" style=\"margin: 20px 0;\">\n    <tr>\n        <td align=\"center\">\n            <a href=\""@ + link + "\" style=\"background: "@ + primary + "; color: #ffffff; padding: 14px 32px; text-decoration: none; border-radius: 6px; font-weight: 600; font-size: 16px; display: inline-block;\">Log In</a>\n        </td>\n    </tr>\n</table>\n"@ + code_section + "\n<p style=\"margin: 0 0 20px 0; font-size: 14px; color: #666;\">This link will expire in 15 minutes.</p>\n<p style=\"margin: 0; font-size: 14px; color: #666;\">If you didn't request this magic link, you can safely ignore this email.</p>"@
}

/// The content of a magic link email: a login button, the code box, and the link's expiry in 15 minutes.
pub(crate) fn magic_content_text(link: &str, primary: &str, code_section: &str) -> (r: String)
    ensures
        r@ == magic_content(link@, primary@, code_section@),
{
    let mut s = String::from_str("<p style=\"margin: 0 0 20px 0; font-size: 16px;\">Hello,</p>\n<p style=\"margin: 0 0 20px 0; font-size: 16px;\">Use the button below to log in to your account instantly - no password needed!</p>\n<table width=\"100%\" cellpadding=\"0\" cellspacing=\"0\" style=\"margin: 20px 0;\">\n    <tr>\n        <td align=\"center\">\n            <a href=\"");
    s.append(link);
    s.append("\" style=\"background: ");
    s.append(primary);
    s.append("; color: #ffffff; padding: 14px 32px; text-decoration: none; border-radius: 6px; font-weight: 600; font-size: 16px; display: inline-block;\">Log In</a>\n        </td>\n    </tr>\n</table>\n");
    s.append(code_section);
    s.append("\n<p style=\"margin: 0 0 20px 0; font-size: 14px; color: #666;\">This link will expire in 15 minutes.</p>\n<p style=\"margin: 0; font-size: 14px; color: #666;\">If you didn't request this magic link, you can safely ignore this email.</p>");
    s
}

/// The action button of a notification email.
pub open spec fn action_button(link: Seq<char>, primary: Seq<char>, text: Seq<char>) -> Seq<char> {
    "<table width=\"100%\" cellpadding=\"0\" cellspacing=\"0\" style=\"margin: 20px 0;\">\n    <tr>\n        <td align=\"center\">\n            <a href=\""@ + link + "\" style=\"background: "@ + primary + "; color: #ffffff; padding: 12px 24px; text-decoration: none; border-radius: 6px; font-weight: 600; font-size: 14px; display: inline-block;\">"@ + text + "</a>\n        </td>\n    </tr>\n</table>"@
}

/// The action button of a notification email.
pub(crate) fn action_button_text(link: &str, primary: &str, text: &str) -> (r: String)
    ensures
        r@ == action_button(link@, primary@, text@),
{
    let mut s = String::from_str("<table width=\"100%\" cellpadding=\"0\" cellspacing=\"0\" style=\"margin: 20px 0;\">\n    <tr>\n        <td align=\"center\">\n            <a href=\"");
    s.append(link);
    s.append("\" style=\"background: ");
    s.append(primary);
    s.append("; color: #ffffff; padding: 12px 24px; text-decoration: none; border-radius: 6px; font-weight: 600; font-size: 14px; display: inline-block;\">");
    s.append(text);
    s.append("</a>\n        </td>\n    </tr>\n</table>");
    s
}

/// The content of a notification email: its title, message and action.
pub open spec fn notification_content(title: Seq<char>, message: Seq<char>, action_section: Seq<char>) -> Seq<char> {
    "<h2 style=\"margin: 0 0 15px 0; font-size: 20px; color: #333;\">"@ + title + "</h2>\n<p style=\"margin: 0 0 20px 0; font-size: 16px; color: #555;\">"@ + message + "</p>\n"@ + action_section
}

/// The content of a notification email: its title, message and action.
pub(crate) fn notification_content_text(title: &str, message: &str, action_section: &str) -> (r: String)
    ensures
        r@ == notification_content(title@, message@, action_section@),
{
    let mut s = String::from_str("<h2 style=\"margin: 0 0 15px 0; font-size: 20px; color: #333;\">");
    s.append(title);
    s.append("</h2>\n<p style=\"margin: 0 0 20px 0; font-size: 16px; color: #555;\">");
    s.append(message);
    s.append("</p>\n");
    s.append(action_section);
    s
}

/// The logo of a configuration's emails: an image where it has a logo URL,
/// nothing otherwise.
pub open spec fn logo_html(config: EmailTemplateConfig) -> Seq<char> {
    match config.app_logo_url {
        Some(logo) => logo_img(logo@, config.app_name@),
        None => seq![],
    }
}

/// The HTML of an email: the content in the configuration's page, under the header text.
pub open spec fn wrapper_html(config: EmailTemplateConfig, header: Seq<char>, content: Seq<char>) -> Seq<char> {
    page(config.app_name@, header, config.primary_color@, config.secondary_color@, logo_html(config), content)
}

/// Build the professional HTML wrapper with consistent design
pub(crate) fn build_html_wrapper(config: &EmailTemplateConfig, header_text: &str, content: &str) -> (r: String)
    ensures
        r@ == wrapper_html(*config, header_text@, content@),
{
    let logo = match &config.app_logo_url {
        Some(l) => logo_img_text(l.as_str(), config.app_name.as_str()),
        None => String::new(),
    };
    page_text(
        config.app_name.as_str(),
        header_text,
        config.primary_color.as_str(),
        config.secondary_color.as_str(),
        logo.as_str(),
        content,
    )
}

/// The email a template sends: from "noreply@example.com" to the placeholder
/// "placeholder@example.com", with the subject and the HTML.
pub(crate) fn template_email(subject: &str, html: String) -> (r: Email)
    ensures
        r.from@ == "noreply@example.com"@,
        r.to@ == "placeholder@example.com"@,
        r.subject@ == subject@,
        r.body_html == Some(html),
        r.from_name is None,
        r.to_name is None,
        r.body_text is None,
        r.reply_to is None,
        r.cc is None,
        r.bcc is None,
        r.headers is None,
{
    let e = Email::new("noreply@example.com", "placeholder@example.com", subject);
    Email { body_html: Some(html), ..e }
}

} // verus!
