//! Password Reset Email Template
use vstd::prelude::*;
use crate::email::Email;
use crate::email_templates::{EmailTemplateConfig, build_html_wrapper, template_email, reset_content, reset_content_text, wrapper_html};

verus! {

/// Build a password reset email
pub fn build(config: &EmailTemplateConfig, reset_link: &str) -> (r: Email)
    ensures
        r.from@ == "noreply@example.com"@,
        r.to@ == "placeholder@example.com"@,
        r.subject@ == "Password Reset Request"@,
        r.body_html matches Some(h) && h@ == wrapper_html(*config, "Password Reset Request"@,
            reset_content(reset_link@, config.primary_color@)),
        r.body_text is None,
        r.headers is None,
{
    let content = reset_content_text(reset_link, config.primary_color.as_str());
    let html = build_html_wrapper(config, "Password Reset Request", content.as_str());
    template_email("Password Reset Request", html)
}

} // verus!
