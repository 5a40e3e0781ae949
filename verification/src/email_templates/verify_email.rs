//! Email Verification Template
use vstd::prelude::*;
use crate::email::Email;
use crate::email_templates::{
    EmailTemplateConfig, build_html_wrapper, template_email, verify_content, verify_content_text,
    code_box, code_box_text, wrapper_html,
};

verus! {

/// The code section of a verification email: the code box where there is a
/// code, nothing otherwise.
pub open spec fn code_section(code: Option<Seq<char>>, primary: Seq<char>) -> Seq<char> {
    match code {
        Some(c) => code_box(primary, c),
        None => seq![],
    }
}

/// Build an email verification email
pub fn build(config: &EmailTemplateConfig, verify_link: &str, code: Option<&str>) -> (r: Email)
    ensures
        r.from@ == "noreply@example.com"@,
        r.to@ == "placeholder@example.com"@,
        r.subject@ == "Verify Your Email"@,
        r.body_html matches Some(h) && h@ == wrapper_html(*config, "Verify Your Email"@, verify_content(
            verify_link@,
            config.primary_color@,
            code_section(match code { Some(c) => Some(c@), None => None }, config.primary_color@),
        )),
        r.body_text is None,
        r.headers is None,
{
    let section = match code {
        Some(c) => code_box_text(config.primary_color.as_str(), c),
        None => String::new(),
    };
    let content = verify_content_text(verify_link, config.primary_color.as_str(), section.as_str());
    let html = build_html_wrapper(config, "Verify Your Email", content.as_str());
    template_email("Verify Your Email", html)
}

} // verus!
