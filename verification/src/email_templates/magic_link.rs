//! Magic Link Login Template
use vstd::prelude::*;
use crate::email::Email;
use crate::email_templates::{
    EmailTemplateConfig, build_html_wrapper, template_email, magic_content, magic_content_text,
    magic_code_box, magic_code_box_text, wrapper_html,
};

verus! {

/// The code section of a magic link email: the code box where there is a
/// code, nothing otherwise.
pub open spec fn code_section(code: Option<Seq<char>>, primary: Seq<char>) -> Seq<char> {
    match code {
        Some(c) => magic_code_box(primary, c),
        None => seq![],
    }
}

/// Build a magic link login email
pub fn build(config: &EmailTemplateConfig, magic_link: &str, code: Option<&str>) -> (r: Email)
    ensures
        r.from@ == "noreply@example.com"@,
        r.to@ == "placeholder@example.com"@,
        r.subject@ == "Your Magic Login Link"@,
        r.body_html matches Some(h) && h@ == wrapper_html(*config, "Your Magic Login Link"@, magic_content(
            magic_link@,
            config.primary_color@,
            code_section(match code { Some(c) => Some(c@), None => None }, config.primary_color@),
        )),
        r.body_text is None,
        r.headers is None,
{
    let section = match code {
        Some(c) => magic_code_box_text(config.primary_color.as_str(), c),
        None => String::new(),
    };
    let content = magic_content_text(magic_link, config.primary_color.as_str(), section.as_str());
    let html = build_html_wrapper(config, "Your Magic Login Link", content.as_str());
    template_email("Your Magic Login Link", html)
}

} // verus!
