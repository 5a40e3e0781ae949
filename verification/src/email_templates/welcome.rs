//! Welcome Email Template
use vstd::prelude::*;
use crate::email::Email;
use crate::email_templates::{
    EmailTemplateConfig, build_html_wrapper, template_email, welcome_content, welcome_content_text,
    verify_button, verify_button_text, wrapper_html,
};

verus! {

/// How the greeting names the person: nothing for an empty name, else a
/// space and the name.
pub open spec fn greeting(name: Seq<char>) -> Seq<char> {
    if name.len() == 0 { seq![] } else { " "@ + name }
}

/// The verification section of a welcome email: a button where there is a
/// link, nothing otherwise.
pub open spec fn verify_section(link: Option<Seq<char>>, primary: Seq<char>) -> Seq<char> {
    match link {
        Some(l) => verify_button(l, primary),
        None => seq![],
    }
}

/// Build a welcome email
pub fn build(config: &EmailTemplateConfig, name: &str, verify_link: Option<&str>) -> (r: Email)
    ensures
        r.from@ == "noreply@example.com"@,
        r.to@ == "placeholder@example.com"@,
        r.subject@ == "Welcome!"@,
        r.body_html matches Some(h) && h@ == wrapper_html(*config, "Welcome!"@, welcome_content(
            greeting(name@),
            config.app_name@,
            verify_section(match verify_link { Some(l) => Some(l@), None => None }, config.primary_color@),
        )),
        r.body_text is None,
        r.headers is None,
{
    let section = match verify_link {
        Some(link) => verify_button_text(link, config.primary_color.as_str()),
        None => String::new(),
    };
    let greet = if name.unicode_len() == 0 {
        String::new()
    } else {
        let mut g = String::from_str(" ");
        g.append(name);
        g
    };
    let content = welcome_content_text(greet.as_str(), config.app_name.as_str(), section.as_str());
    let html = build_html_wrapper(config, "Welcome!", content.as_str());
    template_email("Welcome!", html)
}

} // verus!
