//! Generic Notification Template
use vstd::prelude::*;
use crate::email::Email;
use crate::email_templates::{
    EmailTemplateConfig, build_html_wrapper, template_email, notification_content, notification_content_text,
    action_button, action_button_text, wrapper_html,
};

verus! {

/// The action section of a notification: a button where both its text and
/// its link are given, nothing otherwise.
pub open spec fn action_section(text: Option<Seq<char>>, link: Option<Seq<char>>, primary: Seq<char>) -> Seq<char> {
    match (text, link) {
        (Some(t), Some(l)) => action_button(l, primary, t),
        _ => seq![],
    }
}

/// Build a generic notification email
pub fn build(
    config: &EmailTemplateConfig,
    title: &str,
    message: &str,
    action_text: Option<&str>,
    action_link: Option<&str>,
) -> (r: Email)
    ensures
        r.from@ == "noreply@example.com"@,
        r.to@ == "placeholder@example.com"@,
        r.subject@ == title@,
        r.body_html matches Some(h) && h@ == wrapper_html(*config, title@, notification_content(
            title@,
            message@,
            action_section(
                match action_text { Some(t) => Some(t@), None => None },
                match action_link { Some(l) => Some(l@), None => None },
                config.primary_color@,
            ),
        )),
        r.body_text is None,
        r.headers is None,
{
    let section = match (action_text, action_link) {
        (Some(text), Some(link)) => action_button_text(link, config.primary_color.as_str(), text),
        _ => String::new(),
    };
    let content = notification_content_text(title, message, section.as_str());
    let html = build_html_wrapper(config, title, content.as_str());
    template_email(title, html)
}

} // verus!
