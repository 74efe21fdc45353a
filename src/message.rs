//! Outgoing emails: the confirmation message of a registration and the
//! per-recipient copies of a newsletter issue.
use vstd::prelude::*;

verus! {

/// An email to hand to the email transport.
pub struct OutgoingEmail {
    pub recipient: String,
    pub subject: String,
    pub html_body: String,
    pub text_body: String,
}

/// The path, with its query key, that confirms a subscription.
pub open spec fn confirm_path() -> Seq<char> {
    "/subscriptions/confirm?subscription_token="@
}

/// The confirmation link of `token` under `base_url`.
pub open spec fn confirmation_link_of(base_url: Seq<char>, token: Seq<char>) -> Seq<char> {
    base_url + confirm_path() + token
}

pub open spec fn confirmation_subject() -> Seq<char> {
    "Welcome!"@
}

pub open spec fn confirmation_text_of(link: Seq<char>) -> Seq<char> {
    "Welcome to our newsletter!\nVisit "@ + link + " to confirm your subscription."@
}

pub open spec fn confirmation_html_of(link: Seq<char>) -> Seq<char> {
    "Welcome to our newsletter!<br /> Click <a href=\""@ + link
        + "\">here</a> to confirm your subscription."@
}

/// Builds the confirmation link of `token` under `base_url`.
pub fn confirmation_link(base_url: &str, token: &str) -> (r: String)
    ensures
        r@ == confirmation_link_of(base_url@, token@),
{
    let mut link = base_url.to_owned();
    link.append("/subscriptions/confirm?subscription_token=");
    link.append(token);
    link
}

/// The confirmation message for `recipient`, in plain text and HTML, each
/// holding `link` once.
pub fn confirmation_email(recipient: &str, link: &str) -> (r: OutgoingEmail)
    ensures
        r.recipient@ == recipient@,
        r.subject@ == confirmation_subject(),
        r.text_body@ == confirmation_text_of(link@),
        r.html_body@ == confirmation_html_of(link@),
{
    let mut text_body = "Welcome to our newsletter!\nVisit ".to_owned();
    text_body.append(link);
    text_body.append(" to confirm your subscription.");
    let mut html_body = "Welcome to our newsletter!<br /> Click <a href=\"".to_owned();
    html_body.append(link);
    html_body.append("\">here</a> to confirm your subscription.");
    OutgoingEmail {
        recipient: recipient.to_owned(),
        subject: "Welcome!".to_owned(),
        html_body,
        text_body,
    }
}

} // verus!
