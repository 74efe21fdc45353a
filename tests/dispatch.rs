use newsletter::dispatch::{plan_publication, summarize_deliveries, IssueError, NewsletterIssue};
use newsletter::store::SubscriptionStore;
use newsletter::workflow::{confirm, register, Registration};

fn issue(title: &str, text: &str, html: &str) -> NewsletterIssue {
    NewsletterIssue {
        title: title.to_string(),
        text_body: text.to_string(),
        html_body: html.to_string(),
    }
}

fn token_of(r: &Registration) -> String {
    match r {
        Registration::Accepted { token, .. } => token.clone(),
        _ => panic!("registration was not accepted"),
    }
}

#[test]
fn newsletters_go_only_to_confirmed_subscribers() {
    let mut store = SubscriptionStore::new();
    let base = "http://127.0.0.1";
    let pending = register(&mut store, "pending@mail.com".to_string(), "P".to_string(), base);
    let confirmed = register(&mut store, "confirmed@mail.com".to_string(), "C".to_string(), base);
    token_of(&pending);
    confirm(&mut store, Some(token_of(&confirmed)));
    let plan = plan_publication(
        &store,
        &issue("Newsletter title", "Newsletter body as plain text", "<p>Newsletter body as HTML</p>"),
    )
    .unwrap();
    assert_eq!(plan.len(), 1);
    assert_eq!(plan[0].recipient, "confirmed@mail.com");
    assert_eq!(plan[0].subject, "Newsletter title");
    assert_eq!(plan[0].text_body, "Newsletter body as plain text");
    assert_eq!(plan[0].html_body, "<p>Newsletter body as HTML</p>");
}

#[test]
fn no_confirmed_subscribers_means_no_emails() {
    let mut store = SubscriptionStore::new();
    register(&mut store, "pending@mail.com".to_string(), "P".to_string(), "http://x");
    let plan = plan_publication(&store, &issue("t", "text", "html")).unwrap();
    assert!(plan.is_empty());
}

#[test]
fn incomplete_issues_are_refused() {
    let store = SubscriptionStore::new();
    assert_eq!(plan_publication(&store, &issue("", "text", "html")).err(), Some(IssueError::MissingTitle));
    assert_eq!(plan_publication(&store, &issue("t", "", "html")).err(), Some(IssueError::MissingTextBody));
    assert_eq!(plan_publication(&store, &issue("t", "text", "")).err(), Some(IssueError::MissingHtmlBody));
}

#[test]
fn delivery_report_counts_each_send() {
    let r = summarize_deliveries(&vec![true, false, true, true]);
    assert_eq!(r.delivered, 3);
    assert_eq!(r.failed, 1);
    let r = summarize_deliveries(&vec![]);
    assert_eq!((r.delivered, r.failed), (0, 0));
}
