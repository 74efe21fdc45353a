//! The newsletter fan-out: one copy of an issue for every confirmed
//! subscriber, and a tally of how the sends went.
use vstd::prelude::*;
use crate::message::OutgoingEmail;
use crate::store::{
    SubscriptionStatus,
    SubscriptionStore,
    confirmed_emails,
    lemma_confirmed_emails_contains,
};

verus! {

/// A newsletter issue as submitted for publication.
pub struct NewsletterIssue {
    pub title: String,
    pub text_body: String,
    pub html_body: String,
}

/// Why an issue was refused.
#[derive(PartialEq, Eq, Structural, Clone, Copy, Debug)]
pub enum IssueError {
    MissingTitle,
    MissingTextBody,
    MissingHtmlBody,
}

/// The first empty part of an issue, in the order title, text, HTML.
pub open spec fn issue_error(title: Seq<char>, text_body: Seq<char>, html_body: Seq<char>) -> Option<
    IssueError,
> {
    if title.len() == 0 {
        Some(IssueError::MissingTitle)
    } else if text_body.len() == 0 {
        Some(IssueError::MissingTextBody)
    } else if html_body.len() == 0 {
        Some(IssueError::MissingHtmlBody)
    } else {
        None
    }
}

/// `m` is the copy of the issue for `recipient`.
pub open spec fn is_copy_for(m: OutgoingEmail, issue: NewsletterIssue, recipient: Seq<char>) -> bool {
    &&& m.recipient@ == recipient
    &&& m.subject@ == issue.title@
    &&& m.text_body@ == issue.text_body@
    &&& m.html_body@ == issue.html_body@
}

/// Checks an issue and, when it is complete, makes one copy of it for each
/// confirmed subscriber, in record order.
pub fn plan_publication(store: &SubscriptionStore, issue: &NewsletterIssue) -> (r: Result<
    Vec<OutgoingEmail>,
    IssueError,
>)
    ensures
        match r {
            Err(e) => issue_error(issue.title@, issue.text_body@, issue.html_body@) == Some(e),
            Ok(v) => {
                &&& issue_error(issue.title@, issue.text_body@, issue.html_body@) is None
                &&& v@.len() == confirmed_emails(store.rows()).len()
                &&& forall|k: int|
                    0 <= k < v@.len() ==> is_copy_for(
                        #[trigger] v@[k],
                        *issue,
                        confirmed_emails(store.rows())[k],
                    )
            },
        },
{
    if issue.title.as_str().is_empty() {
        return Err(IssueError::MissingTitle);
    }
    if issue.text_body.as_str().is_empty() {
        return Err(IssueError::MissingTextBody);
    }
    if issue.html_body.as_str().is_empty() {
        return Err(IssueError::MissingHtmlBody);
    }
    let recipients = store.list_confirmed();
    let mut v: Vec<OutgoingEmail> = Vec::new();
    let mut k: usize = 0;
    while k < recipients.len()
        invariant
            k <= recipients@.len(),
            recipients@.len() == confirmed_emails(store.rows()).len(),
            forall|j: int|
                0 <= j < recipients@.len() ==> #[trigger] recipients@[j]@ == confirmed_emails(
                    store.rows(),
                )[j],
            v@.len() == k,
            forall|j: int|
                0 <= j < k ==> is_copy_for(#[trigger] v@[j], *issue, confirmed_emails(store.rows())[j]),
        decreases recipients@.len() - k,
    {
        v.push(
            OutgoingEmail {
                recipient: recipients[k].clone(),
                subject: issue.title.clone(),
                html_body: issue.html_body.clone(),
                text_body: issue.text_body.clone(),
            },
        );
        k = k + 1;
    }
    Ok(v)
}

/// A publication goes exactly to the confirmed subscribers: an email is
/// among its recipients if and only if it belongs to a subscriber whose
/// status is confirmed, so no pending subscriber is ever sent an issue.
pub proof fn lemma_publication_reaches_only_confirmed(store: SubscriptionStore, email: Seq<char>)
    requires
        store.wf(),
    ensures
        confirmed_emails(store.rows()).contains(email) <==> (store.id_of_email(email) matches Some(
            id,
        ) && store.status_of(id) == Some(SubscriptionStatus::Confirmed)),
{
    lemma_confirmed_emails_contains(store.rows(), email);
    if store.has_email(email) {
        let i = choose|i: int|
            0 <= i < store.rows().len() && #[trigger] store.rows()[i].email@ == email;
        store.lemma_id_of_email(i);
        store.lemma_status_of(i);
    }
}

/// The number of `true` entries of `results`.
pub open spec fn count_delivered(results: Seq<bool>) -> nat
    decreases results.len(),
{
    if results.len() == 0 {
        0
    } else {
        count_delivered(results.drop_last()) + if results.last() {
            1nat
        } else {
            0nat
        }
    }
}

proof fn lemma_count_delivered_bound(results: Seq<bool>)
    ensures
        count_delivered(results) <= results.len(),
    decreases results.len(),
{
    if results.len() > 0 {
        lemma_count_delivered_bound(results.drop_last());
    }
}

/// How the sends of one publication went.
pub struct DeliveryReport {
    pub delivered: usize,
    pub failed: usize,
}

/// Tallies per-recipient send results, `true` for a send the transport
/// accepted; a failed send does not stop the others.
pub fn summarize_deliveries(results: &Vec<bool>) -> (r: DeliveryReport)
    ensures
        r.delivered == count_delivered(results@),
        r.delivered + r.failed == results@.len(),
{
    let mut delivered: usize = 0;
    let mut i: usize = 0;
    while i < results.len()
        invariant
            i <= results@.len(),
            delivered == count_delivered(results@.subrange(0, i as int)),
        decreases results@.len() - i,
    {
        proof {
            assert(results@.subrange(0, i + 1).drop_last() =~= results@.subrange(0, i as int));
            lemma_count_delivered_bound(results@.subrange(0, i as int));
        }
        if results[i] {
            delivered = delivered + 1;
        }
        i = i + 1;
    }
    proof {
        assert(results@.subrange(0, i as int) =~= results@);
        lemma_count_delivered_bound(results@);
    }
    DeliveryReport { delivered, failed: results.len() - delivered }
}

} // verus!
