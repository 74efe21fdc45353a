//! The subscription workflow: registration (validate, record pending with a
//! token, then send the confirmation email) and confirmation (resolve the
//! token, then confirm the subscriber).
use vstd::prelude::*;
use crate::domain::{NewSubscriber, ValidationError, new_subscriber_error};
use crate::message::{
    OutgoingEmail,
    confirmation_email,
    confirmation_html_of,
    confirmation_link,
    confirmation_link_of,
    confirmation_subject,
    confirmation_text_of,
};
use crate::store::{
    StorageError,
    SubscriptionStatus,
    SubscriptionStore,
    confirmed_in,
    registration_error,
    registration_recorded,
};
use crate::token::{generate_token, is_token_shaped};

verus! {

/// What a request comes to, as the caller sees it.
#[derive(PartialEq, Eq, Structural, Clone, Copy, Debug)]
pub enum Outcome {
    Success,
    BadRequest,
    InternalError,
}

impl Outcome {
    pub open spec fn code(&self) -> u16 {
        match self {
            Outcome::Success => 200,
            Outcome::BadRequest => 400,
            Outcome::InternalError => 500,
        }
    }

    /// The HTTP status code of the outcome.
    pub fn status_code(&self) -> (r: u16)
        ensures
            r == self.code(),
    {
        match self {
            Outcome::Success => 200,
            Outcome::BadRequest => 400,
            Outcome::InternalError => 500,
        }
    }
}

/// The result of recording a registration, before its email is sent.
pub enum Registration {
    /// The input was invalid; nothing was written.
    Rejected(ValidationError),
    /// The store refused the writes; nothing was written.
    Failed(StorageError),
    /// The subscriber is recorded with `token`; `email` is still to be sent.
    Accepted { subscriber_id: u128, token: String, email: OutgoingEmail },
}

/// `after` and `r` are what registering `email` and `name` does to `before`,
/// given the outside values `fresh_id`, `subscribed_at` and `token`.
pub open spec fn registers(
    before: SubscriptionStore,
    after: SubscriptionStore,
    email: Seq<char>,
    name: Seq<char>,
    base_url: Seq<char>,
    fresh_id: u128,
    subscribed_at: i64,
    token: Seq<char>,
    r: Registration,
) -> bool {
    match new_subscriber_error(email, name) {
        Some(e) => r == Registration::Rejected(e) && after == before,
        None => match registration_error(before, email, fresh_id, token) {
            Some(e) => r == Registration::Failed(e) && after == before,
            None => match r {
                Registration::Accepted { subscriber_id, token: issued, email: message } => {
                    let link = confirmation_link_of(base_url, token);
                    &&& issued@ == token
                    &&& registration_recorded(
                        before,
                        after,
                        email,
                        name,
                        fresh_id,
                        subscribed_at,
                        token,
                        subscriber_id,
                    )
                    &&& message.recipient@ == email
                    &&& message.subject@ == confirmation_subject()
                    &&& message.text_body@ == confirmation_text_of(link)
                    &&& message.html_body@ == confirmation_html_of(link)
                },
                _ => false,
            },
        },
    }
}

/// Registers a subscriber with the given id, time and token: validation
/// first, then the pending record and the token in one step, then the
/// confirmation message to send.
pub fn register_with(
    store: &mut SubscriptionStore,
    raw_email: String,
    raw_name: String,
    base_url: &str,
    fresh_id: u128,
    subscribed_at: i64,
    token: String,
) -> (r: Registration)
    requires
        old(store).wf(),
    ensures
        final(store).wf(),
        registers(
            *old(store),
            *final(store),
            raw_email@,
            raw_name@,
            base_url@,
            fresh_id,
            subscribed_at,
            token@,
            r,
        ),
{
    let subscriber = match NewSubscriber::try_from(raw_email, raw_name) {
        Ok(s) => s,
        Err(e) => {
            return Registration::Rejected(e);
        },
    };
    let link = confirmation_link(base_url, token.as_str());
    let issued = token.clone();
    match store.record_registration(&subscriber, fresh_id, subscribed_at, token) {
        Err(e) => Registration::Failed(e),
        Ok(id) => Registration::Accepted {
            subscriber_id: id,
            token: issued,
            email: confirmation_email(subscriber.email.as_str(), link.as_str()),
        },
    }
}

/// Relies on uuid's `Uuid::new_v4` for a random identifier, read back whole
/// with `Uuid::as_u128`; nothing is known of its value.
#[verifier::external_body]
fn new_subscriber_id() -> (r: u128) {
    uuid::Uuid::new_v4().as_u128()
}

/// Relies on chrono's `Utc::now`, read as whole seconds since the Unix epoch
/// with `DateTime::timestamp`; nothing is known of its value.
#[verifier::external_body]
fn now_timestamp() -> (r: i64) {
    chrono::Utc::now().timestamp()
}

/// Registers a subscriber with a fresh random id, the current time and a
/// fresh token.
pub fn register(
    store: &mut SubscriptionStore,
    raw_email: String,
    raw_name: String,
    base_url: &str,
) -> (r: Registration)
    requires
        old(store).wf(),
    ensures
        final(store).wf(),
        exists|fresh_id: u128, subscribed_at: i64, token: Seq<char>|
            is_token_shaped(token) && #[trigger] registers(
                *old(store),
                *final(store),
                raw_email@,
                raw_name@,
                base_url@,
                fresh_id,
                subscribed_at,
                token,
                r,
            ),
{
    let fresh_id = new_subscriber_id();
    let subscribed_at = now_timestamp();
    let token = generate_token();
    let ghost drawn = token@;
    let r = register_with(store, raw_email, raw_name, base_url, fresh_id, subscribed_at, token);
    proof {
        assert(is_token_shaped(drawn));
    }
    r
}

/// The outcome of a registration once its email was handed to the transport:
/// `sent` says whether the transport accepted it.
pub open spec fn registration_outcome_of(r: Registration, sent: bool) -> Outcome {
    match r {
        Registration::Rejected(_) => Outcome::BadRequest,
        Registration::Failed(_) => Outcome::InternalError,
        Registration::Accepted { .. } => if sent {
            Outcome::Success
        } else {
            Outcome::InternalError
        },
    }
}

/// Maps a registration and the result of sending its email to the outcome;
/// a failed send leaves the pending record in place.
pub fn registration_outcome(r: &Registration, sent: bool) -> (o: Outcome)
    ensures
        o == registration_outcome_of(*r, sent),
{
    match r {
        Registration::Rejected(_) => Outcome::BadRequest,
        Registration::Failed(_) => Outcome::InternalError,
        Registration::Accepted { .. } => if sent {
            Outcome::Success
        } else {
            Outcome::InternalError
        },
    }
}

pub open spec fn token_view(token: Option<String>) -> Option<Seq<char>> {
    match token {
        Some(t) => Some(t@),
        None => None,
    }
}

/// `after` and `r` are what confirming with `token` does to `before`: a
/// missing or unissued token is a bad request that changes nothing, an issued
/// one confirms its subscriber.
pub open spec fn confirms(
    before: SubscriptionStore,
    after: SubscriptionStore,
    token: Option<Seq<char>>,
    r: Outcome,
) -> bool {
    let owner = match token {
        Some(t) => before.token_owner(t),
        None => None,
    };
    match owner {
        None => r == Outcome::BadRequest && after == before,
        Some(id) => r == Outcome::Success && confirmed_in(before, after, id),
    }
}

/// Confirms the subscriber that `token` was issued to.
pub fn confirm(store: &mut SubscriptionStore, token: Option<String>) -> (r: Outcome)
    requires
        old(store).wf(),
    ensures
        final(store).wf(),
        confirms(*old(store), *final(store), token_view(token), r),
{
    let token = match token {
        None => {
            return Outcome::BadRequest;
        },
        Some(t) => t,
    };
    match store.resolve_subscriber_by_token(&token) {
        None => Outcome::BadRequest,
        Some(id) => {
            proof {
                let k = choose|k: int|
                    0 <= k < store.token_rows().len() && #[trigger] store.token_rows()[k].token@
                        == token@;
                assert(store.has_id(store.token_rows()[k].subscriber_id));
            }
            match store.confirm(id) {
                Ok(()) => Outcome::Success,
                Err(_) => Outcome::InternalError,
            }
        },
    }
}

/// A valid registration that the store accepts leaves its subscriber
/// pending, unless that subscriber had already confirmed, and its token
/// resolves to that subscriber.
pub proof fn lemma_registration_leaves_pending_token(
    before: SubscriptionStore,
    after: SubscriptionStore,
    email: Seq<char>,
    name: Seq<char>,
    base_url: Seq<char>,
    fresh_id: u128,
    subscribed_at: i64,
    token: Seq<char>,
    r: Registration,
)
    requires
        before.wf(),
        after.wf(),
        registers(before, after, email, name, base_url, fresh_id, subscribed_at, token, r),
        new_subscriber_error(email, name) is None,
        !(before.id_of_email(email) matches Some(id) && before.status_of(id) == Some(
            SubscriptionStatus::Confirmed,
        )),
    ensures
        r is Accepted <==> registration_error(before, email, fresh_id, token) is None,
        r is Accepted ==> {
            &&& after.id_of_email(email) == Some(r->subscriber_id)
            &&& after.status_of(r->subscriber_id) == Some(SubscriptionStatus::PendingConfirmation)
            &&& after.token_owner(token) == Some(r->subscriber_id)
        },
{
    if r is Accepted {
        let id = r->subscriber_id;
        let last = after.token_rows().len() - 1;
        after.lemma_token_owner(last);
        if before.has_email(email) {
            let i = choose|i: int| 0 <= i < before.rows().len() && #[trigger] before.rows()[i].email@ == email;
            before.lemma_id_of_email(i);
            after.lemma_id_of_email(i);
            before.lemma_status_of(i);
            after.lemma_status_of(i);
        } else {
            let i = after.rows().len() - 1;
            after.lemma_id_of_email(i);
            after.lemma_status_of(i);
        }
    }
}

/// Two accepted registrations in a row never issue the same token.
pub proof fn lemma_reregistration_issues_new_token(
    s0: SubscriptionStore,
    s1: SubscriptionStore,
    s2: SubscriptionStore,
    email: Seq<char>,
    name: Seq<char>,
    base_url: Seq<char>,
    id1: u128,
    at1: i64,
    t1: Seq<char>,
    r1: Registration,
    id2: u128,
    at2: i64,
    t2: Seq<char>,
    r2: Registration,
)
    requires
        registers(s0, s1, email, name, base_url, id1, at1, t1, r1),
        registers(s1, s2, email, name, base_url, id2, at2, t2, r2),
        r1 is Accepted,
        r2 is Accepted,
    ensures
        t1 != t2,
{
    let last = s1.token_rows().len() - 1;
    assert(s1.token_rows()[last].token@ == t1);
    assert(s1.has_token(t1));
}

/// Confirming with a token that was never issued is a bad request and
/// changes no subscriber.
pub proof fn lemma_unissued_token_is_rejected(
    before: SubscriptionStore,
    after: SubscriptionStore,
    token: Seq<char>,
    r: Outcome,
)
    requires
        !before.has_token(token),
        confirms(before, after, Some(token), r),
    ensures
        r == Outcome::BadRequest,
        forall|id: u128| #[trigger] after.status_of(id) == before.status_of(id),
{
}

/// Confirming twice with an issued token succeeds both times, and its
/// subscriber is confirmed after each.
pub proof fn lemma_confirmation_is_idempotent(
    s0: SubscriptionStore,
    s1: SubscriptionStore,
    s2: SubscriptionStore,
    token: Seq<char>,
    r1: Outcome,
    r2: Outcome,
)
    requires
        s0.wf(),
        s0.has_token(token),
        confirms(s0, s1, Some(token), r1),
        confirms(s1, s2, Some(token), r2),
    ensures
        r1 == Outcome::Success,
        r2 == Outcome::Success,
        s1.status_of(s0.token_owner(token)->0) == Some(SubscriptionStatus::Confirmed),
        s2.status_of(s0.token_owner(token)->0) == Some(SubscriptionStatus::Confirmed),
{
    let k = choose|k: int| 0 <= k < s0.token_rows().len() && #[trigger] s0.token_rows()[k].token@ == token;
    let id = s0.token_rows()[k].subscriber_id;
    s0.lemma_token_owner(k);
    SubscriptionStore::lemma_confirmed_in(s0, s1, id);
    assert(s1.token_owner(token) == s0.token_owner(token));
    assert(s1.has_id(id));
    SubscriptionStore::lemma_confirmed_in(s1, s2, id);
}

} // verus!
