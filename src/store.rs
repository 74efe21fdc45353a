//! The subscription store: subscriber records and the tokens that point at
//! them, with the uniqueness and reference constraints that the storage layer
//! enforces.
use vstd::prelude::*;
use crate::domain::NewSubscriber;

verus! {

/// The two lifecycle states of a subscriber.
#[derive(PartialEq, Eq, Structural, Clone, Copy, Debug)]
pub enum SubscriptionStatus {
    PendingConfirmation,
    Confirmed,
}

impl SubscriptionStatus {
    pub open spec fn label(&self) -> Seq<char> {
        match self {
            SubscriptionStatus::PendingConfirmation => "pending_confirmation"@,
            SubscriptionStatus::Confirmed => "confirmed"@,
        }
    }

    /// The name under which the status is stored.
    pub fn as_str(&self) -> (r: &'static str)
        ensures
            r@ == self.label(),
    {
        match self {
            SubscriptionStatus::PendingConfirmation => "pending_confirmation",
            SubscriptionStatus::Confirmed => "confirmed",
        }
    }
}

/// Why the store refused a write.
#[derive(PartialEq, Eq, Structural, Clone, Copy, Debug)]
pub enum StorageError {
    DuplicateId,
    DuplicateEmail,
    DuplicateToken,
    UnknownSubscriber,
}

/// A subscriber record.
pub struct Subscription {
    pub id: u128,
    pub email: String,
    pub name: String,
    pub subscribed_at: i64,
    pub status: SubscriptionStatus,
}

/// A confirmation token and the subscriber it belongs to.
pub struct ConfirmationToken {
    pub token: String,
    pub subscriber_id: u128,
}

/// `row` is the fresh pending record of the given values.
pub open spec fn is_pending_row(
    row: Subscription,
    id: u128,
    email: Seq<char>,
    name: Seq<char>,
    subscribed_at: i64,
) -> bool {
    &&& row.id == id
    &&& row.email@ == email
    &&& row.name@ == name
    &&& row.subscribed_at == subscribed_at
    &&& row.status == SubscriptionStatus::PendingConfirmation
}

/// `row` as `confirm` leaves it.
pub open spec fn confirmed_row(row: Subscription) -> Subscription {
    Subscription {
        id: row.id,
        email: row.email,
        name: row.name,
        subscribed_at: row.subscribed_at,
        status: SubscriptionStatus::Confirmed,
    }
}

/// The emails of the confirmed records, in record order.
pub open spec fn confirmed_emails(rows: Seq<Subscription>) -> Seq<Seq<char>>
    decreases rows.len(),
{
    if rows.len() == 0 {
        Seq::empty()
    } else {
        let rest = confirmed_emails(rows.drop_last());
        if rows.last().status == SubscriptionStatus::Confirmed {
            rest.push(rows.last().email@)
        } else {
            rest
        }
    }
}

/// `after` is `before` with the subscriber `id` confirmed and nothing else
/// changed.
pub open spec fn confirmed_in(before: SubscriptionStore, after: SubscriptionStore, id: u128) -> bool {
    &&& after.rows().len() == before.rows().len()
    &&& forall|i: int|
        0 <= i < before.rows().len() ==> #[trigger] after.rows()[i] == if before.rows()[i].id == id {
            confirmed_row(before.rows()[i])
        } else {
            before.rows()[i]
        }
    &&& after.token_rows() == before.token_rows()
}

/// `after` is `before` with a registration of `email` and `name` recorded
/// under `token`: a new pending record with `fresh_id` for an unknown email, the
/// existing record for a known one.
pub open spec fn registration_recorded(
    before: SubscriptionStore,
    after: SubscriptionStore,
    email: Seq<char>,
    name: Seq<char>,
    fresh_id: u128,
    subscribed_at: i64,
    token: Seq<char>,
    id: u128,
) -> bool {
    &&& after.token_rows().len() == before.token_rows().len() + 1
    &&& after.token_rows().drop_last() == before.token_rows()
    &&& after.token_rows().last().token@ == token
    &&& after.token_rows().last().subscriber_id == id
    &&& if before.has_email(email) {
        &&& id == before.id_of_email(email)->0
        &&& after.rows() == before.rows()
    } else {
        &&& id == fresh_id
        &&& after.rows().len() == before.rows().len() + 1
        &&& after.rows().drop_last() == before.rows()
        &&& is_pending_row(after.rows().last(), fresh_id, email, name, subscribed_at)
    }
}

/// The refusal, if any, of a registration of `email` under `fresh_id` and
/// `token`.
pub open spec fn registration_error(
    store: SubscriptionStore,
    email: Seq<char>,
    fresh_id: u128,
    token: Seq<char>,
) -> Option<StorageError> {
    if store.has_token(token) {
        Some(StorageError::DuplicateToken)
    } else if !store.has_email(email) && store.has_id(fresh_id) {
        Some(StorageError::DuplicateId)
    } else {
        None
    }
}

/// An email is among the confirmed emails exactly when some confirmed record
/// holds it.
pub proof fn lemma_confirmed_emails_contains(rows: Seq<Subscription>, email: Seq<char>)
    ensures
        confirmed_emails(rows).contains(email) <==> exists|i: int|
            0 <= i < rows.len() && #[trigger] rows[i].email@ == email && rows[i].status
                == SubscriptionStatus::Confirmed,
    decreases rows.len(),
{
    if rows.len() > 0 {
        let prefix = rows.drop_last();
        lemma_confirmed_emails_contains(prefix, email);
        let rest = confirmed_emails(prefix);
        let n = rows.len() - 1;
        if confirmed_emails(rows).contains(email) {
            if rows.last().status == SubscriptionStatus::Confirmed && !rest.contains(email) {
                let k = choose|k: int| 0 <= k < rest.len() + 1 && rest.push(rows.last().email@)[k] == email;
                assert(k == rest.len());
                assert(rows[n].email@ == email);
            } else if rest.contains(email) {
                let i = choose|i: int|
                    0 <= i < prefix.len() && #[trigger] prefix[i].email@ == email && prefix[i].status
                        == SubscriptionStatus::Confirmed;
                assert(rows[i] == prefix[i]);
            }
        } else {
            assert forall|i: int|
                0 <= i < rows.len() && #[trigger] rows[i].email@ == email implies rows[i].status
                != SubscriptionStatus::Confirmed by {
                if i < n {
                    assert(rows[i] == prefix[i]);
                    if rows[i].status == SubscriptionStatus::Confirmed {
                        assert(prefix[i].email@ == email);
                        if rows.last().status == SubscriptionStatus::Confirmed {
                            let k = choose|k: int| 0 <= k < rest.len() && rest[k] == email;
                            assert(confirmed_emails(rows)[k] == email);
                        }
                    }
                } else if rows[i].status == SubscriptionStatus::Confirmed {
                    assert(confirmed_emails(rows)[rest.len() as int] == email);
                }
            }
        }
    }
}

/// Subscriber records and confirmation tokens.
pub struct SubscriptionStore {
    subscriptions: Vec<Subscription>,
    tokens: Vec<ConfirmationToken>,
}

impl SubscriptionStore {
    /// The subscriber records, in insertion order.
    pub closed spec fn rows(&self) -> Seq<Subscription> {
        self.subscriptions@
    }

    /// The token records, in insertion order.
    pub closed spec fn token_rows(&self) -> Seq<ConfirmationToken> {
        self.tokens@
    }

    pub open spec fn has_id(&self, id: u128) -> bool {
        exists|i: int| 0 <= i < self.rows().len() && #[trigger] self.rows()[i].id == id
    }

    pub open spec fn has_email(&self, email: Seq<char>) -> bool {
        exists|i: int| 0 <= i < self.rows().len() && #[trigger] self.rows()[i].email@ == email
    }

    pub open spec fn has_token(&self, token: Seq<char>) -> bool {
        exists|k: int|
            0 <= k < self.token_rows().len() && #[trigger] self.token_rows()[k].token@ == token
    }

    /// Ids, emails and tokens are unique, and every token belongs to a
    /// stored subscriber.
    pub open spec fn wf(&self) -> bool {
        &&& forall|i: int, j: int|
            0 <= i < self.rows().len() && 0 <= j < self.rows().len() && #[trigger] self.rows()[i].id
                == #[trigger] self.rows()[j].id ==> i == j
        &&& forall|i: int, j: int|
            0 <= i < self.rows().len() && 0 <= j < self.rows().len()
                && #[trigger] self.rows()[i].email@ == #[trigger] self.rows()[j].email@ ==> i == j
        &&& forall|k: int, l: int|
            0 <= k < self.token_rows().len() && 0 <= l < self.token_rows().len()
                && #[trigger] self.token_rows()[k].token@ == #[trigger] self.token_rows()[l].token@
                ==> k == l
        &&& forall|k: int|
            0 <= k < self.token_rows().len() ==> self.has_id(
                #[trigger] self.token_rows()[k].subscriber_id,
            )
    }

    /// The subscriber that `token` was issued to.
    pub open spec fn token_owner(&self, token: Seq<char>) -> Option<u128> {
        if self.has_token(token) {
            let k = choose|k: int|
                0 <= k < self.token_rows().len() && #[trigger] self.token_rows()[k].token@ == token;
            Some(self.token_rows()[k].subscriber_id)
        } else {
            None
        }
    }

    /// The id of the subscriber with this email.
    pub open spec fn id_of_email(&self, email: Seq<char>) -> Option<u128> {
        if self.has_email(email) {
            let i = choose|i: int|
                0 <= i < self.rows().len() && #[trigger] self.rows()[i].email@ == email;
            Some(self.rows()[i].id)
        } else {
            None
        }
    }

    /// The status of the subscriber with this id.
    pub open spec fn status_of(&self, id: u128) -> Option<SubscriptionStatus> {
        if self.has_id(id) {
            let i = choose|i: int| 0 <= i < self.rows().len() && #[trigger] self.rows()[i].id == id;
            Some(self.rows()[i].status)
        } else {
            None
        }
    }

    pub proof fn lemma_token_owner(&self, k: int)
        requires
            self.wf(),
            0 <= k < self.token_rows().len(),
        ensures
            self.token_owner(self.token_rows()[k].token@) == Some(self.token_rows()[k].subscriber_id),
    {
    }

    pub proof fn lemma_id_of_email(&self, i: int)
        requires
            self.wf(),
            0 <= i < self.rows().len(),
        ensures
            self.id_of_email(self.rows()[i].email@) == Some(self.rows()[i].id),
    {
    }

    pub proof fn lemma_status_of(&self, i: int)
        requires
            self.wf(),
            0 <= i < self.rows().len(),
        ensures
            self.status_of(self.rows()[i].id) == Some(self.rows()[i].status),
    {
    }

    /// Confirming keeps the store well formed and every token's owner, and
    /// leaves the subscriber `id` confirmed.
    pub proof fn lemma_confirmed_in(before: SubscriptionStore, after: SubscriptionStore, id: u128)
        requires
            before.wf(),
            before.has_id(id),
            confirmed_in(before, after, id),
        ensures
            after.wf(),
            after.status_of(id) == Some(SubscriptionStatus::Confirmed),
            forall|t: Seq<char>| #[trigger] after.token_owner(t) == before.token_owner(t),
    {
        assert forall|i: int| 0 <= i < after.rows().len() implies #[trigger] after.rows()[i].id
            == before.rows()[i].id && after.rows()[i].email@ == before.rows()[i].email@ by {
            assert(after.rows()[i] == if before.rows()[i].id == id {
                confirmed_row(before.rows()[i])
            } else {
                before.rows()[i]
            });
        }
        assert forall|k: int| 0 <= k < after.token_rows().len() implies after.has_id(
            #[trigger] after.token_rows()[k].subscriber_id,
        ) by {
            assert(before.has_id(before.token_rows()[k].subscriber_id));
            let i = choose|i: int|
                0 <= i < before.rows().len() && #[trigger] before.rows()[i].id
                    == before.token_rows()[k].subscriber_id;
            assert(after.rows()[i].id == before.rows()[i].id);
        }
        let i = choose|i: int| 0 <= i < before.rows().len() && #[trigger] before.rows()[i].id == id;
        assert(after.rows()[i].id == id);
        after.lemma_status_of(i);
    }

    /// An empty store.
    pub fn new() -> (s: SubscriptionStore)
        ensures
            s.wf(),
            s.rows().len() == 0,
            s.token_rows().len() == 0,
    {
        SubscriptionStore { subscriptions: Vec::new(), tokens: Vec::new() }
    }

    /// The number of subscriber records.
    pub fn subscription_count(&self) -> (r: usize)
        ensures
            r == self.rows().len(),
    {
        self.subscriptions.len()
    }

    /// The subscriber record at `index`.
    pub fn subscription(&self, index: usize) -> (r: &Subscription)
        requires
            index < self.rows().len(),
        ensures
            *r == self.rows()[index as int],
    {
        &self.subscriptions[index]
    }

    /// The position of the record with this email.
    pub fn find_email(&self, email: &String) -> (r: Option<usize>)
        ensures
            match r {
                Some(i) => i < self.rows().len() && self.rows()[i as int].email@ == email@,
                None => !self.has_email(email@),
            },
    {
        let mut i: usize = 0;
        while i < self.subscriptions.len()
            invariant
                i <= self.rows().len(),
                forall|j: int| 0 <= j < i ==> #[trigger] self.rows()[j].email@ != email@,
            decreases self.rows().len() - i,
        {
            if self.subscriptions[i].email == *email {
                return Some(i);
            }
            i = i + 1;
        }
        None
    }

    /// The position of the record with this id.
    pub fn find_id(&self, id: u128) -> (r: Option<usize>)
        ensures
            match r {
                Some(i) => i < self.rows().len() && self.rows()[i as int].id == id,
                None => !self.has_id(id),
            },
    {
        let mut i: usize = 0;
        while i < self.subscriptions.len()
            invariant
                i <= self.rows().len(),
                forall|j: int| 0 <= j < i ==> #[trigger] self.rows()[j].id != id,
            decreases self.rows().len() - i,
        {
            if self.subscriptions[i].id == id {
                return Some(i);
            }
            i = i + 1;
        }
        None
    }

    /// The position of the record of this token.
    pub fn find_token(&self, token: &String) -> (r: Option<usize>)
        ensures
            match r {
                Some(k) => k < self.token_rows().len() && self.token_rows()[k as int].token@
                    == token@,
                None => !self.has_token(token@),
            },
    {
        let mut k: usize = 0;
        while k < self.tokens.len()
            invariant
                k <= self.token_rows().len(),
                forall|j: int| 0 <= j < k ==> #[trigger] self.token_rows()[j].token@ != token@,
            decreases self.token_rows().len() - k,
        {
            if self.tokens[k].token == *token {
                return Some(k);
            }
            k = k + 1;
        }
        None
    }
    /// Adds a pending record for `subscriber`; refused when the id or the
    /// email is already stored.
    pub fn insert_pending(
        &mut self,
        id: u128,
        subscriber: &NewSubscriber,
        subscribed_at: i64,
    ) -> (r: Result<(), StorageError>)
        requires
            old(self).wf(),
        ensures
            final(self).wf(),
            r == (if old(self).has_id(id) {
                Err(StorageError::DuplicateId)
            } else if old(self).has_email(subscriber.email@) {
                Err(StorageError::DuplicateEmail)
            } else {
                Ok(())
            }),
            r is Err ==> *final(self) == *old(self),
            r is Ok ==> {
                &&& final(self).rows().len() == old(self).rows().len() + 1
                &&& final(self).rows().drop_last() == old(self).rows()
                &&& is_pending_row(
                    final(self).rows().last(),
                    id,
                    subscriber.email@,
                    subscriber.name@,
                    subscribed_at,
                )
                &&& final(self).token_rows() == old(self).token_rows()
            },
    {
        if self.find_id(id).is_some() {
            return Err(StorageError::DuplicateId);
        }
        let email = subscriber.email.as_str().to_owned();
        if self.find_email(&email).is_some() {
            return Err(StorageError::DuplicateEmail);
        }
        let row = Subscription {
            id,
            email,
            name: subscriber.name.as_str().to_owned(),
            subscribed_at,
            status: SubscriptionStatus::PendingConfirmation,
        };
        let ghost before = *self;
        self.subscriptions.push(row);
        proof {
            assert(self.rows().drop_last() =~= before.rows());
            assert forall|k: int| 0 <= k < self.token_rows().len() implies self.has_id(
                #[trigger] self.token_rows()[k].subscriber_id,
            ) by {
                assert(self.token_rows()[k] == before.token_rows()[k]);
                assert(before.has_id(before.token_rows()[k].subscriber_id));
                let i = choose|i: int|
                    0 <= i < before.rows().len() && #[trigger] before.rows()[i].id
                        == before.token_rows()[k].subscriber_id;
                assert(self.rows()[i] == before.rows()[i]);
            }
        }
        Ok(())
    }

    /// Records `token` for the subscriber `subscriber_id`; refused when the
    /// token is already stored or the subscriber is not.
    pub fn store_token(&mut self, token: String, subscriber_id: u128) -> (r: Result<
        (),
        StorageError,
    >)
        requires
            old(self).wf(),
        ensures
            final(self).wf(),
            r == (if old(self).has_token(token@) {
                Err(StorageError::DuplicateToken)
            } else if !old(self).has_id(subscriber_id) {
                Err(StorageError::UnknownSubscriber)
            } else {
                Ok(())
            }),
            r is Err ==> *final(self) == *old(self),
            r is Ok ==> {
                &&& final(self).token_rows() == old(self).token_rows().push(
                    ConfirmationToken { token, subscriber_id },
                )
                &&& final(self).rows() == old(self).rows()
            },
    {
        if self.find_token(&token).is_some() {
            return Err(StorageError::DuplicateToken);
        }
        if self.find_id(subscriber_id).is_none() {
            return Err(StorageError::UnknownSubscriber);
        }
        let ghost before = *self;
        self.tokens.push(ConfirmationToken { token, subscriber_id });
        proof {
            let n = before.token_rows().len() as int;
            assert(self.token_rows()[n].token@ == token@);
            assert forall|k: int| 0 <= k < self.token_rows().len() implies self.has_id(
                #[trigger] self.token_rows()[k].subscriber_id,
            ) by {
                if k < n {
                    assert(self.token_rows()[k] == before.token_rows()[k]);
                }
            }
        }
        Ok(())
    }

    /// The subscriber that `token` was issued to, if it was issued.
    pub fn resolve_subscriber_by_token(&self, token: &String) -> (r: Option<u128>)
        requires
            self.wf(),
        ensures
            r == self.token_owner(token@),
    {
        match self.find_token(token) {
            Some(k) => {
                proof {
                    self.lemma_token_owner(k as int);
                }
                Some(self.tokens[k].subscriber_id)
            },
            None => None,
        }
    }

    /// Marks the subscriber `id` confirmed; confirming a confirmed subscriber
    /// changes nothing.
    pub fn confirm(&mut self, id: u128) -> (r: Result<(), StorageError>)
        requires
            old(self).wf(),
        ensures
            final(self).wf(),
            r is Ok <==> old(self).has_id(id),
            r is Err ==> r == Err::<(), StorageError>(StorageError::UnknownSubscriber) && *final(self)
                == *old(self),
            r is Ok ==> confirmed_in(*old(self), *final(self), id),
    {
        match self.find_id(id) {
            None => Err(StorageError::UnknownSubscriber),
            Some(i) => {
                let ghost before = *self;
                self.subscriptions[i].status = SubscriptionStatus::Confirmed;
                proof {
                    assert forall|j: int| 0 <= j < before.rows().len() implies #[trigger] self.rows()[j]
                        == if before.rows()[j].id == id {
                        confirmed_row(before.rows()[j])
                    } else {
                        before.rows()[j]
                    } by {
                        if j != i {
                            assert(before.rows()[j].id != before.rows()[i as int].id);
                        }
                    }
                    assert forall|k: int| 0 <= k < self.token_rows().len() implies self.has_id(
                        #[trigger] self.token_rows()[k].subscriber_id,
                    ) by {
                        assert(self.token_rows()[k] == before.token_rows()[k]);
                        assert(before.has_id(before.token_rows()[k].subscriber_id));
                        let j = choose|j: int|
                            0 <= j < before.rows().len() && #[trigger] before.rows()[j].id
                                == before.token_rows()[k].subscriber_id;
                        assert(self.rows()[j].id == before.rows()[j].id);
                    }
                }
                Ok(())
            },
        }
    }

    /// The emails of all confirmed subscribers.
    pub fn list_confirmed(&self) -> (r: Vec<String>)
        ensures
            r@.len() == confirmed_emails(self.rows()).len(),
            forall|k: int| 0 <= k < r@.len() ==> #[trigger] r@[k]@ == confirmed_emails(self.rows())[k],
    {
        let mut r: Vec<String> = Vec::new();
        let mut i: usize = 0;
        while i < self.subscriptions.len()
            invariant
                i <= self.rows().len(),
                r@.len() == confirmed_emails(self.rows().subrange(0, i as int)).len(),
                forall|k: int|
                    0 <= k < r@.len() ==> #[trigger] r@[k]@ == confirmed_emails(
                        self.rows().subrange(0, i as int),
                    )[k],
            decreases self.rows().len() - i,
        {
            proof {
                assert(self.rows().subrange(0, i + 1).drop_last() =~= self.rows().subrange(
                    0,
                    i as int,
                ));
            }
            if self.subscriptions[i].status == SubscriptionStatus::Confirmed {
                r.push(self.subscriptions[i].email.clone());
            }
            i = i + 1;
        }
        proof {
            assert(self.rows().subrange(0, i as int) =~= self.rows());
        }
        r
    }
    /// Records a registration in one step: a pending record with `fresh_id`
    /// for an unknown email, and `token` for the subscriber. Either both
    /// writes happen or neither does.
    pub fn record_registration(
        &mut self,
        subscriber: &NewSubscriber,
        fresh_id: u128,
        subscribed_at: i64,
        token: String,
    ) -> (r: Result<u128, StorageError>)
        requires
            old(self).wf(),
        ensures
            final(self).wf(),
            match r {
                Ok(id) => registration_error(
                    *old(self),
                    subscriber.email@,
                    fresh_id,
                    token@,
                ) is None && registration_recorded(
                    *old(self),
                    *final(self),
                    subscriber.email@,
                    subscriber.name@,
                    fresh_id,
                    subscribed_at,
                    token@,
                    id,
                ),
                Err(e) => registration_error(*old(self), subscriber.email@, fresh_id, token@)
                    == Some(e) && *final(self) == *old(self),
            },
    {
        if self.find_token(&token).is_some() {
            return Err(StorageError::DuplicateToken);
        }
        let email = subscriber.email.as_str().to_owned();
        match self.find_email(&email) {
            Some(i) => {
                let id = self.subscriptions[i].id;
                proof {
                    self.lemma_id_of_email(i as int);
                }
                let ghost before = *self;
                match self.store_token(token, id) {
                    Ok(()) => {
                        proof {
                            assert(self.token_rows().drop_last() =~= before.token_rows());
                        }
                        Ok(id)
                    },
                    Err(e) => Err(e),
                }
            },
            None => {
                if self.find_id(fresh_id).is_some() {
                    return Err(StorageError::DuplicateId);
                }
                match self.insert_pending(fresh_id, subscriber, subscribed_at) {
                    Ok(()) => {},
                    Err(e) => {
                        return Err(e);
                    },
                }
                proof {
                    let last = self.rows().len() - 1;
                    assert(self.rows()[last].id == fresh_id);
                    assert(self.token_rows() =~= old(self).token_rows());
                }
                let ghost before = *self;
                match self.store_token(token, fresh_id) {
                    Ok(()) => {
                        proof {
                            assert(self.token_rows().drop_last() =~= before.token_rows());
                        }
                        Ok(fresh_id)
                    },
                    Err(e) => Err(e),
                }
            },
        }
    }
}

} // verus!
