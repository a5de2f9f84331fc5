//! An in-memory model of the subscription ledger: subscriber rows and the
//! confirmation tokens that point at them, changed only through all-or-nothing
//! operations. What is proved here holds of this model; a ledger kept in a
//! database is not checked against it.
use vstd::prelude::*;
use vstd::string::*;
use crate::domain::NewSubscriber;

verus! {

/// Lifecycle of a subscriber: pending until a token is redeemed, then confirmed.
#[derive(Debug, Clone, Copy, PartialEq, Eq, Structural)]
pub enum SubscriptionStatus {
    PendingConfirmation,
    Confirmed,
}

impl SubscriptionStatus {
    /// The status as it is written in the ledger's schema.
    pub fn as_str(&self) -> (r: &'static str)
        ensures
            *self == SubscriptionStatus::PendingConfirmation ==> r@ == "pending_confirmation"@,
            *self == SubscriptionStatus::Confirmed ==> r@ == "confirmed"@,
    {
        match self {
            SubscriptionStatus::PendingConfirmation => "pending_confirmation",
            SubscriptionStatus::Confirmed => "confirmed",
        }
    }
}

/// Why a ledger operation did not take place.
#[derive(Debug, Clone, Copy, PartialEq, Eq, Structural)]
pub enum StoreError {
    /// The ledger could not be reached.
    Unavailable,
    /// A uniqueness rule would be broken (a token issued twice).
    Conflict,
    /// No subscriber owns the given token.
    NotFound,
}

/// A subscriber row as the contracts see it.
pub struct SubscriberRow {
    pub email: Seq<char>,
    pub name: Seq<char>,
    pub subscribed_at: i64,
    pub status: SubscriptionStatus,
}

/// A token row as the contracts see it: the token and its subscriber's id.
pub struct TokenRow {
    pub token: Seq<char>,
    pub subscriber: nat,
}

pub struct SubscriberRecord {
    pub email: String,
    pub name: String,
    pub subscribed_at: i64,
    pub status: SubscriptionStatus,
}

impl SubscriberRecord {
    pub open spec fn row(&self) -> SubscriberRow {
        SubscriberRow {
            email: self.email@,
            name: self.name@,
            subscribed_at: self.subscribed_at,
            status: self.status,
        }
    }
}

struct TokenRecord {
    token: String,
    subscriber_id: usize,
}

/// Whether two texts hold the same characters.
fn same_text(a: &str, b: &str) -> (r: bool)
    ensures
        r == (a@ == b@),
{
    let n = a.unicode_len();
    if n != b.unicode_len() {
        return false;
    }
    let mut i: usize = 0;
    while i < n
        invariant
            n == a@.len() == b@.len(),
            i <= n,
            forall|k: int| 0 <= k < i ==> a@[k] == b@[k],
        decreases n - i,
    {
        if a.get_char(i) != b.get_char(i) {
            return false;
        }
        i = i + 1;
    }
    assert(a@ =~= b@);
    true
}

/// Subscribers, identified by their position, and their confirmation tokens.
pub struct SubscriptionStore {
    subscribers: Vec<SubscriberRecord>,
    tokens: Vec<TokenRecord>,
}

impl SubscriptionStore {
    pub closed spec fn rows(&self) -> Seq<SubscriberRow> {
        self.subscribers@.map_values(|s: SubscriberRecord| s.row())
    }

    pub closed spec fn token_rows(&self) -> Seq<TokenRow> {
        self.tokens@.map_values(
            |t: TokenRecord| TokenRow { token: t.token@, subscriber: t.subscriber_id as nat },
        )
    }

    /// Every token points at an existing subscriber, and no token is issued twice.
    pub open spec fn wf(&self) -> bool {
        &&& forall|i: int|
            0 <= i < self.token_rows().len() ==> #[trigger] self.token_rows()[i].subscriber
                < self.rows().len()
        &&& forall|i: int, j: int|
            0 <= i < self.token_rows().len() && 0 <= j < self.token_rows().len() && i != j
                ==> #[trigger] self.token_rows()[i].token != #[trigger] self.token_rows()[j].token
    }

    pub open spec fn has_token(&self, t: Seq<char>) -> bool {
        exists|i: int| 0 <= i < self.token_rows().len() && #[trigger] self.token_rows()[i].token == t
    }

    /// The subscriber that token `t` belongs to (meaningful where `has_token(t)`).
    pub open spec fn owner_of(&self, t: Seq<char>) -> nat {
        let i = choose|i: int|
            0 <= i < self.token_rows().len() && #[trigger] self.token_rows()[i].token == t;
        self.token_rows()[i].subscriber
    }

    /// The number of token rows that point at subscriber `id`.
    pub open spec fn tokens_of(&self, id: nat) -> int {
        self.token_rows().filter(|r: TokenRow| r.subscriber == id).len() as int
    }

    pub fn new() -> (r: SubscriptionStore)
        ensures
            r.wf(),
            r.rows().len() == 0,
            r.token_rows().len() == 0,
    {
        SubscriptionStore { subscribers: Vec::new(), tokens: Vec::new() }
    }

    /// The position of token `t` in the token table, if it was issued.
    fn find_token(&self, t: &str) -> (r: Option<usize>)
        ensures
            match r {
                Some(i) => i < self.token_rows().len() && self.token_rows()[i as int].token == t@,
                None => !self.has_token(t@),
            },
    {
        let mut i: usize = 0;
        while i < self.tokens.len()
            invariant
                i <= self.tokens@.len(),
                forall|k: int| 0 <= k < i ==> #[trigger] self.token_rows()[k].token != t@,
            decreases self.tokens@.len() - i,
        {
            if same_text(self.tokens[i].token.as_str(), t) {
                return Some(i);
            }
            i = i + 1;
        }
        None
    }

    /// Records a pending subscriber and its confirmation token together. Fails
    /// with `Conflict`, changing nothing, when the token was issued before.
    pub fn create_pending(&mut self, subscriber: &NewSubscriber, token: String, subscribed_at: i64) -> (r:
        Result<usize, StoreError>)
        requires
            old(self).wf(),
        ensures
            final(self).wf(),
            r is Ok <==> !old(self).has_token(token@),
            r is Err ==> r == Err::<usize, StoreError>(StoreError::Conflict) && *final(self)
                == *old(self),
            r matches Ok(id) ==> {
                &&& id == old(self).rows().len()
                &&& final(self).rows() == old(self).rows().push(
                    SubscriberRow {
                        email: subscriber.email@,
                        name: subscriber.name@,
                        subscribed_at,
                        status: SubscriptionStatus::PendingConfirmation,
                    },
                )
                &&& final(self).token_rows() == old(self).token_rows().push(
                    TokenRow { token: token@, subscriber: id as nat },
                )
            },
    {
        if self.find_token(token.as_str()).is_some() {
            return Err(StoreError::Conflict);
        }
        let id = self.subscribers.len();
        let ghost rows0 = self.rows();
        let ghost toks0 = self.token_rows();
        let record = SubscriberRecord {
            email: subscriber.email.as_str().to_owned(),
            name: subscriber.name.as_str().to_owned(),
            subscribed_at,
            status: SubscriptionStatus::PendingConfirmation,
        };
        self.subscribers.push(record);
        self.tokens.push(TokenRecord { token, subscriber_id: id });
        assert(self.rows() =~= rows0.push(self.subscribers@[id as int].row()));
        assert(self.token_rows() =~= toks0.push(
            TokenRow { token: self.tokens@[toks0.len() as int].token@, subscriber: id as nat },
        ));
        Ok(id)
    }

    /// Marks the owner of token `t` confirmed. Succeeds again on a token already
    /// redeemed; fails with `NotFound`, changing nothing, on a token never issued.
    pub fn confirm(&mut self, t: &str) -> (r: Result<(), StoreError>)
        requires
            old(self).wf(),
        ensures
            final(self).wf(),
            r is Ok <==> old(self).has_token(t@),
            r is Err ==> r == Err::<(), StoreError>(StoreError::NotFound) && *final(self)
                == *old(self),
            r is Ok ==> {
                let id = old(self).owner_of(t@) as int;
                &&& final(self).token_rows() == old(self).token_rows()
                &&& final(self).rows() == old(self).rows().update(
                    id,
                    SubscriberRow { status: SubscriptionStatus::Confirmed, ..old(self).rows()[id] },
                )
            },
    {
        match self.find_token(t) {
            None => Err(StoreError::NotFound),
            Some(i) => {
                let id = self.tokens[i].subscriber_id;
                proof {
                    let j = choose|j: int|
                        0 <= j < self.token_rows().len() && #[trigger] self.token_rows()[j].token
                            == t@;
                    assert(j == i as int);
                }
                let ghost rows0 = self.rows();
                self.subscribers[id].status = SubscriptionStatus::Confirmed;
                assert(self.rows() =~= rows0.update(
                    id as int,
                    SubscriberRow { status: SubscriptionStatus::Confirmed, ..rows0[id as int] },
                ));
                Ok(())
            },
        }
    }

    /// The number of subscriber rows.
    pub fn len(&self) -> (r: usize)
        ensures
            r == self.rows().len(),
    {
        self.subscribers.len()
    }

    /// The number of token rows.
    pub fn token_count(&self) -> (r: usize)
        ensures
            r == self.token_rows().len(),
    {
        self.tokens.len()
    }

    /// The subscriber with id `id`.
    pub fn get(&self, id: usize) -> (r: &SubscriberRecord)
        requires
            id < self.rows().len(),
        ensures
            r.row() == self.rows()[id as int],
    {
        &self.subscribers[id]
    }

    /// The id of the first subscriber whose email is `email`, if any.
    pub fn find_by_email(&self, email: &str) -> (r: Option<usize>)
        ensures
            match r {
                Some(id) => id < self.rows().len() && self.rows()[id as int].email == email@
                    && forall|k: int| 0 <= k < id ==> #[trigger] self.rows()[k].email != email@,
                None => forall|k: int|
                    0 <= k < self.rows().len() ==> #[trigger] self.rows()[k].email != email@,
            },
    {
        let mut i: usize = 0;
        while i < self.subscribers.len()
            invariant
                i <= self.rows().len(),
                forall|k: int| 0 <= k < i ==> #[trigger] self.rows()[k].email != email@,
            decreases self.rows().len() - i,
        {
            if same_text(self.subscribers[i].email.as_str(), email) {
                return Some(i);
            }
            i = i + 1;
        }
        None
    }

    /// The token issued for subscriber `id`, if any.
    pub fn token_for(&self, id: usize) -> (r: Option<&str>)
        ensures
            match r {
                Some(t) => exists|k: int|
                    0 <= k < self.token_rows().len() && #[trigger] self.token_rows()[k]
                        == (TokenRow { token: t@, subscriber: id as nat }),
                None => forall|k: int|
                    0 <= k < self.token_rows().len() ==> #[trigger] self.token_rows()[k].subscriber
                        != id,
            },
    {
        let mut i: usize = 0;
        while i < self.tokens.len()
            invariant
                i <= self.token_rows().len(),
                forall|k: int| 0 <= k < i ==> #[trigger] self.token_rows()[k].subscriber != id,
            decreases self.token_rows().len() - i,
        {
            if self.tokens[i].subscriber_id == id {
                let t = self.tokens[i].token.as_str();
                assert(self.token_rows()[i as int] == (TokenRow { token: t@, subscriber: id as nat }));
                return Some(t);
            }
            i = i + 1;
        }
        None
    }
}

} // verus!
