//! The registration and confirmation workflows: which step comes next, what
//! each outcome answers, and the message that carries the confirmation link.
use vstd::prelude::*;
use vstd::string::*;
use crate::domain::{form_verdict, is_blank, is_valid_email, lacks_char, name_verdict, FormData, NewSubscriber};
use crate::token::{is_token_text, issue_token};
use crate::store::{StoreError, SubscriberRow, SubscriptionStatus, SubscriptionStore, TokenRow};

verus! {

/// Why a registration did not complete.
#[derive(Debug, Clone, Copy, PartialEq, Eq, Structural)]
pub enum WorkflowError {
    /// The submitted name or email was refused.
    InvalidInput,
    /// The subscriber and token could not be recorded.
    PersistenceFailed,
    /// The confirmation email was not accepted by the provider.
    NotificationFailed,
}

/// The steps of a registration, in the order they are performed.
#[derive(Debug, Clone, Copy, PartialEq, Eq, Structural)]
pub enum Step {
    ValidateForm,
    BeginTransaction,
    InsertSubscriber,
    StoreToken,
    CommitTransaction,
    SendConfirmation,
}

/// What the runner of a registration does next: perform a step, or answer
/// the request with a status code.
#[derive(Debug, Clone, Copy, PartialEq, Eq, Structural)]
pub enum Action {
    Perform(Step),
    Respond(u16),
}

pub open spec fn spec_next_action(step: Step, succeeded: bool) -> Action {
    if !succeeded {
        if step == Step::ValidateForm {
            Action::Respond(400)
        } else {
            Action::Respond(500)
        }
    } else {
        match step {
            Step::ValidateForm => Action::Perform(Step::BeginTransaction),
            Step::BeginTransaction => Action::Perform(Step::InsertSubscriber),
            Step::InsertSubscriber => Action::Perform(Step::StoreToken),
            Step::StoreToken => Action::Perform(Step::CommitTransaction),
            Step::CommitTransaction => Action::Perform(Step::SendConfirmation),
            Step::SendConfirmation => Action::Respond(200),
        }
    }
}

/// Each step is gated on the one before it: a refused form answers `400`, any
/// other failure `500`, and the last step's success `200`.
pub fn next_action(step: Step, succeeded: bool) -> (r: Action)
    ensures
        r == spec_next_action(step, succeeded),
{
    if !succeeded {
        return match step {
            Step::ValidateForm => Action::Respond(400),
            _ => Action::Respond(500),
        };
    }
    match step {
        Step::ValidateForm => Action::Perform(Step::BeginTransaction),
        Step::BeginTransaction => Action::Perform(Step::InsertSubscriber),
        Step::InsertSubscriber => Action::Perform(Step::StoreToken),
        Step::StoreToken => Action::Perform(Step::CommitTransaction),
        Step::CommitTransaction => Action::Perform(Step::SendConfirmation),
        Step::SendConfirmation => Action::Respond(200),
    }
}

/// The steps performed from `step` on, where `outcomes[i]` is whether the
/// i-th of them succeeded; a missing outcome leaves the last step running.
pub open spec fn steps_performed(step: Step, outcomes: Seq<bool>) -> Seq<Step>
    decreases outcomes.len(),
{
    if outcomes.len() == 0 {
        seq![step]
    } else {
        match spec_next_action(step, outcomes[0]) {
            Action::Perform(s) => seq![step] + steps_performed(s, outcomes.drop_first()),
            Action::Respond(_) => seq![step],
        }
    }
}

/// The answer given from `step` on, once the outcomes decide it.
pub open spec fn response_of(step: Step, outcomes: Seq<bool>) -> Option<u16>
    decreases outcomes.len(),
{
    if outcomes.len() == 0 {
        None
    } else {
        match spec_next_action(step, outcomes[0]) {
            Action::Perform(s) => response_of(s, outcomes.drop_first()),
            Action::Respond(code) => Some(code),
        }
    }
}

pub open spec fn all_succeed(outcomes: Seq<bool>, n: int) -> bool {
    outcomes.len() >= n && forall|i: int| 0 <= i < n ==> #[trigger] outcomes[i]
}

/// The confirmation email is sent only after the form was accepted and every
/// persistence step succeeded; should any of them fail, it is never sent.
pub proof fn lemma_no_notification_without_persistence(outcomes: Seq<bool>)
    ensures
        steps_performed(Step::ValidateForm, outcomes).contains(Step::SendConfirmation)
            <==> all_succeed(outcomes, 5),
{
    reveal_with_fuel(steps_performed, 7);
    let t = steps_performed(Step::ValidateForm, outcomes);
    if all_succeed(outcomes, 5) {
        assert(t[5] == Step::SendConfirmation);
    } else {
        assert(forall|k: int| 0 <= k < t.len() ==> t[k] != Step::SendConfirmation);
    }
}

/// A refused form answers `400` before any write is attempted; a registration
/// whose every step succeeds answers `200`.
pub proof fn lemma_registration_responses(outcomes: Seq<bool>)
    ensures
        outcomes.len() > 0 && !outcomes[0] ==> response_of(Step::ValidateForm, outcomes) == Some(
            400u16,
        ) && steps_performed(Step::ValidateForm, outcomes) == seq![Step::ValidateForm],
        all_succeed(outcomes, 6) ==> response_of(Step::ValidateForm, outcomes) == Some(200u16),
        forall|k: int|
            1 <= k < 6 && all_succeed(outcomes, k) && outcomes.len() > k && !#[trigger] outcomes[k]
                ==> response_of(Step::ValidateForm, outcomes) == Some(500u16),
{
    reveal_with_fuel(steps_performed, 7);
    reveal_with_fuel(response_of, 7);
}

/// The status code that answers a registration's result.
pub fn subscription_response(r: Result<(), WorkflowError>) -> (code: u16)
    ensures
        code == match r {
            Ok(()) => 200u16,
            Err(WorkflowError::InvalidInput) => 400u16,
            Err(_) => 500u16,
        },
{
    match r {
        Ok(()) => 200,
        Err(WorkflowError::InvalidInput) => 400,
        Err(_) => 500,
    }
}

/// The status code that answers a confirmation request: `None` when the
/// request carried no token, else the result of redeeming it. A missing or
/// unknown token is the visitor's fault, an unreachable ledger is not.
pub fn confirmation_response(r: Option<Result<(), StoreError>>) -> (code: u16)
    ensures
        code == match r {
            None => 400u16,
            Some(Ok(())) => 200u16,
            Some(Err(StoreError::NotFound)) => 400u16,
            Some(Err(_)) => 500u16,
        },
{
    match r {
        None => 400,
        Some(Ok(())) => 200,
        Some(Err(StoreError::NotFound)) => 400,
        Some(Err(_)) => 500,
    }
}

/// Validates a submitted form and records the subscriber, pending, with its
/// confirmation token. Nothing is written unless both fields are valid.
pub fn register(store: &mut SubscriptionStore, form: FormData, token: String, subscribed_at: i64) -> (r:
    Result<(NewSubscriber, usize), WorkflowError>)
    requires
        old(store).wf(),
    ensures
        final(store).wf(),
        form_verdict(form.name_view(), form.email_view()) is Err ==> r == Err::<
            (NewSubscriber, usize),
            WorkflowError,
        >(WorkflowError::InvalidInput) && *final(store) == *old(store),
        form_verdict(form.name_view(), form.email_view()) is Ok && old(store).has_token(token@)
            ==> r == Err::<(NewSubscriber, usize), WorkflowError>(WorkflowError::PersistenceFailed)
            && *final(store) == *old(store),
        r is Ok <==> form_verdict(form.name_view(), form.email_view()) is Ok && !old(
            store,
        ).has_token(token@),
        r matches Ok((s, id)) ==> {
            &&& s.name@ == form.name_view() && s.email@ == form.email_view()
            &&& id == old(store).rows().len()
            &&& final(store).rows() == old(store).rows().push(
                SubscriberRow {
                    email: form.email_view(),
                    name: form.name_view(),
                    subscribed_at,
                    status: SubscriptionStatus::PendingConfirmation,
                },
            )
            &&& final(store).token_rows() == old(store).token_rows().push(
                TokenRow { token: token@, subscriber: id as nat },
            )
        },
{
    let subscriber = match NewSubscriber::try_from(form) {
        Ok(s) => s,
        Err(_) => return Err(WorkflowError::InvalidInput),
    };
    match store.create_pending(&subscriber, token, subscribed_at) {
        Ok(id) => Ok((subscriber, id)),
        Err(_) => Err(WorkflowError::PersistenceFailed),
    }
}

/// Redeems the token of a confirmation link: a missing or unknown token
/// answers `400` and changes nothing; a known one marks its subscriber
/// confirmed and answers `200`, also when it was confirmed before.
pub fn confirm_subscription(store: &mut SubscriptionStore, token: Option<&str>) -> (code: u16)
    requires
        old(store).wf(),
    ensures
        final(store).wf(),
        match token {
            None => code == 400 && *final(store) == *old(store),
            Some(t) => if old(store).has_token(t@) {
                code == 200 && redeemed(*old(store), *final(store), t@)
            } else {
                code == 400 && *final(store) == *old(store)
            },
        },
{
    match token {
        None => confirmation_response(None),
        Some(t) => confirmation_response(Some(store.confirm(t))),
    }
}

/// Where the confirmation endpoint is reached.
pub const CONFIRMATION_ENDPOINT: &'static str = "http://localhost:8000/subscriptions/confirm?subscription_token=";

/// The link that redeems `token`: the token as a query parameter of the
/// confirmation endpoint.
pub fn confirmation_link(token: &str) -> (r: String)
    ensures
        r@ == CONFIRMATION_ENDPOINT@ + token@,
{
    let mut link = String::from_str(CONFIRMATION_ENDPOINT);
    link.append(token);
    link
}

pub const WELCOME_OPENING: &'static str = "Welcome to our newsletter!<br/>Click <a href=\"";

pub const WELCOME_CLOSING: &'static str = "\">here</a> to confirm your subscription";

/// The HTML body of the confirmation email, with `link` as its one anchor.
pub fn confirmation_email_body(link: &str) -> (r: String)
    ensures
        r@ == WELCOME_OPENING@ + link@ + WELCOME_CLOSING@,
{
    let mut body = String::from_str(WELCOME_OPENING);
    body.append(link);
    body.append(WELCOME_CLOSING);
    body
}

/// A registration on a fresh token leaves exactly one new row, pending, and
/// exactly one token row that points at it.
pub proof fn lemma_registration_creates_one_pending_row(
    before: SubscriptionStore,
    after: SubscriptionStore,
    token: Seq<char>,
    row: SubscriberRow,
)
    requires
        before.wf(),
        row.status == SubscriptionStatus::PendingConfirmation,
        after.rows() == before.rows().push(row),
        after.token_rows() == before.token_rows().push(
            TokenRow { token, subscriber: before.rows().len() },
        ),
    ensures
        after.rows().len() == before.rows().len() + 1,
        after.rows()[before.rows().len() as int].status == SubscriptionStatus::PendingConfirmation,
        after.tokens_of(before.rows().len()) == 1,
{
    let id = before.rows().len();
    let pred = |r: TokenRow| r.subscriber == id;
    let old_toks = before.token_rows();
    let tail = seq![TokenRow { token, subscriber: id }];
    assert(after.token_rows() =~= old_toks + tail);
    Seq::filter_distributes_over_add(old_toks, tail, pred);
    assert forall|i: int| 0 <= i < old_toks.len() implies !pred(old_toks[i]) by {
        assert(old_toks[i].subscriber < before.rows().len());
    }
    old_toks.lemma_all_neg_filter_empty(pred);
    reveal_with_fuel(Seq::filter, 2);
    assert(tail.drop_last() =~= Seq::<TokenRow>::empty());
    assert(tail.filter(pred).len() == 1);
}

/// The ledger after a successful redemption of `t` in `before`, as
/// `SubscriptionStore::confirm` and `confirm_subscription` describe it.
pub open spec fn redeemed(before: SubscriptionStore, after: SubscriptionStore, t: Seq<char>) -> bool {
    let id = before.owner_of(t) as int;
    &&& after.token_rows() == before.token_rows()
    &&& after.rows() == before.rows().update(
        id,
        SubscriberRow { status: SubscriptionStatus::Confirmed, ..before.rows()[id] },
    )
}

/// Redeeming a token a second time changes nothing further: the owner stays
/// confirmed and every row is as the first redemption left it.
pub proof fn lemma_confirmation_is_idempotent(
    first: SubscriptionStore,
    second: SubscriptionStore,
    third: SubscriptionStore,
    t: Seq<char>,
)
    requires
        first.wf(),
        first.has_token(t),
        redeemed(first, second, t),
        redeemed(second, third, t),
    ensures
        second.has_token(t),
        second.rows()[first.owner_of(t) as int].status == SubscriptionStatus::Confirmed,
        third.rows() == second.rows(),
        third.token_rows() == first.token_rows(),
{
    let id = first.owner_of(t) as int;
    let j = choose|j: int|
        0 <= j < first.token_rows().len() && #[trigger] first.token_rows()[j].token == t;
    assert(first.token_rows()[j].subscriber < first.rows().len());
    assert(second.token_rows()[j].token == t);
    assert(second.owner_of(t) == first.owner_of(t));
    assert(third.rows() =~= second.rows());
}

/// A redemption only ever moves a subscriber to confirmed: no row is added or
/// removed, and no confirmed subscriber goes back to pending.
pub proof fn lemma_confirmed_stays_confirmed(
    before: SubscriptionStore,
    after: SubscriptionStore,
    t: Seq<char>,
)
    requires
        before.wf(),
        before.has_token(t),
        redeemed(before, after, t),
    ensures
        after.rows().len() == before.rows().len(),
        forall|i: int|
            0 <= i < before.rows().len() && #[trigger] before.rows()[i].status
                == SubscriptionStatus::Confirmed ==> after.rows()[i].status
                == SubscriptionStatus::Confirmed,
{
    let j = choose|j: int|
        0 <= j < before.token_rows().len() && #[trigger] before.token_rows()[j].token == t;
    assert(before.token_rows()[j].subscriber < before.rows().len());
}

/// A form whose email holds no `@`, or whose name is blank, is refused.
pub proof fn lemma_missing_at_or_blank_name_is_refused(name: Seq<char>, email: Seq<char>)
    requires
        !email.contains('@') || is_blank(name),
    ensures
        form_verdict(name, email) is Err,
{
    if !email.contains('@') && !is_blank(name) && name_verdict(name) is Ok {
        assert(!is_valid_email(email)) by {
            if is_valid_email(email) {
                let k = choose|k: int|
                    0 < k < email.len() && #[trigger] email[k] == '@' && lacks_char(
                        email,
                        '@',
                        0,
                        k,
                    ) && lacks_char(email, '@', k + 1, email.len() as int) && !lacks_char(
                        email,
                        '.',
                        k + 1,
                        email.len() as int,
                    );
                assert(email.contains('@'));
            }
        }
    }
}

/// Registers a submitted form under a freshly issued token, which it returns
/// for the confirmation link. Should the token clash with one issued before,
/// persistence fails and nothing is written.
pub fn register_new(store: &mut SubscriptionStore, form: FormData, subscribed_at: i64) -> (r: Result<
    (NewSubscriber, usize, String),
    WorkflowError,
>)
    requires
        old(store).wf(),
    ensures
        final(store).wf(),
        form_verdict(form.name_view(), form.email_view()) is Err ==> r == Err::<
            (NewSubscriber, usize, String),
            WorkflowError,
        >(WorkflowError::InvalidInput),
        r is Err ==> *final(store) == *old(store),
        r matches Err(e) ==> e == WorkflowError::InvalidInput || e
            == WorkflowError::PersistenceFailed,
        r == Err::<(NewSubscriber, usize, String), WorkflowError>(WorkflowError::InvalidInput)
            ==> form_verdict(form.name_view(), form.email_view()) is Err,
        form_verdict(form.name_view(), form.email_view()) is Ok && old(store).token_rows().len()
            == 0 ==> r is Ok,
        r is Ok ==> form_verdict(form.name_view(), form.email_view()) is Ok,
        r matches Ok((s, id, t)) ==> {
            &&& s.name@ == form.name_view() && s.email@ == form.email_view()
            &&& is_token_text(t@)
            &&& !old(store).has_token(t@)
            &&& id == old(store).rows().len()
            &&& final(store).rows() == old(store).rows().push(
                SubscriberRow {
                    email: form.email_view(),
                    name: form.name_view(),
                    subscribed_at,
                    status: SubscriptionStatus::PendingConfirmation,
                },
            )
            &&& final(store).token_rows() == old(store).token_rows().push(
                TokenRow { token: t@, subscriber: id as nat },
            )
        },
{
    let token = issue_token();
    let issued = token.clone();
    match register(store, form, token, subscribed_at) {
        Ok((s, id)) => Ok((s, id, issued)),
        Err(e) => Err(e),
    }
}

} // verus!
