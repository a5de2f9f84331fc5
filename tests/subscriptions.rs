use zero2prod::domain::{FormData, NewSubscriber};
use zero2prod::token::issue_token;
use zero2prod::store::{StoreError, SubscriptionStatus, SubscriptionStore};
use zero2prod::subscriptions::{
    confirm_subscription, confirmation_email_body, confirmation_link, confirmation_response,
    next_action, register, register_new, subscription_response, Action, Step, WorkflowError,
};

const TOKEN: &str = "6f1c2a8e-4d1b-4c9a-9e2f-0b7d5a3c1e44";

fn form(name: &str, email: &str) -> FormData {
    FormData::new(email.to_string(), name.to_string())
}

/// Runs a registration with the given step outcomes and returns the steps
/// performed and the response.
fn drive(outcomes: &[bool]) -> (Vec<Step>, Option<u16>) {
    let mut step = Step::ValidateForm;
    let mut performed = vec![step];
    for &ok in outcomes {
        match next_action(step, ok) {
            Action::Perform(s) => {
                step = s;
                performed.push(s);
            }
            Action::Respond(code) => return (performed, Some(code)),
        }
    }
    (performed, None)
}

#[test]
fn subscribe_returns_a_200_for_valid_form_data() {
    let mut store = SubscriptionStore::new();
    let r = register(&mut store, form("le guin", "khar@gmail.com"), TOKEN.to_string(), 1_700_000_000);
    assert_eq!(200, subscription_response(r.map(|_| ())));

    let id = store.find_by_email("khar@gmail.com").expect("Failed to fetched");
    let saved = store.get(id);
    assert_eq!(saved.email, "khar@gmail.com");
    assert_eq!(saved.name, "le guin");
    assert_eq!(saved.status.as_str(), "pending_confirmation");
}

#[test]
fn subscribe_returns_a_400_when_data_is_missing() {
    let test_cases = vec![
        (form("le guin", ""), "missing the email"),
        (form("", "ursula_le_guin@gmail.com"), "missing the name"),
        (form("", ""), "missing both name and email"),
    ];
    for (invalid_body, error_message) in test_cases {
        let mut store = SubscriptionStore::new();
        let r = register(&mut store, invalid_body, TOKEN.to_string(), 0);
        assert_eq!(
            400,
            subscription_response(r.map(|_| ())),
            "The API did not fail with 400 when payload was {}",
            error_message
        );
        assert_eq!(store.len(), 0);
        assert_eq!(store.token_count(), 0);
    }
}

#[test]
fn an_empty_submission_is_answered_with_400() {
    let mut store = SubscriptionStore::new();
    let r = register(&mut store, form("", ""), TOKEN.to_string(), 0);
    assert_eq!(r.unwrap_err(), WorkflowError::InvalidInput);
    assert_eq!(400, subscription_response(Err(WorkflowError::InvalidInput)));
    assert_eq!(store.len(), 0);
}

#[test]
fn a_valid_registration_writes_one_row_and_one_token() {
    let mut store = SubscriptionStore::new();
    let (s, id) = register(&mut store, form("le guin", "khar@gmail.com"), TOKEN.to_string(), 42).unwrap();
    assert_eq!(s.email.as_str(), "khar@gmail.com");
    assert_eq!(id, 0);
    assert_eq!(store.len(), 1);
    assert_eq!(store.token_count(), 1);
    assert_eq!(store.token_for(id), Some(TOKEN));
    assert_eq!(store.get(id).subscribed_at, 42);
    assert_eq!(store.get(id).status, SubscriptionStatus::PendingConfirmation);
}

#[test]
fn a_reused_token_fails_persistence_and_writes_nothing() {
    let mut store = SubscriptionStore::new();
    register(&mut store, form("le guin", "khar@gmail.com"), TOKEN.to_string(), 0).unwrap();
    let r = register(&mut store, form("ursula", "ursula@gmail.com"), TOKEN.to_string(), 0);
    assert_eq!(r.unwrap_err(), WorkflowError::PersistenceFailed);
    assert_eq!(500, subscription_response(Err(WorkflowError::PersistenceFailed)));
    assert_eq!(store.len(), 1);
    assert_eq!(store.token_count(), 1);
    assert_eq!(store.find_by_email("ursula@gmail.com"), None);
}

#[test]
fn create_pending_reports_a_conflict_on_a_reused_token() {
    let mut store = SubscriptionStore::new();
    let s = NewSubscriber::try_from(form("le guin", "khar@gmail.com")).unwrap();
    assert_eq!(store.create_pending(&s, TOKEN.to_string(), 0), Ok(0));
    assert_eq!(store.create_pending(&s, TOKEN.to_string(), 0), Err(StoreError::Conflict));
    assert_eq!(store.create_pending(&s, "other".to_string(), 0), Ok(1));
    assert_eq!(store.token_for(1), Some("other"));
}

#[test]
fn registering_then_confirming_marks_the_subscriber_confirmed() {
    let mut store = SubscriptionStore::new();
    let r = register(&mut store, form("le guin", "khar@gmail.com"), TOKEN.to_string(), 0);
    assert_eq!(200, subscription_response(r.map(|_| ())));
    let id = store.find_by_email("khar@gmail.com").unwrap();
    let token = store.token_for(id).unwrap().to_string();
    assert_eq!(confirm_subscription(&mut store, Some(&token)), 200);
    assert_eq!(store.get(id).status.as_str(), "confirmed");
}

#[test]
fn confirming_twice_still_answers_200() {
    let mut store = SubscriptionStore::new();
    register(&mut store, form("le guin", "khar@gmail.com"), TOKEN.to_string(), 0).unwrap();
    assert_eq!(confirm_subscription(&mut store, Some(TOKEN)), 200);
    assert_eq!(confirm_subscription(&mut store, Some(TOKEN)), 200);
    assert_eq!(store.get(0).status, SubscriptionStatus::Confirmed);
}

#[test]
fn confirming_only_touches_the_owner_of_the_token() {
    let mut store = SubscriptionStore::new();
    register(&mut store, form("le guin", "khar@gmail.com"), "first".to_string(), 0).unwrap();
    register(&mut store, form("ursula", "ursula@gmail.com"), "second".to_string(), 0).unwrap();
    assert_eq!(store.confirm("second"), Ok(()));
    assert_eq!(store.get(0).status, SubscriptionStatus::PendingConfirmation);
    assert_eq!(store.get(1).status, SubscriptionStatus::Confirmed);
}

#[test]
fn unknown_or_missing_tokens_are_answered_with_400() {
    let mut store = SubscriptionStore::new();
    register(&mut store, form("le guin", "khar@gmail.com"), TOKEN.to_string(), 0).unwrap();
    assert_eq!(confirm_subscription(&mut store, Some("not-a-token")), 400);
    assert_eq!(confirm_subscription(&mut store, Some("")), 400);
    assert_eq!(confirm_subscription(&mut store, None), 400);
    assert_eq!(store.confirm("nope"), Err(StoreError::NotFound));
    assert_eq!(store.get(0).status, SubscriptionStatus::PendingConfirmation);
}

#[test]
fn confirmation_results_map_to_status_codes() {
    assert_eq!(confirmation_response(None), 400);
    assert_eq!(confirmation_response(Some(Ok(()))), 200);
    assert_eq!(confirmation_response(Some(Err(StoreError::NotFound))), 400);
    assert_eq!(confirmation_response(Some(Err(StoreError::Unavailable))), 500);
    assert_eq!(confirmation_response(Some(Err(StoreError::Conflict))), 500);
    assert_eq!(subscription_response(Err(WorkflowError::NotificationFailed)), 500);
}

#[test]
fn a_fully_successful_registration_sends_then_answers_200() {
    let (steps, code) = drive(&[true; 6]);
    assert_eq!(
        steps,
        vec![
            Step::ValidateForm,
            Step::BeginTransaction,
            Step::InsertSubscriber,
            Step::StoreToken,
            Step::CommitTransaction,
            Step::SendConfirmation
        ]
    );
    assert_eq!(code, Some(200));
}

#[test]
fn a_refused_form_answers_400_before_any_write() {
    let (steps, code) = drive(&[false]);
    assert_eq!(steps, vec![Step::ValidateForm]);
    assert_eq!(code, Some(400));
}

#[test]
fn a_persistence_failure_never_sends_the_email() {
    for failing in 1..5 {
        let mut outcomes = vec![true; 6];
        outcomes[failing] = false;
        let (steps, code) = drive(&outcomes);
        assert!(!steps.contains(&Step::SendConfirmation));
        assert_eq!(steps.len(), failing + 1);
        assert_eq!(code, Some(500));
    }
}

#[test]
fn a_rejected_email_answers_500() {
    let (steps, code) = drive(&[true, true, true, true, true, false]);
    assert_eq!(steps.last(), Some(&Step::SendConfirmation));
    assert_eq!(code, Some(500));
}

#[test]
fn the_confirmation_link_embeds_the_token() {
    assert_eq!(
        confirmation_link("abc"),
        "http://localhost:8000/subscriptions/confirm?subscription_token=abc"
    );
}

#[test]
fn the_email_body_links_to_the_confirmation() {
    assert_eq!(
        confirmation_email_body("http://x/y"),
        "Welcome to our newsletter!<br/>Click <a href=\"http://x/y\">here</a> to confirm your subscription"
    );
}

#[test]
fn a_fresh_registration_issues_a_two_uuid_token() {
    let mut store = SubscriptionStore::new();
    let (_, id, token) = register_new(&mut store, form("le guin", "khar@gmail.com"), 7).unwrap();
    assert_eq!(token.chars().count(), 72);
    assert_eq!(token.matches('-').count(), 8);
    assert_eq!(&token[14..15], "4");
    assert_eq!(&token[50..51], "4");
    assert_ne!(&token[..36], &token[36..]);
    assert_eq!(store.token_for(id), Some(token.as_str()));
    let (_, _, second) = register_new(&mut store, form("ursula", "ursula@gmail.com"), 8).unwrap();
    assert_ne!(token, second);
    assert_eq!(confirm_subscription(&mut store, Some(&token)), 200);
    assert_eq!(store.get(id).status, SubscriptionStatus::Confirmed);
}

#[test]
fn a_fresh_registration_of_an_invalid_form_writes_nothing() {
    let mut store = SubscriptionStore::new();
    let r = register_new(&mut store, form("le guin", "not-an-email"), 7);
    assert_eq!(r.map(|_| ()), Err(WorkflowError::InvalidInput));
    assert_eq!(store.token_count(), 0);
}

#[test]
fn issued_tokens_are_lowercase_hex_and_hyphens() {
    let token = issue_token();
    assert_eq!(token.len(), 72);
    for (i, c) in token.chars().enumerate() {
        if [8, 13, 18, 23, 44, 49, 54, 59].contains(&i) {
            assert_eq!(c, '-');
        } else {
            assert!(c.is_ascii_digit() || ('a'..='f').contains(&c), "{}", c);
        }
    }
    assert_ne!(token, issue_token());
}
