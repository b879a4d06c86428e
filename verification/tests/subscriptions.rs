use zero2prod::email_client::{dispatch_result, Delivery, EmailClient, EmailRequest};
use zero2prod::routes::subscriptions::{
    signup_step, signup_step_with, SignupAction, SignupEvent, SignupState,
};
use zero2prod::routes::subscriptions_confirm::{
    confirm_step, ConfirmAction, ConfirmEvent, ConfirmState,
};
use zero2prod::routes::Outcome;
use zero2prod::store::{StoreError, SubscriberId, SubscriptionStatus};
use zero2prod::tables::SubscriptionStore;
use zero2prod::token::is_subscription_token;

const BASE_URL: &str = "http://127.0.0.1";

/// The service with its tables in memory and a mail endpoint that answers
/// every request in the same way.
struct TestApp {
    store: SubscriptionStore,
    email_client: EmailClient,
    email_server: Delivery,
    received_requests: Vec<EmailRequest>,
}

impl TestApp {
    fn new() -> TestApp {
        TestApp::with_email_server(Delivery::Responded { status: 200 })
    }

    fn with_email_server(email_server: Delivery) -> TestApp {
        TestApp {
            store: SubscriptionStore::new(),
            email_client: EmailClient::new(
                "http://127.0.0.1:8025".to_string(),
                "newsletter@example.com".to_string(),
                "my-secret-token".to_string(),
                10_000,
            ),
            email_server,
            received_requests: Vec::new(),
        }
    }

    fn post_subscriptions(&mut self, body: String) -> u16 {
        let mut state = SignupState::AwaitingSubmission;
        let mut event = SignupEvent::Submitted { body: body.into_bytes() };
        loop {
            let (next, action) = signup_step(state, event, BASE_URL);
            state = next;
            event = match action {
                SignupAction::InsertSubscriber(subscriber) => {
                    SignupEvent::Inserted(self.store.insert_subscriber(&subscriber))
                }
                SignupAction::LinkToken { subscriber_id, token } => {
                    SignupEvent::TokenLinked(self.store.link_token(subscriber_id, &token))
                }
                SignupAction::SendEmail(email) => {
                    let request = self.email_client.request(
                        &email.recipient,
                        &email.subject,
                        &email.html_body,
                        &email.text_body,
                    );
                    self.received_requests.push(request);
                    SignupEvent::Dispatched(dispatch_result(self.email_server))
                }
                SignupAction::Respond(outcome) => {
                    assert!(matches!(state, SignupState::Finished));
                    return outcome.status_code();
                }
            };
        }
    }

    fn get_confirm(&mut self, query: &str) -> u16 {
        let mut state = ConfirmState::AwaitingRequest;
        let mut event = ConfirmEvent::Requested { query: query.as_bytes().to_vec() };
        loop {
            let (next, action) = confirm_step(state, event);
            state = next;
            event = match action {
                ConfirmAction::ResolveToken { token } => {
                    ConfirmEvent::Resolved(self.store.resolve_token(&token))
                }
                ConfirmAction::ConfirmSubscriber { subscriber_id } => {
                    ConfirmEvent::Confirmed(self.store.confirm(subscriber_id))
                }
                ConfirmAction::Respond(outcome) => {
                    assert_eq!(state, ConfirmState::Finished);
                    return outcome.status_code();
                }
            };
        }
    }
}

struct ConfirmationLinks {
    html: String,
    plain_text: String,
}

fn get_single_link(s: &str) -> String {
    let finder = linkify::LinkFinder::new();
    let links: Vec<_> = finder.links(s).filter(|l| *l.kind() == linkify::LinkKind::Url).collect();
    assert_eq!(links.len(), 1, "not exactly one link in {:?}", s);
    links[0].as_str().to_string()
}

fn confirmation_links(request: &EmailRequest) -> ConfirmationLinks {
    ConfirmationLinks {
        html: get_single_link(&request.body.html_body),
        plain_text: get_single_link(&request.body.text_body),
    }
}

fn query_of(link: &str) -> &str {
    let (path, query) = link.split_once('?').unwrap();
    assert_eq!(path, "http://127.0.0.1/subscriptions/confirm");
    query
}

#[test]
fn subscribe_returns_a_200_for_valid_form_data() {
    let mut test_app = TestApp::new();
    let body = "name=le%20guin&email=ursula_le_guin%40gmail.com";

    let status = test_app.post_subscriptions(body.to_string());

    assert_eq!(status, 200);
    assert_eq!(test_app.received_requests.len(), 1);
}

#[test]
fn subscribe_persists_the_new_subscriber() {
    let mut test_app = TestApp::new();
    let body = "name=le%20guin&email=ursula_le_guin%40gmail.com";

    test_app.post_subscriptions(body.into());

    let rows = test_app.store.subscriptions();
    assert_eq!(rows.len(), 1);
    let saved = &rows[0];
    assert_eq!(saved.email, "ursula_le_guin@gmail.com");
    assert_eq!(saved.name, "le guin");
    assert_eq!(saved.status.as_str(), "pending_confirmation");
}

#[test]
fn subscribe_returns_a_400_when_data_is_missing() {
    let mut test_app = TestApp::new();
    let test_cases = [
        ("name=le%20guin", "missing the email"),
        ("email=ursula_le_guin%40gmail.com", "missing the name"),
        ("", "missing both name and email"),
    ];

    for (body, message) in test_cases {
        let status = test_app.post_subscriptions(body.to_string());

        assert_eq!(
            status, 400,
            "The API did not fail with 400 Bad Request when the payload was {}.",
            message
        );
    }
    assert!(test_app.store.subscriptions().is_empty());
    assert!(test_app.store.tokens().is_empty());
    assert!(test_app.received_requests.is_empty());
}

#[test]
fn subscribe_returns_a_400_when_fields_are_present_but_invalid() {
    let mut app = TestApp::new();
    let test_cases = [
        ("name=&email=ursula_le_guin%40gmail.com", "empty name"),
        ("name=Ursula&email=", "empty email"),
        ("name=Ursula&email=definitely-not-an-email", "invalid email"),
    ];

    for (body, description) in test_cases {
        let status = app.post_subscriptions(body.to_string());

        assert_eq!(
            400, status,
            "The API did not return a 400 Bad Request when the payload was {}.",
            description
        );
    }
    assert!(app.store.subscriptions().is_empty());
    assert!(app.received_requests.is_empty());
}

#[test]
fn subscribe_sends_a_confirmation_email_for_valid_data() {
    let mut test_app = TestApp::new();
    let body = "name=le%20guin&email=ursula_le_guin%40gmail.com";

    test_app.post_subscriptions(body.to_string());

    assert_eq!(test_app.received_requests.len(), 1);
    let request = &test_app.received_requests[0];
    assert_eq!(request.url, "http://127.0.0.1:8025/email");
    assert_eq!(request.authorization_token, "my-secret-token");
    assert_eq!(request.body.from, "newsletter@example.com");
    assert_eq!(request.body.to, "ursula_le_guin@gmail.com");
    assert_eq!(request.body.subject, "Welcome!");
}

#[test]
fn subscribe_sends_a_confirmation_email_with_a_link() {
    let mut test_app = TestApp::new();
    let body = "name=le%20guin&email=ursula_le_guin%40gmail.com";

    test_app.post_subscriptions(body.to_string());

    let email_request = test_app.received_requests.first().expect("Empty requests");
    let confirmation_links = confirmation_links(email_request);

    assert_eq!(confirmation_links.html, confirmation_links.plain_text);
}

#[test]
fn the_bodies_of_the_confirmation_email_are_exact() {
    let mut test_app = TestApp::new();
    test_app.post_subscriptions("name=le%20guin&email=ursula_le_guin%40gmail.com".to_string());

    let token = test_app.store.tokens()[0].token.clone();
    assert!(is_subscription_token(&token));
    let link = format!("http://127.0.0.1/subscriptions/confirm?subscription_token={}", token);
    let request = &test_app.received_requests[0];
    assert_eq!(
        request.body.html_body,
        format!(
            "Welcome to our newsletter!<br />Click <a href=\"{}\">here</a> to confirm your subscription.",
            link
        )
    );
    assert_eq!(
        request.body.text_body,
        format!("Welcome to our newsletter!\nVisit {} to confirm your subscription.", link)
    );
}

#[test]
fn subscribe_links_a_token_to_the_new_subscriber() {
    let mut test_app = TestApp::new();
    test_app.post_subscriptions("name=le%20guin&email=ursula_le_guin%40gmail.com".to_string());

    let rows = test_app.store.subscriptions();
    let tokens = test_app.store.tokens();
    assert_eq!(tokens.len(), 1);
    assert_eq!(tokens[0].subscriber_id, rows[0].id);
    assert_eq!(test_app.store.resolve_token(&tokens[0].token), Ok(rows[0].id));
}

#[test]
fn subscribing_twice_with_the_same_email_creates_two_rows() {
    let mut test_app = TestApp::new();
    let body = "name=le%20guin&email=ursula_le_guin%40gmail.com";

    assert_eq!(test_app.post_subscriptions(body.to_string()), 200);
    assert_eq!(test_app.post_subscriptions(body.to_string()), 200);

    let rows = test_app.store.subscriptions();
    assert_eq!(rows.len(), 2);
    assert_ne!(rows[0].id, rows[1].id);
    assert_eq!(rows[0].email, rows[1].email);
    let tokens = test_app.store.tokens();
    assert_eq!(tokens.len(), 2);
    assert_ne!(tokens[0].token, tokens[1].token);
}

#[test]
fn subscribe_fails_if_the_email_server_returns_500() {
    let mut test_app = TestApp::with_email_server(Delivery::Responded { status: 500 });
    let body = "name=le%20guin&email=ursula_le_guin%40gmail.com";

    let status = test_app.post_subscriptions(body.to_string());

    assert_eq!(status, 500);
    let rows = test_app.store.subscriptions();
    assert_eq!(rows.len(), 1);
    assert_eq!(rows[0].status, SubscriptionStatus::PendingConfirmation);
    assert_eq!(test_app.store.tokens().len(), 1);
    assert_eq!(test_app.received_requests.len(), 1);
}

#[test]
fn subscribe_fails_if_the_email_server_times_out() {
    let mut test_app = TestApp::with_email_server(Delivery::TimedOut);
    let body = "name=le%20guin&email=ursula_le_guin%40gmail.com";

    let status = test_app.post_subscriptions(body.to_string());

    assert_eq!(status, 500);
    let rows = test_app.store.subscriptions();
    assert_eq!(rows.len(), 1);
    assert_eq!(rows[0].status.as_str(), "pending_confirmation");
    assert_eq!(test_app.store.tokens().len(), 1);
}

#[test]
fn subscribe_fails_if_the_store_refuses_the_row() {
    let (state, action) = signup_step(
        SignupState::AwaitingSubmission,
        SignupEvent::Submitted { body: b"name=le%20guin&email=ursula_le_guin%40gmail.com".to_vec() },
        BASE_URL,
    );
    assert!(matches!(action, SignupAction::InsertSubscriber(_)));

    let (state, action) =
        signup_step(state, SignupEvent::Inserted(Err(StoreError::Persistence)), BASE_URL);

    assert!(matches!(state, SignupState::Finished));
    assert!(matches!(action, SignupAction::Respond(Outcome::ServerError)));
}

#[test]
fn subscribe_fails_if_the_store_refuses_the_token() {
    let (state, _) = signup_step(
        SignupState::AwaitingSubmission,
        SignupEvent::Submitted { body: b"name=le%20guin&email=ursula_le_guin%40gmail.com".to_vec() },
        BASE_URL,
    );
    let (state, action) =
        signup_step(state, SignupEvent::Inserted(Ok(SubscriberId(7))), BASE_URL);
    match action {
        SignupAction::LinkToken { subscriber_id, token } => {
            assert_eq!(subscriber_id, SubscriberId(7));
            assert!(is_subscription_token(&token));
        }
        other => panic!("unexpected action {:?}", other),
    }

    let (state, action) =
        signup_step(state, SignupEvent::TokenLinked(Err(StoreError::Persistence)), BASE_URL);

    assert!(matches!(state, SignupState::Finished));
    assert!(matches!(action, SignupAction::Respond(Outcome::ServerError)));
}

#[test]
fn the_token_that_is_given_is_the_token_that_is_issued() {
    let token = "abcdefghijklmnopqrstuvwxyz0123".to_string();
    let (state, _) = signup_step_with(
        SignupState::AwaitingSubmission,
        SignupEvent::Submitted { body: b"email=a%40b.com&name=A".to_vec() },
        "https://newsletter.example",
        String::new(),
    );
    let (state, action) = signup_step_with(
        state,
        SignupEvent::Inserted(Ok(SubscriberId(1))),
        "https://newsletter.example",
        token.clone(),
    );
    assert!(matches!(action, SignupAction::LinkToken { token: issued, .. } if issued == token));

    let (state, action) = signup_step_with(
        state,
        SignupEvent::TokenLinked(Ok(())),
        "https://newsletter.example",
        String::new(),
    );

    assert!(matches!(state, SignupState::AwaitingDispatch));
    match action {
        SignupAction::SendEmail(email) => {
            assert_eq!(email.recipient.as_ref(), "a@b.com");
            assert_eq!(email.subject, "Welcome!");
            assert_eq!(
                email.text_body,
                "Welcome to our newsletter!\nVisit https://newsletter.example/subscriptions/confirm?subscription_token=abcdefghijklmnopqrstuvwxyz0123 to confirm your subscription."
            );
        }
        other => panic!("unexpected action {:?}", other),
    }
}

#[test]
fn an_event_that_is_not_awaited_ends_the_sign_up_as_a_server_error() {
    let (state, action) =
        signup_step(SignupState::AwaitingSubmission, SignupEvent::TokenLinked(Ok(())), BASE_URL);
    assert!(matches!(state, SignupState::Finished));
    assert!(matches!(action, SignupAction::Respond(Outcome::ServerError)));

    let (state, action) = signup_step(
        SignupState::Finished,
        SignupEvent::Submitted { body: b"name=le%20guin&email=ursula_le_guin%40gmail.com".to_vec() },
        BASE_URL,
    );
    assert!(matches!(state, SignupState::Finished));
    assert!(matches!(action, SignupAction::Respond(Outcome::ServerError)));
}

#[test]
fn confirmations_without_token_are_rejected() {
    let mut app = TestApp::new();
    app.post_subscriptions("name=le%20guin&email=ursula_le_guin%40gmail.com".to_string());

    assert_eq!(app.get_confirm(""), 400);
    assert_eq!(app.get_confirm("token=abc"), 400);

    assert_eq!(app.store.subscriptions()[0].status, SubscriptionStatus::PendingConfirmation);
}

#[test]
fn confirmations_without_token_do_not_reach_the_store() {
    let (state, action) =
        confirm_step(ConfirmState::AwaitingRequest, ConfirmEvent::Requested { query: Vec::new() });
    assert_eq!(state, ConfirmState::Finished);
    assert!(matches!(action, ConfirmAction::Respond(Outcome::BadRequest)));
}

#[test]
fn confirmations_with_an_unknown_token_are_rejected() {
    let mut app = TestApp::new();
    app.post_subscriptions("name=le%20guin&email=ursula_le_guin%40gmail.com".to_string());

    let status = app.get_confirm("subscription_token=abcdefghijklmnopqrstuvwxyz0123");

    assert_eq!(status, 400);
    assert_eq!(app.store.subscriptions()[0].status, SubscriptionStatus::PendingConfirmation);
}

#[test]
fn the_link_returned_by_subscribe_returns_a_200_if_called() {
    let mut test_app = TestApp::new();
    let body = "name=le%20guin&email=ursula_le_guin%40gmail.com";

    test_app.post_subscriptions(body.to_string());

    let email_request = test_app.received_requests.first().expect("Empty requests");
    let confirmation_link = confirmation_links(email_request);

    let status = test_app.get_confirm(query_of(&confirmation_link.html));

    assert_eq!(status, 200);
}

#[test]
fn clicking_on_the_confirmation_link_confirms_a_subscriber() {
    let mut test_app = TestApp::new();
    let body = "name=le%20guin&email=ursula_le_guin%40gmail.com";

    test_app.post_subscriptions(body.to_string());
    let confirmation_link =
        confirmation_links(test_app.received_requests.first().expect("Empty requests"));

    test_app.get_confirm(query_of(&confirmation_link.html));

    let rows = test_app.store.subscriptions();
    assert_eq!(rows.len(), 1);
    let saved = &rows[0];
    assert_eq!(saved.email, "ursula_le_guin@gmail.com");
    assert_eq!(saved.name, "le guin");
    assert_eq!(saved.status.as_str(), "confirmed");
}

#[test]
fn clicking_on_the_confirmation_link_confirms_that_subscriber_only() {
    let mut test_app = TestApp::new();
    test_app.post_subscriptions("name=le%20guin&email=ursula_le_guin%40gmail.com".to_string());
    test_app.post_subscriptions("name=Octavia&email=octavia%40example.com".to_string());
    let link = confirmation_links(&test_app.received_requests[1]).plain_text;

    assert_eq!(test_app.get_confirm(query_of(&link)), 200);

    let rows = test_app.store.subscriptions();
    assert_eq!(rows[0].status, SubscriptionStatus::PendingConfirmation);
    assert_eq!(rows[1].status, SubscriptionStatus::Confirmed);
    assert_eq!(rows[1].name, "Octavia");
}

#[test]
fn clicking_on_the_confirmation_link_twice_is_accepted_twice() {
    let mut test_app = TestApp::new();
    test_app.post_subscriptions("name=le%20guin&email=ursula_le_guin%40gmail.com".to_string());
    let link = confirmation_links(&test_app.received_requests[0]).html;

    assert_eq!(test_app.get_confirm(query_of(&link)), 200);
    assert_eq!(test_app.get_confirm(query_of(&link)), 200);

    assert_eq!(test_app.store.subscriptions()[0].status, SubscriptionStatus::Confirmed);
}

#[test]
fn a_failure_of_the_store_ends_the_confirmation_as_a_server_error() {
    for failure in [StoreError::Persistence, StoreError::Invariant] {
        let (state, action) =
            confirm_step(ConfirmState::AwaitingResolution, ConfirmEvent::Resolved(Err(failure)));
        assert_eq!(state, ConfirmState::Finished);
        assert!(matches!(action, ConfirmAction::Respond(Outcome::ServerError)));
    }
    for failure in [StoreError::Persistence, StoreError::NotFound, StoreError::Invariant] {
        let (state, action) =
            confirm_step(ConfirmState::AwaitingConfirmation, ConfirmEvent::Confirmed(Err(failure)));
        assert_eq!(state, ConfirmState::Finished);
        assert!(matches!(action, ConfirmAction::Respond(Outcome::ServerError)));
    }
}

#[test]
fn an_event_that_is_not_awaited_ends_the_confirmation_as_a_server_error() {
    let (state, action) =
        confirm_step(ConfirmState::AwaitingRequest, ConfirmEvent::Confirmed(Ok(())));
    assert_eq!(state, ConfirmState::Finished);
    assert!(matches!(action, ConfirmAction::Respond(Outcome::ServerError)));
    let (state, action) = confirm_step(
        ConfirmState::Finished,
        ConfirmEvent::Requested { query: b"subscription_token=abc".to_vec() },
    );
    assert_eq!(state, ConfirmState::Finished);
    assert!(matches!(action, ConfirmAction::Respond(Outcome::ServerError)));
}

#[test]
fn the_outcomes_have_their_status_codes() {
    assert_eq!(Outcome::Accepted.status_code(), 200);
    assert_eq!(Outcome::BadRequest.status_code(), 400);
    assert_eq!(Outcome::ServerError.status_code(), 500);
}
