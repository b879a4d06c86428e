use zero2prod::domain::SubscriberEmail;
use zero2prod::email_client::{
    dispatch_result, Delivery, DispatchError, EmailClient, AUTHORIZATION_HEADER,
};

fn email_client(uri: String) -> EmailClient {
    EmailClient::new(uri, "sender@example.com".to_string(), "secret-token".to_string(), 200)
}

fn recipient() -> SubscriberEmail {
    SubscriberEmail::parse("ursula_le_guin@gmail.com".to_string()).unwrap()
}

#[test]
fn send_email_sends_the_expected_request() {
    assert_eq!(AUTHORIZATION_HEADER, "X-Postmark-Server-Token");
    let client = email_client("http://127.0.0.1:4000".to_string());
    let request = client.request(&recipient(), "A subject", "<p>content</p>", "content");
    assert_eq!(request.url, "http://127.0.0.1:4000/email");
    assert_eq!(request.authorization_token, "secret-token");
    assert_eq!(request.timeout_milliseconds, 200);
    assert_eq!(request.body.from, "sender@example.com");
    assert_eq!(request.body.to, "ursula_le_guin@gmail.com");
    assert_eq!(request.body.subject, "A subject");
    assert_eq!(request.body.html_body, "<p>content</p>");
    assert_eq!(request.body.text_body, "content");
}

#[test]
fn send_email_succeeds_if_the_server_returns_200() {
    assert_eq!(dispatch_result(Delivery::Responded { status: 200 }), Ok(()));
}

#[test]
fn send_email_fails_if_the_server_returns_500() {
    let outcome = dispatch_result(Delivery::Responded { status: 500 });
    assert!(outcome.is_err());
    assert_eq!(outcome, Err(DispatchError::Rejected));
}

#[test]
fn send_email_times_out_if_the_server_takes_too_long() {
    let outcome = dispatch_result(Delivery::TimedOut);
    assert!(outcome.is_err());
    assert_eq!(outcome, Err(DispatchError::Timeout));
}

#[test]
fn a_failure_of_the_network_is_a_transport_error() {
    assert_eq!(dispatch_result(Delivery::Failed), Err(DispatchError::Transport));
}

#[test]
fn only_the_codes_from_200_to_299_are_a_success() {
    for status in 0..=999u16 {
        let expected = if (200..=299).contains(&status) { Ok(()) } else { Err(DispatchError::Rejected) };
        assert_eq!(dispatch_result(Delivery::Responded { status }), expected);
    }
}

#[test]
fn the_timeout_is_the_one_the_client_was_made_with() {
    let client = email_client("http://localhost".to_string());
    assert_eq!(client.timeout_milliseconds(), 200);
}
