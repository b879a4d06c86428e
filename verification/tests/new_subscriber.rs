use zero2prod::domain::subscriber_name::check_name;
use zero2prod::domain::{NewSubscriber, ValidationError};
use zero2prod::routes::subscriptions::SubscribeFormData;

#[test]
fn two_valid_fields_make_a_new_subscriber() {
    let subscriber =
        NewSubscriber::from_form("ursula_le_guin@gmail.com".to_string(), "le guin".to_string())
            .unwrap();
    assert_eq!(subscriber.email.as_ref(), "ursula_le_guin@gmail.com");
    assert_eq!(subscriber.name.as_ref(), "le guin");
}

#[test]
fn an_invalid_email_rejects_the_form() {
    let outcome = NewSubscriber::from_form("definitely-not-an-email".to_string(), "Ursula".to_string());
    assert_eq!(outcome.unwrap_err(), ValidationError::InvalidEmail);
}

#[test]
fn an_invalid_name_rejects_the_form() {
    let outcome = NewSubscriber::from_form("ursula_le_guin@gmail.com".to_string(), "".to_string());
    assert_eq!(outcome.unwrap_err(), ValidationError::InvalidName);
}

#[test]
fn the_email_is_reported_where_both_fields_are_invalid() {
    let outcome = NewSubscriber::from_form("".to_string(), "".to_string());
    assert_eq!(outcome.unwrap_err(), ValidationError::InvalidEmail);
}

#[test]
fn a_form_converts_as_its_two_fields_do() {
    let form = SubscribeFormData {
        email: "ursula_le_guin@gmail.com".to_string(),
        name: "le guin".to_string(),
    };
    let subscriber = NewSubscriber::try_from(form).unwrap();
    assert_eq!(subscriber.email.as_ref(), "ursula_le_guin@gmail.com");
    assert_eq!(subscriber.name.as_ref(), "le guin");
    let form = SubscribeFormData { email: "ursula_le_guin@gmail.com".to_string(), name: "(".to_string() };
    assert_eq!(NewSubscriber::try_from(form).unwrap_err(), ValidationError::InvalidName);
}

#[test]
fn a_name_is_checked_against_the_count_it_is_given() {
    assert_eq!(check_name("Ursula", 6), Ok(()));
    assert_eq!(check_name("Ursula", 256), Ok(()));
    assert_eq!(check_name("Ursula", 257), Err(ValidationError::InvalidName));
    assert_eq!(check_name(" ", 1), Err(ValidationError::InvalidName));
    assert_eq!(check_name("", 0), Err(ValidationError::InvalidName));
    assert_eq!(check_name("Ur<sula", 7), Err(ValidationError::InvalidName));
}
