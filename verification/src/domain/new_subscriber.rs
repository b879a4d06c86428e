//! A sign-up whose two fields were both accepted.
use crate::domain::subscriber_email::{email_valid, SubscriberEmail};
use crate::domain::subscriber_name::{name_valid, SubscriberName};
use crate::domain::ValidationError;
use crate::routes::subscriptions::SubscribeFormData;
use vstd::prelude::*;

verus! {

/// The intent to subscribe, between the request and the store.
#[derive(Debug)]
pub struct NewSubscriber {
    pub email: SubscriberEmail,
    pub name: SubscriberName,
}

/// Whether two raw fields make a sign-up, and if not, which is reported:
/// the email address where both are refused.
pub open spec fn form_verdict(raw_email: Seq<char>, raw_name: Seq<char>) -> Result<
    (),
    ValidationError,
> {
    if !email_valid(raw_email) {
        Err(ValidationError::InvalidEmail)
    } else if !name_valid(raw_name) {
        Err(ValidationError::InvalidName)
    } else {
        Ok(())
    }
}

impl NewSubscriber {
    /// What `from_form` answers for two raw fields.
    pub open spec fn assembled(raw_email: String, raw_name: String) -> Result<
        NewSubscriber,
        ValidationError,
    > {
        match SubscriberEmail::parsed(raw_email) {
            Err(e) => Err(e),
            Ok(email) => match SubscriberName::parsed(raw_name) {
                Err(e) => Err(e),
                Ok(name) => Ok(NewSubscriber { email, name }),
            },
        }
    }

    /// Validates both fields, and assembles them where both are accepted.
    pub fn from_form(raw_email: String, raw_name: String) -> (r: Result<
        NewSubscriber,
        ValidationError,
    >)
        ensures
            r == Self::assembled(raw_email, raw_name),
            r is Ok <==> form_verdict(raw_email@, raw_name@) is Ok,
            r matches Ok(subscriber) ==> subscriber.email@ == raw_email@ && subscriber.name@
                == raw_name@,
            r matches Err(e) ==> form_verdict(raw_email@, raw_name@) == Err::<(), ValidationError>(
                e,
            ),
    {
        let email = SubscriberEmail::parse(raw_email);
        let name = SubscriberName::parse(raw_name);
        match email {
            Err(e) => Err(e),
            Ok(email) => match name {
                Err(e) => Err(e),
                Ok(name) => Ok(NewSubscriber { email, name }),
            },
        }
    }
}

impl TryFrom<SubscribeFormData> for NewSubscriber {
    type Error = ValidationError;

    /// The same as `NewSubscriber::from_form` on the two fields of `value`.
    fn try_from(value: SubscribeFormData) -> (r: Result<NewSubscriber, ValidationError>)
        ensures
            r is Ok <==> form_verdict(value.email@, value.name@) is Ok,
            r matches Ok(subscriber) ==> subscriber.email@ == value.email@ && subscriber.name@
                == value.name@,
            r matches Err(e) ==> form_verdict(value.email@, value.name@) == Err::<
                (),
                ValidationError,
            >(e),
    {
        NewSubscriber::from_form(value.email, value.name)
    }
}

impl vstd::std_specs::convert::TryFromSpecImpl<SubscribeFormData> for NewSubscriber {
    open spec fn obeys_try_from_spec() -> bool {
        true
    }

    open spec fn try_from_spec(v: SubscribeFormData) -> Result<NewSubscriber, ValidationError> {
        NewSubscriber::assembled(v.email, v.name)
    }
}

} // verus!
