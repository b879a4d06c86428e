//! The sign-up flow: from a submitted form to a confirmation email.
use crate::domain::new_subscriber::form_verdict;
use crate::domain::{NewSubscriber, SubscriberEmail};
use crate::email_client::DispatchError;
use crate::form::{both_fields, field, field_of, form_pairs, parse_pairs, pairs_view, FormError};
use crate::routes::Outcome;
use crate::store::{StoreError, SubscriberId};
use crate::token::{generate_subscription_token, is_token, TOKEN_LENGTH};
use vstd::prelude::*;

verus! {

/// The two fields of a sign-up form, as they were submitted.
#[derive(Debug)]
pub struct SubscribeFormData {
    pub email: String,
    pub name: String,
}

/// The two fields of a sign-up form that holds `pairs`: `email` and `name`,
/// each exactly once.
pub open spec fn form_fields(pairs: Seq<(Seq<char>, Seq<char>)>) -> Result<
    (Seq<char>, Seq<char>),
    FormError,
> {
    both_fields(field_of(pairs, "email"@), field_of(pairs, "name"@))
}

impl SubscribeFormData {
    /// Picks the two fields out of the pairs of a form.
    pub fn from_pairs(pairs: &Vec<(String, String)>) -> (r: Result<SubscribeFormData, FormError>)
        ensures
            r matches Ok(form) ==> form_fields(pairs_view(pairs@)) == Ok::<
                (Seq<char>, Seq<char>),
                FormError,
            >((form.email@, form.name@)),
            r matches Err(e) ==> form_fields(pairs_view(pairs@)) == Err::<
                (Seq<char>, Seq<char>),
                FormError,
            >(e),
    {
        let email = field(pairs, "email");
        let name = field(pairs, "name");
        match (email, name) {
            (Ok(email), Ok(name)) => Ok(SubscribeFormData { email, name }),
            (Err(FormError::DuplicateField), _) => Err(FormError::DuplicateField),
            (_, Err(FormError::DuplicateField)) => Err(FormError::DuplicateField),
            _ => Err(FormError::MissingField),
        }
    }

    /// Decodes a form-encoded body.
    pub fn from_body(body: &[u8]) -> (r: Result<SubscribeFormData, FormError>)
        ensures
            r matches Ok(form) ==> form_fields(form_pairs(body@)) == Ok::<
                (Seq<char>, Seq<char>),
                FormError,
            >((form.email@, form.name@)),
            r matches Err(e) ==> form_fields(form_pairs(body@)) == Err::<
                (Seq<char>, Seq<char>),
                FormError,
            >(e),
    {
        let pairs = parse_pairs(body);
        SubscribeFormData::from_pairs(&pairs)
    }
}

/// The link that confirms the subscription for which `token` was issued.
pub open spec fn confirmation_link_text(base_url: Seq<char>, token: Seq<char>) -> Seq<char> {
    base_url + "/subscriptions/confirm?subscription_token="@ + token
}

/// The HTML body of the confirmation email that holds `link`.
pub open spec fn html_body_text(link: Seq<char>) -> Seq<char> {
    "Welcome to our newsletter!<br />Click <a href=\""@ + link
        + "\">here</a> to confirm your subscription."@
}

/// The plain body of the confirmation email that holds `link`.
pub open spec fn text_body_text(link: Seq<char>) -> Seq<char> {
    "Welcome to our newsletter!\nVisit "@ + link + " to confirm your subscription."@
}

/// The link that confirms the subscription for which `token` was issued.
pub fn confirmation_link(base_url: &str, token: &str) -> (link: String)
    ensures
        link@ == confirmation_link_text(base_url@, token@),
{
    let mut link = String::from_str(base_url);
    link.append("/subscriptions/confirm?subscription_token=");
    link.append(token);
    link
}

/// A message to one subscriber.
#[derive(Debug)]
pub struct EmailContent {
    pub recipient: SubscriberEmail,
    pub subject: String,
    pub html_body: String,
    pub text_body: String,
}

/// What a message holds.
pub struct EmailContentView {
    pub recipient: Seq<char>,
    pub subject: Seq<char>,
    pub html_body: Seq<char>,
    pub text_body: Seq<char>,
}

impl View for EmailContent {
    type V = EmailContentView;

    open spec fn view(&self) -> EmailContentView {
        EmailContentView {
            recipient: self.recipient@,
            subject: self.subject@,
            html_body: self.html_body@,
            text_body: self.text_body@,
        }
    }
}

/// The confirmation email for `recipient`: the subject is `Welcome!`, and
/// each of the two bodies holds the confirmation link once.
pub open spec fn confirmation_email_view(
    recipient: Seq<char>,
    base_url: Seq<char>,
    token: Seq<char>,
) -> EmailContentView {
    let link = confirmation_link_text(base_url, token);
    EmailContentView {
        recipient,
        subject: "Welcome!"@,
        html_body: html_body_text(link),
        text_body: text_body_text(link),
    }
}

/// The confirmation email for `recipient`.
pub fn confirmation_email(recipient: SubscriberEmail, base_url: &str, token: &str) -> (email:
    EmailContent)
    ensures
        email@ == confirmation_email_view(recipient@, base_url@, token@),
{
    let link = confirmation_link(base_url, token);
    let mut html_body = String::from_str("Welcome to our newsletter!<br />Click <a href=\"");
    html_body.append(link.as_str());
    html_body.append("\">here</a> to confirm your subscription.");
    let mut text_body = String::from_str("Welcome to our newsletter!\nVisit ");
    text_body.append(link.as_str());
    text_body.append(" to confirm your subscription.");
    EmailContent { recipient, subject: String::from_str("Welcome!"), html_body, text_body }
}

/// How far a sign-up has come.
#[derive(Debug)]
pub enum SignupState {
    /// Nothing was submitted yet.
    AwaitingSubmission,
    /// The store was asked to create the row.
    AwaitingInsert { recipient: SubscriberEmail },
    /// The store was asked to keep the token.
    AwaitingTokenLink { recipient: SubscriberEmail, token: String },
    /// The confirmation email is on its way.
    AwaitingDispatch,
    /// The request was answered.
    Finished,
}

/// What happened outside since the last step.
#[derive(Debug)]
pub enum SignupEvent {
    /// A form was submitted, with this body.
    Submitted { body: Vec<u8> },
    /// The store answered the request to create the row.
    Inserted(Result<SubscriberId, StoreError>),
    /// The store answered the request to keep the token.
    TokenLinked(Result<(), StoreError>),
    /// The attempt to send the confirmation email ended.
    Dispatched(Result<(), DispatchError>),
}

/// What is to be done outside next.
#[derive(Debug)]
pub enum SignupAction {
    /// Create the row of this subscriber, awaiting confirmation.
    InsertSubscriber(NewSubscriber),
    /// Keep this token for this subscriber.
    LinkToken { subscriber_id: SubscriberId, token: String },
    /// Send this message, once.
    SendEmail(EmailContent),
    /// Answer the request.
    Respond(Outcome),
}

/// What a state of a sign-up holds.
pub enum SignupStateView {
    AwaitingSubmission,
    AwaitingInsert { recipient: Seq<char> },
    AwaitingTokenLink { recipient: Seq<char>, token: Seq<char> },
    AwaitingDispatch,
    Finished,
}

/// What an event of a sign-up holds.
pub enum SignupEventView {
    Submitted { body: Seq<u8> },
    Inserted(Result<SubscriberId, StoreError>),
    TokenLinked(Result<(), StoreError>),
    Dispatched(Result<(), DispatchError>),
}

/// What an action of a sign-up holds.
pub enum SignupActionView {
    InsertSubscriber { email: Seq<char>, name: Seq<char> },
    LinkToken { subscriber_id: SubscriberId, token: Seq<char> },
    SendEmail(EmailContentView),
    Respond(Outcome),
}

impl View for SignupState {
    type V = SignupStateView;

    open spec fn view(&self) -> SignupStateView {
        match self {
            SignupState::AwaitingSubmission => SignupStateView::AwaitingSubmission,
            SignupState::AwaitingInsert { recipient } => SignupStateView::AwaitingInsert {
                recipient: recipient@,
            },
            SignupState::AwaitingTokenLink { recipient, token } => {
                SignupStateView::AwaitingTokenLink { recipient: recipient@, token: token@ }
            },
            SignupState::AwaitingDispatch => SignupStateView::AwaitingDispatch,
            SignupState::Finished => SignupStateView::Finished,
        }
    }
}

impl View for SignupEvent {
    type V = SignupEventView;

    open spec fn view(&self) -> SignupEventView {
        match self {
            SignupEvent::Submitted { body } => SignupEventView::Submitted { body: body@ },
            SignupEvent::Inserted(r) => SignupEventView::Inserted(*r),
            SignupEvent::TokenLinked(r) => SignupEventView::TokenLinked(*r),
            SignupEvent::Dispatched(r) => SignupEventView::Dispatched(*r),
        }
    }
}

impl View for SignupAction {
    type V = SignupActionView;

    open spec fn view(&self) -> SignupActionView {
        match self {
            SignupAction::InsertSubscriber(subscriber) => SignupActionView::InsertSubscriber {
                email: subscriber.email@,
                name: subscriber.name@,
            },
            SignupAction::LinkToken { subscriber_id, token } => SignupActionView::LinkToken {
                subscriber_id: *subscriber_id,
                token: token@,
            },
            SignupAction::SendEmail(email) => SignupActionView::SendEmail(email@),
            SignupAction::Respond(outcome) => SignupActionView::Respond(*outcome),
        }
    }
}

/// The end of a flow: the request is answered with `outcome`.
pub open spec fn signup_ends(outcome: Outcome) -> (SignupStateView, SignupActionView) {
    (SignupStateView::Finished, SignupActionView::Respond(outcome))
}

/// One step of a sign-up: the state that follows `state` on `event`, and
/// what is to be done next. `token` is the token that is issued where the
/// row was created.
///
/// A form that cannot be decoded or a field that is refused ends the flow
/// as a bad request, before the store is touched. A failure of the store
/// or of the dispatch ends it as a server error, and so does an event that
/// the state does not await.
pub open spec fn signup_next(
    state: SignupStateView,
    event: SignupEventView,
    base_url: Seq<char>,
    token: Seq<char>,
) -> (SignupStateView, SignupActionView) {
    match (state, event) {
        (SignupStateView::AwaitingSubmission, SignupEventView::Submitted { body }) => {
            match form_fields(form_pairs(body)) {
                Err(_) => signup_ends(Outcome::BadRequest),
                Ok((email, name)) => match form_verdict(email, name) {
                    Err(_) => signup_ends(Outcome::BadRequest),
                    Ok(()) => (
                        SignupStateView::AwaitingInsert { recipient: email },
                        SignupActionView::InsertSubscriber { email, name },
                    ),
                },
            }
        },
        (
            SignupStateView::AwaitingInsert { recipient },
            SignupEventView::Inserted(Ok(subscriber_id)),
        ) => (
            SignupStateView::AwaitingTokenLink { recipient, token },
            SignupActionView::LinkToken { subscriber_id, token },
        ),
        (
            SignupStateView::AwaitingTokenLink { recipient, token: issued },
            SignupEventView::TokenLinked(Ok(())),
        ) => (
            SignupStateView::AwaitingDispatch,
            SignupActionView::SendEmail(confirmation_email_view(recipient, base_url, issued)),
        ),
        (SignupStateView::AwaitingDispatch, SignupEventView::Dispatched(Ok(()))) => signup_ends(
            Outcome::Accepted,
        ),
        _ => signup_ends(Outcome::ServerError),
    }
}

/// One step of a sign-up, with the token to issue given.
pub fn signup_step_with(state: SignupState, event: SignupEvent, base_url: &str, token: String) -> (r:
    (SignupState, SignupAction))
    ensures
        (r.0@, r.1@) == signup_next(state@, event@, base_url@, token@),
{
    match (state, event) {
        (SignupState::AwaitingSubmission, SignupEvent::Submitted { body }) => {
            match SubscribeFormData::from_body(body.as_slice()) {
                Err(_) => (SignupState::Finished, SignupAction::Respond(Outcome::BadRequest)),
                Ok(form) => match NewSubscriber::try_from(form) {
                    Err(_) => (SignupState::Finished, SignupAction::Respond(Outcome::BadRequest)),
                    Ok(subscriber) => {
                        let recipient = subscriber.email.clone();
                        (
                            SignupState::AwaitingInsert { recipient },
                            SignupAction::InsertSubscriber(subscriber),
                        )
                    },
                },
            }
        },
        (SignupState::AwaitingInsert { recipient }, SignupEvent::Inserted(Ok(subscriber_id))) => {
            let issued = token.clone();
            (
                SignupState::AwaitingTokenLink { recipient, token },
                SignupAction::LinkToken { subscriber_id, token: issued },
            )
        },
        (
            SignupState::AwaitingTokenLink { recipient, token: issued },
            SignupEvent::TokenLinked(Ok(())),
        ) => {
            let email = confirmation_email(recipient, base_url, issued.as_str());
            (SignupState::AwaitingDispatch, SignupAction::SendEmail(email))
        },
        (SignupState::AwaitingDispatch, SignupEvent::Dispatched(Ok(()))) => (
            SignupState::Finished,
            SignupAction::Respond(Outcome::Accepted),
        ),
        _ => (SignupState::Finished, SignupAction::Respond(Outcome::ServerError)),
    }
}

/// Whether a token is issued on `event` in `state`: where the row was
/// created.
pub open spec fn issues_token(state: SignupStateView, event: SignupEventView) -> bool {
    state is AwaitingInsert && event matches SignupEventView::Inserted(Ok(_))
}

/// One step of a sign-up. Where the row was created, a fresh token is
/// drawn and issued.
pub fn signup_step(state: SignupState, event: SignupEvent, base_url: &str) -> (r: (
    SignupState,
    SignupAction,
))
    ensures
        exists|token: Seq<char>|
            is_token(token) && (r.0@, r.1@) == #[trigger] signup_next(
                state@,
                event@,
                base_url@,
                token,
            ),
{
    let draw = match (&state, &event) {
        (SignupState::AwaitingInsert { .. }, SignupEvent::Inserted(Ok(_))) => true,
        _ => false,
    };
    if draw {
        let token = generate_subscription_token();
        signup_step_with(state, event, base_url, token)
    } else {
        let ghost any = Seq::new(TOKEN_LENGTH as nat, |i: int| '0');
        let r = signup_step_with(state, event, base_url, String::new());
        assert(is_token(any));
        assert((r.0@, r.1@) == signup_next(state@, event@, base_url@, any));
        r
    }
}

} // verus!
