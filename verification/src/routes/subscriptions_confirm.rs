//! The confirmation flow: from a clicked link to a confirmed subscription.
use crate::form::{field, field_of, form_pairs, parse_pairs, pairs_view, FormError};
use crate::routes::Outcome;
use crate::store::{StoreError, SubscriberId};
use vstd::prelude::*;

verus! {

/// What the query string of a confirmation link holds.
#[derive(Debug)]
pub struct Parameters {
    subscription_token: String,
}

impl View for Parameters {
    type V = Seq<char>;

    closed spec fn view(&self) -> Seq<char> {
        self.subscription_token@
    }
}

/// The token of a confirmation link whose query string holds `pairs`: the
/// field `subscription_token`, exactly once.
pub open spec fn token_field(pairs: Seq<(Seq<char>, Seq<char>)>) -> Result<Seq<char>, FormError> {
    field_of(pairs, "subscription_token"@)
}

impl Parameters {
    /// Picks the token out of the pairs of a query string.
    pub fn from_pairs(pairs: &Vec<(String, String)>) -> (r: Result<Parameters, FormError>)
        ensures
            r matches Ok(parameters) ==> token_field(pairs_view(pairs@)) == Ok::<
                Seq<char>,
                FormError,
            >(parameters@),
            r matches Err(e) ==> token_field(pairs_view(pairs@)) == Err::<Seq<char>, FormError>(e),
    {
        match field(pairs, "subscription_token") {
            Ok(subscription_token) => Ok(Parameters { subscription_token }),
            Err(e) => Err(e),
        }
    }

    /// Decodes a query string.
    pub fn from_query(query: &[u8]) -> (r: Result<Parameters, FormError>)
        ensures
            r matches Ok(parameters) ==> token_field(form_pairs(query@)) == Ok::<
                Seq<char>,
                FormError,
            >(parameters@),
            r matches Err(e) ==> token_field(form_pairs(query@)) == Err::<Seq<char>, FormError>(e),
    {
        let pairs = parse_pairs(query);
        Parameters::from_pairs(&pairs)
    }

    /// The token, as it was sent.
    pub fn subscription_token(&self) -> (token: &str)
        ensures
            token@ == self@,
    {
        self.subscription_token.as_str()
    }

    /// The token, as it was sent.
    pub fn into_token(self) -> (token: String)
        ensures
            token@ == self@,
    {
        self.subscription_token
    }
}

/// How far a confirmation has come.
#[derive(Debug, Clone, Copy, PartialEq, Eq, Structural)]
pub enum ConfirmState {
    /// No link was clicked yet.
    AwaitingRequest,
    /// The store was asked whose token it is.
    AwaitingResolution,
    /// The store was asked to confirm the subscriber.
    AwaitingConfirmation,
    /// The request was answered.
    Finished,
}

/// What happened outside since the last step.
#[derive(Debug)]
pub enum ConfirmEvent {
    /// A confirmation link was requested, with this query string.
    Requested { query: Vec<u8> },
    /// The store answered whose token it is.
    Resolved(Result<SubscriberId, StoreError>),
    /// The store answered the request to confirm the subscriber.
    Confirmed(Result<(), StoreError>),
}

/// What is to be done outside next.
#[derive(Debug)]
pub enum ConfirmAction {
    /// Ask the store whose token this is.
    ResolveToken { token: String },
    /// Ask the store to confirm this subscriber.
    ConfirmSubscriber { subscriber_id: SubscriberId },
    /// Answer the request.
    Respond(Outcome),
}

/// What an event of a confirmation holds.
pub enum ConfirmEventView {
    Requested { query: Seq<u8> },
    Resolved(Result<SubscriberId, StoreError>),
    Confirmed(Result<(), StoreError>),
}

/// What an action of a confirmation holds.
pub enum ConfirmActionView {
    ResolveToken { token: Seq<char> },
    ConfirmSubscriber { subscriber_id: SubscriberId },
    Respond(Outcome),
}

impl View for ConfirmEvent {
    type V = ConfirmEventView;

    open spec fn view(&self) -> ConfirmEventView {
        match self {
            ConfirmEvent::Requested { query } => ConfirmEventView::Requested { query: query@ },
            ConfirmEvent::Resolved(r) => ConfirmEventView::Resolved(*r),
            ConfirmEvent::Confirmed(r) => ConfirmEventView::Confirmed(*r),
        }
    }
}

impl View for ConfirmAction {
    type V = ConfirmActionView;

    open spec fn view(&self) -> ConfirmActionView {
        match self {
            ConfirmAction::ResolveToken { token } => ConfirmActionView::ResolveToken {
                token: token@,
            },
            ConfirmAction::ConfirmSubscriber { subscriber_id } => {
                ConfirmActionView::ConfirmSubscriber { subscriber_id: *subscriber_id }
            },
            ConfirmAction::Respond(outcome) => ConfirmActionView::Respond(*outcome),
        }
    }
}

/// The end of a flow: the request is answered with `outcome`.
pub open spec fn confirm_ends(outcome: Outcome) -> (ConfirmState, ConfirmActionView) {
    (ConfirmState::Finished, ConfirmActionView::Respond(outcome))
}

/// One step of a confirmation: the state that follows `state` on `event`,
/// and what is to be done next.
///
/// A request without a token, and a token that the store does not know,
/// end the flow as a bad request. Any other failure of the store ends it
/// as a server error, and so does an event that the state does not await.
pub open spec fn confirm_next(state: ConfirmState, event: ConfirmEventView) -> (
    ConfirmState,
    ConfirmActionView,
) {
    match (state, event) {
        (ConfirmState::AwaitingRequest, ConfirmEventView::Requested { query }) => {
            match token_field(form_pairs(query)) {
                Err(_) => confirm_ends(Outcome::BadRequest),
                Ok(token) => (
                    ConfirmState::AwaitingResolution,
                    ConfirmActionView::ResolveToken { token },
                ),
            }
        },
        (ConfirmState::AwaitingResolution, ConfirmEventView::Resolved(Ok(subscriber_id))) => (
            ConfirmState::AwaitingConfirmation,
            ConfirmActionView::ConfirmSubscriber { subscriber_id },
        ),
        (
            ConfirmState::AwaitingResolution,
            ConfirmEventView::Resolved(Err(StoreError::NotFound)),
        ) => confirm_ends(Outcome::BadRequest),
        (ConfirmState::AwaitingConfirmation, ConfirmEventView::Confirmed(Ok(()))) => confirm_ends(
            Outcome::Accepted,
        ),
        _ => confirm_ends(Outcome::ServerError),
    }
}

/// One step of a confirmation.
pub fn confirm_step(state: ConfirmState, event: ConfirmEvent) -> (r: (ConfirmState, ConfirmAction))
    ensures
        (r.0, r.1@) == confirm_next(state, event@),
{
    match (state, event) {
        (ConfirmState::AwaitingRequest, ConfirmEvent::Requested { query }) => {
            match Parameters::from_query(query.as_slice()) {
                Err(_) => (ConfirmState::Finished, ConfirmAction::Respond(Outcome::BadRequest)),
                Ok(parameters) => (
                    ConfirmState::AwaitingResolution,
                    ConfirmAction::ResolveToken { token: parameters.into_token() },
                ),
            }
        },
        (ConfirmState::AwaitingResolution, ConfirmEvent::Resolved(Ok(subscriber_id))) => (
            ConfirmState::AwaitingConfirmation,
            ConfirmAction::ConfirmSubscriber { subscriber_id },
        ),
        (ConfirmState::AwaitingResolution, ConfirmEvent::Resolved(Err(StoreError::NotFound))) => (
            ConfirmState::Finished,
            ConfirmAction::Respond(Outcome::BadRequest),
        ),
        (ConfirmState::AwaitingConfirmation, ConfirmEvent::Confirmed(Ok(()))) => (
            ConfirmState::Finished,
            ConfirmAction::Respond(Outcome::Accepted),
        ),
        _ => (ConfirmState::Finished, ConfirmAction::Respond(Outcome::ServerError)),
    }
}

} // verus!
