//! The two flows that the server drives: sign-up and confirmation.
pub mod subscriptions;
pub mod subscriptions_confirm;

use vstd::prelude::*;

verus! {

/// How a request ends, as far as the one who sent it is told.
#[derive(Debug, Clone, Copy, PartialEq, Eq, Structural)]
pub enum Outcome {
    /// The request was carried out.
    Accepted,
    /// The request is at fault.
    BadRequest,
    /// The store or the mail endpoint failed.
    ServerError,
}

/// The HTTP status that tells of `outcome`.
pub open spec fn status_of(outcome: Outcome) -> u16 {
    match outcome {
        Outcome::Accepted => 200,
        Outcome::BadRequest => 400,
        Outcome::ServerError => 500,
    }
}

impl Outcome {
    /// The HTTP status that tells of this outcome.
    pub fn status_code(&self) -> (status: u16)
        ensures
            status == status_of(*self),
    {
        match self {
            Outcome::Accepted => 200,
            Outcome::BadRequest => 400,
            Outcome::ServerError => 500,
        }
    }
}

} // verus!
