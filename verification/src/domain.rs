//! Validated values that the rest of the engine works with.
pub mod new_subscriber;
pub mod subscriber_email;
pub mod subscriber_name;

pub use new_subscriber::NewSubscriber;
pub use subscriber_email::SubscriberEmail;
pub use subscriber_name::SubscriberName;

use vstd::prelude::*;

verus! {

/// Why raw input was refused.
#[derive(Debug, Clone, Copy, PartialEq, Eq, Structural)]
pub enum ValidationError {
    /// The text is no acceptable email address.
    InvalidEmail,
    /// The text is no acceptable subscriber name.
    InvalidName,
}

} // verus!
