//! The rows of the two tables, and what the store's answers mean.
use crate::domain::NewSubscriber;
use vstd::prelude::*;

verus! {

/// Why the store did not do what it was asked.
#[derive(Debug, Clone, Copy, PartialEq, Eq, Structural)]
pub enum StoreError {
    /// A constraint was violated, or the store could not be reached.
    Persistence,
    /// No row matches.
    NotFound,
    /// More than one row matches where the schema allows one.
    Invariant,
}

/// The identity of a subscription: the 128 bits of a UUID.
#[derive(Debug, Clone, Copy, PartialEq, Eq, Structural)]
pub struct SubscriberId(pub u128);

/// A moment in time: whole seconds since the Unix epoch, and the
/// nanoseconds since the last whole second.
#[derive(Debug, Clone, Copy, PartialEq, Eq, Structural)]
pub struct Timestamp {
    pub seconds: i64,
    pub nanoseconds: u32,
}

/// The two states of a subscription.
#[derive(Debug, Clone, Copy, PartialEq, Eq, Structural)]
pub enum SubscriptionStatus {
    PendingConfirmation,
    Confirmed,
}

/// The text that stands for `status` in the table.
pub open spec fn status_text(status: SubscriptionStatus) -> Seq<char> {
    match status {
        SubscriptionStatus::PendingConfirmation => "pending_confirmation"@,
        SubscriptionStatus::Confirmed => "confirmed"@,
    }
}

impl SubscriptionStatus {
    /// The text that stands for this state in the table.
    pub fn as_str(&self) -> (text: &'static str)
        ensures
            text@ == status_text(*self),
    {
        match self {
            SubscriptionStatus::PendingConfirmation => "pending_confirmation",
            SubscriptionStatus::Confirmed => "confirmed",
        }
    }
}

/// One row of the table of subscriptions.
#[derive(Debug)]
pub struct Subscription {
    pub id: SubscriberId,
    pub email: String,
    pub name: String,
    pub subscribed_at: Timestamp,
    pub status: SubscriptionStatus,
}

/// What a row of the table of subscriptions holds.
pub struct SubscriptionView {
    pub id: SubscriberId,
    pub email: Seq<char>,
    pub name: Seq<char>,
    pub subscribed_at: Timestamp,
    pub status: SubscriptionStatus,
}

impl View for Subscription {
    type V = SubscriptionView;

    open spec fn view(&self) -> SubscriptionView {
        SubscriptionView {
            id: self.id,
            email: self.email@,
            name: self.name@,
            subscribed_at: self.subscribed_at,
            status: self.status,
        }
    }
}

/// One row of the table of tokens.
#[derive(Debug)]
pub struct SubscriptionToken {
    pub token: String,
    pub subscriber_id: SubscriberId,
}

/// What a row of the table of tokens holds.
pub struct TokenView {
    pub token: Seq<char>,
    pub subscriber_id: SubscriberId,
}

impl View for SubscriptionToken {
    type V = TokenView;

    open spec fn view(&self) -> TokenView {
        TokenView { token: self.token@, subscriber_id: self.subscriber_id }
    }
}

/// Whether `id` has the version and variant bits of a random UUID.
pub open spec fn is_random_uuid(id: u128) -> bool {
    &&& (id >> 76) & 0xF == 4
    &&& (id >> 62) & 0x3 == 2
}

/// Draws an identity with `Uuid::new_v4` and hands out its 128 bits. The
/// contract states the version and variant bits that `new_v4` sets; the
/// other bits are random. `new_v4` panics where the operating system gives
/// no random bytes.
#[verifier::external_body]
fn random_uuid() -> (id: u128)
    ensures
        is_random_uuid(id),
{
    uuid::Uuid::new_v4().as_u128()
}

/// Reads the clock with `Utc::now` and hands out the seconds and
/// nanoseconds of the moment. Nothing is promised of the moment. `Utc::now`
/// panics where the system clock stands before the Unix epoch.
#[verifier::external_body]
fn utc_now() -> (now: Timestamp) {
    let now = chrono::Utc::now();
    Timestamp { seconds: now.timestamp(), nanoseconds: now.timestamp_subsec_nanos() }
}

/// The row that a sign-up of `email` and `name` creates.
pub open spec fn pending_row(
    id: SubscriberId,
    email: Seq<char>,
    name: Seq<char>,
    subscribed_at: Timestamp,
) -> SubscriptionView {
    SubscriptionView {
        id,
        email,
        name,
        subscribed_at,
        status: SubscriptionStatus::PendingConfirmation,
    }
}

impl Subscription {
    /// The row of a new subscriber with a given identity and time of
    /// sign-up: it awaits confirmation.
    pub fn pending(new_subscriber: &NewSubscriber, id: SubscriberId, subscribed_at: Timestamp) -> (row:
        Subscription)
        ensures
            row@ == pending_row(id, new_subscriber.email@, new_subscriber.name@, subscribed_at),
    {
        Subscription {
            id,
            email: String::from_str(new_subscriber.email.as_ref()),
            name: String::from_str(new_subscriber.name.as_ref()),
            subscribed_at,
            status: SubscriptionStatus::PendingConfirmation,
        }
    }

    /// The row of a new subscriber, with a fresh identity, as of now.
    pub fn create(new_subscriber: &NewSubscriber) -> (row: Subscription)
        ensures
            is_random_uuid(row.id.0),
            row@ == pending_row(
                row.id,
                new_subscriber.email@,
                new_subscriber.name@,
                row.subscribed_at,
            ),
    {
        let id = SubscriberId(random_uuid());
        let now = utc_now();
        Subscription::pending(new_subscriber, id, now)
    }
}

/// What an update that changed `rows_affected` rows means for a
/// confirmation.
pub open spec fn confirm_verdict(rows_affected: nat) -> Result<(), StoreError> {
    if rows_affected == 0 {
        Err(StoreError::NotFound)
    } else if rows_affected == 1 {
        Ok(())
    } else {
        Err(StoreError::Invariant)
    }
}

/// Judges the update that confirms a subscriber by the number of rows that
/// it changed: exactly one is a success.
pub fn confirm_outcome(rows_affected: u64) -> (r: Result<(), StoreError>)
    ensures
        r == confirm_verdict(rows_affected as nat),
{
    if rows_affected == 0 {
        Err(StoreError::NotFound)
    } else if rows_affected == 1 {
        Ok(())
    } else {
        Err(StoreError::Invariant)
    }
}

/// What the lookup of a token that found `found` means.
pub open spec fn resolve_verdict(found: Option<SubscriberId>) -> Result<SubscriberId, StoreError> {
    match found {
        Some(id) => Ok(id),
        None => Err(StoreError::NotFound),
    }
}

/// Judges the lookup of a token by the row that it found, if any.
pub fn resolve_outcome(found: Option<SubscriberId>) -> (r: Result<SubscriberId, StoreError>)
    ensures
        r == resolve_verdict(found),
{
    match found {
        Some(id) => Ok(id),
        None => Err(StoreError::NotFound),
    }
}

} // verus!
