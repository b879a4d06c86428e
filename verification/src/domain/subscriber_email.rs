//! The email address of a subscriber.
use crate::domain::ValidationError;
use crate::text::{find_last_at, last_at, lemma_last_at};
use vstd::prelude::*;

verus! {

/// Whether `validator::validate_email` accepts `s`.
pub uninterp spec fn email_syntax_ok(s: Seq<char>) -> bool;

/// What stands before the last `@` of `s`.
pub open spec fn local_part(s: Seq<char>) -> Seq<char> {
    s.subrange(0, last_at(s))
}

/// What stands behind the last `@` of `s`.
pub open spec fn domain_part(s: Seq<char>) -> Seq<char> {
    s.subrange(last_at(s) + 1, s.len() as int)
}

/// Whether `s` holds an `@` with something before and something behind the
/// last one.
pub open spec fn email_shape_ok(s: Seq<char>) -> bool {
    &&& last_at(s) >= 0
    &&& local_part(s).len() > 0
    &&& domain_part(s).len() > 0
}

/// Whether an address of which the syntax check said `syntax_ok` is accepted.
pub open spec fn email_ok(s: Seq<char>, syntax_ok: bool) -> bool {
    email_shape_ok(s) && syntax_ok
}

/// Whether `s` may be a subscriber's email address.
pub open spec fn email_valid(s: Seq<char>) -> bool {
    email_ok(s, email_syntax_ok(s))
}

/// Asks `validator::validate_email` whether `value` is an email address by
/// the rules of HTML5. Nothing is proved of those rules: the answer is only
/// given its name.
#[verifier::external_body]
fn passes_email_syntax(value: &str) -> (ok: bool)
    ensures
        ok == email_syntax_ok(value@),
{
    validator::validate_email(value)
}

/// Decides whether `value`, of which the syntax check said `syntax_ok`, may
/// be an email address.
pub fn check_email(value: &str, syntax_ok: bool) -> (r: Result<(), ValidationError>)
    ensures
        r is Ok <==> email_ok(value@, syntax_ok),
        r is Err ==> r == Err::<(), ValidationError>(ValidationError::InvalidEmail),
{
    let length = value.unicode_len();
    let shape_ok = match find_last_at(value) {
        None => false,
        Some(at) => 0 < at && at < length && at + 1 < length,
    };
    proof {
        lemma_last_at(value@);
    }
    if shape_ok && syntax_ok {
        Ok(())
    } else {
        Err(ValidationError::InvalidEmail)
    }
}

/// A subscriber's email address: it holds an `@` between a local part and a
/// domain that are not empty, and passes the syntax check.
#[derive(Debug)]
pub struct SubscriberEmail(String);

impl View for SubscriberEmail {
    type V = Seq<char>;

    closed spec fn view(&self) -> Seq<char> {
        self.0@
    }
}

impl SubscriberEmail {
    #[verifier::type_invariant]
    spec fn well_formed(self) -> bool {
        email_valid(self.0@)
    }

    /// What `parse` answers for `s`.
    pub closed spec fn parsed(s: String) -> Result<SubscriberEmail, ValidationError> {
        if email_valid(s@) {
            Ok(SubscriberEmail(s))
        } else {
            Err(ValidationError::InvalidEmail)
        }
    }

    /// Accepts `s` as an email address, or refuses it with `InvalidEmail`.
    pub fn parse(s: String) -> (r: Result<SubscriberEmail, ValidationError>)
        ensures
            r == Self::parsed(s),
            email_valid(s@) ==> r is Ok && r->Ok_0@ == s@,
            !email_valid(s@) ==> r == Err::<SubscriberEmail, ValidationError>(
                ValidationError::InvalidEmail,
            ),
    {
        let syntax_ok = passes_email_syntax(s.as_str());
        match check_email(s.as_str(), syntax_ok) {
            Ok(()) => Ok(SubscriberEmail(s)),
            Err(e) => Err(e),
        }
    }

}

impl AsRef<str> for SubscriberEmail {
    /// The address as text.
    fn as_ref(&self) -> (r: &str)
        ensures
            r@ == self@,
            email_valid(r@),
    {
        proof {
            use_type_invariant(self);
        }
        self.0.as_str()
    }
}

impl TryFrom<String> for SubscriberEmail {
    type Error = ValidationError;

    /// The same as `SubscriberEmail::parse`.
    fn try_from(value: String) -> (r: Result<SubscriberEmail, ValidationError>)
        ensures
            email_valid(value@) ==> r is Ok && r->Ok_0@ == value@,
            !email_valid(value@) ==> r == Err::<SubscriberEmail, ValidationError>(
                ValidationError::InvalidEmail,
            ),
    {
        SubscriberEmail::parse(value)
    }
}

impl vstd::std_specs::convert::TryFromSpecImpl<String> for SubscriberEmail {
    open spec fn obeys_try_from_spec() -> bool {
        true
    }

    open spec fn try_from_spec(v: String) -> Result<SubscriberEmail, ValidationError> {
        SubscriberEmail::parsed(v)
    }
}

impl Clone for SubscriberEmail {
    fn clone(&self) -> (r: Self)
        ensures
            r@ == self@,
    {
        proof {
            use_type_invariant(self);
        }
        SubscriberEmail(self.0.clone())
    }
}

/// A text without an `@` is refused as an email address.
pub proof fn lemma_email_without_at_is_refused(s: String)
    requires
        !s@.contains('@'),
    ensures
        !email_valid(s@),
        SubscriberEmail::parsed(s) == Err::<SubscriberEmail, ValidationError>(
            ValidationError::InvalidEmail,
        ),
{
    lemma_last_at(s@);
}

/// A text with nothing before its last `@`, or nothing behind it, is
/// refused as an email address.
pub proof fn lemma_email_with_empty_part_is_refused(s: String)
    requires
        local_part(s@).len() == 0 || domain_part(s@).len() == 0,
    ensures
        !email_valid(s@),
        SubscriberEmail::parsed(s) == Err::<SubscriberEmail, ValidationError>(
            ValidationError::InvalidEmail,
        ),
{
}

/// A text that begins or ends with its only `@` has an empty part.
pub proof fn lemma_at_on_the_edge_leaves_an_empty_part(s: Seq<char>)
    requires
        s.len() > 0,
        s.first() == '@' && (forall|i: int| 0 < i < s.len() ==> s[i] != '@') || s.last() == '@',
    ensures
        local_part(s).len() == 0 || domain_part(s).len() == 0,
{
    lemma_last_at(s);
}

/// An address with an `@` between two parts that are not empty, which
/// passes the syntax check, is accepted as it is.
pub proof fn lemma_valid_email_is_accepted(s: String)
    requires
        email_shape_ok(s@),
        email_syntax_ok(s@),
    ensures
        SubscriberEmail::parsed(s) is Ok,
        SubscriberEmail::parsed(s)->Ok_0@ == s@,
{
}

} // verus!
