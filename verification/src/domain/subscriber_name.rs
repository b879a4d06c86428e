//! The name of a subscriber.
use crate::domain::ValidationError;
use crate::text::{
    has_forbidden, is_blank, is_forbidden, is_whitespace, text_has_forbidden, text_is_blank,
};
use unicode_segmentation::UnicodeSegmentation;
use vstd::prelude::*;

verus! {

/// The most grapheme clusters a name may have.
pub const MAX_NAME_GRAPHEMES: usize = 256;

/// The number of extended grapheme clusters that `s` is made of.
pub uninterp spec fn grapheme_count(s: Seq<char>) -> nat;

/// Whether a text with `graphemes` grapheme clusters may be a name: it is not
/// blank, not longer than the limit, and free of forbidden characters.
pub open spec fn name_ok(s: Seq<char>, graphemes: nat) -> bool {
    &&& !is_blank(s)
    &&& graphemes <= MAX_NAME_GRAPHEMES
    &&& !has_forbidden(s)
}

/// Whether `s` may be a subscriber name.
pub open spec fn name_valid(s: Seq<char>) -> bool {
    name_ok(s, grapheme_count(s))
}

/// Counts with `UnicodeSegmentation::graphemes` the extended grapheme
/// clusters of `value`. Nothing is proved of the segmentation itself: the
/// count is only given its name.
#[verifier::external_body]
fn count_graphemes(value: &str) -> (count: usize)
    ensures
        count as nat == grapheme_count(value@),
{
    value.graphemes(true).count()
}

/// Decides whether `value`, which has `graphemes` grapheme clusters, may be
/// a name.
pub fn check_name(value: &str, graphemes: usize) -> (r: Result<(), ValidationError>)
    ensures
        r is Ok <==> name_ok(value@, graphemes as nat),
        r is Err ==> r == Err::<(), ValidationError>(ValidationError::InvalidName),
{
    let blank = text_is_blank(value);
    let too_long = graphemes > MAX_NAME_GRAPHEMES;
    let forbidden = text_has_forbidden(value);
    if blank || too_long || forbidden {
        Err(ValidationError::InvalidName)
    } else {
        Ok(())
    }
}

/// A subscriber's name: not blank, at most 256 grapheme clusters, and
/// without any of `/ ( ) " < > \ { }`.
#[derive(Debug)]
pub struct SubscriberName(String);

impl View for SubscriberName {
    type V = Seq<char>;

    closed spec fn view(&self) -> Seq<char> {
        self.0@
    }
}

impl SubscriberName {
    #[verifier::type_invariant]
    spec fn well_formed(self) -> bool {
        name_valid(self.0@)
    }

    /// What `parse` answers for `s`.
    pub closed spec fn parsed(s: String) -> Result<SubscriberName, ValidationError> {
        if name_valid(s@) {
            Ok(SubscriberName(s))
        } else {
            Err(ValidationError::InvalidName)
        }
    }

    /// Accepts `s` as a name, or refuses it with `InvalidName`.
    pub fn parse(s: String) -> (r: Result<SubscriberName, ValidationError>)
        ensures
            r == Self::parsed(s),
            name_valid(s@) ==> r is Ok && r->Ok_0@ == s@,
            !name_valid(s@) ==> r == Err::<SubscriberName, ValidationError>(
                ValidationError::InvalidName,
            ),
    {
        let graphemes = count_graphemes(s.as_str());
        match check_name(s.as_str(), graphemes) {
            Ok(()) => Ok(SubscriberName(s)),
            Err(e) => Err(e),
        }
    }

}

impl AsRef<str> for SubscriberName {
    /// The name as text.
    fn as_ref(&self) -> (r: &str)
        ensures
            r@ == self@,
            name_valid(r@),
    {
        proof {
            use_type_invariant(self);
        }
        self.0.as_str()
    }
}

impl TryFrom<String> for SubscriberName {
    type Error = ValidationError;

    /// The same as `SubscriberName::parse`.
    fn try_from(value: String) -> (r: Result<SubscriberName, ValidationError>)
        ensures
            name_valid(value@) ==> r is Ok && r->Ok_0@ == value@,
            !name_valid(value@) ==> r == Err::<SubscriberName, ValidationError>(
                ValidationError::InvalidName,
            ),
    {
        SubscriberName::parse(value)
    }
}

impl vstd::std_specs::convert::TryFromSpecImpl<String> for SubscriberName {
    open spec fn obeys_try_from_spec() -> bool {
        true
    }

    open spec fn try_from_spec(v: String) -> Result<SubscriberName, ValidationError> {
        SubscriberName::parsed(v)
    }
}

impl Clone for SubscriberName {
    fn clone(&self) -> (r: Self)
        ensures
            r@ == self@,
    {
        proof {
            use_type_invariant(self);
        }
        SubscriberName(self.0.clone())
    }
}

/// A text of more than 256 grapheme clusters is refused as a name.
pub proof fn lemma_long_name_is_refused(s: String)
    requires
        grapheme_count(s@) > MAX_NAME_GRAPHEMES,
    ensures
        !name_valid(s@),
        SubscriberName::parsed(s) == Err::<SubscriberName, ValidationError>(
            ValidationError::InvalidName,
        ),
{
}

/// A text of exactly 256 grapheme clusters is accepted as a name, unless it
/// is blank or holds a forbidden character.
pub proof fn lemma_name_of_full_length_is_accepted(s: String)
    requires
        grapheme_count(s@) == MAX_NAME_GRAPHEMES,
        !is_blank(s@),
        !has_forbidden(s@),
    ensures
        name_valid(s@),
        SubscriberName::parsed(s) is Ok,
        SubscriberName::parsed(s)->Ok_0@ == s@,
{
}

/// A text that holds one of `/ ( ) " < > \ { }` is refused as a name.
pub proof fn lemma_forbidden_character_is_refused(s: String, i: int)
    requires
        0 <= i < s@.len(),
        is_forbidden(s@[i]),
    ensures
        !name_valid(s@),
        SubscriberName::parsed(s) == Err::<SubscriberName, ValidationError>(
            ValidationError::InvalidName,
        ),
{
}

/// A text that is empty or holds whitespace only is refused as a name.
pub proof fn lemma_blank_name_is_refused(s: String)
    requires
        s@.len() == 0 || forall|i: int| 0 <= i < s@.len() ==> is_whitespace(#[trigger] s@[i]),
    ensures
        !name_valid(s@),
        SubscriberName::parsed(s) == Err::<SubscriberName, ValidationError>(
            ValidationError::InvalidName,
        ),
{
}

} // verus!
