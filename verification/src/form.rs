//! Form-encoded input: the pairs of a body or a query string, and the
//! fields that a request must hold exactly once.
use vstd::prelude::*;

verus! {

/// Why form-encoded input does not hold the fields that are asked for.
#[derive(Debug, Clone, Copy, PartialEq, Eq, Structural)]
pub enum FormError {
    /// A field does not occur.
    MissingField,
    /// A field occurs more than once.
    DuplicateField,
}

/// The pairs of names and values, percent-decoded and in their order, that
/// `form_urlencoded::parse` finds in `input`.
pub uninterp spec fn form_pairs(input: Seq<u8>) -> Seq<(Seq<char>, Seq<char>)>;

/// The views of `pairs`, in their order.
pub open spec fn pairs_view(pairs: Seq<(String, String)>) -> Seq<(Seq<char>, Seq<char>)> {
    Seq::new(pairs.len(), |i: int| (pairs[i].0@, pairs[i].1@))
}

/// Splits and decodes `input` with `form_urlencoded::parse`. Nothing is
/// proved of the decoding: the pairs are only given their name.
#[verifier::external_body]
pub(crate) fn parse_pairs(input: &[u8]) -> (pairs: Vec<(String, String)>)
    ensures
        pairs_view(pairs@) == form_pairs(input@),
{
    form_urlencoded::parse(input).into_owned().collect()
}

/// The value of the one pair of `pairs` that is named `name`.
pub open spec fn field_of(pairs: Seq<(Seq<char>, Seq<char>)>, name: Seq<char>) -> Result<
    Seq<char>,
    FormError,
>
    decreases pairs.len(),
{
    if pairs.len() == 0 {
        Err(FormError::MissingField)
    } else {
        let before = field_of(pairs.drop_last(), name);
        if pairs.last().0 == name {
            match before {
                Err(FormError::MissingField) => Ok(pairs.last().1),
                _ => Err(FormError::DuplicateField),
            }
        } else {
            before
        }
    }
}

/// Of two fields that are both asked for: a field that occurs twice is
/// reported before one that is missing.
pub open spec fn both_fields(
    first: Result<Seq<char>, FormError>,
    second: Result<Seq<char>, FormError>,
) -> Result<(Seq<char>, Seq<char>), FormError> {
    match (first, second) {
        (Ok(a), Ok(b)) => Ok((a, b)),
        (Err(FormError::DuplicateField), _) => Err(FormError::DuplicateField),
        (_, Err(FormError::DuplicateField)) => Err(FormError::DuplicateField),
        _ => Err(FormError::MissingField),
    }
}

/// The value of the field `name`, which must occur exactly once in `pairs`.
/// Fields of other names are passed over.
pub fn field(pairs: &Vec<(String, String)>, name: &str) -> (r: Result<String, FormError>)
    ensures
        r matches Ok(value) ==> field_of(pairs_view(pairs@), name@) == Ok::<Seq<char>, FormError>(
            value@,
        ),
        r matches Err(e) ==> field_of(pairs_view(pairs@), name@) == Err::<Seq<char>, FormError>(e),
{
    let name = String::from_str(name);
    let ghost all = pairs_view(pairs@);
    let mut found: Result<String, FormError> = Err(FormError::MissingField);
    let mut i: usize = 0;
    while i < pairs.len()
        invariant
            i <= pairs.len(),
            all == pairs_view(pairs@),
            found matches Ok(value) ==> field_of(all.take(i as int), name@) == Ok::<
                Seq<char>,
                FormError,
            >(value@),
            found matches Err(e) ==> field_of(all.take(i as int), name@) == Err::<
                Seq<char>,
                FormError,
            >(e),
        decreases pairs.len() - i,
    {
        proof {
            let next = all.take(i + 1);
            assert(next.drop_last() == all.take(i as int));
            assert(next.last() == (pairs@[i as int].0@, pairs@[i as int].1@));
        }
        if pairs[i].0 == name {
            found =
            match found {
                Err(FormError::MissingField) => Ok(pairs[i].1.clone()),
                _ => Err(FormError::DuplicateField),
            };
        }
        i = i + 1;
    }
    assert(all.take(i as int) == all);
    found
}

} // verus!
