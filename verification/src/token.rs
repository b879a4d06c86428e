//! Confirmation tokens: thirty random letters and digits.
use rand::Rng;
use vstd::prelude::*;

verus! {

/// The number of characters of a confirmation token.
pub const TOKEN_LENGTH: usize = 30;

/// Whether `b` is the ASCII code of a letter or a digit.
pub open spec fn is_alphanumeric_byte(b: u8) -> bool {
    ||| 0x30 <= b <= 0x39
    ||| 0x41 <= b <= 0x5A
    ||| 0x61 <= b <= 0x7A
}

/// Whether `c` is one of `A` to `Z`, `a` to `z` and `0` to `9`.
pub open spec fn is_alphanumeric(c: char) -> bool {
    ||| '0' <= c <= '9'
    ||| 'A' <= c <= 'Z'
    ||| 'a' <= c <= 'z'
}

/// Whether `s` has the form of a confirmation token.
pub open spec fn is_token(s: Seq<char>) -> bool {
    &&& s.len() == TOKEN_LENGTH
    &&& forall|i: int| 0 <= i < s.len() ==> is_alphanumeric(#[trigger] s[i])
}

/// The text whose characters have the codes `samples`.
pub open spec fn text_of_samples(samples: Seq<u8>) -> Seq<char> {
    Seq::new(samples.len(), |i: int| samples[i] as char)
}

/// `String::push` appends one character.
pub assume_specification[ String::push ](text: &mut String, c: char)
    ensures
        final(text)@ == old(text)@.push(c),
;

/// Draws one sample of `rand::distributions::Alphanumeric` from the
/// thread's generator: the code of a letter or a digit, whichever it is.
/// `thread_rng` panics where the operating system gives it no seed.
#[verifier::external_body]
fn sample_alphanumeric() -> (sample: u8)
    ensures
        is_alphanumeric_byte(sample),
{
    rand::thread_rng().sample(rand::distributions::Alphanumeric)
}

/// The text that is made of `samples`, one character for each.
pub fn token_from_samples(samples: &Vec<u8>) -> (token: String)
    ensures
        token@ == text_of_samples(samples@),
{
    let mut token = String::new();
    let mut i: usize = 0;
    while i < samples.len()
        invariant
            i <= samples.len(),
            token@ == text_of_samples(samples@.take(i as int)),
        decreases samples.len() - i,
    {
        token.push(samples[i] as char);
        i = i + 1;
        assert(token@ =~= text_of_samples(samples@.take(i as int)));
    }
    assert(samples@.take(samples.len() as int) == samples@);
    token
}

/// Whether `text` has the form of a confirmation token.
pub fn is_subscription_token(text: &str) -> (b: bool)
    ensures
        b == is_token(text@),
{
    if text.unicode_len() != TOKEN_LENGTH {
        return false;
    }
    let mut all = true;
    for c in it: text.chars()
        invariant
            it.seq() == text@,
            all == is_token_prefix(text@, it.index() as int),
    {
        if !(('0' <= c && c <= '9') || ('A' <= c && c <= 'Z') || ('a' <= c && c <= 'z')) {
            all = false;
        }
    }
    all
}

/// Whether the first `n` characters of `s` are letters and digits.
pub open spec fn is_token_prefix(s: Seq<char>, n: int) -> bool {
    forall|i: int| 0 <= i < n ==> is_alphanumeric(#[trigger] s[i])
}

/// A new confirmation token: thirty letters and digits, each drawn at
/// random.
pub fn generate_subscription_token() -> (token: String)
    ensures
        is_token(token@),
{
    let mut samples: Vec<u8> = Vec::new();
    while samples.len() < TOKEN_LENGTH
        invariant
            samples.len() <= TOKEN_LENGTH,
            forall|i: int| 0 <= i < samples.len() ==> is_alphanumeric_byte(#[trigger] samples[i]),
        decreases TOKEN_LENGTH - samples.len(),
    {
        let sample = sample_alphanumeric();
        samples.push(sample);
    }
    let token = token_from_samples(&samples);
    proof {
        lemma_samples_make_a_token(samples@);
    }
    token
}

/// Thirty codes of letters and digits make a token.
pub proof fn lemma_samples_make_a_token(samples: Seq<u8>)
    requires
        samples.len() == TOKEN_LENGTH,
        forall|i: int| 0 <= i < samples.len() ==> is_alphanumeric_byte(#[trigger] samples[i]),
    ensures
        is_token(text_of_samples(samples)),
{
    let text = text_of_samples(samples);
    assert forall|i: int| 0 <= i < text.len() implies is_alphanumeric(#[trigger] text[i]) by {
        assert(is_alphanumeric_byte(samples[i]));
    }
}

} // verus!
