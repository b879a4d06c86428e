//! Character classes and scans over text that the domain rules are stated with.
use vstd::prelude::*;

verus! {

/// Whether `c` has the Unicode property `White_Space`.
pub open spec fn is_whitespace(c: char) -> bool {
    let n = c as u32;
    ||| 0x09 <= n <= 0x0D
    ||| n == 0x20
    ||| n == 0x85
    ||| n == 0xA0
    ||| n == 0x1680
    ||| 0x2000 <= n <= 0x200A
    ||| n == 0x2028
    ||| n == 0x2029
    ||| n == 0x202F
    ||| n == 0x205F
    ||| n == 0x3000
}

/// Whether `s` is empty or holds whitespace only.
pub open spec fn is_blank(s: Seq<char>) -> bool {
    forall|i: int| 0 <= i < s.len() ==> is_whitespace(#[trigger] s[i])
}

/// Whether `c` is among `/ ( ) " < > \ { }`, which no subscriber name may hold.
pub open spec fn is_forbidden(c: char) -> bool {
    c == '/' || c == '(' || c == ')' || c == '"' || c == '<' || c == '>' || c == '\\' || c == '{'
        || c == '}'
}

/// Whether some character of `s` is forbidden in a name.
pub open spec fn has_forbidden(s: Seq<char>) -> bool {
    exists|i: int| 0 <= i < s.len() && is_forbidden(#[trigger] s[i])
}

/// The position of the last `@` in `s`, or -1 where `s` holds none.
pub open spec fn last_at(s: Seq<char>) -> int
    decreases s.len(),
{
    if s.len() == 0 {
        -1
    } else if s.last() == '@' {
        s.len() - 1
    } else {
        last_at(s.drop_last())
    }
}

/// `last_at` finds an `@`, and none stands behind it.
pub proof fn lemma_last_at(s: Seq<char>)
    ensures
        -1 <= last_at(s) < s.len(),
        last_at(s) >= 0 ==> s[last_at(s)] == '@',
        forall|i: int| last_at(s) < i < s.len() ==> s[i] != '@',
    decreases s.len(),
{
    if s.len() > 0 && s.last() != '@' {
        lemma_last_at(s.drop_last());
        assert forall|i: int| last_at(s) < i < s.len() implies s[i] != '@' by {
            if i < s.len() - 1 {
                assert(s.drop_last()[i] == s[i]);
            }
        }
    }
}

/// The first `n + 1` characters are blank where the first `n` are and the
/// one behind them is whitespace.
pub proof fn lemma_is_blank_step(s: Seq<char>, n: int)
    requires
        0 <= n < s.len(),
    ensures
        is_blank(s.take(n + 1)) <==> is_blank(s.take(n)) && is_whitespace(s[n]),
{
    let before = s.take(n);
    let after = s.take(n + 1);
    assert(after[n] == s[n]);
    assert(forall|i: int| 0 <= i < n ==> before[i] == after[i]);
    if !is_blank(before) {
        let i = choose|i: int| 0 <= i < before.len() && !is_whitespace(#[trigger] before[i]);
        assert(!is_whitespace(after[i]));
    }
}

/// Among the first `n + 1` characters one is forbidden where one of the
/// first `n` is, or the one behind them.
pub proof fn lemma_has_forbidden_step(s: Seq<char>, n: int)
    requires
        0 <= n < s.len(),
    ensures
        has_forbidden(s.take(n + 1)) <==> has_forbidden(s.take(n)) || is_forbidden(s[n]),
{
    let before = s.take(n);
    let after = s.take(n + 1);
    assert(after[n] == s[n]);
    assert(forall|i: int| 0 <= i < n ==> before[i] == after[i]);
    if has_forbidden(before) {
        let i = choose|i: int| 0 <= i < before.len() && is_forbidden(#[trigger] before[i]);
        assert(is_forbidden(after[i]));
    }
    if has_forbidden(after) && !is_forbidden(s[n]) {
        let i = choose|i: int| 0 <= i < after.len() && is_forbidden(#[trigger] after[i]);
        assert(is_forbidden(before[i]));
    }
}

/// Whether `c` is whitespace.
pub fn char_is_whitespace(c: char) -> (b: bool)
    ensures
        b == is_whitespace(c),
{
    let n: u32 = c as u32;
    (0x09 <= n && n <= 0x0D) || n == 0x20 || n == 0x85 || n == 0xA0 || n == 0x1680 || (0x2000 <= n
        && n <= 0x200A) || n == 0x2028 || n == 0x2029 || n == 0x202F || n == 0x205F || n == 0x3000
}

/// Whether `c` is forbidden in a name.
pub fn char_is_forbidden(c: char) -> (b: bool)
    ensures
        b == is_forbidden(c),
{
    c == '/' || c == '(' || c == ')' || c == '"' || c == '<' || c == '>' || c == '\\' || c == '{'
        || c == '}'
}

/// Whether `value` is empty or holds whitespace only.
pub fn text_is_blank(value: &str) -> (blank: bool)
    ensures
        blank == is_blank(value@),
{
    let mut blank = true;
    for c in it: value.chars()
        invariant
            it.seq() == value@,
            blank == is_blank(value@.take(it.index() as int)),
    {
        proof {
            lemma_is_blank_step(value@, it.index() as int);
        }
        if !char_is_whitespace(c) {
            blank = false;
        }
    }
    assert(value@.take(value@.len() as int) == value@);
    blank
}

/// Whether `value` holds a character that is forbidden in a name.
pub fn text_has_forbidden(value: &str) -> (found: bool)
    ensures
        found == has_forbidden(value@),
{
    let mut found = false;
    for c in it: value.chars()
        invariant
            it.seq() == value@,
            found == has_forbidden(value@.take(it.index() as int)),
    {
        proof {
            lemma_has_forbidden_step(value@, it.index() as int);
        }
        if char_is_forbidden(c) {
            found = true;
        }
    }
    assert(value@.take(value@.len() as int) == value@);
    found
}

/// The position of the last `@` in `value`, counted in characters.
pub fn find_last_at(value: &str) -> (found: Option<usize>)
    ensures
        found is None <==> last_at(value@) == -1,
        found matches Some(i) ==> i as int == last_at(value@),
{
    let length = value.unicode_len();
    let mut found: Option<usize> = None;
    let mut index: usize = 0;
    for c in it: value.chars()
        invariant
            it.seq() == value@,
            length == value@.len(),
            index == it.index(),
            found is None <==> last_at(value@.take(index as int)) == -1,
            found matches Some(i) ==> i as int == last_at(value@.take(index as int)),
    {
        proof {
            let n = index as int;
            let after = value@.take(n + 1);
            assert(after.last() == c);
            assert(after.drop_last() == value@.take(n));
            lemma_last_at(value@.take(n));
        }
        if c == '@' {
            found = Some(index);
        }
        index = index + 1;
    }
    assert(value@.take(value@.len() as int) == value@);
    found
}

} // verus!
