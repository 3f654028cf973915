//! Kebab case for identifiers.

use vstd::prelude::*;

verus! {

/// `c` is an ASCII capital.
pub open spec fn is_upper(c: char) -> bool {
    'A' <= c <= 'Z'
}

/// `c` is a lower-case ASCII letter.
pub open spec fn is_lower(c: char) -> bool {
    'a' <= c <= 'z'
}

/// The lower-case form of an ASCII letter.
pub open spec fn lowered(c: char) -> char {
    if is_upper(c) {
        (c as u32 + 32) as char
    } else {
        c
    }
}

/// The first `n` characters of `s` are ASCII letters, and no capital directly follows another.
pub open spec fn is_camel_case(s: Seq<char>, n: nat) -> bool
    decreases n,
{
    n == 0 || {
        let c = s[n - 1];
        &&& is_camel_case(s, (n - 1) as nat)
        &&& is_upper(c) || is_lower(c)
        &&& n >= 2 ==> !(is_upper(s[n - 2]) && is_upper(c))
    }
}

/// The first `n` characters of `s` in lower case, with a hyphen before each capital but a leading
/// one.
pub open spec fn hyphenated(s: Seq<char>, n: nat) -> Seq<char>
    decreases n,
{
    if n == 0 {
        Seq::empty()
    } else {
        let head = hyphenated(s, (n - 1) as nat);
        let c = s[n - 1];
        if is_upper(c) && n >= 2 {
            head.push('-').push(lowered(c))
        } else {
            head.push(lowered(c))
        }
    }
}

/// `s` consists of lower-case ASCII letters and single hyphens between them.
pub open spec fn is_kebab_case(s: Seq<char>) -> bool {
    &&& s.len() > 0
    &&& forall|i: int|
        0 <= i < s.len() ==> is_lower(#[trigger] s[i]) || {
            &&& s[i] == '-'
            &&& 0 < i < s.len() - 1
            &&& is_lower(s[i - 1])
            &&& is_lower(s[i + 1])
        }
}

/// What is hyphenated is in kebab case.
pub proof fn law_hyphenated_is_kebab_case(s: Seq<char>, n: nat)
    requires
        0 < n <= s.len(),
        is_camel_case(s, n),
    ensures
        is_kebab_case(hyphenated(s, n)),
        is_lower(hyphenated(s, n).last()),
    decreases n,
{
    let c = s[n - 1];
    assert(is_lower(lowered(c)));
    if n == 1 {
        assert(hyphenated(s, 0) =~= Seq::empty());
    } else {
        law_hyphenated_is_kebab_case(s, (n - 1) as nat);
        let head = hyphenated(s, (n - 1) as nat);
        let whole = hyphenated(s, n);
        assert forall|i: int| 0 <= i < whole.len() implies is_lower(#[trigger] whole[i]) || {
            &&& whole[i] == '-'
            &&& 0 < i < whole.len() - 1
            &&& is_lower(whole[i - 1])
            &&& is_lower(whole[i + 1])
        } by {
            if i < head.len() {
                assert(whole[i] == head[i]);
            }
        }
    }
}

/// Without the hyphens, what is hyphenated has the letters that it is made of.
pub(crate) proof fn lemma_letters(s: Seq<char>, n: nat)
    requires
        n <= s.len(),
        is_camel_case(s, n),
    ensures
        ({
            let letters = hyphenated(s, n).filter(|c: char| c != '-');
            &&& letters.len() == n
            &&& forall|i: int| 0 <= i < n ==> letters[i] == lowered(#[trigger] s[i])
        }),
    decreases n,
{
    let letter = |c: char| c != '-';
    reveal_with_fuel(Seq::filter, 3);
    if n > 0 {
        let m = (n - 1) as nat;
        lemma_letters(s, m);
        let head = hyphenated(s, m);
        let c = s[n - 1];
        let whole = hyphenated(s, n);
        if is_upper(c) && n >= 2 {
            assert(whole.drop_last() =~= head.push('-'));
            assert(whole.drop_last().drop_last() =~= head);
        } else {
            assert(whole.drop_last() =~= head);
        }
        assert(whole.filter(letter) =~= head.filter(letter).push(lowered(c)));
    }
}

/// The first `n` characters of `s` are in camel case, and hyphenated they read as the first `m`
/// characters of `t`.
pub(crate) open spec fn hyphenates_to(s: Seq<char>, n: nat, t: Seq<char>, m: nat) -> bool
    decreases n,
{
    if n == 0 {
        m == 0
    } else if is_upper(s[n - 1]) && n >= 2 {
        &&& m >= 2
        &&& is_lower(s[n - 2])
        &&& t[m - 2] == '-'
        &&& t[m - 1] == lowered(s[n - 1])
        &&& hyphenates_to(s, (n - 1) as nat, t, (m - 2) as nat)
    } else {
        &&& m >= 1
        &&& is_upper(s[n - 1]) || is_lower(s[n - 1])
        &&& t[m - 1] == lowered(s[n - 1])
        &&& hyphenates_to(s, (n - 1) as nat, t, (m - 1) as nat)
    }
}

/// A comparison from the back establishes what `hyphenated` yields.
pub(crate) proof fn lemma_hyphenates_to(s: Seq<char>, n: nat, t: Seq<char>, m: nat)
    requires
        hyphenates_to(s, n, t, m),
        m <= t.len(),
    ensures
        is_camel_case(s, n),
        hyphenated(s, n) == t.take(m as int),
    decreases n,
{
    if n > 0 {
        if is_upper(s[n - 1]) && n >= 2 {
            lemma_hyphenates_to(s, (n - 1) as nat, t, (m - 2) as nat);
        } else {
            lemma_hyphenates_to(s, (n - 1) as nat, t, (m - 1) as nat);
        }
    }
    assert(hyphenated(s, n) =~= t.take(m as int));
}

/// Calls [`heck::ToKebabCase::to_kebab_case`] on an identifier in camel case.
///
/// Believed of it: where the identifier consists of ASCII letters and no two capitals are
/// adjacent, a new word starts at each capital, the words are joined by hyphens, and each letter
/// is lowered. Nothing is said of other input, which is not handed to it.
#[verifier::external_body]
pub(crate) fn to_kebab_case(s: &str) -> (kebab: String)
    requires
        is_camel_case(s@, s@.len()),
    ensures
        kebab@ == hyphenated(s@, s@.len()),
{
    heck::ToKebabCase::to_kebab_case(s)
}

} // verus!
