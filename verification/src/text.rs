//! Strings as sequences of characters.

use vstd::prelude::*;
use vstd::string::StringExecFns;

verus! {

/// The characters of `s`, in order.
pub fn chars_of(s: &str) -> (chars: Vec<char>)
    ensures
        chars@ == s@,
{
    let mut chars: Vec<char> = Vec::new();
    for c in it: s.chars()
        invariant
            it.seq() == s@,
            chars@ == s@.take(it.index() as int),
    {
        chars.push(c);
    }
    chars
}

/// Whether two strings hold the same characters.
pub fn str_eq(a: &str, b: &str) -> (same: bool)
    ensures
        same == (a@ == b@),
{
    // Equality is specified for `String`, not for `str`.
    let left: String = a.to_owned();
    let right: String = b.to_owned();
    left == right
}

/// The lowercase form of a text, as the standard library computes it.
pub uninterp spec fn lowercased(text: Seq<char>) -> Seq<char>;

/// Calls `str::to_lowercase`, which returns the lowercase equivalent of the
/// text: `lowercased` of it.
#[verifier::external_body]
pub(crate) fn to_lowercase(text: &str) -> (lower: String)
    ensures
        lower@ == lowercased(text@),
{
    text.to_lowercase()
}

/// Whether an answer means yes: in lower case it is `y`.
pub open spec fn means_yes(answer: Seq<char>) -> bool {
    lowercased(answer) == "y"@
}

/// Whether an answer means yes.
pub fn is_yes(answer: &str) -> (yes: bool)
    ensures
        yes == means_yes(answer@),
{
    let lower = to_lowercase(answer);
    str_eq(lower.as_str(), "y")
}

/// The texts of a list of strings.
pub open spec fn string_views(strings: Seq<String>) -> Seq<Seq<char>> {
    strings.map_values(|string: String| string@)
}

/// `first` followed by `second`.
pub fn join(first: &str, second: &str) -> (joined: String)
    ensures
        joined@ == first@ + second@,
{
    let mut joined = String::from_str(first);
    joined.append(second);
    joined
}

/// The index of the first `c` in `s`, or the length of `s` where it holds none.
pub open spec fn first_index(s: Seq<char>, c: char) -> int
    decreases s.len(),
{
    if s.len() == 0 || s[0] == c {
        0
    } else {
        1 + first_index(s.skip(1), c)
    }
}

/// `first_index` stays inside the sequence, passes over no `c`, and stops on one.
pub proof fn lemma_first_index(s: Seq<char>, c: char)
    ensures
        0 <= first_index(s, c) <= s.len(),
        forall|j: int| 0 <= j < first_index(s, c) ==> s[j] != c,
        first_index(s, c) < s.len() ==> s[first_index(s, c)] == c,
    decreases s.len(),
{
    if s.len() == 0 || s[0] == c {
    } else {
        lemma_first_index(s.skip(1), c);
        assert forall|j: int| 0 <= j < first_index(s, c) implies s[j] != c by {
            if j > 0 {
                assert(s[j] == s.skip(1)[j - 1]);
            }
        }
    }
}

/// The position of the first `c` at or after `from`, or the length of `chars`.
pub fn find_char(chars: &Vec<char>, from: usize, c: char) -> (at: usize)
    requires
        from <= chars.len(),
    ensures
        at == from + first_index(chars@.skip(from as int), c),
        from <= at <= chars.len(),
{
    let mut at: usize = from;
    while at < chars.len() && chars[at] != c
        invariant
            from <= at <= chars.len(),
            first_index(chars@.skip(from as int), c) == (at - from) + first_index(
                chars@.skip(at as int),
                c,
            ),
        decreases chars.len() - at,
    {
        proof {
            assert(chars@.skip(at as int).skip(1) =~= chars@.skip(at + 1));
        }
        at = at + 1;
    }
    at
}

/// The pieces of `s` that lie between occurrences of `sep`: one more than `s`
/// holds separators.
pub open spec fn pieces(s: Seq<char>, sep: char) -> Seq<Seq<char>>
    decreases s.len(),
{
    let i = first_index(s, sep);
    if 0 <= i < s.len() {
        seq![s.take(i)] + pieces(s.skip(i + 1), sep)
    } else {
        seq![s]
    }
}

/// `s` without the copies of `prefix` that it starts with.
pub open spec fn trim_start(s: Seq<char>, prefix: Seq<char>) -> Seq<char>
    decreases s.len(),
{
    if prefix.len() > 0 && prefix.is_prefix_of(s) {
        trim_start(s.skip(prefix.len() as int), prefix)
    } else {
        s
    }
}

/// Whether `prefix` stands in `chars` at position `at`.
pub fn has_prefix_at(chars: &Vec<char>, at: usize, prefix: &Vec<char>) -> (found: bool)
    requires
        at <= chars.len(),
    ensures
        found == prefix@.is_prefix_of(chars@.skip(at as int)),
{
    if prefix.len() > chars.len() - at {
        return false;
    }
    let mut k: usize = 0;
    while k < prefix.len()
        invariant
            at <= chars.len(),
            prefix.len() <= chars.len() - at,
            k <= prefix.len(),
            forall|j: int| 0 <= j < k ==> prefix@[j] == chars@[at + j],
        decreases prefix.len() - k,
    {
        if prefix[k] != chars[at + k] {
            proof {
                let rest = chars@.skip(at as int);
                assert(rest[k as int] == chars@[at + k]);
                if prefix@.is_prefix_of(rest) {
                    assert(rest.subrange(0, prefix@.len() as int)[k as int] == prefix@[k as int]);
                }
            }
            return false;
        }
        k = k + 1;
    }
    proof {
        let rest = chars@.skip(at as int);
        assert(rest.subrange(0, prefix@.len() as int) =~= prefix@);
    }
    true
}

/// The position in `chars` where `trim_start` would begin its result.
pub fn trimmed_from(chars: &Vec<char>, prefix: &Vec<char>) -> (at: usize)
    ensures
        at <= chars.len(),
        chars@.skip(at as int) == trim_start(chars@, prefix@),
{
    let mut at: usize = 0;
    if prefix.len() == 0 {
        proof {
            assert(chars@.skip(0) =~= chars@);
        }
        return at;
    }
    proof {
        assert(chars@.skip(0) =~= chars@);
    }
    while has_prefix_at(chars, at, prefix)
        invariant
            prefix.len() > 0,
            at <= chars.len(),
            trim_start(chars@, prefix@) == trim_start(chars@.skip(at as int), prefix@),
        decreases chars.len() - at,
    {
        proof {
            assert(chars@.skip(at as int).skip(prefix@.len() as int) =~= chars@.skip(
                at + prefix@.len(),
            ));
        }
        at = at + prefix.len();
    }
    at
}

} // verus!
