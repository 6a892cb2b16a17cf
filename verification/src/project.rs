//! What the helpers need to know of the project they act for: the values of
//! its manifest, handed over by the caller.

use crate::text::{chars_of, find_char, first_index, lemma_first_index, pieces, trim_start, trimmed_from};
use vstd::prelude::*;

verus! {

/// The prefix that a repository address is written with.
pub open spec fn https_prefix() -> Seq<char> {
    "https://"@
}

/// Whether the owner can be read off a repository address: past the leading
/// `https://` it holds a `/`.
pub open spec fn names_owner(repository: Seq<char>) -> bool {
    pieces(trim_start(repository, https_prefix()), '/').len() >= 2
}

/// The owner named by a repository address: the second of the pieces between
/// `/` that are left once the leading `https://` is gone.
pub open spec fn owner_of(repository: Seq<char>) -> Seq<char> {
    pieces(trim_start(repository, https_prefix()), '/')[1]
}

/// The first two pieces of `s` end at its first two separators.
pub proof fn lemma_second_piece(s: Seq<char>, sep: char)
    ensures
        (pieces(s, sep).len() >= 2) == (first_index(s, sep) < s.len()),
        first_index(s, sep) < s.len() ==> pieces(s, sep)[1] == ({
            let rest = s.skip(first_index(s, sep) + 1);
            rest.take(first_index(rest, sep))
        }),
{
    let i = first_index(s, sep);
    lemma_first_index(s, sep);
    if i < s.len() {
        let rest = s.skip(i + 1);
        let j = first_index(rest, sep);
        lemma_first_index(rest, sep);
        assert(pieces(s, sep) == seq![s.take(i)] + pieces(rest, sep));
        if j < rest.len() {
            assert(pieces(rest, sep) == seq![rest.take(j)] + pieces(rest.skip(j + 1), sep));
        } else {
            assert(pieces(rest, sep) == seq![rest]);
            assert(rest.take(j) =~= rest);
        }
        assert(pieces(rest, sep)[0] == rest.take(j));
    } else {
        assert(pieces(s, sep) == seq![s]);
    }
}

/// The GitHub owner of the project, read from the `repository` value of its
/// manifest; the empty string where the manifest has none.
pub fn github_owner(repository: Option<&str>) -> (owner: String)
    requires
        repository is Some ==> names_owner(repository->0@),
    ensures
        repository is Some ==> owner@ == owner_of(repository->0@),
        repository is None ==> owner@ == Seq::<char>::empty(),
{
    match repository {
        Some(address) => {
            let chars = chars_of(address);
            let prefix = chars_of("https://");
            let start = trimmed_from(&chars, &prefix);
            let first = find_char(&chars, start, '/');
            proof {
                lemma_second_piece(chars@.skip(start as int), '/');
            }
            let second = find_char(&chars, first + 1, '/');
            proof {
                let trimmed = chars@.skip(start as int);
                let rest = trimmed.skip(first - start + 1);
                assert(rest =~= chars@.skip(first + 1));
                assert(rest.take(second - first - 1) =~= address@.subrange(
                    first + 1,
                    second as int,
                ));
            }
            address.substring_char(first + 1, second).to_owned()
        },
        None => String::new(),
    }
}

} // verus!
