//! The address of the completion endpoint under a configured base address.

use crate::text::{ends_with, is_suffix};
use vstd::prelude::*;

verus! {

/// The path of the completion endpoint below the base address.
pub open spec fn completions_path() -> Seq<char> {
    "chat/completions"@
}

/// `s` without the separators it ends with.
pub open spec fn without_trailing_separators(s: Seq<char>) -> Seq<char>
    decreases s.len(),
{
    if s.len() > 0 && s.last() == '/' {
        without_trailing_separators(s.drop_last())
    } else {
        s
    }
}

/// `s` ending with exactly one separator.
pub open spec fn with_one_separator(s: Seq<char>) -> Seq<char> {
    without_trailing_separators(s).push('/')
}

/// The endpoint's address under `base`: the base ending with exactly one
/// separator, followed by the completions path unless the base already ends
/// with that path and a separator.
pub open spec fn endpoint_of(base: Seq<char>) -> Seq<char> {
    let separated = with_one_separator(base);
    if is_suffix(completions_path().push('/'), separated) {
        separated
    } else {
        separated + completions_path()
    }
}

/// The address of the completion endpoint under `base`.
pub fn completion_endpoint(base: &str) -> (url: String)
    ensures
        url@ == endpoint_of(base@),
{
    let mut n = base.unicode_len();
    assert(base@.subrange(0, n as int) =~= base@);
    while n > 0 && base.get_char(n - 1) == '/'
        invariant
            n <= base@.len(),
            without_trailing_separators(base@) == without_trailing_separators(
                base@.subrange(0, n as int),
            ),
        decreases n,
    {
        assert(base@.subrange(0, n as int).drop_last() =~= base@.subrange(0, n as int - 1));
        n -= 1;
    }
    let mut url = base.substring_char(0, n).to_owned();
    url.append("/");
    proof {
        reveal_strlit("/");
        reveal_strlit("chat/completions/");
        reveal_strlit("chat/completions");
        assert(url@ =~= with_one_separator(base@));
        assert("chat/completions/"@ =~= completions_path().push('/'));
    }
    if ends_with(url.as_str(), "chat/completions/") {
        url
    } else {
        url.append("chat/completions");
        url
    }
}

/// What is left after the trailing separators are gone ends with none, so
/// that the base with one separator ends with exactly one.
pub proof fn lemma_exactly_one_separator(s: Seq<char>)
    ensures
        without_trailing_separators(s).len() == 0 || without_trailing_separators(s).last() != '/',
        with_one_separator(s).last() == '/',
        with_one_separator(s).len() == 1 || with_one_separator(s)[with_one_separator(s).len() - 2]
            != '/',
    decreases s.len(),
{
    if s.len() > 0 && s.last() == '/' {
        lemma_exactly_one_separator(s.drop_last());
    }
}

/// A base that does not end with a separator, nor with the completions path,
/// gets a separator and the path.
pub proof fn lemma_endpoint_appends_path(base: Seq<char>)
    requires
        base.len() == 0 || base.last() != '/',
        !is_suffix(completions_path(), base),
    ensures
        endpoint_of(base) == base.push('/') + completions_path(),
{
    let path = completions_path();
    let separated = base.push('/');
    if is_suffix(path.push('/'), separated) {
        assert(separated.subrange(separated.len() - path.len() - 1, separated.len() as int)
            == path.push('/'));
        assert(base.subrange(base.len() - path.len(), base.len() as int) =~= path.push(
            '/',
        ).drop_last());
        assert(path.push('/').drop_last() =~= path);
    }
}

/// A base that ends with the completions path and one separator is left as
/// it is: the path is not appended a second time.
pub proof fn lemma_endpoint_keeps_named_path(base: Seq<char>)
    requires
        is_suffix(completions_path().push('/'), base),
    ensures
        endpoint_of(base) == base,
{
    reveal_strlit("chat/completions");
    let path = completions_path();
    let tail = base.subrange(base.len() - path.len() - 1, base.len() as int);
    assert(tail == path.push('/'));
    assert(base.last() == tail[path.len() as int]);
    assert(base.drop_last().last() == tail[path.len() - 1]);
    assert(without_trailing_separators(base.drop_last()) == base.drop_last());
    assert(base.drop_last().push('/') =~= base);
}

/// Normalizing twice adds at most the separator to what normalizing once
/// gives, and nothing where the base already named the completions path;
/// from the second time on nothing changes any more.
pub proof fn lemma_endpoint_settles(base: Seq<char>)
    ensures
        ({
            let once = endpoint_of(base);
            let twice = endpoint_of(once);
            &&& twice == once || twice == once.push('/')
            &&& is_suffix(completions_path().push('/'), with_one_separator(base)) ==> twice == once
            &&& endpoint_of(twice) == twice
        }),
{
    reveal_strlit("chat/completions");
    let path = completions_path();
    let once = endpoint_of(base);
    let separated = with_one_separator(base);
    if is_suffix(path.push('/'), separated) {
        lemma_endpoint_keeps_named_path(once);
    } else {
        assert(once.last() == path.last());
        assert(without_trailing_separators(once) == once);
        let slashed = once.push('/');
        assert(slashed.subrange(slashed.len() - path.len() - 1, slashed.len() as int) =~= path.push(
            '/',
        ));
        assert(endpoint_of(once) == slashed);
        lemma_endpoint_keeps_named_path(slashed);
    }
}

} // verus!
