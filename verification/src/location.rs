//! Building the locations that the provider publishes or redirects to.

use vstd::prelude::*;

verus! {

/// What resolving `reference` against the absolute URL written as `base`
/// gives: the resolved URL as text, or `None` where `base` is no absolute URL
/// or the reference cannot be resolved against it.
pub uninterp spec fn url_join(base: Seq<char>, reference: Seq<char>) -> Option<Seq<char>>;

/// Resolves `reference` against `base`.
///
/// Trusted: the body parses `base` with `url::Url::parse`, resolves
/// `reference` with `url::Url::join` and hands back the text of the result.
/// Both report a failure as an error and do not panic; the result depends on
/// the two texts alone, which is all that the contract claims by naming it.
#[verifier::external_body]
pub(crate) fn join(base: &str, reference: &str) -> (r: Option<String>)
    ensures
        r.deep_view() == url_join(base@, reference@),
{
    match url::Url::parse(base) {
        Ok(parsed) => match parsed.join(reference) {
            Ok(joined) => Some(String::from(joined)),
            Err(_) => None,
        },
        Err(_) => None,
    }
}

/// Whether `uri` already carries a query part.
pub open spec fn has_query(uri: Seq<char>) -> bool {
    uri.contains('?')
}

/// `uri` with the `state` parameter appended as its last query parameter, the
/// value of `state` character for character; `uri` itself where there is no
/// state.
pub open spec fn with_state(uri: Seq<char>, state: Option<Seq<char>>) -> Seq<char> {
    match state {
        None => uri,
        Some(value) => if has_query(uri) {
            uri + "&state="@ + value
        } else {
            uri + "?state="@ + value
        },
    }
}

/// Tells whether `uri` holds a question mark.
pub fn contains_query(uri: &str) -> (r: bool)
    ensures
        r == has_query(uri@),
{
    let mut found = false;
    for c in it: uri.chars()
        invariant
            it.seq() == uri@,
            found == uri@.take(it.index()).contains('?'),
    {
        proof {
            let n = it.index();
            assert(uri@.take(n + 1) =~= uri@.take(n).push(c));
            if uri@.take(n).contains('?') {
                let k = choose|k: int| 0 <= k < n && uri@.take(n)[k] == '?';
                assert(uri@.take(n + 1)[k] == '?');
            }
            if c == '?' {
                assert(uri@.take(n + 1)[n] == '?');
            }
        }
        if c == '?' {
            found = true;
        }
    }
    assert(uri@.take(uri@.len() as int) =~= uri@);
    found
}

/// Appends the `state` parameter to `uri`, unchanged, after `?`, or after `&`
/// where `uri` has a query already.
pub fn append_state(uri: &str, state: &Option<String>) -> (r: String)
    ensures
        r@ == with_state(uri@, state.deep_view()),
{
    let mut location = uri.to_owned();
    match state {
        None => {},
        Some(value) => {
            if contains_query(uri) {
                location.append("&state=");
            } else {
                location.append("?state=");
            }
            location.append(value.as_str());
        },
    }
    location
}

} // verus!
