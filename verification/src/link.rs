//! Links with which users reset their credentials.
use url::Url;
use vstd::prelude::*;
use vstd::string::*;

verus! {

/// Whether a link made of a base URL, a path and a query of these lengths stays within the length
/// that the offsets of a URL can count. A character of a host can become eighteen when it is
/// normalised, each of up to ten bytes in Punycode, and any other character takes up to twelve
/// bytes when it is percent-encoded.
pub open spec fn fits(base: nat, path: nat, query: nat) -> bool {
    200 * base + 12 * (path + query) <= 0xffff_0000
}

/// Whether `Url::parse` reads a text as a URL.
pub uninterp spec fn is_url(s: Seq<char>) -> bool;

/// What a URL becomes when `Url::set_path` and then `Url::set_query` have replaced its path and its
/// query.
pub uninterp spec fn relocated(base: Seq<char>, path: Seq<char>, query: Seq<char>) -> Seq<char>;

/// Whether a character stands for itself in a query.
pub open spec fn query_safe(c: char) -> bool {
    'a' <= c <= 'z' || 'A' <= c <= 'Z' || '0' <= c <= '9' || c == '-' || c == '_' || c == '.' || c
        == '='
}

/// Whether every character stands for itself in a query.
pub open spec fn all_query_safe(s: Seq<char>) -> bool {
    forall|i: int| 0 <= i < s.len() ==> query_safe(#[trigger] s[i])
}

/// Whether a text is an `https` origin whose host is one or more words of small letters with a dot
/// between two of them.
pub open spec fn plain_origin(s: Seq<char>) -> bool {
    let n = "https://"@.len() as int;
    &&& s.len() > n
    &&& s.take(n) == "https://"@
    &&& s[n] != '.'
    &&& s.last() != '.'
    &&& forall|i: int| n <= i < s.len() ==> 'a' <= #[trigger] s[i] <= 'z' || s[i] == '.' && s[i - 1]
        != '.'
}

/// Whether a text is an absolute path of letters, digits, hyphens, underscores and slashes.
pub open spec fn plain_path(s: Seq<char>) -> bool {
    &&& s.len() > 0
    &&& s[0] == '/'
    &&& forall|i: int|
        0 <= i < s.len() ==> 'a' <= #[trigger] s[i] <= 'z' || 'A' <= s[i] <= 'Z' || '0' <= s[i]
            <= '9' || s[i] == '-' || s[i] == '_' || s[i] == '/'
}

/// Reads a URL with `Url::parse`, replaces its path with `Url::set_path` and its query with
/// `Url::set_query`, and writes it with `Url::to_string`. The calls stand together because a URL
/// that is written and read in between can be another one. Trusted: there is a result exactly if
/// the text is a URL, and it depends on the three texts alone; a plain origin, a plain path and a
/// query that needs no encoding are written one after the other, with a question mark before the
/// query; and a result for a URL without a fragment ends with a question mark and such a query. How
/// other hosts and paths are normalised is left unsaid.
#[verifier::external_body]
fn relocate(base: &str, path: &str, query: &str) -> (r: Option<String>)
    requires
        fits(base@.len(), path@.len(), query@.len()),
    ensures
        r is Some <==> is_url(base@),
        r is Some ==> r->0@ == relocated(base@, path@, query@),
        plain_origin(base@) && plain_path(path@) && all_query_safe(query@) ==> r is Some && r->0@
            == base@ + path@ + seq!['?'] + query@,
        r is Some && !base@.contains('#') && all_query_safe(query@) ==> (seq!['?']
            + query@).is_suffix_of(r->0@),
{
    let mut url = Url::parse(base).ok()?;
    url.set_path(path);
    url.set_query(Some(query));
    Some(url.to_string())
}

/// The query with which a link hands a token over.
pub open spec fn token_query(token: Seq<char>) -> Seq<char> {
    "token="@ + token
}

/// Whether a link with a token can be made of an origin and a path of these lengths.
pub open spec fn token_fits(origin: Seq<char>, path: Seq<char>, token: Seq<char>) -> bool {
    fits(origin.len(), path.len(), token.len() + 6)
}

/// Whether the link to a path of a site with a token stays within the length of a URL.
pub fn link_fits(origin: &str, path: &str, token: &str) -> (r: bool)
    ensures
        r == token_fits(origin@, path@, token@),
{
    let base: u128 = origin.unicode_len() as u128;
    let rest: u128 = path.unicode_len() as u128 + token.unicode_len() as u128 + 6;
    200 * base + 12 * rest <= 0xffff_0000
}

/// The link to the page at a path of a site, with a token; none if the origin of the site is not a
/// URL.
pub fn token_link(origin: &str, path: &str, token: &str) -> (r: Option<String>)
    requires
        token_fits(origin@, path@, token@),
    ensures
        r is Some <==> is_url(origin@),
        r is Some ==> r->0@ == relocated(origin@, path@, token_query(token@)),
        plain_origin(origin@) && plain_path(path@) && all_query_safe(token@) ==> r is Some && r->0@
            == origin@ + path@ + seq!['?'] + token_query(token@),
        r is Some && !origin@.contains('#') && all_query_safe(token@) ==> (seq!['?'] + token_query(
            token@,
        )).is_suffix_of(r->0@),
{
    let mut query: String = "token=".to_string();
    query.append(token);
    proof {
        reveal_strlit("token=");
        if all_query_safe(token@) {
            assert forall|i: int| 0 <= i < query@.len() implies query_safe(
                #[trigger] query@[i],
            ) by {
                if i >= 6 {
                    assert(query@[i] == token@[i - 6]);
                }
            }
        }
    }
    relocate(origin, path, query.as_str())
}

/// The query of a link names the token and holds it as it is, so that links with different tokens
/// have different queries.
pub proof fn law_queries_hold_their_token(a: Seq<char>, b: Seq<char>)
    ensures
        token_query(a) == "token"@ + "="@ + a,
        token_query(a) == token_query(b) ==> a == b,
{
    reveal_strlit("token=");
    reveal_strlit("token");
    reveal_strlit("=");
    assert("token="@ =~= "token"@ + "="@);
    if token_query(a) == token_query(b) {
        assert(token_query(a).skip(6) =~= a);
        assert(token_query(b).skip(6) =~= b);
    }
}

} // verus!
