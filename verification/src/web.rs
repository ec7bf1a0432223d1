//! Serving the embedded web interface: which asset a path names and the
//! content type it is sent with.
use vstd::prelude::*;
use crate::text::{chars_of, occurs_at, starts_with, str_eq, string_of};

verus! {

/// The content type `mime_guess` assigns to a path by its extension,
/// `application/octet-stream` when it knows none.
pub uninterp spec fn guessed_mime(path: Seq<char>) -> Seq<char>;

/// Guesses a content type from a path's extension
/// (`mime_guess::from_path(..).first_or_octet_stream()`). Claims that the
/// result is a function of the path.
#[verifier::external_body]
fn guess_mime(path: &str) -> (r: String)
    ensures
        r@ == guessed_mime(path@),
{
    mime_guess::from_path(path).first_or_octet_stream().to_string()
}

/// What a request path outside the API is answered with.
#[derive(Debug, Clone)]
pub enum StaticTarget {
    /// Paths under `api/` that no route took: 404.
    NotFound,
    /// The embedded file of that name; the index page when `is_index`.
    Asset { name: String, is_index: bool },
}

/// `s` without its leading slashes (`str::trim_start_matches('/')`).
pub open spec fn without_leading_slashes(s: Seq<char>) -> Seq<char>
    decreases s.len(),
{
    if s.len() > 0 && s[0] == '/' {
        without_leading_slashes(s.drop_first())
    } else {
        s
    }
}

/// The asset a request path names: the path without leading slashes; the
/// index page for the root and for `index.html`; nothing under `api/`.
pub open spec fn static_target_of(path: Seq<char>) -> Option<(Seq<char>, bool)> {
    let p = without_leading_slashes(path);
    if occurs_at(p, 0, "api/"@) {
        None
    } else if p.len() == 0 || p == "index.html"@ {
        Some(("index.html"@, true))
    } else {
        Some((p, false))
    }
}

/// Decides which asset a request path names (see [`static_target_of`]).
pub fn static_target(uri_path: &str) -> (r: StaticTarget)
    ensures
        static_target_of(uri_path@) is None ==> r is NotFound,
        static_target_of(uri_path@) matches Some((name, idx)) ==> (r matches StaticTarget::Asset {
            name: n,
            is_index: i,
        } && n@ == name && i == idx),
{
    let cs = chars_of(uri_path);
    let mut a: usize = 0;
    assert(cs@.skip(0) =~= cs@);
    while a < cs.len() && cs[a] == '/'
        invariant
            a <= cs@.len(),
            without_leading_slashes(cs@.skip(a as int)) == without_leading_slashes(cs@),
        decreases cs@.len() - a,
    {
        assert(cs@.skip(a as int).drop_first() =~= cs@.skip(a + 1));
        a = a + 1;
    }
    let mut rest: Vec<char> = Vec::new();
    let mut i: usize = a;
    while i < cs.len()
        invariant
            a <= i <= cs@.len(),
            rest@ == cs@.subrange(a as int, i as int),
        decreases cs@.len() - i,
    {
        rest.push(cs[i]);
        assert(cs@.subrange(a as int, i as int).push(cs@[i as int]) =~= cs@.subrange(a as int, i + 1));
        i = i + 1;
    }
    assert(rest@ =~= cs@.skip(a as int));
    assert(without_leading_slashes(rest@) == rest@);
    let p = string_of(&rest);
    proof {
        reveal_strlit("index.html");
    }
    if starts_with(p.as_str(), "api/") {
        StaticTarget::NotFound
    } else if rest.len() == 0 || str_eq(p.as_str(), "index.html") {
        StaticTarget::Asset { name: "index.html".to_string(), is_index: true }
    } else {
        StaticTarget::Asset { name: p, is_index: false }
    }
}

/// The content type an asset is sent with: HTML for the index page, the
/// guess by extension otherwise.
pub fn content_type_for(name: &str, is_index: bool) -> (r: String)
    ensures
        is_index ==> r@ == "text/html"@,
        !is_index ==> r@ == guessed_mime(name@),
{
    if is_index {
        "text/html".to_string()
    } else {
        guess_mime(name)
    }
}

/// Which embedded file answers a request for an asset.
#[derive(Debug, Clone, Copy, PartialEq, Eq, Structural)]
pub enum StaticReply {
    /// The asset asked for.
    Asset,
    /// The index page, for a client-side route that names no file.
    Index,
    /// Neither is embedded: 404.
    NotFound,
}

/// The asset itself when it is embedded; otherwise the index page when that
/// is embedded; otherwise 404.
pub fn static_reply(asset_found: bool, index_found: bool) -> (r: StaticReply)
    ensures
        asset_found ==> r == StaticReply::Asset,
        !asset_found && index_found ==> r == StaticReply::Index,
        !asset_found && !index_found ==> r == StaticReply::NotFound,
{
    if asset_found {
        StaticReply::Asset
    } else if index_found {
        StaticReply::Index
    } else {
        StaticReply::NotFound
    }
}

} // verus!
