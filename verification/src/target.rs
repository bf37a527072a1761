//! The target of a request: a base URL and a path, normalised and joined,
//! and the scheme that the joined text has as an absolute URL.

use vstd::prelude::*;
use vstd::string::{StrSliceExecFns, StringExecFns};
use crate::error::{BridgeError, ErrorModel};
use crate::text::{
    blank, is_blank, is_whitespace, lemma_trailing_slashes_gone, lemma_trim_start_keeps_last,
    lemma_trim_start_push, lemma_trimmed_empty_iff_blank, trim, trim_end_slashes, trim_start_of,
    trimmed, without_trailing_slashes,
};

verus! {

/// The base URL as it is used: trimmed, and without the slashes at its end.
pub open spec fn base_of(base_url: Seq<char>) -> Seq<char> {
    without_trailing_slashes(trimmed(base_url))
}

/// The path as it is used: `/` for a blank one, and otherwise the path
/// itself, with a `/` put in front where it has none.
pub open spec fn path_of(path: Seq<char>) -> Seq<char> {
    if is_blank(path) {
        "/"@
    } else if path[0] == '/' {
        path
    } else {
        "/"@ + path
    }
}

/// The text that is parsed as the target URL.
pub open spec fn target_of(base_url: Seq<char>, path: Seq<char>) -> Seq<char> {
    base_of(base_url) + path_of(path)
}

/// An ASCII capital as its small letter, any other character unchanged.
pub open spec fn ascii_lower(c: char) -> char {
    if 'A' <= c && c <= 'Z' {
        ((c as u8) + 32) as char
    } else {
        c
    }
}

/// Whether two texts are equal but for the case of their ASCII letters.
pub open spec fn same_ignoring_ascii_case(a: Seq<char>, b: Seq<char>) -> bool {
    &&& a.len() == b.len()
    &&& forall|i: int| 0 <= i < a.len() ==> ascii_lower(#[trigger] a[i]) == ascii_lower(b[i])
}

/// Whether a scheme is `http` or `https`, in any case.
pub open spec fn is_http_scheme(scheme: Seq<char>) -> bool {
    same_ignoring_ascii_case(scheme, "http"@) || same_ignoring_ascii_case(scheme, "https"@)
}

/// What `Url::parse` makes of a text: the scheme of the URL that it reads,
/// or the words of its error where the text is no absolute URL.
pub uninterp spec fn url_scheme_of(text: Seq<char>) -> Result<Seq<char>, Seq<char>>;

/// The outcome of a parse as a mathematical value.
pub open spec fn parse_outcome(r: Result<String, String>) -> Result<Seq<char>, Seq<char>> {
    match r {
        Ok(scheme) => Ok(scheme@),
        Err(detail) => Err(detail@),
    }
}

/// What the parse of a target's text decides: nothing to object to, or the
/// failure that the request ends in.
pub open spec fn scheme_verdict(parsed: Result<Seq<char>, Seq<char>>) -> Option<ErrorModel> {
    match parsed {
        Err(detail) => Some(ErrorModel::InvalidUrl(detail)),
        Ok(scheme) => if is_http_scheme(scheme) {
            None
        } else {
            Some(ErrorModel::SchemeNotAllowed)
        },
    }
}

/// `Url::parse` of the `url` crate, as `reqwest` hands it on, followed by
/// `Url::scheme` on the URL read. The contract names the outcome: it is a
/// function of the text alone. Nothing is claimed of which texts parse.
#[verifier::external_body]
pub(crate) fn parse_scheme(text: &str) -> (r: Result<String, String>)
    ensures
        parse_outcome(r) == url_scheme_of(text@),
{
    match reqwest::Url::parse(text) {
        Ok(url) => Ok(url.scheme().to_string()),
        Err(e) => Err(e.to_string()),
    }
}

/// Trims the base URL and strips the slashes at its end. A base URL of
/// which nothing is left, a blank one among them, is refused.
pub fn normalize_base(base_url: &str) -> (r: Result<&str, BridgeError>)
    ensures
        match r {
            Ok(base) => base@ == base_of(base_url@) && base@.len() > 0 && base@.last() != '/',
            Err(e) => e@ == ErrorModel::BaseUrlRequired && base_of(base_url@).len() == 0,
        },
        is_blank(base_url@) ==> r is Err,
{
    proof {
        lemma_trimmed_empty_iff_blank(base_url@);
        lemma_trailing_slashes_gone(trimmed(base_url@));
    }
    let base = trim_end_slashes(trim(base_url));
    if base.is_empty() {
        Err(BridgeError::BaseUrlRequired)
    } else {
        Ok(base)
    }
}

/// Normalises a path: `/` for a blank one; otherwise the path as it is,
/// after a `/` where it does not begin with one.
pub fn normalize_path(path: &str) -> (r: String)
    ensures
        r@ == path_of(path@),
        r@.len() > 0,
        r@[0] == '/',
        !is_blank(path@) && path@[0] != '/' ==> r@ == seq!['/'] + path@,
{
    proof {
        reveal_strlit("/");
        assert("/"@ =~= seq!['/']);
    }
    if blank(path) {
        String::from_str("/")
    } else if path.get_char(0) == '/' {
        String::from_str(path)
    } else {
        let mut out: String = String::from_str("/");
        out.append(path);
        out
    }
}

/// Joins the normalised base URL and the normalised path.
pub fn target_url(base_url: &str, path: &str) -> (r: Result<String, BridgeError>)
    ensures
        match r {
            Ok(url) => url@ == target_of(base_url@, path@) && base_of(base_url@).len() > 0,
            Err(e) => e@ == ErrorModel::BaseUrlRequired && base_of(base_url@).len() == 0,
        },
        is_blank(base_url@) ==> r is Err,
{
    match normalize_base(base_url) {
        Err(e) => Err(e),
        Ok(base) => {
            let tail: String = normalize_path(path);
            let mut url: String = String::from_str(base);
            url.append(tail.as_str());
            Ok(url)
        },
    }
}

fn lower(c: char) -> (r: char)
    ensures
        r == ascii_lower(c),
{
    if 'A' <= c && c <= 'Z' {
        ((c as u8) + 32) as char
    } else {
        c
    }
}

/// Compares a text with a word, taking no account of the case of ASCII
/// letters.
pub fn matches_word(text: &str, word: &str) -> (r: bool)
    ensures
        r == same_ignoring_ascii_case(text@, word@),
{
    let n: usize = text.unicode_len();
    if n != word.unicode_len() {
        return false;
    }
    let mut i: usize = 0;
    while i < n
        invariant
            n == text@.len(),
            n == word@.len(),
            i <= n,
            forall|j: int| 0 <= j < i ==> ascii_lower(#[trigger] text@[j]) == ascii_lower(word@[j]),
        decreases n - i,
    {
        if lower(text.get_char(i)) != lower(word.get_char(i)) {
            return false;
        }
        i += 1;
    }
    true
}

/// Whether a scheme is `http` or `https`, in any case.
pub fn is_http(scheme: &str) -> (r: bool)
    ensures
        r == is_http_scheme(scheme@),
{
    matches_word(scheme, "http") || matches_word(scheme, "https")
}

/// Judges the parse of a target's text: a text that is no absolute URL is
/// refused with the parser's words, and so is a URL whose scheme is neither
/// `http` nor `https`.
pub fn check_scheme(parsed: Result<String, String>) -> (r: Result<(), BridgeError>)
    ensures
        match r {
            Ok(_) => scheme_verdict(parse_outcome(parsed)) is None,
            Err(e) => scheme_verdict(parse_outcome(parsed)) == Some(e@),
        },
{
    match parsed {
        Err(detail) => Err(BridgeError::InvalidUrl(detail)),
        Ok(scheme) => if is_http(scheme.as_str()) {
            Ok(())
        } else {
            Err(BridgeError::SchemeNotAllowed)
        },
    }
}

/// Where a base URL is left, the target holds exactly one slash between
/// the base and the rest of the path: the base's own slashes at its end are
/// gone, and the path brings one.
pub proof fn lemma_one_slash_at_the_joint(base_url: Seq<char>, path: Seq<char>)
    requires
        base_of(base_url).len() > 0,
    ensures
        target_of(base_url, path).len() > base_of(base_url).len(),
        target_of(base_url, path)[base_of(base_url).len() - 1] != '/',
        target_of(base_url, path)[base_of(base_url).len() as int] == '/',
        !is_blank(path) && path[0] == '/' ==> target_of(base_url, path) == base_of(base_url)
            + path,
        !is_blank(path) && path[0] != '/' ==> target_of(base_url, path) == base_of(base_url).push(
            '/',
        ) + path,
{
    reveal_strlit("/");
    lemma_trailing_slashes_gone(trimmed(base_url));
    assert("/"@ =~= seq!['/']);
    if !is_blank(path) && path[0] != '/' {
        assert(base_of(base_url) + (seq!['/'] + path) =~= base_of(base_url).push('/') + path);
    }
}

/// One more slash at the end of a base URL changes neither the base that
/// is used nor the target. The base URL is one that does not end in
/// whitespace: after whitespace a slash is kept, since trimming comes after.
pub proof fn lemma_trailing_slash_ignored(base_url: Seq<char>, path: Seq<char>)
    requires
        base_url.len() == 0 || !is_whitespace(base_url.last()),
    ensures
        base_of(base_url.push('/')) == base_of(base_url),
        target_of(base_url.push('/'), path) == target_of(base_url, path),
{
    lemma_trim_start_push(base_url, '/');
    let front = trim_start_of(base_url);
    lemma_trailing_slashes_gone(front);
    assert(!is_whitespace(front.push('/').last()));
    if base_url.len() > 0 {
        lemma_trim_start_keeps_last(base_url);
    }
}

} // verus!
