//! Trusted access to the `url` crate: parsing the API endpoint, appending
//! form-encoded query pairs, and reading a URL's serialization back.
use vstd::prelude::*;

verus! {

#[verifier::external_type_specification]
#[verifier::external_body]
pub struct ExUrl(url::Url);

#[verifier::external_type_specification]
#[verifier::external_body]
pub struct ExUrlParseError(url::ParseError);

/// The serialization that a `url::Url` holds (what `Url::as_str` returns).
pub uninterp spec fn url_text(url: url::Url) -> Seq<char>;

/// What `url::Url::parse` makes of `input`: the serialization of the parsed
/// URL, or the error it returns.
pub uninterp spec fn parsed_url(input: Seq<char>) -> Result<Seq<char>, url::ParseError>;

/// The serialization that `query_pairs_mut().append_pair(name, value)`
/// leaves behind in a URL whose serialization was `url`.
pub uninterp spec fn url_text_with_pair(url: Seq<char>, name: Seq<char>, value: Seq<char>) -> Seq<
    char,
>;

/// The text that `url::ParseError`'s `Display` writes for `e`.
pub uninterp spec fn url_error_text(e: url::ParseError) -> Seq<char>;

/// A URL serialization to which query pairs can be appended without the
/// `url` crate panicking: it has no fragment (no '#'), and either already
/// has a query ('?') or is short enough that its position fits in `u32`
/// (each char taking at most four bytes).
pub open spec fn takes_query_pairs(text: Seq<char>) -> bool {
    &&& !text.contains('#')
    &&& (text.contains('?') || 4 * text.len() <= u32::MAX)
}

/// The result of a parse with the URL taken by its serialization.
pub open spec fn parse_view(res: Result<url::Url, url::ParseError>) -> Result<Seq<char>, url::ParseError> {
    match res {
        Ok(u) => Ok(url_text(u)),
        Err(e) => Err(e),
    }
}

/// Calls `url::Url::parse`. Claimed: the result is `parsed_url(input)`, the
/// URL taken by its serialization.
#[verifier::external_body]
pub(crate) fn parse_url(input: &str) -> (res: Result<url::Url, url::ParseError>)
    ensures
        parse_view(res) == parsed_url(input@),
{
    url::Url::parse(input)
}

/// Calls `url.query_pairs_mut().append_pair(name, value)` (the serializer is
/// dropped at once, which writes the pair back into the URL). Required: the
/// URL has no fragment, and has a query or is short; `query_pairs_mut`
/// panics on a URL without a query whose length exceeds `u32`, and restoring
/// a fragment panics where the new length exceeds `u32`. Claimed: the new
/// serialization is `url_text_with_pair` of the old one and the pair; it has
/// a query ('?' is added where there was none) and still no fragment (the
/// pair is form-encoded, so a '#' in it becomes "%23").
#[verifier::external_body]
pub(crate) fn append_query_pair(url: &mut url::Url, name: &str, value: &str)
    requires
        takes_query_pairs(url_text(*old(url))),
    ensures
        url_text(*final(url)) == url_text_with_pair(url_text(*old(url)), name@, value@),
        url_text(*final(url)).contains('?'),
        !url_text(*final(url)).contains('#'),
{
    url.query_pairs_mut().append_pair(name, value);
}

/// Calls `url::Url::as_str` and copies the result. Claimed: the string is
/// the URL's serialization.
#[verifier::external_body]
pub(crate) fn url_as_string(url: &url::Url) -> (res: String)
    ensures
        res@ == url_text(*url),
{
    url.as_str().to_string()
}

/// Calls `to_string` on a `url::ParseError` (its `Display`). Claimed: the
/// text is `url_error_text(e)`.
#[verifier::external_body]
pub(crate) fn url_error_string(e: &url::ParseError) -> (res: String)
    ensures
        res@ == url_error_text(*e),
{
    e.to_string()
}

/// Whether query pairs can be appended to a URL with serialization `text`.
pub(crate) fn text_takes_query_pairs(text: &str) -> (res: bool)
    ensures
        res == takes_query_pairs(text@),
{
    let n = text.unicode_len();
    let mut has_query = false;
    let mut i: usize = 0;
    while i < n
        invariant
            n == text@.len(),
            i <= n,
            forall|j: int| 0 <= j < i ==> text@[j] != '#',
            has_query <==> exists|j: int| 0 <= j < i && text@[j] == '?',
        decreases n - i,
    {
        let c = text.get_char(i);
        if c == '#' {
            return false;
        }
        if c == '?' {
            has_query = true;
        }
        i = i + 1;
    }
    has_query || n <= 0x3fff_ffff
}

} // verus!
