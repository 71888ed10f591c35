//! The origin of the document that triggered a control, as text.

use vstd::prelude::*;
use vstd::utf8::is_ascii_chars;

verus! {

/// How many `blob:` prefixes the text of a URL may start with. The origin of a `blob:` URL is found
/// by recursion, one level of the stack for each prefix.
pub const MAX_BLOB_DEPTH: u32 = 256;

/// Whether a character is the one at a position of `blob:`, in either case.
pub open spec fn is_blob_char(c: char, at: u32) -> bool {
    match at {
        0 => c == 'b' || c == 'B',
        1 => c == 'l' || c == 'L',
        2 => c == 'o' || c == 'O',
        3 => c == 'b' || c == 'B',
        4 => c == ':',
        _ => false,
    }
}

/// How many `blob:` prefixes a text starts with, where `at` characters of the first one have been
/// read already. Spaces and control characters are passed over wherever they stand: a URL parser
/// drops some of them.
pub open spec fn blob_depth(text: Seq<char>, at: u32) -> nat
    decreases text.len(),
{
    if text.len() == 0 {
        0
    } else if text[0] <= ' ' {
        blob_depth(text.drop_first(), at)
    } else if !is_blob_char(text[0], at) {
        0
    } else if at == 4 {
        1 + blob_depth(text.drop_first(), 0)
    } else {
        blob_depth(text.drop_first(), (at + 1) as u32)
    }
}

/// Whether a text starts with few enough `blob:` prefixes for the origin of its URL to be found.
pub open spec fn shallow(text: Seq<char>) -> bool {
    blob_depth(text, 0) <= MAX_BLOB_DEPTH
}

/// The ASCII serialization of the origin of the URL that a text spells, or `None` where the text
/// spells no absolute URL: what the `url` crate makes of that text.
pub uninterp spec fn url_ascii_origin(url: Seq<char>) -> Option<Seq<char>>;

/// The origin text of a document, given the origin of its URL: empty where there is none.
pub open spec fn origin_or_empty(origin: Option<Seq<char>>) -> Seq<char> {
    match origin {
        Some(text) => text,
        None => Seq::empty(),
    }
}

/// The origin text of a document, given the text of its URL if it has one.
pub open spec fn document_origin_text(url: Option<Seq<char>>) -> Seq<char> {
    match url {
        Some(text) => origin_or_empty(url_ascii_origin(text)),
        None => origin_or_empty(None),
    }
}

/// The text of a string that may be missing.
pub open spec fn optional_text(text: Option<&str>) -> Option<Seq<char>> {
    match text {
        Some(text) => Some(text@),
        None => None,
    }
}

/// Whether a text starts with few enough `blob:` prefixes, see [`MAX_BLOB_DEPTH`].
pub fn is_shallow(text: &str) -> (yes: bool)
    ensures
        yes == shallow(text@),
        yes <==> blob_depth(text@, 0) <= 256,
{
    let mut depth: u32 = 0;
    let mut at: u32 = 0;
    assert(text@.skip(0) =~= text@);
    for c in chars: text.chars()
        invariant
            chars.seq() == text@,
            depth <= MAX_BLOB_DEPTH,
            at <= 4,
            depth + blob_depth(text@.skip(chars.index()), at) == blob_depth(text@, 0),
    {
        let ghost rest = text@.skip(chars.index());
        assert(rest[0] == c);
        assert(rest.drop_first() =~= text@.skip(chars.index() + 1));
        if c > ' ' {
            let matched = match at {
                0 => c == 'b' || c == 'B',
                1 => c == 'l' || c == 'L',
                2 => c == 'o' || c == 'O',
                3 => c == 'b' || c == 'B',
                _ => c == ':',
            };
            if !matched {
                return true;
            }
            if at < 4 {
                at = at + 1;
            } else if depth == MAX_BLOB_DEPTH {
                return false;
            } else {
                at = 0;
                depth = depth + 1;
            }
        }
    }
    true
}

/// Calls `url::Url::parse`, `url::Url::origin` and `url::Origin::ascii_serialization`.
///
/// Claimed of them: whether the text parses, and the serialization if it does, depend on the text
/// alone; a serialization is ASCII (the host of a URL with a tuple origin is an IP address or has
/// been through the IDNA "to ASCII" operation) and is not empty (it is `null` or starts with the
/// scheme). Which text comes out for which URL is not stated. The origin of a `blob:` URL is that
/// of the URL in its path, found by recursion without a limit, so that texts with many nested
/// prefixes, on which the stack would run out, are left out.
#[verifier::external_body]
fn parse_ascii_origin(url: &str) -> (origin: Option<String>)
    requires
        shallow(url@),
    ensures
        origin is Some <==> url_ascii_origin(url@) is Some,
        origin matches Some(text) ==> url_ascii_origin(url@) == Some(text@),
        origin matches Some(text) ==> text@.len() > 0 && is_ascii_chars(text@),
{
    match url::Url::parse(url) {
        Ok(url) => Some(url.origin().ascii_serialization()),
        Err(_) => None,
    }
}

/// The origin text that stands for an origin that may be missing.
pub fn unwrap_origin(origin: Option<String>) -> (text: String)
    ensures
        text@ == origin_or_empty(
            match origin {
                Some(text) => Some(text@),
                None => None,
            },
        ),
        origin matches Some(given) ==> text@ == given@,
        origin is None ==> text@.len() == 0,
{
    match origin {
        Some(text) => text,
        None => String::new(),
    }
}

/// The origin of a document as an ASCII serialization, given the text of its URL.
///
/// Empty where the document has no URL; a text that spells no URL counts as none.
pub fn document_origin(url: Option<&str>) -> (origin: String)
    requires
        url matches Some(text) ==> shallow(text@),
    ensures
        origin@ == document_origin_text(optional_text(url)),
        url matches Some(text) ==> (url_ascii_origin(text@) matches Some(serialization) ==> origin@
            == serialization),
        url matches Some(text) ==> (url_ascii_origin(text@) is None ==> origin@.len() == 0),
        url is None ==> origin@.len() == 0,
        is_ascii_chars(origin@),
        origin@.len() == 0 <==> (url matches Some(text) ==> url_ascii_origin(text@) is None),
{
    match url {
        Some(text) => unwrap_origin(parse_ascii_origin(text)),
        None => unwrap_origin(None),
    }
}

/// An origin passes through character for character, and a missing one gives no character.
pub proof fn law_origin_passes_through(origin: Seq<char>)
    ensures
        origin_or_empty(Some(origin)) == origin,
        origin_or_empty(None).len() == 0,
{
}

/// The origin text of a document is the serialization that its URL has, and empty where the URL
/// has none or there is no URL.
pub proof fn law_document_origin_is_the_serialization(url: &str)
    ensures
        optional_text(Some(url)) == Some(url@),
        optional_text(None) is None,
        url_ascii_origin(url@) matches Some(serialization) ==> document_origin_text(Some(url@))
            == serialization,
        url_ascii_origin(url@) is None ==> document_origin_text(Some(url@)).len() == 0,
        document_origin_text(None).len() == 0,
{
}

/// A text is shallow exactly when it starts with no more than 256 `blob:` prefixes.
pub proof fn law_shallow_is_a_bound_on_the_depth(text: Seq<char>)
    ensures
        shallow(text) <==> blob_depth(text, 0) <= 256,
{
}

/// Every `blob:` put in front of a text, in whatever case, adds one to the depth.
pub proof fn law_blob_prefix_adds_one(prefix: Seq<char>, text: Seq<char>)
    requires
        prefix.len() == 5,
        prefix[0] == 'b' || prefix[0] == 'B',
        prefix[1] == 'l' || prefix[1] == 'L',
        prefix[2] == 'o' || prefix[2] == 'O',
        prefix[3] == 'b' || prefix[3] == 'B',
        prefix[4] == ':',
    ensures
        blob_depth(prefix + text, 0) == 1 + blob_depth(text, 0),
{
    let s0 = prefix + text;
    let s1 = s0.drop_first();
    let s2 = s1.drop_first();
    let s3 = s2.drop_first();
    let s4 = s3.drop_first();
    assert(s4.drop_first() =~= text);
    assert(s0[0] == prefix[0] && s1[0] == prefix[1] && s2[0] == prefix[2] && s3[0] == prefix[3]
        && s4[0] == prefix[4]);
    assert(blob_depth(s4, 4) == 1 + blob_depth(text, 0));
    assert(blob_depth(s3, 3) == blob_depth(s4, 4));
    assert(blob_depth(s2, 2) == blob_depth(s3, 3));
    assert(blob_depth(s1, 1) == blob_depth(s2, 2));
}

/// A space or control character put anywhere into a text does not change the depth.
pub proof fn law_blanks_do_not_count(before: Seq<char>, blank: char, after: Seq<char>, at: u32)
    requires
        blank <= ' ',
    ensures
        blob_depth(before + seq![blank] + after, at) == blob_depth(before + after, at),
    decreases before.len(),
{
    let with = before + seq![blank] + after;
    let without = before + after;
    if before.len() == 0 {
        assert(with.drop_first() =~= after);
        assert(without =~= after);
    } else {
        let rest = before.drop_first();
        assert(with.drop_first() =~= rest + seq![blank] + after);
        assert(without.drop_first() =~= rest + after);
        law_blanks_do_not_count(rest, blank, after, at);
        law_blanks_do_not_count(rest, blank, after, 0);
        law_blanks_do_not_count(rest, blank, after, (at + 1) as u32);
    }
}

/// A text without spaces and control characters that does not start with `blob:` has depth zero,
/// whatever follows.
pub proof fn law_no_prefix_no_depth(text: Seq<char>)
    requires
        forall|i: int| 0 <= i < text.len() ==> text[i] > ' ',
        !({
            &&& text.len() >= 5
            &&& text[0] == 'b' || text[0] == 'B'
            &&& text[1] == 'l' || text[1] == 'L'
            &&& text[2] == 'o' || text[2] == 'O'
            &&& text[3] == 'b' || text[3] == 'B'
            &&& text[4] == ':'
        }),
    ensures
        blob_depth(text, 0) == 0,
        shallow(text),
{
    reveal_with_fuel(blob_depth, 6);
}

} // verus!
