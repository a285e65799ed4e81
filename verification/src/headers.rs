//! The metadata of a response as the source reports it, and what the engine
//! reads from it.

use vstd::prelude::*;
use vstd::string::StringExecFns;
use crate::event::Metadata;
use crate::filter::{captures, opt_str_view, FilterView};

verus! {

/// The value of a header: text, or something that is no text.
#[derive(Debug)]
pub enum HeaderValue {
    Text(String),
    Other,
}

impl View for HeaderValue {
    type V = Option<Seq<char>>;

    open spec fn view(&self) -> Option<Seq<char>> {
        match self {
            HeaderValue::Text(t) => Some(t@),
            HeaderValue::Other => None,
        }
    }
}

/// One header of a response.
#[derive(Debug)]
pub struct Header {
    pub name: String,
    pub value: HeaderValue,
}

/// What the source reports when the headers of a response have arrived.
#[derive(Debug)]
pub struct ResponseMetadata {
    pub url: String,
    pub status: i64,
    pub headers: Vec<Header>,
}

/// The value of the first header called `name`, spelled exactly so.
pub open spec fn lookup(headers: Seq<Header>, name: Seq<char>) -> Option<Option<Seq<char>>>
    decreases headers.len(),
{
    if headers.len() == 0 {
        None
    } else if headers[0].name@ == name {
        Some(headers[0].value@)
    } else {
        lookup(headers.drop_first(), name)
    }
}

/// The code point of `c` with the ASCII capitals `A` to `Z` lowered to `a`
/// to `z`; every other character keeps its own.
pub open spec fn ascii_lowered(c: char) -> int {
    if 0x41 <= c as int <= 0x5a {
        c as int + 0x20
    } else {
        c as int
    }
}

/// `a` and `b` are the same name when ASCII letters are compared without
/// case: equally long, and equal character by character once lowered.
pub open spec fn same_ignoring_ascii_case(a: Seq<char>, b: Seq<char>) -> bool {
    &&& a.len() == b.len()
    &&& forall|i: int| 0 <= i < a.len() ==> ascii_lowered(#[trigger] a[i]) == ascii_lowered(b[i])
}

/// The value of the first header whose name is `name` when ASCII letters
/// are compared without case.
pub open spec fn lookup_any_case(headers: Seq<Header>, name: Seq<char>) -> Option<
    Option<Seq<char>>,
>
    decreases headers.len(),
{
    if headers.len() == 0 {
        None
    } else if same_ignoring_ascii_case(headers[0].name@, name) {
        Some(headers[0].value@)
    } else {
        lookup_any_case(headers.drop_first(), name)
    }
}

/// The header that tells the content type: the one spelled `content-type`;
/// where there is none, the one spelled `Content-Type`; where there is none
/// either, the first whose name is `content-type` in any case.
pub open spec fn content_type_header(headers: Seq<Header>) -> Option<Option<Seq<char>>> {
    match lookup(headers, "content-type"@) {
        Some(value) => Some(value),
        None => match lookup(headers, "Content-Type"@) {
            Some(value) => Some(value),
            None => lookup_any_case(headers, "content-type"@),
        },
    }
}

/// The content type of a response: the value of its content type header,
/// absent where it has no such header or the value is no text.
pub open spec fn content_type_of(headers: Seq<Header>) -> Option<Seq<char>> {
    match content_type_header(headers) {
        Some(value) => value,
        None => None,
    }
}

/// The status of a response as the engine keeps it: the low sixteen bits of
/// the reported number.
pub open spec fn status_of(raw: i64) -> u16 {
    (raw as int % 0x1_0000) as u16
}

/// The record that a response leaves in the correlation table: its url, its
/// content type and its status, provided that it passes the filters.
pub open spec fn record_of(
    filters: FilterView,
    url: Seq<char>,
    status: i64,
    headers: Seq<Header>,
) -> Option<Metadata> {
    if captures(filters, url, content_type_of(headers)) {
        Some(Metadata { url, content_type: content_type_of(headers), status: Some(status_of(status)) })
    } else {
        None
    }
}

proof fn lookup_skips(headers: Seq<Header>, name: Seq<char>, n: int)
    requires
        0 <= n <= headers.len(),
        forall|j: int| 0 <= j < n ==> headers[j].name@ != name,
    ensures
        lookup(headers, name) == lookup(headers.skip(n), name),
    decreases n,
{
    if n == 0 {
        assert(headers.skip(0) =~= headers);
    } else {
        lookup_skips(headers.drop_first(), name, n - 1);
        assert(headers.drop_first().skip(n - 1) =~= headers.skip(n));
    }
}

proof fn lookup_any_case_skips(headers: Seq<Header>, name: Seq<char>, n: int)
    requires
        0 <= n <= headers.len(),
        forall|j: int| 0 <= j < n ==> !same_ignoring_ascii_case(headers[j].name@, name),
    ensures
        lookup_any_case(headers, name) == lookup_any_case(headers.skip(n), name),
    decreases n,
{
    if n == 0 {
        assert(headers.skip(0) =~= headers);
    } else {
        lookup_any_case_skips(headers.drop_first(), name, n - 1);
        assert(headers.drop_first().skip(n - 1) =~= headers.skip(n));
    }
}

proof fn lemma_lookup_found(headers: Seq<Header>, name: Seq<char>)
    ensures
        lookup(headers, name) is Some <==> exists|i: int|
            0 <= i < headers.len() && (#[trigger] headers[i]).name@ == name,
        lookup_any_case(headers, name) is Some <==> exists|i: int|
            0 <= i < headers.len() && same_ignoring_ascii_case(
                (#[trigger] headers[i]).name@,
                name,
            ),
    decreases headers.len(),
{
    if headers.len() > 0 {
        let rest = headers.drop_first();
        lemma_lookup_found(rest, name);
        if lookup(headers, name) is Some && headers[0].name@ != name {
            let i = choose|i: int| 0 <= i < rest.len() && (#[trigger] rest[i]).name@ == name;
            assert(headers[i + 1].name@ == name);
        }
        if lookup_any_case(headers, name) is Some && !same_ignoring_ascii_case(
            headers[0].name@,
            name,
        ) {
            let i = choose|i: int|
                0 <= i < rest.len() && same_ignoring_ascii_case((#[trigger] rest[i]).name@, name);
            assert(same_ignoring_ascii_case(headers[i + 1].name@, name));
        }
        assert forall|i: int| 0 < i < headers.len() implies headers[i] == rest[i - 1] by {}
        if exists|i: int| 0 <= i < headers.len() && (#[trigger] headers[i]).name@ == name {
            let i = choose|i: int| 0 <= i < headers.len() && (#[trigger] headers[i]).name@ == name;
            if i > 0 {
                assert(rest[i - 1].name@ == name);
            }
        }
        if exists|i: int|
            0 <= i < headers.len() && same_ignoring_ascii_case(
                (#[trigger] headers[i]).name@,
                name,
            ) {
            let i = choose|i: int|
                0 <= i < headers.len() && same_ignoring_ascii_case(
                    (#[trigger] headers[i]).name@,
                    name,
                );
            if i > 0 {
                assert(same_ignoring_ascii_case(rest[i - 1].name@, name));
            }
        }
    }
}

/// The lookup of the content type is case-insensitive: a response has a
/// content type header exactly where one of its headers is called
/// `content-type` when ASCII letters are compared without case.
pub proof fn law_content_type_in_any_case(headers: Seq<Header>)
    ensures
        content_type_header(headers) is Some <==> exists|i: int|
            0 <= i < headers.len() && same_ignoring_ascii_case(
                (#[trigger] headers[i]).name@,
                "content-type"@,
            ),
{
    reveal_strlit("content-type");
    reveal_strlit("Content-Type");
    lemma_lookup_found(headers, "content-type"@);
    lemma_lookup_found(headers, "Content-Type"@);
    assert(same_ignoring_ascii_case("content-type"@, "content-type"@));
    assert(same_ignoring_ascii_case("Content-Type"@, "content-type"@));
    if lookup(headers, "content-type"@) is Some {
        let i = choose|i: int|
            0 <= i < headers.len() && (#[trigger] headers[i]).name@ == "content-type"@;
        assert(same_ignoring_ascii_case(headers[i].name@, "content-type"@));
    } else if lookup(headers, "Content-Type"@) is Some {
        let i = choose|i: int|
            0 <= i < headers.len() && (#[trigger] headers[i]).name@ == "Content-Type"@;
        assert(same_ignoring_ascii_case(headers[i].name@, "content-type"@));
    }
}

/// Calls `str::eq_ignore_ascii_case`, which std documents to compare the
/// two strings as `to_ascii_lowercase` would leave them: `A` to `Z` become
/// `a` to `z`, everything else stays. Lowering touches single-byte
/// characters only, so the bytes agree exactly where the characters do.
#[verifier::external_body]
fn eq_ignoring_ascii_case(a: &str, b: &str) -> (same: bool)
    ensures
        same == same_ignoring_ascii_case(a@, b@),
{
    a.eq_ignore_ascii_case(b)
}

/// Finds the first header whose name is `name` when ASCII letters are
/// compared without case.
pub fn find_header_any_case<'a>(headers: &'a Vec<Header>, name: &str) -> (found: Option<
    &'a HeaderValue,
>)
    ensures
        match found {
            Some(value) => lookup_any_case(headers@, name@) == Some(value@),
            None => lookup_any_case(headers@, name@) is None,
        },
{
    let mut i: usize = 0;
    while i < headers.len()
        invariant
            i <= headers.len(),
            forall|j: int| 0 <= j < i ==> !same_ignoring_ascii_case(headers@[j].name@, name@),
        decreases headers.len() - i,
    {
        if eq_ignoring_ascii_case(headers[i].name.as_str(), name) {
            proof {
                lookup_any_case_skips(headers@, name@, i as int);
            }
            return Some(&headers[i].value);
        }
        i += 1;
    }
    proof {
        lookup_any_case_skips(headers@, name@, headers@.len() as int);
    }
    None
}

/// Finds the first header called `name`, spelled exactly so.
pub fn find_header<'a>(headers: &'a Vec<Header>, name: &str) -> (found: Option<&'a HeaderValue>)
    ensures
        match found {
            Some(value) => lookup(headers@, name@) == Some(value@),
            None => lookup(headers@, name@) is None,
        },
{
    let key = String::from_str(name);
    let mut i: usize = 0;
    while i < headers.len()
        invariant
            i <= headers.len(),
            key@ == name@,
            forall|j: int| 0 <= j < i ==> headers@[j].name@ != name@,
        decreases headers.len() - i,
    {
        if headers[i].name == key {
            proof {
                lookup_skips(headers@, name@, i as int);
            }
            return Some(&headers[i].value);
        }
        i += 1;
    }
    proof {
        lookup_skips(headers@, name@, headers@.len() as int);
    }
    None
}

/// Reads the content type from the headers of a response. Header names
/// are matched without regard to ASCII case; among several, the spelling
/// `content-type` is taken first, then `Content-Type`, then the first of
/// any other.
pub fn content_type<'a>(headers: &'a Vec<Header>) -> (found: Option<&'a str>)
    ensures
        opt_str_view(found) == content_type_of(headers@),
{
    let value = match find_header(headers, "content-type") {
        Some(value) => Some(value),
        None => match find_header(headers, "Content-Type") {
            Some(value) => Some(value),
            None => find_header_any_case(headers, "content-type"),
        },
    };
    match value {
        Some(HeaderValue::Text(text)) => Some(text.as_str()),
        _ => None,
    }
}

/// Narrows a reported status to sixteen bits.
pub fn status_code(raw: i64) -> (code: u16)
    ensures
        code == status_of(raw),
{
    let low: i64 = raw & 0xffff;
    assert(0 <= low <= 0xffff && low == raw % 0x1_0000) by (bit_vector)
        requires
            low == raw & 0xffff,
    ;
    low as u16
}

} // verus!
