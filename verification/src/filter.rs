//! Stream configuration and the capture predicate.

use vstd::prelude::*;

verus! {

/// `needle` occurs in `hay` as a contiguous run of characters.
pub open spec fn occurs_in(needle: Seq<char>, hay: Seq<char>) -> bool {
    exists|i: int|
        0 <= i && i + needle.len() <= hay.len() && #[trigger] hay.subrange(
            i,
            i + needle.len(),
        ) == needle
}

/// Filters of a stream. A filter that is `None` accepts everything.
#[derive(Debug)]
pub struct EventStreamConfig {
    pub url_substring_filter: Option<String>,
    pub content_type_substring_filter: Option<String>,
}

/// The filters of a configuration as character sequences.
pub struct FilterView {
    pub url: Option<Seq<char>>,
    pub content_type: Option<Seq<char>>,
}

impl View for EventStreamConfig {
    type V = FilterView;

    open spec fn view(&self) -> FilterView {
        FilterView {
            url: match self.url_substring_filter {
                Some(f) => Some(f@),
                None => None,
            },
            content_type: match self.content_type_substring_filter {
                Some(f) => Some(f@),
                None => None,
            },
        }
    }
}

impl Clone for EventStreamConfig {
    fn clone(&self) -> (copy: Self)
        ensures
            copy@ == self@,
    {
        EventStreamConfig {
            url_substring_filter: match &self.url_substring_filter {
                Some(f) => Some(f.clone()),
                None => None,
            },
            content_type_substring_filter: match &self.content_type_substring_filter {
                Some(f) => Some(f.clone()),
                None => None,
            },
        }
    }
}

impl Default for EventStreamConfig {
    fn default() -> (config: Self)
        ensures
            config@.url is None,
            config@.content_type is None,
    {
        EventStreamConfig { url_substring_filter: None, content_type_substring_filter: None }
    }
}

/// The url passes: no url filter is set, or the url contains it.
pub open spec fn url_passes(filter: Option<Seq<char>>, url: Seq<char>) -> bool {
    match filter {
        Some(f) => occurs_in(f, url),
        None => true,
    }
}

/// The content type passes: no filter is set, or a content type is present
/// and contains the filter. With a filter set, an absent content type fails.
pub open spec fn content_type_passes(
    filter: Option<Seq<char>>,
    content_type: Option<Seq<char>>,
) -> bool {
    match filter {
        Some(f) => match content_type {
            Some(ct) => occurs_in(f, ct),
            None => false,
        },
        None => true,
    }
}

/// A response is captured when both its url and its content type pass.
pub open spec fn captures(
    filters: FilterView,
    url: Seq<char>,
    content_type: Option<Seq<char>>,
) -> bool {
    url_passes(filters.url, url) && content_type_passes(filters.content_type, content_type)
}

/// The capture predicate, filter by filter: without filters every response
/// is captured; with a url filter alone, those whose url contains it; with
/// a content type filter alone, those that have a content type which
/// contains it; with both, those that meet both conditions.
pub proof fn law_capture_truth_table(
    filters: FilterView,
    url: Seq<char>,
    content_type: Option<Seq<char>>,
)
    ensures
        filters.url is None && filters.content_type is None ==> captures(
            filters,
            url,
            content_type,
        ),
        filters.url is Some && filters.content_type is None ==> (captures(
            filters,
            url,
            content_type,
        ) <==> occurs_in(filters.url->Some_0, url)),
        filters.url is None && filters.content_type is Some ==> (captures(
            filters,
            url,
            content_type,
        ) <==> content_type is Some && occurs_in(
            filters.content_type->Some_0,
            content_type->Some_0,
        )),
        filters.url is Some && filters.content_type is Some ==> (captures(
            filters,
            url,
            content_type,
        ) <==> occurs_in(filters.url->Some_0, url) && content_type is Some && occurs_in(
            filters.content_type->Some_0,
            content_type->Some_0,
        )),
        filters.content_type is Some && content_type is None ==> !captures(
            filters,
            url,
            content_type,
        ),
{
}

/// The view of an optional string slice.
pub open spec fn opt_str_view(s: Option<&str>) -> Option<Seq<char>> {
    match s {
        Some(t) => Some(t@),
        None => None,
    }
}

/// Calls `str::contains` with a string pattern, which std documents to
/// return `true` exactly when the pattern matches a sub-slice of the
/// haystack. Both are valid UTF-8, so a match of the bytes is an occurrence
/// of the pattern's characters as a contiguous run of the haystack's.
#[verifier::external_body]
fn str_contains(hay: &str, needle: &str) -> (found: bool)
    ensures
        found == occurs_in(needle@, hay@),
{
    hay.contains(needle)
}

/// Decides whether a response with this url and content type is captured.
pub fn should_capture(
    config: &EventStreamConfig,
    url: &str,
    content_type: Option<&str>,
) -> (ok: bool)
    ensures
        ok == captures(config@, url@, opt_str_view(content_type)),
{
    let url_ok = match &config.url_substring_filter {
        Some(filter) => str_contains(url, filter.as_str()),
        None => true,
    };
    let ct_ok = match &config.content_type_substring_filter {
        Some(filter) => match content_type {
            Some(ct) => str_contains(ct, filter.as_str()),
            None => false,
        },
        None => true,
    };
    url_ok && ct_ok
}

} // verus!
