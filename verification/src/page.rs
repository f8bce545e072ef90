//! The page number of a request, and the link to the page after it.

use crate::decimal::{
    all_digits, decimal, digits_value, lemma_decimal_value, parse_usize, parse_usize_spec,
    push_decimal, unsigned_part,
};
use crate::query::latest_values;
use leptos_router::params::ParamsMap;
use vstd::prelude::*;
use vstd::string::*;

verus! {

/// Whether `s` is a numeral: an optional `+`, then one digit or more and
/// nothing else.
pub open spec fn is_numeral(s: Seq<char>) -> bool {
    unsigned_part(s).len() > 0 && all_digits(unsigned_part(s))
}

/// The number that a numeral writes.
pub open spec fn numeral_value(s: Seq<char>) -> nat {
    digits_value(unsigned_part(s))
}

/// The page that the text of a `page` parameter asks for: the number it
/// writes, where it is a numeral of a number that fits in `usize`, and 1
/// otherwise.
pub open spec fn page_of_text(s: Seq<char>) -> usize {
    match parse_usize_spec(s) {
        Some(p) => p,
        None => 1,
    }
}

/// The page that a request asks for, given the value of its `page`
/// parameter, if it has one: 1 where it has none.
pub open spec fn page_of_value(value: Option<Seq<char>>) -> usize {
    match value {
        Some(s) => page_of_text(s),
        None => 1,
    }
}

/// The page that a request with the query parameters `values` asks for.
pub open spec fn page_of_values(values: Map<Seq<char>, Seq<char>>) -> usize {
    if values.contains_key("page"@) {
        page_of_value(Some(values["page"@]))
    } else {
        page_of_value(None)
    }
}

/// The page that a request asks for, from the value of its `page` parameter.
pub fn page_from_value(value: Option<&str>) -> (page: usize)
    ensures
        value matches Some(s) ==> page == page_of_text(s@),
        value is None ==> page == 1,
{
    match value {
        Some(s) => match parse_usize(s) {
            Some(p) => p,
            None => 1,
        },
        None => 1,
    }
}

/// The page that a request asks for, from its query parameters: the value
/// that was given last for `page` decides.
pub fn page_of_query(query: &ParamsMap) -> (page: usize)
    ensures
        page == page_of_values(latest_values(*query)),
{
    match query.get("page") {
        Some(value) => page_from_value(Some(value.as_str())),
        None => page_from_value(None),
    }
}

/// The address of the page after `page`: the site root with the next page
/// number as its `page` parameter.
pub open spec fn next_href(page: nat) -> Seq<char> {
    "/?page="@ + decimal(page + 1)
}

/// The address that the link to the next page points to. The next number is
/// written in full even where it no longer fits in `usize`.
pub fn next_page_href(page: usize) -> (href: String)
    ensures
        href@ == next_href(page as nat),
{
    let mut href = String::from_str("/?page=");
    push_decimal(&mut href, page as u128 + 1);
    href
}

/// The text of the link to the next page: a fixed label, then the number of
/// the page that is shown.
pub open spec fn next_label(page: nat) -> Seq<char> {
    "Next Page: "@ + decimal(page)
}

/// The text of the link to the next page.
pub fn next_page_label(page: usize) -> (label: String)
    ensures
        label@ == next_label(page as nat),
{
    let mut label = String::from_str("Next Page: ");
    push_decimal(&mut label, page as u128);
    label
}

/// A `page` parameter that is a numeral of a number within `usize` asks for
/// that number, however the numeral is written (with a `+`, with leading
/// zeros).
pub proof fn lemma_numeral_gives_its_page(s: Seq<char>)
    requires
        is_numeral(s),
        numeral_value(s) <= usize::MAX,
    ensures
        page_of_text(s) == numeral_value(s),
{
}

/// A request whose `page` parameter is the decimal notation of `p` asks for
/// page `p`, for every `p` that fits in `usize`.
pub proof fn lemma_decimal_gives_its_page(values: Map<Seq<char>, Seq<char>>, p: nat)
    requires
        values.contains_key("page"@),
        values["page"@] == decimal(p),
        p <= usize::MAX,
    ensures
        page_of_values(values) == p,
{
    lemma_decimal_value(p);
}

/// A request without a `page` parameter, or with one that is no numeral, asks
/// for page 1.
pub proof fn lemma_default_page(values: Map<Seq<char>, Seq<char>>)
    requires
        !values.contains_key("page"@) || !is_numeral(values["page"@]),
    ensures
        page_of_values(values) == 1,
{
}

/// A numeral of a number that does not fit in `usize` asks for page 1 too.
pub proof fn lemma_oversized_page(s: Seq<char>)
    requires
        is_numeral(s),
        numeral_value(s) > usize::MAX,
    ensures
        page_of_text(s) == 1,
{
}

/// The value of the `page` parameter in the address of a link to the next
/// page: what follows the fixed beginning of the address.
pub open spec fn href_page_value(href: Seq<char>) -> Seq<char> {
    href.skip("/?page="@.len() as int)
}

/// The link to the next page leads to the page after the one shown: the
/// `page` parameter in its address asks for `page + 1`, as long as that number
/// fits in `usize`.
pub proof fn lemma_next_link_advances(page: nat)
    requires
        page + 1 <= usize::MAX,
    ensures
        href_page_value(next_href(page)) == decimal(page + 1),
        page_of_text(href_page_value(next_href(page))) == page + 1,
{
    lemma_decimal_value(page + 1);
    assert(href_page_value(next_href(page)) =~= decimal(page + 1));
}

} // verus!
