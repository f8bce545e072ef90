//! The home page: what it fetches and what it shows of the answer.

use crate::filter::{Filter, FilterView};
use leptos::server_fn::error::ServerFnError;
use vstd::pervasive::unreached;
use vstd::prelude::*;
use vstd::string::*;

verus! {

/// The filter that the home page sends with its fetch. The page is fetched
/// anew whenever the page number of the request changes, but the filter does
/// not depend on that number: it always names page 1 and no countries.
pub fn fetch_filter(page_num: usize) -> (filter: Filter)
    ensures
        filter@ == (FilterView { page: Some(1), countries: Seq::empty() }),
{
    let filter = Filter { page: Some(1), countries: Vec::new() };
    assert(filter@.countries =~= Seq::<int>::empty());
    filter
}

/// What the page shows in place of an answer while its slot is empty.
pub open spec fn empty_slot_text() -> Seq<char> {
    "error"@
}

/// What the page shows while the fetch is under way.
pub open spec fn pending_text() -> Seq<char> {
    "Loading"@
}

/// The text shown while the fetch is under way.
pub fn loading_text() -> (text: String)
    ensures
        text@ == pending_text(),
{
    String::from_str("Loading")
}

/// The text shown for the slot that holds the answer to the fetch: the answer
/// itself once it is there, and a fixed placeholder while the slot is empty.
/// A failed fetch has no text: the caller must not hand one in.
pub fn body_text(slot: Option<Result<String, ServerFnError>>) -> (text: String)
    requires
        slot matches Some(answer) ==> answer is Ok,
    ensures
        slot matches Some(Ok(answer)) ==> text@ == answer@,
        slot is None ==> text@ == empty_slot_text(),
{
    match slot {
        Some(Ok(answer)) => answer,
        Some(Err(_)) => unreached(),
        None => String::from_str("error"),
    }
}

} // verus!
