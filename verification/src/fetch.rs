//! The server's side of a fetch: from a filter to the text that is shown.

use crate::decimal::{decimal, push_decimal};
use crate::filter::Filter;
use leptos::server_fn::error::{NoCustomError, ServerFnError};
use vstd::prelude::*;
use vstd::string::*;

verus! {

/// `server_fn::error::ServerFnError`, the error of a call from client to
/// server. The library never makes one and never looks into one.
#[verifier::external_type_specification]
#[verifier::external_body]
#[verifier::reject_recursive_types(E)]
pub struct ExServerFnError<E>(ServerFnError<E>);

/// `server_fn::error::NoCustomError`, the parameter that `ServerFnError` has
/// where none is written.
#[verifier::external_type_specification]
#[verifier::external_body]
pub struct ExNoCustomError(NoCustomError);

/// The text that answers a fetch: a greeting with the page number in decimal
/// notation where the filter names a page, and a fixed text where it names
/// none.
pub open spec fn greeting(page: Option<nat>) -> Seq<char> {
    match page {
        Some(p) => "hello world "@ + decimal(p),
        None => "Page 1"@,
    }
}

/// Answers a fetch. It succeeds on every filter, with `greeting` of the
/// filter's page; the countries play no part. The error type is there for the
/// transport, which can fail around this function.
pub fn load_server_fn(filter: Filter) -> (r: Result<String, ServerFnError>)
    ensures
        r matches Ok(text) && text@ == greeting(filter@.page),
{
    if let Some(page) = filter.page {
        let mut text = String::from_str("hello world ");
        push_decimal(&mut text, page as u128);
        Ok(text)
    } else {
        Ok(String::from_str("Page 1"))
    }
}

} // verus!
