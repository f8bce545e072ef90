//! The query of a request, as the router hands it over.

use leptos_router::params::ParamsMap;
use vstd::prelude::*;

verus! {

/// `leptos_router::params::ParamsMap`, the router's map from the names of
/// query parameters to the values given for them. Its contents are not
/// visible here; `latest_values` stands for them.
#[verifier::external_type_specification]
#[verifier::external_body]
pub struct ExParamsMap(ParamsMap);

/// What a `ParamsMap` holds for lookups: each name that has a value, with the
/// value that was added for it last.
pub uninterp spec fn latest_values(q: ParamsMap) -> Map<Seq<char>, Seq<char>>;

/// `ParamsMap::get`: returns a copy of the value that was added last under
/// `key`, and `None` where the map has no value under `key`. This is taken
/// from the method's source, not proved.
pub assume_specification[ ParamsMap::get ](q: &ParamsMap, key: &str) -> (r: Option<String>)
    ensures
        r is Some <==> latest_values(*q).contains_key(key@),
        r matches Some(v) ==> v@ == latest_values(*q)[key@],
;

} // verus!
