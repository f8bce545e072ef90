//! The request payload that a client sends with a fetch.

use vstd::prelude::*;

verus! {

/// What a client asks for: a page number, if it names one, and the countries
/// it is interested in, in the order given. Any values are allowed.
#[derive(Debug, Clone)]
pub struct Filter {
    pub page: Option<usize>,
    pub countries: Vec<i32>,
}

/// A `Filter` as mathematical values.
pub struct FilterView {
    pub page: Option<nat>,
    pub countries: Seq<int>,
}

impl View for Filter {
    type V = FilterView;

    open spec fn view(&self) -> FilterView {
        FilterView {
            page: match self.page {
                Some(p) => Some(p as nat),
                None => None,
            },
            countries: self.countries@.map_values(|c: i32| c as int),
        }
    }
}

} // verus!
