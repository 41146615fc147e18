//! OData response wrapper

use vstd::prelude::*;

verus! {

/// Generic OData response with value array
#[derive(Debug)]
pub struct ODataResponse<T> {
    pub value: Vec<T>,
    pub next_link: Option<String>,
    pub count: Option<i64>,
}

} // verus!
