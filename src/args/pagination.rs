//! Page selection for the listing commands.
use vstd::prelude::*;

use crate::config::or_else;
use crate::parsed_args::ParsedArgs;
use crate::request::{Request, RequestView};

verus! {

/// Which page of a listing to fetch, and how many items a page holds.
#[derive(Debug)]
pub struct Pagination {
    pub page: String,
    pub per_page: String,
}

/// The request with `page` and `per_page` added last, in that order.
pub open spec fn with_pages(req: RequestView, page: Seq<char>, per_page: Seq<char>) -> RequestView {
    RequestView { query: req.query.push(("page"@, page)).push(("per_page"@, per_page)), ..req }
}

impl Pagination {
    /// Read from a command's arguments: the values of `PAGE` and `PER_PAGE`,
    /// `1` and `100` where they are not given.
    pub fn from(params: &ParsedArgs) -> (r: Pagination)
        ensures
            r.page@ == or_else(params.spec_value_of("PAGE"@), "1"@),
            r.per_page@ == or_else(params.spec_value_of("PER_PAGE"@), "100"@),
    {
        let page = match params.value_of("PAGE") {
            Some(p) => p.clone(),
            None => String::from_str("1"),
        };
        let per_page = match params.value_of("PER_PAGE") {
            Some(p) => p.clone(),
            None => String::from_str("100"),
        };
        Pagination { page, per_page }
    }

    /// Add the query parameters `page` and `per_page` to the request.
    pub fn build_req(&self, req: Request) -> (r: Request)
        ensures
            r@ == with_pages(req@, self.page@, self.per_page@),
    {
        req.query("page", self.page.as_str()).query("per_page", self.per_page.as_str())
    }
}

} // verus!
