//! Restriction of a query to the resources of one organization.
use vstd::prelude::*;

use crate::config::or_else;
use crate::parsed_args::ParsedArgs;
use crate::request::{Request, RequestView};

verus! {

/// The organization a query is restricted to; empty for no restriction.
#[derive(Debug)]
pub struct SharingSpace {
    pub sharing_id: String,
}

/// The request with `sharing_id` added where `id` is not empty; the same
/// request otherwise.
pub open spec fn with_sharing_id(req: RequestView, id: Seq<char>) -> RequestView {
    if id.len() > 0 {
        RequestView { query: req.query.push(("sharing_id"@, id)), ..req }
    } else {
        req
    }
}

impl SharingSpace {
    /// Read from a command's arguments: the value of `SHARING_ID`, empty
    /// where it is not given.
    pub fn from(params: &ParsedArgs) -> (r: SharingSpace)
        ensures
            r.sharing_id@ == or_else(params.spec_value_of("SHARING_ID"@), Seq::empty()),
    {
        let sharing_id = match params.value_of("SHARING_ID") {
            Some(p) => p.clone(),
            None => String::new(),
        };
        SharingSpace { sharing_id }
    }

    /// Add the query parameter `sharing_id` to the request, unless the
    /// organization is empty.
    pub fn build_req(&self, req: Request) -> (r: Request)
        ensures
            r@ == with_sharing_id(req@, self.sharing_id@),
    {
        if !self.sharing_id.as_str().is_empty() {
            req.query("sharing_id", self.sharing_id.as_str())
        } else {
            req
        }
    }
}

} // verus!
