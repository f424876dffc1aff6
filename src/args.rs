//! Request parameters that several commands share. Each one is read from a
//! command's arguments and adds its own query parameters to a request.

pub mod fqdn;
pub mod pagination;
pub mod sharing_id;

use vstd::prelude::*;

use crate::request::RequestView;
use pagination::with_pages;
use sharing_id::with_sharing_id;

verus! {

/// Adding the page selection and the organization, in either order, gives
/// the same request but for the order of its query parameters.
pub proof fn lemma_adapters_commute(
    req: RequestView,
    page: Seq<char>,
    per_page: Seq<char>,
    sharing_id: Seq<char>,
)
    ensures
        with_sharing_id(with_pages(req, page, per_page), sharing_id).url == with_pages(
            with_sharing_id(req, sharing_id),
            page,
            per_page,
        ).url,
        with_sharing_id(with_pages(req, page, per_page), sharing_id).headers == with_pages(
            with_sharing_id(req, sharing_id),
            page,
            per_page,
        ).headers,
        with_sharing_id(with_pages(req, page, per_page), sharing_id).query.to_multiset()
            == with_pages(with_sharing_id(req, sharing_id), page, per_page).query.to_multiset(),
{
    broadcast use vstd::seq_lib::to_multiset_build;

    let q = req.query;
    let a = ("page"@, page);
    let b = ("per_page"@, per_page);
    let c = ("sharing_id"@, sharing_id);
    if sharing_id.len() > 0 {
        assert(q.push(a).push(b).push(c).to_multiset() =~= q.push(c).push(a).push(b).to_multiset());
    }
}

} // verus!
