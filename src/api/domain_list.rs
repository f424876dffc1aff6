//! The domain list command.
use vstd::prelude::*;

use crate::args::pagination::Pagination;
use crate::args::sharing_id::{with_sharing_id, SharingSpace};
use crate::command_handler::GandiSubCommandHandler;
use crate::config::{headers_spec, or_else, Configuration};
use crate::display::{
    flatten_lines, lemma_flatten_lines_step, lines_view, list_lines, opt_strings_view, print_blank,
    print_flag, print_info, print_tags, Line, LineView,
};
use crate::parsed_args::ParsedArgs;
use crate::request::{find_value, first_pair_value, pairs_view, Request, RequestView};

verus! {

/// Path of the route.
pub const ROUTE: &'static str = "/v5/domain/domains";

/// A domain as the listing shows it.
#[derive(Debug)]
pub struct Domain {
    pub id: String,
    /// The organization that owns the domain.
    pub orga_owner: String,
    pub owner: String,
    /// The sharing id of the owner (an organization id).
    pub sharing_id: Option<String>,
    /// Fully qualified domain name, written in its native alphabet (IDN).
    pub fqdn: String,
    /// Fully qualified domain name, written in unicode.
    pub fqdn_unicode: String,
    /// Whether the domain is renewed automatically before it expires.
    pub autorenew: bool,
    pub tld: String,
    pub tags: Option<Vec<String>>,
}

/// The lines of one listed domain: its name, id and organization, its owner
/// where that is not the organization, its renewal state and its tags.
pub open spec fn domain_lines(d: Domain) -> Seq<LineView> {
    seq![
        LineView::Blank,
        LineView::Info("fqdn"@, d.fqdn_unicode@),
        LineView::Info("id"@, d.id@),
        LineView::Info("organization"@, d.orga_owner@),
    ] + (if d.owner@ != d.orga_owner@ {
        seq![LineView::Info("owner"@, d.owner@)]
    } else {
        Seq::empty()
    }) + seq![LineView::Flag("autorenew"@, d.autorenew)] + list_lines("tags"@, opt_strings_view(d.tags))
}

/// Append the lines of one listed domain to `out`.
fn print_domain(out: &mut Vec<Line>, domain: &Domain)
    ensures
        lines_view(final(out)@) == lines_view(old(out)@) + domain_lines(*domain),
{
    let ghost before = lines_view(out@);
    print_blank(out);
    print_info(out, "fqdn", domain.fqdn_unicode.as_str());
    print_info(out, "id", domain.id.as_str());
    print_info(out, "organization", domain.orga_owner.as_str());
    if domain.owner != domain.orga_owner {
        print_info(out, "owner", domain.owner.as_str());
    }
    print_flag(out, "autorenew", domain.autorenew);
    print_tags(out, &domain.tags);
    assert(lines_view(out@) =~= before + domain_lines(*domain));
}

/// The query of a listing: page, page size, and organization where one is
/// given.
pub open spec fn listing_request(config: Configuration, route: Seq<char>, params: ParsedArgs) -> RequestView {
    with_sharing_id(
        RequestView {
            url: config.endpoint@ + route,
            headers: headers_spec(config.apikey@),
            query: seq![
                ("page"@, or_else(params.spec_value_of("PAGE"@), "1"@)),
                ("per_page"@, or_else(params.spec_value_of("PER_PAGE"@), "100"@)),
            ],
        },
        or_else(params.spec_value_of("SHARING_ID"@), Seq::empty()),
    )
}

/// Build the request of a listing of `route`: page, page size, and
/// organization where one is given.
pub fn build_listing_req(config: &Configuration, route: &str, params: &ParsedArgs) -> (r: Request)
    ensures
        r@ == listing_request(*config, route@, *params),
{
    let pagination = Pagination::from(params);
    let sharing_space = SharingSpace::from(params);
    let req = config.build_req(route);
    let req = pagination.build_req(req);
    let r = sharing_space.build_req(req);
    assert(Seq::<(Seq<char>, Seq<char>)>::empty().push(("page"@, pagination.page@)).push(
        ("per_page"@, pagination.per_page@),
    ) =~= seq![("page"@, pagination.page@), ("per_page"@, pagination.per_page@)]);
    r
}

/// The "list domains" command.
pub struct DomainListCommand {}

impl GandiSubCommandHandler for DomainListCommand {
    type Item = Vec<Domain>;

    open spec fn route_spec() -> Seq<Seq<char>> {
        seq!["list"@, "domains"@]
    }

    fn route() -> (r: Vec<&'static str>) {
        let r = vec!["list", "domains"];
        assert(crate::command_handler::names_view(r@) =~= Self::route_spec());
        r
    }

    open spec fn accepts_spec(params: ParsedArgs) -> bool {
        true
    }

    fn accepts(params: &ParsedArgs) -> (r: bool) {
        true
    }

    open spec fn request_spec(config: Configuration, params: ParsedArgs) -> RequestView {
        listing_request(config, ROUTE@, params)
    }

    fn build_req(config: &Configuration, params: &ParsedArgs) -> (r: Request) {
        build_listing_req(config, ROUTE, params)
    }

    open spec fn human_spec(items: Vec<Domain>) -> Seq<LineView> {
        flatten_lines(items@, |d: Domain| domain_lines(d))
    }

    fn display_human_result(items: &Vec<Domain>) -> (r: Vec<Line>) {
        let ghost f = |d: Domain| domain_lines(d);
        let mut out: Vec<Line> = Vec::new();
        let mut i: usize = 0;
        assert(lines_view(out@) =~= flatten_lines(items@.take(0), f));
        while i < items.len()
            invariant
                i <= items@.len(),
                f == (|d: Domain| domain_lines(d)),
                lines_view(out@) == flatten_lines(items@.take(i as int), f),
            decreases items@.len() - i,
        {
            print_domain(&mut out, &items[i]);
            proof {
                lemma_flatten_lines_step(items@, f, i as int);
            }
            i = i + 1;
        }
        assert(items@.take(items@.len() as int) =~= items@);
        out
    }

    open spec fn human_headers_spec(headers: Seq<(Seq<char>, Seq<char>)>) -> Seq<LineView> {
        seq![
            LineView::Blank,
            LineView::Info(
                "Total Count of domains:"@,
                or_else(first_pair_value(headers, "total-count"@), "MISSING"@),
            ),
        ]
    }

    /// Header names come in lower case, as HTTP normalizes them.
    fn display_human_headers(headers: &Vec<(String, String)>) -> (r: Vec<Line>) {
        let mut out: Vec<Line> = Vec::new();
        print_blank(&mut out);
        match find_value(headers, "total-count") {
            Some(v) => print_info(&mut out, "Total Count of domains:", v.as_str()),
            None => print_info(&mut out, "Total Count of domains:", "MISSING"),
        }
        assert(lines_view(out@) =~= Self::human_headers_spec(pairs_view(headers@)));
        out
    }
}

} // verus!
