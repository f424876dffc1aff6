//! The glue records command: the hosts registered under a domain.
use vstd::prelude::*;

use crate::args::fqdn::{build_fqdn_req, fqdn_given, fqdn_request, has_fqdn};
use crate::command_handler::GandiSubCommandHandler;
use crate::config::Configuration;
use crate::display::{
    flatten_lines, lemma_flatten_lines_step, lines_view, list_lines, print_info, print_list,
    strings_view, Line, LineView,
};
use crate::parsed_args::ParsedArgs;
use crate::request::{Request, RequestView};

verus! {

/// Start of the route, before the domain name.
pub const ROUTE_PREFIX: &'static str = "/v5/domain/domains/";

/// End of the route, after the domain name.
pub const ROUTE_SUFFIX: &'static str = "/hosts";

/// A host registered under a domain.
#[derive(Debug)]
pub struct GlueRecord {
    /// Fully qualified domain name, written in its native alphabet (IDN).
    pub fqdn: String,
    /// Fully qualified domain name, written in unicode.
    pub fqdn_unicode: String,
    /// Name of the host (the FQDN without the domain part).
    pub name: String,
    /// URL of the host's details.
    pub href: String,
    /// The host's registered IP addresses.
    pub ips: Vec<String>,
}

/// The lines of one host: its name in unicode, its short name, its addresses.
pub open spec fn glue_lines(g: GlueRecord) -> Seq<LineView> {
    seq![LineView::Info("fqdn"@, g.fqdn_unicode@), LineView::Info("name"@, g.name@)] + list_lines(
        "ips"@,
        Some(strings_view(g.ips@)),
    )
}

/// Append the lines of one host to `out`.
fn print_glue(out: &mut Vec<Line>, g: &GlueRecord)
    ensures
        lines_view(final(out)@) == lines_view(old(out)@) + glue_lines(*g),
{
    let ghost before = lines_view(out@);
    print_info(out, "fqdn", g.fqdn_unicode.as_str());
    print_info(out, "name", g.name.as_str());
    let ips = Some(g.ips.clone());
    print_list(out, "ips", &ips);
    assert(lines_view(out@) =~= before + glue_lines(*g));
}

/// The "show glue-records" command.
pub struct DomainGlueRecordsShowCommand {}

impl GandiSubCommandHandler for DomainGlueRecordsShowCommand {
    type Item = Vec<GlueRecord>;

    open spec fn route_spec() -> Seq<Seq<char>> {
        seq!["show"@, "glue-records"@]
    }

    fn route() -> (r: Vec<&'static str>) {
        let r = vec!["show", "glue-records"];
        assert(crate::command_handler::names_view(r@) =~= Self::route_spec());
        r
    }

    open spec fn accepts_spec(params: ParsedArgs) -> bool {
        has_fqdn(params)
    }

    fn accepts(params: &ParsedArgs) -> (r: bool) {
        fqdn_given(params)
    }

    open spec fn request_spec(config: Configuration, params: ParsedArgs) -> RequestView {
        fqdn_request(config, ROUTE_PREFIX@, ROUTE_SUFFIX@, params)
    }

    fn build_req(config: &Configuration, params: &ParsedArgs) -> (r: Request) {
        build_fqdn_req(config, ROUTE_PREFIX, ROUTE_SUFFIX, params)
    }

    open spec fn human_spec(items: Vec<GlueRecord>) -> Seq<LineView> {
        flatten_lines(items@, |g: GlueRecord| glue_lines(g))
    }

    fn display_human_result(items: &Vec<GlueRecord>) -> (r: Vec<Line>) {
        let ghost f = |g: GlueRecord| glue_lines(g);
        let mut out: Vec<Line> = Vec::new();
        let mut i: usize = 0;
        assert(lines_view(out@) =~= flatten_lines(items@.take(0), f));
        while i < items.len()
            invariant
                i <= items@.len(),
                f == (|g: GlueRecord| glue_lines(g)),
                lines_view(out@) == flatten_lines(items@.take(i as int), f),
            decreases items@.len() - i,
        {
            print_glue(&mut out, &items[i]);
            proof {
                lemma_flatten_lines_step(items@, f, i as int);
            }
            i = i + 1;
        }
        assert(items@.take(items@.len() as int) =~= items@);
        out
    }

    open spec fn human_headers_spec(headers: Seq<(Seq<char>, Seq<char>)>) -> Seq<LineView> {
        Seq::empty()
    }

    fn display_human_headers(headers: &Vec<(String, String)>) -> (r: Vec<Line>) {
        let out: Vec<Line> = Vec::new();
        assert(lines_view(out@) =~= Seq::empty());
        out
    }
}

} // verus!
