//! The domain show command.
use vstd::prelude::*;

use crate::api::domain_contacts_show::{contacts_lines, print_contacts, Contacts, SharingSpace};
use crate::args::fqdn::{build_fqdn_req, fqdn_given, fqdn_request, has_fqdn};
use crate::command_handler::GandiSubCommandHandler;
use crate::config::Configuration;
use crate::display::{
    lines_view, list_lines, opt_strings_view, print_flag, print_info, print_list, print_tags, Line,
    LineView,
};
use crate::parsed_args::ParsedArgs;
use crate::request::{Request, RequestView};

verus! {

/// Start of the route, before the domain name.
pub const ROUTE_PREFIX: &'static str = "/v5/domain/domains/";

/// End of the route, after the domain name.
pub const ROUTE_SUFFIX: &'static str = "";

/// How a domain is renewed.
#[derive(Debug)]
pub struct Autorenew {
    pub href: String,
    pub date: Option<Vec<String>>,
    pub duration: usize,
    /// Whether the domain is renewed automatically.
    pub enabled: bool,
    /// The organization that pays the renewal.
    pub org_id: Option<String>,
}

/// A domain as the API describes it.
#[derive(Debug)]
pub struct Domain {
    pub id: String,
    /// Fully qualified domain name, written in its native alphabet (IDN).
    pub fqdn: String,
    /// Fully qualified domain name, written in unicode.
    pub fqdn_unicode: String,
    pub tld: String,
    /// Whether the registry of the TLD supports locking.
    pub can_tld_lock: bool,
    /// The code used to transfer the domain out.
    pub authinfo: String,
    /// Names of the name servers.
    pub nameservers: Option<Vec<String>>,
    /// Services attached to the domain.
    pub services: Option<Vec<String>>,
    pub tags: Option<Vec<String>>,
    /// The organization that owns the domain.
    pub sharing_space: SharingSpace,
    pub autorenew: Autorenew,
    pub contacts: Contacts,
}

/// The lines of a domain: id, name, renewal state, name servers, services,
/// contacts (the owner with the owning organization) and tags.
pub open spec fn domain_show_lines(d: Domain) -> Seq<LineView> {
    seq![
        LineView::Info("id"@, d.id@),
        LineView::Info("fqdn"@, d.fqdn_unicode@),
        LineView::Flag("autorenew"@, d.autorenew.enabled),
    ] + list_lines("nameservers"@, opt_strings_view(d.nameservers)) + list_lines(
        "services"@,
        opt_strings_view(d.services),
    ) + contacts_lines(d.contacts, Some(d.sharing_space)) + list_lines(
        "tags"@,
        opt_strings_view(d.tags),
    )
}

/// The "show domain" command.
pub struct DomainShowCommand {}

impl GandiSubCommandHandler for DomainShowCommand {
    type Item = Domain;

    open spec fn route_spec() -> Seq<Seq<char>> {
        seq!["show"@, "domain"@]
    }

    fn route() -> (r: Vec<&'static str>) {
        let r = vec!["show", "domain"];
        assert(crate::command_handler::names_view(r@) =~= Self::route_spec());
        r
    }

    open spec fn accepts_spec(params: ParsedArgs) -> bool {
        has_fqdn(params)
    }

    fn accepts(params: &ParsedArgs) -> (r: bool) {
        fqdn_given(params)
    }

    open spec fn request_spec(config: Configuration, params: ParsedArgs) -> RequestView {
        fqdn_request(config, ROUTE_PREFIX@, ROUTE_SUFFIX@, params)
    }

    fn build_req(config: &Configuration, params: &ParsedArgs) -> (r: Request) {
        build_fqdn_req(config, ROUTE_PREFIX, ROUTE_SUFFIX, params)
    }

    open spec fn human_spec(item: Domain) -> Seq<LineView> {
        domain_show_lines(item)
    }

    fn display_human_result(domain: &Domain) -> (r: Vec<Line>) {
        let mut out: Vec<Line> = Vec::new();
        print_info(&mut out, "id", domain.id.as_str());
        print_info(&mut out, "fqdn", domain.fqdn_unicode.as_str());
        print_flag(&mut out, "autorenew", domain.autorenew.enabled);
        print_list(&mut out, "nameservers", &domain.nameservers);
        print_list(&mut out, "services", &domain.services);
        print_contacts(&mut out, &domain.contacts, Some(&domain.sharing_space));
        print_tags(&mut out, &domain.tags);
        assert(lines_view(out@) =~= domain_show_lines(*domain));
        out
    }

    open spec fn human_headers_spec(headers: Seq<(Seq<char>, Seq<char>)>) -> Seq<LineView> {
        Seq::empty()
    }

    fn display_human_headers(headers: &Vec<(String, String)>) -> (r: Vec<Line>) {
        let out: Vec<Line> = Vec::new();
        assert(lines_view(out@) =~= Seq::empty());
        out
    }
}

} // verus!
