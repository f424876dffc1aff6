//! The organization list command.
use vstd::prelude::*;

use crate::api::domain_list::{build_listing_req, listing_request};
use crate::command_handler::GandiSubCommandHandler;
use crate::config::Configuration;
use crate::display::{
    flatten_lines, lemma_flatten_lines_step, lines_view, print_blank, print_flag, print_info,
    Line, LineView,
};
use crate::parsed_args::ParsedArgs;
use crate::request::{Request, RequestView};

verus! {

/// Path of the route.
pub const ROUTE: &'static str = "/v5/organization/organizations";

/// An organization as the API describes it.
#[derive(Debug)]
pub struct Organization {
    pub id: String,
    /// Display name.
    pub name: String,
    /// Type of the organization.
    pub type_: String,
    /// Whether the organization is a corporation.
    pub corporate: Option<bool>,
    /// Whether the organization is a reseller.
    pub reseller: Option<bool>,
    pub email: Option<String>,
    pub firstname: Option<String>,
    pub lastname: Option<String>,
    /// The company, association, or public body name of a non-individual organization.
    pub orgname: Option<String>,
    /// Siren number of a non-individual organization.
    pub siren: Option<String>,
    /// VAT number of a non-individual organization.
    pub vat_number: Option<String>,
}

/// The name line of an organization: its own name where it has one, else
/// the first and last name of the person where both are known, else none.
pub open spec fn orgname_lines(o: Organization) -> Seq<LineView> {
    match o.orgname {
        Some(n) => seq![LineView::Info("orgname"@, n@)],
        None => match (o.firstname, o.lastname) {
            (Some(f), Some(l)) => seq![LineView::Info("orgname"@, f@ + " "@ + l@)],
            _ => Seq::empty(),
        },
    }
}

/// The lines of one organization: id, type and name, its name line, its
/// email where known, and the reseller and corporate flags where set.
pub open spec fn organization_lines(o: Organization) -> Seq<LineView> {
    seq![
        LineView::Blank,
        LineView::Info("id"@, o.id@),
        LineView::Info("type"@, o.type_@),
        LineView::Info("name"@, o.name@),
    ] + orgname_lines(o) + match o.email {
        Some(e) => seq![LineView::Info("email"@, e@)],
        None => Seq::empty(),
    } + (if o.reseller == Some(true) {
        seq![LineView::Flag("reseller"@, true)]
    } else {
        Seq::empty()
    }) + (if o.corporate == Some(true) {
        seq![LineView::Flag("corporate"@, true)]
    } else {
        Seq::empty()
    })
}

/// Append the lines of one organization to `out`.
fn print_organization(out: &mut Vec<Line>, o: &Organization)
    ensures
        lines_view(final(out)@) == lines_view(old(out)@) + organization_lines(*o),
{
    let ghost before = lines_view(out@);
    print_blank(out);
    print_info(out, "id", o.id.as_str());
    print_info(out, "type", o.type_.as_str());
    print_info(out, "name", o.name.as_str());
    let ghost after_name = lines_view(out@);
    if let Some(orgname) = &o.orgname {
        print_info(out, "orgname", orgname.as_str());
    } else if let (Some(firstname), Some(lastname)) = (&o.firstname, &o.lastname) {
        let mut full = firstname.clone();
        full.append(" ");
        full.append(lastname.as_str());
        print_info(out, "orgname", full.as_str());
    }
    assert(lines_view(out@) =~= after_name + orgname_lines(*o));
    if let Some(email) = &o.email {
        print_info(out, "email", email.as_str());
    }
    if let Some(reseller) = o.reseller {
        if reseller {
            print_flag(out, "reseller", true);
        }
    }
    if let Some(corporate) = o.corporate {
        if corporate {
            print_flag(out, "corporate", true);
        }
    }
    assert(lines_view(out@) =~= before + organization_lines(*o));
}

/// The "list organizations" command.
pub struct OrganizationListCommand {}

impl GandiSubCommandHandler for OrganizationListCommand {
    type Item = Vec<Organization>;

    open spec fn route_spec() -> Seq<Seq<char>> {
        seq!["list"@, "organizations"@]
    }

    fn route() -> (r: Vec<&'static str>) {
        let r = vec!["list", "organizations"];
        assert(crate::command_handler::names_view(r@) =~= Self::route_spec());
        r
    }

    open spec fn accepts_spec(params: ParsedArgs) -> bool {
        true
    }

    fn accepts(params: &ParsedArgs) -> (r: bool) {
        true
    }

    open spec fn request_spec(config: Configuration, params: ParsedArgs) -> RequestView {
        listing_request(config, ROUTE@, params)
    }

    fn build_req(config: &Configuration, params: &ParsedArgs) -> (r: Request) {
        build_listing_req(config, ROUTE, params)
    }

    open spec fn human_spec(items: Vec<Organization>) -> Seq<LineView> {
        flatten_lines(items@, |o: Organization| organization_lines(o))
    }

    fn display_human_result(items: &Vec<Organization>) -> (r: Vec<Line>) {
        let ghost f = |o: Organization| organization_lines(o);
        let mut out: Vec<Line> = Vec::new();
        let mut i: usize = 0;
        assert(lines_view(out@) =~= flatten_lines(items@.take(0), f));
        while i < items.len()
            invariant
                i <= items@.len(),
                f == (|o: Organization| organization_lines(o)),
                lines_view(out@) == flatten_lines(items@.take(i as int), f),
            decreases items@.len() - i,
        {
            print_organization(&mut out, &items[i]);
            proof {
                lemma_flatten_lines_step(items@, f, i as int);
            }
            i = i + 1;
        }
        assert(items@.take(items@.len() as int) =~= items@);
        out
    }

    open spec fn human_headers_spec(headers: Seq<(Seq<char>, Seq<char>)>) -> Seq<LineView> {
        Seq::empty()
    }

    fn display_human_headers(headers: &Vec<(String, String)>) -> (r: Vec<Line>) {
        let out: Vec<Line> = Vec::new();
        assert(lines_view(out@) =~= Seq::empty());
        out
    }
}

} // verus!
