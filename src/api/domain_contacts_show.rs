//! The domain contacts command.
use vstd::prelude::*;

use crate::args::fqdn::{build_fqdn_req, fqdn_given, fqdn_request, has_fqdn};
use crate::command_handler::GandiSubCommandHandler;
use crate::config::{opt_view, or_else, Configuration};
use crate::display::{lines_view, print_info, Line, LineView};
use crate::parsed_args::ParsedArgs;
use crate::request::{Request, RequestView};

verus! {

/// Start of the route, before the domain name.
pub const ROUTE_PREFIX: &'static str = "/v5/domain/domains/";

/// End of the route, after the domain name.
pub const ROUTE_SUFFIX: &'static str = "/contacts";

/// The organization that owns a domain.
#[derive(Debug)]
pub struct SharingSpace {
    pub id: String,
    pub name: String,
    /// Whether the organization is a reseller.
    pub reseller: Option<bool>,
}

/// A contact of a domain.
#[derive(Debug)]
pub struct Contact {
    /// Whether the contact is the owner's; never set on the owner itself.
    pub same_as_owner: Option<bool>,
    /// 0: person, 1: company, 2: association, 3: public body.
    pub type_: usize,
    /// Legal name of the company, association or public body.
    pub orgname: Option<String>,
    pub given: String,
    pub family: String,
    pub streetaddr: String,
    pub zip: Option<String>,
    pub city: Option<String>,
    pub state: Option<String>,
    pub country: String,
    pub email: String,
    pub mail_obfuscated: Option<bool>,
    /// One of "pending", "done", "failed", "deleted", "none".
    pub reachability: Option<String>,
    /// One of "pending", "done", "failed", "deleted", "none".
    pub validation: Option<String>,
    pub phone: Option<String>,
    pub fax: Option<String>,
    pub mobile: Option<String>,
    pub data_obfuscated: Option<bool>,
    pub extra_parameters: Option<Vec<(String, String)>>,
    pub siren: Option<String>,
    pub brand_number: Option<String>,
    pub jo_announce_number: Option<String>,
    pub jo_announce_page: Option<String>,
    pub jo_declaration_date: Option<String>,
    pub jo_publication_date: Option<String>,
    pub sharing_id: Option<String>,
}

/// The four contacts of a domain.
#[derive(Debug)]
pub struct Contacts {
    pub owner: Contact,
    pub admin: Contact,
    pub tech: Contact,
    pub bill: Contact,
}

/// How a contact is named: `"given family" <email>` for a person,
/// `"orgname" <email>` otherwise (`NO ORGNAME SET` where there is none),
/// followed by ` (name)` of the organization where one is given.
pub open spec fn contact_text(c: Contact, sharing: Option<SharingSpace>) -> Seq<char> {
    let base = if c.type_ == 0 {
        "\""@ + c.given@ + " "@ + c.family@ + "\" <"@ + c.email@ + ">"@
    } else {
        "\""@ + or_else(opt_view(c.orgname), "NO ORGNAME SET"@) + "\" <"@ + c.email@ + ">"@
    };
    match sharing {
        Some(s) => base + " ("@ + s.name@ + ")"@,
        None => base,
    }
}

/// The lines of a domain's contacts: the owner, with the owning
/// organization where it is given, then each of admin, tech and bill that
/// is not the owner's.
pub open spec fn contacts_lines(c: Contacts, sharing: Option<SharingSpace>) -> Seq<LineView> {
    seq![LineView::Info("owner"@, contact_text(c.owner, sharing))] + (if c.admin.same_as_owner
        != Some(true) {
        seq![LineView::Info("admin"@, contact_text(c.admin, None))]
    } else {
        Seq::empty()
    }) + (if c.tech.same_as_owner != Some(true) {
        seq![LineView::Info("tech"@, contact_text(c.tech, None))]
    } else {
        Seq::empty()
    }) + (if c.bill.same_as_owner != Some(true) {
        seq![LineView::Info("bill"@, contact_text(c.bill, None))]
    } else {
        Seq::empty()
    })
}

/// Append the line of one contact, under the label `type_`, to `out`.
pub fn print_contact(
    out: &mut Vec<Line>,
    type_: &str,
    contact: &Contact,
    sharing_space: Option<&SharingSpace>,
)
    ensures
        lines_view(final(out)@) == lines_view(old(out)@).push(
            LineView::Info(
                type_@,
                contact_text(
                    *contact,
                    match sharing_space {
                        Some(s) => Some(*s),
                        None => None,
                    },
                ),
            ),
        ),
{
    let mut text = String::from_str("\"");
    if contact.type_ == 0 {
        text.append(contact.given.as_str());
        text.append(" ");
        text.append(contact.family.as_str());
    } else {
        match &contact.orgname {
            Some(orgname) => text.append(orgname.as_str()),
            None => text.append("NO ORGNAME SET"),
        }
    }
    text.append("\" <");
    text.append(contact.email.as_str());
    text.append(">");
    if let Some(sharing) = sharing_space {
        text.append(" (");
        text.append(sharing.name.as_str());
        text.append(")");
    }
    print_info(out, type_, text.as_str());
}

/// Append the lines of a domain's contacts (see `contacts_lines`) to `out`.
pub fn print_contacts(out: &mut Vec<Line>, contacts: &Contacts, sharing_space: Option<&SharingSpace>)
    ensures
        lines_view(final(out)@) == lines_view(old(out)@) + contacts_lines(
            *contacts,
            match sharing_space {
                Some(s) => Some(*s),
                None => None,
            },
        ),
{
    let ghost before = lines_view(out@);
    print_contact(out, "owner", &contacts.owner, sharing_space);
    if !contacts.admin.same_as_owner.unwrap_or(false) {
        print_contact(out, "admin", &contacts.admin, None);
    }
    if !contacts.tech.same_as_owner.unwrap_or(false) {
        print_contact(out, "tech", &contacts.tech, None);
    }
    if !contacts.bill.same_as_owner.unwrap_or(false) {
        print_contact(out, "bill", &contacts.bill, None);
    }
    assert(lines_view(out@) =~= before + contacts_lines(
        *contacts,
        match sharing_space {
            Some(s) => Some(*s),
            None => None,
        },
    ));
}

/// The "show contacts" command.
pub struct DomainContactsShowCommand {}

impl GandiSubCommandHandler for DomainContactsShowCommand {
    type Item = Contacts;

    open spec fn route_spec() -> Seq<Seq<char>> {
        seq!["show"@, "contacts"@]
    }

    fn route() -> (r: Vec<&'static str>) {
        let r = vec!["show", "contacts"];
        assert(crate::command_handler::names_view(r@) =~= Self::route_spec());
        r
    }

    open spec fn accepts_spec(params: ParsedArgs) -> bool {
        has_fqdn(params)
    }

    fn accepts(params: &ParsedArgs) -> (r: bool) {
        fqdn_given(params)
    }

    open spec fn request_spec(config: Configuration, params: ParsedArgs) -> RequestView {
        fqdn_request(config, ROUTE_PREFIX@, ROUTE_SUFFIX@, params)
    }

    fn build_req(config: &Configuration, params: &ParsedArgs) -> (r: Request) {
        build_fqdn_req(config, ROUTE_PREFIX, ROUTE_SUFFIX, params)
    }

    open spec fn human_spec(item: Contacts) -> Seq<LineView> {
        contacts_lines(item, None)
    }

    fn display_human_result(item: &Contacts) -> (r: Vec<Line>) {
        let mut out: Vec<Line> = Vec::new();
        print_contacts(&mut out, item, None);
        assert(lines_view(out@) =~= contacts_lines(*item, None));
        out
    }

    open spec fn human_headers_spec(headers: Seq<(Seq<char>, Seq<char>)>) -> Seq<LineView> {
        Seq::empty()
    }

    fn display_human_headers(headers: &Vec<(String, String)>) -> (r: Vec<Line>) {
        let out: Vec<Line> = Vec::new();
        assert(lines_view(out@) =~= Seq::empty());
        out
    }
}

} // verus!
