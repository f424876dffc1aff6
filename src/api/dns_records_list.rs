//! The DNS records list command.
use vstd::prelude::*;

use crate::args::fqdn::{build_fqdn_req, fqdn_given, fqdn_request, has_fqdn};
use crate::command_handler::GandiSubCommandHandler;
use crate::config::Configuration;
use crate::display::{flatten_lines, lemma_flatten_lines_step, lines_view, print_line, Line, LineView};
use crate::parsed_args::ParsedArgs;
use crate::request::{Request, RequestView};
use crate::text::{decimal, decimal_spec};

verus! {

/// Start of the route, before the domain name.
pub const ROUTE_PREFIX: &'static str = "/v5/livedns/domains/";

/// End of the route, after the domain name.
pub const ROUTE_SUFFIX: &'static str = "/records";

/// A DNS record set.
#[derive(Debug)]
pub struct Record {
    /// URL of the record set.
    pub rrset_href: String,
    /// Time to live of the records.
    pub rrset_ttl: usize,
    pub rrset_name: String,
    /// One of "A", "AAAA", "ALIAS", "CAA", "CNAME", "MX", "NS", "TXT", ...
    pub rrset_type: String,
    pub rrset_values: Vec<String>,
}

/// The zone-file line of one value of a record set: name, TTL, `IN`, type, value.
pub open spec fn value_line(r: Record, value: Seq<char>) -> LineView {
    LineView::Text(
        r.rrset_name@ + " "@ + decimal_spec(r.rrset_ttl as nat) + " IN "@ + r.rrset_type@ + " "@
            + value,
    )
}

/// The lines of a record set: one per value.
pub open spec fn record_lines(r: Record) -> Seq<LineView> {
    flatten_lines(r.rrset_values@, |v: String| seq![value_line(r, v@)])
}

/// Append the lines of one record set to `out`.
fn print_record(out: &mut Vec<Line>, record: &Record)
    ensures
        lines_view(final(out)@) == lines_view(old(out)@) + record_lines(*record),
{
    let ghost before = lines_view(out@);
    let ghost f = |v: String| seq![value_line(*record, v@)];
    let values = &record.rrset_values;
    let mut i: usize = 0;
    assert(before + flatten_lines(values@.take(0), f) =~= before);
    while i < values.len()
        invariant
            i <= values@.len(),
            *values == record.rrset_values,
            f == (|v: String| seq![value_line(*record, v@)]),
            lines_view(out@) == before + flatten_lines(values@.take(i as int), f),
        decreases values@.len() - i,
    {
        let mut text = record.rrset_name.clone();
        text.append(" ");
        text.append(decimal(record.rrset_ttl).as_str());
        text.append(" IN ");
        text.append(record.rrset_type.as_str());
        text.append(" ");
        text.append(values[i].as_str());
        print_line(out, text);
        proof {
            lemma_flatten_lines_step(values@, f, i as int);
            assert(lines_view(out@) =~= before + flatten_lines(values@.take(i + 1), f));
        }
        i = i + 1;
    }
    assert(values@.take(values@.len() as int) =~= values@);
}

/// The "list dns records" command.
pub struct DnsRecordsListCommand {}

impl GandiSubCommandHandler for DnsRecordsListCommand {
    type Item = Vec<Record>;

    open spec fn route_spec() -> Seq<Seq<char>> {
        seq!["list"@, "dns"@, "records"@]
    }

    fn route() -> (r: Vec<&'static str>) {
        let r = vec!["list", "dns", "records"];
        assert(crate::command_handler::names_view(r@) =~= Self::route_spec());
        r
    }

    open spec fn accepts_spec(params: ParsedArgs) -> bool {
        has_fqdn(params)
    }

    fn accepts(params: &ParsedArgs) -> (r: bool) {
        fqdn_given(params)
    }

    open spec fn request_spec(config: Configuration, params: ParsedArgs) -> RequestView {
        fqdn_request(config, ROUTE_PREFIX@, ROUTE_SUFFIX@, params)
    }

    fn build_req(config: &Configuration, params: &ParsedArgs) -> (r: Request) {
        build_fqdn_req(config, ROUTE_PREFIX, ROUTE_SUFFIX, params)
    }

    open spec fn human_spec(items: Vec<Record>) -> Seq<LineView> {
        flatten_lines(items@, |r: Record| record_lines(r))
    }

    fn display_human_result(items: &Vec<Record>) -> (r: Vec<Line>) {
        let ghost f = |r: Record| record_lines(r);
        let mut out: Vec<Line> = Vec::new();
        let mut i: usize = 0;
        assert(lines_view(out@) =~= flatten_lines(items@.take(0), f));
        while i < items.len()
            invariant
                i <= items@.len(),
                f == (|r: Record| record_lines(r)),
                lines_view(out@) == flatten_lines(items@.take(i as int), f),
            decreases items@.len() - i,
        {
            print_record(&mut out, &items[i]);
            proof {
                lemma_flatten_lines_step(items@, f, i as int);
            }
            i = i + 1;
        }
        assert(items@.take(items@.len() as int) =~= items@);
        out
    }

    open spec fn human_headers_spec(headers: Seq<(Seq<char>, Seq<char>)>) -> Seq<LineView> {
        Seq::empty()
    }

    fn display_human_headers(headers: &Vec<(String, String)>) -> (r: Vec<Line>) {
        let out: Vec<Line> = Vec::new();
        assert(lines_view(out@) =~= Seq::empty());
        out
    }
}

} // verus!
