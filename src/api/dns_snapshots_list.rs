//! The DNS snapshots list command.
use vstd::prelude::*;

use crate::args::fqdn::{build_fqdn_req, fqdn_given, fqdn_request, has_fqdn};
use crate::command_handler::GandiSubCommandHandler;
use crate::config::Configuration;
use crate::datetime::{rfc2822_of, UtcTime};
use crate::display::{flatten_lines, lemma_flatten_lines_step, lines_view, print_info, Line, LineView};
use crate::parsed_args::ParsedArgs;
use crate::request::{Request, RequestView};

verus! {

/// Start of the route, before the domain name.
pub const ROUTE_PREFIX: &'static str = "/v5/livedns/domains/";

/// End of the route, after the domain name.
pub const ROUTE_SUFFIX: &'static str = "/snapshots";

/// A snapshot of a DNS zone.
#[derive(Debug)]
pub struct Snapshot {
    pub id: String,
    /// When the snapshot was taken.
    pub created_at: UtcTime,
    pub name: String,
}

/// The lines of one snapshot: its id, its name and when it was taken.
pub open spec fn snapshot_lines(s: Snapshot) -> Seq<LineView> {
    seq![
        LineView::Info("Id:"@, s.id@),
        LineView::Info("Name:"@, s.name@),
        LineView::Info("Created at:"@, rfc2822_of(s.created_at.seconds())),
    ]
}

/// Append the lines of one snapshot to `out`.
fn print_snapshot(out: &mut Vec<Line>, s: &Snapshot)
    ensures
        lines_view(final(out)@) == lines_view(old(out)@) + snapshot_lines(*s),
{
    let ghost before = lines_view(out@);
    print_info(out, "Id:", s.id.as_str());
    print_info(out, "Name:", s.name.as_str());
    print_info(out, "Created at:", s.created_at.to_rfc2822().as_str());
    assert(lines_view(out@) =~= before + snapshot_lines(*s));
}

/// The "list dns snapshot" command.
pub struct DnsSnapshotsListCommand {}

impl GandiSubCommandHandler for DnsSnapshotsListCommand {
    type Item = Vec<Snapshot>;

    open spec fn route_spec() -> Seq<Seq<char>> {
        seq!["list"@, "dns"@, "snapshot"@]
    }

    fn route() -> (r: Vec<&'static str>) {
        let r = vec!["list", "dns", "snapshot"];
        assert(crate::command_handler::names_view(r@) =~= Self::route_spec());
        r
    }

    open spec fn accepts_spec(params: ParsedArgs) -> bool {
        has_fqdn(params)
    }

    fn accepts(params: &ParsedArgs) -> (r: bool) {
        fqdn_given(params)
    }

    open spec fn request_spec(config: Configuration, params: ParsedArgs) -> RequestView {
        fqdn_request(config, ROUTE_PREFIX@, ROUTE_SUFFIX@, params)
    }

    fn build_req(config: &Configuration, params: &ParsedArgs) -> (r: Request) {
        build_fqdn_req(config, ROUTE_PREFIX, ROUTE_SUFFIX, params)
    }

    open spec fn human_spec(items: Vec<Snapshot>) -> Seq<LineView> {
        flatten_lines(items@, |s: Snapshot| snapshot_lines(s))
    }

    fn display_human_result(items: &Vec<Snapshot>) -> (r: Vec<Line>) {
        let ghost f = |s: Snapshot| snapshot_lines(s);
        let mut out: Vec<Line> = Vec::new();
        let mut i: usize = 0;
        assert(lines_view(out@) =~= flatten_lines(items@.take(0), f));
        while i < items.len()
            invariant
                i <= items@.len(),
                f == (|s: Snapshot| snapshot_lines(s)),
                lines_view(out@) == flatten_lines(items@.take(i as int), f),
            decreases items@.len() - i,
        {
            print_snapshot(&mut out, &items[i]);
            proof {
                lemma_flatten_lines_step(items@, f, i as int);
            }
            i = i + 1;
        }
        assert(items@.take(items@.len() as int) =~= items@);
        out
    }

    open spec fn human_headers_spec(headers: Seq<(Seq<char>, Seq<char>)>) -> Seq<LineView> {
        Seq::empty()
    }

    fn display_human_headers(headers: &Vec<(String, String)>) -> (r: Vec<Line>) {
        let out: Vec<Line> = Vec::new();
        assert(lines_view(out@) =~= Seq::empty());
        out
    }
}

} // verus!
