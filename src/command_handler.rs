//! The contract every command implements, and the steps all commands share:
//! routing, building the request, judging the response, and choosing how
//! the result is shown.
use vstd::prelude::*;

use crate::config::Configuration;
use crate::errors::{error_message, GandiError, GandiResult};
use crate::status::{is_success, is_success_spec, status_line, status_line_spec, valid_status};
use crate::text::decimal_spec;
use crate::display::{format_of, lines_view, Format, Line, LineView};
use crate::parsed_args::{select, ParsedArgs};
use crate::request::{pairs_view, Request, RequestView};

verus! {

/// The views of a sequence of names.
pub open spec fn names_view(v: Seq<&'static str>) -> Seq<Seq<char>> {
    v.map_values(|s: &'static str| s@)
}

/// A command's request, ready to be sent, with the format its result is
/// shown in.
pub struct Invocation {
    pub format: Format,
    pub request: Request,
}

/// How a decoded response is shown.
pub enum Rendering {
    /// The whole item, encoded in this machine-readable format, printed as it is.
    Encoded(Format),
    /// These lines, for a human reader.
    Human(Vec<Line>),
}

/// The message of the error that a response with a status outside 2xx
/// ends the run with.
pub open spec fn response_error_message(status: u16, body: Seq<char>) -> Seq<char> {
    "Request Error "@ + status_line_spec(status) + ": "@ + body
}

/// Whether `needle` occurs in `hay`.
pub open spec fn contains(hay: Seq<char>, needle: Seq<char>) -> bool {
    exists|i: int|
        0 <= i && i + needle.len() <= hay.len() && #[trigger] hay.subrange(i, i + needle.len())
            == needle
}

/// The message of a response that failed holds its status code and its body.
pub proof fn lemma_failure_message_holds_status_and_body(status: u16, body: Seq<char>)
    requires
        valid_status(status),
    ensures
        contains(response_error_message(status, body), decimal_spec(status as nat)),
        contains(response_error_message(status, body), body),
{
    reveal_strlit("Request Error ");
    let msg = response_error_message(status, body);
    let d = decimal_spec(status as nat);
    assert(msg.subrange(14, 14 + d.len() as int) =~= d);
    assert(msg.subrange(msg.len() - body.len(), msg.len() as int) =~= body);
}

/// Judge a response by its status. A 2xx status gives the body to decode,
/// or the transport's error where the body could not be read. Any other
/// status gives an error carrying the status line and the body (empty where
/// it could not be read); the body is then not decoded.
pub fn check_response(status: u16, body: Result<String, String>) -> (r: GandiResult<String>)
    requires
        valid_status(status),
    ensures
        is_success_spec(status) ==> match body {
            Ok(b) => r == Ok::<String, GandiError>(b),
            Err(m) => r == Err::<String, GandiError>(GandiError::ReqwestError(m)),
        },
        !is_success_spec(status) ==> r is Err && r->Err_0 is ReqwestResponseError
            && r->Err_0->ReqwestResponseError_0@ == status_line_spec(status)
            && r->Err_0->ReqwestResponseError_1@ == match body {
                Ok(b) => b@,
                Err(_) => Seq::<char>::empty(),
            },
        !is_success_spec(status) ==> error_message(r->Err_0) == response_error_message(
            status,
            match body {
                Ok(b) => b@,
                Err(_) => Seq::<char>::empty(),
            },
        ),
{
    if is_success(status) {
        match body {
            Ok(b) => Ok(b),
            Err(m) => Err(GandiError::ReqwestError(m)),
        }
    } else {
        let text = match body {
            Ok(b) => b,
            Err(_) => String::new(),
        };
        Err(GandiError::ReqwestResponseError(status_line(status), text))
    }
}

/// Implemented by each command.
pub trait GandiSubCommandHandler {
    /// The decoded response.
    type Item;

    /// The subcommand names, top down, that select this command.
    spec fn route_spec() -> Seq<Seq<char>>;

    /// The subcommand names, top down, that select this command.
    fn route() -> (r: Vec<&'static str>)
        ensures
            names_view(r@) == Self::route_spec();

    /// Whether the command's arguments hold what its request is built from.
    spec fn accepts_spec(params: ParsedArgs) -> bool;

    /// Whether the command's arguments hold what its request is built from.
    fn accepts(params: &ParsedArgs) -> (r: bool)
        ensures
            r == Self::accepts_spec(*params);

    /// The request the command sends.
    spec fn request_spec(config: Configuration, params: ParsedArgs) -> RequestView;

    /// Build the request the command sends.
    fn build_req(config: &Configuration, params: &ParsedArgs) -> (r: Request)
        requires
            Self::accepts_spec(*params),
        ensures
            r@ == Self::request_spec(*config, *params);

    /// The lines that show a decoded response to a human reader.
    spec fn human_spec(item: Self::Item) -> Seq<LineView>;

    /// The lines that show a decoded response to a human reader.
    fn display_human_result(item: &Self::Item) -> (r: Vec<Line>)
        ensures
            lines_view(r@) == Self::human_spec(*item);

    /// The extra lines a human reader is shown from the response headers.
    spec fn human_headers_spec(headers: Seq<(Seq<char>, Seq<char>)>) -> Seq<LineView>;

    /// The extra lines a human reader is shown from the response headers.
    fn display_human_headers(headers: &Vec<(String, String)>) -> (r: Vec<Line>)
        ensures
            lines_view(r@) == Self::human_headers_spec(pairs_view(headers@));

    /// The command's own arguments, if the parse chose this command.
    fn can_handle(matches: &ParsedArgs) -> (r: Option<&ParsedArgs>)
        ensures
            r is Some <==> select(*matches, Self::route_spec()) is Some,
            r is Some ==> *r->0 == select(*matches, Self::route_spec())->0,
    {
        let route = Self::route();
        let mut current = matches;
        let mut i: usize = 0;
        assert(names_view(route@).skip(0) =~= names_view(route@));
        while i < route.len()
            invariant
                i <= route@.len(),
                names_view(route@) == Self::route_spec(),
                select(*matches, Self::route_spec()) == select(*current, names_view(route@).skip(i as int)),
            decreases route@.len() - i,
        {
            let ghost rest = names_view(route@).skip(i as int);
            assert(rest.drop_first() =~= names_view(route@).skip(i + 1));
            match current.subcommand_matches(route[i]) {
                Some(next) => {
                    current = next;
                },
                None => {
                    return None;
                },
            }
            i = i + 1;
        }
        Some(current)
    }

    /// The format and the request of the command, from its own arguments.
    fn process(config: &Configuration, params: &ParsedArgs) -> (r: Invocation)
        requires
            Self::accepts_spec(*params),
        ensures
            r.format == format_of(*params),
            r.request@ == Self::request_spec(*config, *params),
    {
        let format = Format::from(params);
        let request = Self::build_req(config, params);
        Invocation { format, request }
    }

    /// The command's invocation, if the parse chose this command; nothing
    /// otherwise.
    fn handle(config: &Configuration, matches: &ParsedArgs) -> (r: Option<Invocation>)
        requires
            select(*matches, Self::route_spec()) is Some ==> Self::accepts_spec(
                select(*matches, Self::route_spec())->0,
            ),
        ensures
            r is Some <==> select(*matches, Self::route_spec()) is Some,
            r is Some ==> r->0.format == format_of(select(*matches, Self::route_spec())->0),
            r is Some ==> r->0.request@ == Self::request_spec(
                *config,
                select(*matches, Self::route_spec())->0,
            ),
    {
        match Self::can_handle(matches) {
            Some(params) => Some(Self::process(config, params)),
            None => None,
        }
    }

    /// How a decoded response is shown: encoded whole in a machine format,
    /// or, for a human reader, the response's lines followed by those of
    /// the headers.
    fn display_result(item: &Self::Item, format: Format, headers: &Vec<(String, String)>) -> (r:
        Rendering)
        ensures
            format != Format::HUMAN ==> r == Rendering::Encoded(format),
            format == Format::HUMAN ==> r is Human && lines_view(r->Human_0@) == Self::human_spec(
                *item,
            ) + Self::human_headers_spec(pairs_view(headers@)),
    {
        if format == Format::HUMAN {
            let mut lines = Self::display_human_result(item);
            let mut extra = Self::display_human_headers(headers);
            let ghost a = lines@;
            let ghost b = extra@;
            lines.append(&mut extra);
            assert(lines_view(lines@) =~= lines_view(a) + lines_view(b));
            Rendering::Human(lines)
        } else {
            Rendering::Encoded(format)
        }
    }
}

} // verus!
