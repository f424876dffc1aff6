//! The user-info command: who the API key belongs to.
use vstd::prelude::*;

use crate::command_handler::GandiSubCommandHandler;
use crate::config::{headers_spec, Configuration};
use crate::display::{lines_view, print_blank, print_info, print_line, Line, LineView};
use crate::parsed_args::ParsedArgs;
use crate::request::{Request, RequestView};

verus! {

/// Path of the route.
pub const ROUTE: &'static str = "/v5/organization/user-info";

/// The user an API key belongs to.
#[derive(Debug)]
pub struct UserInfo {
    /// The sharing id of the user.
    pub id: String,
    pub username: String,
    pub email: String,
    /// Language used by the user.
    pub lang: String,
    /// The sharing name of the user.
    pub name: String,
    pub city: Option<String>,
    /// Country ISO code of the address.
    pub country: Option<String>,
    pub fax: Option<String>,
    pub firstname: Option<String>,
    pub lastname: Option<String>,
    pub phone: Option<String>,
    /// State ISO code of the address.
    pub state: Option<String>,
    pub streetaddr: Option<String>,
    pub streetaddr2: Option<String>,
    pub zip: Option<String>,
}

/// The "show user-info" command.
pub struct UserInfoCommand {}

impl GandiSubCommandHandler for UserInfoCommand {
    type Item = UserInfo;

    open spec fn route_spec() -> Seq<Seq<char>> {
        seq!["show"@, "user-info"@]
    }

    fn route() -> (r: Vec<&'static str>) {
        let r = vec!["show", "user-info"];
        assert(crate::command_handler::names_view(r@) =~= Self::route_spec());
        r
    }

    open spec fn accepts_spec(params: ParsedArgs) -> bool {
        true
    }

    fn accepts(params: &ParsedArgs) -> (r: bool) {
        true
    }

    open spec fn request_spec(config: Configuration, params: ParsedArgs) -> RequestView {
        RequestView {
            url: config.endpoint@ + ROUTE@,
            headers: headers_spec(config.apikey@),
            query: Seq::empty(),
        }
    }

    fn build_req(config: &Configuration, params: &ParsedArgs) -> (r: Request) {
        config.build_req(ROUTE)
    }

    open spec fn human_spec(item: UserInfo) -> Seq<LineView> {
        seq![
            LineView::Text("User Information"@),
            LineView::Blank,
            LineView::Info("id"@, item.id@),
            LineView::Info("username"@, item.username@),
            LineView::Info("email"@, item.email@),
            LineView::Info("lang"@, item.lang@),
        ]
    }

    fn display_human_result(item: &UserInfo) -> (r: Vec<Line>) {
        let mut out: Vec<Line> = Vec::new();
        print_line(&mut out, String::from_str("User Information"));
        print_blank(&mut out);
        print_info(&mut out, "id", item.id.as_str());
        print_info(&mut out, "username", item.username.as_str());
        print_info(&mut out, "email", item.email.as_str());
        print_info(&mut out, "lang", item.lang.as_str());
        assert(lines_view(out@) =~= Self::human_spec(*item));
        out
    }

    open spec fn human_headers_spec(headers: Seq<(Seq<char>, Seq<char>)>) -> Seq<LineView> {
        Seq::empty()
    }

    fn display_human_headers(headers: &Vec<(String, String)>) -> (r: Vec<Line>) {
        let out: Vec<Line> = Vec::new();
        assert(lines_view(out@) =~= Seq::empty());
        out
    }
}

} // verus!
