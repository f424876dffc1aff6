//! The client's configuration.
use vstd::prelude::*;

use crate::parsed_args::ParsedArgs;
use crate::request::{pairs_view, Request, RequestView};
use crate::text::str_eq;
use crate::user_agent::{user_agent, user_agent_spec};

verus! {

/// The API's address where nothing else is configured.
pub open spec fn default_endpoint_spec() -> Seq<char> {
    "https://api.gandi.net"@
}

/// The API's address where nothing else is configured.
pub fn default_endpoint() -> (r: String)
    ensures
        r@ == default_endpoint_spec(),
{
    String::from_str("https://api.gandi.net")
}

/// Whether a configuration file lets the environment override it, where it
/// does not say.
pub fn default_use_env_vars() -> (r: bool)
    ensures
        r == false,
{
    false
}

/// Client configuration. Built once when the program starts, read-only after.
#[derive(Debug)]
pub struct Configuration {
    /// API key used to do the calls.
    pub apikey: String,
    /// Address of the public API.
    pub endpoint: String,
    /// Whether the environment overrides the values of a configuration file.
    pub use_env_vars: bool,
}

/// An optional string's view.
pub open spec fn opt_view(o: Option<String>) -> Option<Seq<char>> {
    match o {
        Some(s) => Some(s@),
        None => None,
    }
}

/// `o`'s value, or `d` where it has none.
pub open spec fn or_else(o: Option<Seq<char>>, d: Seq<char>) -> Seq<char> {
    match o {
        Some(s) => s,
        None => d,
    }
}

/// The headers of every request: the API key as authorization, and the user agent.
pub open spec fn headers_spec(apikey: Seq<char>) -> Seq<(Seq<char>, Seq<char>)> {
    seq![("authorization"@, "Apikey "@ + apikey), ("user-agent"@, user_agent_spec())]
}

impl Configuration {
    pub fn new(apikey: String, endpoint: String, use_env_vars: bool) -> (r: Configuration)
        ensures
            r.apikey == apikey,
            r.endpoint == endpoint,
            r.use_env_vars == use_env_vars,
    {
        Configuration { apikey, endpoint, use_env_vars }
    }

    /// The configuration where no file is given, from the values of the API
    /// key and endpoint variables of the environment: a missing key is
    /// empty, a missing endpoint is the default one, and the environment
    /// keeps precedence.
    pub fn from_env(env_apikey: Option<String>, env_endpoint: Option<String>) -> (r: Configuration)
        ensures
            r.apikey@ == or_else(opt_view(env_apikey), Seq::empty()),
            r.endpoint@ == or_else(opt_view(env_endpoint), default_endpoint_spec()),
            r.use_env_vars,
    {
        let apikey = match env_apikey {
            Some(k) => k,
            None => String::new(),
        };
        let endpoint = match env_endpoint {
            Some(e) => e,
            None => default_endpoint(),
        };
        Configuration { apikey, endpoint, use_env_vars: true }
    }

    /// A configuration read from a file, with the environment's values put
    /// in: where the file allows it, each variable that is set replaces the
    /// file's value; otherwise the file's values stay.
    pub fn with_env_overrides(self, env_apikey: Option<String>, env_endpoint: Option<String>) -> (r:
        Configuration)
        ensures
            r.use_env_vars == self.use_env_vars,
            self.use_env_vars ==> r.apikey@ == or_else(opt_view(env_apikey), self.apikey@),
            self.use_env_vars ==> r.endpoint@ == or_else(opt_view(env_endpoint), self.endpoint@),
            !self.use_env_vars ==> r.apikey@ == self.apikey@ && r.endpoint@ == self.endpoint@,
    {
        let mut res = self;
        if res.use_env_vars {
            if let Some(key) = env_apikey {
                res.apikey = key;
            }
            if let Some(endpoint) = env_endpoint {
                res.endpoint = endpoint;
            }
        }
        res
    }

    /// The configuration file named by the top-level arguments: the value of
    /// `CONFIG`, where it is given and not empty.
    pub fn file_path(params: &ParsedArgs) -> (r: Option<&String>)
        ensures
            r is Some <==> (params.spec_value_of("CONFIG"@) is Some
                && params.spec_value_of("CONFIG"@)->0.len() > 0),
            r is Some ==> r->0@ == params.spec_value_of("CONFIG"@)->0,
    {
        match params.value_of("CONFIG") {
            Some(p) => if str_eq(p.as_str(), "") {
                proof {
                    reveal_strlit("");
                }
                None
            } else {
                proof {
                    reveal_strlit("");
                    if p@.len() == 0 {
                        assert(p@ =~= ""@);
                    }
                }
                Some(p)
            },
            None => None,
        }
    }

    /// The API key to use.
    pub fn apikey(&self) -> (r: &str)
        ensures
            r@ == self.apikey@,
    {
        self.apikey.as_str()
    }

    /// The address of the API.
    pub fn endpoint(&self) -> (r: &str)
        ensures
            r@ == self.endpoint@,
    {
        self.endpoint.as_str()
    }

    /// The headers of every request.
    pub fn construct_headers(&self) -> (r: Vec<(String, String)>)
        ensures
            pairs_view(r@) == headers_spec(self.apikey@),
    {
        let mut auth = String::from_str("Apikey ");
        auth.append(self.apikey());
        let mut headers = Vec::new();
        headers.push((String::from_str("authorization"), auth));
        headers.push((String::from_str("user-agent"), user_agent()));
        assert(pairs_view(headers@) =~= headers_spec(self.apikey@));
        headers
    }

    /// A GET request of `route` under the endpoint, with the headers of
    /// every request.
    pub fn build_req(&self, route: &str) -> (r: Request)
        ensures
            r@ == (RequestView {
                url: self.endpoint@ + route@,
                headers: headers_spec(self.apikey@),
                query: Seq::empty(),
            }),
    {
        let url = String::from_str(self.endpoint()).concat(route);
        Request::get(url, self.construct_headers())
    }
}

} // verus!
