//! Routes that name a domain in their path.
use vstd::prelude::*;

use crate::config::{headers_spec, Configuration};
use crate::parsed_args::ParsedArgs;
use crate::request::{Request, RequestView};

verus! {

/// Whether a command's arguments give the domain name.
pub open spec fn has_fqdn(params: ParsedArgs) -> bool {
    params.spec_value_of("FQDN"@) is Some
}

/// The request of `prefix`, the domain name given, then `suffix`, under the
/// endpoint.
pub open spec fn fqdn_request(config: Configuration, prefix: Seq<char>, suffix: Seq<char>, params: ParsedArgs) -> RequestView {
    RequestView {
        url: config.endpoint@ + (prefix + params.spec_value_of("FQDN"@)->0 + suffix),
        headers: headers_spec(config.apikey@),
        query: Seq::empty(),
    }
}

/// Whether the command's arguments give the domain name.
pub fn fqdn_given(params: &ParsedArgs) -> (r: bool)
    ensures
        r == has_fqdn(*params),
{
    params.value_of("FQDN").is_some()
}

/// Build the request of `prefix`, the domain name given, then `suffix`.
pub fn build_fqdn_req(config: &Configuration, prefix: &str, suffix: &str, params: &ParsedArgs) -> (r: Request)
    requires
        has_fqdn(*params),
    ensures
        r@ == fqdn_request(*config, prefix@, suffix@, *params),
{
    let fqdn = params.value_of("FQDN").unwrap();
    let route = String::from_str(prefix).concat(fqdn.as_str()).concat(suffix);
    config.build_req(route.as_str())
}

} // verus!
