use gandi::api::dns_records_list::DnsRecordsListCommand;
use gandi::api::dns_snapshots_list::DnsSnapshotsListCommand;
use gandi::api::domain_check::DomainCheckCommand;
use gandi::api::domain_contacts_show::DomainContactsShowCommand;
use gandi::api::domain_gluerecords_show::DomainGlueRecordsShowCommand;
use gandi::api::domain_list::DomainListCommand;
use gandi::api::organization_list::OrganizationListCommand;
use gandi::api::user_info::UserInfoCommand;
use gandi::args::pagination::Pagination;
use gandi::args::sharing_id::SharingSpace;
use gandi::command_handler::GandiSubCommandHandler;
use gandi::config::{default_endpoint, default_use_env_vars, Configuration};
use gandi::parsed_args::{MatchedArg, ParsedArgs};
use gandi::request::{find_value, Request};
use gandi::user_agent::user_agent;

fn value(name: &str, v: &str) -> MatchedArg {
    MatchedArg { name: name.to_string(), value: Some(v.to_string()) }
}

fn leaf(args: Vec<MatchedArg>) -> ParsedArgs {
    ParsedArgs { args, subcommand: None }
}

fn pairs(v: &[(&str, &str)]) -> Vec<(String, String)> {
    v.iter().map(|(a, b)| (a.to_string(), b.to_string())).collect()
}

fn config() -> Configuration {
    Configuration::new("test-key".to_string(), "https://api.example.net".to_string(), false)
}

fn bare() -> Request {
    Request::get("https://api.example.net/x".to_string(), Vec::new())
}

#[test]
fn pagination_defaults_when_no_flag_given() {
    let p = Pagination::from(&leaf(vec![]));
    assert_eq!(p.page, "1");
    assert_eq!(p.per_page, "100");
    let req = p.build_req(bare());
    assert_eq!(req.query, pairs(&[("page", "1"), ("per_page", "100")]));
}

#[test]
fn pagination_takes_given_values() {
    let p = Pagination::from(&leaf(vec![value("PAGE", "4"), value("PER_PAGE", "25")]));
    let req = p.build_req(bare());
    assert_eq!(req.query, pairs(&[("page", "4"), ("per_page", "25")]));
}

#[test]
fn empty_sharing_id_adds_no_parameter() {
    let s = SharingSpace::from(&leaf(vec![value("SHARING_ID", "")]));
    let req = s.build_req(bare());
    assert!(req.query.is_empty());
    let s = SharingSpace::from(&leaf(vec![]));
    assert_eq!(s.sharing_id, "");
    assert!(s.build_req(bare()).query.is_empty());
}

#[test]
fn sharing_id_is_attached_as_given() {
    let s = SharingSpace::from(&leaf(vec![value("SHARING_ID", "org-42")]));
    let req = s.build_req(bare());
    assert_eq!(req.query, pairs(&[("sharing_id", "org-42")]));
}

#[test]
fn adapters_compose_in_either_order() {
    let p = Pagination::from(&leaf(vec![]));
    let s = SharingSpace::from(&leaf(vec![value("SHARING_ID", "org-1")]));
    let a = s.build_req(p.build_req(bare()));
    let b = p.build_req(s.build_req(bare()));
    for key in ["page", "per_page", "sharing_id"] {
        assert_eq!(find_value(&a.query, key), find_value(&b.query, key));
    }
}

#[test]
fn requests_carry_authorization_and_user_agent() {
    let req = config().build_req("/v5/organization/user-info");
    assert_eq!(req.url, "https://api.example.net/v5/organization/user-info");
    assert_eq!(
        req.headers,
        pairs(&[("authorization", "Apikey test-key"), ("user-agent", "gandi/0.3.0")])
    );
    assert_eq!(user_agent(), "gandi/0.3.0");
}

#[test]
fn domain_list_request_has_pages_and_organization() {
    let params = leaf(vec![value("SHARING_ID", "org-9"), value("PAGE", "2")]);
    let req = DomainListCommand::build_req(&config(), &params);
    assert_eq!(req.url, "https://api.example.net/v5/domain/domains");
    assert_eq!(req.query, pairs(&[("page", "2"), ("per_page", "100"), ("sharing_id", "org-9")]));
}

#[test]
fn organization_list_request_without_organization() {
    let req = OrganizationListCommand::build_req(&config(), &leaf(vec![]));
    assert_eq!(req.url, "https://api.example.net/v5/organization/organizations");
    assert_eq!(req.query, pairs(&[("page", "1"), ("per_page", "100")]));
}

#[test]
fn domain_check_request_names_the_domain() {
    let params = leaf(vec![value("FQDN", "example.org")]);
    let req = DomainCheckCommand::build_req(&config(), &params);
    assert_eq!(req.url, "https://api.example.net/v5/domain/check");
    assert_eq!(req.query, pairs(&[("name", "example.org")]));
}

#[test]
fn domain_routes_put_the_name_in_the_path() {
    let params = leaf(vec![value("FQDN", "example.org")]);
    let c = config();
    assert_eq!(
        DnsRecordsListCommand::build_req(&c, &params).url,
        "https://api.example.net/v5/livedns/domains/example.org/records"
    );
    assert_eq!(
        DnsSnapshotsListCommand::build_req(&c, &params).url,
        "https://api.example.net/v5/livedns/domains/example.org/snapshots"
    );
    assert_eq!(
        DomainContactsShowCommand::build_req(&c, &params).url,
        "https://api.example.net/v5/domain/domains/example.org/contacts"
    );
    assert_eq!(
        DomainGlueRecordsShowCommand::build_req(&c, &params).url,
        "https://api.example.net/v5/domain/domains/example.org/hosts"
    );
    assert_eq!(
        UserInfoCommand::build_req(&c, &params).url,
        "https://api.example.net/v5/organization/user-info"
    );
}

#[test]
fn env_overrides_file_when_allowed() {
    let file = Configuration::new("file-key".to_string(), "https://file.example".to_string(), true);
    let cfg = file.with_env_overrides(Some("env-key".to_string()), Some("https://env.example".to_string()));
    assert_eq!(cfg.apikey(), "env-key");
    assert_eq!(cfg.endpoint(), "https://env.example");
    assert!(cfg.use_env_vars);
}

#[test]
fn env_overrides_only_what_is_set() {
    let file = Configuration::new("file-key".to_string(), "https://file.example".to_string(), true);
    let cfg = file.with_env_overrides(None, Some("https://env.example".to_string()));
    assert_eq!(cfg.apikey(), "file-key");
    assert_eq!(cfg.endpoint(), "https://env.example");
}

#[test]
fn file_values_stay_when_env_not_allowed() {
    let file = Configuration::new("file-key".to_string(), "https://file.example".to_string(), false);
    let cfg = file.with_env_overrides(Some("env-key".to_string()), Some("https://env.example".to_string()));
    assert_eq!(cfg.apikey(), "file-key");
    assert_eq!(cfg.endpoint(), "https://file.example");
}

#[test]
fn configuration_from_environment_defaults() {
    let cfg = Configuration::from_env(None, None);
    assert_eq!(cfg.apikey(), "");
    assert_eq!(cfg.endpoint(), "https://api.gandi.net");
    assert!(cfg.use_env_vars);
    let cfg = Configuration::from_env(Some("k".to_string()), Some("https://e".to_string()));
    assert_eq!(cfg.apikey(), "k");
    assert_eq!(cfg.endpoint(), "https://e");
    assert_eq!(default_endpoint(), "https://api.gandi.net");
    assert!(!default_use_env_vars());
}

#[test]
fn config_file_path_needs_a_non_empty_value() {
    assert_eq!(Configuration::file_path(&leaf(vec![])), None);
    assert_eq!(Configuration::file_path(&leaf(vec![value("CONFIG", "")])), None);
    assert_eq!(
        Configuration::file_path(&leaf(vec![value("CONFIG", "gandi.toml")])).map(|s| s.as_str()),
        Some("gandi.toml")
    );
}

#[test]
fn query_keeps_order_and_lookup_takes_the_first() {
    let req = bare().query("a", "1").query("b", "2").query("a", "3");
    assert_eq!(req.query, pairs(&[("a", "1"), ("b", "2"), ("a", "3")]));
    assert_eq!(find_value(&req.query, "a").map(|s| s.as_str()), Some("1"));
    assert_eq!(find_value(&req.query, "c"), None);
    assert_eq!(req.url, "https://api.example.net/x");
}
