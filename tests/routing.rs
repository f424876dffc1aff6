use gandi::api::dns_records_list::DnsRecordsListCommand;
use gandi::api::dns_snapshots_list::DnsSnapshotsListCommand;
use gandi::api::domain_check::DomainCheckCommand;
use gandi::api::domain_contacts_show::DomainContactsShowCommand;
use gandi::api::domain_gluerecords_show::DomainGlueRecordsShowCommand;
use gandi::api::domain_list::DomainListCommand;
use gandi::api::domain_show::DomainShowCommand;
use gandi::api::organization_list::OrganizationListCommand;
use gandi::api::user_info::UserInfoCommand;
use gandi::command_handler::GandiSubCommandHandler;
use gandi::config::Configuration;
use gandi::dispatch::{dispatch, CommandKind};
use gandi::display::Format;
use gandi::parsed_args::{MatchedArg, ParsedArgs, SubCommandArgs};

fn flag(name: &str) -> MatchedArg {
    MatchedArg { name: name.to_string(), value: None }
}

fn value(name: &str, v: &str) -> MatchedArg {
    MatchedArg { name: name.to_string(), value: Some(v.to_string()) }
}

fn leaf(args: Vec<MatchedArg>) -> ParsedArgs {
    ParsedArgs { args, subcommand: None }
}

fn under(name: &str, matches: ParsedArgs) -> ParsedArgs {
    ParsedArgs {
        args: Vec::new(),
        subcommand: Some(Box::new(SubCommandArgs { name: name.to_string(), matches })),
    }
}

fn path(names: &[&str], args: Vec<MatchedArg>) -> ParsedArgs {
    let mut m = leaf(args);
    for n in names.iter().rev() {
        m = under(n, m);
    }
    m
}

fn config() -> Configuration {
    Configuration::new("test-key".to_string(), "https://api.gandi.net".to_string(), false)
}

#[test]
fn is_present_sees_args_and_subcommand() {
    let m = ParsedArgs {
        args: vec![flag("JSON"), value("PAGE", "3")],
        subcommand: Some(Box::new(SubCommandArgs { name: "list".to_string(), matches: leaf(vec![]) })),
    };
    assert!(m.is_present("JSON"));
    assert!(m.is_present("PAGE"));
    assert!(m.is_present("list"));
    assert!(!m.is_present("YAML"));
    assert!(!m.is_present("show"));
}

#[test]
fn value_of_takes_the_first_occurrence() {
    let m = leaf(vec![flag("JSON"), value("PAGE", "3"), value("PAGE", "4")]);
    assert_eq!(m.value_of("PAGE").map(|s| s.as_str()), Some("3"));
    assert_eq!(m.value_of("JSON"), None);
    assert_eq!(m.value_of("PER_PAGE"), None);
}

#[test]
fn subcommand_matches_only_the_chosen_one() {
    let m = under("show", leaf(vec![flag("YAML")]));
    assert!(m.subcommand_matches("show").is_some());
    assert!(m.subcommand_matches("list").is_none());
    assert!(m.subcommand_matches("show").unwrap().is_present("YAML"));
}

#[test]
fn format_follows_flag_priority() {
    assert_eq!(Format::from(&leaf(vec![])), Format::HUMAN);
    assert_eq!(Format::from(&leaf(vec![flag("YAML")])), Format::YAML);
    assert_eq!(Format::from(&leaf(vec![flag("TOML"), flag("YAML")])), Format::TOML);
    assert_eq!(Format::from(&leaf(vec![flag("YAML"), flag("TOML"), flag("JSON")])), Format::JSON);
}

#[test]
fn can_handle_follows_two_levels() {
    let m = path(&["list", "domains"], vec![flag("JSON")]);
    let params = DomainListCommand::can_handle(&m).expect("routed");
    assert!(params.is_present("JSON"));
    assert!(OrganizationListCommand::can_handle(&m).is_none());
    assert!(DomainShowCommand::can_handle(&m).is_none());
}

#[test]
fn can_handle_follows_three_levels() {
    let m = path(&["list", "dns", "records"], vec![value("FQDN", "example.com")]);
    assert!(DnsRecordsListCommand::can_handle(&m).is_some());
    assert!(DnsSnapshotsListCommand::can_handle(&m).is_none());
    let m = path(&["list", "dns", "snapshot"], vec![value("FQDN", "example.com")]);
    assert!(DnsSnapshotsListCommand::can_handle(&m).is_some());
    assert!(DnsRecordsListCommand::can_handle(&m).is_none());
    let m = path(&["list", "dns"], vec![]);
    assert!(DnsRecordsListCommand::can_handle(&m).is_none());
}

#[test]
fn dispatch_picks_each_command() {
    let cases: Vec<(&[&str], CommandKind)> = vec![
        (&["list", "dns", "records"], CommandKind::DnsRecordsList),
        (&["list", "dns", "snapshot"], CommandKind::DnsSnapshotsList),
        (&["check", "domain"], CommandKind::DomainCheck),
        (&["show", "domain"], CommandKind::DomainShow),
        (&["show", "contacts"], CommandKind::DomainContactsShow),
        (&["show", "glue-records"], CommandKind::DomainGlueRecordsShow),
        (&["list", "domains"], CommandKind::DomainList),
        (&["list", "organizations"], CommandKind::OrganizationList),
        (&["show", "user-info"], CommandKind::UserInfo),
    ];
    for (names, kind) in cases {
        assert_eq!(dispatch(&path(names, vec![])), Some(kind));
    }
}

#[test]
fn unrouted_parse_runs_nothing() {
    let cfg = config();
    let unrouted = vec![
        leaf(vec![value("CONFIG", "gandi.toml")]),
        path(&["list"], vec![]),
        path(&["show", "nothing"], vec![]),
        path(&["remove", "domain"], vec![]),
    ];
    for m in unrouted {
        assert_eq!(dispatch(&m), None);
        assert!(DnsRecordsListCommand::handle(&cfg, &m).is_none());
        assert!(DnsSnapshotsListCommand::handle(&cfg, &m).is_none());
        assert!(DomainCheckCommand::handle(&cfg, &m).is_none());
        assert!(DomainShowCommand::handle(&cfg, &m).is_none());
        assert!(DomainContactsShowCommand::handle(&cfg, &m).is_none());
        assert!(DomainGlueRecordsShowCommand::handle(&cfg, &m).is_none());
        assert!(DomainListCommand::handle(&cfg, &m).is_none());
        assert!(OrganizationListCommand::handle(&cfg, &m).is_none());
        assert!(UserInfoCommand::handle(&cfg, &m).is_none());
    }
}

#[test]
fn accepts_requires_the_domain_name() {
    assert!(DomainShowCommand::accepts(&leaf(vec![value("FQDN", "example.com")])));
    assert!(!DomainShowCommand::accepts(&leaf(vec![flag("JSON")])));
    assert!(DomainListCommand::accepts(&leaf(vec![])));
}

#[test]
fn handle_builds_the_invocation() {
    let m = path(&["show", "domain"], vec![value("FQDN", "example.com"), flag("YAML")]);
    let inv = DomainShowCommand::handle(&config(), &m).expect("routed");
    assert_eq!(inv.format, Format::YAML);
    assert_eq!(inv.request.url, "https://api.gandi.net/v5/domain/domains/example.com");
    assert!(inv.request.query.is_empty());
}
