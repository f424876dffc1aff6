use gandi::api::dns_records_list::{DnsRecordsListCommand, Record};
use gandi::api::dns_snapshots_list::{DnsSnapshotsListCommand, Snapshot};
use gandi::api::domain_check::{DomainCheck, DomainCheckCommand, Price, PriceOptions, Product};
use gandi::api::domain_contacts_show::{
    print_contact, print_contacts, Contact, Contacts, DomainContactsShowCommand, SharingSpace,
};
use gandi::api::domain_gluerecords_show::{DomainGlueRecordsShowCommand, GlueRecord};
use gandi::api::domain_list::{Domain, DomainListCommand};
use gandi::api::domain_show::{Autorenew, Domain as ShownDomain, DomainShowCommand};
use gandi::api::organization_list::{Organization, OrganizationListCommand};
use gandi::api::user_info::{UserInfo, UserInfoCommand};
use gandi::command_handler::{GandiSubCommandHandler, Rendering};
use gandi::config::Configuration;
use gandi::datetime::UtcTime;
use gandi::display::{print_list, Format, Line};
use gandi::parsed_args::{MatchedArg, ParsedArgs, SubCommandArgs};
use gandi::text::{decimal, join};

fn texts(lines: &[Line]) -> Vec<String> {
    lines.iter().map(|l| l.plain_text()).collect()
}

fn strings(v: &[&str]) -> Vec<String> {
    v.iter().map(|s| s.to_string()).collect()
}

fn domain(fqdn: &str, owner: &str, orga: &str, tags: Option<Vec<String>>) -> Domain {
    Domain {
        id: format!("id-{}", fqdn),
        orga_owner: orga.to_string(),
        owner: owner.to_string(),
        sharing_id: None,
        fqdn: fqdn.to_string(),
        fqdn_unicode: fqdn.to_string(),
        autorenew: true,
        tld: "com".to_string(),
        tags,
    }
}

fn contact(type_: usize, same_as_owner: Option<bool>, orgname: Option<&str>) -> Contact {
    Contact {
        same_as_owner,
        type_,
        orgname: orgname.map(|s| s.to_string()),
        given: "Ada".to_string(),
        family: "Lovelace".to_string(),
        streetaddr: "1 Main St".to_string(),
        zip: None,
        city: None,
        state: None,
        country: "FR".to_string(),
        email: "ada@example.com".to_string(),
        mail_obfuscated: None,
        reachability: None,
        validation: None,
        phone: None,
        fax: None,
        mobile: None,
        data_obfuscated: None,
        extra_parameters: None,
        siren: None,
        brand_number: None,
        jo_announce_number: None,
        jo_announce_page: None,
        jo_declaration_date: None,
        jo_publication_date: None,
        sharing_id: None,
    }
}

fn headers(v: &[(&str, &str)]) -> Vec<(String, String)> {
    v.iter().map(|(a, b)| (a.to_string(), b.to_string())).collect()
}

#[test]
fn decimal_and_join() {
    assert_eq!(decimal(0), "0");
    assert_eq!(decimal(7), "7");
    assert_eq!(decimal(10800), "10800");
    assert_eq!(join(&strings(&[]), " "), "");
    assert_eq!(join(&strings(&["a"]), " "), "a");
    assert_eq!(join(&strings(&["a", "b", "c"]), ", "), "a, b, c");
}

#[test]
fn line_texts() {
    assert_eq!(Line::info("id", "42").plain_text(), "id: 42");
    assert_eq!(Line::flag("autorenew", true).plain_text(), "autorenew: active");
    assert_eq!(Line::flag("autorenew", false).plain_text(), "autorenew: inactive");
    assert_eq!(Line::Blank.plain_text(), "");
    assert_eq!(Line::Text("x y".to_string()).plain_text(), "x y");
}

#[test]
fn empty_lists_show_nothing() {
    let mut out = Vec::new();
    print_list(&mut out, "tags", &None);
    print_list(&mut out, "tags", &Some(Vec::new()));
    assert!(out.is_empty());
    print_list(&mut out, "tags", &Some(strings(&["a", "b"])));
    assert_eq!(texts(&out), vec!["tags: a b"]);
}

#[test]
fn domain_list_human_lines() {
    let items = vec![
        domain("a.com", "org", "org", Some(strings(&["x", "y"]))),
        domain("b.com", "alice", "org", None),
    ];
    let lines = DomainListCommand::display_human_result(&items);
    assert_eq!(
        texts(&lines),
        vec![
            "", "fqdn: a.com", "id: id-a.com", "organization: org", "autorenew: active", "tags: x y",
            "", "fqdn: b.com", "id: id-b.com", "organization: org", "owner: alice", "autorenew: active",
        ]
    );
}

#[test]
fn total_count_header_in_human_mode() {
    let lines = DomainListCommand::display_human_headers(&headers(&[("total-count", "2")]));
    assert_eq!(texts(&lines), vec!["", "Total Count of domains:: 2"]);
    let lines = DomainListCommand::display_human_headers(&headers(&[("content-type", "json")]));
    assert_eq!(texts(&lines), vec!["", "Total Count of domains:: MISSING"]);
}

#[test]
fn json_domain_list_prints_no_header_line() {
    let listing = ParsedArgs {
        args: Vec::new(),
        subcommand: Some(Box::new(SubCommandArgs {
            name: "list".to_string(),
            matches: ParsedArgs {
                args: Vec::new(),
                subcommand: Some(Box::new(SubCommandArgs {
                    name: "domains".to_string(),
                    matches: ParsedArgs {
                        args: vec![MatchedArg { name: "JSON".to_string(), value: None }],
                        subcommand: None,
                    },
                })),
            },
        })),
    };
    let cfg = Configuration::new("k".to_string(), "https://api.gandi.net".to_string(), false);
    let inv = DomainListCommand::handle(&cfg, &listing).expect("routed");
    assert_eq!(inv.format, Format::JSON);
    let items = vec![domain("a.com", "o", "o", None), domain("b.com", "o", "o", None)];
    let hdrs = headers(&[("total-count", "2")]);
    match DomainListCommand::display_result(&items, inv.format, &hdrs) {
        Rendering::Encoded(f) => assert_eq!(f, Format::JSON),
        Rendering::Human(_) => panic!("JSON output must not be human lines"),
    }
    match DomainListCommand::display_result(&items, Format::HUMAN, &hdrs) {
        Rendering::Human(lines) => {
            let t = texts(&lines);
            assert_eq!(t.last().map(|s| s.as_str()), Some("Total Count of domains:: 2"));
        }
        Rendering::Encoded(_) => panic!("human output expected"),
    }
}

#[test]
fn machine_formats_are_encoded_whole() {
    let info = user_info();
    for f in [Format::JSON, Format::YAML, Format::TOML] {
        match UserInfoCommand::display_result(&info, f, &Vec::new()) {
            Rendering::Encoded(g) => assert_eq!(g, f),
            Rendering::Human(_) => panic!("encoded output expected"),
        }
    }
}

fn user_info() -> UserInfo {
    UserInfo {
        id: "u1".to_string(),
        username: "ada".to_string(),
        email: "ada@example.com".to_string(),
        lang: "en".to_string(),
        name: "Ada".to_string(),
        city: None,
        country: None,
        fax: None,
        firstname: None,
        lastname: None,
        phone: None,
        state: None,
        streetaddr: None,
        streetaddr2: None,
        zip: None,
    }
}

#[test]
fn user_info_human_lines() {
    let lines = UserInfoCommand::display_human_result(&user_info());
    assert_eq!(
        texts(&lines),
        vec!["User Information", "", "id: u1", "username: ada", "email: ada@example.com", "lang: en"]
    );
    assert!(UserInfoCommand::display_human_headers(&headers(&[("total-count", "1")])).is_empty());
}

fn price(min: usize, max: usize, period: Option<&str>, amount: &str) -> Price {
    Price {
        min_duration: min,
        max_duration: max,
        duration_unit: "y".to_string(),
        discount: None,
        price_before_taxes: amount.to_string(),
        price_after_taxes: amount.to_string(),
        options: PriceOptions { period: period.map(|s| s.to_string()) },
    }
}

#[test]
fn domain_check_human_lines() {
    let check = DomainCheck {
        currency: "EUR".to_string(),
        grid: "A".to_string(),
        products: Some(vec![
            Product {
                process: None,
                status: "unavailable".to_string(),
                name: "taken.com".to_string(),
                prices: None,
                taxes: Vec::new(),
                period: None,
            },
            Product {
                process: Some("create".to_string()),
                status: "available".to_string(),
                name: "free.com".to_string(),
                prices: Some(vec![price(1, 10, None, "15.5"), price(1, 1, Some("sunrise"), "99")]),
                taxes: Vec::new(),
                period: None,
            },
        ]),
    };
    let lines = DomainCheckCommand::display_human_result(&check);
    assert_eq!(
        texts(&lines),
        vec![
            "??? taken.com: unavailable",
            "create free.com 1y->10y golive: 15.5 EUR",
            "create free.com 1y->1y sunrise: 99 EUR",
        ]
    );
    let empty = DomainCheck { currency: "EUR".to_string(), grid: "A".to_string(), products: None };
    assert!(DomainCheckCommand::display_human_result(&empty).is_empty());
}

#[test]
fn organization_human_lines() {
    let base = Organization {
        id: "o1".to_string(),
        name: "acme".to_string(),
        type_: "company".to_string(),
        corporate: Some(true),
        reseller: Some(false),
        email: Some("a@acme.test".to_string()),
        firstname: Some("Wile".to_string()),
        lastname: Some("Coyote".to_string()),
        orgname: None,
        siren: None,
        vat_number: None,
    };
    let lines = OrganizationListCommand::display_human_result(&vec![base]);
    assert_eq!(
        texts(&lines),
        vec!["", "id: o1", "type: company", "name: acme", "orgname: Wile Coyote", "email: a@acme.test", "corporate: active"]
    );
}

#[test]
fn dns_record_lines_one_per_value() {
    let records = vec![Record {
        rrset_href: "h".to_string(),
        rrset_ttl: 10800,
        rrset_name: "www".to_string(),
        rrset_type: "A".to_string(),
        rrset_values: strings(&["192.0.2.1", "192.0.2.2"]),
    }];
    let lines = DnsRecordsListCommand::display_human_result(&records);
    assert_eq!(texts(&lines), vec!["www 10800 IN A 192.0.2.1", "www 10800 IN A 192.0.2.2"]);
}

#[test]
fn snapshot_lines_show_rfc2822_date() {
    let snap = Snapshot {
        id: "s1".to_string(),
        created_at: UtcTime::new(0).expect("in range"),
        name: "before".to_string(),
    };
    let lines = DnsSnapshotsListCommand::display_human_result(&vec![snap]);
    assert_eq!(
        texts(&lines),
        vec!["Id:: s1", "Name:: before", "Created at:: Thu, 1 Jan 1970 00:00:00 +0000"]
    );
}

#[test]
fn utc_time_range() {
    assert!(UtcTime::new(-62167219200).is_some());
    assert!(UtcTime::new(-62167219201).is_none());
    assert!(UtcTime::new(253402300799).is_some());
    assert!(UtcTime::new(253402300800).is_none());
    let t = UtcTime::new(1431648000).unwrap();
    assert_eq!(t.timestamp(), 1431648000);
    assert_eq!(t.to_rfc2822(), "Fri, 15 May 2015 00:00:00 +0000");
}

#[test]
fn glue_record_lines() {
    let glue = vec![GlueRecord {
        fqdn: "ns1.example.com".to_string(),
        fqdn_unicode: "ns1.example.com".to_string(),
        name: "ns1".to_string(),
        href: "h".to_string(),
        ips: strings(&["192.0.2.1", "2001:db8::1"]),
    }];
    let lines = DomainGlueRecordsShowCommand::display_human_result(&glue);
    assert_eq!(texts(&lines), vec!["fqdn: ns1.example.com", "name: ns1", "ips: 192.0.2.1 2001:db8::1"]);
}

fn contacts() -> Contacts {
    Contacts {
        owner: contact(0, None, None),
        admin: contact(1, Some(false), Some("Acme")),
        tech: contact(1, Some(true), None),
        bill: contact(2, None, None),
    }
}

#[test]
fn contact_naming() {
    let mut out = Vec::new();
    let org = SharingSpace { id: "o".to_string(), name: "Acme Org".to_string(), reseller: None };
    print_contact(&mut out, "owner", &contact(0, None, None), Some(&org));
    print_contact(&mut out, "admin", &contact(1, None, Some("Acme")), None);
    print_contact(&mut out, "bill", &contact(3, None, None), None);
    assert_eq!(
        texts(&out),
        vec![
            "owner: \"Ada Lovelace\" <ada@example.com> (Acme Org)",
            "admin: \"Acme\" <ada@example.com>",
            "bill: \"NO ORGNAME SET\" <ada@example.com>",
        ]
    );
}

#[test]
fn contacts_skip_those_same_as_owner() {
    let mut out = Vec::new();
    print_contacts(&mut out, &contacts(), None);
    assert_eq!(
        texts(&out),
        vec![
            "owner: \"Ada Lovelace\" <ada@example.com>",
            "admin: \"Acme\" <ada@example.com>",
            "bill: \"NO ORGNAME SET\" <ada@example.com>",
        ]
    );
    assert_eq!(texts(&DomainContactsShowCommand::display_human_result(&contacts())), texts(&out));
}

#[test]
fn domain_show_human_lines() {
    let d = ShownDomain {
        id: "d1".to_string(),
        fqdn: "example.com".to_string(),
        fqdn_unicode: "example.com".to_string(),
        tld: "com".to_string(),
        can_tld_lock: false,
        authinfo: "x".to_string(),
        nameservers: Some(strings(&["ns1.example.net", "ns2.example.net"])),
        services: Some(Vec::new()),
        tags: Some(strings(&["prod"])),
        sharing_space: SharingSpace { id: "o".to_string(), name: "Acme Org".to_string(), reseller: None },
        autorenew: Autorenew { href: "h".to_string(), date: None, duration: 1, enabled: false, org_id: None },
        contacts: contacts(),
    };
    let lines = DomainShowCommand::display_human_result(&d);
    assert_eq!(
        texts(&lines),
        vec![
            "id: d1",
            "fqdn: example.com",
            "autorenew: inactive",
            "nameservers: ns1.example.net ns2.example.net",
            "owner: \"Ada Lovelace\" <ada@example.com> (Acme Org)",
            "admin: \"Acme\" <ada@example.com>",
            "bill: \"NO ORGNAME SET\" <ada@example.com>",
            "tags: prod",
        ]
    );
}

#[test]
fn decimal_of_the_largest_size() {
    assert_eq!(decimal(usize::MAX), usize::MAX.to_string());
}
