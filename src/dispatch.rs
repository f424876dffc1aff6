//! The table of commands, in the order a run tries them.
use vstd::prelude::*;

use crate::api::dns_records_list::DnsRecordsListCommand;
use crate::api::dns_snapshots_list::DnsSnapshotsListCommand;
use crate::api::domain_check::DomainCheckCommand;
use crate::api::domain_contacts_show::DomainContactsShowCommand;
use crate::api::domain_gluerecords_show::DomainGlueRecordsShowCommand;
use crate::api::domain_list::DomainListCommand;
use crate::api::domain_show::DomainShowCommand;
use crate::api::organization_list::OrganizationListCommand;
use crate::api::user_info::UserInfoCommand;
use crate::command_handler::GandiSubCommandHandler;
use crate::parsed_args::{select, ParsedArgs};

verus! {

/// The registered commands.
#[derive(PartialEq, Eq, Structural, Clone, Copy, Debug)]
pub enum CommandKind {
    DnsRecordsList,
    DnsSnapshotsList,
    DomainCheck,
    DomainShow,
    DomainContactsShow,
    DomainGlueRecordsShow,
    DomainList,
    OrganizationList,
    UserInfo,
}

/// The subcommand names that select a command.
pub open spec fn route_of(k: CommandKind) -> Seq<Seq<char>> {
    match k {
        CommandKind::DnsRecordsList => DnsRecordsListCommand::route_spec(),
        CommandKind::DnsSnapshotsList => DnsSnapshotsListCommand::route_spec(),
        CommandKind::DomainCheck => DomainCheckCommand::route_spec(),
        CommandKind::DomainShow => DomainShowCommand::route_spec(),
        CommandKind::DomainContactsShow => DomainContactsShowCommand::route_spec(),
        CommandKind::DomainGlueRecordsShow => DomainGlueRecordsShowCommand::route_spec(),
        CommandKind::DomainList => DomainListCommand::route_spec(),
        CommandKind::OrganizationList => OrganizationListCommand::route_spec(),
        CommandKind::UserInfo => UserInfoCommand::route_spec(),
    }
}

/// The commands, in the order a run tries them.
pub open spec fn registry() -> Seq<CommandKind> {
    seq![
        CommandKind::DnsRecordsList,
        CommandKind::DnsSnapshotsList,
        CommandKind::DomainCheck,
        CommandKind::DomainShow,
        CommandKind::DomainContactsShow,
        CommandKind::DomainGlueRecordsShow,
        CommandKind::DomainList,
        CommandKind::OrganizationList,
        CommandKind::UserInfo,
    ]
}

/// The first command of `cmds` whose route the parse followed, if any.
pub open spec fn first_routed(cmds: Seq<CommandKind>, m: ParsedArgs) -> Option<CommandKind>
    decreases cmds.len(),
{
    if cmds.len() == 0 {
        None
    } else if select(m, route_of(cmds[0])) is Some {
        Some(cmds[0])
    } else {
        first_routed(cmds.drop_first(), m)
    }
}

/// The command the parse chose: the first of the table whose route it
/// followed; none where it followed no command's route.
pub fn dispatch(matches: &ParsedArgs) -> (r: Option<CommandKind>)
    ensures
        r == first_routed(registry(), *matches),
{
    proof {
        reveal_with_fuel(first_routed, 10);
        let s = registry();
        assert(s.drop_first() =~= seq![s[1], s[2], s[3], s[4], s[5], s[6], s[7], s[8]]);
        assert(s.drop_first().drop_first() =~= seq![s[2], s[3], s[4], s[5], s[6], s[7], s[8]]);
        assert(s.drop_first().drop_first().drop_first() =~= seq![s[3], s[4], s[5], s[6], s[7], s[8]]);
        assert(s.drop_first().drop_first().drop_first().drop_first() =~= seq![s[4], s[5], s[6], s[7], s[8]]);
        assert(s.drop_first().drop_first().drop_first().drop_first().drop_first() =~= seq![s[5], s[6], s[7], s[8]]);
        assert(s.drop_first().drop_first().drop_first().drop_first().drop_first().drop_first() =~= seq![s[6], s[7], s[8]]);
        assert(s.drop_first().drop_first().drop_first().drop_first().drop_first().drop_first().drop_first() =~= seq![s[7], s[8]]);
        assert(s.drop_first().drop_first().drop_first().drop_first().drop_first().drop_first().drop_first().drop_first() =~= seq![s[8]]);
        assert(s.drop_first().drop_first().drop_first().drop_first().drop_first().drop_first().drop_first().drop_first().drop_first() =~= Seq::<CommandKind>::empty());
    }
    if DnsRecordsListCommand::can_handle(matches).is_some() {
        Some(CommandKind::DnsRecordsList)
    } else if DnsSnapshotsListCommand::can_handle(matches).is_some() {
        Some(CommandKind::DnsSnapshotsList)
    } else if DomainCheckCommand::can_handle(matches).is_some() {
        Some(CommandKind::DomainCheck)
    } else if DomainShowCommand::can_handle(matches).is_some() {
        Some(CommandKind::DomainShow)
    } else if DomainContactsShowCommand::can_handle(matches).is_some() {
        Some(CommandKind::DomainContactsShow)
    } else if DomainGlueRecordsShowCommand::can_handle(matches).is_some() {
        Some(CommandKind::DomainGlueRecordsShow)
    } else if DomainListCommand::can_handle(matches).is_some() {
        Some(CommandKind::DomainList)
    } else if OrganizationListCommand::can_handle(matches).is_some() {
        Some(CommandKind::OrganizationList)
    } else if UserInfoCommand::can_handle(matches).is_some() {
        Some(CommandKind::UserInfo)
    } else {
        None
    }
}

/// Where the parse followed no registered command's route, the run picks no
/// command: it does nothing and succeeds.
pub proof fn lemma_unrouted_runs_nothing(m: ParsedArgs)
    requires
        forall|i: int| 0 <= i < registry().len() ==> select(m, route_of(#[trigger] registry()[i])) is None,
    ensures
        first_routed(registry(), m) is None,
{
    lemma_first_routed_none(registry(), m);
}

proof fn lemma_first_routed_none(cmds: Seq<CommandKind>, m: ParsedArgs)
    requires
        forall|i: int| 0 <= i < cmds.len() ==> select(m, route_of(#[trigger] cmds[i])) is None,
    ensures
        first_routed(cmds, m) is None,
    decreases cmds.len(),
{
    if cmds.len() > 0 {
        assert(select(m, route_of(cmds[0])) is None);
        assert forall|i: int| 0 <= i < cmds.drop_first().len() implies select(
            m,
            route_of(#[trigger] cmds.drop_first()[i]),
        ) is None by {
            assert(cmds.drop_first()[i] == cmds[i + 1]);
        }
        lemma_first_routed_none(cmds.drop_first(), m);
    }
}

/// The command picked is one whose route the parse followed.
pub proof fn lemma_dispatch_routed(m: ParsedArgs)
    ensures
        first_routed(registry(), m) is Some ==> select(m, route_of(first_routed(registry(), m)->0)) is Some,
{
    lemma_first_routed_some(registry(), m);
}

proof fn lemma_first_routed_some(cmds: Seq<CommandKind>, m: ParsedArgs)
    ensures
        first_routed(cmds, m) is Some ==> select(m, route_of(first_routed(cmds, m)->0)) is Some,
    decreases cmds.len(),
{
    if cmds.len() > 0 {
        lemma_first_routed_some(cmds.drop_first(), m);
    }
}

/// Following two routes down one parse: the shorter is the start of the longer.
proof fn lemma_select_prefix(m: ParsedArgs, p: Seq<Seq<char>>, q: Seq<Seq<char>>)
    requires
        select(m, p) is Some,
        select(m, q) is Some,
        p.len() <= q.len(),
    ensures
        p == q.take(p.len() as int),
    decreases p.len(),
{
    if p.len() == 0 {
        assert(p =~= q.take(0));
    } else {
        let sub = m.subcommand->0;
        lemma_select_prefix(sub.matches, p.drop_first(), q.drop_first());
        assert(p[0] == q[0]);
        assert forall|i: int| 0 < i < p.len() implies p[i] == q[i] by {
            assert(p[i] == p.drop_first()[i - 1]);
            assert(q[i] == q.drop_first().take(p.len() - 1)[i - 1]);
        }
        assert(p =~= q.take(p.len() as int));
    }
}

/// A parse follows the route of at most one command.
pub proof fn lemma_at_most_one_command(m: ParsedArgs, a: CommandKind, b: CommandKind)
    requires
        select(m, route_of(a)) is Some,
        select(m, route_of(b)) is Some,
    ensures
        a == b,
{
    reveal_strlit("list");
    reveal_strlit("show");
    reveal_strlit("check");
    reveal_strlit("dns");
    reveal_strlit("records");
    reveal_strlit("snapshot");
    reveal_strlit("domain");
    reveal_strlit("domains");
    reveal_strlit("contacts");
    reveal_strlit("glue-records");
    reveal_strlit("organizations");
    reveal_strlit("user-info");
    let p = route_of(a);
    let q = route_of(b);
    if p.len() <= q.len() {
        lemma_select_prefix(m, p, q);
    } else {
        lemma_select_prefix(m, q, p);
    }
    assert(p.len() >= 2 && q.len() >= 2) by {
        match a {
            CommandKind::DnsRecordsList => {},
            CommandKind::DnsSnapshotsList => {},
            CommandKind::DomainCheck => {},
            CommandKind::DomainShow => {},
            CommandKind::DomainContactsShow => {},
            CommandKind::DomainGlueRecordsShow => {},
            CommandKind::DomainList => {},
            CommandKind::OrganizationList => {},
            CommandKind::UserInfo => {},
        }
        match b {
            CommandKind::DnsRecordsList => {},
            CommandKind::DnsSnapshotsList => {},
            CommandKind::DomainCheck => {},
            CommandKind::DomainShow => {},
            CommandKind::DomainContactsShow => {},
            CommandKind::DomainGlueRecordsShow => {},
            CommandKind::DomainList => {},
            CommandKind::OrganizationList => {},
            CommandKind::UserInfo => {},
        }
    }
    assert(p[0] == q[0] && p[1] == q[1]);
    assert(p[0][0] == q[0][0] && p[1][0] == q[1][0] && p[1][1] == q[1][1]);
    if p.len() == 3 && q.len() == 3 {
        assert(p[2] == q[2]);
        assert(p[2][0] == q[2][0]);
    }
}

} // verus!
