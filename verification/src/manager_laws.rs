//! What holds of the manager across calls.

use crate::manager::{ManagerModel, PolicyKeyModel};
use crate::protocol::{IdentityModel, PolicyRule};
use crate::ticket::{TicketFields, TICKET_LEN};
use vstd::prelude::*;

verus! {

// ---------------------------------------------------------------------------------------------
// Histories

/// A call that may change what a manager remembers.
pub enum Operation {
    /// The identity of a subject is set.
    SetIdentity { subject: usize, identity: IdentityModel },
    /// A rule is put in force.
    UpsertPolicy { key: PolicyKeyModel, rule: PolicyRule },
    /// A rule is taken out of force.
    DeletePolicy { key: PolicyKeyModel },
    /// A ticket is issued.
    IssueTicket { subject: usize, service: Seq<char> },
    /// A ticket is validated.
    ValidateTicket { blob: Seq<u8> },
    /// The tickets of a subject are given up.
    Logout { subject: usize },
    /// The tickets that have run out are forgotten.
    PruneExpiredTickets,
    /// The clock moves on.
    NextTick,
}

/// The manager after one call.
pub open spec fn after_one(m: ManagerModel, op: Operation) -> ManagerModel {
    match op {
        Operation::SetIdentity { subject, identity } => m.with_identity(subject, identity),
        Operation::UpsertPolicy { key, rule } => m.with_policy(key, rule),
        Operation::DeletePolicy { key } => m.without_policy(key),
        Operation::IssueTicket { subject, service } => m.issued(subject, service),
        Operation::ValidateTicket { blob } => m.validated(blob),
        Operation::Logout { subject } => m.logged_out(subject),
        Operation::PruneExpiredTickets => m.pruned(),
        Operation::NextTick => m.ticked(),
    }
}

/// The manager after calls one by one.
pub open spec fn after_all(m: ManagerModel, ops: Seq<Operation>) -> ManagerModel
    decreases ops.len(),
{
    if ops.len() == 0 {
        m
    } else {
        after_one(after_all(m, ops.drop_last()), ops.last())
    }
}

/// The number of ticks that a call takes.
pub open spec fn ticks_of(op: Operation) -> nat {
    match op {
        Operation::IssueTicket { .. } => 1,
        Operation::ValidateTicket { blob } => if ManagerModel::plausible(blob) {
            1
        } else {
            0
        },
        Operation::PruneExpiredTickets => 1,
        Operation::NextTick => 1,
        _ => 0,
    }
}

/// The number of ticks that calls take together.
pub open spec fn ticks_of_all(ops: Seq<Operation>) -> nat
    decreases ops.len(),
{
    if ops.len() == 0 {
        0
    } else {
        ticks_of_all(ops.drop_last()) + ticks_of(ops.last())
    }
}

/// None of the calls gives up the tickets of `subject`.
pub open spec fn no_logout(ops: Seq<Operation>, subject: usize) -> bool {
    forall|i: int| 0 <= i < ops.len() ==> #[trigger] ops[i] != (Operation::Logout { subject })
}

/// The number of tickets that calls issue.
pub open spec fn issues_in(ops: Seq<Operation>) -> nat
    decreases ops.len(),
{
    if ops.len() == 0 {
        0
    } else {
        issues_in(ops.drop_last()) + if ops.last() is IssueTicket {
            1nat
        } else {
            0
        }
    }
}

// ---------------------------------------------------------------------------------------------
// Tickets

/// The number of nonces there are.
pub open spec fn nonces() -> int {
    0x1_0000_0000_0000_0000
}

/// Every remembered ticket is one, and says of itself what is remembered of it.
pub open spec fn consistent(m: ManagerModel) -> bool {
    forall|t: Seq<u8>| #[trigger]
        m.tickets.contains_key(t) ==> {
            &&& t.len() == TICKET_LEN
            &&& TicketFields::intact(t)
            &&& TicketFields::of(t).subject == m.tickets[t].subject
            &&& TicketFields::of(t).expire_tick == m.tickets[t].expire_tick
        }
}

/// Every remembered ticket has a nonce that was given out before the next.
pub open spec fn nonces_spent(m: ManagerModel) -> bool {
    forall|t: Seq<u8>| #[trigger]
        m.tickets.contains_key(t) ==> TicketFields::of(t).nonce < m.next_nonce
}

/// The words of a written ticket.
proof fn lemma_written(fields: TicketFields)
    ensures
        fields.bytes().len() == TICKET_LEN,
        TicketFields::of(fields.bytes()) == fields,
        TicketFields::intact(fields.bytes()),
{
    crate::ticket::decode_inverts_encode(fields, Seq::empty());
    assert(fields.bytes() + Seq::<u8>::empty() =~= fields.bytes());
}

/// What follows a ticket does not matter to reading it.
proof fn lemma_rest(ticket: Seq<u8>, rest: Seq<u8>)
    requires
        ticket.len() == TICKET_LEN,
    ensures
        (ticket + rest).take(TICKET_LEN as int) == ticket,
        TicketFields::of(ticket + rest) == TicketFields::of(ticket),
        TicketFields::intact(ticket + rest) == TicketFields::intact(ticket),
{
    let blob = ticket + rest;
    assert(blob.take(TICKET_LEN as int) =~= ticket);
    assert(blob.subrange(0, 8) =~= ticket.subrange(0, 8));
    assert(blob.subrange(8, 16) =~= ticket.subrange(8, 16));
    assert(blob.subrange(16, 24) =~= ticket.subrange(16, 24));
    assert(blob.subrange(24, 32) =~= ticket.subrange(24, 32));
}

/// A new manager is consistent, and all nonces of its tickets are spent.
pub proof fn new_manager_is_consistent(default_ttl_ms: u32)
    ensures
        consistent(ManagerModel::initial(default_ttl_ms)),
        nonces_spent(ManagerModel::initial(default_ttl_ms)),
{
}

/// One call keeps a manager consistent.
proof fn lemma_consistent_after_one(m: ManagerModel, op: Operation)
    requires
        consistent(m),
    ensures
        consistent(after_one(m, op)),
{
    if let Operation::IssueTicket { subject, service } = op {
        lemma_written(m.next_ticket(subject));
    }
}

/// A consistent manager stays so, whatever is called.
pub proof fn consistency_is_kept(m: ManagerModel, ops: Seq<Operation>)
    requires
        consistent(m),
    ensures
        consistent(after_all(m, ops)),
    decreases ops.len(),
{
    if ops.len() > 0 {
        consistency_is_kept(m, ops.drop_last());
        lemma_consistent_after_one(after_all(m, ops.drop_last()), ops.last());
    }
}

/// The nonces of remembered tickets stay spent, whatever is called, until the last nonce is
/// given out.
pub proof fn spent_nonces_stay_spent(m: ManagerModel, ops: Seq<Operation>)
    requires
        nonces_spent(m),
        m.next_nonce + issues_in(ops) <= u64::MAX,
    ensures
        nonces_spent(after_all(m, ops)),
        after_all(m, ops).next_nonce == m.next_nonce + issues_in(ops),
    decreases ops.len(),
{
    if ops.len() > 0 {
        let before = ops.drop_last();
        spent_nonces_stay_spent(m, before);
        if let Operation::IssueTicket { subject, service } = ops.last() {
            lemma_written(after_all(m, before).next_ticket(subject));
        }
    }
}

/// A new ticket is none of those remembered.
pub proof fn issued_ticket_is_new(m: ManagerModel, subject: usize)
    requires
        nonces_spent(m),
    ensures
        !m.tickets.contains_key(m.next_ticket(subject).bytes()),
{
    lemma_written(m.next_ticket(subject));
}

/// A remembered ticket is accepted, whatever follows it, exactly while its last tick has not
/// passed.
pub proof fn remembered_ticket_is_accepted(m: ManagerModel, ticket: Seq<u8>, rest: Seq<u8>)
    requires
        consistent(m),
        m.tickets.contains_key(ticket),
    ensures
        m.accepts(ticket + rest) <==> crate::manager::successor(m.tick)
            <= m.tickets[ticket].expire_tick,
{
    lemma_rest(ticket, rest);
}

/// Only a remembered ticket is accepted; what is too short or has a wrong checksum is rejected
/// without a trace.
pub proof fn only_remembered_tickets_are_accepted(m: ManagerModel, blob: Seq<u8>)
    ensures
        m.accepts(blob) ==> m.tickets.contains_key(blob.take(TICKET_LEN as int)),
        blob.len() < TICKET_LEN ==> !m.accepts(blob) && m.validated(blob) == m,
        blob.len() >= TICKET_LEN && !TicketFields::intact(blob) ==> !m.accepts(blob)
            && m.validated(blob) == m,
{
}

/// The clock stands `taken` ticks after `issued`, or the ticket never runs out.
spec fn on_time(m: ManagerModel, issued: u64, taken: nat, expire_tick: u64) -> bool {
    ||| m.tick == issued + taken
    ||| expire_tick == u64::MAX
}

/// A ticket stays remembered until it runs out or its subject gives its tickets up.
proof fn lemma_ticket_stays(
    m: ManagerModel,
    ticket: Seq<u8>,
    subject: usize,
    issued: u64,
    ttl: nat,
    ops: Seq<Operation>,
)
    requires
        consistent(m),
        m.tickets.contains_key(ticket),
        m.tickets[ticket].subject == subject,
        m.tick == issued,
        issued + ttl > u64::MAX ==> m.tickets[ticket].expire_tick == u64::MAX,
        issued + ttl <= u64::MAX ==> m.tickets[ticket].expire_tick == issued + ttl,
        no_logout(ops, subject),
        ticks_of_all(ops) <= ttl,
    ensures
        ({
            let n = after_all(m, ops);
            &&& consistent(n)
            &&& n.tickets.contains_key(ticket)
            &&& n.tickets[ticket].subject == subject
            &&& n.tickets[ticket].expire_tick == m.tickets[ticket].expire_tick
            &&& on_time(n, issued, ticks_of_all(ops), m.tickets[ticket].expire_tick)
        }),
    decreases ops.len(),
{
    if ops.len() > 0 {
        let before = ops.drop_last();
        let op = ops.last();
        assert forall|i: int| 0 <= i < before.len() implies #[trigger] before[i] != (
        Operation::Logout { subject }) by {
            assert(before[i] == ops[i]);
        }
        lemma_ticket_stays(m, ticket, subject, issued, ttl, before);
        let n = after_all(m, before);
        lemma_consistent_after_one(n, op);
        assert(ops[ops.len() - 1] == op);
        match op {
            Operation::IssueTicket { subject: other, service } => {
                lemma_written(n.next_ticket(other));
            },
            Operation::ValidateTicket { blob } => {
                if ManagerModel::plausible(blob) && blob.take(TICKET_LEN as int) == ticket {
                    assert(blob =~= ticket + blob.skip(TICKET_LEN as int));
                    lemma_rest(ticket, blob.skip(TICKET_LEN as int));
                }
            },
            _ => {},
        }
    }
}

/// A ticket is accepted, whatever follows it, for the default lifetime from the tick at which
/// it was issued, whatever is called in between, unless its subject gives its tickets up.
pub proof fn issued_ticket_is_accepted(
    m: ManagerModel,
    subject: usize,
    service: Seq<char>,
    ops: Seq<Operation>,
    rest: Seq<u8>,
)
    requires
        consistent(m),
        no_logout(ops, subject),
        ticks_of_all(ops) + 1 <= crate::manager::at_least_one(m.default_ttl_ms),
    ensures
        after_all(m.issued(subject, service), ops).accepts(
            m.next_ticket(subject).bytes() + rest,
        ),
{
    let ticket = m.next_ticket(subject).bytes();
    let issued = m.issued(subject, service);
    let ttl = crate::manager::at_least_one(m.default_ttl_ms) as nat;
    lemma_written(m.next_ticket(subject));
    lemma_consistent_after_one(m, Operation::IssueTicket { subject, service });
    lemma_ticket_stays(issued, ticket, subject, issued.tick, ttl, ops);
    remembered_ticket_is_accepted(after_all(issued, ops), ticket, rest);
}

/// The clock after calls, as long as it does not wrap around.
pub proof fn clock_counts_ticks(m: ManagerModel, ops: Seq<Operation>)
    requires
        m.tick + ticks_of_all(ops) <= u64::MAX,
    ensures
        after_all(m, ops).tick == m.tick + ticks_of_all(ops),
    decreases ops.len(),
{
    if ops.len() > 0 {
        clock_counts_ticks(m, ops.drop_last());
    }
}

/// Once its lifetime is over, a ticket is not accepted, whatever is called in between, as long
/// as neither the clock nor the lifetime goes past the last tick there is.
pub proof fn ticket_runs_out(
    m: ManagerModel,
    subject: usize,
    service: Seq<char>,
    ops: Seq<Operation>,
    rest: Seq<u8>,
)
    requires
        ticks_of_all(ops) + 1 > crate::manager::at_least_one(m.default_ttl_ms),
        crate::manager::successor(m.tick) + ticks_of_all(ops) + 1 <= u64::MAX,
    ensures
        !after_all(m.issued(subject, service), ops).accepts(
            m.next_ticket(subject).bytes() + rest,
        ),
{
    let ticket = m.next_ticket(subject).bytes();
    lemma_written(m.next_ticket(subject));
    lemma_rest(ticket, rest);
    clock_counts_ticks(m.issued(subject, service), ops);
}

/// A ticket that is not remembered, with a nonce that is spent, is never accepted again,
/// whatever is called, as long as the nonces do not wrap around.
pub proof fn forgotten_ticket_stays_forgotten(
    m: ManagerModel,
    ticket: Seq<u8>,
    ops: Seq<Operation>,
    rest: Seq<u8>,
)
    requires
        ticket.len() == TICKET_LEN,
        !m.tickets.contains_key(ticket),
        TicketFields::of(ticket).nonce < m.next_nonce,
        m.next_nonce + issues_in(ops) <= u64::MAX,
    ensures
        !after_all(m, ops).tickets.contains_key(ticket),
        !after_all(m, ops).accepts(ticket + rest),
        after_all(m, ops).next_nonce == m.next_nonce + issues_in(ops),
    decreases ops.len(),
{
    lemma_rest(ticket, rest);
    if ops.len() > 0 {
        let before = ops.drop_last();
        forgotten_ticket_stays_forgotten(m, ticket, before, rest);
        if let Operation::IssueTicket { subject, service } = ops.last() {
            lemma_written(after_all(m, before).next_ticket(subject));
        }
    }
}

/// Logging out forgets the tickets of the subject and leaves those of others as they were.
pub proof fn logout_forgets_own_tickets_only(m: ManagerModel, subject: usize, ticket: Seq<u8>)
    requires
        m.tickets.contains_key(ticket),
    ensures
        m.tickets[ticket].subject == subject ==> !m.logged_out(subject).tickets.contains_key(
            ticket,
        ),
        m.tickets[ticket].subject != subject ==> m.logged_out(subject).tickets.contains_key(
            ticket,
        ) && m.logged_out(subject).tickets[ticket] == m.tickets[ticket],
{
}

/// A ticket that its subject gave up is never accepted again, whatever is called, as long as
/// the nonces do not wrap around.
pub proof fn logged_out_ticket_is_rejected(
    m: ManagerModel,
    subject: usize,
    ticket: Seq<u8>,
    ops: Seq<Operation>,
    rest: Seq<u8>,
)
    requires
        consistent(m),
        nonces_spent(m),
        m.tickets.contains_key(ticket),
        m.tickets[ticket].subject == subject,
        m.next_nonce + issues_in(ops) <= u64::MAX,
    ensures
        !after_all(m.logged_out(subject), ops).accepts(ticket + rest),
{
    forgotten_ticket_stays_forgotten(m.logged_out(subject), ticket, ops, rest);
}

/// `ops` issue `ticket` at place `i`, starting from `m`.
pub open spec fn issued_at(m: ManagerModel, ops: Seq<Operation>, i: int, ticket: Seq<u8>) -> bool {
    &&& 0 <= i < ops.len()
    &&& ops[i] is IssueTicket
    &&& after_all(m, ops.take(i)).next_ticket(ops[i]->IssueTicket_subject).bytes() == ticket
}

/// The next nonce after calls: one on for every ticket issued, all the way round.
proof fn lemma_nonce_counts(m: ManagerModel, ops: Seq<Operation>)
    ensures
        after_all(m, ops).next_nonce == (m.next_nonce + issues_in(ops)) % nonces(),
    decreases ops.len(),
{
    if ops.len() > 0 {
        let before = ops.drop_last();
        lemma_nonce_counts(m, before);
        let x = m.next_nonce + issues_in(before);
        assert((x + 1) % nonces() == if x % nonces() == nonces() - 1 {
            0
        } else {
            x % nonces() + 1
        });
    }
}

/// A longer part of a history issues at least as many tickets, and one more if it goes on past
/// the issue of a ticket.
proof fn lemma_issues_add_up(ops: Seq<Operation>, i: int, j: int)
    requires
        0 <= i < j <= ops.len(),
        ops[i] is IssueTicket,
    ensures
        issues_in(ops.take(i)) < issues_in(ops.take(j)),
    decreases j,
{
    assert(ops.take(j).drop_last() =~= ops.take(j - 1));
    assert(ops.take(j).last() == ops[j - 1]);
    if i < j - 1 {
        lemma_issues_add_up(ops, i, j - 1);
    }
}

/// No two tickets of a history are the same, wherever in it they are issued, unless the nonces
/// go all the way round in between.
pub proof fn issued_tickets_differ(
    m: ManagerModel,
    ops: Seq<Operation>,
    i: int,
    first: Seq<u8>,
    j: int,
    second: Seq<u8>,
)
    requires
        i < j,
        issued_at(m, ops, i, first),
        issued_at(m, ops, j, second),
        issues_in(ops.take(j)) - issues_in(ops.take(i)) < nonces(),
    ensures
        first != second,
{
    lemma_nonce_counts(m, ops.take(i));
    lemma_nonce_counts(m, ops.take(j));
    lemma_issues_add_up(ops, i, j);
    lemma_written(after_all(m, ops.take(i)).next_ticket(ops[i]->IssueTicket_subject));
    lemma_written(after_all(m, ops.take(j)).next_ticket(ops[j]->IssueTicket_subject));
    let x = m.next_nonce + issues_in(ops.take(i));
    let d = issues_in(ops.take(j)) - issues_in(ops.take(i));
    assert(x % nonces() != (x + d) % nonces());
}

/// What is accepted was issued before: no other bytes are ever accepted.
pub proof fn accepted_ticket_was_issued(default_ttl_ms: u32, ops: Seq<Operation>, blob: Seq<u8>)
    requires
        after_all(ManagerModel::initial(default_ttl_ms), ops).accepts(blob),
    ensures
        exists|i: int|
            issued_at(
                ManagerModel::initial(default_ttl_ms),
                ops,
                i,
                blob.take(TICKET_LEN as int),
            ),
{
    lemma_remembered_was_issued(default_ttl_ms, ops, blob.take(TICKET_LEN as int));
}

proof fn lemma_remembered_was_issued(default_ttl_ms: u32, ops: Seq<Operation>, ticket: Seq<u8>)
    requires
        after_all(ManagerModel::initial(default_ttl_ms), ops).tickets.contains_key(ticket),
    ensures
        exists|i: int| issued_at(ManagerModel::initial(default_ttl_ms), ops, i, ticket),
    decreases ops.len(),
{
    let m = ManagerModel::initial(default_ttl_ms);
    let before = ops.drop_last();
    if after_all(m, before).tickets.contains_key(ticket) && ops.len() > 0 {
        lemma_remembered_was_issued(default_ttl_ms, before, ticket);
        let i = choose|i: int| issued_at(m, before, i, ticket);
        assert(before.take(i) =~= ops.take(i));
        assert(issued_at(m, ops, i, ticket));
    } else if ops.len() > 0 {
        assert(ops.take(ops.len() - 1) =~= before);
        assert(issued_at(m, ops, ops.len() - 1, ticket));
    }
}

/// Pruning forgets the tickets that have run out, keeps the others as they were, and is
/// otherwise no more than a tick.
pub proof fn pruning_forgets_what_ran_out(m: ManagerModel, ticket: Seq<u8>)
    ensures
        m.pruned().tickets.contains_key(ticket) <==> m.tickets.contains_key(ticket)
            && m.tickets[ticket].expire_tick >= m.pruned().tick,
        m.pruned().tickets.contains_key(ticket) ==> m.pruned().tickets[ticket]
            == m.tickets[ticket],
        m.pruned() == (ManagerModel { tickets: m.pruned().tickets, ..m.ticked() }),
{
}

/// Pruning takes nothing away that would still be accepted, except at the tick before the clock
/// wraps around.
pub proof fn pruning_changes_no_answer(m: ManagerModel, blob: Seq<u8>)
    requires
        consistent(m),
        m.tick != u64::MAX - 1,
    ensures
        m.pruned().accepts(blob) <==> m.ticked().accepts(blob),
{
    if m.ticked().accepts(blob) {
        let ticket = blob.take(TICKET_LEN as int);
        assert(blob =~= ticket + blob.skip(TICKET_LEN as int));
        lemma_rest(ticket, blob.skip(TICKET_LEN as int));
    }
}

// ---------------------------------------------------------------------------------------------
// Identities and permissions

/// An identity that was set is the one that is read, whatever is called in between, until
/// another is set; setting it leaves those of other subjects as they were.
pub proof fn set_identity_is_read_back(
    m: ManagerModel,
    subject: usize,
    identity: IdentityModel,
    ops: Seq<Operation>,
    other: usize,
)
    requires
        identity_untouched(ops, subject),
    ensures
        after_all(m.with_identity(subject, identity), ops).identity(subject) == identity,
        other != subject ==> m.with_identity(subject, identity).identity(other) == m.identity(
            other,
        ),
{
    identity_stays(m.with_identity(subject, identity), ops, subject);
}

/// None of the calls sets the identity of `subject`.
pub open spec fn identity_untouched(ops: Seq<Operation>, subject: usize) -> bool {
    forall|i: int|
        0 <= i < ops.len() ==> !((#[trigger] ops[i]) is SetIdentity
            && ops[i]->SetIdentity_subject == subject)
}

/// An identity stays as it is, whatever is called, until it is set.
pub proof fn identity_stays(m: ManagerModel, ops: Seq<Operation>, subject: usize)
    requires
        identity_untouched(ops, subject),
    ensures
        after_all(m, ops).identity(subject) == m.identity(subject),
    decreases ops.len(),
{
    if ops.len() > 0 {
        let before = ops.drop_last();
        assert forall|i: int| 0 <= i < before.len() implies !((#[trigger] before[i]) is SetIdentity
            && before[i]->SetIdentity_subject == subject) by {
            assert(before[i] == ops[i]);
        }
        identity_stays(m, before, subject);
        assert(ops[ops.len() - 1] == ops.last());
    }
}

/// None of the calls puts a rule under `key` in force or out of it.
pub open spec fn rule_untouched(ops: Seq<Operation>, key: PolicyKeyModel) -> bool {
    forall|i: int|
        0 <= i < ops.len() ==> match #[trigger] ops[i] {
            Operation::UpsertPolicy { key: k, .. } => k != key,
            Operation::DeletePolicy { key: k } => k != key,
            _ => true,
        }
}

/// A rule stays in force, or out of it, whatever is called, until one is put in force or taken
/// out of it under the same key.
pub proof fn rule_stays(m: ManagerModel, ops: Seq<Operation>, key: PolicyKeyModel)
    requires
        rule_untouched(ops, key),
    ensures
        after_all(m, ops).policies.contains_key(key) <==> m.policies.contains_key(key),
        m.policies.contains_key(key) ==> after_all(m, ops).policies[key] == m.policies[key],
        after_all(m, ops).default_ttl_ms == m.default_ttl_ms,
    decreases ops.len(),
{
    if ops.len() > 0 {
        let before = ops.drop_last();
        assert forall|i: int| 0 <= i < before.len() implies match #[trigger] before[i] {
            Operation::UpsertPolicy { key: k, .. } => k != key,
            Operation::DeletePolicy { key: k } => k != key,
            _ => true,
        } by {
            assert(before[i] == ops[i]);
        }
        rule_stays(m, before, key);
        assert(ops[ops.len() - 1] == ops.last());
    }
}

/// The superuser may do everything, whatever the rules say.
pub proof fn superuser_is_allowed(
    m: ManagerModel,
    subject: usize,
    resource: Seq<char>,
    operation: Seq<char>,
)
    requires
        m.identity(subject).euid == 0,
    ensures
        m.decision(subject, resource, operation).allowed == 1,
        m.decision(subject, resource, operation).ttl_ms == m.default_ttl_ms,
{
}

/// A subject without an identity of its own passes for the superuser.
pub proof fn unknown_subject_is_allowed(
    m: ManagerModel,
    subject: usize,
    resource: Seq<char>,
    operation: Seq<char>,
)
    requires
        !m.identities.contains_key(subject),
    ensures
        m.decision(subject, resource, operation).allowed == 1,
        m.decision(subject, resource, operation).ttl_ms == m.default_ttl_ms,
{
}

/// Access is allowed by default: it is denied exactly to subjects other than the superuser for
/// whom the matching rule denies it.
pub proof fn denial_takes_a_rule(
    m: ManagerModel,
    subject: usize,
    resource: Seq<char>,
    operation: Seq<char>,
)
    ensures
        m.decision(subject, resource, operation).allowed == 0 || m.decision(
            subject,
            resource,
            operation,
        ).allowed == 1,
        m.decision(subject, resource, operation).allowed == 0 <==> m.identity(subject).euid != 0
            && m.matching_rule(subject, resource, operation) is Some && m.matching_rule(
            subject,
            resource,
            operation,
        )->0.effect == 0,
{
}

/// A rule on the very request decides about it for as long as it is in force, whatever else is
/// called, unless the subject is the superuser by then.
pub proof fn exact_rule_decides(
    m: ManagerModel,
    key: PolicyKeyModel,
    rule: PolicyRule,
    ops: Seq<Operation>,
)
    requires
        rule_untouched(ops, key),
        after_all(m.with_policy(key, rule), ops).identity(key.subject).euid != 0,
    ensures
        ({
            let n = after_all(m.with_policy(key, rule), ops);
            let d = n.decision(key.subject, key.resource, key.operation);
            &&& d.allowed == 0 <==> rule.effect == 0
            &&& rule.ttl_ms > 0 ==> d.ttl_ms == rule.ttl_ms
            &&& rule.ttl_ms == 0 ==> d.ttl_ms == crate::manager::at_least_one(m.default_ttl_ms)
        }),
{
    rule_stays(m.with_policy(key, rule), ops, key);
}

/// A rule of one subject has no effect on decisions about another.
pub proof fn rules_of_others_do_not_matter(
    m: ManagerModel,
    key: PolicyKeyModel,
    rule: PolicyRule,
    subject: usize,
    resource: Seq<char>,
    operation: Seq<char>,
)
    requires
        key.subject != subject,
        key.subject != usize::MAX,
    ensures
        m.with_policy(key, rule).decision(subject, resource, operation) == m.decision(
            subject,
            resource,
            operation,
        ),
        m.without_policy(key).decision(subject, resource, operation) == m.decision(
            subject,
            resource,
            operation,
        ),
{
}

/// A rule on every subject has no effect where the subject has a matching rule of its own.
pub proof fn own_rules_come_first(
    m: ManagerModel,
    key: PolicyKeyModel,
    rule: PolicyRule,
    subject: usize,
    resource: Seq<char>,
    operation: Seq<char>,
)
    requires
        key.subject == usize::MAX,
        subject != usize::MAX,
        m.policies.contains_key(crate::manager::policy_key(subject, resource, operation))
            || m.policies.contains_key(crate::manager::policy_key(subject, resource, "*"@))
            || m.policies.contains_key(crate::manager::policy_key(subject, "*"@, operation))
            || m.policies.contains_key(crate::manager::policy_key(subject, "*"@, "*"@)),
    ensures
        m.with_policy(key, rule).decision(subject, resource, operation) == m.decision(
            subject,
            resource,
            operation,
        ),
{
}

/// A decision by a rule may always be kept for some time.
pub proof fn rule_lifetime_is_positive(
    m: ManagerModel,
    subject: usize,
    resource: Seq<char>,
    operation: Seq<char>,
)
    requires
        m.identity(subject).euid != 0,
        m.matching_rule(subject, resource, operation) is Some,
    ensures
        m.decision(subject, resource, operation).ttl_ms >= 1,
{
}

/// Of two rules under one key the later is in force; deleting a rule takes back putting it in
/// force, where there was none before; deleting twice is deleting once.
pub proof fn rules_replace_and_delete(
    m: ManagerModel,
    key: PolicyKeyModel,
    first: PolicyRule,
    second: PolicyRule,
)
    ensures
        m.with_policy(key, first).with_policy(key, second) == m.with_policy(key, second),
        m.with_policy(key, first).without_policy(key) == m.without_policy(key),
        !m.policies.contains_key(key) ==> m.with_policy(key, first).without_policy(key) == m,
        m.without_policy(key).without_policy(key) == m.without_policy(key),
{
    assert(m.with_policy(key, first).with_policy(key, second) =~= m.with_policy(key, second));
    assert(m.with_policy(key, first).without_policy(key) =~= m.without_policy(key));
    if !m.policies.contains_key(key) {
        assert(m.without_policy(key) =~= m);
    }
    assert(m.without_policy(key).without_policy(key) =~= m.without_policy(key));
}

} // verus!
