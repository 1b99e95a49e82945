//! What each operation of the manager does to each part of what it remembers, said in terms of
//! the parts themselves.

use crate::manager::{
    ManagerModel, PolicyKey, PolicyKeyModel, TicketEntry,
};
use crate::protocol::{IdentityInfo, IdentityModel, PolicyRule};
use crate::ticket::{TicketFields, CHECKSUM_SALT, TICKET_LEN};
use vstd::bytes::*;
use vstd::prelude::*;

verus! {

// ---------------------------------------------------------------------------------------------
// Values

/// Models show every field of the values they stand for.
pub proof fn models_show_all_fields(
    identity: IdentityInfo,
    rule: PolicyRule,
    key: PolicyKey,
    entry: TicketEntry,
)
    ensures
        identity@.euid == identity.euid,
        identity@.record == identity.record@,
        rule@ == rule,
        key@.subject == key.subject,
        key@.resource == key.resource@,
        key@.operation == key.operation@,
        entry@.subject == entry.subject,
        entry@.service == entry.service@,
        entry@.expire_tick == entry.expire_tick,
{
}

/// A new manager remembers nothing, has its clock at zero, and gives out nonce one first.
pub proof fn new_manager_is_empty(default_ttl_ms: u32)
    ensures
        forall|s: usize|
            !(#[trigger] ManagerModel::initial(default_ttl_ms).identities.contains_key(s)),
        forall|k: PolicyKeyModel|
            !(#[trigger] ManagerModel::initial(default_ttl_ms).policies.contains_key(k)),
        forall|t: Seq<u8>|
            !(#[trigger] ManagerModel::initial(default_ttl_ms).tickets.contains_key(t)),
        ManagerModel::initial(default_ttl_ms).default_ttl_ms == default_ttl_ms,
        ManagerModel::initial(default_ttl_ms).tick == 0,
        ManagerModel::initial(default_ttl_ms).next_nonce == 1,
{
}

// ---------------------------------------------------------------------------------------------
// Clock

/// A tick adds one to the clock, modulo its range, and touches nothing else.
pub proof fn tick_moves_the_clock_by_one(m: ManagerModel)
    ensures
        m.ticked().tick == (m.tick + 1) % 0x1_0000_0000_0000_0000,
        m.ticked().identities == m.identities,
        m.ticked().policies == m.policies,
        m.ticked().tickets == m.tickets,
        m.ticked().default_ttl_ms == m.default_ttl_ms,
        m.ticked().next_nonce == m.next_nonce,
{
}

// ---------------------------------------------------------------------------------------------
// Identities

/// The identity that is read is the one on record, or the superuser's where none is.
pub proof fn identity_is_the_one_on_record(m: ManagerModel, subject: usize)
    ensures
        m.identities.contains_key(subject) ==> m.identity(subject) == m.identities[subject],
        !m.identities.contains_key(subject) ==> m.identity(subject).euid == 0 && m.identity(
            subject,
        ).record.len() == 0,
{
}

/// Setting an identity puts it on record for its subject and touches nothing else.
pub proof fn setting_identity_records_it(
    m: ManagerModel,
    subject: usize,
    identity: IdentityModel,
    other: usize,
)
    ensures
        ({
            let n = m.with_identity(subject, identity);
            &&& n.identities.contains_key(subject)
            &&& n.identities[subject] == identity
            &&& other != subject ==> (n.identities.contains_key(other)
                <==> m.identities.contains_key(other))
            &&& other != subject && m.identities.contains_key(other) ==> n.identities[other]
                == m.identities[other]
            &&& n.policies == m.policies
            &&& n.tickets == m.tickets
            &&& n.default_ttl_ms == m.default_ttl_ms
            &&& n.tick == m.tick
            &&& n.next_nonce == m.next_nonce
        }),
{
}

// ---------------------------------------------------------------------------------------------
// Rules

/// Putting a rule in force records its effect and its lifetime, or the default lifetime where
/// it gives none, under exactly the subject, resource and operation asked for; other rules and
/// everything else stay.
pub proof fn upsert_records_the_rule(
    m: ManagerModel,
    subject: usize,
    resource: Seq<char>,
    operation: Seq<char>,
    rule: PolicyRule,
    other: PolicyKeyModel,
)
    ensures
        ({
            let key = PolicyKeyModel { subject, resource, operation };
            let n = m.with_policy(crate::manager::policy_key(subject, resource, operation), rule);
            &&& n.policies.contains_key(key)
            &&& n.policies[key].effect == rule.effect
            &&& rule.ttl_ms > 0 ==> n.policies[key].ttl_ms == rule.ttl_ms
            &&& rule.ttl_ms == 0 ==> n.policies[key].ttl_ms == m.default_ttl_ms
            &&& n.policies[key].subject == subject as int % 0x1_0000_0000
            &&& other != key ==> (n.policies.contains_key(other) <==> m.policies.contains_key(
                other,
            ))
            &&& other != key && m.policies.contains_key(other) ==> n.policies[other]
                == m.policies[other]
            &&& n.identities == m.identities
            &&& n.tickets == m.tickets
            &&& n.default_ttl_ms == m.default_ttl_ms
            &&& n.tick == m.tick
            &&& n.next_nonce == m.next_nonce
        }),
{
}

/// Taking a rule out of force removes what is under exactly the subject, resource and operation
/// asked for; other rules and everything else stay.
pub proof fn delete_removes_the_rule(
    m: ManagerModel,
    subject: usize,
    resource: Seq<char>,
    operation: Seq<char>,
    other: PolicyKeyModel,
)
    ensures
        ({
            let key = PolicyKeyModel { subject, resource, operation };
            let n = m.without_policy(crate::manager::policy_key(subject, resource, operation));
            &&& !n.policies.contains_key(key)
            &&& other != key ==> (n.policies.contains_key(other) <==> m.policies.contains_key(
                other,
            ))
            &&& other != key && m.policies.contains_key(other) ==> n.policies[other]
                == m.policies[other]
            &&& n.identities == m.identities
            &&& n.tickets == m.tickets
            &&& n.default_ttl_ms == m.default_ttl_ms
            &&& n.tick == m.tick
            &&& n.next_nonce == m.next_nonce
        }),
{
}

/// A subject with no identity on record, or with that of the superuser, is allowed everything
/// for the default lifetime, whatever rules there are.
pub proof fn superuser_decision(
    m: ManagerModel,
    subject: usize,
    resource: Seq<char>,
    operation: Seq<char>,
)
    requires
        m.identities.contains_key(subject) ==> m.identities[subject].euid == 0,
    ensures
        m.decision(subject, resource, operation).allowed == 1,
        m.decision(subject, resource, operation).ttl_ms == m.default_ttl_ms,
        m.decision(subject, resource, operation).reserved@ == seq![0u8, 0u8, 0u8],
{
    assert(m.decision(subject, resource, operation).reserved@ =~= seq![0u8, 0u8, 0u8]);
}

/// For any other subject, the first of these that has a rule decides: the subject with the very
/// resource and operation, with any operation, with any resource, with both; then, for every
/// subject, the very resource and operation, and both any. The rule denies exactly if its effect
/// is zero, and the decision lasts for the rule's lifetime, but at least one millisecond.
pub proof fn first_rule_decides(
    m: ManagerModel,
    subject: usize,
    resource: Seq<char>,
    operation: Seq<char>,
    keys: Seq<PolicyKeyModel>,
    i: int,
)
    requires
        m.identities.contains_key(subject),
        m.identities[subject].euid != 0,
        keys == seq![
            PolicyKeyModel { subject, resource, operation },
            PolicyKeyModel { subject, resource, operation: "*"@ },
            PolicyKeyModel { subject, resource: "*"@, operation },
            PolicyKeyModel { subject, resource: "*"@, operation: "*"@ },
            PolicyKeyModel { subject: usize::MAX, resource, operation },
            PolicyKeyModel { subject: usize::MAX, resource: "*"@, operation: "*"@ },
        ],
        0 <= i < 6,
        m.policies.contains_key(keys[i]),
        forall|j: int| 0 <= j < i ==> !m.policies.contains_key(#[trigger] keys[j]),
    ensures
        ({
            let d = m.decision(subject, resource, operation);
            let rule = m.policies[keys[i]];
            &&& rule.effect == 0 ==> d.allowed == 0
            &&& rule.effect != 0 ==> d.allowed == 1
            &&& rule.ttl_ms >= 1 ==> d.ttl_ms == rule.ttl_ms
            &&& rule.ttl_ms == 0 ==> d.ttl_ms == 1
            &&& d.reserved@ == seq![0u8, 0u8, 0u8]
        }),
{
    if i > 0 {
        assert(!m.policies.contains_key(keys[0]));
    }
    if i > 1 {
        assert(!m.policies.contains_key(keys[1]));
    }
    if i > 2 {
        assert(!m.policies.contains_key(keys[2]));
    }
    if i > 3 {
        assert(!m.policies.contains_key(keys[3]));
    }
    if i > 4 {
        assert(!m.policies.contains_key(keys[4]));
    }
    assert(m.decision(subject, resource, operation).reserved@ =~= seq![0u8, 0u8, 0u8]);
}

/// Where none of the six has a rule, access is allowed for the default lifetime, whatever other
/// rules there are.
pub proof fn no_rule_allows(
    m: ManagerModel,
    subject: usize,
    resource: Seq<char>,
    operation: Seq<char>,
)
    requires
        !m.policies.contains_key(PolicyKeyModel { subject, resource, operation }),
        !m.policies.contains_key(PolicyKeyModel { subject, resource, operation: "*"@ }),
        !m.policies.contains_key(PolicyKeyModel { subject, resource: "*"@, operation }),
        !m.policies.contains_key(PolicyKeyModel { subject, resource: "*"@, operation: "*"@ }),
        !m.policies.contains_key(PolicyKeyModel { subject: usize::MAX, resource, operation }),
        !m.policies.contains_key(
            PolicyKeyModel { subject: usize::MAX, resource: "*"@, operation: "*"@ },
        ),
    ensures
        m.decision(subject, resource, operation).allowed == 1,
        m.decision(subject, resource, operation).ttl_ms == m.default_ttl_ms,
        m.decision(subject, resource, operation).reserved@ == seq![0u8, 0u8, 0u8],
{
    assert(m.decision(subject, resource, operation).reserved@ =~= seq![0u8, 0u8, 0u8]);
}

// ---------------------------------------------------------------------------------------------
// Tickets

/// A rotation keeps the low bits as a multiple and brings the high bits in below them.
pub proof fn rotation_in_numbers(x: u64)
    ensures
        crate::ticket::rotated_left(x, 7) == (x % 0x200_0000_0000_0000) * 0x80 + x
            / 0x200_0000_0000_0000,
        crate::ticket::rotated_left(x, 17) == (x % 0x8000_0000_0000) * 0x2_0000 + x
            / 0x8000_0000_0000,
        crate::ticket::rotated_left(x, 29) == (x % 0x8_0000_0000) * 0x2000_0000 + x
            / 0x8_0000_0000,
{
    assert((x << 7u64) | (x >> 57u64) == (x % 0x200_0000_0000_0000) * 0x80 + x
        / 0x200_0000_0000_0000) by (bit_vector);
    assert((x << 17u64) | (x >> 47u64) == (x % 0x8000_0000_0000) * 0x2_0000 + x
        / 0x8000_0000_0000) by (bit_vector);
    assert((x << 29u64) | (x >> 35u64) == (x % 0x8_0000_0000) * 0x2000_0000 + x
        / 0x8_0000_0000) by (bit_vector);
}

/// The checksum mixes the three words, rotated by seven, seventeen and twenty-nine bits, with
/// the salt.
pub proof fn checksum_in_numbers(fields: TicketFields, a: u64, b: u64, c: u64)
    requires
        a == (fields.subject % 0x200_0000_0000_0000) * 0x80 + fields.subject
            / 0x200_0000_0000_0000,
        b == (fields.expire_tick % 0x8000_0000_0000) * 0x2_0000 + fields.expire_tick
            / 0x8000_0000_0000,
        c == (fields.nonce % 0x8_0000_0000) * 0x2000_0000 + fields.nonce / 0x8_0000_0000,
    ensures
        fields.checksum_spec() == a ^ b ^ c ^ 0x5a17_baad_cafe_f00d,
        CHECKSUM_SALT == 0x5a17_baad_cafe_f00d,
        TICKET_LEN == 32,
{
    rotation_in_numbers(fields.subject);
    rotation_in_numbers(fields.expire_tick);
    rotation_in_numbers(fields.nonce);
}

/// Where the four words of a ticket stand, each low byte first.
pub proof fn ticket_layout(fields: TicketFields)
    ensures
        fields.bytes().len() == 32,
        fields.bytes().subrange(0, 8) == spec_u64_to_le_bytes(fields.subject),
        fields.bytes().subrange(8, 16) == spec_u64_to_le_bytes(fields.expire_tick),
        fields.bytes().subrange(16, 24) == spec_u64_to_le_bytes(fields.nonce),
        fields.bytes().subrange(24, 32) == spec_u64_to_le_bytes(fields.checksum_spec()),
{
    lemma_auto_spec_u64_to_from_le_bytes();
    let t = fields.bytes();
    assert(t.subrange(0, 8) =~= spec_u64_to_le_bytes(fields.subject));
    assert(t.subrange(8, 16) =~= spec_u64_to_le_bytes(fields.expire_tick));
    assert(t.subrange(16, 24) =~= spec_u64_to_le_bytes(fields.nonce));
    assert(t.subrange(24, 32) =~= spec_u64_to_le_bytes(fields.checksum_spec()));
}

/// Where the words of a ticket are read from, and what makes it intact.
pub proof fn ticket_reading(blob: Seq<u8>)
    ensures
        TicketFields::of(blob).subject == spec_u64_from_le_bytes(blob.subrange(0, 8)),
        TicketFields::of(blob).expire_tick == spec_u64_from_le_bytes(blob.subrange(8, 16)),
        TicketFields::of(blob).nonce == spec_u64_from_le_bytes(blob.subrange(16, 24)),
        TicketFields::intact(blob) <==> spec_u64_from_le_bytes(blob.subrange(24, 32))
            == TicketFields::of(blob).checksum_spec(),
{
}

/// A ticket carries its subject, the last tick of its lifetime and the next nonce. The lifetime
/// is the default, but at least one tick, from the tick after the present one, and ends no later
/// than the clock does.
pub proof fn issued_ticket_carries_its_words(m: ManagerModel, subject: usize)
    ensures
        ({
            let now = (m.tick + 1) % 0x1_0000_0000_0000_0000;
            let fields = m.next_ticket(subject);
            let t = fields.bytes();
            &&& fields.subject == subject
            &&& fields.nonce == m.next_nonce
            &&& m.default_ttl_ms >= 1 && now + m.default_ttl_ms <= u64::MAX ==> fields.expire_tick
                == now + m.default_ttl_ms
            &&& m.default_ttl_ms == 0 && now + 1 <= u64::MAX ==> fields.expire_tick == now + 1
            &&& now + m.default_ttl_ms > u64::MAX || now == u64::MAX ==> fields.expire_tick
                == u64::MAX
            &&& t.len() == 32
            &&& spec_u64_from_le_bytes(t.subrange(0, 8)) == subject
            &&& spec_u64_from_le_bytes(t.subrange(8, 16)) == fields.expire_tick
            &&& spec_u64_from_le_bytes(t.subrange(16, 24)) == m.next_nonce
            &&& spec_u64_from_le_bytes(t.subrange(24, 32)) == fields.checksum_spec()
        }),
{
    lemma_auto_spec_u64_to_from_le_bytes();
    ticket_layout(m.next_ticket(subject));
}

/// Issuing a ticket remembers it with its subject, its service and its last tick, takes one
/// tick and one nonce, and touches nothing else.
pub proof fn issuing_remembers_the_ticket(
    m: ManagerModel,
    subject: usize,
    service: Seq<char>,
    other: Seq<u8>,
)
    ensures
        ({
            let t = m.next_ticket(subject).bytes();
            let n = m.issued(subject, service);
            &&& n.tickets.contains_key(t)
            &&& n.tickets[t].subject == subject
            &&& n.tickets[t].service == service
            &&& n.tickets[t].expire_tick == spec_u64_from_le_bytes(t.subrange(8, 16))
            &&& other != t ==> (n.tickets.contains_key(other) <==> m.tickets.contains_key(other))
            &&& other != t && m.tickets.contains_key(other) ==> n.tickets[other]
                == m.tickets[other]
            &&& n.tick == (m.tick + 1) % 0x1_0000_0000_0000_0000
            &&& n.next_nonce == (m.next_nonce + 1) % 0x1_0000_0000_0000_0000
            &&& n.identities == m.identities
            &&& n.policies == m.policies
            &&& n.default_ttl_ms == m.default_ttl_ms
        }),
{
    issued_ticket_carries_its_words(m, subject);
}

/// A blob is accepted exactly if it has at least the length of a ticket, its fourth word is the
/// checksum of the first three, the next tick is not past its second word, and its first bytes
/// are a remembered ticket.
pub proof fn acceptance_in_full(m: ManagerModel, blob: Seq<u8>)
    ensures
        ({
            let now = (m.tick + 1) % 0x1_0000_0000_0000_0000;
            let fields = TicketFields {
                subject: spec_u64_from_le_bytes(blob.subrange(0, 8)),
                expire_tick: spec_u64_from_le_bytes(blob.subrange(8, 16)),
                nonce: spec_u64_from_le_bytes(blob.subrange(16, 24)),
            };
            m.accepts(blob) <==> {
                &&& blob.len() >= 32
                &&& fields.checksum_spec() == spec_u64_from_le_bytes(blob.subrange(24, 32))
                &&& now <= fields.expire_tick
                &&& m.tickets.contains_key(blob.subrange(0, 32))
            }
        }),
{
    if blob.len() >= 32 {
        assert(blob.take(32) =~= blob.subrange(0, 32));
    }
}

/// Validating a blob that is too short or has a wrong checksum changes nothing. Any other takes
/// one tick, and, if the clock is then past its second word, makes the manager forget the ticket
/// in its first bytes; nothing else changes.
pub proof fn validation_in_full(m: ManagerModel, blob: Seq<u8>, ticket: Seq<u8>)
    ensures
        ({
            let now = (m.tick + 1) % 0x1_0000_0000_0000_0000;
            let fields = TicketFields {
                subject: spec_u64_from_le_bytes(blob.subrange(0, 8)),
                expire_tick: spec_u64_from_le_bytes(blob.subrange(8, 16)),
                nonce: spec_u64_from_le_bytes(blob.subrange(16, 24)),
            };
            let good = blob.len() >= 32 && fields.checksum_spec() == spec_u64_from_le_bytes(
                blob.subrange(24, 32),
            );
            let n = m.validated(blob);
            &&& !good ==> n == m
            &&& good ==> n.tick == now
            &&& good && now > fields.expire_tick && ticket == blob.subrange(0, 32)
                ==> !n.tickets.contains_key(ticket)
            &&& good && (now <= fields.expire_tick || ticket != blob.subrange(0, 32)) ==> (
            n.tickets.contains_key(ticket) <==> m.tickets.contains_key(ticket))
            &&& n.tickets.contains_key(ticket) ==> n.tickets[ticket] == m.tickets[ticket]
            &&& n.identities == m.identities
            &&& n.policies == m.policies
            &&& n.default_ttl_ms == m.default_ttl_ms
            &&& n.next_nonce == m.next_nonce
        }),
{
    if blob.len() >= 32 {
        assert(blob.take(32) =~= blob.subrange(0, 32));
    }
}

/// Logging out forgets a ticket exactly if it is the subject's, and touches nothing else.
pub proof fn logout_in_full(m: ManagerModel, subject: usize, ticket: Seq<u8>)
    ensures
        ({
            let n = m.logged_out(subject);
            &&& n.tickets.contains_key(ticket) <==> m.tickets.contains_key(ticket)
                && m.tickets[ticket].subject != subject
            &&& n.tickets.contains_key(ticket) ==> n.tickets[ticket] == m.tickets[ticket]
            &&& n.identities == m.identities
            &&& n.policies == m.policies
            &&& n.default_ttl_ms == m.default_ttl_ms
            &&& n.tick == m.tick
            &&& n.next_nonce == m.next_nonce
        }),
{
}

/// Pruning takes one tick, forgets a ticket exactly if its last tick is before the clock, and
/// touches nothing else.
pub proof fn pruning_in_full(m: ManagerModel, ticket: Seq<u8>)
    ensures
        ({
            let now = (m.tick + 1) % 0x1_0000_0000_0000_0000;
            let n = m.pruned();
            &&& n.tick == now
            &&& n.tickets.contains_key(ticket) <==> m.tickets.contains_key(ticket)
                && m.tickets[ticket].expire_tick >= now
            &&& n.tickets.contains_key(ticket) ==> n.tickets[ticket] == m.tickets[ticket]
            &&& n.identities == m.identities
            &&& n.policies == m.policies
            &&& n.default_ttl_ms == m.default_ttl_ms
            &&& n.next_nonce == m.next_nonce
        }),
{
}

} // verus!
