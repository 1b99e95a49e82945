//! What the service remembers: identities, permission rules and tickets.

use crate::protocol::{Badge, IdentityInfo, IdentityModel, PermissionDecision, PolicyRule};
use crate::table::{Table, TableKey};
use crate::ticket::{ticket_prefix, TicketFields};
use std::collections::BTreeMap;
use vstd::prelude::*;

verus! {

/// What a permission rule stands under.
#[derive(Debug, Clone, PartialEq, Eq, PartialOrd, Ord)]
pub struct PolicyKey {
    /// The subject, or the highest number for every subject.
    pub subject: usize,
    /// The resource, or `*` for every resource.
    pub resource: String,
    /// The operation, or `*` for every operation.
    pub operation: String,
}

/// What a [`PolicyKey`] holds.
#[verifier::ext_equal]
pub struct PolicyKeyModel {
    pub subject: usize,
    pub resource: Seq<char>,
    pub operation: Seq<char>,
}

impl View for PolicyKey {
    type V = PolicyKeyModel;

    open spec fn view(&self) -> PolicyKeyModel {
        PolicyKeyModel {
            subject: self.subject,
            resource: self.resource@,
            operation: self.operation@,
        }
    }
}

impl PolicyKey {
    /// The key with the given parts.
    fn of(subject: usize, resource: &str, operation: &str) -> (r: PolicyKey)
        ensures
            r@ == policy_key(subject, resource@, operation@),
    {
        PolicyKey { subject, resource: resource.to_owned(), operation: operation.to_owned() }
    }
}

/// The key with the given parts.
pub open spec fn policy_key(
    subject: usize,
    resource: Seq<char>,
    operation: Seq<char>,
) -> PolicyKeyModel {
    PolicyKeyModel { subject, resource, operation }
}

impl TableKey for PolicyKey {
    fn same(&self, other: &Self) -> (r: bool) {
        self.subject == other.subject && self.resource == other.resource && self.operation
            == other.operation
    }
}

/// What is remembered of an issued ticket.
#[derive(Debug, Clone)]
pub struct TicketEntry {
    /// The subject the ticket was issued to.
    pub subject: usize,
    /// The service the ticket was asked for.
    pub service: String,
    /// The last tick at which the ticket is valid.
    pub expire_tick: u64,
}

/// What a [`TicketEntry`] holds.
#[verifier::ext_equal]
pub struct TicketModel {
    pub subject: usize,
    pub service: Seq<char>,
    pub expire_tick: u64,
}

impl View for TicketEntry {
    type V = TicketModel;

    open spec fn view(&self) -> TicketModel {
        TicketModel {
            subject: self.subject,
            service: self.service@,
            expire_tick: self.expire_tick,
        }
    }
}

/// Identities, rules and tickets, with the clock and the nonce that tickets are made with.
pub struct FactotumManager {
    identities: BTreeMap<usize, IdentityInfo>,
    policies: Table<PolicyKey, PolicyRule>,
    tickets: Table<[u8; 32], TicketEntry>,
    default_ttl_ms: u32,
    tick: u64,
    next_nonce: u64,
}

/// What a [`FactotumManager`] holds.
#[verifier::ext_equal]
pub struct ManagerModel {
    pub identities: Map<usize, IdentityModel>,
    pub policies: Map<PolicyKeyModel, PolicyRule>,
    pub tickets: Map<Seq<u8>, TicketModel>,
    pub default_ttl_ms: u32,
    pub tick: u64,
    pub next_nonce: u64,
}

/// The larger of `x` and one.
pub open spec fn at_least_one(x: u32) -> u32 {
    if x == 0 {
        1
    } else {
        x
    }
}

/// The number after `x`; zero after the last.
pub open spec fn successor(x: u64) -> u64 {
    if x == u64::MAX {
        0
    } else {
        (x + 1) as u64
    }
}

impl ManagerModel {
    /// Nothing remembered, with the clock at zero and the first nonce to come.
    pub open spec fn initial(default_ttl_ms: u32) -> ManagerModel {
        ManagerModel {
            identities: Map::empty(),
            policies: Map::empty(),
            tickets: Map::empty(),
            default_ttl_ms,
            tick: 0,
            next_nonce: 1,
        }
    }

    /// The clock one tick on.
    pub open spec fn ticked(self) -> ManagerModel {
        ManagerModel { tick: successor(self.tick), ..self }
    }

    /// The identity of `subject`.
    pub open spec fn identity(self, subject: usize) -> IdentityModel {
        if self.identities.contains_key(subject) {
            self.identities[subject]
        } else {
            IdentityModel::unset()
        }
    }

    /// With `identity` set for `subject`.
    pub open spec fn with_identity(self, subject: usize, identity: IdentityModel) -> ManagerModel {
        ManagerModel { identities: self.identities.insert(subject, identity), ..self }
    }

    /// The rule as it is kept for `subject`: under the subject's low 32 bits, and with the
    /// default lifetime where it gives none.
    pub open spec fn kept_rule(self, subject: usize, rule: PolicyRule) -> PolicyRule {
        PolicyRule {
            subject: (subject as int % 0x1_0000_0000) as u32,
            ttl_ms: if rule.ttl_ms == 0 {
                self.default_ttl_ms
            } else {
                rule.ttl_ms
            },
            ..rule
        }
    }

    /// With `rule` under `key`.
    pub open spec fn with_policy(self, key: PolicyKeyModel, rule: PolicyRule) -> ManagerModel {
        ManagerModel {
            policies: self.policies.insert(key, self.kept_rule(key.subject, rule)),
            ..self
        }
    }

    /// Without a rule under `key`.
    pub open spec fn without_policy(self, key: PolicyKeyModel) -> ManagerModel {
        ManagerModel { policies: self.policies.remove(key), ..self }
    }

    /// The rule that decides about a request: the first that exists of one on the very
    /// request, on any operation, on any resource, on both, and then, of the rules on every
    /// subject, one on the very request and one on any.
    pub open spec fn matching_rule(
        self,
        subject: usize,
        resource: Seq<char>,
        operation: Seq<char>,
    ) -> Option<PolicyRule> {
        let any = "*"@;
        let rules = self.policies;
        if rules.contains_key(policy_key(subject, resource, operation)) {
            Some(rules[policy_key(subject, resource, operation)])
        } else if rules.contains_key(policy_key(subject, resource, any)) {
            Some(rules[policy_key(subject, resource, any)])
        } else if rules.contains_key(policy_key(subject, any, operation)) {
            Some(rules[policy_key(subject, any, operation)])
        } else if rules.contains_key(policy_key(subject, any, any)) {
            Some(rules[policy_key(subject, any, any)])
        } else if rules.contains_key(policy_key(usize::MAX, resource, operation)) {
            Some(rules[policy_key(usize::MAX, resource, operation)])
        } else if rules.contains_key(policy_key(usize::MAX, any, any)) {
            Some(rules[policy_key(usize::MAX, any, any)])
        } else {
            None
        }
    }

    /// The superuser may do everything; for others the matching rule decides, and what no rule
    /// matches is allowed.
    pub open spec fn decision(
        self,
        subject: usize,
        resource: Seq<char>,
        operation: Seq<char>,
    ) -> PermissionDecision {
        let by_default = PermissionDecision {
            allowed: 1,
            reserved: [0u8, 0u8, 0u8],
            ttl_ms: self.default_ttl_ms,
        };
        if self.identity(subject).euid == 0 {
            by_default
        } else {
            match self.matching_rule(subject, resource, operation) {
                Some(rule) => PermissionDecision {
                    allowed: if rule.effect == 0 {
                        0
                    } else {
                        1
                    },
                    reserved: [0u8, 0u8, 0u8],
                    ttl_ms: at_least_one(rule.ttl_ms),
                },
                None => by_default,
            }
        }
    }

    /// The words of the next ticket for `subject`: valid from the next tick on for the default
    /// lifetime, at least one tick, but not beyond the last tick there is.
    pub open spec fn next_ticket(self, subject: usize) -> TicketFields {
        let expiry = successor(self.tick) + at_least_one(self.default_ttl_ms);
        TicketFields {
            subject: subject as u64,
            expire_tick: if expiry > u64::MAX {
                u64::MAX
            } else {
                expiry as u64
            },
            nonce: self.next_nonce,
        }
    }

    /// After a ticket was issued.
    pub open spec fn issued(self, subject: usize, service: Seq<char>) -> ManagerModel {
        let fields = self.next_ticket(subject);
        ManagerModel {
            tickets: self.tickets.insert(
                fields.bytes(),
                TicketModel { subject, service, expire_tick: fields.expire_tick },
            ),
            next_nonce: successor(self.next_nonce),
            ..self.ticked()
        }
    }

    /// `blob` starts with something of the shape of a ticket.
    pub open spec fn plausible(blob: Seq<u8>) -> bool {
        blob.len() >= crate::ticket::TICKET_LEN && TicketFields::intact(blob)
    }

    /// The ticket that `blob` starts with has run out by the next tick.
    pub open spec fn run_out(self, blob: Seq<u8>) -> bool {
        successor(self.tick) > TicketFields::of(blob).expire_tick
    }

    /// `blob` starts with a ticket that is remembered and has not run out.
    pub open spec fn accepts(self, blob: Seq<u8>) -> bool {
        &&& ManagerModel::plausible(blob)
        &&& !self.run_out(blob)
        &&& self.tickets.contains_key(blob.take(crate::ticket::TICKET_LEN as int))
    }

    /// After `blob` was validated: the clock moves only for a plausible blob, and a ticket that
    /// has run out is forgotten.
    pub open spec fn validated(self, blob: Seq<u8>) -> ManagerModel {
        if !ManagerModel::plausible(blob) {
            self
        } else if self.run_out(blob) {
            ManagerModel {
                tickets: self.tickets.remove(blob.take(crate::ticket::TICKET_LEN as int)),
                ..self.ticked()
            }
        } else {
            self.ticked()
        }
    }

    /// Without the tickets of `subject`.
    pub open spec fn logged_out(self, subject: usize) -> ManagerModel {
        ManagerModel {
            tickets: crate::table::without(self.tickets, |t: TicketModel| t.subject == subject),
            ..self
        }
    }

    /// One tick on, without the tickets that have run out by then.
    pub open spec fn pruned(self) -> ManagerModel {
        let now = successor(self.tick);
        ManagerModel {
            tickets: crate::table::without(self.tickets, |t: TicketModel| t.expire_tick < now),
            ..self.ticked()
        }
    }
}

impl View for FactotumManager {
    type V = ManagerModel;

    closed spec fn view(&self) -> ManagerModel {
        ManagerModel {
            identities: self.identities@.map_values(|i: IdentityInfo| i@),
            policies: self.policies@,
            tickets: self.tickets@,
            default_ttl_ms: self.default_ttl_ms,
            tick: self.tick,
            next_nonce: self.next_nonce,
        }
    }
}

impl FactotumManager {
    /// A manager that remembers nothing yet.
    pub fn new(default_ttl_ms: u32) -> (r: Self)
        ensures
            r@ == ManagerModel::initial(default_ttl_ms),
    {
        let r = FactotumManager {
            identities: BTreeMap::new(),
            policies: Table::new(),
            tickets: Table::new(),
            default_ttl_ms,
            tick: 0,
            next_nonce: 1,
        };
        assert(r@ =~= ManagerModel::initial(default_ttl_ms));
        r
    }

    /// The subject that a badge stands for.
    pub fn caller_subject(badge: Badge) -> (r: usize)
        ensures
            r == badge.bits,
    {
        badge.bits
    }

    /// Moves the clock on and reads it.
    pub fn next_tick(&mut self) -> (r: u64)
        ensures
            final(self)@ == old(self)@.ticked(),
            r == final(self)@.tick,
    {
        self.tick = self.tick.wrapping_add(1);
        self.tick
    }

    /// The identity of `subject`; the default one where none was set.
    pub fn get_identity(&self, subject: usize) -> (r: IdentityInfo)
        ensures
            r@ == self@.identity(subject),
    {
        match self.identities.get(&subject) {
            Some(identity) => identity.clone(),
            None => IdentityInfo::default(),
        }
    }

    /// Sets the identity of `subject`.
    pub fn set_identity(&mut self, subject: usize, identity: IdentityInfo)
        ensures
            final(self)@ == old(self)@.with_identity(subject, identity@),
    {
        self.identities.insert(subject, identity);
        assert(self@ =~= old(self)@.with_identity(subject, identity@));
    }

    /// Puts a rule in force, in place of the one under the same key.
    pub fn upsert_policy(
        &mut self,
        subject: usize,
        resource: &str,
        operation: &str,
        mut rule: PolicyRule,
    )
        ensures
            final(self)@ == old(self)@.with_policy(
                policy_key(subject, resource@, operation@),
                rule,
            ),
    {
        let ghost asked = rule;
        rule.subject = low_bits(subject);
        if rule.ttl_ms == 0 {
            rule.ttl_ms = self.default_ttl_ms;
        }
        self.policies.insert(PolicyKey::of(subject, resource, operation), rule);
        assert(rule == self@.kept_rule(subject, asked));
    }

    /// Takes the rule under a key out of force, if there is one.
    pub fn delete_policy(&mut self, subject: usize, resource: &str, operation: &str)
        ensures
            final(self)@ == old(self)@.without_policy(
                policy_key(subject, resource@, operation@),
            ),
    {
        self.policies.remove(&PolicyKey::of(subject, resource, operation));
    }

    /// The rule that decides about a request.
    fn find_rule(&self, subject: usize, resource: &str, operation: &str) -> (r: Option<
        &PolicyRule,
    >)
        ensures
            match r {
                Some(rule) => self@.matching_rule(subject, resource@, operation@) == Some(*rule),
                None => self@.matching_rule(subject, resource@, operation@) is None,
            },
    {
        let keys = vec![
            PolicyKey::of(subject, resource, operation),
            PolicyKey::of(subject, resource, "*"),
            PolicyKey::of(subject, "*", operation),
            PolicyKey::of(subject, "*", "*"),
            PolicyKey::of(usize::MAX, resource, operation),
            PolicyKey::of(usize::MAX, "*", "*"),
        ];
        let mut i: usize = 0;
        while i < keys.len()
            invariant
                i <= keys.len(),
                keys@.len() == 6,
                keys@[0]@ == policy_key(subject, resource@, operation@),
                keys@[1]@ == policy_key(subject, resource@, "*"@),
                keys@[2]@ == policy_key(subject, "*"@, operation@),
                keys@[3]@ == policy_key(subject, "*"@, "*"@),
                keys@[4]@ == policy_key(usize::MAX, resource@, operation@),
                keys@[5]@ == policy_key(usize::MAX, "*"@, "*"@),
                forall|j: int| 0 <= j < i ==> !self.policies@.contains_key(#[trigger] keys@[j]@),
            decreases keys.len() - i,
        {
            if let Some(rule) = self.policies.get(&keys[i]) {
                return Some(rule);
            }
            i = i + 1;
        }
        None
    }

    /// Whether `subject` may do `operation` on `resource`.
    pub fn check_permission(&self, subject: usize, resource: &str, operation: &str) -> (r:
        PermissionDecision)
        ensures
            r == self@.decision(subject, resource@, operation@),
    {
        let identity = self.get_identity(subject);
        if identity.euid == 0 {
            return PermissionDecision {
                allowed: 1,
                reserved: [0u8, 0u8, 0u8],
                ttl_ms: self.default_ttl_ms,
            };
        }
        if let Some(rule) = self.find_rule(subject, resource, operation) {
            return PermissionDecision {
                allowed: if rule.effect == 0 {
                    0
                } else {
                    1
                },
                reserved: [0u8, 0u8, 0u8],
                ttl_ms: if rule.ttl_ms == 0 {
                    1
                } else {
                    rule.ttl_ms
                },
            };
        }
        PermissionDecision { allowed: 1, reserved: [0u8, 0u8, 0u8], ttl_ms: self.default_ttl_ms }
    }

    /// Issues a ticket of `subject` for `service` and remembers it.
    pub fn issue_ticket(&mut self, subject: usize, service: &str) -> (r: [u8; 32])
        ensures
            r@ == old(self)@.next_ticket(subject).bytes(),
            final(self)@ == old(self)@.issued(subject, service@),
    {
        let now = self.next_tick();
        let ttl: u64 = if self.default_ttl_ms == 0 {
            1
        } else {
            self.default_ttl_ms as u64
        };
        let expire_tick = now.saturating_add(ttl);
        let nonce = self.next_nonce;
        self.next_nonce = self.next_nonce.wrapping_add(1);
        let fields = TicketFields { subject: subject as u64, expire_tick, nonce };
        let ticket = fields.encode();
        self.tickets.insert(
            ticket,
            TicketEntry { subject, service: service.to_owned(), expire_tick },
        );
        ticket
    }

    /// Whether `ticket_blob` starts with a ticket that is remembered and has not run out.
    pub fn validate_ticket(&mut self, ticket_blob: &[u8]) -> (r: bool)
        ensures
            r == old(self)@.accepts(ticket_blob@),
            final(self)@ == old(self)@.validated(ticket_blob@),
    {
        let fields = match TicketFields::decode(ticket_blob) {
            Some(fields) => fields,
            None => {
                return false;
            },
        };
        let ticket = ticket_prefix(ticket_blob);
        let now = self.next_tick();
        if now > fields.expire_tick {
            self.tickets.remove(&ticket);
            return false;
        }
        self.tickets.get(&ticket).is_some()
    }

    /// Forgets the tickets of `subject`.
    pub fn logout(&mut self, subject: usize)
        ensures
            final(self)@ == old(self)@.logged_out(subject),
    {
        let ghost model = |t: TicketModel| t.subject == subject;
        let gone = |entry: &TicketEntry| -> (r: bool)
            ensures
                r == (entry.subject == subject),
            { entry.subject == subject };
        self.tickets.remove_where(gone, Ghost(model));
    }

    /// Moves the clock on and forgets the tickets that have run out by then.
    pub fn prune_expired_tickets(&mut self)
        ensures
            final(self)@ == old(self)@.pruned(),
    {
        let now = self.next_tick();
        let ghost model = |t: TicketModel| t.expire_tick < now;
        let gone = |entry: &TicketEntry| -> (r: bool)
            ensures
                r == (entry.expire_tick < now),
            { entry.expire_tick < now };
        self.tickets.remove_where(gone, Ghost(model));
    }
}

/// The low 32 bits of `x`.
fn low_bits(x: usize) -> (r: u32)
    ensures
        r == x as int % 0x1_0000_0000,
{
    let wide: u64 = x as u64;
    assert(wide as u32 == wide % 0x1_0000_0000) by (bit_vector);
    wide as u32
}

} // verus!
