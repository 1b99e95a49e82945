use factotum::manager::FactotumManager;
use factotum::protocol::{Badge, IdentityInfo, PermissionDecision, PolicyRule};
use factotum::ticket::TicketFields;

fn user(euid: u32) -> IdentityInfo {
    IdentityInfo { euid, record: vec![1, 2, 3] }
}

fn rule(effect: u32, ttl_ms: u32) -> PolicyRule {
    PolicyRule { subject: 0, effect, ttl_ms }
}

fn decision(allowed: u8, ttl_ms: u32) -> PermissionDecision {
    PermissionDecision { allowed, reserved: [0; 3], ttl_ms }
}

fn with_user(subject: usize) -> FactotumManager {
    let mut m = FactotumManager::new(250);
    m.set_identity(subject, user(1000));
    m
}

#[test]
fn caller_is_its_badge() {
    assert_eq!(FactotumManager::caller_subject(Badge { bits: 0x55 }), 0x55);
    assert_eq!(FactotumManager::caller_subject(Badge { bits: 0 }), 0);
}

#[test]
fn ticks_count_up() {
    let mut m = FactotumManager::new(250);
    assert_eq!(m.next_tick(), 1);
    assert_eq!(m.next_tick(), 2);
    assert_eq!(m.next_tick(), 3);
}

#[test]
fn set_identity_is_read_back() {
    let mut m = FactotumManager::new(250);
    m.set_identity(4, user(1000));
    m.set_identity(5, user(0));
    assert_eq!(m.get_identity(4), user(1000));
    assert_eq!(m.get_identity(5), user(0));
    m.set_identity(4, user(7));
    assert_eq!(m.get_identity(4), user(7));
    assert_eq!(m.get_identity(5), user(0));
}

#[test]
fn unset_identity_is_the_default() {
    let m = FactotumManager::new(250);
    assert_eq!(m.get_identity(4), IdentityInfo::default());
    assert_eq!(m.get_identity(4).euid, 0);
    assert!(m.get_identity(4).record.is_empty());
}

#[test]
fn unknown_subject_is_allowed() {
    let mut m = FactotumManager::new(250);
    m.upsert_policy(4, "disk", "read", rule(0, 9));
    assert_eq!(m.check_permission(4, "disk", "read"), decision(1, 250));
}

#[test]
fn superuser_is_allowed_despite_rules() {
    let mut m = FactotumManager::new(77);
    m.set_identity(4, user(0));
    m.upsert_policy(4, "disk", "read", rule(0, 9));
    m.upsert_policy(usize::MAX, "*", "*", rule(0, 9));
    assert_eq!(m.check_permission(4, "disk", "read"), decision(1, 77));
}

#[test]
fn access_is_allowed_by_default() {
    let m = with_user(4);
    assert_eq!(m.check_permission(4, "disk", "read"), decision(1, 250));
}

#[test]
fn denying_rule_denies() {
    let mut m = with_user(4);
    m.upsert_policy(4, "disk", "read", rule(0, 9));
    assert_eq!(m.check_permission(4, "disk", "read"), decision(0, 9));
    assert_eq!(m.check_permission(4, "disk", "write"), decision(1, 250));
    assert_eq!(m.check_permission(4, "net", "read"), decision(1, 250));
}

#[test]
fn exact_rule_decides_until_it_is_changed() {
    let mut m = with_user(4);
    m.upsert_policy(4, "disk", "read", rule(0, 9));
    m.upsert_policy(4, "disk", "*", rule(1, 1));
    m.upsert_policy(usize::MAX, "disk", "read", rule(1, 1));
    m.delete_policy(4, "disk", "*");
    m.delete_policy(5, "disk", "read");
    m.issue_ticket(4, "files");
    m.prune_expired_tickets();
    m.logout(4);
    m.set_identity(4, user(2000));
    assert_eq!(m.check_permission(4, "disk", "read"), decision(0, 9));
    m.set_identity(4, user(0));
    assert_eq!(m.check_permission(4, "disk", "read"), decision(1, 250));
}

#[test]
fn any_effect_but_zero_allows() {
    let mut m = with_user(4);
    m.upsert_policy(4, "disk", "read", rule(2, 9));
    assert_eq!(m.check_permission(4, "disk", "read"), decision(1, 9));
}

#[test]
fn rule_without_lifetime_gets_the_default() {
    let mut m = with_user(4);
    m.upsert_policy(4, "disk", "read", rule(0, 0));
    assert_eq!(m.check_permission(4, "disk", "read"), decision(0, 250));
    let mut m = FactotumManager::new(0);
    m.set_identity(4, user(1000));
    m.upsert_policy(4, "disk", "read", rule(0, 0));
    assert_eq!(m.check_permission(4, "disk", "read"), decision(0, 1));
    assert_eq!(m.check_permission(4, "disk", "write"), decision(1, 0));
}

#[test]
fn rules_are_tried_in_order() {
    let all = usize::MAX;
    let keys = [
        (4, "disk", "read"),
        (4, "disk", "*"),
        (4, "*", "read"),
        (4, "*", "*"),
        (all, "disk", "read"),
        (all, "*", "*"),
    ];
    for first in 0..keys.len() {
        let mut m = with_user(4);
        for i in (first..keys.len()).rev() {
            let (s, r, o) = keys[i];
            m.upsert_policy(s, r, o, rule((i % 2) as u32, 100 + i as u32));
        }
        let expected = decision((first % 2) as u8, 100 + first as u32);
        assert_eq!(m.check_permission(4, "disk", "read"), expected);
    }
}

#[test]
fn half_wild_rules_on_every_subject_are_not_tried() {
    let mut m = with_user(4);
    m.upsert_policy(usize::MAX, "disk", "*", rule(0, 9));
    m.upsert_policy(usize::MAX, "*", "read", rule(0, 9));
    assert_eq!(m.check_permission(4, "disk", "read"), decision(1, 250));
}

#[test]
fn rules_of_others_do_not_matter() {
    let mut m = with_user(4);
    m.upsert_policy(5, "*", "*", rule(0, 9));
    assert_eq!(m.check_permission(4, "disk", "read"), decision(1, 250));
}

#[test]
fn later_rule_replaces_and_deletion_takes_back() {
    let mut m = with_user(4);
    m.upsert_policy(4, "disk", "read", rule(0, 9));
    m.upsert_policy(4, "disk", "read", rule(1, 8));
    assert_eq!(m.check_permission(4, "disk", "read"), decision(1, 8));
    m.upsert_policy(4, "disk", "*", rule(0, 5));
    m.delete_policy(4, "disk", "read");
    assert_eq!(m.check_permission(4, "disk", "read"), decision(0, 5));
    m.delete_policy(4, "disk", "read");
    m.delete_policy(4, "disk", "*");
    assert_eq!(m.check_permission(4, "disk", "read"), decision(1, 250));
}

#[test]
fn issued_ticket_bytes() {
    let mut m = FactotumManager::new(250);
    let ticket = m.issue_ticket(7, "files");
    let words = TicketFields { subject: 7, expire_tick: 251, nonce: 1 };
    assert_eq!(ticket, words.encode());
    let ticket = m.issue_ticket(7, "files");
    let words = TicketFields { subject: 7, expire_tick: 252, nonce: 2 };
    assert_eq!(ticket, words.encode());
}

#[test]
fn zero_lifetime_is_one_tick() {
    let mut m = FactotumManager::new(0);
    let ticket = m.issue_ticket(7, "files");
    assert_eq!(TicketFields::decode(&ticket).unwrap().expire_tick, 2);
    assert!(m.validate_ticket(&ticket));
    assert!(!m.validate_ticket(&ticket));
}

#[test]
fn issued_ticket_is_accepted_for_its_lifetime() {
    let mut m = FactotumManager::new(3);
    let ticket = m.issue_ticket(7, "files");
    let mut blob = ticket.to_vec();
    blob.push(0xff);
    assert!(m.validate_ticket(&ticket));
    assert!(m.validate_ticket(&blob));
    assert!(m.validate_ticket(&ticket));
    assert!(!m.validate_ticket(&ticket));
    assert!(!m.validate_ticket(&blob));
}

#[test]
fn successive_tickets_differ() {
    let mut m = FactotumManager::new(250);
    let a = m.issue_ticket(7, "files");
    let b = m.issue_ticket(7, "files");
    assert_ne!(a, b);
    assert!(m.validate_ticket(&a));
    assert!(m.validate_ticket(&b));
}

#[test]
fn issued_tickets_differ() {
    let mut m = FactotumManager::new(3);
    let mut issued = Vec::new();
    for i in 0..60 {
        issued.push(m.issue_ticket(i % 3, "files"));
        if i % 4 == 0 {
            m.logout(i % 3);
        }
        if i % 5 == 0 {
            m.prune_expired_tickets();
        }
    }
    for i in 0..issued.len() {
        for j in 0..i {
            assert_ne!(issued[i], issued[j]);
        }
    }
}

#[test]
fn forged_ticket_is_rejected() {
    let mut m = FactotumManager::new(250);
    let forged = TicketFields { subject: 7, expire_tick: 251, nonce: 1 }.encode();
    assert!(!m.validate_ticket(&forged));
    let issued = TicketFields { subject: 7, expire_tick: 252, nonce: 1 }.encode();
    assert_eq!(m.issue_ticket(7, "files"), issued);
    assert!(!m.validate_ticket(&forged));
}

#[test]
fn implausible_blobs_take_no_tick() {
    let mut m = FactotumManager::new(250);
    let ticket = m.issue_ticket(7, "files");
    let mut broken = ticket;
    broken[0] ^= 1;
    assert!(!m.validate_ticket(&[]));
    assert!(!m.validate_ticket(&ticket[..31]));
    assert!(!m.validate_ticket(&broken));
    assert_eq!(m.next_tick(), 2);
    assert!(m.validate_ticket(&ticket));
    assert_eq!(m.next_tick(), 4);
}

#[test]
fn logout_forgets_own_tickets_only() {
    let mut m = FactotumManager::new(250);
    let a = m.issue_ticket(7, "files");
    let b = m.issue_ticket(8, "files");
    let c = m.issue_ticket(7, "net");
    m.logout(7);
    assert!(!m.validate_ticket(&a));
    assert!(m.validate_ticket(&b));
    assert!(!m.validate_ticket(&c));
    m.logout(9);
    assert!(m.validate_ticket(&b));
    let d = m.issue_ticket(7, "files");
    assert!(m.validate_ticket(&d));
    assert!(!m.validate_ticket(&a));
}

#[test]
fn pruning_keeps_what_is_still_valid() {
    let mut m = FactotumManager::new(3);
    let a = m.issue_ticket(7, "files");
    let b = m.issue_ticket(7, "files");
    m.prune_expired_tickets();
    assert!(m.validate_ticket(&a));
    m.prune_expired_tickets();
    assert!(!m.validate_ticket(&a));
    assert!(!m.validate_ticket(&b));
    assert_eq!(m.next_tick(), 8);
}
