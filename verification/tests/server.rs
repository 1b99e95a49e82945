use factotum::layout::{INIT_SLOT, POLICY_BACKEND_SLOT};
use factotum::protocol::{
    AuthLabels, AuthMethod, Badge, CapPtr, Endpoint, Error, IdentityInfo, MsgFlags,
    PermissionDecision, PolicyBackendStatus, Reply, Request, ServiceState,
};
use factotum::server::{
    Action, Answer, BackendTransfer, FactotumService, ForwardCall, InitAction, InitEvent, Payload,
    RunAction, RunEvent, DEFAULT_TTL_MS, PROTOCOL_VERSION,
};
use factotum::ticket::TicketFields;

const LABELS: AuthLabels = AuthLabels {
    proto: 9,
    negotiate: 1,
    get_identity: 2,
    set_identity: 3,
    check_permission: 4,
    upsert_policy: 5,
    delete_policy: 6,
    get_ticket: 7,
    validate_ticket: 8,
    logout: 9,
    set_policy_backend: 10,
    clear_policy_backend: 11,
    get_policy_backend_status: 12,
    auth_rpc: 13,
    proxy_call: 14,
};

const CALLER: usize = 0x42;

fn cap(bits: usize) -> CapPtr {
    CapPtr { bits }
}

fn service() -> FactotumService {
    let mut s = FactotumService::new();
    s.listen(Endpoint { cap: cap(21) }, cap(22), cap(23));
    s
}

fn request(label: usize, mr0: usize) -> Request {
    Request {
        proto: LABELS.proto,
        label,
        badge: Badge { bits: CALLER },
        mr0,
        flags: MsgFlags { has_buffer: false, has_cap: false },
        size: 0,
    }
}

fn with_cap(mut r: Request) -> Request {
    r.flags.has_cap = true;
    r
}

fn empty(value: usize) -> Answer {
    Answer { payload: Payload::Empty, value }
}

fn attach(s: &mut FactotumService) {
    let action = s.dispatch(&LABELS, &with_cap(request(LABELS.set_policy_backend, 0)), &[]);
    assert!(matches!(action, Action::Transfer(_)));
    assert_eq!(s.backend_transferred::<u8>(Ok(())), Ok(empty(0)));
}

fn status(s: &mut FactotumService) -> PolicyBackendStatus {
    match s.dispatch(&LABELS, &request(LABELS.get_policy_backend_status, 0), &[]) {
        Action::Answer(Answer { payload: Payload::Status(status), value: 0 }) => status,
        other => panic!("{:?}", other),
    }
}

#[test]
fn slots() {
    assert_eq!(INIT_SLOT, 11);
    assert_eq!(POLICY_BACKEND_SLOT, 12);
}

#[test]
fn new_service_is_idle() {
    let s = FactotumService::new();
    assert!(!s.ipc.running);
    assert_eq!(s.ipc.endpoint, Endpoint { cap: CapPtr::null() });
    assert_eq!(s.ipc.reply, Reply { cap: CapPtr::null() });
    assert_eq!(s.ipc.recv, CapPtr::null());
    assert_eq!(s.policy_backend, None);
    assert_eq!(s.policy_backend_generation, 0);
}

#[test]
fn listening_takes_on_the_capabilities() {
    let s = service();
    assert!(!s.ipc.running);
    assert_eq!(s.ipc.endpoint, Endpoint { cap: cap(21) });
    assert_eq!(s.ipc.reply, Reply { cap: cap(22) });
    assert_eq!(s.ipc.recv, cap(23));
}

#[test]
fn labels_name_methods() {
    assert_eq!(LABELS.method(9, 1), Some(AuthMethod::Negotiate));
    assert_eq!(LABELS.method(9, 2), Some(AuthMethod::GetIdentity));
    assert_eq!(LABELS.method(9, 3), Some(AuthMethod::SetIdentity));
    assert_eq!(LABELS.method(9, 4), Some(AuthMethod::CheckPermission));
    assert_eq!(LABELS.method(9, 5), Some(AuthMethod::UpsertPolicy));
    assert_eq!(LABELS.method(9, 6), Some(AuthMethod::DeletePolicy));
    assert_eq!(LABELS.method(9, 7), Some(AuthMethod::GetTicket));
    assert_eq!(LABELS.method(9, 8), Some(AuthMethod::ValidateTicket));
    assert_eq!(LABELS.method(9, 9), Some(AuthMethod::Logout));
    assert_eq!(LABELS.method(9, 10), Some(AuthMethod::SetPolicyBackend));
    assert_eq!(LABELS.method(9, 11), Some(AuthMethod::ClearPolicyBackend));
    assert_eq!(LABELS.method(9, 12), Some(AuthMethod::GetPolicyBackendStatus));
    assert_eq!(LABELS.method(9, 13), Some(AuthMethod::AuthRpc));
    assert_eq!(LABELS.method(9, 14), Some(AuthMethod::ProxyCall));
    assert_eq!(LABELS.method(9, 15), None);
    assert_eq!(LABELS.method(8, 1), None);
    let shared = AuthLabels { proxy_call: 13, ..LABELS };
    assert_eq!(shared.method(9, 13), Some(AuthMethod::AuthRpc));
}

#[test]
fn negotiation_gives_the_version() {
    assert_eq!(PROTOCOL_VERSION, 1 << 16);
    let mut s = service();
    let action = s.dispatch(&LABELS, &request(LABELS.negotiate, 0x0002_0003), &[]);
    assert_eq!(action, Action::Negotiated { version: 0x1_0000, features: 0 });
}

#[test]
fn subject_is_named_or_the_caller() {
    assert_eq!(FactotumService::subject_from_args_or_badge(&request(1, 0)), CALLER);
    assert_eq!(FactotumService::subject_from_args_or_badge(&request(1, 5)), 5);
}

#[test]
fn identity_round_trip() {
    let mut s = service();
    let identity = IdentityInfo { euid: 1000, record: vec![1, 2, 3] };
    let action = s.dispatch(&LABELS, &request(LABELS.set_identity, 5), &[]);
    assert_eq!(action, Action::ReadIdentity { subject: 5 });
    assert_eq!(s.identity_read::<u8>(5, Ok(identity.clone())), Ok(empty(0)));
    let action = s.dispatch(&LABELS, &request(LABELS.get_identity, 5), &[]);
    assert_eq!(action, Action::Answer(Answer { payload: Payload::Identity(identity), value: 0 }));
    attach(&mut s);
    s.run::<u8>(RunEvent::Received { ok: true });
    assert_eq!(s.identity_read::<u8>(6, Ok(IdentityInfo::default())), Ok(empty(0)));
    assert_eq!(s.service_read::<u8>(5, Ok(String::from("files"))).unwrap().value, 32);
    s.dispatch(&LABELS, &request(LABELS.logout, 5), &[]);
    match s.dispatch(&LABELS, &request(LABELS.get_identity, 5), &[]) {
        Action::Answer(Answer { payload: Payload::Identity(kept), value: 0 }) => {
            assert_eq!(kept.euid, 1000);
            assert_eq!(kept.record, vec![1, 2, 3]);
        }
        other => panic!("{:?}", other),
    }
    let action = s.dispatch(&LABELS, &request(LABELS.get_identity, 0), &[]);
    let unset = Payload::Identity(IdentityInfo::default());
    assert_eq!(action, Action::Answer(Answer { payload: unset, value: 0 }));
}

#[test]
fn unread_identity_is_not_set() {
    let mut s = service();
    let action = s.dispatch(&LABELS, &request(LABELS.set_identity, 0), &[]);
    assert_eq!(action, Action::ReadIdentity { subject: CALLER });
    assert_eq!(s.identity_read::<u8>(CALLER, Err(3)), Err(3));
    assert_eq!(s.manager.get_identity(CALLER), IdentityInfo::default());
}

#[test]
fn ticket_round_trip() {
    let mut s = service();
    let action = s.dispatch(&LABELS, &request(LABELS.get_ticket, 5), &[]);
    assert_eq!(action, Action::ReadService { subject: CALLER });
    let answer = s.service_read::<u8>(CALLER, Ok(String::from("files"))).unwrap();
    assert_eq!(answer.value, 32);
    let ticket = match answer.payload {
        Payload::Ticket(ticket) => ticket,
        other => panic!("{:?}", other),
    };
    let words = TicketFields { subject: CALLER as u64, expire_tick: 251, nonce: 1 };
    assert_eq!(ticket, words.encode());
    assert_eq!(s.run::<u8>(RunEvent::Received { ok: true }), RunAction::Dispatch);
    let action = s.dispatch(&LABELS, &request(LABELS.validate_ticket, 0), &ticket);
    assert_eq!(action, Action::Answer(empty(1)));
    let action = s.dispatch(&LABELS, &request(LABELS.logout, 0), &[]);
    assert_eq!(action, Action::Answer(empty(0)));
    let action = s.dispatch(&LABELS, &request(LABELS.validate_ticket, 0), &ticket);
    assert_eq!(action, Action::Answer(empty(0)));
}

#[test]
fn logged_out_ticket_stays_invalid() {
    let mut s = service();
    let ticket = s.manager.issue_ticket(CALLER, "files");
    s.dispatch(&LABELS, &request(LABELS.logout, 0), &[]);
    for _ in 0..5 {
        s.run::<u8>(RunEvent::Received { ok: true });
        s.service_read::<u8>(CALLER, Ok(String::from("files"))).unwrap();
        let action = s.dispatch(&LABELS, &request(LABELS.validate_ticket, 0), &ticket);
        assert_eq!(action, Action::Answer(empty(0)));
    }
}

#[test]
fn ticket_runs_out_in_service() {
    let mut s = service();
    let ticket = s.manager.issue_ticket(CALLER, "files");
    let validate = request(LABELS.validate_ticket, 0);
    for _ in 0..125 {
        s.run::<u8>(RunEvent::Received { ok: true });
        let action = s.dispatch(&LABELS, &validate, &ticket);
        assert_eq!(action, Action::Answer(empty(1)));
    }
    s.run::<u8>(RunEvent::Received { ok: true });
    assert_eq!(s.dispatch(&LABELS, &validate, &ticket), Action::Answer(empty(0)));
}

#[test]
fn ticket_is_for_the_caller() {
    let mut s = service();
    let action = s.dispatch(&LABELS, &request(LABELS.get_ticket, 5), &[]);
    let subject = match action {
        Action::ReadService { subject } => subject,
        other => panic!("{:?}", other),
    };
    let answer = s.service_read::<u8>(subject, Ok(String::from("files"))).unwrap();
    match answer.payload {
        Payload::Ticket(ticket) => {
            assert_eq!(TicketFields::decode(&ticket).unwrap().subject, CALLER as u64);
        }
        other => panic!("{:?}", other),
    }
}

#[test]
fn unread_service_gets_no_ticket() {
    let mut s = service();
    assert_eq!(s.service_read::<u8>(CALLER, Err(3)), Err(3));
    assert_eq!(s.manager.next_tick(), 1);
}

#[test]
fn logout_is_about_the_caller() {
    let mut s = service();
    let ticket = s.manager.issue_ticket(CALLER, "files");
    let other = s.manager.issue_ticket(5, "files");
    s.dispatch(&LABELS, &request(LABELS.logout, 5), &[]);
    assert!(!s.manager.validate_ticket(&ticket));
    assert!(s.manager.validate_ticket(&other));
}

#[test]
fn without_backend_everything_is_allowed() {
    let mut s = service();
    assert!(!s.policy_backend_attached());
    let action = s.dispatch(&LABELS, &request(LABELS.check_permission, 5), &[]);
    let decision = PermissionDecision { allowed: 1, reserved: [0; 3], ttl_ms: 250 };
    assert_eq!(DEFAULT_TTL_MS, 250);
    assert_eq!(action, Action::Unconfigured { label: 4, decision: Some(decision), value: 0 });
    let action = s.dispatch(&LABELS, &request(LABELS.upsert_policy, 5), &[]);
    assert_eq!(action, Action::Unconfigured { label: 5, decision: None, value: 0 });
    let action = s.dispatch(&LABELS, &request(LABELS.delete_policy, 5), &[]);
    assert_eq!(action, Action::Unconfigured { label: 6, decision: None, value: 0 });
    for label in [LABELS.auth_rpc, LABELS.proxy_call] {
        let action = s.dispatch(&LABELS, &request(label, 5), &[]);
        assert_eq!(action, Action::Refuse(Error::NotSupported));
    }
    assert_eq!(s.forward_policy_call(9, &request(4, 5), 4, true), Err(Error::NotSupported));
}

#[test]
fn backend_gets_policy_requests() {
    let mut s = service();
    attach(&mut s);
    let backend = Endpoint { cap: cap(POLICY_BACKEND_SLOT) };
    let call = |label, subject| ForwardCall {
        backend,
        subject,
        proto: 9,
        label,
        flags: MsgFlags { has_buffer: false, has_cap: false },
        cap_transfer: None,
    };
    for label in [LABELS.check_permission, LABELS.upsert_policy, LABELS.delete_policy] {
        let action = s.dispatch(&LABELS, &request(label, 5), &[]);
        assert_eq!(action, Action::Forward(call(label, Some(5))));
        let action = s.dispatch(&LABELS, &request(label, 0), &[]);
        assert_eq!(action, Action::Forward(call(label, Some(CALLER))));
    }
    for label in [LABELS.auth_rpc, LABELS.proxy_call] {
        let action = s.dispatch(&LABELS, &request(label, 0), &[]);
        assert_eq!(action, Action::Forward(call(label, None)));
    }
}

#[test]
fn forwarding_keeps_buffer_and_capability() {
    let mut s = service();
    attach(&mut s);
    let mut r = request(LABELS.proxy_call, 0);
    r.size = 1;
    let forwarded = s.forward_policy_call(9, &r, 14, false).unwrap();
    assert_eq!(forwarded.flags, MsgFlags { has_buffer: true, has_cap: false });
    assert_eq!(forwarded.cap_transfer, None);
    r.size = 0;
    r.flags = MsgFlags { has_buffer: true, has_cap: true };
    let forwarded = s.forward_policy_call(9, &r, 14, false).unwrap();
    assert_eq!(forwarded.flags, r.flags);
    assert_eq!(forwarded.cap_transfer, Some(cap(23)));
}

#[test]
fn backend_without_capability_is_refused() {
    let mut s = service();
    let action = s.dispatch(&LABELS, &request(LABELS.set_policy_backend, 0), &[]);
    assert_eq!(action, Action::Abort(Error::InvalidArgs));
    attach(&mut s);
    let action = s.dispatch(&LABELS, &request(LABELS.set_policy_backend, 0), &[]);
    assert_eq!(action, Action::Abort(Error::InvalidArgs));
    assert!(s.policy_backend_attached());
}

#[test]
fn setting_backend_attaches_it() {
    let mut s = service();
    let set = with_cap(request(LABELS.set_policy_backend, 0));
    let plain = PolicyBackendStatus { external_attached: 0, reserved: [0; 3], generation: 0 };
    assert_eq!(status(&mut s), plain);
    let action = s.dispatch(&LABELS, &set, &[]);
    let transfer = BackendTransfer { release: None, from: cap(23), to: cap(12) };
    assert_eq!(action, Action::Transfer(transfer));
    assert_eq!(s.backend_transferred::<u8>(Ok(())), Ok(empty(0)));
    assert_eq!(s.policy_backend, Some(Endpoint { cap: cap(12) }));
    let attached = PolicyBackendStatus { external_attached: 1, reserved: [0; 3], generation: 1 };
    assert_eq!(status(&mut s), attached);
    let action = s.dispatch(&LABELS, &set, &[]);
    let transfer = BackendTransfer { release: Some(cap(12)), from: cap(23), to: cap(12) };
    assert_eq!(action, Action::Transfer(transfer));
    assert_eq!(s.backend_transferred::<u8>(Ok(())), Ok(empty(0)));
    assert_eq!(status(&mut s), PolicyBackendStatus { generation: 2, ..attached });
}

#[test]
fn failed_transfer_leaves_no_backend() {
    let mut s = service();
    attach(&mut s);
    s.dispatch(&LABELS, &with_cap(request(LABELS.set_policy_backend, 0)), &[]);
    assert_eq!(s.backend_transferred::<u8>(Err(6)), Err(6));
    assert_eq!(s.policy_backend, None);
    assert_eq!(s.policy_backend_generation, 1);
}

#[test]
fn clearing_backend_detaches_it() {
    let mut s = service();
    attach(&mut s);
    let clear = request(LABELS.clear_policy_backend, 0);
    let action = s.dispatch(&LABELS, &clear, &[]);
    assert_eq!(action, Action::Release { slot: Some(cap(12)), value: 0 });
    let gone = PolicyBackendStatus { external_attached: 0, reserved: [0; 3], generation: 2 };
    assert_eq!(status(&mut s), gone);
    let action = s.dispatch(&LABELS, &clear, &[]);
    assert_eq!(action, Action::Release { slot: None, value: 0 });
    assert_eq!(status(&mut s), gone);
}

#[test]
fn generations_wrap_around() {
    let mut s = service();
    s.policy_backend_generation = u32::MAX;
    attach(&mut s);
    assert_eq!(s.policy_backend_generation, 0);
    s.policy_backend_generation = u32::MAX;
    assert_eq!(s.clear_policy_backend(), Some(cap(12)));
    assert_eq!(s.policy_backend_generation, 0);
}

#[test]
fn unknown_methods_are_refused() {
    let mut s = service();
    let action = s.dispatch(&LABELS, &request(99, 0), &[]);
    assert_eq!(action, Action::Refuse(Error::InvalidMethod));
    let mut foreign = request(LABELS.negotiate, 0);
    foreign.proto = 1;
    assert_eq!(s.dispatch(&LABELS, &foreign, &[]), Action::Refuse(Error::InvalidMethod));
}

#[test]
fn requests_change_only_their_part() {
    let mut s = service();
    attach(&mut s);
    s.manager.set_identity(5, IdentityInfo { euid: 1000, record: vec![4] });
    let ipc = s.ipc;
    for label in 0..20 {
        if label == LABELS.set_policy_backend || label == LABELS.clear_policy_backend {
            continue;
        }
        s.dispatch(&LABELS, &request(label, 5), &[]);
        assert_eq!(s.ipc, ipc);
        assert_eq!(s.policy_backend, Some(Endpoint { cap: cap(12) }));
        assert_eq!(s.policy_backend_generation, 1);
        assert_eq!(s.manager.get_identity(5).euid, 1000);
    }
    assert_eq!(s.manager.next_tick(), 1);
}

#[test]
fn setting_up_reports_and_registers() {
    let s = service();
    assert_eq!(s.init::<u8>(InitEvent::Start), InitAction::Report(ServiceState::Starting));
    assert_eq!(s.init::<u8>(InitEvent::Reported(Ok(()))), InitAction::Register(cap(21)));
    assert_eq!(s.init::<u8>(InitEvent::Reported(Err(4))), InitAction::Return(Err(4)));
    assert_eq!(s.init::<u8>(InitEvent::Registered(Ok(()))), InitAction::Return(Ok(())));
    assert_eq!(s.init::<u8>(InitEvent::Registered(Err(5))), InitAction::Return(Err(5)));
}

#[test]
fn every_message_is_answered() {
    let mut s = service();
    let receive = RunAction::Receive {
        endpoint: Endpoint { cap: cap(21) },
        reply_window: cap(22),
        recv_window: cap(23),
    };
    let reply = Reply { cap: cap(22) };
    assert_eq!(s.run::<u8>(RunEvent::Start), RunAction::Report(ServiceState::Running));
    assert!(s.ipc.running);
    assert_eq!(s.run::<u8>(RunEvent::Reported(Ok(()))), receive);
    assert_eq!(s.run::<u8>(RunEvent::Received { ok: false }), receive);
    assert_eq!(s.run::<u8>(RunEvent::Received { ok: true }), RunAction::Dispatch);
    assert_eq!(s.run::<u8>(RunEvent::Dispatched(Ok(()))), RunAction::Reply { reply });
    assert_eq!(s.run::<u8>(RunEvent::Replied), receive);
    assert_eq!(s.run::<u8>(RunEvent::Received { ok: true }), RunAction::Dispatch);
    let failed = s.run::<u8>(RunEvent::Dispatched(Err(17)));
    assert_eq!(failed, RunAction::ReplyError { reply, code: 17 });
    assert_eq!(s.run::<u8>(RunEvent::Replied), receive);
    assert_eq!(s.manager.next_tick(), 3);
}

#[test]
fn loop_ends_when_stopped() {
    let mut s = service();
    s.run::<u8>(RunEvent::Start);
    assert_eq!(s.stop(), ServiceState::Stopped);
    assert!(!s.ipc.running);
    assert_eq!(s.run::<u8>(RunEvent::Replied), RunAction::Return(Ok(())));
    assert_eq!(s.run::<u8>(RunEvent::Received { ok: false }), RunAction::Return(Ok(())));
}

#[test]
fn loop_ends_when_it_cannot_report() {
    let mut s = service();
    s.run::<u8>(RunEvent::Start);
    assert_eq!(s.run::<u8>(RunEvent::Reported(Err(2))), RunAction::Return(Err(2)));
    assert!(s.ipc.running);
}

#[test]
fn loop_prunes_before_each_request() {
    let mut s = service();
    let ticket = s.manager.issue_ticket(CALLER, "files");
    for _ in 0..250 {
        s.run::<u8>(RunEvent::Received { ok: true });
    }
    let action = s.dispatch(&LABELS, &request(LABELS.validate_ticket, 0), &ticket);
    assert_eq!(action, Action::Answer(empty(0)));
}
