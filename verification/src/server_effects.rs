//! What each request, outcome and event does to each part of the service and what is to be done
//! about it, said in terms of the parts themselves.

use crate::layout::POLICY_BACKEND_SLOT;
use crate::protocol::{
    AuthLabels, AuthMethod, CapPtr, Endpoint, Error, IdentityModel, Request, ServiceState,
};
use crate::server::{
    Action, Answer, FactotumService, InitAction, InitEvent, Payload, RunAction, RunEvent,
    ServiceModel,
};
use vstd::prelude::*;

verus! {

// ---------------------------------------------------------------------------------------------
// Methods and subjects

/// The methods in the order of their numbers in [`AuthLabels`]. A message of the protocol asks
/// for the first of them that has its label, and for none if none has.
pub proof fn first_label_names_the_method(
    labels: AuthLabels,
    numbers: Seq<usize>,
    methods: Seq<AuthMethod>,
    proto: usize,
    label: usize,
    i: int,
)
    requires
        numbers == seq![
            labels.negotiate,
            labels.get_identity,
            labels.set_identity,
            labels.check_permission,
            labels.upsert_policy,
            labels.delete_policy,
            labels.get_ticket,
            labels.validate_ticket,
            labels.logout,
            labels.set_policy_backend,
            labels.clear_policy_backend,
            labels.get_policy_backend_status,
            labels.auth_rpc,
            labels.proxy_call,
        ],
        methods == seq![
            AuthMethod::Negotiate,
            AuthMethod::GetIdentity,
            AuthMethod::SetIdentity,
            AuthMethod::CheckPermission,
            AuthMethod::UpsertPolicy,
            AuthMethod::DeletePolicy,
            AuthMethod::GetTicket,
            AuthMethod::ValidateTicket,
            AuthMethod::Logout,
            AuthMethod::SetPolicyBackend,
            AuthMethod::ClearPolicyBackend,
            AuthMethod::GetPolicyBackendStatus,
            AuthMethod::AuthRpc,
            AuthMethod::ProxyCall,
        ],
    ensures
        proto != labels.proto ==> labels.method_spec(proto, label) is None,
        proto == labels.proto && 0 <= i < 14 && numbers[i] == label && (forall|j: int|
            0 <= j < i ==> #[trigger] numbers[j] != label) ==> labels.method_spec(proto, label)
            == Some(methods[i]),
        proto == labels.proto && (forall|j: int| 0 <= j < 14 ==> #[trigger] numbers[j] != label)
            ==> labels.method_spec(proto, label) is None,
        0 <= i < 14 ==> labels.label(methods[i]) == numbers[i],
{
    let _ = (
        numbers[0],
        numbers[1],
        numbers[2],
        numbers[3],
        numbers[4],
        numbers[5],
        numbers[6],
        numbers[7],
        numbers[8],
        numbers[9],
        numbers[10],
        numbers[11],
        numbers[12],
        numbers[13],
    );
}

/// A request is about the subject in its first register, or, where that is zero, about the
/// bearer of its badge.
pub proof fn register_names_the_subject(request: Request)
    ensures
        request.mr0 != 0 ==> request.subject() == request.mr0,
        request.mr0 == 0 ==> request.subject() == request.badge.bits,
{
}

/// The model of a service shows every field of it.
pub proof fn service_model_shows_all_fields(s: FactotumService)
    ensures
        s@.ipc == s.ipc,
        s@.manager == s.manager@,
        s@.policy_backend == s.policy_backend,
        s@.policy_backend_generation == s.policy_backend_generation,
{
}

/// A new service does not run, listens nowhere, has a new manager with a lifetime of a quarter of
/// a second, and no policy backend.
pub proof fn new_service_in_full()
    ensures
        ({
            let s = ServiceModel::initial();
            &&& !s.ipc.running
            &&& CapPtr::nowhere().bits == 0
            &&& s.ipc.endpoint.cap.bits == 0
            &&& s.ipc.reply.cap.bits == 0
            &&& s.ipc.recv.bits == 0
            &&& s.manager == crate::manager::ManagerModel::initial(250)
            &&& s.policy_backend is None
            &&& s.policy_backend_generation == 0
        }),
{
}

// ---------------------------------------------------------------------------------------------
// Requests

/// Negotiation answers version one and no features, and changes nothing.
pub proof fn negotiation_in_full(
    s: ServiceModel,
    labels: AuthLabels,
    request: Request,
    buffer: Seq<u8>,
    after: ServiceModel,
    action: Action,
)
    requires
        s.reacts(labels, request, buffer, after, action),
        labels.method_spec(request.proto, request.label) == Some(AuthMethod::Negotiate),
    ensures
        after == s,
        action is Negotiated,
        action->version == 1 * 0x1_0000 + 0,
        action->features == 0,
{
}

/// Reading an identity answers the one on record for the subject in the first register, or for
/// the caller where that is zero, or the superuser's where none is on record; it changes nothing.
pub proof fn reading_identity_in_full(
    s: ServiceModel,
    labels: AuthLabels,
    request: Request,
    buffer: Seq<u8>,
    after: ServiceModel,
    action: Action,
)
    requires
        s.reacts(labels, request, buffer, after, action),
        labels.method_spec(request.proto, request.label) == Some(AuthMethod::GetIdentity),
    ensures
        after == s,
        action is Answer,
        action->Answer_0.value == 0,
        action->Answer_0.payload is Identity,
        ({
            let subject = if request.mr0 != 0 {
                request.mr0
            } else {
                request.badge.bits
            };
            let identity = action->Answer_0.payload->Identity_0;
            &&& s.manager.identities.contains_key(subject) ==> identity.euid
                == s.manager.identities[subject].euid && identity.record@
                == s.manager.identities[subject].record
            &&& !s.manager.identities.contains_key(subject) ==> identity.euid == 0
                && identity.record@.len() == 0
        }),
{
}

/// Setting an identity asks for one for the subject in the first register, or for the caller
/// where that is zero, and changes nothing before it is read.
pub proof fn asking_for_identity_in_full(
    s: ServiceModel,
    labels: AuthLabels,
    request: Request,
    buffer: Seq<u8>,
    after: ServiceModel,
    action: Action,
)
    requires
        s.reacts(labels, request, buffer, after, action),
        labels.method_spec(request.proto, request.label) == Some(AuthMethod::SetIdentity),
    ensures
        after == s,
        action is ReadIdentity,
        request.mr0 != 0 ==> action->ReadIdentity_subject == request.mr0,
        request.mr0 == 0 ==> action->ReadIdentity_subject == request.badge.bits,
{
}

/// The identity that was read goes on record for its subject; nothing else changes.
pub proof fn read_identity_goes_on_record(
    s: ServiceModel,
    subject: usize,
    identity: IdentityModel,
    other: usize,
)
    ensures
        ({
            let t = s.identity_set(subject, identity);
            &&& t.manager.identities.contains_key(subject)
            &&& t.manager.identities[subject] == identity
            &&& other != subject ==> (t.manager.identities.contains_key(other)
                <==> s.manager.identities.contains_key(other))
            &&& other != subject && s.manager.identities.contains_key(other)
                ==> t.manager.identities[other] == s.manager.identities[other]
            &&& t.manager.policies == s.manager.policies
            &&& t.manager.tickets == s.manager.tickets
            &&& t.manager.default_ttl_ms == s.manager.default_ttl_ms
            &&& t.manager.tick == s.manager.tick
            &&& t.manager.next_nonce == s.manager.next_nonce
            &&& t.ipc == s.ipc
            &&& t.policy_backend == s.policy_backend
            &&& t.policy_backend_generation == s.policy_backend_generation
        }),
{
}

/// Without a policy backend, asking for permission is answered with a warning and a grant for a
/// quarter of a second, whoever asks for what; a change of rules is answered with a warning
/// alone; nothing changes.
pub proof fn policy_without_backend_in_full(
    s: ServiceModel,
    labels: AuthLabels,
    request: Request,
    buffer: Seq<u8>,
    after: ServiceModel,
    action: Action,
)
    requires
        s.reacts(labels, request, buffer, after, action),
        s.policy_backend is None,
        ({
            let method = labels.method_spec(request.proto, request.label);
            ||| method == Some(AuthMethod::CheckPermission)
            ||| method == Some(AuthMethod::UpsertPolicy)
            ||| method == Some(AuthMethod::DeletePolicy)
        }),
    ensures
        after == s,
        action is Unconfigured,
        action->Unconfigured_label == request.label,
        action->Unconfigured_value == 0,
        labels.method_spec(request.proto, request.label) == Some(AuthMethod::CheckPermission)
            <==> action->Unconfigured_decision is Some,
        action->Unconfigured_decision is Some ==> ({
            let d = action->Unconfigured_decision->0;
            d.allowed == 1 && d.ttl_ms == 250 && d.reserved@ == seq![0u8, 0u8, 0u8]
        }),
{
    if action->Unconfigured_decision is Some {
        assert(action->Unconfigured_decision->0.reserved@ =~= seq![0u8, 0u8, 0u8]);
    }
}

/// With a policy backend, questions and changes of rules and exchanges are passed on to it under
/// their own protocol and label. The first register of a question or a change of rules is set to
/// the subject it names, or to the caller where it names none; that of an exchange stays. The
/// buffer goes along if it is marked or not empty, and a capability, out of the receive slot, if
/// one came. Nothing changes.
pub proof fn forwarding_in_full(
    s: ServiceModel,
    labels: AuthLabels,
    request: Request,
    buffer: Seq<u8>,
    after: ServiceModel,
    action: Action,
)
    requires
        s.reacts(labels, request, buffer, after, action),
        s.policy_backend is Some,
        ({
            let method = labels.method_spec(request.proto, request.label);
            ||| method == Some(AuthMethod::CheckPermission)
            ||| method == Some(AuthMethod::UpsertPolicy)
            ||| method == Some(AuthMethod::DeletePolicy)
            ||| method == Some(AuthMethod::AuthRpc)
            ||| method == Some(AuthMethod::ProxyCall)
        }),
    ensures
        after == s,
        action is Forward,
        ({
            let method = labels.method_spec(request.proto, request.label);
            let exchange = method == Some(AuthMethod::AuthRpc) || method == Some(
                AuthMethod::ProxyCall,
            );
            let call = action->Forward_0;
            &&& call.backend == s.policy_backend->0
            &&& call.proto == request.proto
            &&& call.label == request.label
            &&& exchange ==> call.subject is None
            &&& !exchange && request.mr0 != 0 ==> call.subject == Some(request.mr0)
            &&& !exchange && request.mr0 == 0 ==> call.subject == Some(request.badge.bits)
            &&& call.flags.has_buffer <==> request.flags.has_buffer || request.size > 0
            &&& call.flags.has_cap <==> request.flags.has_cap
            &&& request.flags.has_cap ==> call.cap_transfer == Some(s.ipc.recv)
            &&& !request.flags.has_cap ==> call.cap_transfer is None
        }),
{
}

/// The message that a request is passed on as, under any protocol and label.
pub proof fn forwarded_message_in_full(
    s: ServiceModel,
    proto: usize,
    request: Request,
    label: usize,
    normalize_subject: bool,
)
    requires
        s.policy_backend is Some,
    ensures
        s.attached(),
        ({
            let call = s.forwarded(proto, request, label, normalize_subject);
            &&& call.backend == s.policy_backend->0
            &&& call.proto == proto
            &&& call.label == label
            &&& !normalize_subject ==> call.subject is None
            &&& normalize_subject && request.mr0 != 0 ==> call.subject == Some(request.mr0)
            &&& normalize_subject && request.mr0 == 0 ==> call.subject == Some(
                request.badge.bits,
            )
            &&& call.flags.has_buffer <==> request.flags.has_buffer || request.size > 0
            &&& call.flags.has_cap <==> request.flags.has_cap
            &&& request.flags.has_cap ==> call.cap_transfer == Some(s.ipc.recv)
            &&& !request.flags.has_cap ==> call.cap_transfer is None
        }),
{
}

/// Without a policy backend an exchange with it is refused and changes nothing.
pub proof fn exchange_without_backend_in_full(
    s: ServiceModel,
    labels: AuthLabels,
    request: Request,
    buffer: Seq<u8>,
    after: ServiceModel,
    action: Action,
)
    requires
        s.reacts(labels, request, buffer, after, action),
        s.policy_backend is None,
        ({
            let method = labels.method_spec(request.proto, request.label);
            ||| method == Some(AuthMethod::AuthRpc)
            ||| method == Some(AuthMethod::ProxyCall)
        }),
    ensures
        !s.attached(),
        after == s,
        action == Action::Refuse(Error::NotSupported),
{
}

/// Getting a ticket asks for a service name on behalf of the caller, whatever subject the request
/// names, and changes nothing before it is read.
pub proof fn asking_for_service_in_full(
    s: ServiceModel,
    labels: AuthLabels,
    request: Request,
    buffer: Seq<u8>,
    after: ServiceModel,
    action: Action,
)
    requires
        s.reacts(labels, request, buffer, after, action),
        labels.method_spec(request.proto, request.label) == Some(AuthMethod::GetTicket),
    ensures
        after == s,
        action is ReadService,
        action->ReadService_subject == request.badge.bits,
{
}

/// The ticket for a service name that was read is remembered with its subject and the name, and
/// takes one tick and one nonce; nothing else changes.
pub proof fn read_service_gets_a_ticket(
    s: ServiceModel,
    subject: usize,
    service: Seq<char>,
    other: Seq<u8>,
)
    ensures
        ({
            let ticket = s.manager.next_ticket(subject).bytes();
            let t = s.ticket_issued(subject, service);
            &&& t.manager.tickets.contains_key(ticket)
            &&& t.manager.tickets[ticket].subject == subject
            &&& t.manager.tickets[ticket].service == service
            &&& t.manager.tickets[ticket].expire_tick == s.manager.next_ticket(subject).expire_tick
            &&& other != ticket ==> (t.manager.tickets.contains_key(other)
                <==> s.manager.tickets.contains_key(other))
            &&& other != ticket && s.manager.tickets.contains_key(other)
                ==> t.manager.tickets[other] == s.manager.tickets[other]
            &&& t.manager.tick == (s.manager.tick + 1) % 0x1_0000_0000_0000_0000
            &&& t.manager.next_nonce == (s.manager.next_nonce + 1) % 0x1_0000_0000_0000_0000
            &&& t.manager.identities == s.manager.identities
            &&& t.manager.policies == s.manager.policies
            &&& t.manager.default_ttl_ms == s.manager.default_ttl_ms
            &&& t.ipc == s.ipc
            &&& t.policy_backend == s.policy_backend
            &&& t.policy_backend_generation == s.policy_backend_generation
        }),
{
}

/// Validating a ticket answers one or zero as the manager finds the message buffer; only the
/// manager changes, as it does by validating.
pub proof fn validation_request_in_full(
    s: ServiceModel,
    labels: AuthLabels,
    request: Request,
    buffer: Seq<u8>,
    after: ServiceModel,
    action: Action,
)
    requires
        s.reacts(labels, request, buffer, after, action),
        labels.method_spec(request.proto, request.label) == Some(AuthMethod::ValidateTicket),
    ensures
        action is Answer,
        action->Answer_0.payload is Empty,
        s.manager.accepts(buffer) ==> action->Answer_0.value == 1,
        !s.manager.accepts(buffer) ==> action->Answer_0.value == 0,
        after.manager == s.manager.validated(buffer),
        after.ipc == s.ipc,
        after.policy_backend == s.policy_backend,
        after.policy_backend_generation == s.policy_backend_generation,
{
}

/// Logging out makes the manager forget a ticket exactly if it is the caller's, whatever subject
/// the request names, answers zero, and changes nothing else.
pub proof fn logout_request_in_full(
    s: ServiceModel,
    labels: AuthLabels,
    request: Request,
    buffer: Seq<u8>,
    after: ServiceModel,
    action: Action,
    ticket: Seq<u8>,
)
    requires
        s.reacts(labels, request, buffer, after, action),
        labels.method_spec(request.proto, request.label) == Some(AuthMethod::Logout),
    ensures
        action == Action::Answer(Answer { payload: Payload::Empty, value: 0 }),
        after.manager.tickets.contains_key(ticket) <==> s.manager.tickets.contains_key(ticket)
            && s.manager.tickets[ticket].subject != request.badge.bits,
        after.manager.tickets.contains_key(ticket) ==> after.manager.tickets[ticket]
            == s.manager.tickets[ticket],
        after.manager.identities == s.manager.identities,
        after.manager.policies == s.manager.policies,
        after.manager.default_ttl_ms == s.manager.default_ttl_ms,
        after.manager.tick == s.manager.tick,
        after.manager.next_nonce == s.manager.next_nonce,
        after.ipc == s.ipc,
        after.policy_backend == s.policy_backend,
        after.policy_backend_generation == s.policy_backend_generation,
{
}

/// Setting a policy backend with a capability asks for it to be moved from the receive slot to
/// the backend's, which is freed first if there is a backend; until it was moved there is none.
/// Without a capability it is refused and changes nothing.
pub proof fn setting_backend_in_full(
    s: ServiceModel,
    labels: AuthLabels,
    request: Request,
    buffer: Seq<u8>,
    after: ServiceModel,
    action: Action,
)
    requires
        s.reacts(labels, request, buffer, after, action),
        labels.method_spec(request.proto, request.label) == Some(AuthMethod::SetPolicyBackend),
    ensures
        POLICY_BACKEND_SLOT == 12,
        !request.flags.has_cap ==> after == s && action == Action::Abort(Error::InvalidArgs),
        request.flags.has_cap ==> ({
            let slot = CapPtr { bits: POLICY_BACKEND_SLOT };
            &&& action is Transfer
            &&& action->Transfer_0.from == s.ipc.recv
            &&& action->Transfer_0.to == slot
            &&& s.policy_backend is Some ==> action->Transfer_0.release == Some(slot)
            &&& s.policy_backend is None ==> action->Transfer_0.release is None
            &&& after.policy_backend is None
            &&& after.policy_backend_generation == s.policy_backend_generation
            &&& after.manager == s.manager
            &&& after.ipc == s.ipc
        }),
{
}

/// What is to be moved for a policy backend, and the state until it was.
pub proof fn transfer_in_full(s: ServiceModel)
    ensures
        ({
            let slot = CapPtr { bits: POLICY_BACKEND_SLOT };
            &&& s.transfer().from == s.ipc.recv
            &&& s.transfer().to == slot
            &&& s.policy_backend is Some ==> s.transfer().release == Some(slot)
            &&& s.policy_backend is None ==> s.transfer().release is None
            &&& s.vacated().policy_backend is None
            &&& s.vacated().policy_backend_generation == s.policy_backend_generation
            &&& s.vacated().manager == s.manager
            &&& s.vacated().ipc == s.ipc
        }),
{
}

/// A capability that was moved makes the backend's slot the policy backend, and counts as one
/// change, modulo the range of the count; nothing else changes.
pub proof fn moved_capability_is_the_backend(s: ServiceModel)
    ensures
        s.backed().policy_backend == Some(Endpoint { cap: CapPtr { bits: POLICY_BACKEND_SLOT } }),
        s.backed().policy_backend_generation == (s.policy_backend_generation + 1) % 0x1_0000_0000,
        s.backed().manager == s.manager,
        s.backed().ipc == s.ipc,
{
}

/// Clearing the policy backend leaves none, counts as one change and frees the backend's slot
/// exactly if there was one, answers zero, and changes nothing else.
pub proof fn clearing_backend_in_full(
    s: ServiceModel,
    labels: AuthLabels,
    request: Request,
    buffer: Seq<u8>,
    after: ServiceModel,
    action: Action,
)
    requires
        s.reacts(labels, request, buffer, after, action),
        labels.method_spec(request.proto, request.label) == Some(AuthMethod::ClearPolicyBackend),
    ensures
        action is Release,
        action->Release_value == 0,
        s.policy_backend is Some ==> action->Release_slot == Some(
            CapPtr { bits: POLICY_BACKEND_SLOT },
        ),
        s.policy_backend is None ==> action->Release_slot is None,
        after.policy_backend is None,
        s.policy_backend is Some ==> after.policy_backend_generation == (s.policy_backend_generation
            + 1) % 0x1_0000_0000,
        s.policy_backend is None ==> after.policy_backend_generation
            == s.policy_backend_generation,
        after.manager == s.manager,
        after.ipc == s.ipc,
{
}

/// The state without a policy backend after there was one or none, and the slot to free.
pub proof fn cleared_state_in_full(s: ServiceModel)
    ensures
        s.attached() <==> s.policy_backend is Some,
        s.policy_backend is Some ==> s.occupied_slot() == Some(
            CapPtr { bits: POLICY_BACKEND_SLOT },
        ),
        s.policy_backend is None ==> s.occupied_slot() is None,
        s.cleared().policy_backend is None,
        s.policy_backend is Some ==> s.cleared().policy_backend_generation == (
        s.policy_backend_generation + 1) % 0x1_0000_0000,
        s.policy_backend is None ==> s.cleared().policy_backend_generation
            == s.policy_backend_generation,
        s.cleared().manager == s.manager,
        s.cleared().ipc == s.ipc,
{
}

/// The status says whether there is a policy backend and how many changes were counted; asking
/// for it changes nothing.
pub proof fn status_request_in_full(
    s: ServiceModel,
    labels: AuthLabels,
    request: Request,
    buffer: Seq<u8>,
    after: ServiceModel,
    action: Action,
)
    requires
        s.reacts(labels, request, buffer, after, action),
        labels.method_spec(request.proto, request.label) == Some(
            AuthMethod::GetPolicyBackendStatus,
        ),
    ensures
        after == s,
        action is Answer,
        action->Answer_0.value == 0,
        action->Answer_0.payload is Status,
        ({
            let status = action->Answer_0.payload->Status_0;
            &&& s.policy_backend is Some ==> status.external_attached == 1
            &&& s.policy_backend is None ==> status.external_attached == 0
            &&& status.generation == s.policy_backend_generation
            &&& status.reserved@ == seq![0u8, 0u8, 0u8]
        }),
{
    assert(action->Answer_0.payload->Status_0.reserved@ =~= seq![0u8, 0u8, 0u8]);
}

/// A message that asks for no method of the protocol is refused and changes nothing.
pub proof fn unknown_method_in_full(
    s: ServiceModel,
    labels: AuthLabels,
    request: Request,
    buffer: Seq<u8>,
    after: ServiceModel,
    action: Action,
)
    requires
        s.reacts(labels, request, buffer, after, action),
        labels.method_spec(request.proto, request.label) is None,
    ensures
        after == s,
        action == Action::Refuse(Error::InvalidMethod),
{
}

// ---------------------------------------------------------------------------------------------
// Set-up and message loop

/// The set-up reports that the service starts, then registers the endpoint it listens on, and
/// ends with the first failure or with the outcome of the registration.
pub proof fn set_up_in_full<E>(s: ServiceModel, e: E, done: Result<(), E>)
    ensures
        s.init_action(InitEvent::<E>::Start) == InitAction::<E>::Report(ServiceState::Starting),
        s.init_action(InitEvent::<E>::Reported(Ok(()))) == InitAction::<E>::Register(
            s.ipc.endpoint.cap,
        ),
        s.init_action(InitEvent::<E>::Reported(Err(e))) == InitAction::<E>::Return(Err(e)),
        s.init_action(InitEvent::<E>::Registered(done)) == InitAction::<E>::Return(done),
{
}

/// Listening takes on the endpoint and the two slots and changes nothing else.
pub proof fn listening_in_full(s: ServiceModel, ep: Endpoint, reply: CapPtr, recv: CapPtr)
    ensures
        ({
            let t = s.listening(ep, reply, recv);
            &&& t.ipc.endpoint == ep
            &&& t.ipc.reply.cap == reply
            &&& t.ipc.recv == recv
            &&& t.ipc.running == s.ipc.running
            &&& t.manager == s.manager
            &&& t.policy_backend == s.policy_backend
            &&& t.policy_backend_generation == s.policy_backend_generation
        }),
{
}

/// Stopping ends the running of the service and changes nothing else.
pub proof fn stopping_in_full(s: ServiceModel)
    ensures
        ({
            let t = s.stopped();
            &&& !t.ipc.running
            &&& t.ipc.endpoint == s.ipc.endpoint
            &&& t.ipc.reply == s.ipc.reply
            &&& t.ipc.recv == s.ipc.recv
            &&& t.manager == s.manager
            &&& t.policy_backend == s.policy_backend
            &&& t.policy_backend_generation == s.policy_backend_generation
        }),
{
}

/// Whenever the loop is free, after reporting, after failing to receive and after replying, it
/// receives from the endpoint of the service, with the reply slot and the receive slot as
/// windows, if the service runs, and ends well if it does not, whatever else its state is.
pub proof fn free_loop_in_full<E>(s: ServiceModel, event: RunEvent<E>)
    requires
        event == RunEvent::<E>::Reported(Ok(())) || event == (RunEvent::<E>::Received {
            ok: false,
        }) || event == RunEvent::<E>::Replied,
    ensures
        s.run_state(event) == s,
        s.ipc.running ==> ({
            let action = s.run_action(event);
            &&& action is Receive
            &&& action->endpoint == s.ipc.endpoint
            &&& action->reply_window == s.ipc.reply.cap
            &&& action->recv_window == s.ipc.recv
        }),
        !s.ipc.running ==> s.run_action(event) == RunAction::<E>::Return(Ok(())),
{
}

/// The loop begins by running the service and reporting so, and changes nothing else; where that
/// cannot be reported, it ends with the failure.
pub proof fn beginning_loop_in_full<E>(s: ServiceModel, e: E)
    ensures
        s.run_action(RunEvent::<E>::Start) == RunAction::<E>::Report(ServiceState::Running),
        ({
            let t = s.run_state(RunEvent::<E>::Start);
            &&& t.ipc.running
            &&& t.ipc.endpoint == s.ipc.endpoint
            &&& t.ipc.reply == s.ipc.reply
            &&& t.ipc.recv == s.ipc.recv
            &&& t.manager == s.manager
            &&& t.policy_backend == s.policy_backend
            &&& t.policy_backend_generation == s.policy_backend_generation
        }),
        s.run_action(RunEvent::<E>::Reported(Err(e))) == RunAction::<E>::Return(Err(e)),
        s.run_state(RunEvent::<E>::Reported(Err(e))) == s,
{
}

/// A message that was received is dispatched after one tick, by which the manager has forgotten a
/// ticket exactly if its last tick is past; nothing else changes.
pub proof fn received_message_in_full<E>(s: ServiceModel, ticket: Seq<u8>)
    ensures
        s.run_action(RunEvent::<E>::Received { ok: true }) == RunAction::<E>::Dispatch,
        ({
            let now = (s.manager.tick + 1) % 0x1_0000_0000_0000_0000;
            let t = s.run_state(RunEvent::<E>::Received { ok: true });
            &&& t.manager.tick == now
            &&& t.manager.tickets.contains_key(ticket) <==> s.manager.tickets.contains_key(ticket)
                && s.manager.tickets[ticket].expire_tick >= now
            &&& t.manager.tickets.contains_key(ticket) ==> t.manager.tickets[ticket]
                == s.manager.tickets[ticket]
            &&& t.manager.identities == s.manager.identities
            &&& t.manager.policies == s.manager.policies
            &&& t.manager.default_ttl_ms == s.manager.default_ttl_ms
            &&& t.manager.next_nonce == s.manager.next_nonce
            &&& t.ipc == s.ipc
            &&& t.policy_backend == s.policy_backend
            &&& t.policy_backend_generation == s.policy_backend_generation
        }),
{
}

/// A dispatched message is replied to with the reply capability of the service: as it is, or with
/// the code it failed with; nothing changes.
pub proof fn dispatched_message_in_full<E>(s: ServiceModel, code: usize)
    ensures
        s.run_action(RunEvent::<E>::Dispatched(Ok(()))) is Reply,
        s.run_action(RunEvent::<E>::Dispatched(Ok(())))->Reply_reply == s.ipc.reply,
        s.run_action(RunEvent::<E>::Dispatched(Err(code))) is ReplyError,
        s.run_action(RunEvent::<E>::Dispatched(Err(code)))->ReplyError_reply == s.ipc.reply,
        s.run_action(RunEvent::<E>::Dispatched(Err(code)))->code == code,
        s.run_state(RunEvent::<E>::Dispatched(Ok(()))) == s,
        s.run_state(RunEvent::<E>::Dispatched(Err(code))) == s,
{
}

} // verus!
