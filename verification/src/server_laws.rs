//! What holds of the service across requests.

use crate::manager::TicketModel;
use crate::manager_laws::Operation;
use crate::protocol::{AuthLabels, AuthMethod, CapPtr, Endpoint, Error, IdentityModel, Request};
use crate::server::{Action, FactotumIpc, RunAction, RunEvent, ServiceModel};
use crate::ticket::TICKET_LEN;
use vstd::prelude::*;

verus! {

/// Where no two methods share a number, each number stands for its method, and no other
/// message is taken for it.
pub proof fn labels_name_methods(
    labels: AuthLabels,
    method: AuthMethod,
    proto: usize,
    label: usize,
)
    requires
        labels.distinct(),
    ensures
        labels.method_spec(proto, label) == Some(method) <==> proto == labels.proto && label
            == labels.label(method),
{
    if proto == labels.proto && label == labels.label(method) {
        let found = labels.method_spec(proto, label);
        assert(found is Some);
        assert(labels.label(found->0) == labels.label(method));
    }
}

/// A message of another protocol is refused as an unknown method and changes nothing.
pub proof fn foreign_protocol_is_refused(
    s: ServiceModel,
    labels: AuthLabels,
    request: Request,
    buffer: Seq<u8>,
    after: ServiceModel,
    action: Action,
)
    requires
        s.reacts(labels, request, buffer, after, action),
        request.proto != labels.proto,
    ensures
        after == s,
        action == Action::Refuse(Error::InvalidMethod),
{
}

/// A request that is refused changes nothing.
pub proof fn refusal_changes_nothing(
    s: ServiceModel,
    labels: AuthLabels,
    request: Request,
    buffer: Seq<u8>,
    after: ServiceModel,
    action: Action,
)
    requires
        s.reacts(labels, request, buffer, after, action),
        action is Refuse || action is Abort,
    ensures
        after == s,
{
}

/// What the outside gave for a request: what its action asked for, or nothing.
pub enum Outside {
    /// Nothing was asked for, or it could not be had.
    Nothing,
    /// The identity that the request brought.
    Identity(IdentityModel),
    /// The service name that the request brought.
    Service(Seq<char>),
    /// The capability of the policy backend was moved.
    Moved,
}

/// The state at the end of a request that was dispatched to `between` with `action`: the outcome
/// of the action goes back in where the action has one.
pub open spec fn completed(
    between: ServiceModel,
    action: Action,
    outside: Outside,
) -> ServiceModel {
    match (action, outside) {
        (Action::ReadIdentity { subject }, Outside::Identity(identity)) => between.identity_set(
            subject,
            identity,
        ),
        (Action::ReadService { subject }, Outside::Service(service)) => between.ticket_issued(
            subject,
            service,
        ),
        (Action::Transfer(_), Outside::Moved) => between.backed(),
        _ => between,
    }
}

/// `request` is dispatched with `action`, and leads to `after` once the action was carried out
/// with what the outside gave.
pub open spec fn handled(
    s: ServiceModel,
    labels: AuthLabels,
    request: Request,
    buffer: Seq<u8>,
    between: ServiceModel,
    action: Action,
    outside: Outside,
    after: ServiceModel,
) -> bool {
    &&& s.reacts(labels, request, buffer, between, action)
    &&& after == completed(between, action, outside)
}

/// A request changes no more than it is for, from its dispatch to its end: what the service
/// listens on and the rules stay; identities change only by setting one, and only that of the
/// subject the request is about; tickets, clock and nonces change only by getting a ticket,
/// validating one and logging out; and the backend only by the two methods for it.
pub proof fn requests_change_only_their_part(
    s: ServiceModel,
    labels: AuthLabels,
    request: Request,
    buffer: Seq<u8>,
    between: ServiceModel,
    action: Action,
    outside: Outside,
    after: ServiceModel,
)
    requires
        handled(s, labels, request, buffer, between, action, outside, after),
    ensures
        ({
            let method = labels.method_spec(request.proto, request.label);
            &&& after.ipc == s.ipc
            &&& after.manager.policies == s.manager.policies
            &&& after.manager.default_ttl_ms == s.manager.default_ttl_ms
            &&& after.manager.identities != s.manager.identities ==> method == Some(
                AuthMethod::SetIdentity,
            )
            &&& forall|other: usize|
                other != request.subject() ==> #[trigger] after.manager.identity(other)
                    == s.manager.identity(other)
            &&& after.manager.tickets != s.manager.tickets || after.manager.tick != s.manager.tick
                ==> method == Some(AuthMethod::GetTicket) || method == Some(
                AuthMethod::ValidateTicket,
            ) || method == Some(AuthMethod::Logout)
            &&& after.manager.next_nonce != s.manager.next_nonce ==> method == Some(
                AuthMethod::GetTicket,
            )
            &&& after.policy_backend != s.policy_backend || after.policy_backend_generation
                != s.policy_backend_generation ==> method == Some(AuthMethod::SetPolicyBackend)
                || method == Some(AuthMethod::ClearPolicyBackend)
        }),
{
}

/// A request for a ticket adds exactly one to those remembered, in the name of its caller and
/// for the service it names; if the name cannot be read, it changes nothing.
pub proof fn ticket_is_for_the_caller(
    s: ServiceModel,
    labels: AuthLabels,
    request: Request,
    buffer: Seq<u8>,
    between: ServiceModel,
    action: Action,
    outside: Outside,
    after: ServiceModel,
)
    requires
        handled(s, labels, request, buffer, between, action, outside, after),
        labels.method_spec(request.proto, request.label) == Some(AuthMethod::GetTicket),
    ensures
        action == (Action::ReadService { subject: request.badge.bits }),
        !(outside is Service) ==> after == s,
        outside is Service ==> ({
            let fields = s.manager.next_ticket(request.badge.bits);
            &&& after == s.with_manager(s.manager.issued(request.badge.bits, outside->Service_0))
            &&& fields.subject == request.badge.bits
            &&& after.manager.tickets == s.manager.tickets.insert(
                fields.bytes(),
                TicketModel {
                    subject: request.badge.bits,
                    service: outside->Service_0,
                    expire_tick: fields.expire_tick,
                },
            )
            &&& crate::manager_laws::nonces_spent(s.manager) ==> !s.manager.tickets.contains_key(
                fields.bytes(),
            )
        }),
{
    if crate::manager_laws::nonces_spent(s.manager) {
        crate::manager_laws::issued_ticket_is_new(s.manager, request.badge.bits);
    }
}

/// A request to set an identity sets that of the subject it is about, and no other; if the
/// identity cannot be read, it changes nothing.
pub proof fn identity_is_set_for_the_subject(
    s: ServiceModel,
    labels: AuthLabels,
    request: Request,
    buffer: Seq<u8>,
    between: ServiceModel,
    action: Action,
    outside: Outside,
    after: ServiceModel,
)
    requires
        handled(s, labels, request, buffer, between, action, outside, after),
        labels.method_spec(request.proto, request.label) == Some(AuthMethod::SetIdentity),
    ensures
        action == (Action::ReadIdentity { subject: request.subject() }),
        !(outside is Identity) ==> after == s,
        outside is Identity ==> after == s.with_manager(
            s.manager.with_identity(request.subject(), outside->Identity_0),
        ) && after.manager.identity(request.subject()) == outside->Identity_0,
{
}

/// A new service has no backend outside its slot, a consistent manager, and all nonces of its
/// tickets spent.
pub proof fn new_service_is_sound()
    ensures
        ServiceModel::initial().backend_in_slot(),
        crate::manager_laws::consistent(ServiceModel::initial().manager),
        crate::manager_laws::nonces_spent(ServiceModel::initial().manager),
{
}

/// Without a policy backend nothing is passed on: permission is granted, changes of rules are
/// accepted without effect, and exchanges with the backend are refused.
pub proof fn without_backend_everything_is_allowed(
    s: ServiceModel,
    labels: AuthLabels,
    request: Request,
    buffer: Seq<u8>,
    after: ServiceModel,
    action: Action,
)
    requires
        s.reacts(labels, request, buffer, after, action),
        !s.attached(),
    ensures
        !(action is Forward),
        ({
            let method = labels.method_spec(request.proto, request.label);
            &&& method == Some(AuthMethod::CheckPermission) ==> after == s && action is Unconfigured
                && action->Unconfigured_decision is Some
                && action->Unconfigured_decision->0.allowed == 1 && action->Unconfigured_value == 0
            &&& method == Some(AuthMethod::UpsertPolicy) || method == Some(AuthMethod::DeletePolicy)
                ==> after == s && action is Unconfigured && action->Unconfigured_decision is None
                && action->Unconfigured_value == 0
            &&& method == Some(AuthMethod::AuthRpc) || method == Some(AuthMethod::ProxyCall)
                ==> after == s && action == Action::Refuse(Error::NotSupported)
        }),
{
}

/// With a policy backend every request on policy goes to it, under its own method, with the
/// buffer and the capability it came with; questions and changes of rules are about the subject
/// they name or else their caller, and exchanges stay as they came. The service itself changes
/// nothing.
pub proof fn backend_gets_policy_requests(
    s: ServiceModel,
    labels: AuthLabels,
    request: Request,
    buffer: Seq<u8>,
    after: ServiceModel,
    action: Action,
)
    requires
        s.reacts(labels, request, buffer, after, action),
        s.attached(),
        ({
            let method = labels.method_spec(request.proto, request.label);
            ||| method == Some(AuthMethod::CheckPermission)
            ||| method == Some(AuthMethod::UpsertPolicy)
            ||| method == Some(AuthMethod::DeletePolicy)
            ||| method == Some(AuthMethod::AuthRpc)
            ||| method == Some(AuthMethod::ProxyCall)
        }),
    ensures
        after == s,
        action is Forward,
        ({
            let call = action->Forward_0;
            &&& Some(call.backend) == s.policy_backend
            &&& call.proto == request.proto
            &&& call.label == request.label
            &&& call.subject == if labels.method_spec(request.proto, request.label) == Some(
                AuthMethod::AuthRpc,
            ) || labels.method_spec(request.proto, request.label) == Some(AuthMethod::ProxyCall) {
                None
            } else {
                Some(request.subject())
            }
            &&& call.flags.has_cap == request.flags.has_cap
            &&& call.cap_transfer == if request.flags.has_cap {
                Some(s.ipc.recv)
            } else {
                None
            }
            &&& call.flags.has_buffer == (request.flags.has_buffer || request.size > 0)
        }),
{
}

/// A request to set a backend attaches it and counts as one change if its capability could be
/// moved; otherwise the service is left without a backend and nothing is counted. Without a
/// capability the request is refused and changes nothing.
pub proof fn setting_backend_attaches_it(
    s: ServiceModel,
    labels: AuthLabels,
    request: Request,
    buffer: Seq<u8>,
    between: ServiceModel,
    action: Action,
    outside: Outside,
    after: ServiceModel,
)
    requires
        handled(s, labels, request, buffer, between, action, outside, after),
        labels.method_spec(request.proto, request.label) == Some(AuthMethod::SetPolicyBackend),
    ensures
        !request.flags.has_cap ==> after == s && action == Action::Abort(Error::InvalidArgs),
        request.flags.has_cap ==> action == Action::Transfer(s.transfer()),
        request.flags.has_cap && outside is Moved ==> after.attached()
            && after.status().external_attached == 1 && after.status().generation
            == crate::server::next_generation(s.policy_backend_generation),
        request.flags.has_cap && !(outside is Moved) ==> !after.attached()
            && after.status().external_attached == 0 && after.status().generation
            == s.policy_backend_generation,
{
}

/// Clearing leaves no backend; it counts as a change exactly if there was one, so that clearing
/// again changes nothing.
pub proof fn clearing_backend_detaches_it(s: ServiceModel)
    ensures
        !s.cleared().attached(),
        s.cleared().status().external_attached == 0,
        s.attached() <==> s.cleared().policy_backend_generation != s.policy_backend_generation,
        s.cleared().cleared() == s.cleared(),
        s.cleared().occupied_slot() is None,
{
}

/// Something that may change the state of a service.
pub enum ServiceStep<E> {
    /// A request is handled, from its dispatch to its end.
    Request {
        labels: AuthLabels,
        request: Request,
        buffer: Seq<u8>,
        between: ServiceModel,
        action: Action,
        outside: Outside,
    },
    /// Something happens in the message loop.
    Loop { event: RunEvent<E> },
    /// The service is told what to listen on.
    Listen { ep: Endpoint, reply: CapPtr, recv: CapPtr },
    /// The service is stopped.
    Stop,
}

impl<E> ServiceStep<E> {
    /// The step handles a request for `method`.
    pub open spec fn asks_for(self, method: AuthMethod) -> bool {
        &&& self is Request
        &&& self->labels.method_spec(self->request.proto, self->request.label) == Some(method)
    }
}

/// `step` leads from `s` to `t`.
pub open spec fn leads<E>(s: ServiceModel, step: ServiceStep<E>, t: ServiceModel) -> bool {
    match step {
        ServiceStep::Request { labels, request, buffer, between, action, outside } => handled(
            s,
            labels,
            request,
            buffer,
            between,
            action,
            outside,
            t,
        ),
        ServiceStep::Loop { event } => t == s.run_state(event),
        ServiceStep::Listen { ep, reply, recv } => t == s.listening(ep, reply, recv),
        ServiceStep::Stop => t == s.stopped(),
    }
}

/// The steps lead from each of the states to the next.
pub open spec fn is_history<E>(states: Seq<ServiceModel>, steps: Seq<ServiceStep<E>>) -> bool {
    &&& states.len() == steps.len() + 1
    &&& forall|i: int|
        0 <= i < steps.len() ==> leads(states[i], #[trigger] steps[i], states[i + 1])
}

/// A history without its last step is one.
proof fn lemma_shorter<E>(states: Seq<ServiceModel>, steps: Seq<ServiceStep<E>>)
    requires
        is_history(states, steps),
        steps.len() > 0,
    ensures
        is_history(states.drop_last(), steps.drop_last()),
        states.drop_last().first() == states.first(),
        leads(states.drop_last().last(), steps.last(), states.last()),
{
    let fewer = steps.drop_last();
    assert forall|i: int| 0 <= i < fewer.len() implies leads(
        states.drop_last()[i],
        #[trigger] fewer[i],
        states.drop_last()[i + 1],
    ) by {
        assert(fewer[i] == steps[i]);
    }
    assert(steps[steps.len() - 1] == steps.last());
}

/// The calls of the manager that a step makes.
pub open spec fn calls_of<E>(step: ServiceStep<E>) -> Seq<Operation> {
    match step {
        ServiceStep::Request { labels, request, buffer, between, action, outside } => match (
            labels.method_spec(request.proto, request.label),
            outside,
        ) {
            (Some(AuthMethod::SetIdentity), Outside::Identity(identity)) => seq![
                Operation::SetIdentity { subject: request.subject(), identity },
            ],
            (Some(AuthMethod::GetTicket), Outside::Service(service)) => seq![
                Operation::IssueTicket { subject: request.badge.bits, service },
            ],
            (Some(AuthMethod::ValidateTicket), _) => seq![
                Operation::ValidateTicket { blob: buffer },
            ],
            (Some(AuthMethod::Logout), _) => seq![
                Operation::Logout { subject: request.badge.bits },
            ],
            _ => seq![],
        },
        ServiceStep::Loop { event: RunEvent::Received { ok: true } } => seq![
            Operation::PruneExpiredTickets,
        ],
        _ => seq![],
    }
}

/// The calls of the manager that steps make.
pub open spec fn calls_of_all<E>(steps: Seq<ServiceStep<E>>) -> Seq<Operation>
    decreases steps.len(),
{
    if steps.len() == 0 {
        seq![]
    } else {
        calls_of_all(steps.drop_last()) + calls_of(steps.last())
    }
}

/// The manager of a service goes through the calls that the steps of the service make, and
/// through no others: what holds of all histories of a manager holds of it.
pub proof fn steps_are_manager_calls<E>(states: Seq<ServiceModel>, steps: Seq<ServiceStep<E>>)
    requires
        is_history(states, steps),
    ensures
        states.last().manager == crate::manager_laws::after_all(
            states.first().manager,
            calls_of_all(steps),
        ),
    decreases steps.len(),
{
    if steps.len() > 0 {
        lemma_shorter(states, steps);
        steps_are_manager_calls(states.drop_last(), steps.drop_last());
        let before = calls_of_all(steps.drop_last());
        let all = calls_of_all(steps);
        if calls_of(steps.last()).len() == 0 {
            assert(all =~= before);
        } else {
            assert(all.drop_last() =~= before);
            assert(all.last() == calls_of(steps.last())[0]);
        }
    }
}

/// A policy backend is only ever in its slot, and the manager of a service is consistent, at the
/// end of any history that starts so, as one of a new service does; and the nonces of its tickets
/// stay spent until the last is given out.
pub proof fn service_stays_sound<E>(states: Seq<ServiceModel>, steps: Seq<ServiceStep<E>>)
    requires
        is_history(states, steps),
        states.first().backend_in_slot(),
        crate::manager_laws::consistent(states.first().manager),
    ensures
        states.last().backend_in_slot(),
        crate::manager_laws::consistent(states.last().manager),
        crate::manager_laws::nonces_spent(states.first().manager)
            && states.first().manager.next_nonce + crate::manager_laws::issues_in(
            calls_of_all(steps),
        ) <= u64::MAX ==> crate::manager_laws::nonces_spent(states.last().manager),
    decreases steps.len(),
{
    let m = states.first().manager;
    let calls = calls_of_all(steps);
    steps_are_manager_calls(states, steps);
    crate::manager_laws::consistency_is_kept(m, calls);
    if crate::manager_laws::nonces_spent(m) && m.next_nonce + crate::manager_laws::issues_in(calls)
        <= u64::MAX {
        crate::manager_laws::spent_nonces_stay_spent(m, calls);
    }
    if steps.len() > 0 {
        lemma_shorter(states, steps);
        service_stays_sound(states.drop_last(), steps.drop_last());
    }
}

/// No step sets the identity of `subject`.
pub open spec fn identity_not_set<E>(steps: Seq<ServiceStep<E>>, subject: usize) -> bool {
    forall|i: int|
        0 <= i < steps.len() ==> !((#[trigger] steps[i]).asks_for(AuthMethod::SetIdentity)
            && steps[i]->request.subject() == subject)
}

/// An identity changes only where it is set.
proof fn lemma_identity_stays<E>(
    states: Seq<ServiceModel>,
    steps: Seq<ServiceStep<E>>,
    subject: usize,
)
    requires
        is_history(states, steps),
        identity_not_set(steps, subject),
    ensures
        states.last().manager.identity(subject) == states.first().manager.identity(subject),
    decreases steps.len(),
{
    if steps.len() > 0 {
        let fewer = steps.drop_last();
        assert forall|i: int| 0 <= i < fewer.len() implies !((#[trigger] fewer[i]).asks_for(
            AuthMethod::SetIdentity,
        ) && fewer[i]->request.subject() == subject) by {
            assert(fewer[i] == steps[i]);
        }
        lemma_shorter(states, steps);
        lemma_identity_stays(states.drop_last(), fewer, subject);
        assert(steps[steps.len() - 1] == steps.last());
    }
}

/// The identity that a request sets for a subject is the one that every later request about the
/// subject gets, whatever happens in between, until another is set for it.
pub proof fn identity_round_trip<E>(
    s: ServiceModel,
    set: ServiceStep<E>,
    states: Seq<ServiceModel>,
    steps: Seq<ServiceStep<E>>,
    labels: AuthLabels,
    request: Request,
    buffer: Seq<u8>,
    after: ServiceModel,
    action: Action,
)
    requires
        set.asks_for(AuthMethod::SetIdentity),
        set->outside is Identity,
        leads(s, set, states.first()),
        is_history(states, steps),
        identity_not_set(steps, set->request.subject()),
        states.last().reacts(labels, request, buffer, after, action),
        labels.method_spec(request.proto, request.label) == Some(AuthMethod::GetIdentity),
        request.subject() == set->request.subject(),
    ensures
        action is Answer,
        action->Answer_0.payload is Identity,
        action->Answer_0.payload->Identity_0@ == set->outside->Identity_0,
        action->Answer_0.value == 0,
{
    lemma_identity_stays(states, steps, request.subject());
}

/// The ticket that a request gets is found valid by every request to validate it within its
/// lifetime, whatever happens in between, unless its subject logs out.
pub proof fn ticket_round_trip<E>(
    s: ServiceModel,
    get: ServiceStep<E>,
    states: Seq<ServiceModel>,
    steps: Seq<ServiceStep<E>>,
    rest: Seq<u8>,
    labels: AuthLabels,
    request: Request,
    after: ServiceModel,
    action: Action,
)
    requires
        crate::manager_laws::consistent(s.manager),
        get.asks_for(AuthMethod::GetTicket),
        get->outside is Service,
        leads(s, get, states.first()),
        is_history(states, steps),
        crate::manager_laws::no_logout(calls_of_all(steps), get->request.badge.bits),
        crate::manager_laws::ticks_of_all(calls_of_all(steps)) + 1
            <= crate::manager::at_least_one(s.manager.default_ttl_ms),
        states.last().reacts(
            labels,
            request,
            s.manager.next_ticket(get->request.badge.bits).bytes() + rest,
            after,
            action,
        ),
        labels.method_spec(request.proto, request.label) == Some(AuthMethod::ValidateTicket),
    ensures
        action is Answer,
        action->Answer_0.payload is Empty,
        action->Answer_0.value == 1,
{
    steps_are_manager_calls(states, steps);
    crate::manager_laws::issued_ticket_is_accepted(
        s.manager,
        get->request.badge.bits,
        get->outside->Service_0,
        calls_of_all(steps),
        rest,
    );
}

/// Once its lifetime is over, the ticket that a request got is found invalid by every request to
/// validate it, whatever happens in between, as long as neither the clock nor the lifetime goes
/// past the last tick there is.
pub proof fn ticket_runs_out_in_service<E>(
    s: ServiceModel,
    get: ServiceStep<E>,
    states: Seq<ServiceModel>,
    steps: Seq<ServiceStep<E>>,
    rest: Seq<u8>,
    labels: AuthLabels,
    request: Request,
    after: ServiceModel,
    action: Action,
)
    requires
        get.asks_for(AuthMethod::GetTicket),
        get->outside is Service,
        leads(s, get, states.first()),
        is_history(states, steps),
        crate::manager_laws::ticks_of_all(calls_of_all(steps)) + 1
            > crate::manager::at_least_one(s.manager.default_ttl_ms),
        crate::manager::successor(s.manager.tick) + crate::manager_laws::ticks_of_all(
            calls_of_all(steps),
        ) + 1 <= u64::MAX,
        states.last().reacts(
            labels,
            request,
            s.manager.next_ticket(get->request.badge.bits).bytes() + rest,
            after,
            action,
        ),
        labels.method_spec(request.proto, request.label) == Some(AuthMethod::ValidateTicket),
    ensures
        action is Answer,
        action->Answer_0.payload is Empty,
        action->Answer_0.value == 0,
{
    steps_are_manager_calls(states, steps);
    crate::manager_laws::ticket_runs_out(
        s.manager,
        get->request.badge.bits,
        get->outside->Service_0,
        calls_of_all(steps),
        rest,
    );
}

/// A ticket that its subject gave up by logging out is never again found valid by a request to
/// validate it, whatever happens, as long as the nonces do not wrap around.
pub proof fn logged_out_ticket_stays_invalid<E>(
    s: ServiceModel,
    logout: ServiceStep<E>,
    ticket: Seq<u8>,
    states: Seq<ServiceModel>,
    steps: Seq<ServiceStep<E>>,
    rest: Seq<u8>,
    labels: AuthLabels,
    request: Request,
    after: ServiceModel,
    action: Action,
)
    requires
        crate::manager_laws::consistent(s.manager),
        crate::manager_laws::nonces_spent(s.manager),
        s.manager.tickets.contains_key(ticket),
        logout.asks_for(AuthMethod::Logout),
        logout->request.badge.bits == s.manager.tickets[ticket].subject,
        leads(s, logout, states.first()),
        is_history(states, steps),
        s.manager.next_nonce + crate::manager_laws::issues_in(calls_of_all(steps)) <= u64::MAX,
        states.last().reacts(labels, request, ticket + rest, after, action),
        labels.method_spec(request.proto, request.label) == Some(AuthMethod::ValidateTicket),
    ensures
        action is Answer,
        action->Answer_0.payload is Empty,
        action->Answer_0.value == 0,
{
    steps_are_manager_calls(states, steps);
    crate::manager_laws::logged_out_ticket_is_rejected(
        s.manager,
        logout->request.badge.bits,
        ticket,
        calls_of_all(steps),
        rest,
    );
}

/// Step `i` of a history gets `ticket` for its caller.
pub open spec fn ticket_got_at<E>(
    states: Seq<ServiceModel>,
    steps: Seq<ServiceStep<E>>,
    i: int,
    ticket: Seq<u8>,
) -> bool {
    &&& 0 <= i < steps.len()
    &&& steps[i].asks_for(AuthMethod::GetTicket)
    &&& steps[i]->outside is Service
    &&& states[i].manager.next_ticket(steps[i]->request.badge.bits).bytes() == ticket
}

/// What a service remembers as a ticket, some request got.
proof fn lemma_remembered_was_got<E>(
    states: Seq<ServiceModel>,
    steps: Seq<ServiceStep<E>>,
    ticket: Seq<u8>,
)
    requires
        is_history(states, steps),
        states.first() == ServiceModel::initial(),
        states.last().manager.tickets.contains_key(ticket),
    ensures
        exists|i: int| ticket_got_at(states, steps, i, ticket),
    decreases steps.len(),
{
    if steps.len() > 0 {
        let states1 = states.drop_last();
        let steps1 = steps.drop_last();
        lemma_shorter(states, steps);
        if states1.last().manager.tickets.contains_key(ticket) {
            lemma_remembered_was_got(states1, steps1, ticket);
            let i = choose|i: int| ticket_got_at(states1, steps1, i, ticket);
            assert(ticket_got_at(states, steps, i, ticket));
        } else {
            assert(ticket_got_at(states, steps, steps.len() - 1, ticket));
        }
    }
}

/// What a request to validate finds valid, an earlier request got as a ticket: no other bytes
/// are ever found valid.
pub proof fn valid_ticket_was_got<E>(
    states: Seq<ServiceModel>,
    steps: Seq<ServiceStep<E>>,
    labels: AuthLabels,
    request: Request,
    buffer: Seq<u8>,
    after: ServiceModel,
    action: Action,
)
    requires
        is_history(states, steps),
        states.first() == ServiceModel::initial(),
        states.last().reacts(labels, request, buffer, after, action),
        labels.method_spec(request.proto, request.label) == Some(AuthMethod::ValidateTicket),
        action is Answer && action->Answer_0.value != 0,
    ensures
        buffer.len() >= TICKET_LEN,
        exists|i: int| ticket_got_at(states, steps, i, buffer.take(TICKET_LEN as int)),
{
    lemma_remembered_was_got(states, steps, buffer.take(TICKET_LEN as int));
}

/// Every message that is received is answered: with the reply of its handler, or with the code
/// it failed with; then, as long as the service runs, the next is received.
pub proof fn every_message_is_answered<E>(s: ServiceModel, code: usize)
    ensures
        s.run_action(RunEvent::<E>::Received { ok: true }) == RunAction::<E>::Dispatch,
        s.run_action(RunEvent::<E>::Dispatched(Ok(()))) == (RunAction::<E>::Reply {
            reply: s.ipc.reply,
        }),
        s.run_action(RunEvent::<E>::Dispatched(Err(code))) == (RunAction::<E>::ReplyError {
            reply: s.ipc.reply,
            code,
        }),
        s.run_action(RunEvent::<E>::Received { ok: false }) == s.turn::<E>(),
        s.run_action(RunEvent::<E>::Replied) == s.turn::<E>(),
        s.ipc.running <==> s.turn::<E>() is Receive,
        s.ipc.running ==> s.turn::<E>()->endpoint == s.ipc.endpoint,
{
}

/// The message loop ends only when the service was stopped or could not report that it runs.
pub proof fn loop_ends_only_when_stopped<E>(s: ServiceModel, event: RunEvent<E>)
    requires
        s.run_action(event) is Return,
    ensures
        s.run_action(event) == RunAction::Return(Ok::<(), E>(())) ==> !s.ipc.running,
        s.run_action(event) != RunAction::Return(Ok::<(), E>(())) ==> event is Reported
            && event->Reported_0 is Err && s.run_action(event) == RunAction::Return(
            Err::<(), E>(event->Reported_0->Err_0),
        ),
{
}

/// The message loop touches what the service remembers only by pruning before a request, and
/// starts the service only when it begins.
pub proof fn loop_only_prunes<E>(s: ServiceModel, event: RunEvent<E>)
    ensures
        s.run_state(event).policy_backend == s.policy_backend,
        s.run_state(event).policy_backend_generation == s.policy_backend_generation,
        s.run_state(event).manager != s.manager ==> event == (RunEvent::<E>::Received { ok: true })
            && s.run_state(event).manager == s.manager.pruned(),
        s.run_state(event).ipc == (FactotumIpc {
            running: s.ipc.running || event is Start,
            ..s.ipc
        }),
{
}

} // verus!
