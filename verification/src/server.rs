//! The decisions of the service: what each message does to its state, and what is to be done
//! with the kernel and the other processes on its behalf.
//!
//! [`FactotumService::dispatch`] answers a request with an [`Action`]. Where the action needs
//! something from outside first, its outcome goes back in through
//! [`FactotumService::identity_read`], [`FactotumService::service_read`] or
//! [`FactotumService::backend_transferred`]. [`FactotumService::init`] and
//! [`FactotumService::run`] do the same for the steps around the requests.

use crate::layout::POLICY_BACKEND_SLOT;
use crate::manager::{FactotumManager, ManagerModel};
use crate::protocol::{
    AuthLabels, AuthMethod, CapPtr, Endpoint, Error, IdentityInfo, IdentityModel, MsgFlags,
    PermissionDecision, PolicyBackendStatus, Reply, Request, ServiceState,
};
use crate::ticket::TICKET_LEN;
use vstd::prelude::*;

verus! {

/// The lifetime of decisions and tickets where nothing else is said.
pub const DEFAULT_TTL_MS: u32 = 250;

/// The version of the protocol: major in the upper half, minor in the lower.
pub const PROTOCOL_VERSION: usize = 0x1_0000;

/// What the service receives and answers with.
#[derive(Debug, Clone, Copy, PartialEq, Eq, Structural)]
pub struct FactotumIpc {
    /// Whether the message loop goes on.
    pub running: bool,
    /// Where requests come in.
    pub endpoint: Endpoint,
    /// What requests are answered with.
    pub reply: Reply,
    /// Where capabilities that come with requests land.
    pub recv: CapPtr,
}

/// The state of the service.
pub struct FactotumService {
    /// What it receives and answers with.
    pub ipc: FactotumIpc,
    /// What it remembers.
    pub manager: FactotumManager,
    /// Who decides on policy, if anyone is attached.
    pub policy_backend: Option<Endpoint>,
    /// How often a backend was attached or detached, wrapping around.
    pub policy_backend_generation: u32,
}

/// What a [`FactotumService`] holds.
#[verifier::ext_equal]
pub struct ServiceModel {
    pub ipc: FactotumIpc,
    pub manager: ManagerModel,
    pub policy_backend: Option<Endpoint>,
    pub policy_backend_generation: u32,
}

impl View for FactotumService {
    type V = ServiceModel;

    open spec fn view(&self) -> ServiceModel {
        ServiceModel {
            ipc: self.ipc,
            manager: self.manager@,
            policy_backend: self.policy_backend,
            policy_backend_generation: self.policy_backend_generation,
        }
    }
}

/// An object to write into the message buffer of an answer.
#[derive(Debug, PartialEq, Eq)]
pub enum Payload {
    /// Nothing.
    Empty,
    /// An identity.
    Identity(IdentityInfo),
    /// A ticket.
    Ticket([u8; 32]),
    /// The status of the policy backend.
    Status(PolicyBackendStatus),
}

/// A successful answer.
#[derive(Debug, PartialEq, Eq)]
pub struct Answer {
    /// What to write into the message buffer.
    pub payload: Payload,
    /// What to return in the first message register.
    pub value: usize,
}

/// A capability to move into the slot of the policy backend.
#[derive(Debug, Clone, Copy, PartialEq, Eq, Structural)]
pub struct BackendTransfer {
    /// The slot to delete first, whether or not that succeeds.
    pub release: Option<CapPtr>,
    /// Where the capability is.
    pub from: CapPtr,
    /// Where it goes.
    pub to: CapPtr,
}

/// A message to pass on to the policy backend; its other registers and its buffer stay as they
/// came.
#[derive(Debug, Clone, Copy, PartialEq, Eq, Structural)]
pub struct ForwardCall {
    /// The backend.
    pub backend: Endpoint,
    /// What to set the first message register to, if anything.
    pub subject: Option<usize>,
    /// The protocol of the message.
    pub proto: usize,
    /// The method within the protocol.
    pub label: usize,
    /// What comes with the message.
    pub flags: MsgFlags,
    /// The capability to hand over, if any.
    pub cap_transfer: Option<CapPtr>,
}

/// What is to be done about a request.
#[derive(Debug, PartialEq, Eq)]
pub enum Action {
    /// Return two registers.
    Negotiated { version: usize, features: usize },
    /// Return an answer.
    Answer(Answer),
    /// Read an identity from the message buffer, then go on with
    /// [`FactotumService::identity_read`].
    ReadIdentity { subject: usize },
    /// Read a service name from the message buffer, then go on with
    /// [`FactotumService::service_read`].
    ReadService { subject: usize },
    /// Move a capability, then go on with [`FactotumService::backend_transferred`].
    Transfer(BackendTransfer),
    /// Delete a slot, if one is given, whether or not that succeeds, and return a register.
    Release { slot: Option<CapPtr>, value: usize },
    /// Fail the handler of the call.
    Abort(Error),
    /// Warn that no policy backend is configured for the method, write the decision, if there
    /// is one, into the message buffer, and return a register.
    Unconfigured { label: usize, decision: Option<PermissionDecision>, value: usize },
    /// Pass the message on; the backend's reply is the answer.
    Forward(ForwardCall),
    /// Fail without handling the call.
    Refuse(Error),
}

/// What happened during the set-up.
#[derive(Debug, PartialEq, Eq)]
pub enum InitEvent<E> {
    /// The set-up begins.
    Start,
    /// The state was reported, or could not be.
    Reported(Result<(), E>),
    /// The endpoint was registered, or could not be.
    Registered(Result<(), E>),
}

/// What is to be done next for the set-up.
#[derive(Debug, PartialEq, Eq)]
pub enum InitAction<E> {
    /// Report a state.
    Report(ServiceState),
    /// Register the endpoint of the service.
    Register(CapPtr),
    /// The set-up is over.
    Return(Result<(), E>),
}

/// What happened in the message loop.
#[derive(Debug, PartialEq, Eq)]
pub enum RunEvent<E> {
    /// The loop begins.
    Start,
    /// The state was reported, or could not be.
    Reported(Result<(), E>),
    /// Receiving ended, with a message or without.
    Received { ok: bool },
    /// The request was dispatched, or failed with a code.
    Dispatched(Result<(), usize>),
    /// The reply was sent, or could not be.
    Replied,
}

/// What is to be done next in the message loop.
#[derive(Debug, PartialEq, Eq)]
pub enum RunAction<E> {
    /// Report a state.
    Report(ServiceState),
    /// Receive from an endpoint into a cleared message with these windows.
    Receive { endpoint: Endpoint, reply_window: CapPtr, recv_window: CapPtr },
    /// Dispatch the message.
    Dispatch,
    /// Reply with the message as it is.
    Reply { reply: Reply },
    /// Mark the message as failed, put the code into its first register, and reply with it.
    ReplyError { reply: Reply, code: usize },
    /// The loop is over.
    Return(Result<(), E>),
}

/// The number after `x`; zero after the last.
pub open spec fn next_generation(x: u32) -> u32 {
    if x == u32::MAX {
        0
    } else {
        (x + 1) as u32
    }
}

/// The slot of the policy backend.
pub open spec fn backend_slot() -> CapPtr {
    CapPtr { bits: POLICY_BACKEND_SLOT }
}

impl ServiceModel {
    /// A service that listens nowhere yet.
    pub open spec fn initial() -> ServiceModel {
        ServiceModel {
            ipc: FactotumIpc {
                running: false,
                endpoint: Endpoint { cap: CapPtr::nowhere() },
                reply: Reply { cap: CapPtr::nowhere() },
                recv: CapPtr::nowhere(),
            },
            manager: ManagerModel::initial(DEFAULT_TTL_MS),
            policy_backend: None,
            policy_backend_generation: 0,
        }
    }

    /// A policy backend is attached.
    pub open spec fn attached(self) -> bool {
        self.policy_backend is Some
    }

    /// A policy backend, if attached, is in its slot.
    pub open spec fn backend_in_slot(self) -> bool {
        self.policy_backend is Some ==> self.policy_backend->0 == (Endpoint { cap: backend_slot() })
    }

    /// The slot to free before the policy backend changes.
    pub open spec fn occupied_slot(self) -> Option<CapPtr> {
        if self.attached() {
            Some(backend_slot())
        } else {
            None
        }
    }

    /// Without a policy backend, but not counted as a change.
    pub open spec fn vacated(self) -> ServiceModel {
        ServiceModel { policy_backend: None, ..self }
    }

    /// With the capability in the slot as the policy backend.
    pub open spec fn backed(self) -> ServiceModel {
        ServiceModel {
            policy_backend: Some(Endpoint { cap: backend_slot() }),
            policy_backend_generation: next_generation(self.policy_backend_generation),
            ..self
        }
    }

    /// After the policy backend was detached, which counts only if there was one.
    pub open spec fn cleared(self) -> ServiceModel {
        if self.attached() {
            ServiceModel {
                policy_backend: None,
                policy_backend_generation: next_generation(self.policy_backend_generation),
                ..self
            }
        } else {
            self
        }
    }

    /// The status of the policy backend.
    pub open spec fn status(self) -> PolicyBackendStatus {
        PolicyBackendStatus {
            external_attached: if self.attached() {
                1
            } else {
                0
            },
            reserved: [0u8, 0u8, 0u8],
            generation: self.policy_backend_generation,
        }
    }

    /// With another memory.
    pub open spec fn with_manager(self, manager: ManagerModel) -> ServiceModel {
        ServiceModel { manager, ..self }
    }

    /// With the identity of a subject set.
    pub open spec fn identity_set(self, subject: usize, identity: IdentityModel) -> ServiceModel {
        self.with_manager(self.manager.with_identity(subject, identity))
    }

    /// With a ticket issued.
    pub open spec fn ticket_issued(self, subject: usize, service: Seq<char>) -> ServiceModel {
        self.with_manager(self.manager.issued(subject, service))
    }

    /// The message that a request is passed on as. Its buffer goes along if it is in use or
    /// holds anything, and a capability if one came.
    pub open spec fn forwarded(
        self,
        proto: usize,
        request: Request,
        label: usize,
        normalize_subject: bool,
    ) -> ForwardCall {
        ForwardCall {
            backend: self.policy_backend->0,
            subject: if normalize_subject {
                Some(request.subject())
            } else {
                None
            },
            proto,
            label,
            flags: MsgFlags {
                has_buffer: request.flags.has_buffer || request.size > 0,
                has_cap: request.flags.has_cap,
            },
            cap_transfer: if request.flags.has_cap {
                Some(self.ipc.recv)
            } else {
                None
            },
        }
    }

    /// `request`, with `buffer` in its message buffer, leads to the state `after` and to
    /// `action`.
    pub open spec fn reacts(
        self,
        labels: AuthLabels,
        request: Request,
        buffer: Seq<u8>,
        after: ServiceModel,
        action: Action,
    ) -> bool {
        let caller = request.badge.bits;
        let forward = |normalize: bool|
            Action::Forward(self.forwarded(labels.proto, request, request.label, normalize));
        match labels.method_spec(request.proto, request.label) {
            Some(AuthMethod::Negotiate) => {
                &&& after == self
                &&& action == (Action::Negotiated { version: PROTOCOL_VERSION, features: 0 })
            },
            Some(AuthMethod::GetIdentity) => {
                &&& after == self
                &&& action is Answer
                &&& action->Answer_0.payload is Identity
                &&& action->Answer_0.payload->Identity_0@ == self.manager.identity(
                    request.subject(),
                )
                &&& action->Answer_0.value == 0
            },
            Some(AuthMethod::SetIdentity) => {
                &&& after == self
                &&& action == (Action::ReadIdentity { subject: request.subject() })
            },
            Some(AuthMethod::CheckPermission) => {
                &&& after == self
                &&& action == if self.attached() {
                    forward(true)
                } else {
                    Action::Unconfigured {
                        label: request.label,
                        decision: Some(
                            PermissionDecision {
                                allowed: 1,
                                reserved: [0u8, 0u8, 0u8],
                                ttl_ms: DEFAULT_TTL_MS,
                            },
                        ),
                        value: 0,
                    }
                }
            },
            Some(AuthMethod::UpsertPolicy) | Some(AuthMethod::DeletePolicy) => {
                &&& after == self
                &&& action == if self.attached() {
                    forward(true)
                } else {
                    Action::Unconfigured { label: request.label, decision: None, value: 0 }
                }
            },
            Some(AuthMethod::GetTicket) => {
                &&& after == self
                &&& action == (Action::ReadService { subject: caller })
            },
            Some(AuthMethod::ValidateTicket) => {
                &&& after == self.with_manager(self.manager.validated(buffer))
                &&& action == Action::Answer(
                    Answer {
                        payload: Payload::Empty,
                        value: if self.manager.accepts(buffer) {
                            1
                        } else {
                            0
                        },
                    },
                )
            },
            Some(AuthMethod::Logout) => {
                &&& after == self.with_manager(self.manager.logged_out(caller))
                &&& action == Action::Answer(Answer { payload: Payload::Empty, value: 0 })
            },
            Some(AuthMethod::SetPolicyBackend) => {
                if request.flags.has_cap {
                    &&& after == self.vacated()
                    &&& action == Action::Transfer(self.transfer())
                } else {
                    &&& after == self
                    &&& action == Action::Abort(Error::InvalidArgs)
                }
            },
            Some(AuthMethod::ClearPolicyBackend) => {
                &&& after == self.cleared()
                &&& action == (Action::Release { slot: self.occupied_slot(), value: 0 })
            },
            Some(AuthMethod::GetPolicyBackendStatus) => {
                &&& after == self
                &&& action == Action::Answer(
                    Answer { payload: Payload::Status(self.status()), value: 0 },
                )
            },
            Some(AuthMethod::AuthRpc) | Some(AuthMethod::ProxyCall) => {
                &&& after == self
                &&& action == if self.attached() {
                    forward(false)
                } else {
                    Action::Refuse(Error::NotSupported)
                }
            },
            None => {
                &&& after == self
                &&& action == Action::Refuse(Error::InvalidMethod)
            },
        }
    }

    /// The capability to move when a policy backend is set.
    pub open spec fn transfer(self) -> BackendTransfer {
        BackendTransfer {
            release: self.occupied_slot(),
            from: self.ipc.recv,
            to: backend_slot(),
        }
    }

    /// With what the service receives and answers with.
    pub open spec fn listening(self, ep: Endpoint, reply: CapPtr, recv: CapPtr) -> ServiceModel {
        ServiceModel {
            ipc: FactotumIpc {
                running: self.ipc.running,
                endpoint: ep,
                reply: Reply { cap: reply },
                recv,
            },
            ..self
        }
    }

    /// With the message loop about to end.
    pub open spec fn stopped(self) -> ServiceModel {
        ServiceModel { ipc: FactotumIpc { running: false, ..self.ipc }, ..self }
    }

    /// What the set-up does about an event.
    pub open spec fn init_action<E>(self, event: InitEvent<E>) -> InitAction<E> {
        match event {
            InitEvent::Start => InitAction::Report(ServiceState::Starting),
            InitEvent::Reported(Ok(_)) => InitAction::Register(self.ipc.endpoint.cap),
            InitEvent::Reported(Err(e)) => InitAction::Return(Err(e)),
            InitEvent::Registered(done) => InitAction::Return(done),
        }
    }

    /// What the message loop does when it is free: receive again, or end once stopped.
    pub open spec fn turn<E>(self) -> RunAction<E> {
        if self.ipc.running {
            RunAction::Receive {
                endpoint: self.ipc.endpoint,
                reply_window: self.ipc.reply.cap,
                recv_window: self.ipc.recv,
            }
        } else {
            RunAction::Return(Ok(()))
        }
    }

    /// The state after an event of the message loop.
    pub open spec fn run_state<E>(self, event: RunEvent<E>) -> ServiceModel {
        match event {
            RunEvent::Start => ServiceModel {
                ipc: FactotumIpc { running: true, ..self.ipc },
                ..self
            },
            RunEvent::Received { ok: true } => self.with_manager(self.manager.pruned()),
            _ => self,
        }
    }

    /// What the message loop does about an event.
    pub open spec fn run_action<E>(self, event: RunEvent<E>) -> RunAction<E> {
        match event {
            RunEvent::Start => RunAction::Report(ServiceState::Running),
            RunEvent::Reported(Err(e)) => RunAction::Return(Err(e)),
            RunEvent::Reported(Ok(_)) => self.turn(),
            RunEvent::Received { ok: true } => RunAction::Dispatch,
            RunEvent::Received { ok: false } => self.turn(),
            RunEvent::Dispatched(Ok(_)) => RunAction::Reply { reply: self.ipc.reply },
            RunEvent::Dispatched(Err(code)) => RunAction::ReplyError {
                reply: self.ipc.reply,
                code,
            },
            RunEvent::Replied => self.turn(),
        }
    }
}

impl FactotumService {
    /// A service that listens nowhere yet.
    pub fn new() -> (r: Self)
        ensures
            r@ == ServiceModel::initial(),
    {
        FactotumService {
            ipc: FactotumIpc {
                running: false,
                endpoint: Endpoint { cap: CapPtr::null() },
                reply: Reply { cap: CapPtr::null() },
                recv: CapPtr::null(),
            },
            manager: FactotumManager::new(DEFAULT_TTL_MS),
            policy_backend: None,
            policy_backend_generation: 0,
        }
    }

    /// The subject that a request is about: the one it names, or else its caller.
    pub fn subject_from_args_or_badge(request: &Request) -> (r: usize)
        ensures
            r == request.subject(),
    {
        let subject = request.mr0;
        if subject == 0 {
            FactotumManager::caller_subject(request.badge)
        } else {
            subject
        }
    }

    /// Whether a policy backend is attached.
    pub fn policy_backend_attached(&self) -> (r: bool)
        ensures
            r == self@.attached(),
    {
        self.policy_backend.is_some()
    }

    /// Prepares for the policy backend whose capability came with a request.
    pub fn set_policy_backend_from_recv(&mut self, request: &Request) -> (r: Result<
        BackendTransfer,
        Error,
    >)
        ensures
            match r {
                Ok(transfer) => {
                    &&& request.flags.has_cap
                    &&& transfer == old(self)@.transfer()
                    &&& final(self)@ == old(self)@.vacated()
                },
                Err(e) => {
                    &&& !request.flags.has_cap
                    &&& e == Error::InvalidArgs
                    &&& final(self)@ == old(self)@
                },
            },
    {
        if !request.flags.has_cap {
            return Err(Error::InvalidArgs);
        }
        let slot = CapPtr { bits: POLICY_BACKEND_SLOT };
        let mut release: Option<CapPtr> = None;
        if self.policy_backend.is_some() {
            release = Some(slot);
            self.policy_backend = None;
        }
        Ok(BackendTransfer { release, from: self.ipc.recv, to: slot })
    }

    /// Attaches the policy backend, if its capability could be moved.
    pub fn backend_transferred<E>(&mut self, moved: Result<(), E>) -> (r: Result<Answer, E>)
        ensures
            match moved {
                Ok(_) => {
                    &&& r == Ok::<Answer, E>(Answer { payload: Payload::Empty, value: 0 })
                    &&& final(self)@ == old(self)@.backed()
                },
                Err(e) => r == Err::<Answer, E>(e) && final(self)@ == old(self)@,
            },
    {
        match moved {
            Ok(_) => {
                let slot = CapPtr { bits: POLICY_BACKEND_SLOT };
                self.policy_backend = Some(Endpoint { cap: slot });
                self.policy_backend_generation = self.policy_backend_generation.wrapping_add(1);
                Ok(Answer { payload: Payload::Empty, value: 0 })
            },
            Err(e) => Err(e),
        }
    }

    /// Detaches the policy backend and says which slot to delete.
    pub fn clear_policy_backend(&mut self) -> (r: Option<CapPtr>)
        ensures
            r == old(self)@.occupied_slot(),
            final(self)@ == old(self)@.cleared(),
    {
        if self.policy_backend.take().is_some() {
            self.policy_backend_generation = self.policy_backend_generation.wrapping_add(1);
            Some(CapPtr { bits: POLICY_BACKEND_SLOT })
        } else {
            None
        }
    }

    /// The message that a request is passed on as, if there is a policy backend.
    pub fn forward_policy_call(
        &self,
        proto: usize,
        request: &Request,
        label: usize,
        normalize_subject: bool,
    ) -> (r: Result<ForwardCall, Error>)
        ensures
            r == if self@.attached() {
                Ok::<ForwardCall, Error>(
                    self@.forwarded(proto, *request, label, normalize_subject),
                )
            } else {
                Err::<ForwardCall, Error>(Error::NotSupported)
            },
    {
        let backend = match self.policy_backend {
            Some(backend) => backend,
            None => {
                return Err(Error::NotSupported);
            },
        };
        let mut subject: Option<usize> = None;
        if normalize_subject {
            subject = Some(Self::subject_from_args_or_badge(request));
        }
        let incoming = request.flags;
        let mut flags = MsgFlags { has_buffer: false, has_cap: false };
        let mut cap_transfer: Option<CapPtr> = None;
        if incoming.has_buffer || request.size > 0 {
            flags.has_buffer = true;
        }
        if incoming.has_cap {
            flags.has_cap = true;
            cap_transfer = Some(self.ipc.recv);
        }
        Ok(ForwardCall { backend, subject, proto, label, flags, cap_transfer })
    }

    /// Passes a request on, or refuses it for want of a policy backend.
    fn forward_or_refuse(
        &self,
        labels: &AuthLabels,
        request: &Request,
        normalize_subject: bool,
    ) -> (r: Action)
        ensures
            r == if self@.attached() {
                Action::Forward(
                    self@.forwarded(labels.proto, *request, request.label, normalize_subject),
                )
            } else {
                Action::Refuse(Error::NotSupported)
            },
    {
        match self.forward_policy_call(labels.proto, request, request.label, normalize_subject) {
            Ok(call) => Action::Forward(call),
            Err(e) => Action::Refuse(e),
        }
    }

    /// Decides what to do about a request with `buffer` in its message buffer.
    pub fn dispatch(&mut self, labels: &AuthLabels, request: &Request, buffer: &[u8]) -> (action:
        Action)
        ensures
            old(self)@.reacts(*labels, *request, buffer@, final(self)@, action),
    {
        let method = match labels.method(request.proto, request.label) {
            Some(method) => method,
            None => {
                return Action::Refuse(Error::InvalidMethod);
            },
        };
        match method {
            AuthMethod::Negotiate => Action::Negotiated { version: PROTOCOL_VERSION, features: 0 },
            AuthMethod::GetIdentity => {
                let subject = Self::subject_from_args_or_badge(request);
                let identity = self.manager.get_identity(subject);
                Action::Answer(Answer { payload: Payload::Identity(identity), value: 0 })
            },
            AuthMethod::SetIdentity => {
                let subject = Self::subject_from_args_or_badge(request);
                Action::ReadIdentity { subject }
            },
            AuthMethod::CheckPermission => {
                if self.policy_backend_attached() {
                    self.forward_or_refuse(labels, request, true)
                } else {
                    let decision = PermissionDecision {
                        allowed: 1,
                        reserved: [0u8, 0u8, 0u8],
                        ttl_ms: DEFAULT_TTL_MS,
                    };
                    Action::Unconfigured {
                        label: request.label,
                        decision: Some(decision),
                        value: 0,
                    }
                }
            },
            AuthMethod::UpsertPolicy | AuthMethod::DeletePolicy => {
                if self.policy_backend_attached() {
                    self.forward_or_refuse(labels, request, true)
                } else {
                    Action::Unconfigured { label: request.label, decision: None, value: 0 }
                }
            },
            AuthMethod::GetTicket => {
                let subject = FactotumManager::caller_subject(request.badge);
                Action::ReadService { subject }
            },
            AuthMethod::ValidateTicket => {
                let allowed = self.manager.validate_ticket(buffer);
                let value: usize = if allowed {
                    1
                } else {
                    0
                };
                Action::Answer(Answer { payload: Payload::Empty, value })
            },
            AuthMethod::Logout => {
                let subject = FactotumManager::caller_subject(request.badge);
                self.manager.logout(subject);
                Action::Answer(Answer { payload: Payload::Empty, value: 0 })
            },
            AuthMethod::SetPolicyBackend => match self.set_policy_backend_from_recv(request) {
                Ok(transfer) => Action::Transfer(transfer),
                Err(e) => Action::Abort(e),
            },
            AuthMethod::ClearPolicyBackend => {
                let slot = self.clear_policy_backend();
                Action::Release { slot, value: 0 }
            },
            AuthMethod::GetPolicyBackendStatus => {
                let status = PolicyBackendStatus {
                    external_attached: if self.policy_backend_attached() {
                        1
                    } else {
                        0
                    },
                    reserved: [0u8, 0u8, 0u8],
                    generation: self.policy_backend_generation,
                };
                Action::Answer(Answer { payload: Payload::Status(status), value: 0 })
            },
            AuthMethod::AuthRpc | AuthMethod::ProxyCall => {
                self.forward_or_refuse(labels, request, false)
            },
        }
    }

    /// Sets the identity that a request brought, if it could be read.
    pub fn identity_read<E>(&mut self, subject: usize, read: Result<IdentityInfo, E>) -> (r: Result<
        Answer,
        E,
    >)
        ensures
            match read {
                Ok(identity) => {
                    &&& r == Ok::<Answer, E>(Answer { payload: Payload::Empty, value: 0 })
                    &&& final(self)@ == old(self)@.identity_set(subject, identity@)
                },
                Err(e) => r == Err::<Answer, E>(e) && final(self)@ == old(self)@,
            },
    {
        match read {
            Ok(identity) => {
                self.manager.set_identity(subject, identity);
                Ok(Answer { payload: Payload::Empty, value: 0 })
            },
            Err(e) => Err(e),
        }
    }

    /// Issues a ticket for the service that a request named, if its name could be read.
    pub fn service_read<E>(&mut self, subject: usize, read: Result<String, E>) -> (r: Result<
        Answer,
        E,
    >)
        ensures
            match read {
                Ok(service) => {
                    &&& r is Ok
                    &&& r->Ok_0.payload is Ticket
                    &&& r->Ok_0.payload->Ticket_0@ == old(self)@.manager.next_ticket(
                        subject,
                    ).bytes()
                    &&& r->Ok_0.value == TICKET_LEN
                    &&& final(self)@ == old(self)@.ticket_issued(subject, service@)
                },
                Err(e) => r == Err::<Answer, E>(e) && final(self)@ == old(self)@,
            },
    {
        match read {
            Ok(service) => {
                let ticket = self.manager.issue_ticket(subject, service.as_str());
                Ok(Answer { payload: Payload::Ticket(ticket), value: TICKET_LEN })
            },
            Err(e) => Err(e),
        }
    }

    /// Decides the next step of the set-up: report, register the endpoint, done; over at the
    /// first failure.
    pub fn init<E>(&self, event: InitEvent<E>) -> (r: InitAction<E>)
        ensures
            r == self@.init_action(event),
    {
        match event {
            InitEvent::Start => InitAction::Report(ServiceState::Starting),
            InitEvent::Reported(Ok(_)) => InitAction::Register(self.ipc.endpoint.cap),
            InitEvent::Reported(Err(e)) => InitAction::Return(Err(e)),
            InitEvent::Registered(done) => InitAction::Return(done),
        }
    }

    /// Takes on what the service receives and answers with.
    pub fn listen(&mut self, ep: Endpoint, reply: CapPtr, recv: CapPtr)
        ensures
            final(self)@ == old(self)@.listening(ep, reply, recv),
    {
        self.ipc.endpoint = ep;
        self.ipc.reply = Reply { cap: reply };
        self.ipc.recv = recv;
    }

    /// What the message loop does when it is free.
    fn next_turn<E>(&self) -> (r: RunAction<E>)
        ensures
            r == self@.turn::<E>(),
    {
        if self.ipc.running {
            RunAction::Receive {
                endpoint: self.ipc.endpoint,
                reply_window: self.ipc.reply.cap,
                recv_window: self.ipc.recv,
            }
        } else {
            RunAction::Return(Ok(()))
        }
    }

    /// Decides the next step of the message loop.
    pub fn run<E>(&mut self, event: RunEvent<E>) -> (r: RunAction<E>)
        ensures
            final(self)@ == old(self)@.run_state(event),
            r == old(self)@.run_action(event),
    {
        match event {
            RunEvent::Start => {
                self.ipc.running = true;
                RunAction::Report(ServiceState::Running)
            },
            RunEvent::Reported(Ok(_)) => self.next_turn(),
            RunEvent::Reported(Err(e)) => RunAction::Return(Err(e)),
            RunEvent::Received { ok } => {
                if ok {
                    self.manager.prune_expired_tickets();
                    RunAction::Dispatch
                } else {
                    self.next_turn()
                }
            },
            RunEvent::Dispatched(Ok(_)) => RunAction::Reply { reply: self.ipc.reply },
            RunEvent::Dispatched(Err(code)) => RunAction::ReplyError {
                reply: self.ipc.reply,
                code,
            },
            RunEvent::Replied => self.next_turn(),
        }
    }

    /// Ends the message loop and says what to report.
    pub fn stop(&mut self) -> (r: ServiceState)
        ensures
            r == ServiceState::Stopped,
            final(self)@ == old(self)@.stopped(),
    {
        self.ipc.running = false;
        ServiceState::Stopped
    }
}

} // verus!
