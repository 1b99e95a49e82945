//! The objects of the authentication protocol, as plain values.

use vstd::prelude::*;

verus! {

/// The badge of a caller, as the kernel stamps it on a message.
#[derive(Debug, Clone, Copy, PartialEq, Eq, Structural)]
pub struct Badge {
    /// The badge as a number.
    pub bits: usize,
}

/// Who a subject acts as.
#[derive(Debug, PartialEq, Eq)]
pub struct IdentityInfo {
    /// The effective user; zero is the superuser.
    pub euid: u32,
    /// What else belongs to the identity, in whatever form the caller gives it. It is kept and
    /// handed back, never read. The default identity has none.
    pub record: Vec<u8>,
}

/// What an [`IdentityInfo`] holds.
#[verifier::ext_equal]
pub struct IdentityModel {
    pub euid: u32,
    pub record: Seq<u8>,
}

impl View for IdentityInfo {
    type V = IdentityModel;

    open spec fn view(&self) -> IdentityModel {
        IdentityModel { euid: self.euid, record: self.record@ }
    }
}

impl IdentityModel {
    /// The identity of a subject that none was set for: the superuser. It stands for the
    /// default identity of the `glenda` crate and must agree with it in its effective user.
    pub open spec fn unset() -> IdentityModel {
        IdentityModel { euid: 0, record: Seq::empty() }
    }
}

impl Default for IdentityInfo {
    fn default() -> (r: Self)
        ensures
            r@ == IdentityModel::unset(),
    {
        IdentityInfo { euid: 0, record: Vec::new() }
    }
}

impl Clone for IdentityInfo {
    fn clone(&self) -> (r: Self)
        ensures
            r@ == self@,
    {
        let record = self.record.clone();
        assert(record@ =~= self.record@);
        IdentityInfo { euid: self.euid, record }
    }
}

/// What one rule says about a subject's access.
#[derive(Debug, Clone, Copy, PartialEq, Eq, Structural)]
pub struct PolicyRule {
    /// The subject the rule is about, cut to 32 bits.
    pub subject: u32,
    /// Zero denies, anything else allows.
    pub effect: u32,
    /// How long a decision by this rule may be kept, in milliseconds.
    pub ttl_ms: u32,
}

impl View for PolicyRule {
    type V = PolicyRule;

    open spec fn view(&self) -> PolicyRule {
        *self
    }
}

/// The answer to a permission question.
#[derive(Debug, Clone, Copy, PartialEq, Eq)]
pub struct PermissionDecision {
    /// One if the access is allowed, zero if it is denied.
    pub allowed: u8,
    /// Always zero.
    pub reserved: [u8; 3],
    /// How long the decision may be kept, in milliseconds.
    pub ttl_ms: u32,
}

/// Whether a policy backend is attached, and how often that has changed.
#[derive(Debug, Clone, Copy, PartialEq, Eq)]
pub struct PolicyBackendStatus {
    /// One if a backend is attached, zero if none is.
    pub external_attached: u8,
    /// Always zero.
    pub reserved: [u8; 3],
    /// The number of changes so far, wrapping around.
    pub generation: u32,
}

/// A place in the capability space.
#[derive(Debug, Clone, Copy, PartialEq, Eq, Structural)]
pub struct CapPtr {
    /// The place as a number.
    pub bits: usize,
}

impl CapPtr {
    /// The place of no capability. It stands for the null capability pointer of the `glenda`
    /// crate and must agree with it.
    pub open spec fn nowhere() -> CapPtr {
        CapPtr { bits: 0 }
    }

    /// The place of no capability.
    pub fn null() -> (r: CapPtr)
        ensures
            r == CapPtr::nowhere(),
    {
        CapPtr { bits: 0 }
    }
}

/// A capability to call or to receive on.
#[derive(Debug, Clone, Copy, PartialEq, Eq, Structural)]
pub struct Endpoint {
    /// Where the capability is.
    pub cap: CapPtr,
}

/// A capability to answer a call with.
#[derive(Debug, Clone, Copy, PartialEq, Eq, Structural)]
pub struct Reply {
    /// Where the capability is.
    pub cap: CapPtr,
}

/// The states that a service reports to the init process.
#[derive(Debug, Clone, Copy, PartialEq, Eq, Structural)]
pub enum ServiceState {
    /// It is being set up.
    Starting,
    /// It takes requests.
    Running,
    /// It takes no more requests.
    Stopped,
}

/// Why the service refuses a request.
#[derive(Debug, Clone, Copy, PartialEq, Eq, Structural)]
pub enum Error {
    /// The message lacks what the method needs.
    InvalidArgs,
    /// The method needs a policy backend, and none is attached.
    NotSupported,
    /// There is no such method.
    InvalidMethod,
}

/// What comes with a message besides its registers.
#[derive(Debug, Clone, Copy, PartialEq, Eq, Structural)]
pub struct MsgFlags {
    /// The message buffer is in use.
    pub has_buffer: bool,
    /// A capability is handed over.
    pub has_cap: bool,
}

/// What the service reads of a message before it decides what to do.
#[derive(Debug, Clone, Copy, PartialEq, Eq, Structural)]
pub struct Request {
    /// The protocol of the message.
    pub proto: usize,
    /// The method within the protocol.
    pub label: usize,
    /// The badge of the caller.
    pub badge: Badge,
    /// The first message register.
    pub mr0: usize,
    /// What comes with the message.
    pub flags: MsgFlags,
    /// The number of bytes in the message buffer.
    pub size: usize,
}

impl Request {
    /// The subject that the request is about: the one it names, or else its caller.
    pub open spec fn subject(self) -> usize {
        if self.mr0 == 0 {
            self.badge.bits
        } else {
            self.mr0
        }
    }
}

/// The methods of the authentication protocol.
#[derive(Debug, Clone, Copy, PartialEq, Eq, Structural)]
pub enum AuthMethod {
    /// Agree on a protocol version.
    Negotiate,
    /// Read an identity.
    GetIdentity,
    /// Set an identity.
    SetIdentity,
    /// Ask whether an access is allowed.
    CheckPermission,
    /// Put a permission rule in force.
    UpsertPolicy,
    /// Take a permission rule out of force.
    DeletePolicy,
    /// Get a ticket for a service.
    GetTicket,
    /// Ask whether a ticket is valid.
    ValidateTicket,
    /// Give up all tickets.
    Logout,
    /// Attach a policy backend.
    SetPolicyBackend,
    /// Detach the policy backend.
    ClearPolicyBackend,
    /// Ask whether a policy backend is attached.
    GetPolicyBackendStatus,
    /// An authentication exchange with the policy backend.
    AuthRpc,
    /// Any other call to the policy backend.
    ProxyCall,
}

/// The numbers under which the protocol and its methods travel.
#[derive(Debug, Clone, Copy, PartialEq, Eq, Structural)]
pub struct AuthLabels {
    pub proto: usize,
    pub negotiate: usize,
    pub get_identity: usize,
    pub set_identity: usize,
    pub check_permission: usize,
    pub upsert_policy: usize,
    pub delete_policy: usize,
    pub get_ticket: usize,
    pub validate_ticket: usize,
    pub logout: usize,
    pub set_policy_backend: usize,
    pub clear_policy_backend: usize,
    pub get_policy_backend_status: usize,
    pub auth_rpc: usize,
    pub proxy_call: usize,
}

impl AuthLabels {
    /// The number of a method.
    pub open spec fn label(self, method: AuthMethod) -> usize {
        match method {
            AuthMethod::Negotiate => self.negotiate,
            AuthMethod::GetIdentity => self.get_identity,
            AuthMethod::SetIdentity => self.set_identity,
            AuthMethod::CheckPermission => self.check_permission,
            AuthMethod::UpsertPolicy => self.upsert_policy,
            AuthMethod::DeletePolicy => self.delete_policy,
            AuthMethod::GetTicket => self.get_ticket,
            AuthMethod::ValidateTicket => self.validate_ticket,
            AuthMethod::Logout => self.logout,
            AuthMethod::SetPolicyBackend => self.set_policy_backend,
            AuthMethod::ClearPolicyBackend => self.clear_policy_backend,
            AuthMethod::GetPolicyBackendStatus => self.get_policy_backend_status,
            AuthMethod::AuthRpc => self.auth_rpc,
            AuthMethod::ProxyCall => self.proxy_call,
        }
    }

    /// No two methods share a number.
    pub open spec fn distinct(self) -> bool {
        forall|a: AuthMethod, b: AuthMethod| #[trigger]
            self.label(a) == #[trigger] self.label(b) ==> a == b
    }

    /// The method of a message; the first one listed, should methods share a number.
    pub open spec fn method_spec(self, proto: usize, label: usize) -> Option<AuthMethod> {
        if proto != self.proto {
            None
        } else if label == self.negotiate {
            Some(AuthMethod::Negotiate)
        } else if label == self.get_identity {
            Some(AuthMethod::GetIdentity)
        } else if label == self.set_identity {
            Some(AuthMethod::SetIdentity)
        } else if label == self.check_permission {
            Some(AuthMethod::CheckPermission)
        } else if label == self.upsert_policy {
            Some(AuthMethod::UpsertPolicy)
        } else if label == self.delete_policy {
            Some(AuthMethod::DeletePolicy)
        } else if label == self.get_ticket {
            Some(AuthMethod::GetTicket)
        } else if label == self.validate_ticket {
            Some(AuthMethod::ValidateTicket)
        } else if label == self.logout {
            Some(AuthMethod::Logout)
        } else if label == self.set_policy_backend {
            Some(AuthMethod::SetPolicyBackend)
        } else if label == self.clear_policy_backend {
            Some(AuthMethod::ClearPolicyBackend)
        } else if label == self.get_policy_backend_status {
            Some(AuthMethod::GetPolicyBackendStatus)
        } else if label == self.auth_rpc {
            Some(AuthMethod::AuthRpc)
        } else if label == self.proxy_call {
            Some(AuthMethod::ProxyCall)
        } else {
            None
        }
    }

    /// The method of a message, if it is one of this protocol.
    pub fn method(&self, proto: usize, label: usize) -> (r: Option<AuthMethod>)
        ensures
            r == self.method_spec(proto, label),
    {
        if proto != self.proto {
            None
        } else if label == self.negotiate {
            Some(AuthMethod::Negotiate)
        } else if label == self.get_identity {
            Some(AuthMethod::GetIdentity)
        } else if label == self.set_identity {
            Some(AuthMethod::SetIdentity)
        } else if label == self.check_permission {
            Some(AuthMethod::CheckPermission)
        } else if label == self.upsert_policy {
            Some(AuthMethod::UpsertPolicy)
        } else if label == self.delete_policy {
            Some(AuthMethod::DeletePolicy)
        } else if label == self.get_ticket {
            Some(AuthMethod::GetTicket)
        } else if label == self.validate_ticket {
            Some(AuthMethod::ValidateTicket)
        } else if label == self.logout {
            Some(AuthMethod::Logout)
        } else if label == self.set_policy_backend {
            Some(AuthMethod::SetPolicyBackend)
        } else if label == self.clear_policy_backend {
            Some(AuthMethod::ClearPolicyBackend)
        } else if label == self.get_policy_backend_status {
            Some(AuthMethod::GetPolicyBackendStatus)
        } else if label == self.auth_rpc {
            Some(AuthMethod::AuthRpc)
        } else if label == self.proxy_call {
            Some(AuthMethod::ProxyCall)
        } else {
            None
        }
    }
}

} // verus!
