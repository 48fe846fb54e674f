//! Access roles and the per-request authorization context.

use vstd::prelude::*;

verus! {

/// Access role for API requests.
#[derive(Clone, Copy, Debug, PartialEq, Eq)]
pub enum Role {
    Admin,
    Public,
}

/// Identity and authorization context of the current request.
///
/// Admin endpoints populate `Admin`, unauthenticated self-service endpoints
/// populate `Device` with the caller's MAC address, and requests with no
/// identified caller use `Anonymous`.
#[derive(Clone, Debug, PartialEq, Eq)]
pub enum AuthContext {
    /// Authenticated admin user, identified by the 128-bit value of its UUID.
    Admin { admin_id: u128 },
    /// Self-service caller identified by their device MAC address.
    Device { mac: String },
    /// No identity resolved (e.g. unknown IP, public info endpoints).
    Anonymous,
}

impl AuthContext {
    /// Returns `true` if the context represents an admin.
    pub fn is_admin(&self) -> (r: bool)
        ensures
            r == (*self is Admin),
    {
        match self {
            AuthContext::Admin { .. } => true,
            _ => false,
        }
    }

    /// Returns the device MAC if this is a `Device` context.
    pub fn device_mac(&self) -> (r: Option<&str>)
        ensures
            match *self {
                AuthContext::Device { mac } => r matches Some(m) && m@ == mac@,
                _ => r is None,
            },
    {
        match self {
            AuthContext::Device { mac } => Some(mac.as_str()),
            _ => None,
        }
    }
}

} // verus!
