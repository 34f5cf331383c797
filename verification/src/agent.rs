//! The pairing-agent surface that a user of the library implements.
//!
//! The dispatch of incoming agent method calls is a server-side concern and
//! lives outside this crate; here stand the capability and error vocabulary
//! the agent protocol uses, and the trait a caller implements to answer
//! pairing requests.

use vstd::prelude::*;
use crate::device::Device;

verus! {

/// The agent interface implemented by a registered pairing agent.
pub const AGENT_INTERFACE: &'static str = "org.bluez.Agent1";

/// The interface of the service-side agent manager.
pub const AGENT_MANAGER_INTERFACE: &'static str = "org.bluez.AgentManager1";

/// The object path of the service-side agent manager.
pub const AGENT_MANAGER_OBJ_PATH: &'static str = "/org/bluez";

/// The input/output capability a pairing agent announces when registered.
#[derive(Clone, Copy, Debug)]
pub enum AgentCapability {
    DisplayOnly,
    DisplayYesNo,
    KeyboardOnly,
    NoInputNoOutput,
    KeyboardDisplay,
}

impl AgentCapability {
    /// The exact capability string the agent-manager protocol expects.
    pub fn to_str(&self) -> (r: &'static str)
        ensures
            r@ == (match *self {
                AgentCapability::DisplayOnly => "DisplayOnly"@,
                AgentCapability::DisplayYesNo => "DisplayYesNo"@,
                AgentCapability::KeyboardOnly => "KeyboardOnly"@,
                AgentCapability::NoInputNoOutput => "NoInputNoOutput"@,
                AgentCapability::KeyboardDisplay => "KeyboardDisplay"@,
            }),
    {
        match *self {
            AgentCapability::DisplayOnly => "DisplayOnly",
            AgentCapability::DisplayYesNo => "DisplayYesNo",
            AgentCapability::KeyboardDisplay => "KeyboardDisplay",
            AgentCapability::KeyboardOnly => "KeyboardOnly",
            AgentCapability::NoInputNoOutput => "NoInputNoOutput",
        }
    }
}

/// The refusal an agent implementation may answer a pairing request with.
#[derive(Clone, Copy, Debug)]
pub enum AgentError {
    Rejected,
    Canceled,
}

impl AgentError {
    /// The exact service-side error name that this refusal maps to.
    pub fn bluez_error(&self) -> (r: &'static str)
        ensures
            r@ == (match *self {
                AgentError::Rejected => "org.bluez.Error.Rejected"@,
                AgentError::Canceled => "org.bluez.Error.Canceled"@,
            }),
    {
        match *self {
            AgentError::Rejected => "org.bluez.Error.Rejected",
            AgentError::Canceled => "org.bluez.Error.Canceled",
        }
    }
}

/// A pairing agent.  A user of the library implements this trait; the
/// dispatch table that routes incoming agent method calls to it lives with
/// the transport, outside this crate.
pub trait Agent {
    /// The object path under which the agent is registered.
    fn get_object_path(&self) -> &str {
        "/io/bluezrs/agent1"
    }

    /// The capability announced when the agent is registered.
    fn get_capability(&self) -> AgentCapability {
        AgentCapability::KeyboardDisplay
    }

    fn request_pincode(&self, device: Device) -> Result<String, AgentError>;

    fn display_pincode(&self, device: Device, pincode: &str) -> Result<(), AgentError>;

    fn request_passkey(&self, device: Device) -> Result<u32, AgentError>;

    fn display_passkey(&self, device: Device, passkey: u32, entered: u16);

    fn request_confirmation(&self, device: Device, passkey: u32) -> Result<(), AgentError>;

    fn request_authorization(&self, device: Device) -> Result<(), AgentError>;

    fn authorize_service(&self, device: Device, uuid: &str) -> Result<(), AgentError>;

    fn cancel(&self);

    fn release(&self);
}

} // verus!
