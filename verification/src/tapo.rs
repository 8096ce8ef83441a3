//! The Tapo bulb driver's rules: which settings stand in for missing
//! ones, when a command is answered without reaching a bulb, and how
//! failures are worded. The network session itself is held by the
//! application.

use vstd::prelude::*;
use crate::models::BulbState;
use crate::text::{concat3, same_text};

verus! {

/// The address that stands in for a missing one.
pub const PLACEHOLDER_IP_ADDRESS: &'static str = "127.0.0.1";

/// The user name that stands in for a missing one.
pub const PLACEHOLDER_USERNAME: &'static str = "test_user";

/// The password that stands in for a missing one.
pub const PLACEHOLDER_PASSWORD: &'static str = "test_password";

/// What the driver does with a command.
#[derive(Debug)]
pub enum BulbAction {
    /// Answer with success without reaching a bulb.
    Simulated,
    /// Send the state to the bulb.
    Send(BulbState),
    /// Refuse: the session with the bulb is not there; the message.
    NotConnected(String),
}

impl BulbAction {
    /// The answer to the caller where the driver has nothing to send:
    /// success for a simulated command, the refusal's message for a bulb
    /// without session. A command to send has no answer yet.
    pub fn settled_answer(&self) -> (answer: Option<Result<(), String>>)
        ensures
            match self {
                BulbAction::Simulated => answer == Some(Ok::<(), String>(())),
                BulbAction::NotConnected(message) => answer is Some && answer->0 is Err
                    && answer->0->Err_0@ == message@,
                BulbAction::Send(_) => answer is None,
            },
    {
        match self {
            BulbAction::Simulated => Some(Ok(())),
            BulbAction::NotConnected(message) => Some(Err(message.clone())),
            BulbAction::Send(_) => None,
        }
    }
}

/// The name of a bulb state as it appears in messages.
pub open spec fn spec_state_name(state: BulbState) -> Seq<char> {
    match state {
        BulbState::BulbOn => "BulbOn"@,
        BulbState::BulbOff => "BulbOff"@,
    }
}

/// The message of a command that comes before the session with the bulb
/// is there.
pub open spec fn not_connected_message() -> Seq<char> {
    "not connected yet"@
}

/// The message of a command that the bulb at `ip_address` failed to carry
/// out.
pub open spec fn change_failed_message(
    state: BulbState,
    ip_address: Seq<char>,
    reason: Seq<char>,
) -> Seq<char> {
    "Failed to change Tapo bulb state to "@ + spec_state_name(state) + " for device "@
        + ip_address + ": "@ + reason
}

/// The configured value, or `fallback` where none is configured.
pub fn setting_or(configured: Option<String>, fallback: &str) -> (value: String)
    ensures
        value@ == match configured {
            Some(given) => given@,
            None => fallback@,
        },
{
    match configured {
        Some(given) => given,
        None => String::from_str(fallback),
    }
}

/// Whether all three settings are the placeholders, in which case no
/// session is opened.
pub fn uses_placeholders(ip_address: &str, username: &str, password: &str) -> (r: bool)
    ensures
        r == (ip_address@ == PLACEHOLDER_IP_ADDRESS@ && username@ == PLACEHOLDER_USERNAME@
            && password@ == PLACEHOLDER_PASSWORD@),
{
    same_text(ip_address, PLACEHOLDER_IP_ADDRESS) && same_text(username, PLACEHOLDER_USERNAME)
        && same_text(password, PLACEHOLDER_PASSWORD)
}

/// The name of a bulb state as it appears in messages.
pub fn state_name(state: BulbState) -> (name: &'static str)
    ensures
        name@ == spec_state_name(state),
{
    match state {
        BulbState::BulbOn => "BulbOn",
        BulbState::BulbOff => "BulbOff",
    }
}

/// The driver's own state: the address of the bulb.
#[derive(Debug)]
pub struct TapoSmartBulbAdapter {
    pub ip_address: String,
}

impl TapoSmartBulbAdapter {
    /// A driver for the bulb at `ip_address`.
    pub fn new(ip_address: String) -> (out: Self)
        ensures
            out.ip_address@ == ip_address@,
    {
        TapoSmartBulbAdapter { ip_address }
    }

    /// What to do with a command for `state`: simulate success where the
    /// address is the placeholder; refuse, with the not-connected message,
    /// where the session is not ready; send the state otherwise.
    pub fn plan_change_state(&self, client_ready: bool, state: BulbState) -> (action: BulbAction)
        ensures
            self.ip_address@ == PLACEHOLDER_IP_ADDRESS@ ==> action is Simulated,
            self.ip_address@ != PLACEHOLDER_IP_ADDRESS@ && !client_ready ==> action
                is NotConnected && action->NotConnected_0@ == not_connected_message(),
            self.ip_address@ != PLACEHOLDER_IP_ADDRESS@ && client_ready ==> action
                == BulbAction::Send(state),
    {
        if same_text(self.ip_address.as_str(), PLACEHOLDER_IP_ADDRESS) {
            BulbAction::Simulated
        } else if !client_ready {
            BulbAction::NotConnected(String::from_str("not connected yet"))
        } else {
            BulbAction::Send(state)
        }
    }

    /// The message of a command for `state` that the bulb failed to carry
    /// out for `reason`.
    pub fn change_failure(&self, state: BulbState, reason: &str) -> (message: String)
        ensures
            message@ == change_failed_message(state, self.ip_address@, reason@),
    {
        let mut message = concat3(
            "Failed to change Tapo bulb state to ",
            state_name(state),
            " for device ",
        );
        message.append(self.ip_address.as_str());
        message.append(": ");
        message.append(reason);
        message
    }
}

} // verus!
