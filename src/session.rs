use vstd::prelude::*;

use crate::device::{negotiated, resolve_characteristics, CharacteristicPair, ServiceInfo};
use crate::error::ConnectionError;

verus! {

/// Where a device is in becoming ready for commands.
#[derive(Debug, Clone, Copy, PartialEq, Eq, Structural)]
pub enum SessionState {
    Disconnected,
    Connecting,
    NegotiatingCharacteristics,
    Ready(CharacteristicPair),
    ConnectFailed,
    CharacteristicsNotFound,
}

/// What the transport is asked to do next.
#[derive(Debug, Clone, Copy, PartialEq, Eq, Structural)]
pub enum SessionAction {
    /// Issue the connect call.
    Connect,
    /// List the services of the connected device and hand them back.
    ListServices,
    /// Nothing more: the session is ready or has failed.
    Stop,
}

/// The lifecycle of one device's session: connect, then negotiate the
/// characteristics. Failures are terminal; nothing is retried.
pub struct DeviceSession {
    pub state: SessionState,
}

impl DeviceSession {
    pub fn new() -> (r: Self)
        ensures
            r.state == SessionState::Disconnected,
    {
        DeviceSession { state: SessionState::Disconnected }
    }

    /// Begins connecting; only a disconnected session starts.
    pub fn start(&mut self) -> (r: SessionAction)
        ensures
            old(self).state == SessionState::Disconnected ==> final(self).state
                == SessionState::Connecting && r == SessionAction::Connect,
            old(self).state != SessionState::Disconnected ==> final(self).state == old(self).state
                && r == SessionAction::Stop,
    {
        match self.state {
            SessionState::Disconnected => {
                self.state = SessionState::Connecting;
                SessionAction::Connect
            },
            _ => SessionAction::Stop,
        }
    }

    /// Takes the outcome of the connect call.
    pub fn on_connect_result(&mut self, connected: bool) -> (r: SessionAction)
        ensures
            old(self).state == SessionState::Connecting && connected ==> final(self).state
                == SessionState::NegotiatingCharacteristics && r == SessionAction::ListServices,
            old(self).state == SessionState::Connecting && !connected ==> final(self).state
                == SessionState::ConnectFailed && r == SessionAction::Stop,
            old(self).state != SessionState::Connecting ==> final(self).state == old(self).state
                && r == SessionAction::Stop,
    {
        match self.state {
            SessionState::Connecting => {
                if connected {
                    self.state = SessionState::NegotiatingCharacteristics;
                    SessionAction::ListServices
                } else {
                    self.state = SessionState::ConnectFailed;
                    SessionAction::Stop
                }
            },
            _ => SessionAction::Stop,
        }
    }

    /// Takes the services that the connected device exposes and picks the
    /// write and notify characteristics among them.
    pub fn on_services(&mut self, services: &Vec<ServiceInfo>) -> (r: SessionAction)
        ensures
            r == SessionAction::Stop,
            old(self).state == SessionState::NegotiatingCharacteristics ==> final(self).state == (
            match negotiated(services@) {
                Ok(pair) => SessionState::Ready(pair),
                Err(_) => SessionState::CharacteristicsNotFound,
            }),
            old(self).state != SessionState::NegotiatingCharacteristics ==> final(self).state
                == old(self).state,
    {
        match self.state {
            SessionState::NegotiatingCharacteristics => {
                self.state = match resolve_characteristics(services) {
                    Ok(pair) => SessionState::Ready(pair),
                    Err(_) => SessionState::CharacteristicsNotFound,
                };
            },
            _ => {},
        }
        SessionAction::Stop
    }

    /// The characteristics to send commands through: only a ready session
    /// has them. A session that failed says why; one still under way has
    /// not connected yet.
    pub fn characteristics(&self) -> (r: Result<CharacteristicPair, ConnectionError>)
        ensures
            match self.state {
                SessionState::Ready(pair) => r == Ok::<CharacteristicPair, ConnectionError>(pair),
                SessionState::CharacteristicsNotFound => r == Err::<
                    CharacteristicPair,
                    ConnectionError,
                >(ConnectionError::CharacteristicsNotFound),
                _ => r == Err::<CharacteristicPair, ConnectionError>(
                    ConnectionError::ConnectionFailed,
                ),
            },
    {
        match self.state {
            SessionState::Ready(pair) => Ok(pair),
            SessionState::CharacteristicsNotFound => Err(ConnectionError::CharacteristicsNotFound),
            _ => Err(ConnectionError::ConnectionFailed),
        }
    }
}

} // verus!
