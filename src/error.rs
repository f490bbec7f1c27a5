use vstd::prelude::*;

use crate::text::{decimal, push_decimal};

verus! {

/// Why a scan produced no usable device.
#[derive(Debug, Clone, PartialEq, Eq)]
pub enum ScanError {
    NoAdapters,
    NoDevices,
    NoColmiDevices,
    /// The transport failed; the payload is its own description.
    BluetoothOperationFailed(String),
}

/// Why a connection could not be made or used.
#[derive(Debug, Clone, Copy, PartialEq, Eq, Structural)]
pub enum ConnectionError {
    ConnectionFailed,
    CharacteristicsNotFound,
    WriteFailed,
    ReadFailed,
    SubscribeFailed,
}

/// Ways in which a 16-byte frame can fail validation.
#[derive(Debug, Clone, Copy, PartialEq, Eq, Structural)]
pub enum ProtocolError {
    InvalidChecksum { calculated: u8, actual: u8 },
    InvalidPacketLength,
}

/// Everything that can end a command exchange with a device.
#[derive(Debug, Clone, Copy, PartialEq, Eq, Structural)]
pub enum DeviceError {
    Connection(ConnectionError),
    Protocol(ProtocolError),
    /// No matching response came within the time budget.
    Timeout,
    /// The notification stream closed before a matching response came.
    StreamEnded,
}

impl ScanError {
    pub open spec fn spec_message(&self) -> Seq<char> {
        match self {
            ScanError::NoAdapters => "No Bluetooth adapters found! Please ensure Bluetooth is turned on."@,
            ScanError::NoDevices => "No Bluetooth devices found! Please ensure devices are turned on and in range."@,
            ScanError::NoColmiDevices => "No Colmi devices found! Try `colmi_client scan --all` to see all devices."@,
            ScanError::BluetoothOperationFailed(e) => "Bluetooth operation failed: "@ + e@,
        }
    }

    /// The text shown to the user for this error.
    pub fn message(&self) -> (r: String)
        ensures
            r@ == self.spec_message(),
    {
        match self {
            ScanError::NoAdapters => String::from_str(
                "No Bluetooth adapters found! Please ensure Bluetooth is turned on.",
            ),
            ScanError::NoDevices => String::from_str(
                "No Bluetooth devices found! Please ensure devices are turned on and in range.",
            ),
            ScanError::NoColmiDevices => String::from_str(
                "No Colmi devices found! Try `colmi_client scan --all` to see all devices.",
            ),
            ScanError::BluetoothOperationFailed(e) => {
                let mut s = String::from_str("Bluetooth operation failed: ");
                s.append(e.as_str());
                s
            },
        }
    }
}

impl ConnectionError {
    pub open spec fn spec_message(&self) -> Seq<char> {
        match self {
            ConnectionError::ConnectionFailed => "Connection to selected device failed!"@,
            ConnectionError::CharacteristicsNotFound => "No matching characteristics found on selected device!"@,
            ConnectionError::WriteFailed => "Failed to write data to selected device!"@,
            ConnectionError::ReadFailed => "Failed to read data from selected device!"@,
            ConnectionError::SubscribeFailed => "Failed to subscribe to notifications from selected device!"@,
        }
    }

    /// The text shown to the user for this error.
    pub fn message(&self) -> (r: String)
        ensures
            r@ == self.spec_message(),
    {
        match self {
            ConnectionError::ConnectionFailed => String::from_str(
                "Connection to selected device failed!",
            ),
            ConnectionError::CharacteristicsNotFound => String::from_str(
                "No matching characteristics found on selected device!",
            ),
            ConnectionError::WriteFailed => String::from_str(
                "Failed to write data to selected device!",
            ),
            ConnectionError::ReadFailed => String::from_str(
                "Failed to read data from selected device!",
            ),
            ConnectionError::SubscribeFailed => String::from_str(
                "Failed to subscribe to notifications from selected device!",
            ),
        }
    }
}

impl ProtocolError {
    pub open spec fn spec_message(&self) -> Seq<char> {
        match self {
            ProtocolError::InvalidChecksum { calculated, actual } => "Invalid checksum. Calculated: "@
                + decimal(*calculated as nat) + ", Actual: "@ + decimal(*actual as nat),
            ProtocolError::InvalidPacketLength => "Invalid packet length"@,
        }
    }

    /// The text shown to the user for this error.
    pub fn message(&self) -> (r: String)
        ensures
            r@ == self.spec_message(),
    {
        match self {
            ProtocolError::InvalidChecksum { calculated, actual } => {
                let mut s = String::from_str("Invalid checksum. Calculated: ");
                push_decimal(&mut s, *calculated as u64);
                s.append(", Actual: ");
                push_decimal(&mut s, *actual as u64);
                s
            },
            ProtocolError::InvalidPacketLength => String::from_str("Invalid packet length"),
        }
    }
}

impl DeviceError {
    pub open spec fn spec_message(&self) -> Seq<char> {
        match self {
            DeviceError::Connection(e) => e.spec_message(),
            DeviceError::Protocol(e) => e.spec_message(),
            DeviceError::Timeout => "Operation timed out"@,
            DeviceError::StreamEnded => "Notification stream ended"@,
        }
    }

    /// The text shown to the user for this error.
    pub fn message(&self) -> (r: String)
        ensures
            r@ == self.spec_message(),
    {
        match self {
            DeviceError::Connection(e) => e.message(),
            DeviceError::Protocol(e) => e.message(),
            DeviceError::Timeout => String::from_str("Operation timed out"),
            DeviceError::StreamEnded => String::from_str("Notification stream ended"),
        }
    }
}

impl From<ConnectionError> for DeviceError {
    fn from(e: ConnectionError) -> (r: Self) {
        DeviceError::Connection(e)
    }
}

impl vstd::std_specs::convert::FromSpecImpl<ConnectionError> for DeviceError {
    open spec fn obeys_from_spec() -> bool {
        true
    }

    open spec fn from_spec(e: ConnectionError) -> Self {
        DeviceError::Connection(e)
    }
}

impl From<ProtocolError> for DeviceError {
    fn from(e: ProtocolError) -> (r: Self) {
        DeviceError::Protocol(e)
    }
}

impl vstd::std_specs::convert::FromSpecImpl<ProtocolError> for DeviceError {
    open spec fn obeys_from_spec() -> bool {
        true
    }

    open spec fn from_spec(e: ProtocolError) -> Self {
        DeviceError::Protocol(e)
    }
}

} // verus!
