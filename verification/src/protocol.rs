//! Protocol-level enumerations: command identifiers, response status codes,
//! and network states, together with their wire encodings; below them, the
//! command catalog module by module.

pub mod aps;
pub mod device;
pub mod mac;
pub mod network_parameters;

use vstd::prelude::*;

verus! {

/// Error raised while decoding a frame from the wire.
#[derive(Debug, Clone, PartialEq, Eq, Structural)]
pub enum ProtocolError {
    /// The command identifier byte is not one the protocol defines.
    UnknownCommandId(u8),
    /// The low bits of a device-state byte name no known network state.
    UnknownNetworkState(u8),
    /// The status byte is not one the protocol defines.
    UnknownStatusCode(u8),
    /// The frame (or its declared total length) is shorter than a header.
    SmallFrame(usize),
    /// The frame carries more bytes than its declared total length allows.
    LargeFrame(usize),
    /// The trailing checksum is malformed or does not match.
    CrcError(crate::frame::CrcError),
}

/// Identifies the command a frame belongs to.
#[derive(Debug, Clone, Copy, PartialEq, Eq, Structural)]
pub enum CommandId {
    DeviceState,
    ChangeNetworkState,
    ReadParameter,
    WriteParameter,
    DeviceStateChanged,
    Version,
    ApsDataRequest,
    ApsDataConfirm,
    ApsDataIndication,
    MacPollIndication,
    MacBeaconIndication,
    UpdateBootloader,
}

impl CommandId {
    /// The wire byte for this command identifier.
    pub open spec fn spec_u8(self) -> u8 {
        match self {
            CommandId::DeviceState => 0x07,
            CommandId::ChangeNetworkState => 0x08,
            CommandId::ReadParameter => 0x0A,
            CommandId::WriteParameter => 0x0B,
            CommandId::Version => 0x0D,
            CommandId::DeviceStateChanged => 0x0E,
            CommandId::ApsDataRequest => 0x12,
            CommandId::ApsDataConfirm => 0x04,
            CommandId::ApsDataIndication => 0x17,
            CommandId::MacPollIndication => 0x1C,
            CommandId::MacBeaconIndication => 0x1F,
            CommandId::UpdateBootloader => 0x21,
        }
    }

    /// The command identifier encoded by `value`, if any.
    pub open spec fn spec_from_u8(value: u8) -> Option<CommandId> {
        match value {
            0x07 => Some(CommandId::DeviceState),
            0x08 => Some(CommandId::ChangeNetworkState),
            0x0A => Some(CommandId::ReadParameter),
            0x0B => Some(CommandId::WriteParameter),
            0x0D => Some(CommandId::Version),
            0x0E => Some(CommandId::DeviceStateChanged),
            0x12 => Some(CommandId::ApsDataRequest),
            0x04 => Some(CommandId::ApsDataConfirm),
            0x17 => Some(CommandId::ApsDataIndication),
            0x1C => Some(CommandId::MacPollIndication),
            0x1F => Some(CommandId::MacBeaconIndication),
            0x21 => Some(CommandId::UpdateBootloader),
            _ => None,
        }
    }

    /// Emits the wire byte.
    pub fn as_u8(self) -> (r: u8)
        ensures
            r == self.spec_u8(),
    {
        match self {
            CommandId::DeviceState => 0x07,
            CommandId::ChangeNetworkState => 0x08,
            CommandId::ReadParameter => 0x0A,
            CommandId::WriteParameter => 0x0B,
            CommandId::Version => 0x0D,
            CommandId::DeviceStateChanged => 0x0E,
            CommandId::ApsDataRequest => 0x12,
            CommandId::ApsDataConfirm => 0x04,
            CommandId::ApsDataIndication => 0x17,
            CommandId::MacPollIndication => 0x1C,
            CommandId::MacBeaconIndication => 0x1F,
            CommandId::UpdateBootloader => 0x21,
        }
    }

    /// Decodes a command identifier byte; unknown bytes are a protocol error.
    pub fn try_from_u8(value: u8) -> (r: Result<CommandId, ProtocolError>)
        ensures
            match Self::spec_from_u8(value) {
                Some(c) => r == Ok::<CommandId, ProtocolError>(c),
                None => r == Err::<CommandId, ProtocolError>(
                    ProtocolError::UnknownCommandId(value),
                ),
            },
    {
        match value {
            0x07 => Ok(CommandId::DeviceState),
            0x08 => Ok(CommandId::ChangeNetworkState),
            0x0A => Ok(CommandId::ReadParameter),
            0x0B => Ok(CommandId::WriteParameter),
            0x0D => Ok(CommandId::Version),
            0x0E => Ok(CommandId::DeviceStateChanged),
            0x12 => Ok(CommandId::ApsDataRequest),
            0x04 => Ok(CommandId::ApsDataConfirm),
            0x17 => Ok(CommandId::ApsDataIndication),
            0x1C => Ok(CommandId::MacPollIndication),
            0x1F => Ok(CommandId::MacBeaconIndication),
            0x21 => Ok(CommandId::UpdateBootloader),
            _ => Err(ProtocolError::UnknownCommandId(value)),
        }
    }
}

/// Round trip: encoding a command identifier and decoding the byte gives the
/// identifier back.
pub proof fn lemma_command_id_round_trip(c: CommandId)
    ensures
        CommandId::spec_from_u8(c.spec_u8()) == Some(c),
{
}

/// The status byte carried by every incoming frame.
#[derive(Debug, Clone, Copy, PartialEq, Eq, Structural)]
pub enum StatusCode {
    Success,
    Failure,
    Busy,
    Timeout,
    Unsupported,
    Error,
    NoNetwork,
    InvalidValue,
}

impl StatusCode {
    /// The wire byte for this status code.
    pub open spec fn spec_u8(self) -> u8 {
        match self {
            StatusCode::Success => 0x00,
            StatusCode::Failure => 0x01,
            StatusCode::Busy => 0x02,
            StatusCode::Timeout => 0x03,
            StatusCode::Unsupported => 0x04,
            StatusCode::Error => 0x05,
            StatusCode::NoNetwork => 0x06,
            StatusCode::InvalidValue => 0x07,
        }
    }

    /// The status code encoded by `value`, if any.
    pub open spec fn spec_from_u8(value: u8) -> Option<StatusCode> {
        match value {
            0x00 => Some(StatusCode::Success),
            0x01 => Some(StatusCode::Failure),
            0x02 => Some(StatusCode::Busy),
            0x03 => Some(StatusCode::Timeout),
            0x04 => Some(StatusCode::Unsupported),
            0x05 => Some(StatusCode::Error),
            0x06 => Some(StatusCode::NoNetwork),
            0x07 => Some(StatusCode::InvalidValue),
            _ => None,
        }
    }

    /// Emits the wire byte.
    pub fn as_u8(self) -> (r: u8)
        ensures
            r == self.spec_u8(),
    {
        match self {
            StatusCode::Success => 0x00,
            StatusCode::Failure => 0x01,
            StatusCode::Busy => 0x02,
            StatusCode::Timeout => 0x03,
            StatusCode::Unsupported => 0x04,
            StatusCode::Error => 0x05,
            StatusCode::NoNetwork => 0x06,
            StatusCode::InvalidValue => 0x07,
        }
    }

    /// Decodes a status byte; unknown bytes are a protocol error.
    pub fn try_from_u8(value: u8) -> (r: Result<StatusCode, ProtocolError>)
        ensures
            match Self::spec_from_u8(value) {
                Some(s) => r == Ok::<StatusCode, ProtocolError>(s),
                None => r == Err::<StatusCode, ProtocolError>(
                    ProtocolError::UnknownStatusCode(value),
                ),
            },
    {
        match value {
            0x00 => Ok(StatusCode::Success),
            0x01 => Ok(StatusCode::Failure),
            0x02 => Ok(StatusCode::Busy),
            0x03 => Ok(StatusCode::Timeout),
            0x04 => Ok(StatusCode::Unsupported),
            0x05 => Ok(StatusCode::Error),
            0x06 => Ok(StatusCode::NoNetwork),
            0x07 => Ok(StatusCode::InvalidValue),
            _ => Err(ProtocolError::UnknownStatusCode(value)),
        }
    }
}

/// The network state advertised in the low two bits of a device-state byte.
#[derive(Debug, Clone, Copy, PartialEq, Eq, Structural)]
pub enum NetworkState {
    NetOffline,
    NetJoining,
    NetConnected,
    NetLeaving,
}

impl NetworkState {
    /// The wire byte for this network state.
    pub open spec fn spec_u8(self) -> u8 {
        match self {
            NetworkState::NetOffline => 0x00,
            NetworkState::NetJoining => 0x01,
            NetworkState::NetConnected => 0x02,
            NetworkState::NetLeaving => 0x03,
        }
    }

    /// The network state encoded by `value`, if any.
    pub open spec fn spec_from_u8(value: u8) -> Option<NetworkState> {
        match value {
            0x00 => Some(NetworkState::NetOffline),
            0x01 => Some(NetworkState::NetJoining),
            0x02 => Some(NetworkState::NetConnected),
            0x03 => Some(NetworkState::NetLeaving),
            _ => None,
        }
    }

    /// Emits the wire byte.
    pub fn as_u8(self) -> (r: u8)
        ensures
            r == self.spec_u8(),
    {
        match self {
            NetworkState::NetOffline => 0x00,
            NetworkState::NetJoining => 0x01,
            NetworkState::NetConnected => 0x02,
            NetworkState::NetLeaving => 0x03,
        }
    }

    /// Decodes a network-state byte; unknown bytes are a protocol error.
    pub fn try_from_u8(value: u8) -> (r: Result<NetworkState, ProtocolError>)
        ensures
            match Self::spec_from_u8(value) {
                Some(s) => r == Ok::<NetworkState, ProtocolError>(s),
                None => r == Err::<NetworkState, ProtocolError>(
                    ProtocolError::UnknownNetworkState(value),
                ),
            },
    {
        match value {
            0x00 => Ok(NetworkState::NetOffline),
            0x01 => Ok(NetworkState::NetJoining),
            0x02 => Ok(NetworkState::NetConnected),
            0x03 => Ok(NetworkState::NetLeaving),
            _ => Err(ProtocolError::UnknownNetworkState(value)),
        }
    }

    /// True exactly when the device reports itself connected to the network.
    pub fn is_connected(self) -> (r: bool)
        ensures
            r == (self == NetworkState::NetConnected),
    {
        match self {
            NetworkState::NetConnected => true,
            _ => false,
        }
    }
}

} // verus!
