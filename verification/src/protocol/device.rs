//! Device-level commands: firmware version read, device-state read, and
//! network-state change, together with the decoded device-state byte.

use vstd::prelude::*;

use crate::frame::DeconzFrame;
use crate::protocol::{CommandId, NetworkState};

verus! {

/// The decoded device-state flag byte advertised by the stick.
#[derive(Debug, Clone, Copy, PartialEq, Eq, Structural)]
pub struct DeviceState {
    pub network_state: NetworkState,
    pub apsde_data_confirm: bool,
    pub apsde_data_indication: bool,
    pub configuration_changed: bool,
    pub apsde_data_request_free_slots: bool,
}

impl DeviceState {
    /// The device state encoded by a flag byte: network state in the low two
    /// bits, and one pending-work flag per bit above them.
    pub open spec fn spec_from_flags(flags: u8) -> DeviceState {
        DeviceState {
            network_state: NetworkState::spec_from_u8(flags & 0x03).unwrap(),
            apsde_data_confirm: flags & 0x04 == 0x04,
            apsde_data_indication: flags & 0x08 == 0x08,
            configuration_changed: flags & 0x10 == 0x10,
            apsde_data_request_free_slots: flags & 0x20 == 0x20,
        }
    }

    /// Decodes a device-state flag byte.  The low two bits always name a
    /// known network state, so every byte decodes.
    pub fn from_flags(flags: u8) -> (r: DeviceState)
        ensures
            r == Self::spec_from_flags(flags),
    {
        proof {
            assert(flags & 0x03 < 4) by (bit_vector);
        }
        let network_state = match NetworkState::try_from_u8(flags & 0x03) {
            Ok(s) => s,
            Err(_) => {
                proof {
                    assert(false);
                }
                NetworkState::NetOffline
            },
        };
        DeviceState {
            network_state,
            apsde_data_confirm: flags & 0x04 == 0x04,
            apsde_data_indication: flags & 0x08 == 0x08,
            configuration_changed: flags & 0x10 == 0x10,
            apsde_data_request_free_slots: flags & 0x20 == 0x20,
        }
    }
}

/// The platform field of a firmware version response.
#[derive(Debug, Clone, Copy, PartialEq, Eq, Structural)]
pub enum FirmwareVersionPlatform {
    /// ConBee and RaspBee (AVR)
    Avr,
    /// ConBee II and RaspBee II (ARM/R21)
    ArmR21,
    Unknown(u8),
}

impl FirmwareVersionPlatform {
    /// The platform named by a platform byte.
    pub open spec fn spec_from_u8(value: u8) -> FirmwareVersionPlatform {
        if value == 0x05 {
            FirmwareVersionPlatform::Avr
        } else if value == 0x07 {
            FirmwareVersionPlatform::ArmR21
        } else {
            FirmwareVersionPlatform::Unknown(value)
        }
    }

    /// Decodes a platform byte.
    pub fn from_u8(value: u8) -> (r: FirmwareVersionPlatform)
        ensures
            r == Self::spec_from_u8(value),
    {
        match value {
            0x05 => FirmwareVersionPlatform::Avr,
            0x07 => FirmwareVersionPlatform::ArmR21,
            _ => FirmwareVersionPlatform::Unknown(value),
        }
    }
}

/// Command to read the firmware version.
pub struct ReadFirmwareVersion;

/// The outgoing request of [`ReadFirmwareVersion`].
#[derive(Debug)]
pub struct ReadFirmwareVersionRequest;

/// The parsed response of [`ReadFirmwareVersion`].
#[derive(Debug)]
pub struct ReadFirmwareVersionResponse {
    pub major_version: u8,
    pub minor_version: u8,
    pub platform: FirmwareVersionPlatform,
}

impl ReadFirmwareVersion {
    pub fn new() -> (r: ReadFirmwareVersion) {
        ReadFirmwareVersion
    }

    /// The request this command sends.
    pub fn into_request(self) -> (r: ReadFirmwareVersionRequest) {
        ReadFirmwareVersionRequest
    }
}

impl ReadFirmwareVersionRequest {
    /// The command identifier of this request.
    pub fn command_id(&self) -> (r: CommandId)
        ensures
            r == CommandId::Version,
    {
        CommandId::Version
    }

    /// The request body: a reserved 16-bit field of zeros.
    pub fn payload_data(&self) -> (r: Option<Vec<u8>>)
        ensures
            r matches Some(p) && p@ == seq![0u8, 0u8],
    {
        let mut payload: Vec<u8> = Vec::new();
        payload.push(0u8);
        payload.push(0u8);
        proof {
            assert(payload@ =~= seq![0u8, 0u8]);
        }
        Some(payload)
    }
}

impl ReadFirmwareVersionResponse {
    /// Parses a firmware version response body: a reserved byte, then the
    /// platform, minor, and major version bytes.  The response carries no
    /// device-state byte.
    pub fn from_frame(frame: DeconzFrame) -> (r: Option<
        (ReadFirmwareVersionResponse, Option<DeviceState>),
    >)
        ensures
            r is Some <==> frame.remaining_bytes().len() >= 4,
            r matches Some((resp, ds)) ==> {
                &&& resp.platform == FirmwareVersionPlatform::spec_from_u8(
                    frame.remaining_bytes()[1],
                )
                &&& resp.minor_version == frame.remaining_bytes()[2]
                &&& resp.major_version == frame.remaining_bytes()[3]
                &&& ds is None
            },
    {
        let mut frame = frame;
        if frame.remaining() < 4 {
            return None;
        }
        let _reserved = frame.get_u8();
        let platform = FirmwareVersionPlatform::from_u8(frame.get_u8());
        let minor_version = frame.get_u8();
        let major_version = frame.get_u8();
        Some((ReadFirmwareVersionResponse { major_version, minor_version, platform }, None))
    }
}

/// Command to read the current device state.
pub struct ReadDeviceState;

/// The outgoing request of [`ReadDeviceState`].
#[derive(Debug)]
pub struct ReadDeviceStateRequest;

/// The parsed response of [`ReadDeviceState`].
#[derive(Debug)]
pub struct ReadDeviceStateResponse {
    pub device_state: DeviceState,
}

impl ReadDeviceState {
    pub fn new() -> (r: ReadDeviceState) {
        ReadDeviceState
    }

    /// The request this command sends.
    pub fn into_request(self) -> (r: ReadDeviceStateRequest) {
        ReadDeviceStateRequest
    }
}

impl ReadDeviceStateRequest {
    /// The command identifier of this request.
    pub fn command_id(&self) -> (r: CommandId)
        ensures
            r == CommandId::DeviceState,
    {
        CommandId::DeviceState
    }

    /// The request body: three reserved zero bytes.
    pub fn payload_data(&self) -> (r: Option<Vec<u8>>)
        ensures
            r matches Some(p) && p@ == seq![0u8, 0u8, 0u8],
    {
        let mut payload: Vec<u8> = Vec::new();
        payload.push(0u8);
        payload.push(0u8);
        payload.push(0u8);
        proof {
            assert(payload@ =~= seq![0u8, 0u8, 0u8]);
        }
        Some(payload)
    }
}

impl ReadDeviceStateResponse {
    /// Parses a device-state response body: a single flag byte, surfaced to
    /// the scheduler as a device-state observation.
    pub fn from_frame(frame: DeconzFrame) -> (r: Option<
        (ReadDeviceStateResponse, Option<DeviceState>),
    >)
        ensures
            r is Some <==> frame.remaining_bytes().len() >= 1,
            r matches Some((resp, ds)) ==> {
                &&& resp.device_state == DeviceState::spec_from_flags(frame.remaining_bytes()[0])
                &&& ds == Some(resp.device_state)
            },
    {
        let mut frame = frame;
        if frame.remaining() < 1 {
            return None;
        }
        let device_state = DeviceState::from_flags(frame.get_u8());
        Some((ReadDeviceStateResponse { device_state }, Some(device_state)))
    }
}

/// Command to bring the network interface online or offline.
pub struct ChangeNetworkState(pub NetworkState);

/// The outgoing request of [`ChangeNetworkState`].
#[derive(Debug)]
pub struct ChangeNetworkStateRequest {
    pub state: NetworkState,
}

/// The parsed response of [`ChangeNetworkState`]; it carries nothing.
#[derive(Debug)]
pub struct ChangeNetworkStateResponse;

impl ChangeNetworkState {
    pub fn new(network_state: NetworkState) -> (r: ChangeNetworkState)
        ensures
            r.0 == network_state,
    {
        ChangeNetworkState(network_state)
    }

    /// The request this command sends.
    pub fn into_request(self) -> (r: ChangeNetworkStateRequest)
        ensures
            r.state == self.0,
    {
        ChangeNetworkStateRequest { state: self.0 }
    }
}

impl ChangeNetworkStateRequest {
    /// The command identifier of this request.
    pub fn command_id(&self) -> (r: CommandId)
        ensures
            r == CommandId::ChangeNetworkState,
    {
        CommandId::ChangeNetworkState
    }

    /// The request body: the requested network state as one byte.
    pub fn payload_data(&self) -> (r: Option<Vec<u8>>)
        ensures
            r matches Some(p) && p@ == seq![self.state.spec_u8()],
    {
        let mut payload: Vec<u8> = Vec::new();
        payload.push(self.state.as_u8());
        proof {
            assert(payload@ =~= seq![self.state.spec_u8()]);
        }
        Some(payload)
    }
}

impl ChangeNetworkStateResponse {
    /// Parses a change-network-state response; the body is ignored and no
    /// device-state byte is carried.
    pub fn from_frame(frame: DeconzFrame) -> (r: Option<
        (ChangeNetworkStateResponse, Option<DeviceState>),
    >)
        ensures
            r matches Some((resp, ds)) && ds is None,
    {
        let _ = frame;
        Some((ChangeNetworkStateResponse, None))
    }
}

} // verus!
