//! Reading an APS data confirm (the fate of a submitted data request).

use vstd::prelude::*;

use crate::frame::DeconzFrame;
use crate::protocol::aps::{spec_parse_destination_address, DestinationAddress};
use crate::protocol::device::DeviceState;
use crate::protocol::CommandId;

verus! {

/// Command to read one buffered APS data confirm.
#[derive(Debug)]
pub struct ReadConfirmData;

/// The outgoing request of [`ReadConfirmData`].
#[derive(Debug)]
pub struct ReadConfirmDataRequest;

/// The parsed response of [`ReadConfirmData`].
#[derive(Debug, Clone, Copy, PartialEq, Eq, Structural)]
pub struct ReadConfirmDataResponse {
    pub device_state: DeviceState,
    pub request_id: u8,
    pub destination_address: DestinationAddress,
    pub destination_endpoint: Option<u8>,
    pub source_endpoint: u8,
    pub confirm_status: u8,
}

/// Parses a data confirm response body: a payload length field, the
/// device-state byte, the request identifier, the destination address, a
/// destination endpoint for network and IEEE addressing (groups carry none),
/// the source endpoint, and the confirm status.
pub open spec fn spec_parse_confirm_data(s: Seq<u8>) -> Option<ReadConfirmDataResponse> {
    if s.len() < 4 {
        None
    } else {
        let device_state = DeviceState::spec_from_flags(s[2]);
        let request_id = s[3];
        match spec_parse_destination_address(s.skip(4)) {
            None => None,
            Some((destination_address, r1)) => match destination_address {
                DestinationAddress::GroupAddress(_) => if r1.len() < 2 {
                    None
                } else {
                    Some(
                        ReadConfirmDataResponse {
                            device_state,
                            request_id,
                            destination_address,
                            destination_endpoint: None,
                            source_endpoint: r1[0],
                            confirm_status: r1[1],
                        },
                    )
                },
                _ => if r1.len() < 3 {
                    None
                } else {
                    Some(
                        ReadConfirmDataResponse {
                            device_state,
                            request_id,
                            destination_address,
                            destination_endpoint: Some(r1[0]),
                            source_endpoint: r1[1],
                            confirm_status: r1[2],
                        },
                    )
                },
            },
        }
    }
}

impl ReadConfirmData {
    pub fn new() -> (r: ReadConfirmData) {
        ReadConfirmData
    }

    /// The request this command sends.
    pub fn into_request(self) -> (r: ReadConfirmDataRequest) {
        ReadConfirmDataRequest
    }
}

impl ReadConfirmDataRequest {
    /// The command identifier of this request.
    pub fn command_id(&self) -> (r: CommandId)
        ensures
            r == CommandId::ApsDataConfirm,
    {
        CommandId::ApsDataConfirm
    }

    /// The request body: explicitly empty.  The confirm read must carry an
    /// empty payload with a zero length field, so the payload is present but
    /// holds no bytes.
    pub fn payload_data(&self) -> (r: Option<Vec<u8>>)
        ensures
            r matches Some(p) && p@ == Seq::<u8>::empty(),
    {
        Some(Vec::new())
    }
}

impl ReadConfirmDataResponse {
    /// Parses a data confirm response body, as `spec_parse_confirm_data`
    /// describes.  The device-state byte it carries is surfaced to the
    /// scheduler.
    pub fn from_frame(frame: DeconzFrame) -> (r: Option<
        (ReadConfirmDataResponse, Option<DeviceState>),
    >)
        ensures
            r is Some <==> spec_parse_confirm_data(frame.remaining_bytes()) is Some,
            r matches Some((resp, ds)) ==> {
                let m = spec_parse_confirm_data(frame.remaining_bytes()).unwrap();
                resp == m && ds == Some(m.device_state)
            },
    {
        let ghost s = frame.remaining_bytes();
        let mut frame = frame;
        if frame.remaining() < 4 {
            return None;
        }
        let _payload_length = frame.get_u16_le();
        let device_state = DeviceState::from_flags(frame.get_u8());
        let request_id = frame.get_u8();
        proof {
            assert(s.skip(2)[0] == s[2]);
            assert(s.skip(2).skip(1)[0] == s[3]);
            assert(s.skip(2).skip(1).skip(1) =~= s.skip(4));
        }
        let destination_address = match DestinationAddress::from_frame(&mut frame) {
            Some(a) => a,
            None => {
                return None;
            },
        };
        let is_group = match destination_address {
            DestinationAddress::GroupAddress(_) => true,
            _ => false,
        };
        if is_group {
            if frame.remaining() < 2 {
                return None;
            }
            let source_endpoint = frame.get_u8();
            let confirm_status = frame.get_u8();
            proof {
                let r1 = spec_parse_destination_address(s.skip(4)).unwrap().1;
                assert(r1.skip(1)[0] == r1[1]);
            }
            Some(
                (
                    ReadConfirmDataResponse {
                        device_state,
                        request_id,
                        destination_address,
                        destination_endpoint: None,
                        source_endpoint,
                        confirm_status,
                    },
                    Some(device_state),
                ),
            )
        } else {
            if frame.remaining() < 3 {
                return None;
            }
            let destination_endpoint = frame.get_u8();
            let source_endpoint = frame.get_u8();
            let confirm_status = frame.get_u8();
            proof {
                let r1 = spec_parse_destination_address(s.skip(4)).unwrap().1;
                assert(r1.skip(1)[0] == r1[1]);
                assert(r1.skip(1).skip(1)[0] == r1[2]);
            }
            Some(
                (
                    ReadConfirmDataResponse {
                        device_state,
                        request_id,
                        destination_address,
                        destination_endpoint: Some(destination_endpoint),
                        source_endpoint,
                        confirm_status,
                    },
                    Some(device_state),
                ),
            )
        }
    }
}

} // verus!
