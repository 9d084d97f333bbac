//! Reading a buffered APS data indication from the stick.

use vstd::bytes::spec_u16_from_le_bytes;
use vstd::prelude::*;

use crate::frame::DeconzFrame;
use crate::protocol::aps::{
    spec_parse_destination_address, spec_parse_source_address, DestinationAddress, SourceAddress,
};
use crate::protocol::device::DeviceState;
use crate::protocol::CommandId;

verus! {

/// Command to read one buffered APS data indication.
#[derive(Debug)]
pub struct ReadReceivedData;

/// The outgoing request of [`ReadReceivedData`].
#[derive(Debug)]
pub struct ReadReceivedDataRequest;

/// The parsed response of [`ReadReceivedData`]: one inbound APS payload with
/// its addressing and link-quality metadata.
#[derive(Debug, Clone)]
pub struct ReadReceivedDataResponse {
    pub device_state: DeviceState,
    pub destination_address: DestinationAddress,
    pub destination_endpoint: u8,
    pub source_address: SourceAddress,
    pub source_endpoint: u8,
    pub profile_id: u16,
    pub cluster_id: u16,
    pub application_specific_data_unit: Vec<u8>,
    pub link_quality_indication: u8,
    pub received_signal_strength_indication: i8,
}

/// The mathematical content of a data indication response body.
pub ghost struct ReceivedDataModel {
    pub device_state: DeviceState,
    pub destination_address: DestinationAddress,
    pub destination_endpoint: u8,
    pub source_address: SourceAddress,
    pub source_endpoint: u8,
    pub profile_id: u16,
    pub cluster_id: u16,
    pub application_specific_data_unit: Seq<u8>,
    pub link_quality_indication: u8,
    pub received_signal_strength_indication: i8,
}

/// Parses a data indication response body: a payload length field, the
/// device-state byte, destination address and endpoint, source address and
/// endpoint, profile and cluster identifiers, the length-prefixed payload,
/// and, after two reserved bytes, the link quality, then after four reserved
/// bytes the signal strength.
pub open spec fn spec_parse_received_data(s: Seq<u8>) -> Option<ReceivedDataModel> {
    if s.len() < 3 {
        None
    } else {
        let device_state = DeviceState::spec_from_flags(s[2]);
        match spec_parse_destination_address(s.skip(3)) {
            None => None,
            Some((destination_address, r1)) => if r1.len() < 1 {
                None
            } else {
                let destination_endpoint = r1[0];
                match spec_parse_source_address(r1.skip(1)) {
                    None => None,
                    Some((source_address, r2)) => if r2.len() < 7 {
                        None
                    } else {
                        let source_endpoint = r2[0];
                        let profile_id = spec_u16_from_le_bytes(r2.subrange(1, 3));
                        let cluster_id = spec_u16_from_le_bytes(r2.subrange(3, 5));
                        let asdu_len = spec_u16_from_le_bytes(r2.subrange(5, 7));
                        let r3 = r2.skip(7);
                        if r3.len() < asdu_len + 8 {
                            None
                        } else {
                            Some(
                                ReceivedDataModel {
                                    device_state,
                                    destination_address,
                                    destination_endpoint,
                                    source_address,
                                    source_endpoint,
                                    profile_id,
                                    cluster_id,
                                    application_specific_data_unit: r3.take(asdu_len as int),
                                    link_quality_indication: r3[asdu_len + 2],
                                    received_signal_strength_indication: r3[asdu_len + 7] as i8,
                                },
                            )
                        }
                    },
                }
            },
        }
    }
}

impl ReadReceivedDataResponse {
    /// True when this parsed response carries exactly the content of `m`.
    pub open spec fn matches_model(self, m: ReceivedDataModel) -> bool {
        &&& self.device_state == m.device_state
        &&& self.destination_address == m.destination_address
        &&& self.destination_endpoint == m.destination_endpoint
        &&& self.source_address == m.source_address
        &&& self.source_endpoint == m.source_endpoint
        &&& self.profile_id == m.profile_id
        &&& self.cluster_id == m.cluster_id
        &&& self.application_specific_data_unit@ == m.application_specific_data_unit
        &&& self.link_quality_indication == m.link_quality_indication
        &&& self.received_signal_strength_indication == m.received_signal_strength_indication
    }

    /// Parses a data indication response body, as `spec_parse_received_data`
    /// describes.  The device-state byte it carries is surfaced to the
    /// scheduler.
    pub fn from_frame(frame: DeconzFrame) -> (r: Option<
        (ReadReceivedDataResponse, Option<DeviceState>),
    >)
        ensures
            r is Some <==> spec_parse_received_data(frame.remaining_bytes()) is Some,
            r matches Some((resp, ds)) ==> {
                let m = spec_parse_received_data(frame.remaining_bytes()).unwrap();
                resp.matches_model(m) && ds == Some(m.device_state)
            },
    {
        let ghost s = frame.remaining_bytes();
        let mut frame = frame;
        if frame.remaining() < 3 {
            return None;
        }
        let _payload_length = frame.get_u16_le();
        let flags = frame.get_u8();
        let device_state = DeviceState::from_flags(flags);
        proof {
            assert(s.skip(2).skip(1) =~= s.skip(3));
            assert(s.skip(2)[0] == s[2]);
        }
        let destination_address = match DestinationAddress::from_frame(&mut frame) {
            Some(a) => a,
            None => {
                return None;
            },
        };
        if frame.remaining() < 1 {
            return None;
        }
        let destination_endpoint = frame.get_u8();
        let ghost r1 = spec_parse_destination_address(s.skip(3)).unwrap().1;
        let source_address = match SourceAddress::from_frame(&mut frame) {
            Some(a) => a,
            None => {
                return None;
            },
        };
        let ghost r2 = spec_parse_source_address(r1.skip(1)).unwrap().1;
        if frame.remaining() < 7 {
            return None;
        }
        let source_endpoint = frame.get_u8();
        let profile_id = frame.get_u16_le();
        let cluster_id = frame.get_u16_le();
        let asdu_len = frame.get_u16_le();
        proof {
            assert(r2.skip(1).take(2) =~= r2.subrange(1, 3));
            assert(r2.skip(1).skip(2).take(2) =~= r2.subrange(3, 5));
            assert(r2.skip(1).skip(2).skip(2).take(2) =~= r2.subrange(5, 7));
            assert(r2.skip(1).skip(2).skip(2).skip(2) =~= r2.skip(7));
        }
        let ghost r3 = r2.skip(7);
        if frame.remaining() < 8 || asdu_len as usize > frame.remaining() - 8 {
            return None;
        }
        let application_specific_data_unit = frame.read_bytes(asdu_len as usize);
        let _ = frame.get_u8();  // Reserved
        let _ = frame.get_u8();  // Reserved
        let link_quality_indication = frame.get_u8();
        proof {
            assert(r3.skip(asdu_len as int).skip(1).skip(1) =~= r3.skip(asdu_len + 2));
            assert(r3.skip(asdu_len + 2)[0] == r3[asdu_len + 2]);
        }
        let _ = frame.get_u8();  // Reserved
        let _ = frame.get_u8();  // Reserved
        let _ = frame.get_u8();  // Reserved
        let _ = frame.get_u8();  // Reserved
        let received_signal_strength_indication = frame.get_i8();
        proof {
            assert(r3.skip(asdu_len + 2).skip(1).skip(1).skip(1).skip(1).skip(1) =~= r3.skip(
                asdu_len + 7,
            ));
            assert(r3.skip(asdu_len + 7)[0] == r3[asdu_len + 7]);
        }
        Some(
            (
                ReadReceivedDataResponse {
                    device_state,
                    destination_address,
                    destination_endpoint,
                    source_address,
                    source_endpoint,
                    profile_id,
                    cluster_id,
                    application_specific_data_unit,
                    link_quality_indication,
                    received_signal_strength_indication,
                },
                Some(device_state),
            ),
        )
    }
}

impl ReadReceivedData {
    pub fn new() -> (r: ReadReceivedData) {
        ReadReceivedData
    }

    /// The request this command sends.
    pub fn into_request(self) -> (r: ReadReceivedDataRequest) {
        ReadReceivedDataRequest
    }
}

impl ReadReceivedDataRequest {
    /// The command identifier of this request.
    pub fn command_id(&self) -> (r: CommandId)
        ensures
            r == CommandId::ApsDataIndication,
    {
        CommandId::ApsDataIndication
    }

    /// The request body: the flag byte `0x04`, asking for full address
    /// metadata in the indication.
    pub fn payload_data(&self) -> (r: Option<Vec<u8>>)
        ensures
            r matches Some(p) && p@ == seq![0x04u8],
    {
        let mut payload: Vec<u8> = Vec::new();
        payload.push(0x04u8);
        proof {
            assert(payload@ =~= seq![0x04u8]);
        }
        Some(payload)
    }
}

} // verus!
