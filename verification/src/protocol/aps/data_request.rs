//! Submitting an APS data request (an outbound payload) to the stick.

use vstd::bytes::{spec_u16_to_le_bytes, spec_u64_to_le_bytes, u16_to_le_bytes, u64_to_le_bytes};
use vstd::prelude::*;

use crate::frame::DeconzFrame;
use crate::protocol::aps::DestinationAddress;
use crate::protocol::device::DeviceState;
use crate::protocol::CommandId;

verus! {

/// An APS payload body, held to the protocol's 127-byte ceiling.
#[derive(Debug)]
pub struct APSFramePayload(Vec<u8>);

/// Returned by [`APSFramePayload::from_vec`] when the vector is over 127
/// bytes.
#[derive(Debug, Clone, Copy, PartialEq, Eq, Structural)]
pub struct OverflowError;

impl APSFramePayload {
    #[verifier::type_invariant]
    spec fn type_wf(self) -> bool {
        self.0@.len() <= 127
    }

    /// The payload bytes.
    pub closed spec fn view(self) -> Seq<u8> {
        self.0@
    }

    /// Wraps a payload body, rejecting anything over 127 bytes.
    pub fn from_vec(vec: Vec<u8>) -> (r: Result<APSFramePayload, OverflowError>)
        ensures
            vec@.len() > 127 ==> r is Err,
            vec@.len() <= 127 ==> (r matches Ok(p) && p@ == vec@),
    {
        if vec.len() > 127 {
            Err(OverflowError)
        } else {
            Ok(APSFramePayload(vec))
        }
    }
}

/// Options of an APS data request.
#[derive(Debug, Default)]
pub struct SendDataOptions {
    pub use_aps_acks: bool,
}

/// Command to submit an APS payload towards a destination.
#[derive(Debug)]
pub struct SendData {
    pub destination_address: DestinationAddress,
    /// Only encoded when the destination is addressed by network or IEEE
    /// address; group destinations carry no endpoint.
    pub destination_endpoint: u8,
    pub profile_id: u16,
    pub cluster_id: u16,
    pub source_endpoint: u8,
    pub payload: APSFramePayload,
    pub options: SendDataOptions,
    /// The maximum hops the request will be forwarded; zero or absent means
    /// unlimited.
    pub radius: Option<u8>,
}

/// The outgoing request of [`SendData`].
#[derive(Debug)]
pub struct SendDataRequest {
    pub inner: SendData,
    pub request_id: u8,
}

/// The parsed response of [`SendData`].
#[derive(Debug, Clone, Copy, PartialEq, Eq, Structural)]
pub struct SendDataResponse {
    pub request_id: u8,
}

/// The wire bytes of a destination address inside a data request: the mode
/// byte, the address little-endian, and, for network and IEEE addressing,
/// the destination endpoint.
pub open spec fn spec_destination_bytes(addr: DestinationAddress, endpoint: u8) -> Seq<u8> {
    match addr {
        DestinationAddress::GroupAddress(a) => seq![0x01u8] + spec_u16_to_le_bytes(a),
        DestinationAddress::NetworkAddress(a) => seq![0x02u8] + spec_u16_to_le_bytes(a) + seq![
            endpoint,
        ],
        DestinationAddress::IEEEAddress(a) => seq![0x03u8] + spec_u64_to_le_bytes(a) + seq![
            endpoint,
        ],
    }
}

/// The body of an APS data request: request identifier, a zero flags byte,
/// the destination, profile and cluster identifiers, the source endpoint,
/// the length-prefixed payload, the acknowledgement flag, and the radius.
pub open spec fn spec_send_data_payload(r: SendDataRequest) -> Seq<u8> {
    seq![r.request_id, 0u8] + spec_destination_bytes(
        r.inner.destination_address,
        r.inner.destination_endpoint,
    ) + spec_u16_to_le_bytes(r.inner.profile_id) + spec_u16_to_le_bytes(r.inner.cluster_id) + seq![
        r.inner.source_endpoint,
    ] + spec_u16_to_le_bytes(r.inner.payload@.len() as u16) + r.inner.payload@ + seq![
        if r.inner.options.use_aps_acks {
            0x04u8
        } else {
            0u8
        },
    ] + seq![
        match r.inner.radius {
            Some(h) => h,
            None => 0u8,
        },
    ]
}

impl SendData {
    /// The request this command sends; request identifiers are not threaded
    /// through yet, so the request carries zero.
    pub fn into_request(self) -> (r: SendDataRequest)
        ensures
            r.inner == self,
            r.request_id == 0,
    {
        SendDataRequest { inner: self, request_id: 0 }
    }
}

impl SendDataRequest {
    /// The command identifier of this request.
    pub fn command_id(&self) -> (r: CommandId)
        ensures
            r == CommandId::ApsDataRequest,
    {
        CommandId::ApsDataRequest
    }

    /// The request body, as `spec_send_data_payload` describes.  The payload
    /// body always fits its length field: it is held to 127 bytes.
    pub fn payload_data(&self) -> (r: Option<Vec<u8>>)
        ensures
            r matches Some(p) && p@ == spec_send_data_payload(*self),
            spec_send_data_payload(*self).len() <= 148,
    {
        proof {
            use_type_invariant(&self.inner.payload);
        }
        let mut payload: Vec<u8> = Vec::new();
        payload.push(self.request_id);
        payload.push(0u8);
        match &self.inner.destination_address {
            DestinationAddress::GroupAddress(group_address) => {
                payload.push(0x01u8);
                let mut a = u16_to_le_bytes(*group_address);
                payload.append(&mut a);
            },
            DestinationAddress::NetworkAddress(network_address) => {
                payload.push(0x02u8);
                let mut a = u16_to_le_bytes(*network_address);
                payload.append(&mut a);
                payload.push(self.inner.destination_endpoint);
            },
            DestinationAddress::IEEEAddress(ieee_address) => {
                payload.push(0x03u8);
                let mut a = u64_to_le_bytes(*ieee_address);
                payload.append(&mut a);
                payload.push(self.inner.destination_endpoint);
            },
        }
        let mut profile = u16_to_le_bytes(self.inner.profile_id);
        payload.append(&mut profile);
        let mut cluster = u16_to_le_bytes(self.inner.cluster_id);
        payload.append(&mut cluster);
        payload.push(self.inner.source_endpoint);
        let mut body_len = u16_to_le_bytes(self.inner.payload.0.len() as u16);
        payload.append(&mut body_len);
        payload.extend_from_slice(self.inner.payload.0.as_slice());
        if self.inner.options.use_aps_acks {
            payload.push(0x04u8);
        } else {
            payload.push(0u8);
        }
        match self.inner.radius {
            Some(radius) => payload.push(radius),
            None => payload.push(0u8),
        }
        proof {
            assert(payload@ =~= spec_send_data_payload(*self));
        }
        Some(payload)
    }
}

impl SendDataResponse {
    /// Parses a data request submission response body: a payload length
    /// field, the device-state byte, and the echoed request identifier.  The
    /// device-state byte it carries is surfaced to the scheduler.
    pub fn from_frame(frame: DeconzFrame) -> (r: Option<(SendDataResponse, Option<DeviceState>)>)
        ensures
            r is Some <==> frame.remaining_bytes().len() >= 4,
            r matches Some((resp, ds)) ==> {
                &&& resp.request_id == frame.remaining_bytes()[3]
                &&& ds == Some(
                    DeviceState::spec_from_flags(frame.remaining_bytes()[2]),
                )
            },
    {
        let ghost s = frame.remaining_bytes();
        let mut frame = frame;
        if frame.remaining() < 4 {
            return None;
        }
        let _payload_length = frame.get_u16_le();
        let device_state = DeviceState::from_flags(frame.get_u8());
        let request_id = frame.get_u8();
        proof {
            assert(s.skip(2)[0] == s[2]);
            assert(s.skip(2).skip(1)[0] == s[3]);
        }
        Some((SendDataResponse { request_id }, Some(device_state)))
    }
}

} // verus!
