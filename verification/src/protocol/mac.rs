//! Unsolicited MAC-layer indications: beacons and polls, decoded for
//! observational logging.  Neither carries a device-state byte.

use vstd::bytes::spec_u16_from_le_bytes;
use vstd::bytes::spec_u32_from_le_bytes;
use vstd::prelude::*;

use crate::frame::DeconzFrame;
use crate::protocol::aps::{spec_parse_source_address, SourceAddress};
use crate::protocol::device::DeviceState;

verus! {

/// An unsolicited MAC beacon indication.
#[derive(Debug)]
pub struct MACBeaconIndication {
    /// 16-bit short address of the beaconing router or coordinator.
    pub source_address: SourceAddress,
    /// The network identifier.
    pub network_pan_id: u16,
    /// The channel the beacon was heard on.
    pub channel: u8,
    /// Beacon flags.
    pub flags: u8,
    /// The network update identifier.
    pub update_id: u8,
    /// Optional additional beacon data.
    pub data: Option<Vec<u8>>,
}

/// True when `b` carries exactly the content of a beacon indication body
/// `s`: after the length field, the beaconing short address, the network
/// identifier, channel, flags, the update identifier, and any remaining
/// bytes as opaque beacon data.
pub open spec fn beacon_matches(b: MACBeaconIndication, s: Seq<u8>) -> bool {
    &&& s.len() >= 9
    &&& b.source_address == SourceAddress::NetworkAddress(
        spec_u16_from_le_bytes(s.subrange(2, 4)),
    )
    &&& b.network_pan_id == spec_u16_from_le_bytes(s.subrange(4, 6))
    &&& b.channel == s[6]
    &&& b.flags == s[7]
    &&& b.update_id == s[8]
    &&& match b.data {
        Some(d) => s.len() > 9 && d@ == s.skip(9),
        None => s.len() == 9,
    }
}

impl MACBeaconIndication {
    /// Parses a beacon indication body, as `beacon_matches` describes.
    pub fn from_frame(frame: DeconzFrame) -> (r: Option<
        (MACBeaconIndication, Option<DeviceState>),
    >)
        ensures
            r is Some <==> frame.remaining_bytes().len() >= 9,
            r matches Some((b, ds)) ==> beacon_matches(b, frame.remaining_bytes()) && ds is None,
    {
        let ghost s = frame.remaining_bytes();
        let mut frame = frame;
        if frame.remaining() < 9 {
            return None;
        }
        let _payload_length = frame.get_u16_le();
        let source_address = SourceAddress::NetworkAddress(frame.get_u16_le());
        let network_pan_id = frame.get_u16_le();
        let channel = frame.get_u8();
        let flags = frame.get_u8();
        let update_id = frame.get_u8();
        proof {
            assert(s.skip(2).take(2) =~= s.subrange(2, 4));
            assert(s.skip(2).skip(2).take(2) =~= s.subrange(4, 6));
            assert(s.skip(2).skip(2).skip(2)[0] == s[6]);
            assert(s.skip(2).skip(2).skip(2).skip(1)[0] == s[7]);
            assert(s.skip(2).skip(2).skip(2).skip(1).skip(1)[0] == s[8]);
            assert(s.skip(2).skip(2).skip(2).skip(1).skip(1).skip(1) =~= s.skip(9));
        }
        let data = if frame.has_remaining() {
            Some(frame.read_rest())
        } else {
            None
        };
        Some(
            (
                MACBeaconIndication {
                    source_address,
                    network_pan_id,
                    channel,
                    flags,
                    update_id,
                    data,
                },
                None,
            ),
        )
    }
}

/// An unsolicited MAC poll indication.
#[derive(Debug)]
pub struct MACPollIndication {
    pub source_address: SourceAddress,
    /// The received link quality, 0 to 255.
    pub link_quality_indicator: u8,
    /// The received signal strength in dBm.
    pub received_signal_strength_indication: i8,
    pub neighbor_table_state: Option<NeighborTableState>,
}

/// Neighbor-table bookkeeping optionally appended to a poll indication.
#[derive(Debug, Clone, Copy, PartialEq, Eq, Structural)]
pub struct NeighborTableState {
    pub life_time: u32,
    pub device_timeout: u32,
}

/// Whether a poll indication body is well formed: after the length field, a
/// source address, link quality and signal strength, and either nothing more
/// or a full neighbor-table record.
pub open spec fn spec_poll_parses(s: Seq<u8>) -> bool {
    &&& s.len() >= 2
    &&& match spec_parse_source_address(s.skip(2)) {
        Some((addr, rest)) => rest.len() >= 2 && (rest.len() == 2 || rest.len() >= 10),
        None => false,
    }
}

/// True when `p` carries exactly the content of a poll indication body `s`:
/// after the length field, the polling source address, link quality and
/// signal strength, and, when present, the neighbor-table record.
pub open spec fn poll_matches(p: MACPollIndication, s: Seq<u8>) -> bool {
    &&& s.len() >= 2
    &&& match spec_parse_source_address(s.skip(2)) {
        Some((addr, rest)) => {
            &&& p.source_address == addr
            &&& rest.len() >= 2
            &&& p.link_quality_indicator == rest[0]
            &&& p.received_signal_strength_indication == rest[1] as i8
            &&& match p.neighbor_table_state {
                Some(n) => {
                    &&& rest.len() >= 10
                    &&& n.life_time == spec_u32_from_le_bytes(rest.subrange(2, 6))
                    &&& n.device_timeout == spec_u32_from_le_bytes(rest.subrange(6, 10))
                },
                None => rest.len() == 2,
            }
        },
        None => false,
    }
}

impl MACPollIndication {
    /// Parses a poll indication body, as `poll_matches` describes.
    pub fn from_frame(frame: DeconzFrame) -> (r: Option<
        (MACPollIndication, Option<DeviceState>),
    >)
        ensures
            r is Some <==> spec_poll_parses(frame.remaining_bytes()),
            r matches Some((p, ds)) ==> poll_matches(p, frame.remaining_bytes()) && ds is None,
    {
        let ghost s = frame.remaining_bytes();
        let mut frame = frame;
        if frame.remaining() < 2 {
            return None;
        }
        let _payload_length = frame.get_u16_le();
        let source_address = match SourceAddress::from_frame(&mut frame) {
            Some(a) => a,
            None => {
                return None;
            },
        };
        let ghost rest = spec_parse_source_address(s.skip(2)).unwrap().1;
        if frame.remaining() < 2 {
            return None;
        }
        let link_quality_indicator = frame.get_u8();
        let received_signal_strength_indication = frame.get_i8();
        proof {
            assert(rest.skip(1)[0] == rest[1]);
        }
        let neighbor_table_state = if frame.has_remaining() {
            if frame.remaining() < 8 {
                return None;
            }
            let life_time = frame.get_u32_le();
            let device_timeout = frame.get_u32_le();
            proof {
                assert(rest.skip(1).skip(1).take(4) =~= rest.subrange(2, 6));
                assert(rest.skip(1).skip(1).skip(4).take(4) =~= rest.subrange(6, 10));
            }
            Some(NeighborTableState { life_time, device_timeout })
        } else {
            None
        };
        Some(
            (
                MACPollIndication {
                    source_address,
                    link_quality_indicator,
                    received_signal_strength_indication,
                    neighbor_table_state,
                },
                None,
            ),
        )
    }
}

} // verus!
