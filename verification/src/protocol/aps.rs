//! APS (application support sub-layer) commands: reading buffered data
//! indications, reading data confirms, and submitting data requests.

pub mod data_confirm;
pub mod data_indication;
pub mod data_request;

pub use data_confirm::{ReadConfirmData, ReadConfirmDataRequest, ReadConfirmDataResponse};
pub use data_indication::{ReadReceivedData, ReadReceivedDataRequest, ReadReceivedDataResponse};
pub use data_request::{
    APSFramePayload, OverflowError, SendData, SendDataOptions, SendDataRequest, SendDataResponse,
};

use vstd::bytes::{spec_u16_from_le_bytes, spec_u64_from_le_bytes};
use vstd::prelude::*;

use crate::frame::DeconzFrame;

verus! {

/// Where an APS payload is addressed to.
#[derive(Debug, Clone, Copy, PartialEq, Eq, Structural)]
pub enum DestinationAddress {
    GroupAddress(u16),
    NetworkAddress(u16),
    IEEEAddress(u64),
}

/// Where an APS payload came from.
#[derive(Debug, Clone, Copy, PartialEq, Eq, Structural)]
pub enum SourceAddress {
    NetworkAddress(u16),
    IEEEAddress(u64),
    Both { network_address: u16, ieee_address: u64 },
}

/// Parses a destination address: a mode byte, then a 16-bit group address,
/// a 16-bit network address, or a 64-bit IEEE address, little-endian.
/// Returns the address and the bytes after it; an unknown mode or a short
/// buffer parses as nothing.
pub open spec fn spec_parse_destination_address(s: Seq<u8>) -> Option<
    (DestinationAddress, Seq<u8>),
> {
    if s.len() < 1 {
        None
    } else {
        let mode = s[0];
        let rest = s.skip(1);
        if mode == 0x01 {
            if rest.len() < 2 {
                None
            } else {
                Some(
                    (
                        DestinationAddress::GroupAddress(spec_u16_from_le_bytes(rest.take(2))),
                        rest.skip(2),
                    ),
                )
            }
        } else if mode == 0x02 {
            if rest.len() < 2 {
                None
            } else {
                Some(
                    (
                        DestinationAddress::NetworkAddress(spec_u16_from_le_bytes(rest.take(2))),
                        rest.skip(2),
                    ),
                )
            }
        } else if mode == 0x03 {
            if rest.len() < 8 {
                None
            } else {
                Some(
                    (
                        DestinationAddress::IEEEAddress(spec_u64_from_le_bytes(rest.take(8))),
                        rest.skip(8),
                    ),
                )
            }
        } else {
            None
        }
    }
}

/// Parses a source address: a mode byte, then a 16-bit network address, a
/// 64-bit IEEE address, or both in that order, little-endian.  Returns the
/// address and the bytes after it; an unknown mode or a short buffer parses
/// as nothing.
pub open spec fn spec_parse_source_address(s: Seq<u8>) -> Option<(SourceAddress, Seq<u8>)> {
    if s.len() < 1 {
        None
    } else {
        let mode = s[0];
        let rest = s.skip(1);
        if mode == 0x02 {
            if rest.len() < 2 {
                None
            } else {
                Some(
                    (
                        SourceAddress::NetworkAddress(spec_u16_from_le_bytes(rest.take(2))),
                        rest.skip(2),
                    ),
                )
            }
        } else if mode == 0x03 {
            if rest.len() < 8 {
                None
            } else {
                Some(
                    (
                        SourceAddress::IEEEAddress(spec_u64_from_le_bytes(rest.take(8))),
                        rest.skip(8),
                    ),
                )
            }
        } else if mode == 0x04 {
            if rest.len() < 10 {
                None
            } else {
                Some(
                    (
                        SourceAddress::Both {
                            network_address: spec_u16_from_le_bytes(rest.take(2)),
                            ieee_address: spec_u64_from_le_bytes(rest.skip(2).take(8)),
                        },
                        rest.skip(10),
                    ),
                )
            }
        } else {
            None
        }
    }
}

impl DestinationAddress {
    /// Reads a destination address from the frame cursor, as
    /// `spec_parse_destination_address` describes.
    pub fn from_frame(frame: &mut DeconzFrame) -> (r: Option<DestinationAddress>)
        ensures
            final(frame).same_header(*old(frame)),
            match spec_parse_destination_address(old(frame).remaining_bytes()) {
                Some((addr, rest)) => r == Some(addr) && final(frame).remaining_bytes() == rest,
                None => r is None,
            },
    {
        if frame.remaining() < 1 {
            return None;
        }
        let mode = frame.get_u8();
        if mode == 0x01 {
            if frame.remaining() < 2 {
                return None;
            }
            Some(DestinationAddress::GroupAddress(frame.get_u16_le()))
        } else if mode == 0x02 {
            if frame.remaining() < 2 {
                return None;
            }
            Some(DestinationAddress::NetworkAddress(frame.get_u16_le()))
        } else if mode == 0x03 {
            if frame.remaining() < 8 {
                return None;
            }
            Some(DestinationAddress::IEEEAddress(frame.get_u64_le()))
        } else {
            None
        }
    }
}

impl SourceAddress {
    /// Reads a source address from the frame cursor, as
    /// `spec_parse_source_address` describes.
    pub fn from_frame(frame: &mut DeconzFrame) -> (r: Option<SourceAddress>)
        ensures
            final(frame).same_header(*old(frame)),
            match spec_parse_source_address(old(frame).remaining_bytes()) {
                Some((addr, rest)) => r == Some(addr) && final(frame).remaining_bytes() == rest,
                None => r is None,
            },
    {
        if frame.remaining() < 1 {
            return None;
        }
        let mode = frame.get_u8();
        if mode == 0x02 {
            if frame.remaining() < 2 {
                return None;
            }
            Some(SourceAddress::NetworkAddress(frame.get_u16_le()))
        } else if mode == 0x03 {
            if frame.remaining() < 8 {
                return None;
            }
            Some(SourceAddress::IEEEAddress(frame.get_u64_le()))
        } else if mode == 0x04 {
            if frame.remaining() < 10 {
                return None;
            }
            let network_address = frame.get_u16_le();
            let ieee_address = frame.get_u64_le();
            proof {
                let rest = old(frame).remaining_bytes().skip(1);
                assert(rest.skip(2).skip(8) =~= rest.skip(10));
            }
            Some(SourceAddress::Both { network_address, ieee_address })
        } else {
            None
        }
    }
}

} // verus!
