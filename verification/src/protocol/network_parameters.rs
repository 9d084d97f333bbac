//! The network parameter table: one type per parameter identifier, each with
//! an endian-exact byte layout, plus the generic read and write commands over
//! them.

use core::marker::PhantomData;

use vstd::bytes::{
    spec_u16_from_le_bytes, spec_u16_to_le_bytes, spec_u32_from_le_bytes, spec_u32_to_le_bytes,
    spec_u64_from_le_bytes, spec_u64_to_le_bytes, u16_to_le_bytes, u32_to_le_bytes,
    u64_to_le_bytes,
};
use vstd::prelude::*;

use crate::frame::DeconzFrame;
use crate::protocol::device::DeviceState;
use crate::protocol::CommandId;

verus! {

/// Implemented by every type of this module that stands for a parameter;
/// nothing outside the table is one.
pub trait Sealed {

}

/// A device parameter: it knows its one-byte identifier, how its value is
/// laid out on the wire, and how to read a value back.
pub trait Parameter: Sealed + Sized {
    /// The one-byte parameter identifier.
    spec fn spec_parameter_id() -> u8;

    /// The wire bytes of this value.
    spec fn spec_bytes(self) -> Seq<u8>;

    /// The value read from a response body (the bytes after the parameter
    /// identifier), if it is well formed.  Trailing bytes are ignored.
    spec fn spec_parse(s: Seq<u8>) -> Option<Self>;

    /// Whether reading this value's own wire bytes gives the value back.
    /// It holds of every value but [`NetworkKey::Unset`], which writes as an
    /// all-zero key and reads back as a key that is present.
    spec fn parse_recovers(self) -> bool;

    /// The one-byte parameter identifier.
    fn parameter_id() -> (r: u8)
        ensures
            r == Self::spec_parameter_id(),
    ;

    /// Appends this value's wire bytes to `payload`.
    fn write_frame(&self, payload: &mut Vec<u8>)
        ensures
            final(payload)@ == old(payload)@ + self.spec_bytes(),
    ;

    /// Reads a value from the frame cursor, as `spec_parse` describes.
    fn from_frame(frame: DeconzFrame) -> (r: Option<Self>)
        ensures
            r == Self::spec_parse(frame.remaining_bytes()),
    ;

    /// The declared byte layout round trips: reading back the written bytes
    /// of any value satisfying `parse_recovers` gives the value.
    proof fn lemma_write_parse_round_trip(self)
        requires
            self.parse_recovers(),
        ensures
            Self::spec_parse(self.spec_bytes()) == Some(self),
    ;
}

/// The coordinator's MAC address.
#[derive(Debug, Clone, Copy, PartialEq, Eq, Structural)]
pub struct MacAddress(pub u64);

impl Sealed for MacAddress {

}

impl Parameter for MacAddress {
    open spec fn spec_parameter_id() -> u8 {
        0x01
    }

    open spec fn spec_bytes(self) -> Seq<u8> {
        spec_u64_to_le_bytes(self.0)
    }

    open spec fn spec_parse(s: Seq<u8>) -> Option<MacAddress> {
        if s.len() >= 8 {
            Some(MacAddress(spec_u64_from_le_bytes(s.take(8))))
        } else {
            None
        }
    }

    open spec fn parse_recovers(self) -> bool {
        true
    }

    fn parameter_id() -> u8 {
        0x01
    }

    fn write_frame(&self, payload: &mut Vec<u8>) {
        let mut b = u64_to_le_bytes(self.0);
        payload.append(&mut b);
    }

    fn from_frame(frame: DeconzFrame) -> Option<MacAddress> {
        let mut frame = frame;
        if frame.remaining() < 8 {
            return None;
        }
        Some(MacAddress(frame.get_u64_le()))
    }

    proof fn lemma_write_parse_round_trip(self) {
        vstd::bytes::lemma_auto_spec_u64_to_from_le_bytes();
        assert(self.spec_bytes().take(8) =~= self.spec_bytes());
    }
}

/// The network PAN identifier.
#[derive(Debug, Clone, Copy, PartialEq, Eq, Structural)]
pub struct NetworkPanId(pub u16);

impl Sealed for NetworkPanId {

}

impl Parameter for NetworkPanId {
    open spec fn spec_parameter_id() -> u8 {
        0x05
    }

    open spec fn spec_bytes(self) -> Seq<u8> {
        spec_u16_to_le_bytes(self.0)
    }

    open spec fn spec_parse(s: Seq<u8>) -> Option<NetworkPanId> {
        if s.len() >= 2 {
            Some(NetworkPanId(spec_u16_from_le_bytes(s.take(2))))
        } else {
            None
        }
    }

    open spec fn parse_recovers(self) -> bool {
        true
    }

    fn parameter_id() -> u8 {
        0x05
    }

    fn write_frame(&self, payload: &mut Vec<u8>) {
        let mut b = u16_to_le_bytes(self.0);
        payload.append(&mut b);
    }

    fn from_frame(frame: DeconzFrame) -> Option<NetworkPanId> {
        let mut frame = frame;
        if frame.remaining() < 2 {
            return None;
        }
        Some(NetworkPanId(frame.get_u16_le()))
    }

    proof fn lemma_write_parse_round_trip(self) {
        vstd::bytes::lemma_auto_spec_u16_to_from_le_bytes();
        assert(self.spec_bytes().take(2) =~= self.spec_bytes());
    }
}

/// The coordinator's own short network address.
#[derive(Debug, Clone, Copy, PartialEq, Eq, Structural)]
pub struct NetworkAddress(pub u16);

impl Sealed for NetworkAddress {

}

impl Parameter for NetworkAddress {
    open spec fn spec_parameter_id() -> u8 {
        0x07
    }

    open spec fn spec_bytes(self) -> Seq<u8> {
        spec_u16_to_le_bytes(self.0)
    }

    open spec fn spec_parse(s: Seq<u8>) -> Option<NetworkAddress> {
        if s.len() >= 2 {
            Some(NetworkAddress(spec_u16_from_le_bytes(s.take(2))))
        } else {
            None
        }
    }

    open spec fn parse_recovers(self) -> bool {
        true
    }

    fn parameter_id() -> u8 {
        0x07
    }

    fn write_frame(&self, payload: &mut Vec<u8>) {
        let mut b = u16_to_le_bytes(self.0);
        payload.append(&mut b);
    }

    fn from_frame(frame: DeconzFrame) -> Option<NetworkAddress> {
        let mut frame = frame;
        if frame.remaining() < 2 {
            return None;
        }
        Some(NetworkAddress(frame.get_u16_le()))
    }

    proof fn lemma_write_parse_round_trip(self) {
        vstd::bytes::lemma_auto_spec_u16_to_from_le_bytes();
        assert(self.spec_bytes().take(2) =~= self.spec_bytes());
    }
}

/// The extended (64-bit) network PAN identifier.
#[derive(Debug, Clone, Copy, PartialEq, Eq, Structural)]
pub struct NetworkExtendedPanId(pub u64);

impl Sealed for NetworkExtendedPanId {

}

impl Parameter for NetworkExtendedPanId {
    open spec fn spec_parameter_id() -> u8 {
        0x08
    }

    open spec fn spec_bytes(self) -> Seq<u8> {
        spec_u64_to_le_bytes(self.0)
    }

    open spec fn spec_parse(s: Seq<u8>) -> Option<NetworkExtendedPanId> {
        if s.len() >= 8 {
            Some(NetworkExtendedPanId(spec_u64_from_le_bytes(s.take(8))))
        } else {
            None
        }
    }

    open spec fn parse_recovers(self) -> bool {
        true
    }

    fn parameter_id() -> u8 {
        0x08
    }

    fn write_frame(&self, payload: &mut Vec<u8>) {
        let mut b = u64_to_le_bytes(self.0);
        payload.append(&mut b);
    }

    fn from_frame(frame: DeconzFrame) -> Option<NetworkExtendedPanId> {
        let mut frame = frame;
        if frame.remaining() < 8 {
            return None;
        }
        Some(NetworkExtendedPanId(frame.get_u64_le()))
    }

    proof fn lemma_write_parse_round_trip(self) {
        vstd::bytes::lemma_auto_spec_u64_to_from_le_bytes();
        assert(self.spec_bytes().take(8) =~= self.spec_bytes());
    }
}

/// Whether the stick acts as the network coordinator or as a router.
#[derive(Debug, Clone, Copy, PartialEq, Eq, Structural)]
pub enum APSDesignatedCoordinator {
    Coordinator,
    Router,
}

impl Sealed for APSDesignatedCoordinator {

}

impl Parameter for APSDesignatedCoordinator {
    open spec fn spec_parameter_id() -> u8 {
        0x09
    }

    open spec fn spec_bytes(self) -> Seq<u8> {
        match self {
            APSDesignatedCoordinator::Coordinator => seq![0x01u8],
            APSDesignatedCoordinator::Router => seq![0x00u8],
        }
    }

    open spec fn spec_parse(s: Seq<u8>) -> Option<APSDesignatedCoordinator> {
        if s.len() < 1 {
            None
        } else if s[0] == 0x01 {
            Some(APSDesignatedCoordinator::Coordinator)
        } else if s[0] == 0x00 {
            Some(APSDesignatedCoordinator::Router)
        } else {
            None
        }
    }

    open spec fn parse_recovers(self) -> bool {
        true
    }

    fn parameter_id() -> u8 {
        0x09
    }

    fn write_frame(&self, payload: &mut Vec<u8>) {
        let b: u8 = match self {
            APSDesignatedCoordinator::Coordinator => 0x01,
            APSDesignatedCoordinator::Router => 0x00,
        };
        payload.push(b);
        proof {
            assert(final(payload)@ =~= old(payload)@ + self.spec_bytes());
        }
    }

    fn from_frame(frame: DeconzFrame) -> Option<APSDesignatedCoordinator> {
        let mut frame = frame;
        if frame.remaining() < 1 {
            return None;
        }
        match frame.get_u8() {
            0x01 => Some(APSDesignatedCoordinator::Coordinator),
            0x00 => Some(APSDesignatedCoordinator::Router),
            _ => None,
        }
    }

    proof fn lemma_write_parse_round_trip(self) {
    }
}

/// The channel mask limiting which channels may be used.
#[derive(Debug, Clone, Copy, PartialEq, Eq, Structural)]
pub struct ChannelMask(pub u32);

impl Sealed for ChannelMask {

}

impl Parameter for ChannelMask {
    open spec fn spec_parameter_id() -> u8 {
        0x0A
    }

    open spec fn spec_bytes(self) -> Seq<u8> {
        spec_u32_to_le_bytes(self.0)
    }

    open spec fn spec_parse(s: Seq<u8>) -> Option<ChannelMask> {
        if s.len() >= 4 {
            Some(ChannelMask(spec_u32_from_le_bytes(s.take(4))))
        } else {
            None
        }
    }

    open spec fn parse_recovers(self) -> bool {
        true
    }

    fn parameter_id() -> u8 {
        0x0A
    }

    fn write_frame(&self, payload: &mut Vec<u8>) {
        let mut b = u32_to_le_bytes(self.0);
        payload.append(&mut b);
    }

    fn from_frame(frame: DeconzFrame) -> Option<ChannelMask> {
        let mut frame = frame;
        if frame.remaining() < 4 {
            return None;
        }
        Some(ChannelMask(frame.get_u32_le()))
    }

    proof fn lemma_write_parse_round_trip(self) {
        vstd::bytes::lemma_auto_spec_u32_to_from_le_bytes();
        assert(self.spec_bytes().take(4) =~= self.spec_bytes());
    }
}

/// The extended PAN identifier used by the APS layer.
#[derive(Debug, Clone, Copy, PartialEq, Eq, Structural)]
pub struct APSExtendedPanId(pub u64);

impl Sealed for APSExtendedPanId {

}

impl Parameter for APSExtendedPanId {
    open spec fn spec_parameter_id() -> u8 {
        0x0B
    }

    open spec fn spec_bytes(self) -> Seq<u8> {
        spec_u64_to_le_bytes(self.0)
    }

    open spec fn spec_parse(s: Seq<u8>) -> Option<APSExtendedPanId> {
        if s.len() >= 8 {
            Some(APSExtendedPanId(spec_u64_from_le_bytes(s.take(8))))
        } else {
            None
        }
    }

    open spec fn parse_recovers(self) -> bool {
        true
    }

    fn parameter_id() -> u8 {
        0x0B
    }

    fn write_frame(&self, payload: &mut Vec<u8>) {
        let mut b = u64_to_le_bytes(self.0);
        payload.append(&mut b);
    }

    fn from_frame(frame: DeconzFrame) -> Option<APSExtendedPanId> {
        let mut frame = frame;
        if frame.remaining() < 8 {
            return None;
        }
        Some(APSExtendedPanId(frame.get_u64_le()))
    }

    proof fn lemma_write_parse_round_trip(self) {
        vstd::bytes::lemma_auto_spec_u64_to_from_le_bytes();
        assert(self.spec_bytes().take(8) =~= self.spec_bytes());
    }
}

/// The trust center's address.
#[derive(Debug, Clone, Copy, PartialEq, Eq, Structural)]
pub struct TrustCenterAddress(pub u64);

impl Sealed for TrustCenterAddress {

}

impl Parameter for TrustCenterAddress {
    open spec fn spec_parameter_id() -> u8 {
        0x0E
    }

    open spec fn spec_bytes(self) -> Seq<u8> {
        spec_u64_to_le_bytes(self.0)
    }

    open spec fn spec_parse(s: Seq<u8>) -> Option<TrustCenterAddress> {
        if s.len() >= 8 {
            Some(TrustCenterAddress(spec_u64_from_le_bytes(s.take(8))))
        } else {
            None
        }
    }

    open spec fn parse_recovers(self) -> bool {
        true
    }

    fn parameter_id() -> u8 {
        0x0E
    }

    fn write_frame(&self, payload: &mut Vec<u8>) {
        let mut b = u64_to_le_bytes(self.0);
        payload.append(&mut b);
    }

    fn from_frame(frame: DeconzFrame) -> Option<TrustCenterAddress> {
        let mut frame = frame;
        if frame.remaining() < 8 {
            return None;
        }
        Some(TrustCenterAddress(frame.get_u64_le()))
    }

    proof fn lemma_write_parse_round_trip(self) {
        vstd::bytes::lemma_auto_spec_u64_to_from_le_bytes();
        assert(self.spec_bytes().take(8) =~= self.spec_bytes());
    }
}

/// How the network is secured.
#[derive(Debug, Clone, Copy, PartialEq, Eq, Structural)]
pub enum SecurityMode {
    NoSecurity,
    PreconfiguredNetworkKey,
    NetworkKeyFromTrustCenter,
    NoMasterButTrustCenterLinkKey,
}

impl Sealed for SecurityMode {

}

impl SecurityMode {
    /// The wire byte for this mode.
    pub open spec fn spec_u8(self) -> u8 {
        match self {
            SecurityMode::NoSecurity => 0x00,
            SecurityMode::PreconfiguredNetworkKey => 0x01,
            SecurityMode::NetworkKeyFromTrustCenter => 0x02,
            SecurityMode::NoMasterButTrustCenterLinkKey => 0x03,
        }
    }
}

impl Parameter for SecurityMode {
    open spec fn spec_parameter_id() -> u8 {
        0x10
    }

    open spec fn spec_bytes(self) -> Seq<u8> {
        seq![self.spec_u8()]
    }

    open spec fn spec_parse(s: Seq<u8>) -> Option<SecurityMode> {
        if s.len() < 1 {
            None
        } else if s[0] == 0x00 {
            Some(SecurityMode::NoSecurity)
        } else if s[0] == 0x01 {
            Some(SecurityMode::PreconfiguredNetworkKey)
        } else if s[0] == 0x02 {
            Some(SecurityMode::NetworkKeyFromTrustCenter)
        } else if s[0] == 0x03 {
            Some(SecurityMode::NoMasterButTrustCenterLinkKey)
        } else {
            None
        }
    }

    open spec fn parse_recovers(self) -> bool {
        true
    }

    fn parameter_id() -> u8 {
        0x10
    }

    fn write_frame(&self, payload: &mut Vec<u8>) {
        let b: u8 = match self {
            SecurityMode::NoSecurity => 0x00,
            SecurityMode::PreconfiguredNetworkKey => 0x01,
            SecurityMode::NetworkKeyFromTrustCenter => 0x02,
            SecurityMode::NoMasterButTrustCenterLinkKey => 0x03,
        };
        payload.push(b);
        proof {
            assert(final(payload)@ =~= old(payload)@ + self.spec_bytes());
        }
    }

    fn from_frame(frame: DeconzFrame) -> Option<SecurityMode> {
        let mut frame = frame;
        if frame.remaining() < 1 {
            return None;
        }
        match frame.get_u8() {
            0x00 => Some(SecurityMode::NoSecurity),
            0x01 => Some(SecurityMode::PreconfiguredNetworkKey),
            0x02 => Some(SecurityMode::NetworkKeyFromTrustCenter),
            0x03 => Some(SecurityMode::NoMasterButTrustCenterLinkKey),
            _ => None,
        }
    }

    proof fn lemma_write_parse_round_trip(self) {
    }
}

/// Whether the PAN identifier is fixed in advance or chosen dynamically.
#[derive(Debug, Clone, Copy, PartialEq, Eq, Structural)]
pub enum PredefinedNetworkPanId {
    /// The PAN identifier is selected or obtained dynamically.
    NotPredefined,
    /// The configured PAN identifier is used to join or form a network.
    Predefined,
}

impl Sealed for PredefinedNetworkPanId {

}

impl Parameter for PredefinedNetworkPanId {
    open spec fn spec_parameter_id() -> u8 {
        0x15
    }

    open spec fn spec_bytes(self) -> Seq<u8> {
        match self {
            PredefinedNetworkPanId::NotPredefined => seq![0x00u8],
            PredefinedNetworkPanId::Predefined => seq![0x01u8],
        }
    }

    open spec fn spec_parse(s: Seq<u8>) -> Option<PredefinedNetworkPanId> {
        if s.len() < 1 {
            None
        } else if s[0] == 0x00 {
            Some(PredefinedNetworkPanId::NotPredefined)
        } else if s[0] == 0x01 {
            Some(PredefinedNetworkPanId::Predefined)
        } else {
            None
        }
    }

    open spec fn parse_recovers(self) -> bool {
        true
    }

    fn parameter_id() -> u8 {
        0x15
    }

    fn write_frame(&self, payload: &mut Vec<u8>) {
        let b: u8 = match self {
            PredefinedNetworkPanId::NotPredefined => 0x00,
            PredefinedNetworkPanId::Predefined => 0x01,
        };
        payload.push(b);
        proof {
            assert(final(payload)@ =~= old(payload)@ + self.spec_bytes());
        }
    }

    fn from_frame(frame: DeconzFrame) -> Option<PredefinedNetworkPanId> {
        let mut frame = frame;
        if frame.remaining() < 1 {
            return None;
        }
        match frame.get_u8() {
            0x00 => Some(PredefinedNetworkPanId::NotPredefined),
            0x01 => Some(PredefinedNetworkPanId::Predefined),
            _ => None,
        }
    }

    proof fn lemma_write_parse_round_trip(self) {
    }
}

/// The 128-bit network key; an empty response body means no key is set.
#[derive(Debug, Clone, Copy, PartialEq, Eq)]
pub enum NetworkKey {
    Unset,
    Key([u8; 16]),
}

impl Sealed for NetworkKey {

}

impl Parameter for NetworkKey {
    open spec fn spec_parameter_id() -> u8 {
        0x18
    }

    open spec fn spec_bytes(self) -> Seq<u8> {
        match self {
            NetworkKey::Unset => Seq::new(16, |i: int| 0u8),
            NetworkKey::Key(key) => key@,
        }
    }

    open spec fn spec_parse(s: Seq<u8>) -> Option<NetworkKey> {
        if s.len() == 0 {
            Some(NetworkKey::Unset)
        } else if s.len() >= 16 {
            Some(NetworkKey::Key(choose|key: [u8; 16]| key@ == s.take(16)))
        } else {
            None
        }
    }

    open spec fn parse_recovers(self) -> bool {
        self is Key
    }

    fn parameter_id() -> u8 {
        0x18
    }

    fn write_frame(&self, payload: &mut Vec<u8>) {
        let key: [u8; 16] = match self {
            NetworkKey::Unset => [0u8; 16],
            NetworkKey::Key(key) => *key,
        };
        payload.extend_from_slice(key.as_slice());
        proof {
            match self {
                NetworkKey::Unset => {
                    assert(key@ =~= self.spec_bytes());
                },
                NetworkKey::Key(_) => {},
            }
            assert(final(payload)@ =~= old(payload)@ + self.spec_bytes());
        }
    }

    fn from_frame(frame: DeconzFrame) -> Option<NetworkKey> {
        let ghost s = frame.remaining_bytes();
        let mut frame = frame;
        let n = frame.remaining();
        if n == 0 {
            return Some(NetworkKey::Unset);
        }
        if n < 16 {
            return None;
        }
        let bytes = frame.read_bytes(16);
        let key: [u8; 16] = [
            bytes[0],
            bytes[1],
            bytes[2],
            bytes[3],
            bytes[4],
            bytes[5],
            bytes[6],
            bytes[7],
            bytes[8],
            bytes[9],
            bytes[10],
            bytes[11],
            bytes[12],
            bytes[13],
            bytes[14],
            bytes[15],
        ];
        proof {
            broadcast use vstd::array::axiom_array_ext_equal;

            assert(key@ =~= s.take(16));
            let chosen = choose|k: [u8; 16]| k@ == s.take(16);
            assert(chosen@ == key@);
            assert(chosen =~= key);
        }
        Some(NetworkKey::Key(key))
    }

    proof fn lemma_write_parse_round_trip(self) {
        broadcast use vstd::array::axiom_array_ext_equal;

        match self {
            NetworkKey::Unset => {},
            NetworkKey::Key(key) => {
                assert(key@.len() == 16);
                assert(self.spec_bytes().take(16) =~= key@);
                let chosen = choose|k: [u8; 16]| k@ == self.spec_bytes().take(16);
                assert(chosen@ == key@);
                assert(chosen =~= key);
            },
        }
    }
}

/// The channel the network currently operates on.
#[derive(Debug, Clone, Copy, PartialEq, Eq, Structural)]
pub struct CurrentChannel(pub u8);

impl Sealed for CurrentChannel {

}

impl Parameter for CurrentChannel {
    open spec fn spec_parameter_id() -> u8 {
        0x1C
    }

    open spec fn spec_bytes(self) -> Seq<u8> {
        seq![self.0]
    }

    open spec fn spec_parse(s: Seq<u8>) -> Option<CurrentChannel> {
        if s.len() >= 1 {
            Some(CurrentChannel(s[0]))
        } else {
            None
        }
    }

    open spec fn parse_recovers(self) -> bool {
        true
    }

    fn parameter_id() -> u8 {
        0x1C
    }

    fn write_frame(&self, payload: &mut Vec<u8>) {
        payload.push(self.0);
        proof {
            assert(final(payload)@ =~= old(payload)@ + self.spec_bytes());
        }
    }

    fn from_frame(frame: DeconzFrame) -> Option<CurrentChannel> {
        let mut frame = frame;
        if frame.remaining() < 1 {
            return None;
        }
        Some(CurrentChannel(frame.get_u8()))
    }

    proof fn lemma_write_parse_round_trip(self) {
    }
}

/// The serial protocol version the firmware speaks.
#[derive(Debug, Clone, Copy, PartialEq, Eq, Structural)]
pub struct ProtocolVersion(pub u16);

impl Sealed for ProtocolVersion {

}

impl Parameter for ProtocolVersion {
    open spec fn spec_parameter_id() -> u8 {
        0x22
    }

    open spec fn spec_bytes(self) -> Seq<u8> {
        spec_u16_to_le_bytes(self.0)
    }

    open spec fn spec_parse(s: Seq<u8>) -> Option<ProtocolVersion> {
        if s.len() >= 2 {
            Some(ProtocolVersion(spec_u16_from_le_bytes(s.take(2))))
        } else {
            None
        }
    }

    open spec fn parse_recovers(self) -> bool {
        true
    }

    fn parameter_id() -> u8 {
        0x22
    }

    fn write_frame(&self, payload: &mut Vec<u8>) {
        let mut b = u16_to_le_bytes(self.0);
        payload.append(&mut b);
    }

    fn from_frame(frame: DeconzFrame) -> Option<ProtocolVersion> {
        let mut frame = frame;
        if frame.remaining() < 2 {
            return None;
        }
        Some(ProtocolVersion(frame.get_u16_le()))
    }

    proof fn lemma_write_parse_round_trip(self) {
        vstd::bytes::lemma_auto_spec_u16_to_from_le_bytes();
        assert(self.spec_bytes().take(2) =~= self.spec_bytes());
    }
}

/// The network update identifier.
#[derive(Debug, Clone, Copy, PartialEq, Eq, Structural)]
pub struct NetworkUpdateId(pub u8);

impl Sealed for NetworkUpdateId {

}

impl Parameter for NetworkUpdateId {
    open spec fn spec_parameter_id() -> u8 {
        0x24
    }

    open spec fn spec_bytes(self) -> Seq<u8> {
        seq![self.0]
    }

    open spec fn spec_parse(s: Seq<u8>) -> Option<NetworkUpdateId> {
        if s.len() >= 1 {
            Some(NetworkUpdateId(s[0]))
        } else {
            None
        }
    }

    open spec fn parse_recovers(self) -> bool {
        true
    }

    fn parameter_id() -> u8 {
        0x24
    }

    fn write_frame(&self, payload: &mut Vec<u8>) {
        payload.push(self.0);
        proof {
            assert(final(payload)@ =~= old(payload)@ + self.spec_bytes());
        }
    }

    fn from_frame(frame: DeconzFrame) -> Option<NetworkUpdateId> {
        let mut frame = frame;
        if frame.remaining() < 1 {
            return None;
        }
        Some(NetworkUpdateId(frame.get_u8()))
    }

    proof fn lemma_write_parse_round_trip(self) {
    }
}

/// How long, in seconds, the firmware watchdog waits before a restart.  An
/// empty response body reads as zero.
#[derive(Debug, Clone, Copy, PartialEq, Eq, Structural)]
pub struct WatchdogTtl(pub u32);

impl Sealed for WatchdogTtl {

}

impl Parameter for WatchdogTtl {
    open spec fn spec_parameter_id() -> u8 {
        0x26
    }

    open spec fn spec_bytes(self) -> Seq<u8> {
        spec_u32_to_le_bytes(self.0)
    }

    open spec fn spec_parse(s: Seq<u8>) -> Option<WatchdogTtl> {
        if s.len() == 0 {
            Some(WatchdogTtl(0))
        } else if s.len() >= 4 {
            Some(WatchdogTtl(spec_u32_from_le_bytes(s.take(4))))
        } else {
            None
        }
    }

    open spec fn parse_recovers(self) -> bool {
        true
    }

    fn parameter_id() -> u8 {
        0x26
    }

    fn write_frame(&self, payload: &mut Vec<u8>) {
        let mut b = u32_to_le_bytes(self.0);
        payload.append(&mut b);
    }

    fn from_frame(frame: DeconzFrame) -> Option<WatchdogTtl> {
        let mut frame = frame;
        if frame.remaining() == 0 {
            return Some(WatchdogTtl(0));
        }
        if frame.remaining() < 4 {
            return None;
        }
        Some(WatchdogTtl(frame.get_u32_le()))
    }

    proof fn lemma_write_parse_round_trip(self) {
        vstd::bytes::lemma_auto_spec_u32_to_from_le_bytes();
        assert(self.spec_bytes().take(4) =~= self.spec_bytes());
    }
}

/// The outgoing network frame counter.
#[derive(Debug, Clone, Copy, PartialEq, Eq, Structural)]
pub struct NetworkFrameCounter(pub u32);

impl Sealed for NetworkFrameCounter {

}

impl Parameter for NetworkFrameCounter {
    open spec fn spec_parameter_id() -> u8 {
        0x27
    }

    open spec fn spec_bytes(self) -> Seq<u8> {
        spec_u32_to_le_bytes(self.0)
    }

    open spec fn spec_parse(s: Seq<u8>) -> Option<NetworkFrameCounter> {
        if s.len() >= 4 {
            Some(NetworkFrameCounter(spec_u32_from_le_bytes(s.take(4))))
        } else {
            None
        }
    }

    open spec fn parse_recovers(self) -> bool {
        true
    }

    fn parameter_id() -> u8 {
        0x27
    }

    fn write_frame(&self, payload: &mut Vec<u8>) {
        let mut b = u32_to_le_bytes(self.0);
        payload.append(&mut b);
    }

    fn from_frame(frame: DeconzFrame) -> Option<NetworkFrameCounter> {
        let mut frame = frame;
        if frame.remaining() < 4 {
            return None;
        }
        Some(NetworkFrameCounter(frame.get_u32_le()))
    }

    proof fn lemma_write_parse_round_trip(self) {
        vstd::bytes::lemma_auto_spec_u32_to_from_le_bytes();
        assert(self.spec_bytes().take(4) =~= self.spec_bytes());
    }
}

/// For how many seconds the network accepts joining devices.
#[derive(Debug, Clone, Copy, PartialEq, Eq, Structural)]
pub struct PermitJoin(pub u8);

impl Sealed for PermitJoin {

}

impl Parameter for PermitJoin {
    open spec fn spec_parameter_id() -> u8 {
        0x21
    }

    open spec fn spec_bytes(self) -> Seq<u8> {
        seq![self.0]
    }

    open spec fn spec_parse(s: Seq<u8>) -> Option<PermitJoin> {
        if s.len() >= 1 {
            Some(PermitJoin(s[0]))
        } else {
            None
        }
    }

    open spec fn parse_recovers(self) -> bool {
        true
    }

    fn parameter_id() -> u8 {
        0x21
    }

    fn write_frame(&self, payload: &mut Vec<u8>) {
        payload.push(self.0);
        proof {
            assert(final(payload)@ =~= old(payload)@ + self.spec_bytes());
        }
    }

    fn from_frame(frame: DeconzFrame) -> Option<PermitJoin> {
        let mut frame = frame;
        if frame.remaining() < 1 {
            return None;
        }
        Some(PermitJoin(frame.get_u8()))
    }

    proof fn lemma_write_parse_round_trip(self) {
    }
}

/// Command to read the parameter `T`.
pub struct ReadParameter<T: Parameter> {
    _phantom: PhantomData<T>,
}

/// The outgoing request of [`ReadParameter`].
pub struct ReadParameterRequest<T: Parameter> {
    _phantom: PhantomData<T>,
}

/// The parsed response of [`ReadParameter`]: the parameter value.
pub struct ReadParameterResponse<T: Parameter> {
    pub value: T,
}

impl<T: Parameter> ReadParameter<T> {
    pub fn new() -> (r: ReadParameter<T>) {
        ReadParameter { _phantom: PhantomData }
    }

    /// The request this command sends.
    pub fn into_request(self) -> (r: ReadParameterRequest<T>) {
        ReadParameterRequest { _phantom: PhantomData }
    }
}

impl<T: Parameter> ReadParameterRequest<T> {
    /// The command identifier of this request.
    pub fn command_id(&self) -> (r: CommandId)
        ensures
            r == CommandId::ReadParameter,
    {
        CommandId::ReadParameter
    }

    /// The request body: the parameter identifier alone.
    pub fn payload_data(&self) -> (r: Option<Vec<u8>>)
        ensures
            r matches Some(p) && p@ == seq![T::spec_parameter_id()],
    {
        let mut payload: Vec<u8> = Vec::new();
        payload.push(T::parameter_id());
        proof {
            assert(payload@ =~= seq![T::spec_parameter_id()]);
        }
        Some(payload)
    }
}

impl<T: Parameter> ReadParameterResponse<T> {
    /// Parses a read-parameter response body: a payload length field, the
    /// echoed parameter identifier (anything else is malformed), and the
    /// value in the parameter's own layout.  No device-state byte is
    /// carried.
    pub fn from_frame(frame: DeconzFrame) -> (r: Option<
        (ReadParameterResponse<T>, Option<DeviceState>),
    >)
        ensures
            ({
                let s = frame.remaining_bytes();
                &&& r is Some <==> (s.len() >= 3 && s[2] == T::spec_parameter_id()
                    && T::spec_parse(s.skip(3)) is Some)
                &&& (r matches Some((resp, ds)) ==> resp.value == T::spec_parse(
                    s.skip(3),
                ).unwrap() && ds is None)
            }),
    {
        let ghost s = frame.remaining_bytes();
        let mut frame = frame;
        if frame.remaining() < 3 {
            return None;
        }
        let _payload_length = frame.get_u16_le();
        let parameter_id = frame.get_u8();
        proof {
            assert(s.skip(2)[0] == s[2]);
            assert(s.skip(2).skip(1) =~= s.skip(3));
        }
        if parameter_id != T::parameter_id() {
            return None;
        }
        let value = match T::from_frame(frame) {
            Some(v) => v,
            None => {
                return None;
            },
        };
        Some((ReadParameterResponse { value }, None))
    }

    /// The parameter value this response carries.
    pub fn into_inner(self) -> (r: T)
        ensures
            r == self.value,
    {
        self.value
    }
}

/// Command to write the parameter `T`.
pub struct WriteParameter<T: Parameter> {
    value: T,
}

/// The outgoing request of [`WriteParameter`].
pub struct WriteParameterRequest<T: Parameter> {
    pub value: T,
}

/// The parsed response of [`WriteParameter`]; it carries nothing.
pub struct WriteParameterResponse<T: Parameter> {
    _phantom: PhantomData<T>,
}

impl<T: Parameter> WriteParameter<T> {
    pub fn new(value: T) -> (r: WriteParameter<T>)
        ensures
            r.spec_value() == value,
    {
        WriteParameter { value }
    }

    /// The value this command writes.
    pub closed spec fn spec_value(self) -> T {
        self.value
    }

    /// The request this command sends.
    pub fn into_request(self) -> (r: WriteParameterRequest<T>)
        ensures
            r.value == self.spec_value(),
    {
        WriteParameterRequest { value: self.value }
    }
}

impl<T: Parameter> WriteParameterRequest<T> {
    /// The command identifier of this request.
    pub fn command_id(&self) -> (r: CommandId)
        ensures
            r == CommandId::WriteParameter,
    {
        CommandId::WriteParameter
    }

    /// The request body: the parameter identifier followed by the value's
    /// wire bytes.
    pub fn payload_data(&self) -> (r: Option<Vec<u8>>)
        ensures
            r matches Some(p) && p@ == seq![T::spec_parameter_id()] + self.value.spec_bytes(),
    {
        let mut payload: Vec<u8> = Vec::new();
        payload.push(T::parameter_id());
        proof {
            assert(payload@ =~= seq![T::spec_parameter_id()]);
        }
        self.value.write_frame(&mut payload);
        Some(payload)
    }
}

impl<T: Parameter> WriteParameterResponse<T> {
    /// Parses a write-parameter response body: a payload length field and
    /// the echoed parameter identifier (anything else is malformed).  No
    /// device-state byte is carried.
    pub fn from_frame(frame: DeconzFrame) -> (r: Option<
        (WriteParameterResponse<T>, Option<DeviceState>),
    >)
        ensures
            ({
                let s = frame.remaining_bytes();
                &&& r is Some <==> (s.len() >= 3 && s[2] == T::spec_parameter_id())
                &&& (r matches Some((resp, ds)) ==> ds is None)
            }),
    {
        let ghost s = frame.remaining_bytes();
        let mut frame = frame;
        if frame.remaining() < 3 {
            return None;
        }
        let _payload_length = frame.get_u16_le();
        let parameter_id = frame.get_u8();
        proof {
            assert(s.skip(2)[0] == s[2]);
        }
        if parameter_id != T::parameter_id() {
            return None;
        }
        Some((WriteParameterResponse { _phantom: PhantomData }, None))
    }
}

} // verus!
