use deconz::frame::DeconzFrame;
use deconz::protocol::network_parameters::{
    APSDesignatedCoordinator, APSExtendedPanId, ChannelMask, CurrentChannel, MacAddress,
    NetworkAddress, NetworkExtendedPanId, NetworkFrameCounter, NetworkKey, NetworkPanId,
    NetworkUpdateId, Parameter, PermitJoin, PredefinedNetworkPanId, ProtocolVersion,
    ReadParameter, ReadParameterResponse, SecurityMode, TrustCenterAddress, WatchdogTtl,
    WriteParameter, WriteParameterResponse,
};
use deconz::protocol::{CommandId, StatusCode};

fn value_frame(body: Vec<u8>) -> DeconzFrame {
    DeconzFrame::incoming(CommandId::ReadParameter, 0, StatusCode::Success, body)
}

fn round_trip<T: Parameter + PartialEq + std::fmt::Debug>(value: T) {
    let mut bytes = Vec::new();
    value.write_frame(&mut bytes);
    let parsed = T::from_frame(value_frame(bytes)).expect("written bytes must parse");
    assert_eq!(parsed, value);
}

#[test]
fn every_parameter_layout_round_trips() {
    round_trip(MacAddress(0x0123456789ABCDEF));
    round_trip(NetworkPanId(0xBEEF));
    round_trip(NetworkAddress(0x0001));
    round_trip(NetworkExtendedPanId(0xFEDCBA9876543210));
    round_trip(APSDesignatedCoordinator::Coordinator);
    round_trip(APSDesignatedCoordinator::Router);
    round_trip(ChannelMask(0x07FFF800));
    round_trip(APSExtendedPanId(0x1122334455667788));
    round_trip(TrustCenterAddress(0x00212EFFFF001122));
    round_trip(SecurityMode::NoSecurity);
    round_trip(SecurityMode::PreconfiguredNetworkKey);
    round_trip(SecurityMode::NetworkKeyFromTrustCenter);
    round_trip(SecurityMode::NoMasterButTrustCenterLinkKey);
    round_trip(PredefinedNetworkPanId::NotPredefined);
    round_trip(PredefinedNetworkPanId::Predefined);
    round_trip(NetworkKey::Key([0x5A; 16]));
    round_trip(CurrentChannel(15));
    round_trip(ProtocolVersion(0x010E));
    round_trip(NetworkUpdateId(3));
    round_trip(WatchdogTtl(85));
    round_trip(NetworkFrameCounter(0xDEADBEEF));
    round_trip(PermitJoin(60));
}

#[test]
fn parameter_wire_bytes_are_little_endian() {
    let mut bytes = Vec::new();
    NetworkPanId(0x1234).write_frame(&mut bytes);
    assert_eq!(bytes, vec![0x34, 0x12]);

    let mut bytes = Vec::new();
    ChannelMask(0x07FFF800).write_frame(&mut bytes);
    assert_eq!(bytes, vec![0x00, 0xF8, 0xFF, 0x07]);

    let mut bytes = Vec::new();
    MacAddress(0x0123456789ABCDEF).write_frame(&mut bytes);
    assert_eq!(bytes, vec![0xEF, 0xCD, 0xAB, 0x89, 0x67, 0x45, 0x23, 0x01]);
}

#[test]
fn unset_network_key_writes_as_zeros_and_reads_back_set() {
    let mut bytes = Vec::new();
    NetworkKey::Unset.write_frame(&mut bytes);
    assert_eq!(bytes, vec![0u8; 16]);
    let parsed = NetworkKey::from_frame(value_frame(bytes)).unwrap();
    assert_eq!(parsed, NetworkKey::Key([0u8; 16]));
}

#[test]
fn empty_network_key_body_reads_as_unset() {
    assert_eq!(
        NetworkKey::from_frame(value_frame(Vec::new())).unwrap(),
        NetworkKey::Unset
    );
    assert!(NetworkKey::from_frame(value_frame(vec![1, 2, 3])).is_none());
}

#[test]
fn empty_watchdog_body_reads_as_zero() {
    assert_eq!(
        WatchdogTtl::from_frame(value_frame(Vec::new())).unwrap(),
        WatchdogTtl(0)
    );
    assert!(WatchdogTtl::from_frame(value_frame(vec![1, 2])).is_none());
}

#[test]
fn unknown_enum_parameter_bytes_are_rejected() {
    assert!(APSDesignatedCoordinator::from_frame(value_frame(vec![0x02])).is_none());
    assert!(SecurityMode::from_frame(value_frame(vec![0x04])).is_none());
    assert!(PredefinedNetworkPanId::from_frame(value_frame(vec![0x02])).is_none());
}

#[test]
fn read_parameter_request_carries_the_identifier() {
    let request = ReadParameter::<MacAddress>::new().into_request();
    assert_eq!(request.command_id(), CommandId::ReadParameter);
    assert_eq!(request.payload_data(), Some(vec![0x01]));

    let request = ReadParameter::<WatchdogTtl>::new().into_request();
    assert_eq!(request.payload_data(), Some(vec![0x26]));
}

#[test]
fn write_parameter_request_carries_identifier_then_value() {
    let request = WriteParameter::new(NetworkPanId(0x1234)).into_request();
    assert_eq!(request.command_id(), CommandId::WriteParameter);
    assert_eq!(request.payload_data(), Some(vec![0x05, 0x34, 0x12]));

    let request = WriteParameter::new(WatchdogTtl(85)).into_request();
    assert_eq!(request.payload_data(), Some(vec![0x26, 0x55, 0x00, 0x00, 0x00]));
}

#[test]
fn read_parameter_response_checks_the_echoed_identifier() {
    // Payload length field, parameter identifier, then the value bytes.
    let body = vec![0x03, 0x00, 0x05, 0x34, 0x12];
    let (response, ds) =
        ReadParameterResponse::<NetworkPanId>::from_frame(value_frame(body)).unwrap();
    assert_eq!(response.into_inner(), NetworkPanId(0x1234));
    assert!(ds.is_none());

    // The same bytes under the wrong parameter identifier are malformed.
    let body = vec![0x03, 0x00, 0x07, 0x34, 0x12];
    assert!(ReadParameterResponse::<NetworkPanId>::from_frame(value_frame(body)).is_none());
}

#[test]
fn write_parameter_response_checks_the_echoed_identifier() {
    let body = vec![0x01, 0x00, 0x05];
    assert!(WriteParameterResponse::<NetworkPanId>::from_frame(value_frame(body)).is_some());
    let body = vec![0x01, 0x00, 0x06];
    assert!(WriteParameterResponse::<NetworkPanId>::from_frame(value_frame(body)).is_none());
}

#[test]
fn parameter_identifiers_match_the_table() {
    assert_eq!(MacAddress::parameter_id(), 0x01);
    assert_eq!(NetworkPanId::parameter_id(), 0x05);
    assert_eq!(NetworkAddress::parameter_id(), 0x07);
    assert_eq!(NetworkExtendedPanId::parameter_id(), 0x08);
    assert_eq!(APSDesignatedCoordinator::parameter_id(), 0x09);
    assert_eq!(ChannelMask::parameter_id(), 0x0A);
    assert_eq!(APSExtendedPanId::parameter_id(), 0x0B);
    assert_eq!(TrustCenterAddress::parameter_id(), 0x0E);
    assert_eq!(SecurityMode::parameter_id(), 0x10);
    assert_eq!(PredefinedNetworkPanId::parameter_id(), 0x15);
    assert_eq!(NetworkKey::parameter_id(), 0x18);
    assert_eq!(CurrentChannel::parameter_id(), 0x1C);
    assert_eq!(PermitJoin::parameter_id(), 0x21);
    assert_eq!(ProtocolVersion::parameter_id(), 0x22);
    assert_eq!(NetworkUpdateId::parameter_id(), 0x24);
    assert_eq!(WatchdogTtl::parameter_id(), 0x26);
    assert_eq!(NetworkFrameCounter::parameter_id(), 0x27);
}
