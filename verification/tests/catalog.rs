use deconz::frame::DeconzFrame;
use deconz::protocol::aps::{
    APSFramePayload, DestinationAddress, ReadConfirmData, ReadConfirmDataRequest,
    ReadConfirmDataResponse, ReadReceivedData, ReadReceivedDataRequest, ReadReceivedDataResponse,
    SendData, SendDataOptions, SendDataResponse, SourceAddress,
};
use deconz::protocol::device::{
    ChangeNetworkState, DeviceState, FirmwareVersionPlatform, ReadDeviceState,
    ReadDeviceStateRequest, ReadDeviceStateResponse, ReadFirmwareVersion,
    ReadFirmwareVersionRequest, ReadFirmwareVersionResponse,
};
use deconz::protocol::{CommandId, NetworkState, StatusCode};

fn body_frame(command_id: CommandId, body: Vec<u8>) -> DeconzFrame {
    DeconzFrame::incoming(command_id, 0, StatusCode::Success, body)
}

#[test]
fn device_state_bits_decode() {
    let ds = DeviceState::from_flags(0x22);
    assert_eq!(ds.network_state, NetworkState::NetConnected);
    assert!(!ds.apsde_data_confirm);
    assert!(!ds.apsde_data_indication);
    assert!(!ds.configuration_changed);
    assert!(ds.apsde_data_request_free_slots);

    let ds = DeviceState::from_flags(0x1D);
    assert_eq!(ds.network_state, NetworkState::NetJoining);
    assert!(ds.apsde_data_confirm);
    assert!(ds.apsde_data_indication);
    assert!(ds.configuration_changed);
    assert!(!ds.apsde_data_request_free_slots);
}

#[test]
fn firmware_version_request_and_response() {
    let request = ReadFirmwareVersion::new().into_request();
    assert_eq!(request.command_id(), CommandId::Version);
    assert_eq!(request.payload_data(), Some(vec![0x00, 0x00]));

    let frame = body_frame(CommandId::Version, vec![0x00, 0x07, 0x05, 0x02]);
    let (response, ds) = ReadFirmwareVersionResponse::from_frame(frame).unwrap();
    assert_eq!(response.platform, FirmwareVersionPlatform::ArmR21);
    assert_eq!(response.minor_version, 0x05);
    assert_eq!(response.major_version, 0x02);
    assert!(ds.is_none());

    let short = body_frame(CommandId::Version, vec![0x00, 0x07]);
    assert!(ReadFirmwareVersionResponse::from_frame(short).is_none());
}

#[test]
fn firmware_platform_bytes() {
    assert_eq!(FirmwareVersionPlatform::from_u8(0x05), FirmwareVersionPlatform::Avr);
    assert_eq!(FirmwareVersionPlatform::from_u8(0x07), FirmwareVersionPlatform::ArmR21);
    assert_eq!(
        FirmwareVersionPlatform::from_u8(0x42),
        FirmwareVersionPlatform::Unknown(0x42)
    );
}

#[test]
fn device_state_request_and_response() {
    let request = ReadDeviceState::new().into_request();
    assert_eq!(request.command_id(), CommandId::DeviceState);
    assert_eq!(request.payload_data(), Some(vec![0x00, 0x00, 0x00]));
    assert_eq!(
        ReadDeviceStateRequest.payload_data(),
        Some(vec![0x00, 0x00, 0x00])
    );

    let frame = body_frame(CommandId::DeviceState, vec![0x22]);
    let (response, ds) = ReadDeviceStateResponse::from_frame(frame).unwrap();
    assert_eq!(response.device_state.network_state, NetworkState::NetConnected);
    assert_eq!(ds.unwrap(), response.device_state);
}

#[test]
fn change_network_state_payload() {
    let request = ChangeNetworkState::new(NetworkState::NetOffline).into_request();
    assert_eq!(request.command_id(), CommandId::ChangeNetworkState);
    assert_eq!(request.payload_data(), Some(vec![0x00]));

    let request = ChangeNetworkState::new(NetworkState::NetConnected).into_request();
    assert_eq!(request.payload_data(), Some(vec![0x02]));
}

#[test]
fn indication_read_request_has_flag_byte() {
    let request = ReadReceivedData::new().into_request();
    assert_eq!(request.command_id(), CommandId::ApsDataIndication);
    assert_eq!(request.payload_data(), Some(vec![0x04]));
    assert_eq!(ReadReceivedDataRequest.payload_data(), Some(vec![0x04]));
}

#[test]
fn confirm_read_request_has_explicit_empty_body() {
    let request = ReadConfirmData::new().into_request();
    assert_eq!(request.command_id(), CommandId::ApsDataConfirm);
    assert_eq!(request.payload_data(), Some(Vec::new()));
    assert_eq!(ReadConfirmDataRequest.payload_data(), Some(Vec::new()));
}

fn sample_indication_body() -> Vec<u8> {
    let mut body = vec![0x00, 0x00]; // payload length field (unused)
    body.push(0x22); // device state: connected, free slots
    body.push(0x02); // destination: network address
    body.extend_from_slice(&[0x34, 0x12]);
    body.push(0x01); // destination endpoint
    body.push(0x04); // source: network and IEEE address
    body.extend_from_slice(&[0xBB, 0xAA]);
    body.extend_from_slice(&[0x08, 0x07, 0x06, 0x05, 0x04, 0x03, 0x02, 0x01]);
    body.push(0x02); // source endpoint
    body.extend_from_slice(&[0x04, 0x01]); // profile
    body.extend_from_slice(&[0x06, 0x00]); // cluster
    body.extend_from_slice(&[0x03, 0x00]); // payload length
    body.extend_from_slice(&[0x09, 0x08, 0x07]); // payload
    body.extend_from_slice(&[0x00, 0x00]); // reserved
    body.push(200); // link quality
    body.extend_from_slice(&[0x00, 0x00, 0x00, 0x00]); // reserved
    body.push(0xD8); // signal strength: -40 dBm
    body
}

#[test]
fn indication_response_parses_every_field() {
    let frame = body_frame(CommandId::ApsDataIndication, sample_indication_body());
    let (response, ds) = ReadReceivedDataResponse::from_frame(frame).unwrap();
    assert_eq!(
        response.destination_address,
        DestinationAddress::NetworkAddress(0x1234)
    );
    assert_eq!(response.destination_endpoint, 0x01);
    assert_eq!(
        response.source_address,
        SourceAddress::Both {
            network_address: 0xAABB,
            ieee_address: 0x0102030405060708,
        }
    );
    assert_eq!(response.source_endpoint, 0x02);
    assert_eq!(response.profile_id, 0x0104);
    assert_eq!(response.cluster_id, 0x0006);
    assert_eq!(response.application_specific_data_unit, vec![0x09, 0x08, 0x07]);
    assert_eq!(response.link_quality_indication, 200);
    assert_eq!(response.received_signal_strength_indication, -40);
    assert!(response.device_state.apsde_data_request_free_slots);
    assert_eq!(ds.unwrap(), response.device_state);
}

#[test]
fn indication_response_rejects_bad_address_mode() {
    let mut body = sample_indication_body();
    body[3] = 0x07; // no such destination mode
    let frame = body_frame(CommandId::ApsDataIndication, body);
    assert!(ReadReceivedDataResponse::from_frame(frame).is_none());
}

#[test]
fn confirm_response_with_network_destination() {
    let body = vec![
        0x00, 0x00, // payload length field
        0x22, // device state
        0x07, // request id
        0x02, 0x34, 0x12, // network destination
        0x05, // destination endpoint
        0x01, // source endpoint
        0x00, // confirm status
    ];
    let frame = body_frame(CommandId::ApsDataConfirm, body);
    let (response, ds) = ReadConfirmDataResponse::from_frame(frame).unwrap();
    assert_eq!(response.request_id, 0x07);
    assert_eq!(
        response.destination_address,
        DestinationAddress::NetworkAddress(0x1234)
    );
    assert_eq!(response.destination_endpoint, Some(0x05));
    assert_eq!(response.source_endpoint, 0x01);
    assert_eq!(response.confirm_status, 0x00);
    assert_eq!(ds.unwrap(), response.device_state);
}

#[test]
fn confirm_response_with_group_destination_has_no_endpoint() {
    let body = vec![
        0x00, 0x00, 0x22, 0x09, 0x01, 0xCD, 0xAB, // group destination
        0x03, // source endpoint
        0x05, // confirm status
    ];
    let frame = body_frame(CommandId::ApsDataConfirm, body);
    let (response, _) = ReadConfirmDataResponse::from_frame(frame).unwrap();
    assert_eq!(
        response.destination_address,
        DestinationAddress::GroupAddress(0xABCD)
    );
    assert_eq!(response.destination_endpoint, None);
    assert_eq!(response.source_endpoint, 0x03);
    assert_eq!(response.confirm_status, 0x05);
}

#[test]
fn aps_frame_payload_rejects_oversized_bodies() {
    assert!(APSFramePayload::from_vec(vec![0u8; 128]).is_err());
    assert!(APSFramePayload::from_vec(vec![0u8; 127]).is_ok());
}

#[test]
fn send_data_request_payload_layout() {
    let command = SendData {
        destination_address: DestinationAddress::NetworkAddress(0x1234),
        destination_endpoint: 0x05,
        profile_id: 0x0104,
        cluster_id: 0x0006,
        source_endpoint: 0x01,
        payload: APSFramePayload::from_vec(vec![0x01, 0x02, 0x03]).unwrap(),
        options: SendDataOptions::default(),
        radius: None,
    };
    let request = command.into_request();
    assert_eq!(request.command_id(), CommandId::ApsDataRequest);
    assert_eq!(
        request.payload_data(),
        Some(vec![
            0x00, // request id
            0x00, // flags
            0x02, 0x34, 0x12, 0x05, // destination and endpoint
            0x04, 0x01, // profile
            0x06, 0x00, // cluster
            0x01, // source endpoint
            0x03, 0x00, 0x01, 0x02, 0x03, // payload
            0x00, // no acknowledgements requested
            0x00, // unlimited radius
        ])
    );
}

#[test]
fn send_data_request_group_and_options() {
    let command = SendData {
        destination_address: DestinationAddress::GroupAddress(0xABCD),
        destination_endpoint: 0x05,
        profile_id: 0,
        cluster_id: 0,
        source_endpoint: 0,
        payload: APSFramePayload::from_vec(Vec::new()).unwrap(),
        options: SendDataOptions { use_aps_acks: true },
        radius: Some(9),
    };
    let payload = command.into_request().payload_data().unwrap();
    assert_eq!(
        payload,
        vec![0x00, 0x00, 0x01, 0xCD, 0xAB, 0x00, 0x00, 0x00, 0x00, 0x00, 0x00, 0x00, 0x04, 0x09]
    );
}

#[test]
fn send_data_response_carries_request_id() {
    let frame = body_frame(CommandId::ApsDataRequest, vec![0x00, 0x00, 0x22, 0x2A]);
    let (response, ds) = SendDataResponse::from_frame(frame).unwrap();
    assert_eq!(response, SendDataResponse { request_id: 0x2A });
    assert!(ds.unwrap().apsde_data_request_free_slots);
}

#[test]
fn command_id_bytes_round_trip() {
    let all = [
        (CommandId::ApsDataConfirm, 0x04),
        (CommandId::DeviceState, 0x07),
        (CommandId::ChangeNetworkState, 0x08),
        (CommandId::ReadParameter, 0x0A),
        (CommandId::WriteParameter, 0x0B),
        (CommandId::Version, 0x0D),
        (CommandId::DeviceStateChanged, 0x0E),
        (CommandId::ApsDataRequest, 0x12),
        (CommandId::ApsDataIndication, 0x17),
        (CommandId::MacPollIndication, 0x1C),
        (CommandId::MacBeaconIndication, 0x1F),
        (CommandId::UpdateBootloader, 0x21),
    ];
    for (command, byte) in all {
        assert_eq!(command.as_u8(), byte);
        assert_eq!(CommandId::try_from_u8(byte), Ok(command));
    }
    assert!(CommandId::try_from_u8(0x99).is_err());
}

#[test]
fn status_code_bytes_round_trip() {
    for byte in 0x00..=0x07u8 {
        let status = StatusCode::try_from_u8(byte).unwrap();
        assert_eq!(status.as_u8(), byte);
    }
    assert!(StatusCode::try_from_u8(0x08).is_err());
}

#[test]
fn network_state_bytes_round_trip() {
    for byte in 0x00..=0x03u8 {
        let state = NetworkState::try_from_u8(byte).unwrap();
        assert_eq!(state.as_u8(), byte);
    }
    assert!(NetworkState::try_from_u8(0x04).is_err());
    assert!(NetworkState::NetConnected.is_connected());
    assert!(!NetworkState::NetOffline.is_connected());
}
