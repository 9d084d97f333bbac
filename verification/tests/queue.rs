use deconz::client::queue::{
    ApsDataRequestStatus, DeconzQueue, DispatchAction, EnqueuedCommand, InFlightCommand,
};
use deconz::frame::{DeconzFrame, OutgoingPacket};
use deconz::protocol::aps::{APSFramePayload, DestinationAddress, SendData, SendDataOptions};
use deconz::protocol::device::DeviceState;
use deconz::protocol::{CommandId, NetworkState, StatusCode};

fn external(command_id: CommandId, token: u64) -> EnqueuedCommand {
    EnqueuedCommand {
        command_id,
        payload: None,
        in_flight: InFlightCommand::External { token },
    }
}

fn response_frame(command_id: CommandId, sequence_id: u8, body: Vec<u8>) -> DeconzFrame {
    DeconzFrame::incoming(command_id, sequence_id, StatusCode::Success, body)
}

/// Feeds an unsolicited device-state change so the queue has an observed
/// state to pace with.
fn observe(queue: &mut DeconzQueue, flags: u8) {
    let action =
        queue.handle_deconz_frame(response_frame(CommandId::DeviceStateChanged, 0, vec![flags]));
    assert!(matches!(action, DispatchAction::StateUpdated));
}

fn aps_submission() -> EnqueuedCommand {
    let command = SendData {
        destination_address: DestinationAddress::NetworkAddress(0x1234),
        destination_endpoint: 1,
        profile_id: 0x0104,
        cluster_id: 6,
        source_endpoint: 1,
        payload: APSFramePayload::from_vec(vec![1, 2, 3]).unwrap(),
        options: SendDataOptions::default(),
        radius: None,
    };
    let request = command.into_request();
    EnqueuedCommand {
        command_id: request.command_id(),
        payload: request.payload_data(),
        in_flight: InFlightCommand::External { token: 99 },
    }
}

#[test]
fn first_pacing_step_requests_device_state() {
    let mut queue = DeconzQueue::new();
    let frames = queue.try_io();
    assert_eq!(frames.len(), 1);
    assert_eq!(frames[0].command_id(), CommandId::DeviceState);
    assert_eq!(frames[0].sequence_id(), 0);
    assert_eq!(frames[0].payload_bytes(), &Some(vec![0x00, 0x00, 0x00]));
    // A second step keeps only one read outstanding.
    assert!(queue.try_io().is_empty());
    assert_eq!(queue.num_in_flight_commands(), 1);
}

#[test]
fn device_state_observation_lifts_aps_submissions() {
    let mut queue = DeconzQueue::new();
    let frames = queue.try_io();
    assert_eq!(frames.len(), 1);
    assert!(matches!(
        queue.aps_request_status(),
        ApsDataRequestStatus::PendingNextDeviceUpdate
    ));
    // The internal read resolves with the piggybacked flag byte 0x22:
    // connected, free submission slots.
    let action = queue.handle_deconz_frame(response_frame(CommandId::DeviceState, 0, vec![0x22]));
    assert!(matches!(action, DispatchAction::StateUpdated));
    assert!(matches!(
        queue.aps_request_status(),
        ApsDataRequestStatus::SlotsAvailable
    ));
    let observed = queue.last_device_state().unwrap();
    assert_eq!(observed.network_state, NetworkState::NetConnected);
}

#[test]
fn observation_without_free_slots_pins_the_signal_full() {
    let mut queue = DeconzQueue::new();
    observe(&mut queue, 0x02);
    assert!(matches!(
        queue.aps_request_status(),
        ApsDataRequestStatus::SlotsFull
    ));
}

#[test]
fn pending_indication_sends_exactly_one_read() {
    let mut queue = DeconzQueue::new();
    // Connected with the indication-pending bit set.
    observe(&mut queue, 0x02 | 0x08);
    let frames = queue.try_io();
    assert_eq!(frames.len(), 1);
    assert_eq!(frames[0].command_id(), CommandId::ApsDataIndication);
    assert_eq!(frames[0].payload_bytes(), &Some(vec![0x04]));
    // While that read is outstanding, no second one goes out.
    assert!(queue.try_io().is_empty());
}

#[test]
fn pending_confirm_sends_a_read_with_empty_body() {
    let mut queue = DeconzQueue::new();
    observe(&mut queue, 0x02 | 0x04);
    let frames = queue.try_io();
    assert_eq!(frames.len(), 1);
    assert_eq!(frames[0].command_id(), CommandId::ApsDataConfirm);
    assert_eq!(frames[0].payload_bytes(), &Some(Vec::new()));
}

#[test]
fn no_internal_reads_while_disconnected() {
    let mut queue = DeconzQueue::new();
    observe(&mut queue, 0x08 | 0x04); // offline, both pending bits set
    assert!(queue.try_io().is_empty());
}

#[test]
fn in_flight_window_never_exceeds_sixteen() {
    let mut queue = DeconzQueue::new();
    observe(&mut queue, 0x02);
    for token in 0..20 {
        queue.enqueue_command(external(CommandId::Version, token));
    }
    let frames = queue.try_io();
    assert_eq!(frames.len(), 16);
    assert_eq!(queue.num_in_flight_commands(), 16);
    // Nothing more fits until a response frees a slot.
    assert!(queue.try_io().is_empty());
    let action = queue.handle_deconz_frame(response_frame(CommandId::Version, 0, vec![0, 7, 5, 2]));
    assert!(matches!(action, DispatchAction::Deliver { token: 0, .. }));
    let frames = queue.try_io();
    assert_eq!(frames.len(), 1);
    assert_eq!(queue.num_in_flight_commands(), 16);
}

#[test]
fn aps_submission_waits_for_the_next_observation() {
    let mut queue = DeconzQueue::new();
    observe(&mut queue, 0x22);
    queue.enqueue_command(aps_submission());
    queue.enqueue_command(aps_submission());
    let frames = queue.try_io();
    assert_eq!(frames.len(), 1);
    assert_eq!(frames[0].command_id(), CommandId::ApsDataRequest);
    assert!(matches!(
        queue.aps_request_status(),
        ApsDataRequestStatus::PendingNextDeviceUpdate
    ));
    // The second submission stays queued until a fresh observation.
    assert!(queue.try_io().is_empty());
    observe(&mut queue, 0x22);
    let frames = queue.try_io();
    assert_eq!(frames.len(), 1);
    assert_eq!(frames[0].command_id(), CommandId::ApsDataRequest);
}

#[test]
fn aps_submission_blocked_while_slots_full() {
    let mut queue = DeconzQueue::new();
    observe(&mut queue, 0x02);
    queue.enqueue_command(aps_submission());
    assert!(queue.try_io().is_empty());
    observe(&mut queue, 0x22);
    assert_eq!(queue.try_io().len(), 1);
}

#[test]
fn matched_external_entry_is_delivered_exactly_once() {
    let mut queue = DeconzQueue::new();
    observe(&mut queue, 0x02);
    queue.enqueue_command(external(CommandId::Version, 7));
    let frames = queue.try_io();
    assert_eq!(frames.len(), 1);
    let sequence_id = frames[0].sequence_id();

    let action =
        queue.handle_deconz_frame(response_frame(CommandId::Version, sequence_id, vec![0, 7, 5, 2]));
    match action {
        DispatchAction::Deliver { token, frame } => {
            assert_eq!(token, 7);
            assert_eq!(frame.command_id(), CommandId::Version);
            assert_eq!(frame.sequence_id(), sequence_id);
        }
        other => panic!("expected a delivery, got {:?}", other),
    }
    assert_eq!(queue.num_in_flight_commands(), 0);

    // The same frame again matches nothing: the entry is gone.
    let action =
        queue.handle_deconz_frame(response_frame(CommandId::Version, sequence_id, vec![0, 7, 5, 2]));
    assert!(matches!(action, DispatchAction::Dropped));
}

#[test]
fn same_sequence_id_under_different_commands_does_not_collide() {
    let mut queue = DeconzQueue::with_in_flight_cap(400);
    observe(&mut queue, 0x02);
    for token in 0..256 {
        queue.enqueue_command(external(CommandId::Version, token));
    }
    // After a full wrap, sequence 0 is reused by a different command id.
    queue.enqueue_command(external(CommandId::ReadParameter, 256));
    let frames = queue.try_io();
    assert_eq!(frames.len(), 257);
    assert_eq!(frames[256].command_id(), CommandId::ReadParameter);
    assert_eq!(frames[256].sequence_id(), 0);
    assert_eq!(queue.num_in_flight_commands(), 257);

    // Both demux keys resolve independently.
    let action = queue.handle_deconz_frame(response_frame(CommandId::ReadParameter, 0, vec![]));
    assert!(matches!(action, DispatchAction::Deliver { token: 256, .. }));
    let action = queue.handle_deconz_frame(response_frame(CommandId::Version, 0, vec![0, 7, 5, 2]));
    assert!(matches!(action, DispatchAction::Deliver { token: 0, .. }));
}

#[test]
fn sequence_ids_wrap_modulo_256() {
    let mut queue = DeconzQueue::with_in_flight_cap(400);
    observe(&mut queue, 0x02);
    for token in 0..300 {
        queue.enqueue_command(external(CommandId::Version, token));
    }
    let frames = queue.try_io();
    assert_eq!(frames.len(), 300);
    for (i, frame) in frames.iter().enumerate() {
        assert_eq!(frame.sequence_id(), (i % 256) as u8);
    }
    // Wrapped sequence numbers reuse the demux key of the same command id,
    // so the replaced 44 early entries are no longer tracked.
    assert_eq!(queue.num_in_flight_commands(), 256);
}

#[test]
fn unsolicited_device_state_change_updates_state() {
    let mut queue = DeconzQueue::new();
    let action =
        queue.handle_deconz_frame(response_frame(CommandId::DeviceStateChanged, 9, vec![0x22]));
    assert!(matches!(action, DispatchAction::StateUpdated));
    let ds = queue.last_device_state().unwrap();
    assert_eq!(ds, DeviceState::from_flags(0x22));
    // An empty change body is dropped without touching the state.
    let mut queue = DeconzQueue::new();
    let action =
        queue.handle_deconz_frame(response_frame(CommandId::DeviceStateChanged, 9, vec![]));
    assert!(matches!(action, DispatchAction::Dropped));
    assert!(queue.last_device_state().is_none());
}

#[test]
fn internal_indication_read_is_broadcast() {
    let mut queue = DeconzQueue::new();
    observe(&mut queue, 0x02 | 0x08);
    let frames = queue.try_io();
    assert_eq!(frames.len(), 1);
    let sequence_id = frames[0].sequence_id();

    let mut body = vec![0x00, 0x00]; // payload length field
    body.push(0x22); // device state
    body.push(0x02); // network destination
    body.extend_from_slice(&[0x34, 0x12]);
    body.push(0x01); // destination endpoint
    body.push(0x02); // network source
    body.extend_from_slice(&[0xBB, 0xAA]);
    body.push(0x02); // source endpoint
    body.extend_from_slice(&[0x04, 0x01, 0x06, 0x00]); // profile, cluster
    body.extend_from_slice(&[0x01, 0x00, 0x2A]); // one payload byte
    body.extend_from_slice(&[0x00, 0x00, 200, 0x00, 0x00, 0x00, 0x00, 0xD8]);

    let action =
        queue.handle_deconz_frame(response_frame(CommandId::ApsDataIndication, sequence_id, body));
    match action {
        DispatchAction::Broadcast(response) => {
            assert_eq!(response.application_specific_data_unit, vec![0x2A]);
            assert_eq!(response.cluster_id, 0x0006);
        }
        other => panic!("expected a broadcast, got {:?}", other),
    }
    // The piggybacked device state was applied before returning.
    assert!(matches!(
        queue.aps_request_status(),
        ApsDataRequestStatus::SlotsAvailable
    ));
    assert_eq!(queue.num_in_flight_commands(), 0);
}

#[test]
fn unmatched_frame_is_dropped_without_effect() {
    let mut queue = DeconzQueue::new();
    observe(&mut queue, 0x02);
    let action = queue.handle_deconz_frame(response_frame(CommandId::Version, 5, vec![0, 7, 5, 2]));
    assert!(matches!(action, DispatchAction::Dropped));
    assert_eq!(queue.num_in_flight_commands(), 0);
}

#[test]
fn mac_indications_are_decoded_for_logging() {
    let mut queue = DeconzQueue::new();
    let mut body = vec![0x00, 0x00]; // payload length field
    body.extend_from_slice(&[0x01, 0x00]); // short source address
    body.extend_from_slice(&[0x55, 0xAA]); // network identifier
    body.extend_from_slice(&[15, 0x42, 3]); // channel, flags, update id
    body.extend_from_slice(&[9, 9]); // extra beacon data
    let action =
        queue.handle_deconz_frame(response_frame(CommandId::MacBeaconIndication, 0, body));
    match action {
        DispatchAction::Beacon(beacon) => {
            assert_eq!(beacon.network_pan_id, 0xAA55);
            assert_eq!(beacon.channel, 15);
            assert_eq!(beacon.flags, 0x42);
            assert_eq!(beacon.update_id, 3);
            assert_eq!(beacon.data, Some(vec![9, 9]));
        }
        other => panic!("expected a beacon, got {:?}", other),
    }

    let mut body = vec![0x00, 0x00];
    body.push(0x02); // network source address
    body.extend_from_slice(&[0x34, 0x12]);
    body.push(180); // link quality
    body.push(0xD8); // signal strength
    let action = queue.handle_deconz_frame(response_frame(CommandId::MacPollIndication, 0, body));
    match action {
        DispatchAction::Poll(poll) => {
            assert_eq!(poll.link_quality_indicator, 180);
            assert_eq!(poll.received_signal_strength_indication, -40);
            assert!(poll.neighbor_table_state.is_none());
        }
        other => panic!("expected a poll, got {:?}", other),
    }
}

#[test]
fn pacing_packets_encode_as_frames() {
    let mut queue = DeconzQueue::new();
    let frames: Vec<OutgoingPacket> = queue.try_io();
    assert_eq!(frames.len(), 1);
    let mut frames = frames;
    let encoded = frames.remove(0).encode();
    // Header, the three reserved body bytes behind a length field, checksum.
    assert_eq!(encoded.len(), 5 + 2 + 3 + 2);
    assert_eq!(encoded[0], 0x07);
}
