//! The request/response multiplexer state machine.
//!
//! The queue owns the bookkeeping of the serial protocol: two FIFO queues of
//! commands pending transmission, the in-flight window keyed by command and
//! sequence identifier, the last observed device state, and the three-state
//! flow-control signal for APS data submissions.  It is pure logic: a pacing
//! step returns the packets to write, and dispatching an incoming frame
//! returns the action the surrounding task performs (resolve a caller,
//! broadcast an indication, or drop).

use vstd::prelude::*;

use crate::frame::{DeconzFrame, OutgoingPacket};
use crate::protocol::aps::data_confirm::{spec_parse_confirm_data, ReadConfirmDataResponse};
use crate::protocol::aps::data_indication::{spec_parse_received_data, ReadReceivedDataResponse};
use crate::protocol::aps::data_indication::ReadReceivedDataRequest;
use crate::protocol::aps::data_confirm::ReadConfirmDataRequest;
use crate::protocol::device::{DeviceState, ReadDeviceStateRequest};
use crate::protocol::mac::{MACBeaconIndication, MACPollIndication};
use crate::protocol::CommandId;

verus! {

/// The record kept for a sent command until its response arrives.
#[derive(Debug, Clone, Copy, PartialEq, Eq, Structural)]
pub enum InFlightCommand {
    /// A caller waits for this response; `token` names its continuation in
    /// the surrounding task.
    External { token: u64 },
    /// The scheduler itself consumes the response.
    Internal,
}

/// A command pending transmission: its identifier, its serialized body, and
/// the in-flight record to register when it is sent.
#[derive(Debug)]
pub struct EnqueuedCommand {
    pub command_id: CommandId,
    pub payload: Option<Vec<u8>>,
    pub in_flight: InFlightCommand,
}

/// The mathematical content of an enqueued command.
pub ghost struct CommandModel {
    pub command_id: CommandId,
    pub payload: Option<Seq<u8>>,
    pub in_flight: InFlightCommand,
}

impl View for EnqueuedCommand {
    type V = CommandModel;

    open spec fn view(&self) -> CommandModel {
        CommandModel {
            command_id: self.command_id,
            payload: match self.payload {
                Some(p) => Some(p@),
                None => None,
            },
            in_flight: self.in_flight,
        }
    }
}

/// One entry of the in-flight window.
#[derive(Debug, Clone, Copy, PartialEq, Eq, Structural)]
pub struct InFlightEntry {
    pub command_id: CommandId,
    pub sequence_id: u8,
    pub command: InFlightCommand,
}

/// The three-state flow-control signal for APS data submissions.
#[derive(Debug, Clone, Copy, PartialEq, Eq, Structural)]
pub enum ApsDataRequestStatus {
    /// No confirmation yet that the device has submission slots free: either
    /// no device state has been observed, or a submission was just sent and
    /// the next observation must say whether more fit.
    PendingNextDeviceUpdate,
    /// The device advertised free submission slots.
    SlotsAvailable,
    /// The device advertised no free submission slots; submissions queue up
    /// until an observation lifts the signal.
    SlotsFull,
}

impl ApsDataRequestStatus {
    /// True exactly on [`ApsDataRequestStatus::SlotsAvailable`].
    pub fn has_slots_available(&self) -> (r: bool)
        ensures
            r == (self is SlotsAvailable),
    {
        match self {
            ApsDataRequestStatus::SlotsAvailable => true,
            _ => false,
        }
    }
}

/// True when `e` is the entry keyed by `(command_id, sequence_id)`.
pub open spec fn key_matches(e: InFlightEntry, command_id: CommandId, sequence_id: u8) -> bool {
    e.command_id == command_id && e.sequence_id == sequence_id
}

/// The in-flight record stored under `(command_id, sequence_id)`, scanning
/// from the front.
pub open spec fn spec_lookup(
    entries: Seq<InFlightEntry>,
    command_id: CommandId,
    sequence_id: u8,
) -> Option<InFlightCommand>
    decreases entries.len(),
{
    if entries.len() == 0 {
        None
    } else if key_matches(entries[0], command_id, sequence_id) {
        Some(entries[0].command)
    } else {
        spec_lookup(entries.skip(1), command_id, sequence_id)
    }
}

/// The in-flight window with the first entry keyed by
/// `(command_id, sequence_id)` taken out.
pub open spec fn spec_remove(
    entries: Seq<InFlightEntry>,
    command_id: CommandId,
    sequence_id: u8,
) -> Seq<InFlightEntry>
    decreases entries.len(),
{
    if entries.len() == 0 {
        entries
    } else if key_matches(entries[0], command_id, sequence_id) {
        entries.skip(1)
    } else {
        seq![entries[0]] + spec_remove(entries.skip(1), command_id, sequence_id)
    }
}

/// Whether any in-flight entry carries `command_id`.
pub open spec fn spec_has_command_id(entries: Seq<InFlightEntry>, command_id: CommandId) -> bool {
    exists|i: int| 0 <= i < entries.len() && #[trigger] entries[i].command_id == command_id
}

proof fn lemma_remove_not_found(entries: Seq<InFlightEntry>, command_id: CommandId, sequence_id: u8)
    requires
        forall|j: int|
            0 <= j < entries.len() ==> !key_matches(#[trigger] entries[j], command_id, sequence_id),
    ensures
        spec_remove(entries, command_id, sequence_id) == entries,
        spec_lookup(entries, command_id, sequence_id) is None,
    decreases entries.len(),
{
    if entries.len() > 0 {
        lemma_remove_not_found(entries.skip(1), command_id, sequence_id);
        assert(seq![entries[0]] + entries.skip(1) =~= entries);
    }
}

proof fn lemma_remove_absent(entries: Seq<InFlightEntry>, command_id: CommandId, sequence_id: u8)
    requires
        spec_lookup(entries, command_id, sequence_id) is None,
    ensures
        spec_remove(entries, command_id, sequence_id) == entries,
    decreases entries.len(),
{
    if entries.len() > 0 {
        lemma_remove_absent(entries.skip(1), command_id, sequence_id);
        assert(seq![entries[0]] + entries.skip(1) =~= entries);
    }
}

proof fn lemma_remove_found(
    entries: Seq<InFlightEntry>,
    command_id: CommandId,
    sequence_id: u8,
    i: int,
)
    requires
        0 <= i < entries.len(),
        key_matches(entries[i], command_id, sequence_id),
        forall|j: int| 0 <= j < i ==> !key_matches(#[trigger] entries[j], command_id, sequence_id),
    ensures
        spec_remove(entries, command_id, sequence_id) == entries.subrange(0, i) + entries.skip(
            i + 1,
        ),
        spec_lookup(entries, command_id, sequence_id) == Some(entries[i].command),
    decreases i,
{
    if i == 0 {
        assert(entries.subrange(0, 0) + entries.skip(1) =~= entries.skip(1));
    } else {
        lemma_remove_found(entries.skip(1), command_id, sequence_id, i - 1);
        assert(entries.skip(1).subrange(0, i - 1) =~= entries.subrange(1, i));
        assert(entries.skip(1).skip(i) =~= entries.skip(i + 1));
        assert(seq![entries[0]] + (entries.subrange(1, i) + entries.skip(i + 1)) =~= entries.subrange(
            0,
            i,
        ) + entries.skip(i + 1));
    }
}

/// The mathematical state of the multiplexer.
pub ghost struct QueueModel {
    pub next_sequence_id: u8,
    pub device_state: Option<DeviceState>,
    pub general_queue: Seq<CommandModel>,
    pub aps_queue: Seq<CommandModel>,
    pub in_flight: Seq<InFlightEntry>,
    pub aps_status: ApsDataRequestStatus,
    pub cap: int,
}

/// The request/response multiplexer state.
pub struct DeconzQueue {
    next_sequence_id: u8,
    device_state: Option<DeviceState>,
    enqueued_commands: Vec<EnqueuedCommand>,
    enqueued_aps_data_request_commands: Vec<EnqueuedCommand>,
    in_flight_commands: Vec<InFlightEntry>,
    aps_data_request_status: ApsDataRequestStatus,
    in_flight_cap: usize,
}

impl View for DeconzQueue {
    type V = QueueModel;

    closed spec fn view(&self) -> QueueModel {
        QueueModel {
            next_sequence_id: self.next_sequence_id,
            device_state: self.device_state,
            general_queue: self.enqueued_commands@.map_values(|c: EnqueuedCommand| c@),
            aps_queue: self.enqueued_aps_data_request_commands@.map_values(
                |c: EnqueuedCommand| c@,
            ),
            in_flight: self.in_flight_commands@,
            aps_status: self.aps_data_request_status,
            cap: self.in_flight_cap as int,
        }
    }
}

/// The sequence number `n` steps after `s`, wrapping modulo 256.
pub open spec fn wrap_add(s: u8, n: int) -> u8 {
    ((s + n) % 256) as u8
}

/// Whether a queued payload is small enough to encode: its declared lengths
/// must fit their 16-bit fields.
pub open spec fn payload_fits(payload: Option<Seq<u8>>) -> bool {
    OutgoingPacket::payload_fits(payload)
}

impl DeconzQueue {
    /// Well-formedness of the multiplexer state, as `model_wf` says; every
    /// method keeps it.  In particular the in-flight window of a queue made
    /// by [`DeconzQueue::new`] never exceeds 16.
    pub open spec fn wf(self) -> bool {
        model_wf(self@)
    }

    /// How many commands are in flight.  The window never holds more entries
    /// than its cap; the cap of a queue made by [`DeconzQueue::new`] is 16.
    pub fn num_in_flight_commands(&self) -> (r: usize)
        requires
            self.wf(),
        ensures
            r == self@.in_flight.len(),
            r <= self@.cap,
    {
        self.in_flight_commands.len()
    }

    /// The current flow-control signal for APS data submissions.
    pub fn aps_request_status(&self) -> (r: ApsDataRequestStatus)
        ensures
            r == self@.aps_status,
    {
        self.aps_data_request_status
    }

    /// The most recently observed device state, if any has arrived yet.
    pub fn last_device_state(&self) -> (r: Option<DeviceState>)
        ensures
            r == self@.device_state,
    {
        self.device_state
    }

    /// True when the in-flight window is full and nothing more may be sent.
    pub fn in_flight_commands_full(&self) -> (r: bool)
        ensures
            r == (self@.in_flight.len() >= self@.cap),
    {
        self.in_flight_commands.len() >= self.in_flight_cap
    }

    /// A fresh multiplexer: nothing queued, nothing in flight, no device
    /// state observed yet, submissions pending the first observation, and an
    /// in-flight window of 16.
    pub fn new() -> (r: DeconzQueue)
        ensures
            r.wf(),
            r@ == (QueueModel {
                next_sequence_id: 0,
                device_state: None::<DeviceState>,
                general_queue: Seq::<CommandModel>::empty(),
                aps_queue: Seq::<CommandModel>::empty(),
                in_flight: Seq::<InFlightEntry>::empty(),
                aps_status: ApsDataRequestStatus::PendingNextDeviceUpdate,
                cap: 16,
            }),
    {
        let r = DeconzQueue {
            next_sequence_id: 0,
            device_state: None,
            enqueued_commands: Vec::new(),
            enqueued_aps_data_request_commands: Vec::new(),
            in_flight_commands: Vec::new(),
            aps_data_request_status: ApsDataRequestStatus::PendingNextDeviceUpdate,
            in_flight_cap: 16,
        };
        proof {
            assert(r@.general_queue =~= Seq::<CommandModel>::empty());
            assert(r@.aps_queue =~= Seq::<CommandModel>::empty());
        }
        r
    }

    /// A fresh multiplexer with a different in-flight window; the protocol's
    /// own window is the 16 that [`DeconzQueue::new`] sets.
    pub fn with_in_flight_cap(cap: usize) -> (r: DeconzQueue)
        ensures
            r.wf(),
            r@ == (QueueModel {
                next_sequence_id: 0,
                device_state: None::<DeviceState>,
                general_queue: Seq::<CommandModel>::empty(),
                aps_queue: Seq::<CommandModel>::empty(),
                in_flight: Seq::<InFlightEntry>::empty(),
                aps_status: ApsDataRequestStatus::PendingNextDeviceUpdate,
                cap: cap as int,
            }),
    {
        let r = DeconzQueue {
            next_sequence_id: 0,
            device_state: None,
            enqueued_commands: Vec::new(),
            enqueued_aps_data_request_commands: Vec::new(),
            in_flight_commands: Vec::new(),
            aps_data_request_status: ApsDataRequestStatus::PendingNextDeviceUpdate,
            in_flight_cap: cap,
        };
        proof {
            assert(r@.general_queue =~= Seq::<CommandModel>::empty());
            assert(r@.aps_queue =~= Seq::<CommandModel>::empty());
        }
        r
    }

    /// Appends a command to the queue it belongs to: APS data submissions go
    /// to their own flow-controlled queue, everything else to the general
    /// queue.
    pub fn enqueue_command(&mut self, command: EnqueuedCommand)
        requires
            old(self).wf(),
            payload_fits(command@.payload),
        ensures
            final(self).wf(),
            command@.command_id == CommandId::ApsDataRequest ==> final(self)@ == (QueueModel {
                aps_queue: old(self)@.aps_queue.push(command@),
                ..old(self)@
            }),
            command@.command_id != CommandId::ApsDataRequest ==> final(self)@ == (QueueModel {
                general_queue: old(self)@.general_queue.push(command@),
                ..old(self)@
            }),
    {
        let ghost prior = self@;
        let is_aps = match command.command_id {
            CommandId::ApsDataRequest => true,
            _ => false,
        };
        let ghost cm = command@;
        if is_aps {
            self.enqueued_aps_data_request_commands.push(command);
            proof {
                assert(self@.aps_queue =~= prior.aps_queue.push(cm));
            }
        } else {
            self.enqueued_commands.push(command);
            proof {
                assert(self@.general_queue =~= prior.general_queue.push(cm));
            }
        }
    }

    /// Records a device-state observation: `last_device_state` is replaced,
    /// and the submission signal is recomputed from the free-slots bit,
    /// before any subsequent pacing decision can read either.
    pub fn update_device_state(&mut self, device_state: DeviceState)
        requires
            old(self).wf(),
        ensures
            final(self).wf(),
            final(self)@ == spec_observe(old(self)@, device_state),
    {
        if device_state.apsde_data_request_free_slots {
            self.aps_data_request_status = ApsDataRequestStatus::SlotsAvailable;
        } else {
            self.aps_data_request_status = ApsDataRequestStatus::SlotsFull;
        }
        self.device_state = Some(device_state);
    }

    /// Whether some response for `command_id` is still outstanding.
    pub fn has_in_flight_command_for_command_id(&self, command_id: CommandId) -> (r: bool)
        ensures
            r == spec_has_command_id(self@.in_flight, command_id),
    {
        let n = self.in_flight_commands.len();
        let mut i: usize = 0;
        while i < n
            invariant
                i <= n,
                n == self.in_flight_commands@.len(),
                forall|j: int|
                    0 <= j < i ==> (#[trigger] self.in_flight_commands@[j]).command_id
                        != command_id,
            decreases n - i,
        {
            if self.in_flight_commands[i].command_id == command_id {
                return true;
            }
            i = i + 1;
        }
        false
    }

    /// Takes the in-flight record stored under `(command_id, sequence_id)`
    /// out of the window, if one is there.
    pub fn take_in_flight_command(&mut self, command_id: CommandId, sequence_id: u8) -> (r: Option<
        InFlightCommand,
    >)
        requires
            old(self).wf(),
        ensures
            final(self).wf(),
            r == spec_lookup(old(self)@.in_flight, command_id, sequence_id),
            final(self)@ == (QueueModel {
                in_flight: spec_remove(old(self)@.in_flight, command_id, sequence_id),
                ..old(self)@
            }),
    {
        let ghost prior = self@;
        let n = self.in_flight_commands.len();
        let mut i: usize = 0;
        while i < n
            invariant
                i <= n,
                *self == *old(self),
                old(self).wf(),
                prior == self@,
                n == self.in_flight_commands@.len(),
                forall|j: int|
                    0 <= j < i ==> !key_matches(
                        #[trigger] self.in_flight_commands@[j],
                        command_id,
                        sequence_id,
                    ),
            decreases n - i,
        {
            let e = self.in_flight_commands[i];
            if e.command_id == command_id && e.sequence_id == sequence_id {
                let taken = self.in_flight_commands.remove(i);
                proof {
                    lemma_remove_found(prior.in_flight, command_id, sequence_id, i as int);
                    lemma_remove_properties(prior.in_flight, command_id, sequence_id);
                    assert(self.in_flight_commands@ =~= spec_remove(
                        prior.in_flight,
                        command_id,
                        sequence_id,
                    ));
                }
                return Some(taken.command);
            }
            i = i + 1;
        }
        proof {
            lemma_remove_not_found(prior.in_flight, command_id, sequence_id);
        }
        None
    }

    /// Allocates the next sequence number and sends one command: the record
    /// is put in flight under `(command_id, sequence_id)` (replacing a
    /// leftover record under the same key, as a wrapped-around window would
    /// leave), and the packet to write is returned.
    fn send_command(&mut self, command: EnqueuedCommand) -> (r: OutgoingPacket)
        requires
            old(self).wf(),
            old(self)@.in_flight.len() < old(self)@.cap,
            payload_fits(command@.payload),
        ensures
            final(self).wf(),
            final(self)@ == spec_after_send(old(self)@, command@),
            packet_matches(r, command@, old(self)@.next_sequence_id),
    {
        let ghost prior = self@;
        let ghost cm = command@;
        let sequence_id = self.next_sequence_id;
        let command_id = command.command_id;
        proof {
            lemma_remove_properties(prior.in_flight, command_id, sequence_id);
        }
        let _ = self.take_in_flight_command(command_id, sequence_id);
        self.in_flight_commands.push(
            InFlightEntry { command_id, sequence_id, command: command.in_flight },
        );
        self.next_sequence_id = if sequence_id == 255 {
            0
        } else {
            sequence_id + 1
        };
        proof {
            assert(self.next_sequence_id == wrap_add(prior.next_sequence_id, 1)) by {
                if sequence_id != 255 {
                    vstd::arithmetic::div_mod::lemma_small_mod(
                        (sequence_id + 1) as nat,
                        256,
                    );
                }
            }
            assert(self@ == spec_after_send(prior, cm));
        }
        OutgoingPacket::new(command_id, sequence_id, command.payload)
    }
}

/// A device-state observation applied to the multiplexer state: the state is
/// replaced and the submission signal recomputed from the free-slots bit.
pub open spec fn spec_observe(m: QueueModel, ds: DeviceState) -> QueueModel {
    QueueModel {
        device_state: Some(ds),
        aps_status: if ds.apsde_data_request_free_slots {
            ApsDataRequestStatus::SlotsAvailable
        } else {
            ApsDataRequestStatus::SlotsFull
        },
        ..m
    }
}

/// The state after one command is sent: the next sequence number is
/// allocated (wrapping), and the in-flight record is stored under
/// `(command, sequence)`, replacing any leftover record under that key.
pub open spec fn spec_after_send(m: QueueModel, c: CommandModel) -> QueueModel {
    QueueModel {
        next_sequence_id: wrap_add(m.next_sequence_id, 1),
        in_flight: spec_remove(m.in_flight, c.command_id, m.next_sequence_id).push(
            InFlightEntry {
                command_id: c.command_id,
                sequence_id: m.next_sequence_id,
                command: c.in_flight,
            },
        ),
        ..m
    }
}

/// True when packet `p` carries command `c` under `sequence_id`.
pub open spec fn packet_matches(p: OutgoingPacket, c: CommandModel, sequence_id: u8) -> bool {
    &&& p.spec_command_id() == c.command_id
    &&& p.spec_sequence_id() == sequence_id
    &&& p.spec_payload() == c.payload
}

proof fn lemma_remove_properties(entries: Seq<InFlightEntry>, command_id: CommandId, sequence_id: u8)
    requires
        forall|i: int, j: int|
            #![trigger entries[i], entries[j]]
            0 <= i < j < entries.len() ==> !key_matches(
                entries[i],
                entries[j].command_id,
                entries[j].sequence_id,
            ),
    ensures
        ({
            let r = spec_remove(entries, command_id, sequence_id);
            &&& r.len() <= entries.len()
            &&& forall|i: int, j: int|
                #![trigger r[i], r[j]]
                0 <= i < j < r.len() ==> !key_matches(r[i], r[j].command_id, r[j].sequence_id)
            &&& forall|j: int| 0 <= j < r.len() ==> !key_matches(#[trigger] r[j], command_id, sequence_id)
            &&& forall|j: int|
                0 <= j < r.len() ==> exists|k: int|
                    0 <= k < entries.len() && #[trigger] r[j] == entries[k]
        }),
    decreases entries.len(),
{
    let r = spec_remove(entries, command_id, sequence_id);
    if entries.len() == 0 {
    } else if key_matches(entries[0], command_id, sequence_id) {
        assert forall|j: int| 0 <= j < r.len() implies !key_matches(
            #[trigger] r[j],
            command_id,
            sequence_id,
        ) by {
            assert(r[j] == entries[j + 1]);
        }
        assert forall|j: int| 0 <= j < r.len() implies exists|k: int|
            0 <= k < entries.len() && #[trigger] r[j] == entries[k] by {
            assert(r[j] == entries[j + 1]);
        }
    } else {
        let tail = entries.skip(1);
        assert(forall|i: int, j: int|
            #![trigger tail[i], tail[j]]
            0 <= i < j < tail.len() ==> !key_matches(
                tail[i],
                tail[j].command_id,
                tail[j].sequence_id,
            )) by {
            assert(forall|i: int| 0 <= i < tail.len() ==> tail[i] == entries[i + 1]);
        }
        lemma_remove_properties(tail, command_id, sequence_id);
        let rt = spec_remove(tail, command_id, sequence_id);
        assert(r == seq![entries[0]] + rt);
        assert(forall|j: int| 0 <= j < rt.len() ==> r[j + 1] == rt[j]);
        assert(r[0] == entries[0]);
        assert forall|j: int| 0 <= j < r.len() implies exists|k: int|
            0 <= k < entries.len() && #[trigger] r[j] == entries[k] by {
            if j == 0 {
                assert(r[0] == entries[0]);
            } else {
                let k0 = choose|k: int| 0 <= k < tail.len() && rt[j - 1] == tail[k];
                assert(r[j] == entries[k0 + 1]);
            }
        }
        assert forall|i: int, j: int|
            #![trigger r[i], r[j]]
            0 <= i < j < r.len() implies !key_matches(r[i], r[j].command_id, r[j].sequence_id) by {
            if i == 0 {
                let k0 = choose|k: int| 0 <= k < tail.len() && rt[j - 1] == tail[k];
                assert(r[j] == tail[k0]);
                assert(r[j] == entries[k0 + 1]);
                assert(!key_matches(entries[0], entries[k0 + 1].command_id, entries[k0 + 1].sequence_id));
            } else {
                assert(r[i] == rt[i - 1]);
                assert(r[j] == rt[j - 1]);
            }
        }
        assert forall|j: int| 0 <= j < r.len() implies !key_matches(
            #[trigger] r[j],
            command_id,
            sequence_id,
        ) by {
            if j == 0 {
            } else {
                assert(r[j] == rt[j - 1]);
            }
        }
    }
}

/// The internal device-state read sent while no state has been observed.
pub open spec fn spec_device_state_read() -> CommandModel {
    CommandModel {
        command_id: CommandId::DeviceState,
        payload: Some(seq![0u8, 0u8, 0u8]),
        in_flight: InFlightCommand::Internal,
    }
}

/// The internal indication read sent while the device holds inbound data.
pub open spec fn spec_indication_read() -> CommandModel {
    CommandModel {
        command_id: CommandId::ApsDataIndication,
        payload: Some(seq![0x04u8]),
        in_flight: InFlightCommand::Internal,
    }
}

/// The internal confirm read sent while the device holds a confirm; its
/// body is present but empty.
pub open spec fn spec_confirm_read() -> CommandModel {
    CommandModel {
        command_id: CommandId::ApsDataConfirm,
        payload: Some(Seq::<u8>::empty()),
        in_flight: InFlightCommand::Internal,
    }
}

/// First pacing rule: while no device state has been observed, one internal
/// device-state read is kept outstanding (subject to the window).
pub open spec fn spec_send_device_state_read(m: QueueModel) -> (QueueModel, Seq<CommandModel>) {
    if spec_has_command_id(m.in_flight, CommandId::DeviceState) || m.in_flight.len() >= m.cap {
        (m, Seq::<CommandModel>::empty())
    } else {
        (spec_after_send(m, spec_device_state_read()), seq![spec_device_state_read()])
    }
}

/// While connected with the indication-pending flag set, one internal
/// indication read is kept outstanding (subject to the window).
pub open spec fn spec_send_indication_read(m: QueueModel, ds: DeviceState) -> (
    QueueModel,
    Seq<CommandModel>,
) {
    if ds.apsde_data_indication && !spec_has_command_id(m.in_flight, CommandId::ApsDataIndication)
        && m.in_flight.len() < m.cap {
        (spec_after_send(m, spec_indication_read()), seq![spec_indication_read()])
    } else {
        (m, Seq::<CommandModel>::empty())
    }
}

/// While connected with the confirm-pending flag set, one internal confirm
/// read is kept outstanding (subject to the window).
pub open spec fn spec_send_confirm_read(m: QueueModel, ds: DeviceState) -> (
    QueueModel,
    Seq<CommandModel>,
) {
    if ds.apsde_data_confirm && !spec_has_command_id(m.in_flight, CommandId::ApsDataConfirm)
        && m.in_flight.len() < m.cap {
        (spec_after_send(m, spec_confirm_read()), seq![spec_confirm_read()])
    } else {
        (m, Seq::<CommandModel>::empty())
    }
}

/// At most one APS data submission goes out per pacing step, only while the
/// device advertised free slots and the window is open; sending one puts the
/// signal back to pending until the next observation.
pub open spec fn spec_try_send_aps(m: QueueModel) -> (QueueModel, Seq<CommandModel>) {
    if m.aps_status is SlotsAvailable && m.in_flight.len() < m.cap && m.aps_queue.len() > 0 {
        let c = m.aps_queue[0];
        let m1 = QueueModel {
            aps_queue: m.aps_queue.skip(1),
            aps_status: ApsDataRequestStatus::PendingNextDeviceUpdate,
            ..m
        };
        (spec_after_send(m1, c), seq![c])
    } else {
        (m, Seq::<CommandModel>::empty())
    }
}

/// The general queue drains front to back for as long as the in-flight
/// window is under its cap.
pub open spec fn spec_drain_general(m: QueueModel) -> (QueueModel, Seq<CommandModel>)
    decreases m.general_queue.len(),
{
    if m.in_flight.len() >= m.cap || m.general_queue.len() == 0 {
        (m, Seq::<CommandModel>::empty())
    } else {
        let c = m.general_queue[0];
        let m1 = spec_after_send(QueueModel { general_queue: m.general_queue.skip(1), ..m }, c);
        let r2 = spec_drain_general(m1);
        (r2.0, seq![c] + r2.1)
    }
}

/// One pacing step: with no device state observed yet, only the internal
/// device-state read is considered; otherwise, while connected, the internal
/// indication and confirm reads and one flow-controlled APS submission are
/// considered, and in every observed state the general queue drains while
/// the window is open.
pub open spec fn spec_try_io(m: QueueModel) -> (QueueModel, Seq<CommandModel>) {
    match m.device_state {
        None => spec_send_device_state_read(m),
        Some(ds) => {
            let first = if ds.network_state is NetConnected {
                let ra = spec_send_indication_read(m, ds);
                let rb = spec_send_confirm_read(ra.0, ds);
                let rc = spec_try_send_aps(rb.0);
                (rc.0, ra.1 + rb.1 + rc.1)
            } else {
                (m, Seq::<CommandModel>::empty())
            };
            let r2 = spec_drain_general(first.0);
            (r2.0, first.1 + r2.1)
        },
    }
}

/// Relates the packets written by a pacing step to the commands the step
/// sent: `after` extends `before` by one packet per sent command, in order,
/// with consecutive sequence numbers starting at `first_sequence_id`.
pub open spec fn frames_extended(
    before: Seq<OutgoingPacket>,
    after: Seq<OutgoingPacket>,
    sends: Seq<CommandModel>,
    first_sequence_id: u8,
) -> bool {
    &&& after.len() == before.len() + sends.len()
    &&& after.take(before.len() as int) == before
    &&& forall|k: int|
        0 <= k < sends.len() ==> packet_matches(
            #[trigger] after[before.len() + k],
            sends[k],
            wrap_add(first_sequence_id, k),
        )
}

proof fn lemma_wrap_add_zero(sequence_id: u8)
    ensures
        wrap_add(sequence_id, 0) == sequence_id,
{
    vstd::arithmetic::div_mod::lemma_small_mod(sequence_id as nat, 256);
}

proof fn lemma_wrap_add_assoc(sequence_id: u8, a: int, b: int)
    requires
        a >= 0,
        b >= 0,
    ensures
        wrap_add(wrap_add(sequence_id, a), b) == wrap_add(sequence_id, a + b),
{
    let s = sequence_id as int;
    vstd::arithmetic::div_mod::lemma_mod_bound(s + a, 256);
    vstd::arithmetic::div_mod::lemma_mod_adds(s + a, b, 256);
    vstd::arithmetic::div_mod::lemma_mod_bound(b, 256);
    vstd::arithmetic::div_mod::lemma_mod_adds((s + a) % 256, b, 256);
    vstd::arithmetic::div_mod::lemma_mod_twice(s + a, 256);
}

proof fn lemma_frames_extended_trans(
    a: Seq<OutgoingPacket>,
    b: Seq<OutgoingPacket>,
    c: Seq<OutgoingPacket>,
    s1: Seq<CommandModel>,
    s2: Seq<CommandModel>,
    first_sequence_id: u8,
)
    requires
        frames_extended(a, b, s1, first_sequence_id),
        frames_extended(b, c, s2, wrap_add(first_sequence_id, s1.len() as int)),
    ensures
        frames_extended(a, c, s1 + s2, first_sequence_id),
    decreases s1.len(),
{
    assert(c.take(a.len() as int) =~= a) by {
        assert(forall|k: int|
            0 <= k < a.len() ==> c[k] == b.take(b.len() as int)[k] && b[k] == a[k]);
        assert(forall|k: int| 0 <= k < a.len() ==> c.take(b.len() as int)[k] == c[k]);
    }
    assert forall|k: int| 0 <= k < (s1 + s2).len() implies packet_matches(
        #[trigger] c[a.len() + k],
        (s1 + s2)[k],
        wrap_add(first_sequence_id, k),
    ) by {
        if k < s1.len() {
            assert(c.take(b.len() as int)[a.len() + k] == c[a.len() + k]);
            assert(b[a.len() + k] == c[a.len() + k]);
            assert((s1 + s2)[k] == s1[k]);
        } else {
            let k2 = k - s1.len();
            assert(c[b.len() + k2] == c[a.len() + k]);
            assert((s1 + s2)[k] == s2[k2]);
            lemma_wrap_add_assoc(first_sequence_id, s1.len() as int, k2);
        }
    }
}

impl DeconzQueue {
    /// Sends an internal device-state read unless one is already in flight
    /// or the window is full.
    fn send_device_state_request(&mut self, frames: &mut Vec<OutgoingPacket>)
        requires
            old(self).wf(),
        ensures
            final(self).wf(),
            ({
                let r = spec_send_device_state_read(old(self)@);
                &&& final(self)@ == r.0
                &&& frames_extended(
                    old(frames)@,
                    final(frames)@,
                    r.1,
                    old(self)@.next_sequence_id,
                )
            }),
    {
        if self.has_in_flight_command_for_command_id(CommandId::DeviceState)
            || self.in_flight_commands_full() {
            proof {
                assert(frames@.take(frames@.len() as int) =~= frames@);
            }
            return ;
        }
        let request = ReadDeviceStateRequest;
        let command = EnqueuedCommand {
            command_id: request.command_id(),
            payload: request.payload_data(),
            in_flight: InFlightCommand::Internal,
        };
        proof {
            assert(command@ == spec_device_state_read());
            lemma_wrap_add_zero(self.next_sequence_id);
        }
        let packet = self.send_command(command);
        frames.push(packet);
        proof {
            assert(frames@.take(old(frames)@.len() as int) =~= old(frames)@);
        }
    }

    /// Sends an internal indication read when the device advertises pending
    /// inbound data, unless one is already in flight or the window is full.
    fn send_aps_data_indication_read_request(
        &mut self,
        frames: &mut Vec<OutgoingPacket>,
        device_state: DeviceState,
    )
        requires
            old(self).wf(),
        ensures
            final(self).wf(),
            ({
                let r = spec_send_indication_read(old(self)@, device_state);
                &&& final(self)@ == r.0
                &&& frames_extended(
                    old(frames)@,
                    final(frames)@,
                    r.1,
                    old(self)@.next_sequence_id,
                )
            }),
    {
        if !device_state.apsde_data_indication || self.has_in_flight_command_for_command_id(
            CommandId::ApsDataIndication,
        ) || self.in_flight_commands_full() {
            proof {
                assert(frames@.take(frames@.len() as int) =~= frames@);
            }
            return ;
        }
        let request = ReadReceivedDataRequest;
        let command = EnqueuedCommand {
            command_id: request.command_id(),
            payload: request.payload_data(),
            in_flight: InFlightCommand::Internal,
        };
        proof {
            assert(command@ == spec_indication_read());
            lemma_wrap_add_zero(self.next_sequence_id);
        }
        let packet = self.send_command(command);
        frames.push(packet);
        proof {
            assert(frames@.take(old(frames)@.len() as int) =~= old(frames)@);
        }
    }

    /// Sends an internal confirm read when the device advertises a pending
    /// confirm, unless one is already in flight or the window is full.
    fn send_aps_data_confirm_read_request(
        &mut self,
        frames: &mut Vec<OutgoingPacket>,
        device_state: DeviceState,
    )
        requires
            old(self).wf(),
        ensures
            final(self).wf(),
            ({
                let r = spec_send_confirm_read(old(self)@, device_state);
                &&& final(self)@ == r.0
                &&& frames_extended(
                    old(frames)@,
                    final(frames)@,
                    r.1,
                    old(self)@.next_sequence_id,
                )
            }),
    {
        if !device_state.apsde_data_confirm || self.has_in_flight_command_for_command_id(
            CommandId::ApsDataConfirm,
        ) || self.in_flight_commands_full() {
            proof {
                assert(frames@.take(frames@.len() as int) =~= frames@);
            }
            return ;
        }
        let request = ReadConfirmDataRequest;
        let command = EnqueuedCommand {
            command_id: request.command_id(),
            payload: request.payload_data(),
            in_flight: InFlightCommand::Internal,
        };
        proof {
            assert(command@ == spec_confirm_read());
            lemma_wrap_add_zero(self.next_sequence_id);
        }
        let packet = self.send_command(command);
        frames.push(packet);
        proof {
            assert(frames@.take(old(frames)@.len() as int) =~= old(frames)@);
        }
    }

    /// Sends at most one queued APS data submission, when the flow-control
    /// signal says slots are free and the window is open; the signal then
    /// returns to pending until the next device-state observation.
    fn try_send_aps_data_request(&mut self, frames: &mut Vec<OutgoingPacket>)
        requires
            old(self).wf(),
        ensures
            final(self).wf(),
            ({
                let r = spec_try_send_aps(old(self)@);
                &&& final(self)@ == r.0
                &&& frames_extended(
                    old(frames)@,
                    final(frames)@,
                    r.1,
                    old(self)@.next_sequence_id,
                )
            }),
    {
        if !self.aps_data_request_status.has_slots_available() || self.in_flight_commands_full()
            || self.enqueued_aps_data_request_commands.is_empty() {
            proof {
                assert(frames@.take(frames@.len() as int) =~= frames@);
            }
            return ;
        }
        let ghost prior = self@;
        let command = self.enqueued_aps_data_request_commands.remove(0);
        self.aps_data_request_status = ApsDataRequestStatus::PendingNextDeviceUpdate;
        proof {
            assert(self@.aps_queue =~= prior.aps_queue.skip(1));
            assert(command@ == prior.aps_queue[0]);
            lemma_wrap_add_zero(self.next_sequence_id);
        }
        let packet = self.send_command(command);
        frames.push(packet);
        proof {
            assert(frames@.take(old(frames)@.len() as int) =~= old(frames)@);
        }
    }

    /// Drains the general queue front to back while the window is open.
    fn drain_general_queue(&mut self, frames: &mut Vec<OutgoingPacket>)
        requires
            old(self).wf(),
        ensures
            final(self).wf(),
            ({
                let r = spec_drain_general(old(self)@);
                &&& final(self)@ == r.0
                &&& frames_extended(
                    old(frames)@,
                    final(frames)@,
                    r.1,
                    old(self)@.next_sequence_id,
                )
            }),
    {
        let ghost m0 = self@;
        let ghost f0 = frames@;
        let ghost full = spec_drain_general(m0);
        proof {
            assert(frames@.take(f0.len() as int) =~= f0);
            assert(full.1.skip(0) =~= full.1);
            lemma_wrap_add_zero(m0.next_sequence_id);
        }
        while !self.in_flight_commands_full() && self.enqueued_commands.len() > 0
            invariant
                self.wf(),
                full == spec_drain_general(m0),
                frames@.len() - f0.len() <= full.1.len(),
                spec_drain_general(self@).0 == full.0,
                spec_drain_general(self@).1 == full.1.skip(frames@.len() - f0.len()),
                self@.next_sequence_id == wrap_add(
                    m0.next_sequence_id,
                    frames@.len() - f0.len(),
                ),
                frames_extended(
                    f0,
                    frames@,
                    full.1.take(frames@.len() - f0.len()),
                    m0.next_sequence_id,
                ),
            decreases self.enqueued_commands@.len(),
        {
            let ghost prior = self@;
            let ghost emitted = frames@.len() - f0.len();
            let ghost fh = frames@;
            let command = self.enqueued_commands.remove(0);
            proof {
                assert(self@.general_queue =~= prior.general_queue.skip(1));
                assert(command@ == prior.general_queue[0]);
            }
            let packet = self.send_command(command);
            frames.push(packet);
            proof {
                let c = prior.general_queue[0];
                let m1 = spec_after_send(
                    QueueModel { general_queue: prior.general_queue.skip(1), ..prior },
                    c,
                );
                assert(self@ == m1);
                assert(spec_drain_general(prior) == (
                    spec_drain_general(m1).0,
                    seq![c] + spec_drain_general(m1).1,
                ));
                assert(full.1.skip(emitted).len() >= 1);
                assert(emitted + 1 <= full.1.len());
                assert(full.1.skip(emitted)[0] == c);
                assert(spec_drain_general(m1).1 =~= full.1.skip(emitted + 1)) by {
                    assert(spec_drain_general(m1).1 == full.1.skip(emitted).skip(1));
                    assert(full.1.skip(emitted).skip(1) =~= full.1.skip(emitted + 1));
                }
                assert(self@.next_sequence_id == wrap_add(m0.next_sequence_id, emitted + 1)) by {
                    lemma_wrap_add_assoc(m0.next_sequence_id, emitted, 1);
                }
                let before = fh;
                assert(frames_extended(
                    f0,
                    frames@,
                    full.1.take(emitted + 1),
                    m0.next_sequence_id,
                )) by {
                    assert(frames@ == before.push(packet));
                    assert(frames_extended(f0, before, full.1.take(emitted), m0.next_sequence_id));
                    assert(frames@.take(f0.len() as int) =~= before.take(f0.len() as int));
                    assert(full.1.take(emitted + 1)[emitted] == full.1[emitted]);
                    assert(full.1[emitted] == full.1.skip(emitted)[0]);
                    assert(frames@[f0.len() + emitted] == packet);
                    assert(packet_matches(packet, c, prior.next_sequence_id));
                    assert forall|k: int| 0 <= k < emitted + 1 implies packet_matches(
                        #[trigger] frames@[f0.len() + k],
                        full.1.take(emitted + 1)[k],
                        wrap_add(m0.next_sequence_id, k),
                    ) by {
                        if k < emitted {
                            assert(frames@[f0.len() + k] == before[f0.len() + k]);
                            assert(full.1.take(emitted + 1)[k] == full.1.take(emitted)[k]);
                        }
                    }
                }
            }
        }
        proof {
            assert(spec_drain_general(self@) == (self@, Seq::<CommandModel>::empty()));
            assert(full.1.skip(frames@.len() - f0.len()) =~= Seq::<CommandModel>::empty());
            assert(full.1.take(frames@.len() - f0.len()) =~= full.1);
        }
    }

    /// One pacing step: returns, in order, the packets to write on the
    /// serial line, as `spec_try_io` describes.  The in-flight window stays
    /// within its cap throughout.
    pub fn try_io(&mut self) -> (r: Vec<OutgoingPacket>)
        requires
            old(self).wf(),
        ensures
            final(self).wf(),
            final(self)@.in_flight.len() <= final(self)@.cap,
            ({
                let t = spec_try_io(old(self)@);
                &&& final(self)@ == t.0
                &&& frames_extended(
                    Seq::<OutgoingPacket>::empty(),
                    r@,
                    t.1,
                    old(self)@.next_sequence_id,
                )
            }),
    {
        let ghost m0 = self@;
        let mut frames: Vec<OutgoingPacket> = Vec::new();
        let device_state = match self.device_state {
            Some(ds) => ds,
            None => {
                self.send_device_state_request(&mut frames);
                return frames;
            },
        };
        if device_state.network_state.is_connected() {
            let ghost fa = frames@;
            self.send_aps_data_indication_read_request(&mut frames, device_state);
            let ghost ma = self@;
            let ghost fb = frames@;
            self.send_aps_data_confirm_read_request(&mut frames, device_state);
            let ghost mb = self@;
            let ghost fc = frames@;
            self.try_send_aps_data_request(&mut frames);
            proof {
                let ra = spec_send_indication_read(m0, device_state);
                let rb = spec_send_confirm_read(ra.0, device_state);
                let rc = spec_try_send_aps(rb.0);
                assert(ma.next_sequence_id == wrap_add(
                    m0.next_sequence_id,
                    ra.1.len() as int,
                )) by {
                    if ra.1.len() == 0 {
                        lemma_wrap_add_zero(m0.next_sequence_id);
                    }
                }
                lemma_frames_extended_trans(
                    fa,
                    fb,
                    fc,
                    ra.1,
                    rb.1,
                    m0.next_sequence_id,
                );
                assert(mb.next_sequence_id == wrap_add(
                    m0.next_sequence_id,
                    (ra.1 + rb.1).len() as int,
                )) by {
                    if rb.1.len() == 0 {
                        lemma_wrap_add_zero(ma.next_sequence_id);
                    }
                    lemma_wrap_add_assoc(
                        m0.next_sequence_id,
                        ra.1.len() as int,
                        rb.1.len() as int,
                    );
                }
                lemma_frames_extended_trans(
                    fa,
                    fc,
                    frames@,
                    ra.1 + rb.1,
                    rc.1,
                    m0.next_sequence_id,
                );
                assert((ra.1 + rb.1) + rc.1 =~= ra.1 + rb.1 + rc.1);
                assert(self@.next_sequence_id == wrap_add(
                    m0.next_sequence_id,
                    (ra.1 + rb.1 + rc.1).len() as int,
                )) by {
                    if rc.1.len() == 0 {
                        lemma_wrap_add_zero(mb.next_sequence_id);
                    }
                    lemma_wrap_add_assoc(
                        m0.next_sequence_id,
                        (ra.1 + rb.1).len() as int,
                        rc.1.len() as int,
                    );
                }
            }
        }
        let ghost first = ({
            let ra = spec_send_indication_read(m0, device_state);
            let rb = spec_send_confirm_read(ra.0, device_state);
            let rc = spec_try_send_aps(rb.0);
            if m0.device_state.unwrap().network_state is NetConnected {
                (rc.0, ra.1 + rb.1 + rc.1)
            } else {
                (m0, Seq::<CommandModel>::empty())
            }
        });
        let ghost fd = frames@;
        proof {
            if !(device_state.network_state is NetConnected) {
                assert(frames@.take(0) =~= Seq::<OutgoingPacket>::empty());
            }
        }
        self.drain_general_queue(&mut frames);
        proof {
            let r2 = spec_drain_general(first.0);
            assert(self@ == r2.0);
            assert(first.0.next_sequence_id == wrap_add(
                m0.next_sequence_id,
                first.1.len() as int,
            )) by {
                if first.1.len() == 0 {
                    lemma_wrap_add_zero(m0.next_sequence_id);
                }
            }
            lemma_frames_extended_trans(
                Seq::<OutgoingPacket>::empty(),
                fd,
                frames@,
                first.1,
                r2.1,
                m0.next_sequence_id,
            );
        }
        frames
    }
}

/// Well-formedness of the multiplexer state: the in-flight window is within
/// its cap and keyed uniquely, every queued payload is small enough to
/// encode, and commands sit in the right queue (APS data submissions in
/// their own, nothing else there).
pub open spec fn model_wf(m: QueueModel) -> bool {
    &&& m.in_flight.len() <= m.cap
    &&& forall|i: int, j: int|
        #![trigger m.in_flight[i], m.in_flight[j]]
        0 <= i < j < m.in_flight.len() ==> !key_matches(
            m.in_flight[i],
            m.in_flight[j].command_id,
            m.in_flight[j].sequence_id,
        )
    &&& forall|i: int|
        0 <= i < m.general_queue.len() ==> payload_fits(
            (#[trigger] m.general_queue[i]).payload,
        )
    &&& forall|i: int|
        0 <= i < m.aps_queue.len() ==> payload_fits((#[trigger] m.aps_queue[i]).payload)
    &&& forall|i: int|
        0 <= i < m.general_queue.len() ==> (#[trigger] m.general_queue[i]).command_id
            != CommandId::ApsDataRequest
    &&& forall|i: int|
        0 <= i < m.aps_queue.len() ==> (#[trigger] m.aps_queue[i]).command_id
            == CommandId::ApsDataRequest
}

/// What the surrounding task is to do with one incoming frame.
#[derive(Debug)]
pub enum DispatchAction {
    /// Only the device state was updated.
    StateUpdated,
    /// An unsolicited MAC beacon was decoded, for observational logging.
    Beacon(MACBeaconIndication),
    /// An unsolicited MAC poll was decoded, for observational logging.
    Poll(MACPollIndication),
    /// The frame answers the external in-flight command that `token` names:
    /// hand it to that caller's continuation.
    Deliver { token: u64, frame: DeconzFrame },
    /// An internally read APS data indication: publish it to subscribers.
    Broadcast(ReadReceivedDataResponse),
    /// An internally read APS data confirm, for observational logging.
    Confirm(ReadConfirmDataResponse),
    /// The frame matched nothing (or was malformed) and is dropped; this is
    /// never fatal.
    Dropped,
}

/// The device-state byte piggybacked on a response body, by command: a
/// device-state read carries it first, and the three APS commands carry it
/// right after their payload length field.  Other responses carry none.
pub open spec fn spec_embedded_device_state(cid: CommandId, body: Seq<u8>) -> Option<DeviceState> {
    if cid == CommandId::DeviceState {
        if body.len() >= 1 {
            Some(DeviceState::spec_from_flags(body[0]))
        } else {
            None
        }
    } else if cid == CommandId::ApsDataRequest || cid == CommandId::ApsDataIndication || cid
        == CommandId::ApsDataConfirm {
        if body.len() >= 3 {
            Some(DeviceState::spec_from_flags(body[2]))
        } else {
            None
        }
    } else {
        None
    }
}

/// Reads the piggybacked device-state byte of a response without consuming
/// the frame, as `spec_embedded_device_state` describes.
fn embedded_device_state(frame: &DeconzFrame) -> (r: Option<DeviceState>)
    ensures
        r == spec_embedded_device_state(frame.spec_command_id(), frame.remaining_bytes()),
{
    let cid = frame.command_id();
    match cid {
        CommandId::DeviceState => {
            if frame.remaining() >= 1 {
                Some(DeviceState::from_flags(frame.remaining_byte(0)))
            } else {
                None
            }
        },
        CommandId::ApsDataRequest | CommandId::ApsDataIndication | CommandId::ApsDataConfirm => {
            if frame.remaining() >= 3 {
                Some(DeviceState::from_flags(frame.remaining_byte(2)))
            } else {
                None
            }
        },
        _ => None,
    }
}

impl DeconzQueue {
    /// Dispatches one incoming frame.
    ///
    /// An unsolicited device-state change updates the state; MAC beacon and
    /// poll indications are decoded and handed back; everything else goes
    /// through the `(command_id, sequence_id)` in-flight lookup.  A matched
    /// external entry is removed and delivered exactly once, with any
    /// piggybacked device-state byte applied first; a matched internal entry
    /// is consumed by the scheduler itself; an unmatched frame is dropped.
    /// Every device-state byte observed here replaces `last_device_state`
    /// and recomputes the submission signal before the method returns, so
    /// before any later pacing decision.
    pub fn handle_deconz_frame(&mut self, frame: DeconzFrame) -> (r: DispatchAction)
        requires
            old(self).wf(),
        ensures
            final(self).wf(),
            ({
                let m = old(self)@;
                let cid = frame.spec_command_id();
                let sq = frame.spec_sequence_id();
                let body = frame.remaining_bytes();
                if cid == CommandId::DeviceStateChanged {
                    if body.len() >= 1 {
                        &&& final(self)@ == spec_observe(
                            m,
                            DeviceState::spec_from_flags(body[0]),
                        )
                        &&& r is StateUpdated
                    } else {
                        &&& final(self)@ == m
                        &&& r is Dropped
                    }
                } else if cid == CommandId::MacBeaconIndication {
                    &&& final(self)@ == m
                    &&& (body.len() >= 9 <==> r is Beacon)
                    &&& (body.len() < 9 ==> r is Dropped)
                    &&& (r matches DispatchAction::Beacon(b)
                        ==> crate::protocol::mac::beacon_matches(b, body))
                } else if cid == CommandId::MacPollIndication {
                    &&& final(self)@ == m
                    &&& (crate::protocol::mac::spec_poll_parses(body) <==> r is Poll)
                    &&& (!crate::protocol::mac::spec_poll_parses(body) ==> r is Dropped)
                    &&& (r matches DispatchAction::Poll(p)
                        ==> crate::protocol::mac::poll_matches(p, body))
                } else {
                    let m1 = QueueModel { in_flight: spec_remove(m.in_flight, cid, sq), ..m };
                    match spec_lookup(m.in_flight, cid, sq) {
                        None => final(self)@ == m && r is Dropped,
                        Some(InFlightCommand::External { token }) => {
                            &&& (match spec_embedded_device_state(cid, body) {
                                Some(ds) => final(self)@ == spec_observe(m1, ds),
                                None => final(self)@ == m1,
                            })
                            &&& (r matches DispatchAction::Deliver { token: t, frame: f }
                                && t == token && f == frame)
                        },
                        Some(InFlightCommand::Internal) => {
                            if cid == CommandId::ApsDataIndication {
                                match spec_parse_received_data(body) {
                                    Some(model) => {
                                        &&& final(self)@ == spec_observe(m1, model.device_state)
                                        &&& (r matches DispatchAction::Broadcast(resp)
                                            && resp.matches_model(model))
                                    },
                                    None => final(self)@ == m1 && r is Dropped,
                                }
                            } else if cid == CommandId::ApsDataConfirm {
                                match spec_parse_confirm_data(body) {
                                    Some(confirm) => {
                                        &&& final(self)@ == spec_observe(
                                            m1,
                                            confirm.device_state,
                                        )
                                        &&& (r matches DispatchAction::Confirm(resp)
                                            && resp == confirm)
                                    },
                                    None => final(self)@ == m1 && r is Dropped,
                                }
                            } else if cid == CommandId::DeviceState {
                                if body.len() >= 1 {
                                    &&& final(self)@ == spec_observe(
                                        m1,
                                        DeviceState::spec_from_flags(body[0]),
                                    )
                                    &&& r is StateUpdated
                                } else {
                                    final(self)@ == m1 && r is Dropped
                                }
                            } else {
                                final(self)@ == m1 && r is Dropped
                            }
                        },
                    }
                }
            }),
    {
        let cid = frame.command_id();
        match cid {
            CommandId::DeviceStateChanged => {
                let mut frame = frame;
                if frame.remaining() < 1 {
                    return DispatchAction::Dropped;
                }
                let flags = frame.get_u8();
                self.update_device_state(DeviceState::from_flags(flags));
                DispatchAction::StateUpdated
            },
            CommandId::MacBeaconIndication => {
                match MACBeaconIndication::from_frame(frame) {
                    Some((beacon, _)) => DispatchAction::Beacon(beacon),
                    None => DispatchAction::Dropped,
                }
            },
            CommandId::MacPollIndication => {
                match MACPollIndication::from_frame(frame) {
                    Some((poll, _)) => DispatchAction::Poll(poll),
                    None => DispatchAction::Dropped,
                }
            },
            _ => {
                let sequence_id = frame.sequence_id();
                match self.take_in_flight_command(cid, sequence_id) {
                    None => {
                        proof {
                            lemma_remove_absent(old(self)@.in_flight, cid, sequence_id);
                        }
                        DispatchAction::Dropped
                    },
                    Some(InFlightCommand::External { token }) => {
                        match embedded_device_state(&frame) {
                            Some(ds) => self.update_device_state(ds),
                            None => {},
                        }
                        DispatchAction::Deliver { token, frame }
                    },
                    Some(InFlightCommand::Internal) => {
                        match cid {
                            CommandId::ApsDataIndication => {
                                match ReadReceivedDataResponse::from_frame(frame) {
                                    Some((response, device_state)) => {
                                        match device_state {
                                            Some(ds) => self.update_device_state(ds),
                                            None => {},
                                        }
                                        DispatchAction::Broadcast(response)
                                    },
                                    None => DispatchAction::Dropped,
                                }
                            },
                            CommandId::ApsDataConfirm => {
                                match ReadConfirmDataResponse::from_frame(frame) {
                                    Some((response, device_state)) => {
                                        match device_state {
                                            Some(ds) => self.update_device_state(ds),
                                            None => {},
                                        }
                                        DispatchAction::Confirm(response)
                                    },
                                    None => DispatchAction::Dropped,
                                }
                            },
                            CommandId::DeviceState => {
                                let mut frame = frame;
                                if frame.remaining() < 1 {
                                    return DispatchAction::Dropped;
                                }
                                let flags = frame.get_u8();
                                self.update_device_state(DeviceState::from_flags(flags));
                                DispatchAction::StateUpdated
                            },
                            _ => DispatchAction::Dropped,
                        }
                    },
                }
            },
        }
    }
}

proof fn lemma_drain_general_preserves(m: QueueModel)
    requires
        forall|i: int|
            0 <= i < m.general_queue.len() ==> (#[trigger] m.general_queue[i]).command_id
                != CommandId::ApsDataRequest,
    ensures
        spec_drain_general(m).0.aps_status == m.aps_status,
        forall|k: int|
            0 <= k < spec_drain_general(m).1.len() ==> (#[trigger] spec_drain_general(
                m,
            ).1[k]).command_id != CommandId::ApsDataRequest,
    decreases m.general_queue.len(),
{
    if m.in_flight.len() >= m.cap || m.general_queue.len() == 0 {
    } else {
        let c = m.general_queue[0];
        let m1 = spec_after_send(QueueModel { general_queue: m.general_queue.skip(1), ..m }, c);
        lemma_drain_general_preserves(m1);
        let r = spec_drain_general(m);
        let r1 = spec_drain_general(m1);
        assert(r.1 == seq![c] + r1.1);
        assert forall|k: int| 0 <= k < r.1.len() implies (#[trigger] r.1[k]).command_id
            != CommandId::ApsDataRequest by {
            if k > 0 {
                assert(r.1[k] == r1.1[k - 1]);
            }
        }
    }
}

/// Whether a pacing step's sent commands include an APS data submission.
pub open spec fn sends_contain_aps_submission(sends: Seq<CommandModel>) -> bool {
    exists|k: int|
        0 <= k < sends.len() && (#[trigger] sends[k]).command_id == CommandId::ApsDataRequest
}

/// The flow-control law of APS submissions: a pacing step that sent a
/// submission leaves the signal at pending-next-device-update — not at
/// slots-available — and only a device-state observation (`spec_observe`)
/// can lift it again; a step that sent none leaves the signal unchanged.
pub proof fn lemma_aps_submission_blocks_until_observation(m: QueueModel)
    requires
        model_wf(m),
    ensures
        sends_contain_aps_submission(spec_try_io(m).1) ==> spec_try_io(
            m,
        ).0.aps_status is PendingNextDeviceUpdate,
        !sends_contain_aps_submission(spec_try_io(m).1) ==> spec_try_io(m).0.aps_status
            == m.aps_status,
{
    match m.device_state {
        None => {
            let sends = spec_try_io(m).1;
            assert(forall|k: int|
                0 <= k < sends.len() ==> (#[trigger] sends[k]).command_id
                    != CommandId::ApsDataRequest);
            assert(!sends_contain_aps_submission(sends));
        },
        Some(ds) => {
            let first = if ds.network_state is NetConnected {
                let ra = spec_send_indication_read(m, ds);
                let rb = spec_send_confirm_read(ra.0, ds);
                let rc = spec_try_send_aps(rb.0);
                (rc.0, ra.1 + rb.1 + rc.1)
            } else {
                (m, Seq::<CommandModel>::empty())
            };
            let r2 = spec_drain_general(first.0);
            assert(first.0.general_queue == m.general_queue);
            lemma_drain_general_preserves(first.0);
            let sends = first.1 + r2.1;
            assert(spec_try_io(m).1 == sends);
            assert(spec_try_io(m).0 == r2.0);
            if ds.network_state is NetConnected {
                let ra = spec_send_indication_read(m, ds);
                let rb = spec_send_confirm_read(ra.0, ds);
                let rc = spec_try_send_aps(rb.0);
                if rc.1.len() > 0 {
                    assert(rc.0.aps_status is PendingNextDeviceUpdate);
                    assert(r2.0.aps_status is PendingNextDeviceUpdate);
                    let idx = ra.1.len() + rb.1.len();
                    assert(rb.0.aps_queue == m.aps_queue);
                    assert(rc.1[0] == m.aps_queue[0]);
                    assert(first.1[idx as int] == rc.1[0]);
                    assert(sends[idx as int].command_id == CommandId::ApsDataRequest);
                    assert(sends_contain_aps_submission(sends));
                } else {
                    assert(rc.0.aps_status == m.aps_status);
                    assert forall|k: int|
                        0 <= k < sends.len() implies (#[trigger] sends[k]).command_id
                        != CommandId::ApsDataRequest by {
                        if k < first.1.len() {
                            assert(sends[k] == first.1[k]);
                            assert(first.1 =~= ra.1 + rb.1);
                        } else {
                            assert(sends[k] == r2.1[k - first.1.len()]);
                        }
                    }
                    assert(!sends_contain_aps_submission(sends));
                }
            } else {
                assert forall|k: int|
                    0 <= k < sends.len() implies (#[trigger] sends[k]).command_id
                    != CommandId::ApsDataRequest by {
                    assert(sends[k] == r2.1[k]);
                }
                assert(!sends_contain_aps_submission(sends));
            }
        },
    }
}

} // verus!
