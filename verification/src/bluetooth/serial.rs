//! BLE serial profile: the event flags exchanged between the profile's
//! callback and the receiving worker, and the decisions both of them take.

use vstd::prelude::*;
use crate::bits::{has_bit, lemma_u32_bit0, lemma_u32_bit1, lemma_u32_bit2};

verus! {

/// BLE serial errors.
#[derive(Debug, Clone, Copy, PartialEq, Eq, Structural)]
pub enum Error {
    /// Failed to start the BLE serial profile.
    FailedToStartProfile,
}

/// Set of events signalled to the BLE serial worker thread.
#[derive(Debug, Clone, Copy, PartialEq, Eq, Structural)]
pub struct WorkerEvent(pub u32);

impl WorkerEvent {
    /// Stop worker.
    pub const FLAG_STOP: u32 = 1;
    /// New data available.
    pub const FLAG_DATA: u32 = 2;
    /// Data sent notification.
    pub const FLAG_DATA_SENT: u32 = 4;
    /// Mask of all supported events.
    pub const MASK: u32 = Self::FLAG_STOP | Self::FLAG_DATA | Self::FLAG_DATA_SENT;

    /// The stop event is set.
    pub fn is_stop(self) -> (r: bool)
        ensures
            r == has_bit(self.0 as int, 0),
    {
        proof { lemma_u32_bit0(self.0); }
        self.0 & Self::FLAG_STOP != 0
    }

    /// The data-received event is set.
    pub fn is_rx_data(self) -> (r: bool)
        ensures
            r == has_bit(self.0 as int, 1),
    {
        proof { lemma_u32_bit1(self.0); }
        self.0 & Self::FLAG_DATA != 0
    }

    /// The data-sent event is set.
    pub fn is_data_sent(self) -> (r: bool)
        ensures
            r == has_bit(self.0 as int, 2),
    {
        proof { lemma_u32_bit2(self.0); }
        self.0 & Self::FLAG_DATA_SENT != 0
    }

    /// What the worker does on waking up with this set of events: a stop
    /// request wins over everything, received data is drained next, and any
    /// other wake-up (such as a data-sent notification) sends it back to waiting.
    pub fn worker_step(self) -> (r: WorkerStep)
        ensures
            r == (if has_bit(self.0 as int, 0) {
                WorkerStep::Stop
            } else if has_bit(self.0 as int, 1) {
                WorkerStep::DrainRx
            } else {
                WorkerStep::Wait
            }),
    {
        if self.is_stop() {
            WorkerStep::Stop
        } else if self.is_rx_data() {
            WorkerStep::DrainRx
        } else {
            WorkerStep::Wait
        }
    }
}

/// Next action of the receiving worker.
#[derive(Debug, Clone, Copy, PartialEq, Eq, Structural)]
pub enum WorkerStep {
    /// Leave the worker loop.
    Stop,
    /// Pull everything out of the receive stream and hand it to the callback.
    DrainRx,
    /// Wait for the next events.
    Wait,
}

/// Size of the buffer that the profile's event callback is registered with.
pub const BLE_SERIAL_BUFFER_SIZE: u16 = 128;

/// Size of the chunks in which the worker hands received data to the callback.
pub const BLE_SERIAL_WORKER_BUFFER_LEN: usize = 64;

/// Serial service event: data received from the peer.
pub const SERIAL_SERVICE_EVENT_DATA_RECEIVED: u8 = 0;
/// Serial service event: data sent to the peer.
pub const SERIAL_SERVICE_EVENT_DATA_SENT: u8 = 1;
/// Serial service event: the BLE stack requests a reset.
pub const SERIAL_SERVICE_EVENT_BLE_RESET_REQUEST: u8 = 2;

/// Worker events that a serial service event of type `event` raises.
pub open spec fn event_flags(event: u8) -> u32 {
    if event == SERIAL_SERVICE_EVENT_DATA_RECEIVED {
        WorkerEvent::FLAG_DATA
    } else if event == SERIAL_SERVICE_EVENT_DATA_SENT {
        WorkerEvent::FLAG_DATA_SENT
    } else if event == SERIAL_SERVICE_EVENT_BLE_RESET_REQUEST {
        WorkerEvent::FLAG_STOP
    } else {
        0
    }
}

/// How the profile's event callback answers one serial service event.
#[derive(Debug, Clone, Copy, PartialEq, Eq, Structural)]
pub struct EventResponse {
    /// The event's data goes into the receive stream.
    pub forward_data: bool,
    /// Worker events to signal; none are signalled when this is 0.
    pub flags: u32,
    /// Number of bytes reported back to the firmware as consumed.
    pub consumed: u16,
}

/// Decision of the profile's event callback for an event of type `event`
/// carrying `data_size` bytes: received data is forwarded and consumed in
/// full, and each event type raises its own worker event.
pub fn event_response(event: u8, data_size: u16) -> (r: EventResponse)
    ensures
        r.forward_data == (event == SERIAL_SERVICE_EVENT_DATA_RECEIVED),
        r.flags == event_flags(event),
        r.consumed == (if event == SERIAL_SERVICE_EVENT_DATA_RECEIVED { data_size } else { 0 }),
{
    let mut flags: u32 = 0;
    let mut consumed: u16 = 0;
    let mut forward_data = false;

    if event == SERIAL_SERVICE_EVENT_DATA_RECEIVED {
        forward_data = true;
        flags = flags | WorkerEvent::FLAG_DATA;
        consumed = data_size;
    }
    if event == SERIAL_SERVICE_EVENT_DATA_SENT {
        flags = flags | WorkerEvent::FLAG_DATA_SENT;
    }
    if event == SERIAL_SERVICE_EVENT_BLE_RESET_REQUEST {
        flags = flags | WorkerEvent::FLAG_STOP;
    }
    proof {
        assert(0u32 | 1u32 == 1u32 && 0u32 | 2u32 == 2u32 && 0u32 | 4u32 == 4u32) by (bit_vector);
    }
    EventResponse { forward_data, flags, consumed }
}

/// Every event that the callback signals is one the worker wakes up for:
/// the raised flags lie within `WorkerEvent::MASK`, and the worker reads a
/// reset request as a stop, received data as data to drain, and a sent
/// notification as neither.
pub proof fn lemma_event_reaches_worker(event: u8)
    ensures
        event_flags(event) & WorkerEvent::MASK == event_flags(event),
        has_bit(event_flags(event) as int, 0) == (event == SERIAL_SERVICE_EVENT_BLE_RESET_REQUEST),
        has_bit(event_flags(event) as int, 1) == (event == SERIAL_SERVICE_EVENT_DATA_RECEIVED),
        has_bit(event_flags(event) as int, 2) == (event == SERIAL_SERVICE_EVENT_DATA_SENT),
{
    let f = event_flags(event);
    assert(1u32 | 2u32 | 4u32 == 7u32) by (bit_vector);
    assert(WorkerEvent::MASK == 7u32);
    lemma_u32_bit0(f);
    lemma_u32_bit1(f);
    lemma_u32_bit2(f);
    assert(0u32 & 7u32 == 0u32 && 1u32 & 7u32 == 1u32 && 2u32 & 7u32 == 2u32 && 4u32 & 7u32 == 4u32) by (bit_vector);
    assert(0u32 & 1u32 == 0u32 && 0u32 & 2u32 == 0u32 && 0u32 & 4u32 == 0u32) by (bit_vector);
    assert(1u32 & 1u32 != 0u32 && 1u32 & 2u32 == 0u32 && 1u32 & 4u32 == 0u32) by (bit_vector);
    assert(2u32 & 1u32 == 0u32 && 2u32 & 2u32 != 0u32 && 2u32 & 4u32 == 0u32) by (bit_vector);
    assert(4u32 & 1u32 == 0u32 && 4u32 & 2u32 == 0u32 && 4u32 & 4u32 != 0u32) by (bit_vector);
}

} // verus!
