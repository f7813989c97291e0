//! USB CDC (Communications Device Class): the modes, line settings and
//! events of the virtual serial port, and the decisions taken around the
//! firmware calls that drive it.

use vstd::prelude::*;
use crate::bits::{has_bit, lemma_u32_bit0, lemma_u32_bit1};

verus! {

/// USB CDC operating mode.
#[derive(Debug, Clone, Copy, PartialEq, Eq, Structural)]
pub enum CdcMode {
    /// Single CDC port. App owns channel 0. Flipper CLI is unavailable.
    Single,
    /// Dual CDC port. Channel 0 = firmware CLI, channel 1 = app data.
    Dual,
}

/// Interface number that the app's channel has in `mode`.
pub open spec fn mode_interface(mode: CdcMode) -> u8 {
    match mode {
        CdcMode::Single => 0,
        CdcMode::Dual => 1,
    }
}

impl CdcMode {
    /// Interface number of the app's channel in this mode.
    pub fn interface_number(self) -> (n: u8)
        ensures
            n == mode_interface(self),
    {
        match self {
            CdcMode::Single => 0,
            CdcMode::Dual => 1,
        }
    }
}

/// USB CDC errors.
#[derive(Debug, Clone, Copy, PartialEq, Eq, Structural)]
pub enum Error {
    /// USB mode switch is locked by another component.
    UsbLocked,
}

/// First decision of enabling CDC mode: a USB mode that another component
/// has locked is refused; otherwise the interface of `mode` is configured.
pub fn enable_begin(mode: CdcMode, usb_locked: bool) -> (r: Result<u8, Error>)
    ensures
        usb_locked ==> r == Err::<u8, Error>(Error::UsbLocked),
        !usb_locked ==> r == Ok::<u8, Error>(mode_interface(mode)),
{
    if usb_locked {
        return Err(Error::UsbLocked);
    }
    Ok(mode.interface_number())
}

/// Last decision of enabling CDC mode: the interface `if_num` is kept (and
/// the USB mode locked) only if the firmware accepted the new configuration.
pub fn enable_finish(if_num: u8, config_accepted: bool) -> (r: Result<u8, Error>)
    ensures
        config_accepted ==> r == Ok::<u8, Error>(if_num),
        !config_accepted ==> r == Err::<u8, Error>(Error::UsbLocked),
{
    if !config_accepted {
        return Err(Error::UsbLocked);
    }
    Ok(if_num)
}

/// Number of bytes that a receive call delivered, given the firmware's
/// signed count (negative means no data).
pub open spec fn received_count(received: i32) -> int {
    if received > 0 { received as int } else { 0 }
}

/// Number of bytes that a receive call delivered, given the firmware's
/// signed count (negative means no data).
pub fn received_len(received: i32) -> (n: usize)
    ensures
        n == received_count(received),
{
    if received < 0 { 0 } else { received as usize }
}

/// The raw line coding record that the host sets (`usb_cdc_line_coding`).
#[derive(Debug, Clone, Copy, PartialEq, Eq, Structural)]
pub struct RawLineCoding {
    /// Data terminal rate, in bits per second.
    pub dte_rate: u32,
    /// Stop bits code.
    pub char_format: u8,
    /// Parity code.
    pub parity_type: u8,
    /// Number of data bits.
    pub data_bits: u8,
}

/// USB CDC line coding parameters set by the host.
#[derive(Debug, Clone, Copy, PartialEq, Eq, Structural)]
pub struct LineCoding {
    /// Baud rate in bits per second.
    pub baud_rate: u32,
    /// Stop bits.
    pub stop_bits: StopBits,
    /// Parity type.
    pub parity: Parity,
    /// Data bits.
    pub data_bits: DataBits,
}

impl LineCoding {
    /// Decodes the raw record set by the host.
    pub fn from_raw(raw: RawLineCoding) -> (r: LineCoding)
        ensures
            r.baud_rate == raw.dte_rate,
            r.stop_bits == stop_bits_of(raw.char_format),
            r.parity == parity_of(raw.parity_type),
            r.data_bits == data_bits_of(raw.data_bits),
    {
        LineCoding {
            baud_rate: raw.dte_rate,
            stop_bits: StopBits::from_raw(raw.char_format),
            parity: Parity::from_raw(raw.parity_type),
            data_bits: DataBits::from_raw(raw.data_bits),
        }
    }
}

/// Stop bits setting.
#[derive(Debug, Clone, Copy, PartialEq, Eq, Structural)]
pub enum StopBits {
    One,
    OneAndHalf,
    Two,
    /// Unknown value from the host.
    Unknown(u8),
}

/// Stop bits setting that the code `v` stands for.
pub open spec fn stop_bits_of(v: u8) -> StopBits {
    if v == 0 {
        StopBits::One
    } else if v == 1 {
        StopBits::OneAndHalf
    } else if v == 2 {
        StopBits::Two
    } else {
        StopBits::Unknown(v)
    }
}

impl StopBits {
    /// Decodes a stop bits code.
    pub fn from_raw(val: u8) -> (r: StopBits)
        ensures
            r == stop_bits_of(val),
    {
        match val {
            0 => StopBits::One,
            1 => StopBits::OneAndHalf,
            2 => StopBits::Two,
            v => StopBits::Unknown(v),
        }
    }
}

/// Parity setting.
#[derive(Debug, Clone, Copy, PartialEq, Eq, Structural)]
pub enum Parity {
    /// No parity bit.
    NoParity,
    Odd,
    Even,
    Mark,
    Space,
    /// Unknown value from the host.
    Unknown(u8),
}

/// Parity setting that the code `v` stands for.
pub open spec fn parity_of(v: u8) -> Parity {
    if v == 0 {
        Parity::NoParity
    } else if v == 1 {
        Parity::Odd
    } else if v == 2 {
        Parity::Even
    } else if v == 3 {
        Parity::Mark
    } else if v == 4 {
        Parity::Space
    } else {
        Parity::Unknown(v)
    }
}

impl Parity {
    /// Decodes a parity code.
    pub fn from_raw(val: u8) -> (r: Parity)
        ensures
            r == parity_of(val),
    {
        match val {
            0 => Parity::NoParity,
            1 => Parity::Odd,
            2 => Parity::Even,
            3 => Parity::Mark,
            4 => Parity::Space,
            v => Parity::Unknown(v),
        }
    }
}

/// Data bits setting.
#[derive(Debug, Clone, Copy, PartialEq, Eq, Structural)]
pub enum DataBits {
    Five,
    Six,
    Seven,
    Eight,
    Sixteen,
    /// Unknown value from the host.
    Unknown(u8),
}

/// Data bits setting that the code `v` stands for.
pub open spec fn data_bits_of(v: u8) -> DataBits {
    if v == 5 {
        DataBits::Five
    } else if v == 6 {
        DataBits::Six
    } else if v == 7 {
        DataBits::Seven
    } else if v == 8 {
        DataBits::Eight
    } else if v == 16 {
        DataBits::Sixteen
    } else {
        DataBits::Unknown(v)
    }
}

impl DataBits {
    /// Decodes a data bits code.
    pub fn from_raw(val: u8) -> (r: DataBits)
        ensures
            r == data_bits_of(val),
    {
        match val {
            5 => DataBits::Five,
            6 => DataBits::Six,
            7 => DataBits::Seven,
            8 => DataBits::Eight,
            16 => DataBits::Sixteen,
            v => DataBits::Unknown(v),
        }
    }
}

/// Decoding line settings loses nothing: distinct codes give distinct
/// settings, for the stop bits, the parity and the data bits alike.
pub proof fn lemma_line_codes_injective(a: u8, b: u8)
    ensures
        stop_bits_of(a) == stop_bits_of(b) ==> a == b,
        parity_of(a) == parity_of(b) ==> a == b,
        data_bits_of(a) == data_bits_of(b) ==> a == b,
{
}

/// Control line bit: Data Terminal Ready.
pub const CDC_CTRL_LINE_DTR: u8 = 1;
/// Control line bit: Request To Send.
pub const CDC_CTRL_LINE_RTS: u8 = 2;

/// Control line state from the host (DTR/RTS).
#[derive(Debug, Clone, Copy, PartialEq, Eq, Structural)]
pub struct CtrlLineState(pub u8);

impl CtrlLineState {
    /// Data Terminal Ready signal.
    pub fn dtr(&self) -> (r: bool)
        ensures
            r == has_bit(self.0 as int, 0),
    {
        proof { lemma_u32_bit0(self.0 as u32); }
        let state: u8 = self.0;
        proof {
            assert((state & 1u8 != 0) == ((state as u32) & 1u32 != 0)) by (bit_vector);
        }
        state & CDC_CTRL_LINE_DTR != 0
    }

    /// Request To Send signal.
    pub fn rts(&self) -> (r: bool)
        ensures
            r == has_bit(self.0 as int, 1),
    {
        proof { lemma_u32_bit1(self.0 as u32); }
        let state: u8 = self.0;
        proof {
            assert((state & 2u8 != 0) == ((state as u32) & 2u32 != 0)) by (bit_vector);
        }
        state & CDC_CTRL_LINE_RTS != 0
    }
}

/// Set of events signalled to the CDC receiving worker thread.
#[derive(Debug, Clone, Copy, PartialEq, Eq, Structural)]
pub struct WorkerEvent(pub u32);

impl WorkerEvent {
    /// Stop worker.
    pub const FLAG_STOP: u32 = 1;
    /// New data available.
    pub const FLAG_DATA: u32 = 2;
    /// Mask of all supported events.
    pub const MASK: u32 = Self::FLAG_STOP | Self::FLAG_DATA;

    /// The stop event is set.
    pub fn is_stop(self) -> (r: bool)
        ensures
            r == has_bit(self.0 as int, 0),
    {
        proof { lemma_u32_bit0(self.0); }
        self.0 & Self::FLAG_STOP != 0
    }

    /// The data-received event is set.
    pub fn is_rx_data(self) -> (r: bool)
        ensures
            r == has_bit(self.0 as int, 1),
    {
        proof { lemma_u32_bit1(self.0); }
        self.0 & Self::FLAG_DATA != 0
    }

    /// What the worker does on waking up with this set of events: a stop
    /// request wins, received data is drained, anything else waits again.
    pub fn worker_step(self) -> (r: WorkerStep)
        ensures
            r == (if has_bit(self.0 as int, 0) {
                WorkerStep::Stop
            } else if has_bit(self.0 as int, 1) {
                WorkerStep::DrainRx
            } else {
                WorkerStep::Wait
            }),
    {
        if self.is_stop() {
            WorkerStep::Stop
        } else if self.is_rx_data() {
            WorkerStep::DrainRx
        } else {
            WorkerStep::Wait
        }
    }
}

/// Next action of the receiving worker.
#[derive(Debug, Clone, Copy, PartialEq, Eq, Structural)]
pub enum WorkerStep {
    /// Leave the worker loop.
    Stop,
    /// Pull everything out of the receive stream and hand it to the callback.
    DrainRx,
    /// Wait for the next events.
    Wait,
}

/// Size of the chunks in which received data is pulled from the endpoint and
/// handed to the callback.
pub const CDC_WORKER_BUFFER_LEN: usize = 64;

/// Worker events that the receive-endpoint callback raises after a receive
/// call that returned `received`.
pub open spec fn rx_callback_flags(received: i32) -> u32 {
    if received > 0 { WorkerEvent::FLAG_DATA } else { 0 }
}

/// What the receive-endpoint callback signals is what the worker acts on:
/// the flags lie within `WorkerEvent::MASK`, never ask the worker to stop,
/// and ask it to drain exactly when data arrived.
pub proof fn lemma_rx_reaches_worker(received: i32)
    ensures
        rx_callback_flags(received) & WorkerEvent::MASK == rx_callback_flags(received),
        !has_bit(rx_callback_flags(received) as int, 0),
        has_bit(rx_callback_flags(received) as int, 1) == (received > 0),
{
    let f = rx_callback_flags(received);
    assert(1u32 | 2u32 == 3u32) by (bit_vector);
    assert(WorkerEvent::MASK == 3u32);
    lemma_u32_bit0(f);
    lemma_u32_bit1(f);
    assert(0u32 & 3u32 == 0u32 && 2u32 & 3u32 == 2u32) by (bit_vector);
    assert(0u32 & 1u32 == 0u32 && 0u32 & 2u32 == 0u32) by (bit_vector);
    assert(2u32 & 1u32 == 0u32 && 2u32 & 2u32 != 0u32) by (bit_vector);
}

/// How the receive-endpoint callback answers a receive call that returned
/// `received`: how many bytes it forwards, and the worker events it raises
/// (none when nothing arrived).
pub fn rx_callback_response(received: i32) -> (r: (usize, u32))
    ensures
        r.0 == received_count(received),
        r.1 == rx_callback_flags(received),
{
    if received > 0 {
        (received as usize, WorkerEvent::FLAG_DATA)
    } else {
        (0, 0)
    }
}

} // verus!
