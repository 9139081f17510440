//! A 2681-style dual UART: two serial channels whose bytes travel to and from
//! host-side byte channels, plus the output and input port bits that also
//! carry the NVRAM lines.
use vstd::prelude::*;

use std::cell::Cell;
use std::rc::Rc;
use std::sync::mpsc::{Receiver, SyncSender};

use crate::channel::{flag_get, new_flag, share_flag, sync_channel, try_recv, try_send};

verus! {

/// Ticks a channel waits after receiving a byte before it takes the next, so
/// that the firmware can react to XON/XOFF.
pub const DUART_COOLDOWN_TICKS: u16 = 100;

/// Ticks after power-on during which the DUART does nothing.
pub const DUART_RESET_TICKS: u16 = 0xffff;

/// Capacity of each host byte channel.
pub const HOST_CHANNEL_CAPACITY: usize = 16;

/// Registers at offsets 0-15 of the DUART window, as read.
#[derive(Clone, Copy, Debug, PartialEq, Eq, Structural)]
pub enum ReadRegister {
    ModeRegisterA,
    StatusRegisterA,
    BrgExtend,
    RxHoldingRegisterA,
    InputPortChangeRegister,
    InterruptStatusRegister,
    CounterTimerUpperValue,
    CounterTimerLowerValue,
    ModeRegisterB,
    StatusRegisterB,
    Test1x16x,
    RxHoldingRegisterB,
    ScratchPad,
    InputPortsIP0ToIP6,
    StartCounterCommand,
    StopCounterCommand,
}

/// Registers at offsets 0-15 of the DUART window, as written.
#[derive(Clone, Copy, Debug, PartialEq, Eq, Structural)]
pub enum WriteRegister {
    ModeRegisterA,
    ClockSelectRegisterA,
    CommandRegisterA,
    TxHoldingRegisterA,
    AuxControlRegister,
    InterruptMaskRegister,
    CounterTimerUpperPreset,
    CounterTimerLowerPreset,
    ModeRegisterB,
    ClockSelectRegisterB,
    CommandRegisterB,
    TxHoldingRegisterB,
    ScratchPad,
    InputPortConfRegister,
    SetOutputPortBitsCommand,
    ResetOutputPortBitsCommand,
}

pub open spec fn spec_read_register(offset: u8) -> ReadRegister {
    match offset {
        0 => ReadRegister::ModeRegisterA,
        1 => ReadRegister::StatusRegisterA,
        2 => ReadRegister::BrgExtend,
        3 => ReadRegister::RxHoldingRegisterA,
        4 => ReadRegister::InputPortChangeRegister,
        5 => ReadRegister::InterruptStatusRegister,
        6 => ReadRegister::CounterTimerUpperValue,
        7 => ReadRegister::CounterTimerLowerValue,
        8 => ReadRegister::ModeRegisterB,
        9 => ReadRegister::StatusRegisterB,
        10 => ReadRegister::Test1x16x,
        11 => ReadRegister::RxHoldingRegisterB,
        12 => ReadRegister::ScratchPad,
        13 => ReadRegister::InputPortsIP0ToIP6,
        14 => ReadRegister::StartCounterCommand,
        _ => ReadRegister::StopCounterCommand,
    }
}

pub open spec fn spec_write_register(offset: u8) -> WriteRegister {
    match offset {
        0 => WriteRegister::ModeRegisterA,
        1 => WriteRegister::ClockSelectRegisterA,
        2 => WriteRegister::CommandRegisterA,
        3 => WriteRegister::TxHoldingRegisterA,
        4 => WriteRegister::AuxControlRegister,
        5 => WriteRegister::InterruptMaskRegister,
        6 => WriteRegister::CounterTimerUpperPreset,
        7 => WriteRegister::CounterTimerLowerPreset,
        8 => WriteRegister::ModeRegisterB,
        9 => WriteRegister::ClockSelectRegisterB,
        10 => WriteRegister::CommandRegisterB,
        11 => WriteRegister::TxHoldingRegisterB,
        12 => WriteRegister::ScratchPad,
        13 => WriteRegister::InputPortConfRegister,
        14 => WriteRegister::SetOutputPortBitsCommand,
        _ => WriteRegister::ResetOutputPortBitsCommand,
    }
}

impl ReadRegister {
    /// The register at `offset` in the DUART window; `Err` past 15.
    pub fn from_offset(offset: u8) -> (r: Result<ReadRegister, ()>)
        ensures
            offset < 16 ==> r == Ok::<ReadRegister, ()>(spec_read_register(offset)),
            offset >= 16 ==> r == Err::<ReadRegister, ()>(()),
    {
        match offset {
            0 => Ok(ReadRegister::ModeRegisterA),
            1 => Ok(ReadRegister::StatusRegisterA),
            2 => Ok(ReadRegister::BrgExtend),
            3 => Ok(ReadRegister::RxHoldingRegisterA),
            4 => Ok(ReadRegister::InputPortChangeRegister),
            5 => Ok(ReadRegister::InterruptStatusRegister),
            6 => Ok(ReadRegister::CounterTimerUpperValue),
            7 => Ok(ReadRegister::CounterTimerLowerValue),
            8 => Ok(ReadRegister::ModeRegisterB),
            9 => Ok(ReadRegister::StatusRegisterB),
            10 => Ok(ReadRegister::Test1x16x),
            11 => Ok(ReadRegister::RxHoldingRegisterB),
            12 => Ok(ReadRegister::ScratchPad),
            13 => Ok(ReadRegister::InputPortsIP0ToIP6),
            14 => Ok(ReadRegister::StartCounterCommand),
            15 => Ok(ReadRegister::StopCounterCommand),
            _ => Err(()),
        }
    }
}

impl WriteRegister {
    /// The register at `offset` in the DUART window; `Err` past 15.
    pub fn from_offset(offset: u8) -> (r: Result<WriteRegister, ()>)
        ensures
            offset < 16 ==> r == Ok::<WriteRegister, ()>(spec_write_register(offset)),
            offset >= 16 ==> r == Err::<WriteRegister, ()>(()),
    {
        match offset {
            0 => Ok(WriteRegister::ModeRegisterA),
            1 => Ok(WriteRegister::ClockSelectRegisterA),
            2 => Ok(WriteRegister::CommandRegisterA),
            3 => Ok(WriteRegister::TxHoldingRegisterA),
            4 => Ok(WriteRegister::AuxControlRegister),
            5 => Ok(WriteRegister::InterruptMaskRegister),
            6 => Ok(WriteRegister::CounterTimerUpperPreset),
            7 => Ok(WriteRegister::CounterTimerLowerPreset),
            8 => Ok(WriteRegister::ModeRegisterB),
            9 => Ok(WriteRegister::ClockSelectRegisterB),
            10 => Ok(WriteRegister::CommandRegisterB),
            11 => Ok(WriteRegister::TxHoldingRegisterB),
            12 => Ok(WriteRegister::ScratchPad),
            13 => Ok(WriteRegister::InputPortConfRegister),
            14 => Ok(WriteRegister::SetOutputPortBitsCommand),
            15 => Ok(WriteRegister::ResetOutputPortBitsCommand),
            _ => Err(()),
        }
    }
}

impl TryFrom<u8> for ReadRegister {
    type Error = ();

    /// See `ReadRegister::from_offset`.
    fn try_from(offset: u8) -> (r: Result<ReadRegister, ()>) {
        ReadRegister::from_offset(offset)
    }
}

impl vstd::std_specs::convert::TryFromSpecImpl<u8> for ReadRegister {
    open spec fn obeys_try_from_spec() -> bool {
        true
    }

    open spec fn try_from_spec(offset: u8) -> Result<ReadRegister, ()> {
        if offset < 16 {
            Ok(spec_read_register(offset))
        } else {
            Err(())
        }
    }
}

impl TryFrom<u8> for WriteRegister {
    type Error = ();

    /// See `WriteRegister::from_offset`.
    fn try_from(offset: u8) -> (r: Result<WriteRegister, ()>) {
        WriteRegister::from_offset(offset)
    }
}

impl vstd::std_specs::convert::TryFromSpecImpl<u8> for WriteRegister {
    open spec fn obeys_try_from_spec() -> bool {
        true
    }

    open spec fn try_from_spec(offset: u8) -> Result<WriteRegister, ()> {
        if offset < 16 {
            Ok(spec_write_register(offset))
        } else {
            Err(())
        }
    }
}

/// One end of a serial link: bytes in, bytes out (at most 16 waiting in each
/// direction), and the DTR flag shared by both ends.
pub struct DUARTChannel {
    pub rx: Receiver<u8>,
    pub tx: SyncSender<u8>,
    pub dtr: Rc<Cell<bool>>,
}

impl DUARTChannel {
    /// Two connected ends: what one sends the other receives. DTR starts
    /// asserted.
    pub fn new() -> (DUARTChannel, DUARTChannel) {
        let (tx, rx2) = sync_channel(HOST_CHANNEL_CAPACITY);
        let (tx2, rx) = sync_channel(HOST_CHANNEL_CAPACITY);
        let dtr = Rc::new(new_flag(true));
        let dtr2 = share_flag(&dtr);
        (DUARTChannel { rx, tx, dtr }, DUARTChannel { rx: rx2, tx: tx2, dtr: dtr2 })
    }
}

/// The device-side state of one serial channel.
#[derive(Clone, Copy, Debug, PartialEq, Eq, Structural)]
pub struct ChannelState {
    pub mr1: u8,
    pub mr2: u8,
    /// The mode register pointer has moved past MR1.
    pub mr_second: bool,
    pub rx_pending: Option<u8>,
    pub tx_pending: Option<u8>,
    pub cooldown: u16,
}

/// MR2 bit 7: transmitted bytes loop back to the receiver.
pub open spec fn is_loopback(c: ChannelState) -> bool {
    c.mr2 & 0x80 != 0
}

/// Reading the mode register: MR1 first, MR2 from then on.
pub open spec fn spec_read_mode(c: ChannelState) -> (ChannelState, u8) {
    if !c.mr_second {
        (ChannelState { mr_second: true, ..c }, c.mr1)
    } else {
        (c, c.mr2)
    }
}

/// Writing the mode register: MR1 first, MR2 from then on.
pub open spec fn spec_write_mode(c: ChannelState, value: u8) -> ChannelState {
    if !c.mr_second {
        ChannelState { mr_second: true, mr1: value, ..c }
    } else {
        ChannelState { mr2: value, ..c }
    }
}

/// The command register: bits 4-6 select reset MR pointer (1), reset the
/// receiver (2) or reset the transmitter (3); other commands do nothing.
pub open spec fn spec_command(c: ChannelState, value: u8) -> ChannelState {
    let cmd = value / 16 % 8;
    if cmd == 1 {
        ChannelState { mr_second: false, ..c }
    } else if cmd == 2 {
        ChannelState { rx_pending: None, ..c }
    } else if cmd == 3 {
        ChannelState { tx_pending: None, ..c }
    } else {
        c
    }
}

/// Status register: bit 0 receiver ready, bits 2-3 transmitter ready and
/// empty.
pub open spec fn spec_status(c: ChannelState) -> u8 {
    ((if c.rx_pending is Some { 1int } else { 0 }) + (if c.tx_pending is None { 0x0cint } else { 0 })) as u8
}

pub open spec fn sat_dec(v: u16) -> u16 {
    if v > 0 {
        (v - 1) as u16
    } else {
        0
    }
}

/// What one tick did on a channel's host link: the byte handed to the host
/// channel (sent without blocking; a full channel drops it), the DTR level
/// read, whether the host channel was polled, and the byte received.
#[derive(Clone, Copy, Debug, PartialEq, Eq, Structural)]
pub struct ChannelIo {
    pub sent: Option<u8>,
    pub dtr: bool,
    pub polled: bool,
    pub received: Option<u8>,
}

/// No traffic on the host link: nothing sent, nothing read.
pub open spec fn no_io() -> ChannelIo {
    ChannelIo { sent: None, dtr: false, polled: false, received: None }
}

/// What one tick does to a channel, given what happened on its host link.
/// In loopback a pending transmit byte becomes the received byte and the
/// host link is left alone. Otherwise the pending transmit byte is handed to
/// the host, the cooldown runs down, and the host channel is polled exactly
/// when the receiver is empty, DTR is asserted and the cooldown has run out;
/// a byte received then becomes the pending receive byte and restarts the
/// cooldown.
pub open spec fn channel_tick(old: ChannelState, new: ChannelState, io: ChannelIo) -> bool {
    if is_loopback(old) {
        &&& io == no_io()
        &&& new == (match old.tx_pending {
            Some(b) => ChannelState { rx_pending: Some(b), tx_pending: None, ..old },
            None => old,
        })
    } else {
        let cd = sat_dec(old.cooldown);
        &&& io.sent == old.tx_pending
        &&& io.polled == (old.rx_pending is None && io.dtr && cd == 0)
        &&& !io.polled ==> io.received is None
        &&& new == (match io.received {
            Some(b) => ChannelState {
                tx_pending: None,
                rx_pending: Some(b),
                cooldown: DUART_COOLDOWN_TICKS,
                ..old
            },
            None => ChannelState { tx_pending: None, cooldown: cd, ..old },
        })
    }
}

/// The DUART's state apart from its host links.
pub struct DuartModel {
    pub a: ChannelState,
    pub b: ChannelState,
    pub reset_sleep: u16,
    pub interrupt_mask: u8,
    pub interrupt: bool,
    pub input_bits: u8,
    pub output_bits_inv: u8,
}

pub struct DUART {
    pub channel_a: DUARTChannel,
    pub channel_b: DUARTChannel,
    pub a: ChannelState,
    pub b: ChannelState,
    /// Ticks left in the power-on delay.
    pub reset_sleep: u16,
    pub interrupt_mask: u8,
    /// The combined interrupt line.
    pub interrupt: bool,
    /// Input port bits IP0-IP6.
    pub input_bits: u8,
    /// The output port, inverted: bits 1 and 7 are DTR A and B, bits 4-6 the
    /// NVRAM's CS, SK and DI.
    pub output_bits_inv: u8,
}

impl View for DUART {
    type V = DuartModel;

    open spec fn view(&self) -> DuartModel {
        DuartModel {
            a: self.a,
            b: self.b,
            reset_sleep: self.reset_sleep,
            interrupt_mask: self.interrupt_mask,
            interrupt: self.interrupt,
            input_bits: self.input_bits,
            output_bits_inv: self.output_bits_inv,
        }
    }
}

/// What a register read returns and leaves behind.
pub open spec fn spec_read(m: DuartModel, register: ReadRegister) -> (DuartModel, u8) {
    match register {
        ReadRegister::InterruptStatusRegister => (
            m,
            ((if m.a.tx_pending is None { 0x01int } else { 0 }) + (if m.a.rx_pending is Some {
                0x02int
            } else {
                0
            }) + (if m.b.tx_pending is None { 0x10int } else { 0 }) + (if m.b.rx_pending is Some {
                0x20int
            } else {
                0
            })) as u8,
        ),
        ReadRegister::StatusRegisterA => (m, spec_status(m.a)),
        ReadRegister::StatusRegisterB => (m, spec_status(m.b)),
        ReadRegister::ModeRegisterA => {
            let (c, v) = spec_read_mode(m.a);
            (DuartModel { a: c, ..m }, v)
        },
        ReadRegister::ModeRegisterB => {
            let (c, v) = spec_read_mode(m.b);
            (DuartModel { b: c, ..m }, v)
        },
        ReadRegister::RxHoldingRegisterA => (
            DuartModel { a: ChannelState { rx_pending: None, ..m.a }, ..m },
            match m.a.rx_pending {
                Some(v) => v,
                None => 0,
            },
        ),
        ReadRegister::RxHoldingRegisterB => (
            DuartModel { b: ChannelState { rx_pending: None, ..m.b }, ..m },
            match m.b.rx_pending {
                Some(v) => v,
                None => 0,
            },
        ),
        ReadRegister::InputPortsIP0ToIP6 => (m, m.input_bits),
        _ => (m, 0),
    }
}

/// What a register write does.
pub open spec fn spec_write(m: DuartModel, register: WriteRegister, value: u8) -> DuartModel {
    match register {
        WriteRegister::CommandRegisterA => DuartModel { a: spec_command(m.a, value), ..m },
        WriteRegister::CommandRegisterB => DuartModel { b: spec_command(m.b, value), ..m },
        WriteRegister::ModeRegisterA => DuartModel { a: spec_write_mode(m.a, value), ..m },
        WriteRegister::ModeRegisterB => DuartModel { b: spec_write_mode(m.b, value), ..m },
        WriteRegister::TxHoldingRegisterA => DuartModel {
            a: ChannelState { tx_pending: Some(value), ..m.a },
            ..m
        },
        WriteRegister::TxHoldingRegisterB => DuartModel {
            b: ChannelState { tx_pending: Some(value), ..m.b },
            ..m
        },
        WriteRegister::SetOutputPortBitsCommand => DuartModel {
            output_bits_inv: m.output_bits_inv | value,
            ..m
        },
        WriteRegister::ResetOutputPortBitsCommand => DuartModel {
            output_bits_inv: m.output_bits_inv & !value,
            ..m
        },
        WriteRegister::InterruptMaskRegister => DuartModel { interrupt_mask: value, ..m },
        _ => m,
    }
}

/// What one tick does, with `io_a` and `io_b` what happened on the host
/// links: during the power-on delay it only counts down and touches neither
/// link; after it, each channel moves as `channel_tick` says, and the
/// interrupt line is raised when the mask is non-zero and either receiver
/// holds a byte.
pub open spec fn spec_tick(old: DuartModel, new: DuartModel, io_a: ChannelIo, io_b: ChannelIo) -> bool {
    if old.reset_sleep != 0 {
        &&& new == DuartModel { reset_sleep: (old.reset_sleep - 1) as u16, ..old }
        &&& io_a == no_io()
        &&& io_b == no_io()
    } else {
        &&& channel_tick(old.a, new.a, io_a)
        &&& channel_tick(old.b, new.b, io_b)
        &&& new.reset_sleep == 0
        &&& new.interrupt_mask == old.interrupt_mask
        &&& new.input_bits == old.input_bits
        &&& new.output_bits_inv == old.output_bits_inv
        &&& new.interrupt == (new.interrupt_mask != 0 && (new.a.rx_pending is Some
            || new.b.rx_pending is Some))
    }
}

fn read_mode(c: &mut ChannelState) -> (r: u8)
    ensures
        (*final(c), r) == spec_read_mode(*old(c)),
{
    if !c.mr_second {
        c.mr_second = true;
        c.mr1
    } else {
        c.mr2
    }
}

fn write_mode(c: &mut ChannelState, value: u8)
    ensures
        *final(c) == spec_write_mode(*old(c), value),
{
    if !c.mr_second {
        c.mr_second = true;
        c.mr1 = value;
    } else {
        c.mr2 = value;
    }
}

fn command(c: &mut ChannelState, value: u8)
    ensures
        *final(c) == spec_command(*old(c), value),
{
    let cmd = value / 16 % 8;
    if cmd == 1 {
        c.mr_second = false;
    } else if cmd == 2 {
        c.rx_pending = None;
    } else if cmd == 3 {
        c.tx_pending = None;
    }
}

fn status(c: &ChannelState) -> (r: u8)
    ensures
        r == spec_status(*c),
{
    let mut s: u8 = 0;
    if c.rx_pending.is_some() {
        s = s + 1;
    }
    if c.tx_pending.is_none() {
        s = s + 0x0c;
    }
    s
}

fn take_rx(c: &mut ChannelState) -> (r: u8)
    ensures
        *final(c) == (ChannelState { rx_pending: None, ..*old(c) }),
        r == (match old(c).rx_pending {
            Some(v) => v,
            None => 0,
        }),
{
    let r = match c.rx_pending {
        Some(v) => v,
        None => 0,
    };
    c.rx_pending = None;
    r
}

/// Take the byte to hand to the host: the pending transmit byte, unless the
/// channel loops back (then nothing leaves, and the byte stays for
/// `loop_back`).
pub fn take_tx(c: &mut ChannelState) -> (out: Option<u8>)
    ensures
        out == (if is_loopback(*old(c)) { None } else { old(c).tx_pending }),
        *final(c) == (if is_loopback(*old(c)) { *old(c) } else { ChannelState { tx_pending: None, ..*old(c) } }),
{
    if c.mr2 & 0x80 != 0 {
        None
    } else {
        let out = c.tx_pending;
        c.tx_pending = None;
        out
    }
}

/// In loopback, move the pending transmit byte to the receiver.
pub fn loop_back(c: &mut ChannelState)
    ensures
        *final(c) == (match old(c).tx_pending {
            Some(b) => ChannelState { rx_pending: Some(b), tx_pending: None, ..*old(c) },
            None => *old(c),
        }),
{
    if let Some(b) = c.tx_pending {
        c.rx_pending = Some(b);
        c.tx_pending = None;
    }
}

/// Run the receive cooldown down by one; return whether the host channel is
/// to be polled: the receiver is empty, DTR is asserted and the cooldown has
/// run out.
pub fn wants_rx(c: &mut ChannelState, dtr: bool) -> (r: bool)
    ensures
        *final(c) == (ChannelState { cooldown: sat_dec(old(c).cooldown), ..*old(c) }),
        r == (old(c).rx_pending is None && dtr && sat_dec(old(c).cooldown) == 0),
{
    if c.cooldown > 0 {
        c.cooldown = c.cooldown - 1;
    }
    c.rx_pending.is_none() && dtr && c.cooldown == 0
}

/// A byte arrived from the host: it is pending and the cooldown restarts.
pub fn accept_rx(c: &mut ChannelState, b: u8)
    ensures
        *final(c) == (ChannelState { rx_pending: Some(b), cooldown: DUART_COOLDOWN_TICKS, ..*old(c) }),
{
    c.rx_pending = Some(b);
    c.cooldown = DUART_COOLDOWN_TICKS;
}

/// One tick of a channel against its host link; returns what happened on
/// the link.
fn tick_channel(c: &mut ChannelState, link: &DUARTChannel) -> (io: ChannelIo)
    ensures
        channel_tick(*old(c), *final(c), io),
{
    if c.mr2 & 0x80 != 0 {
        loop_back(c);
        return ChannelIo { sent: None, dtr: false, polled: false, received: None };
    }
    let sent = take_tx(c);
    if let Some(b) = sent {
        try_send(&link.tx, b);
    }
    let dtr = flag_get(&link.dtr);
    let polled = wants_rx(c, dtr);
    let received = if polled {
        try_recv(&link.rx)
    } else {
        None
    };
    if let Some(b) = received {
        accept_rx(c, b);
    }
    ChannelIo { sent, dtr, polled, received }
}

impl DUART {
    /// A DUART in its power-on state, and the host ends of its two channels.
    pub fn new() -> (r: (DUART, DUARTChannel, DUARTChannel))
        ensures
            r.0.reset_sleep == DUART_RESET_TICKS,
            r.0.a == (ChannelState { mr1: 0, mr2: 0, mr_second: false, rx_pending: None, tx_pending: None, cooldown: 0 }),
            r.0.b == r.0.a,
            r.0.interrupt_mask == 0,
            !r.0.interrupt,
            r.0.input_bits == 0,
            r.0.output_bits_inv == 0,
    {
        let (channel_a, channel_a2) = DUARTChannel::new();
        let (channel_b, channel_b2) = DUARTChannel::new();
        let idle = ChannelState {
            mr1: 0,
            mr2: 0,
            mr_second: false,
            rx_pending: None,
            tx_pending: None,
            cooldown: 0,
        };
        (
            DUART {
                channel_a,
                channel_b,
                a: idle,
                b: idle,
                reset_sleep: DUART_RESET_TICKS,
                interrupt_mask: 0,
                interrupt: false,
                input_bits: 0,
                output_bits_inv: 0,
            },
            channel_a2,
            channel_b2,
        )
    }

    /// Read a register. Reading a mode register advances its pointer and
    /// reading a receive holding register consumes the pending byte.
    pub fn read(&mut self, register: ReadRegister) -> (r: u8)
        ensures
            (final(self)@, r) == spec_read(old(self)@, register),
    {
        match register {
            ReadRegister::InterruptStatusRegister => {
                let mut s: u8 = 0;
                if self.a.tx_pending.is_none() {
                    s = s + 0x01;
                }
                if self.a.rx_pending.is_some() {
                    s = s + 0x02;
                }
                if self.b.tx_pending.is_none() {
                    s = s + 0x10;
                }
                if self.b.rx_pending.is_some() {
                    s = s + 0x20;
                }
                s
            },
            ReadRegister::StatusRegisterA => status(&self.a),
            ReadRegister::StatusRegisterB => status(&self.b),
            ReadRegister::ModeRegisterA => read_mode(&mut self.a),
            ReadRegister::ModeRegisterB => read_mode(&mut self.b),
            ReadRegister::RxHoldingRegisterA => take_rx(&mut self.a),
            ReadRegister::RxHoldingRegisterB => take_rx(&mut self.b),
            ReadRegister::InputPortsIP0ToIP6 => self.input_bits,
            _ => 0,
        }
    }

    /// Write a register.
    pub fn write(&mut self, register: WriteRegister, value: u8)
        ensures
            final(self)@ == spec_write(old(self)@, register, value),
    {
        match register {
            WriteRegister::CommandRegisterA => command(&mut self.a, value),
            WriteRegister::CommandRegisterB => command(&mut self.b, value),
            WriteRegister::ModeRegisterA => write_mode(&mut self.a, value),
            WriteRegister::ModeRegisterB => write_mode(&mut self.b, value),
            WriteRegister::TxHoldingRegisterA => {
                self.a.tx_pending = Some(value);
            },
            WriteRegister::TxHoldingRegisterB => {
                self.b.tx_pending = Some(value);
            },
            WriteRegister::SetOutputPortBitsCommand => {
                self.output_bits_inv = self.output_bits_inv | value;
            },
            WriteRegister::ResetOutputPortBitsCommand => {
                self.output_bits_inv = self.output_bits_inv & !value;
            },
            WriteRegister::InterruptMaskRegister => {
                self.interrupt_mask = value;
            },
            _ => {},
        }
    }

    /// Advance one machine step: move bytes between the channels and their
    /// host links (or loop them back) and update the interrupt line. Returns
    /// what happened on the links of channels A and B.
    pub fn tick(&mut self) -> (io: (ChannelIo, ChannelIo))
        ensures
            spec_tick(old(self)@, final(self)@, io.0, io.1),
    {
        if self.reset_sleep != 0 {
            self.reset_sleep = self.reset_sleep - 1;
            let none = ChannelIo { sent: None, dtr: false, polled: false, received: None };
            return (none, none);
        }
        let io_a = tick_channel(&mut self.a, &self.channel_a);
        let io_b = tick_channel(&mut self.b, &self.channel_b);
        self.interrupt = self.interrupt_mask != 0 && (self.a.rx_pending.is_some()
            || self.b.rx_pending.is_some());
        (io_a, io_b)
    }
}

/// Local loopback: with MR2 bit 7 set on channel A and the power-on delay
/// over, a byte written to channel A's transmit holding register is channel
/// A's received byte after one tick, nothing is left to transmit, and
/// channel A's host link is neither written nor read.
pub proof fn lemma_loopback_echo(m: DuartModel, after: DuartModel, io_a: ChannelIo, io_b: ChannelIo, value: u8)
    requires
        m.reset_sleep == 0,
        is_loopback(m.a),
        spec_tick(spec_write(m, WriteRegister::TxHoldingRegisterA, value), after, io_a, io_b),
    ensures
        after.a.rx_pending == Some(value),
        after.a.tx_pending is None,
        io_a == no_io(),
{
}

/// During the power-on delay a tick touches neither host link.
pub proof fn lemma_power_on_quiet(m: DuartModel, after: DuartModel, io_a: ChannelIo, io_b: ChannelIo)
    requires
        m.reset_sleep != 0,
        spec_tick(m, after, io_a, io_b),
    ensures
        io_a == no_io(),
        io_b == no_io(),
        after.a == m.a && after.b == m.b,
        after.interrupt == m.interrupt,
{
}

/// Outside loopback and after the power-on delay, a pending transmit byte is
/// handed to the host channel (which drops it only when full) and the
/// transmitter is left empty.
pub proof fn lemma_transmit_to_host(m: DuartModel, after: DuartModel, io_a: ChannelIo, io_b: ChannelIo, value: u8)
    requires
        m.reset_sleep == 0,
        !is_loopback(m.a),
        spec_tick(spec_write(m, WriteRegister::TxHoldingRegisterA, value), after, io_a, io_b),
    ensures
        io_a.sent == Some(value),
        after.a.tx_pending is None,
{
}

} // verus!
