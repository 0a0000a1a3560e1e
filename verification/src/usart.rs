//! Asynchronous serial (USART).
//!
//! Word width is a typestate: a [`Usart<.., Byte>`](Usart) moves `u8` values
//! and is what [`new`](Usart::new) builds, while [`new_word`](Usart::new_word)
//! gives a `Usart<.., Word>` for raw 9-bit frames carrying `u16`.
//!
//! In the register file the frames written into `TDATA` are `sent`, and the
//! frames the line delivers into `RDATA` are `incoming`, taken in order;
//! `RBNE` stands while one is waiting. The line errors are the flags in
//! `STAT`.

use core::marker::PhantomData;

use vstd::prelude::*;

use crate::bits::{get_bit, put_bit, read_bit, write_bit};
use crate::gpio::{Alternate, PORT_A, PORT_B, Pin, PushPull};
use crate::periph::{self, CtlEvent, UsartRegs, UsartState};
use crate::rcu::{Clocks, Enable, Rcu, Reset, bus_clock, with_enable, with_reset_pulse};
use crate::time::{Bps, Hertz};

verus! {

/// 7 data bits: parity occupies bit 7 inside the byte (`E7`/`O7`).
pub const DATA_7BIT_MASK: u8 = 0x7F;
/// 9 data bits: the full 9-bit word.
pub const DATA_9BIT_MASK: u32 = 0x1FF;

/// `CTL0` bits.
pub const CTL0_UEN: u32 = 0;
pub const CTL0_REN: u32 = 2;
pub const CTL0_TEN: u32 = 3;
pub const CTL0_RBNEIE: u32 = 5;
pub const CTL0_TBEIE: u32 = 7;
pub const CTL0_PERRIE: u32 = 8;
pub const CTL0_PM: u32 = 9;
pub const CTL0_PCEN: u32 = 10;
pub const CTL0_WL: u32 = 12;
pub const CTL0_OVSMOD: u32 = 15;
/// `CTL2.ERRIE`.
pub const CTL2_ERRIE: u32 = 0;
/// `STAT` bits.
pub const STAT_PERR: u32 = 0;
pub const STAT_FERR: u32 = 1;
pub const STAT_NERR: u32 = 2;
pub const STAT_ORERR: u32 = 3;
pub const STAT_TC: u32 = 6;
pub const STAT_TBE: u32 = 7;

/// Marks a pin usable as `TX` for `USART`, in the right alternate function.
pub trait TxPin<USART> {

}

/// Marks a pin usable as `RX` for `USART`, in the right alternate function.
pub trait RxPin<USART> {

}

impl TxPin<periph::Usart0> for Pin<PORT_A, 9, Alternate<1, PushPull>> {

}

impl TxPin<periph::Usart0> for Pin<PORT_B, 6, Alternate<0, PushPull>> {

}

impl RxPin<periph::Usart0> for Pin<PORT_A, 10, Alternate<1, PushPull>> {

}

impl RxPin<periph::Usart0> for Pin<PORT_B, 7, Alternate<0, PushPull>> {

}

impl TxPin<periph::Usart1> for Pin<PORT_A, 2, Alternate<1, PushPull>> {

}

impl TxPin<periph::Usart1> for Pin<PORT_A, 8, Alternate<4, PushPull>> {

}

impl TxPin<periph::Usart1> for Pin<PORT_A, 14, Alternate<1, PushPull>> {

}

impl RxPin<periph::Usart1> for Pin<PORT_A, 3, Alternate<1, PushPull>> {

}

impl RxPin<periph::Usart1> for Pin<PORT_A, 15, Alternate<1, PushPull>> {

}

impl RxPin<periph::Usart1> for Pin<PORT_B, 0, Alternate<4, PushPull>> {

}

/// Supplies the clock frequency feeding a given USART.
pub trait BusClocks {
    /// The frequency actually clocking this USART.
    spec fn clock_of(clocks: Clocks) -> Hertz;

    /// Returns the frequency actually clocking this USART.
    fn clock(clocks: &Clocks) -> (r: Hertz)
        ensures
            r == Self::clock_of(*clocks),
    ;
}

impl BusClocks for periph::Usart0 {
    open spec fn clock_of(clocks: Clocks) -> Hertz {
        clocks.spec_usart0()
    }

    fn clock(clocks: &Clocks) -> (r: Hertz) {
        clocks.usart0()
    }
}

impl BusClocks for periph::Usart1 {
    open spec fn clock_of(clocks: Clocks) -> Hertz {
        clocks.spec_pclk1()
    }

    fn clock(clocks: &Clocks) -> (r: Hertz) {
        clocks.pclk1()
    }
}

/// A USART register file that [`Usart`] can own.
pub trait Instance: Enable + Reset + BusClocks + Sized {
    /// The registers.
    spec fn state(&self) -> UsartState;

    /// Takes the registers out.
    fn into_regs(self) -> (r: UsartRegs)
        ensures
            r@ == self.state(),
    ;

    /// Puts the registers back.
    fn from_regs(regs: UsartRegs) -> (r: Self)
        ensures
            r.state() == regs@,
    ;
}

impl Instance for periph::Usart0 {
    open spec fn state(&self) -> UsartState {
        self.regs@
    }

    fn into_regs(self) -> (r: UsartRegs) {
        self.regs
    }

    fn from_regs(regs: UsartRegs) -> (r: Self) {
        periph::Usart0 { regs }
    }
}

impl Instance for periph::Usart1 {
    open spec fn state(&self) -> UsartState {
        self.regs@
    }

    fn into_regs(self) -> (r: UsartRegs) {
        self.regs
    }

    fn from_regs(regs: UsartRegs) -> (r: Self) {
        periph::Usart1 { regs }
    }
}

/// Named constants for the standard bit rates.
pub const B110: u32 = 110;
pub const B300: u32 = 300;
pub const B600: u32 = 600;
pub const B1200: u32 = 1_200;
pub const B2400: u32 = 2_400;
pub const B4800: u32 = 4_800;
pub const B9600: u32 = 9_600;
pub const B14400: u32 = 14_400;
pub const B19200: u32 = 19_200;
pub const B38400: u32 = 38_400;
pub const B57600: u32 = 57_600;
pub const B115200: u32 = 115_200;
pub const B230400: u32 = 230_400;
pub const B460800: u32 = 460_800;
pub const B921600: u32 = 921_600;

/// How many times each bit is sampled.
#[derive(Clone, Copy, PartialEq, Eq, Structural)]
pub enum Oversampling {
    /// 8 samples per bit — allows twice the bit rate from the same clock.
    X8,
    /// 16 samples per bit — the default, more tolerant of clock error.
    X16,
}

/// Word length and parity, as a single setting.
#[derive(Clone, Copy, PartialEq, Eq, Structural)]
pub enum FrameFormat {
    /// 8 data bits, no parity.
    N8,
    /// 8 data bits, even parity.
    E8,
    /// 8 data bits, odd parity.
    O8,
    /// 7 data bits, even parity.
    E7,
    /// 7 data bits, odd parity.
    O7,
}

/// Configuration for [`Usart::new`]; [`Default`] is 115200 baud, ×16
/// oversampling, [`FrameFormat::N8`].
#[derive(Clone, Copy, PartialEq, Eq, Structural)]
pub struct UsartConfig {
    baud: Bps,
    oversampling: Oversampling,
    frame_format: FrameFormat,
}

impl UsartConfig {
    /// The bit rate.
    pub closed spec fn baud_spec(self) -> Bps {
        self.baud
    }

    /// The oversampling ratio.
    pub closed spec fn oversampling_spec(self) -> Oversampling {
        self.oversampling
    }

    /// The word length and parity.
    pub closed spec fn frame_format_spec(self) -> FrameFormat {
        self.frame_format
    }

    /// Sets the bit rate.
    pub fn baud(self, baud: Bps) -> (r: Self)
        ensures
            r.baud_spec() == baud,
            r.oversampling_spec() == self.oversampling_spec(),
            r.frame_format_spec() == self.frame_format_spec(),
    {
        Self { baud, ..self }
    }

    /// Sets the oversampling ratio.
    pub fn oversampling(self, oversampling: Oversampling) -> (r: Self)
        ensures
            r.baud_spec() == self.baud_spec(),
            r.oversampling_spec() == oversampling,
            r.frame_format_spec() == self.frame_format_spec(),
    {
        Self { oversampling, ..self }
    }

    /// Sets the word length and parity.
    pub fn frame_format(self, frame_format: FrameFormat) -> (r: Self)
        ensures
            r.baud_spec() == self.baud_spec(),
            r.oversampling_spec() == self.oversampling_spec(),
            r.frame_format_spec() == frame_format,
    {
        Self { frame_format, ..self }
    }
}

impl Default for UsartConfig {
    fn default() -> (r: Self)
        ensures
            r.baud_spec() == Bps::spec_from_raw(B115200),
            r.oversampling_spec() == Oversampling::X16,
            r.frame_format_spec() == FrameFormat::N8,
    {
        Self { baud: Bps::from_raw(B115200), oversampling: Oversampling::X16, frame_format: FrameFormat::N8 }
    }
}

/// Configuration for [`Usart::new_word`]: the 9-bit path is always 9 data
/// bits, no parity.
#[derive(Clone, Copy, PartialEq, Eq, Structural)]
pub struct UsartConfig9 {
    baud: Bps,
    oversampling: Oversampling,
}

impl UsartConfig9 {
    /// The bit rate.
    pub closed spec fn baud_spec(self) -> Bps {
        self.baud
    }

    /// The oversampling ratio.
    pub closed spec fn oversampling_spec(self) -> Oversampling {
        self.oversampling
    }

    /// Sets the bit rate.
    pub fn baud(self, baud: Bps) -> (r: Self)
        ensures
            r.baud_spec() == baud,
            r.oversampling_spec() == self.oversampling_spec(),
    {
        Self { baud, ..self }
    }

    /// Sets the oversampling ratio.
    pub fn oversampling(self, oversampling: Oversampling) -> (r: Self)
        ensures
            r.baud_spec() == self.baud_spec(),
            r.oversampling_spec() == oversampling,
    {
        Self { oversampling, ..self }
    }
}

impl Default for UsartConfig9 {
    fn default() -> (r: Self)
        ensures
            r.baud_spec() == Bps::spec_from_raw(B115200),
            r.oversampling_spec() == Oversampling::X16,
    {
        Self { baud: Bps::from_raw(B115200), oversampling: Oversampling::X16 }
    }
}

/// The baud divisor: `pclk / baud` rounded to the nearest integer, half the
/// divisor added before the division truncates.
pub open spec fn usart_div(pclk: int, baud: int) -> int {
    (pclk + baud / 2) / baud
}

/// The `BAUD` register for divisor `div`: the divisor itself at ×16; at ×8 the
/// integer part shifted up four bits, the three-bit fraction below it.
pub open spec fn baud_register(div: int, oversampling: Oversampling) -> u32 {
    match oversampling {
        Oversampling::X16 => div as u32,
        Oversampling::X8 => (((div / 8) as u32) << 4u32) | (((div % 8) as u32) & 7u32),
    }
}

/// `CTL0` with the frame bits of `ff`: parity enable, parity mode and word
/// length; `PM` is left alone without parity.
pub open spec fn ctl0_frame(ctl0: u32, ff: FrameFormat) -> u32 {
    match ff {
        FrameFormat::N8 => put_bit(put_bit(ctl0, CTL0_PCEN, false), CTL0_WL, false),
        FrameFormat::E8 => put_bit(put_bit(put_bit(ctl0, CTL0_PCEN, true), CTL0_PM, false), CTL0_WL, true),
        FrameFormat::O8 => put_bit(put_bit(put_bit(ctl0, CTL0_PCEN, true), CTL0_PM, true), CTL0_WL, true),
        FrameFormat::E7 => put_bit(put_bit(put_bit(ctl0, CTL0_PCEN, true), CTL0_PM, false), CTL0_WL, false),
        FrameFormat::O7 => put_bit(put_bit(put_bit(ctl0, CTL0_PCEN, true), CTL0_PM, true), CTL0_WL, false),
    }
}

/// `CTL0` with the frame bits of raw 9-bit words: parity off, word length 9.
pub open spec fn ctl0_word(ctl0: u32) -> u32 {
    put_bit(put_bit(ctl0, CTL0_PCEN, false), CTL0_WL, true)
}

/// `CTL0` fresh from reset with the oversampling selected.
pub open spec fn ctl0_oversampling(ovs: Oversampling) -> u32 {
    put_bit(0, CTL0_OVSMOD, ovs == Oversampling::X8)
}

/// `CTL0` brought up in the manual's order: `UEN`, then `TEN` and `REN`.
pub open spec fn ctl0_enabled(ctl0: u32) -> u32 {
    put_bit(put_bit(put_bit(ctl0, CTL0_UEN, true), CTL0_TEN, true), CTL0_REN, true)
}

/// The registers of a USART set up for `baud` from `pclk`: the configuration
/// registers reset, the divisor written, `CTL0` set to `ctl0` (oversampling
/// and frame bits) and the peripheral brought up. Status and data streams are
/// left as they were. The control writes come in this order: the reset, the
/// oversampling, the frame bits, `UEN`, then `TEN` and `REN`.
pub open spec fn configured(s: UsartState, pclk: int, baud: int, ovs: Oversampling, ctl0: u32) -> UsartState {
    UsartState {
        ctl0: ctl0_enabled(ctl0),
        ctl2: 0,
        baud: baud_register(usart_div(pclk, baud), ovs),
        ctl_log: s.ctl_log.push(CtlEvent::Reset).push(CtlEvent::Ctl0(ctl0_oversampling(ovs))).push(CtlEvent::Ctl0(ctl0))
            .push(CtlEvent::Ctl0(put_bit(ctl0, CTL0_UEN, true))).push(CtlEvent::Ctl0(ctl0_enabled(ctl0))),
        ..s
    }
}

/// Whether `baud` can be set up from `pclk` without the divisor's arithmetic
/// leaving 32 bits or dividing by zero.
pub open spec fn baud_fits(pclk: int, baud: int) -> bool {
    0 < baud && pclk + baud / 2 <= u32::MAX
}

/// Word-width marker: 8-bit words, optionally with parity.
pub struct Byte;

/// Word-width marker: raw 9-bit words, no parity possible.
pub struct Word;

/// A line error the receiver reported for one frame.
#[derive(Clone, Copy, PartialEq, Eq, Structural)]
pub enum Error {
    /// A frame arrived before the previous one had been read, and was lost.
    Overrun,
    /// The sampling logic disagreed with itself about a bit's level.
    Noise,
    /// The stop bit was not where the configured frame said it would be.
    Framing,
    /// The parity bit contradicts the data bits.
    Parity,
}

/// The error `STAT` reports: the first of `ORERR`, `NERR`, `FERR`, `PERR`
/// that stands.
pub open spec fn error_of(stat: u32) -> Option<Error> {
    if get_bit(stat, STAT_ORERR) {
        Some(Error::Overrun)
    } else if get_bit(stat, STAT_NERR) {
        Some(Error::Noise)
    } else if get_bit(stat, STAT_FERR) {
        Some(Error::Framing)
    } else if get_bit(stat, STAT_PERR) {
        Some(Error::Parity)
    } else {
        None
    }
}

/// The `STAT` bit behind an error.
pub open spec fn error_bit(e: Error) -> u32 {
    match e {
        Error::Overrun => STAT_ORERR,
        Error::Noise => STAT_NERR,
        Error::Framing => STAT_FERR,
        Error::Parity => STAT_PERR,
    }
}

/// Whether a frame has arrived and waits in `RDATA` (`RBNE`).
pub open spec fn rx_ready(s: UsartState) -> bool {
    0 <= s.taken < s.incoming.len()
}

/// The error flags the frame waiting in `RDATA` arrived with; none while no
/// frame waits.
pub open spec fn frame_flags(s: UsartState) -> u32 {
    if rx_ready(s) && s.taken < s.flags.len() {
        s.flags[s.taken]
    } else {
        0
    }
}

/// `STAT` as the driver reads it: the flags standing, with those the frame
/// waiting in `RDATA` arrived with.
pub open spec fn stat_seen(s: UsartState) -> u32 {
    s.stat | frame_flags(s)
}

/// `STAT` once the error it reports has been taken: that flag cleared, the
/// others left standing.
pub open spec fn stat_after_take(stat: u32) -> u32 {
    match error_of(stat) {
        Some(e) => put_bit(stat, error_bit(e), false),
        None => stat,
    }
}

/// The registers once the reported error is taken: its flag cleared through
/// `INTC`, and `RDATA` drained of the frame it spoiled, if one waits.
pub open spec fn after_take_error(s: UsartState) -> UsartState {
    match error_of(stat_seen(s)) {
        Some(_) => UsartState {
            stat: stat_after_take(stat_seen(s)),
            taken: if rx_ready(s) {
                s.taken + 1
            } else {
                s.taken
            },
            ..s
        },
        None => s,
    }
}

/// The byte a frame carries under `ff`: the low seven bits for the 7-bit
/// formats, whose eighth is the parity.
pub open spec fn frame_byte(frame: u32, ff: FrameFormat) -> u8 {
    match ff {
        FrameFormat::E7 | FrameFormat::O7 => (frame as u8) & DATA_7BIT_MASK,
        _ => frame as u8,
    }
}

/// What reading one byte returns: the error that stood, or the next frame's
/// byte.
pub open spec fn byte_read_result(s: UsartState, ff: FrameFormat) -> Result<u8, Error> {
    match error_of(stat_seen(s)) {
        Some(e) => Err(e),
        None => Ok(frame_byte(s.incoming[s.taken], ff)),
    }
}

/// What reading one 9-bit word returns.
pub open spec fn word_read_result(s: UsartState) -> Result<u16, Error> {
    match error_of(stat_seen(s)) {
        Some(e) => Err(e),
        None => Ok((s.incoming[s.taken] & DATA_9BIT_MASK) as u16),
    }
}

/// The registers after one frame is read: the reported error taken with the
/// frame, or the frame taken.
pub open spec fn after_read(s: UsartState) -> UsartState {
    match error_of(stat_seen(s)) {
        Some(_) => after_take_error(s),
        None => UsartState { taken: s.taken + 1, ..s },
    }
}

/// A USART event that can raise an interrupt.
#[derive(Clone, Copy, PartialEq, Eq, Structural)]
pub enum Event {
    /// A byte arrived in `RDATA`, cleared by reading it.
    Rbne,
    /// The transmit buffer is free — true at idle.
    Tbe,
    /// A framing, noise or overrun error; reaches the NVIC only while
    /// receiving through DMA.
    Error,
    /// The parity check failed.
    ParityError,
}

/// The registers with `event`'s enable bit set to `on`: `RBNEIE`, `TBEIE`,
/// `PERRIE` in `CTL0`, `ERRIE` in `CTL2`.
pub open spec fn with_event(s: UsartState, event: Event, on: bool) -> UsartState {
    match event {
        Event::Rbne => UsartState {
            ctl0: put_bit(s.ctl0, CTL0_RBNEIE, on),
            ctl_log: s.ctl_log.push(CtlEvent::Ctl0(put_bit(s.ctl0, CTL0_RBNEIE, on))),
            ..s
        },
        Event::Tbe => UsartState {
            ctl0: put_bit(s.ctl0, CTL0_TBEIE, on),
            ctl_log: s.ctl_log.push(CtlEvent::Ctl0(put_bit(s.ctl0, CTL0_TBEIE, on))),
            ..s
        },
        Event::ParityError => UsartState {
            ctl0: put_bit(s.ctl0, CTL0_PERRIE, on),
            ctl_log: s.ctl_log.push(CtlEvent::Ctl0(put_bit(s.ctl0, CTL0_PERRIE, on))),
            ..s
        },
        Event::Error => UsartState {
            ctl2: put_bit(s.ctl2, CTL2_ERRIE, on),
            ctl_log: s.ctl_log.push(CtlEvent::Ctl2(put_bit(s.ctl2, CTL2_ERRIE, on))),
            ..s
        },
    }
}

/// Whether `event`'s enable bit is set.
pub open spec fn event_enabled(s: UsartState, event: Event) -> bool {
    match event {
        Event::Rbne => get_bit(s.ctl0, CTL0_RBNEIE),
        Event::Tbe => get_bit(s.ctl0, CTL0_TBEIE),
        Event::ParityError => get_bit(s.ctl0, CTL0_PERRIE),
        Event::Error => get_bit(s.ctl2, CTL2_ERRIE),
    }
}

/// A configured USART, owning the peripheral and both pins; `WORD` records
/// the word width.
pub struct Usart<USARTX, TX, RX, WORD> {
    regs: UsartRegs,
    tx_pin: TX,
    rx_pin: RX,
    frame_format: FrameFormat,
    _usart: PhantomData<USARTX>,
    _word: PhantomData<WORD>,
}

/// The frames a run of bytes makes in `TDATA`.
pub open spec fn byte_frames(b: Seq<u8>) -> Seq<u32> {
    b.map_values(|x: u8| x as u32)
}

/// The frames a run of 9-bit words makes in `TDATA`: each cut to nine bits.
pub open spec fn word_frames(w: Seq<u16>) -> Seq<u32> {
    w.map_values(|x: u16| (x as u32) & DATA_9BIT_MASK)
}

/// How many frames wait in `RDATA`'s queue.
pub open spec fn available(s: UsartState) -> int {
    s.incoming.len() - s.taken
}

/// How many frames a buffered read of `n` takes: all that wait, at most `n`.
pub open spec fn read_count(s: UsartState, n: int) -> int {
    if n < available(s) {
        n
    } else {
        available(s)
    }
}

/// The registers with the read position moved `j` frames on.
pub open spec fn skipped(s: UsartState, j: int) -> UsartState {
    UsartState { taken: s.taken + j, ..s }
}

/// Whether reading the frame `j` places after the read position, with the
/// flags standing as in `s`, reports a line error.
pub open spec fn spoiled(s: UsartState, j: int) -> bool {
    error_of(stat_seen(skipped(s, j))) is Some
}

/// The first of the frames `j` to `limit - 1` places on that reads as
/// spoiled, or `limit` when none does.
pub open spec fn first_spoiled(s: UsartState, j: int, limit: int) -> int
    decreases limit - j,
{
    if j >= limit {
        limit
    } else if spoiled(s, j) {
        j
    } else {
        first_spoiled(s, j + 1, limit)
    }
}

/// `first_spoiled` is the first index at which a frame reads as spoiled, or
/// `limit` when none before it does.
pub proof fn lemma_first_spoiled(s: UsartState, j: int, i: int, limit: int)
    requires
        j <= i <= limit,
        forall|k: int| j <= k < i ==> !spoiled(s, k),
        i < limit ==> spoiled(s, i),
    ensures
        first_spoiled(s, j, limit) == i,
    decreases i - j,
{
    if j < i {
        lemma_first_spoiled(s, j + 1, i, limit);
    }
}

/// The bytes of the next `k` waiting frames under `ff`.
pub open spec fn received_bytes(s: UsartState, k: int, ff: FrameFormat) -> Seq<u8> {
    Seq::new(k as nat, |j: int| frame_byte(s.incoming[s.taken + j], ff))
}

/// The 9-bit words of the next `k` waiting frames.
pub open spec fn received_words(s: UsartState, k: int) -> Seq<u16> {
    Seq::new(k as nat, |j: int| (s.incoming[s.taken + j] & DATA_9BIT_MASK) as u16)
}

/// Computes the `BAUD` register for `baud` from `pclk`.
fn baud_register_for(pclk: u32, baud: u32, ovs: Oversampling) -> (r: u32)
    requires
        baud_fits(pclk as int, baud as int),
    ensures
        r == baud_register(usart_div(pclk as int, baud as int), ovs),
{
    // round(pclk / baud) in integers: adding half the divisor before truncating rounds.
    let usartdiv = (pclk + baud / 2) / baud;
    match ovs {
        Oversampling::X16 => usartdiv,
        Oversampling::X8 => {
            let intdiv = usartdiv / 8;
            let fradiv_8 = usartdiv % 8;
            (intdiv << 4u32) | (fradiv_8 & 0x7u32)
        },
    }
}

/// Writes the frame bits of `ff` into `CTL0`.
fn write_ctl0_frame(ctl0: u32, ff: FrameFormat) -> (r: u32)
    ensures
        r == ctl0_frame(ctl0, ff),
{
    match ff {
        FrameFormat::N8 => write_bit(write_bit(ctl0, CTL0_PCEN, false), CTL0_WL, false),
        FrameFormat::E8 => write_bit(write_bit(write_bit(ctl0, CTL0_PCEN, true), CTL0_PM, false), CTL0_WL, true),
        FrameFormat::O8 => write_bit(write_bit(write_bit(ctl0, CTL0_PCEN, true), CTL0_PM, true), CTL0_WL, true),
        FrameFormat::E7 => write_bit(write_bit(write_bit(ctl0, CTL0_PCEN, true), CTL0_PM, false), CTL0_WL, false),
        FrameFormat::O7 => write_bit(write_bit(write_bit(ctl0, CTL0_PCEN, true), CTL0_PM, true), CTL0_WL, false),
    }
}

/// Enables the clock, pulses the reset, writes the divisor and selects the
/// oversampling. `UEN`, `TEN` and `REN` are left off: word length and parity
/// must be written while the USART is disabled.
fn configure<USARTX: Instance>(rcu: &mut Rcu, regs: &mut UsartRegs, baud: Bps, ovs: Oversampling)
    requires
        baud_fits(USARTX::clock_of(old(rcu).clocks()).hz() as int, baud.bps() as int),
    ensures
        final(regs)@ == (UsartState {
            ctl0: ctl0_oversampling(ovs),
            ctl2: 0,
            baud: baud_register(usart_div(USARTX::clock_of(old(rcu).clocks()).hz() as int, baud.bps() as int), ovs),
            ctl_log: old(regs)@.ctl_log.push(CtlEvent::Reset).push(CtlEvent::Ctl0(ctl0_oversampling(ovs))),
            ..old(regs)@
        }),
        final(rcu).regs() == with_reset_pulse(
            with_enable(old(rcu).regs(), USARTX::enable_bus(), USARTX::enable_bit(), true),
            USARTX::reset_bus(),
            USARTX::reset_bit(),
        ),
        final(rcu).clocks() == old(rcu).clocks(),
{
    let clocks = rcu.clocks();
    USARTX::enable(rcu);
    USARTX::reset(rcu);
    reset_ctl(regs);
    let pclk = USARTX::clock(&clocks).to_Hz();
    let baud = baud.to_raw();
    regs.baud = baud_register_for(pclk, baud, ovs);
    let x8 = match ovs {
        Oversampling::X8 => true,
        Oversampling::X16 => false,
    };
    let w = write_bit(regs.ctl0, CTL0_OVSMOD, x8);
    write_ctl0(regs, w);
}

/// The reset pulse as the registers see it: the control registers back to
/// zero.
fn reset_ctl(regs: &mut UsartRegs)
    ensures
        final(regs)@ == (UsartState { ctl0: 0, ctl2: 0, ctl_log: old(regs)@.ctl_log.push(CtlEvent::Reset), ..old(regs)@ }),
{
    regs.ctl0 = 0;
    regs.ctl2 = 0;
    regs.ctl_log.push(CtlEvent::Reset);
}

/// Writes `value` into `CTL0`.
fn write_ctl0(regs: &mut UsartRegs, value: u32)
    ensures
        final(regs)@ == (UsartState { ctl0: value, ctl_log: old(regs)@.ctl_log.push(CtlEvent::Ctl0(value)), ..old(regs)@ }),
{
    regs.ctl0 = value;
    regs.ctl_log.push(CtlEvent::Ctl0(value));
}

/// Writes `value` into `CTL2`.
fn write_ctl2(regs: &mut UsartRegs, value: u32)
    ensures
        final(regs)@ == (UsartState { ctl2: value, ctl_log: old(regs)@.ctl_log.push(CtlEvent::Ctl2(value)), ..old(regs)@ }),
{
    regs.ctl2 = value;
    regs.ctl_log.push(CtlEvent::Ctl2(value));
}

/// Brings the peripheral up, in the order the manual prescribes: `UEN`
/// first, the transmitter and receiver after it.
fn enable_regs(regs: &mut UsartRegs)
    ensures
        final(regs)@ == (UsartState {
            ctl0: ctl0_enabled(old(regs)@.ctl0),
            ctl_log: old(regs)@.ctl_log.push(CtlEvent::Ctl0(put_bit(old(regs)@.ctl0, CTL0_UEN, true))).push(
                CtlEvent::Ctl0(ctl0_enabled(old(regs)@.ctl0)),
            ),
            ..old(regs)@
        }),
{
    let w = write_bit(regs.ctl0, CTL0_UEN, true);
    write_ctl0(regs, w);
    proof {
        crate::bits::lemma_put_bit(old(regs).ctl0, CTL0_UEN, true, CTL0_UEN);
    }
    start_transfer(regs);
}

/// Raises `TEN` and `REN` together, in one write of `CTL0`; only on a USART
/// already enabled (`UEN`).
fn start_transfer(regs: &mut UsartRegs)
    requires
        get_bit(old(regs)@.ctl0, CTL0_UEN),
    ensures
        final(regs)@ == (UsartState {
            ctl0: put_bit(put_bit(old(regs)@.ctl0, CTL0_TEN, true), CTL0_REN, true),
            ctl_log: old(regs)@.ctl_log.push(CtlEvent::Ctl0(put_bit(put_bit(old(regs)@.ctl0, CTL0_TEN, true), CTL0_REN, true))),
            ..old(regs)@
        }),
{
    let w = write_bit(regs.ctl0, CTL0_TEN, true);
    let w = write_bit(w, CTL0_REN, true);
    write_ctl0(regs, w);
}

/// Takes the reported error out of `regs`, draining `RDATA` with it.
fn take_error_regs(regs: &mut UsartRegs) -> (r: Option<Error>)
    ensures
        r == error_of(stat_seen(old(regs)@)),
        final(regs)@ == after_take_error(old(regs)@),
{
    let frame = if regs.taken < regs.incoming.len() && regs.taken < regs.flags.len() {
        regs.flags[regs.taken]
    } else {
        0
    };
    let stat = regs.stat | frame;
    let error = if read_bit(stat, STAT_ORERR) {
        regs.stat = write_bit(stat, STAT_ORERR, false);
        Some(Error::Overrun)
    } else if read_bit(stat, STAT_NERR) {
        regs.stat = write_bit(stat, STAT_NERR, false);
        Some(Error::Noise)
    } else if read_bit(stat, STAT_FERR) {
        regs.stat = write_bit(stat, STAT_FERR, false);
        Some(Error::Framing)
    } else if read_bit(stat, STAT_PERR) {
        regs.stat = write_bit(stat, STAT_PERR, false);
        Some(Error::Parity)
    } else {
        None
    };
    match error {
        Some(_) => {
            // Reading `RDATA` drops the frame the error spoiled.
            if regs.taken < regs.incoming.len() {
                regs.taken = regs.taken + 1;
            }
        },
        None => {},
    }
    error
}

/// Reads `RDATA`, clearing `RBNE`.
fn read_rdata(regs: &mut UsartRegs) -> (r: u32)
    requires
        rx_ready(old(regs)@),
    ensures
        r == old(regs)@.incoming[old(regs)@.taken],
        final(regs)@ == (UsartState { taken: old(regs)@.taken + 1, ..old(regs)@ }),
{
    let _len = regs.incoming.len();
    let frame = regs.incoming[regs.taken];
    regs.taken = regs.taken + 1;
    frame
}

/// Writes one frame to `TDATA`.
fn write_tdata(regs: &mut UsartRegs, frame: u32)
    ensures
        final(regs)@ == (UsartState { sent: old(regs)@.sent.push(frame), ..old(regs)@ }),
{
    regs.sent.push(frame);
}

/// Sets or clears the enable bit of `event`.
fn set_event_regs(regs: &mut UsartRegs, event: Event, on: bool)
    ensures
        final(regs)@ == with_event(old(regs)@, event, on),
{
    match event {
        Event::Rbne => {
            let w = write_bit(regs.ctl0, CTL0_RBNEIE, on);
            write_ctl0(regs, w);
        },
        Event::Tbe => {
            let w = write_bit(regs.ctl0, CTL0_TBEIE, on);
            write_ctl0(regs, w);
        },
        Event::ParityError => {
            let w = write_bit(regs.ctl0, CTL0_PERRIE, on);
            write_ctl0(regs, w);
        },
        Event::Error => {
            let w = write_bit(regs.ctl2, CTL2_ERRIE, on);
            write_ctl2(regs, w);
        },
    }
}

impl<USARTX: Instance, TX, RX, WORD> Usart<USARTX, TX, RX, WORD> {
    /// The registers.
    pub closed spec fn state(&self) -> UsartState {
        self.regs@
    }

    /// The pins held.
    pub closed spec fn pins(&self) -> (TX, RX) {
        (self.tx_pin, self.rx_pin)
    }

    /// The frame format the receiver was set up for.
    pub closed spec fn frame(&self) -> FrameFormat {
        self.frame_format
    }

    /// The read position in the received frames is never negative.
    pub proof fn lemma_taken_nonneg(&self)
        ensures
            self.state().taken >= 0,
    {
    }

    /// The registers, for the code that mirrors them onto the chip.
    pub fn registers(&self) -> (r: &UsartRegs)
        ensures
            r@ == self.state(),
    {
        &self.regs
    }

    /// Returns the pending receive error, if any, and clears it; also drains
    /// `RDATA`, the frame having been lost or corrupted either way. One error
    /// per call — with two pending, the second survives for the next.
    pub fn take_error(&mut self) -> (r: Option<Error>)
        ensures
            r == error_of(stat_seen(old(self).state())),
            final(self).state() == after_take_error(old(self).state()),
            final(self).pins() == old(self).pins(),
            final(self).frame() == old(self).frame(),
    {
        take_error_regs(&mut self.regs)
    }

    /// Returns whether a received word is waiting to be read (`RBNE`).
    pub fn read_ready(&self) -> (r: bool)
        ensures
            r == rx_ready(self.state()),
    {
        self.regs.taken < self.regs.incoming.len()
    }

    /// Returns whether the transmit buffer can accept a word right now (`TBE`).
    pub fn write_ready(&self) -> (r: bool)
        ensures
            r == get_bit(self.state().stat, STAT_TBE),
    {
        read_bit(self.regs.stat, STAT_TBE)
    }

    /// Returns whether everything handed to the peripheral has left the wire
    /// (`TC`).
    pub fn flush_ready(&self) -> (r: bool)
        ensures
            r == get_bit(self.state().stat, STAT_TC),
    {
        read_bit(self.regs.stat, STAT_TC)
    }

    /// Returns once everything handed to the peripheral has left the wire: `TC`,
    /// not `TBE`, which only says `TDATA` reached the shift register. Nothing is
    /// changed; the chip waits for `TC`.
    pub fn flush(&self)
        requires
            get_bit(self.state().stat, STAT_TC),
    {
    }

    /// Lets `event` raise an interrupt; unmasking the line in the NVIC is the
    /// caller's.
    pub fn listen(&mut self, event: Event)
        ensures
            final(self).state() == with_event(old(self).state(), event, true),
            final(self).pins() == old(self).pins(),
            final(self).frame() == old(self).frame(),
    {
        set_event_regs(&mut self.regs, event, true);
    }

    /// Stops `event` from raising an interrupt. Leaves the NVIC alone.
    pub fn unlisten(&mut self, event: Event)
        ensures
            final(self).state() == with_event(old(self).state(), event, false),
            final(self).pins() == old(self).pins(),
            final(self).frame() == old(self).frame(),
    {
        set_event_regs(&mut self.regs, event, false);
    }

    /// Whether `event` currently raises an interrupt.
    pub fn is_listening(&self, event: Event) -> (r: bool)
        ensures
            r == event_enabled(self.state(), event),
    {
        match event {
            Event::Rbne => read_bit(self.regs.ctl0, CTL0_RBNEIE),
            Event::Tbe => read_bit(self.regs.ctl0, CTL0_TBEIE),
            Event::ParityError => read_bit(self.regs.ctl0, CTL0_PERRIE),
            Event::Error => read_bit(self.regs.ctl2, CTL2_ERRIE),
        }
    }

    /// Disables the peripheral and returns it along with both pins. The clock
    /// is left enabled and no reset is performed.
    pub fn release(self) -> (r: (USARTX, TX, RX))
        ensures
            r.0.state() == (UsartState {
                ctl0: put_bit(self.state().ctl0, CTL0_UEN, false),
                ctl_log: self.state().ctl_log.push(CtlEvent::Ctl0(put_bit(self.state().ctl0, CTL0_UEN, false))),
                ..self.state()
            }),
            (r.1, r.2) == self.pins(),
    {
        let mut regs = self.regs;
        let w = write_bit(regs.ctl0, CTL0_UEN, false);
        write_ctl0(&mut regs, w);
        (USARTX::from_regs(regs), self.tx_pin, self.rx_pin)
    }
}

impl<USARTX: Instance, TX, RX> Usart<USARTX, TX, RX, Byte> {
    /// Takes the frame waiting in `RDATA` as a byte of the set frame format.
    fn received_byte(&mut self) -> (r: u8)
        requires
            rx_ready(old(self).state()),
        ensures
            r == frame_byte(old(self).state().incoming[old(self).state().taken], old(self).frame()),
            final(self).state() == (UsartState { taken: old(self).state().taken + 1, ..old(self).state() }),
            final(self).pins() == old(self).pins(),
            final(self).frame() == old(self).frame(),
    {
        let raw = read_rdata(&mut self.regs) as u8;
        match self.frame_format {
            FrameFormat::E7 | FrameFormat::O7 => raw & DATA_7BIT_MASK,
            FrameFormat::N8 | FrameFormat::E8 | FrameFormat::O8 => raw,
        }
    }

    /// Sends one byte; the transmit buffer must accept it (`TBE`), which the
    /// chip waits for. Returning does not mean the byte has left the wire.
    pub fn write_byte(&mut self, byte: u8)
        requires
            get_bit(old(self).state().stat, STAT_TBE),
        ensures
            final(self).state() == (UsartState { sent: old(self).state().sent.push(byte as u32), ..old(self).state() }),
            final(self).pins() == old(self).pins(),
            final(self).frame() == old(self).frame(),
    {
        write_tdata(&mut self.regs, byte as u32);
    }

    /// Sends every byte of `buf`, in order.
    pub fn write_bytes(&mut self, buf: &[u8])
        requires
            buf@.len() > 0 ==> get_bit(old(self).state().stat, STAT_TBE),
        ensures
            final(self).state() == (UsartState { sent: old(self).state().sent + byte_frames(buf@), ..old(self).state() }),
            final(self).pins() == old(self).pins(),
            final(self).frame() == old(self).frame(),
    {
        let n = buf.len();
        let ghost s0 = self.state();
        let mut i: usize = 0;
        while i < n
            invariant
                n == buf@.len(),
                0 <= i <= n,
                n > 0 ==> get_bit(s0.stat, STAT_TBE),
                self.state() == (UsartState { sent: s0.sent + byte_frames(buf@.subrange(0, i as int)), ..s0 }),
                self.pins() == old(self).pins(),
                self.frame() == old(self).frame(),
                s0 == old(self).state(),
            decreases n - i,
        {
            assert(byte_frames(buf@.subrange(0, i as int + 1)) =~= byte_frames(buf@.subrange(0, i as int)).push(buf@[i as int] as u32));
            assert(s0.sent + byte_frames(buf@.subrange(0, i as int + 1)) =~= (s0.sent + byte_frames(buf@.subrange(0, i as int))).push(buf@[i as int] as u32));
            self.write_byte(buf[i]);
            i = i + 1;
        }
        assert(buf@.subrange(0, n as int) =~= buf@);
    }

    /// Receives one byte; a frame must be waiting (`RBNE`), which the chip
    /// waits for. A line error consumes the offending frame and is reported
    /// instead of the data.
    pub fn read_byte(&mut self) -> (r: Result<u8, Error>)
        requires
            rx_ready(old(self).state()),
        ensures
            r == byte_read_result(old(self).state(), old(self).frame()),
            final(self).state() == after_read(old(self).state()),
            final(self).pins() == old(self).pins(),
            final(self).frame() == old(self).frame(),
    {
        match self.take_error() {
            Some(e) => Err(e),
            None => Ok(self.received_byte()),
        }
    }

    /// Receives into `buf` and returns how many bytes were placed there: once
    /// the first frame has arrived (which the chip waits for), whatever else is
    /// already waiting, up to `buf`'s length. `0` only for an empty `buf`. A
    /// line error ends the call at once.
    pub fn read_bytes(&mut self, buf: &mut [u8]) -> (r: Result<usize, Error>)
        requires
            old(buf)@.len() > 0 ==> rx_ready(old(self).state()),
        ensures
            final(buf)@.len() == old(buf)@.len(),
            old(buf)@.len() == 0 ==> r == Ok::<usize, Error>(0) && final(self).state() == old(self).state()
                && final(buf)@ == old(buf)@,
            old(buf)@.len() > 0 ==> ({
                let s = old(self).state();
                let n = old(buf)@.len() as int;
                let k = read_count(s, n);
                let e = first_spoiled(s, 0, k);
                &&& e < k ==> r == Err::<usize, Error>(error_of(stat_seen(skipped(s, e)))->0)
                    && final(self).state() == after_take_error(skipped(s, e))
                    && final(buf)@ == received_bytes(s, e, old(self).frame()) + old(buf)@.subrange(e, n)
                &&& e >= k ==> r == Ok::<usize, Error>(k as usize)
                    && final(self).state() == skipped(s, k)
                    && final(buf)@ == received_bytes(s, k, old(self).frame()) + old(buf)@.subrange(k, n)
            }),
            old(buf)@.len() > 0 ==> (r matches Ok(k) ==> k >= 1),
            final(self).pins() == old(self).pins(),
            final(self).frame() == old(self).frame(),
    {
        let n = buf.len();
        if n == 0 {
            return Ok(0);
        }
        let ghost s0 = self.state();
        let ghost b0 = buf@;
        let ghost ff = self.frame();
        let mut index: usize = 0;
        while index < n && self.read_ready()
            invariant
                n == b0.len(),
                n > 0,
                buf@.len() == n,
                0 <= index <= n,
                rx_ready(s0),
                forall|k: int| 0 <= k < index ==> !spoiled(s0, k),
                index <= available(s0),
                self.state() == skipped(s0, index as int),
                forall|j: int| 0 <= j < index ==> buf@[j] == frame_byte(s0.incoming[s0.taken + j], ff),
                forall|j: int| index <= j < n ==> buf@[j] == b0[j],
                self.pins() == old(self).pins(),
                self.frame() == ff,
                ff == old(self).frame(),
                s0 == old(self).state(),
                b0 == old(buf)@,
            decreases n - index,
        {
            match self.read_byte() {
                Ok(b) => {
                    buf[index] = b;
                },
                Err(e) => {
                    proof {
                        let k = read_count(s0, n as int);
                        lemma_first_spoiled(s0, 0, index as int, k);
                        assert(buf@ =~= received_bytes(s0, index as int, ff) + b0.subrange(index as int, n as int));
                    }
                    return Err(e);
                },
            }
            index = index + 1;
        }
        proof {
            let k = read_count(s0, n as int);
            assert(index == k);
            lemma_first_spoiled(s0, 0, k, k);
            assert(buf@ =~= received_bytes(s0, k, ff) + b0.subrange(k, n as int));
        }
        Ok(index)
    }
}

impl<USARTX: Instance, TX: TxPin<USARTX>, RX: RxPin<USARTX>> Usart<USARTX, TX, RX, Byte> {
    /// Enables the peripheral's clock, resets it and configures 8-bit words;
    /// the pins must already be in this USART's alternate function. The
    /// divisor comes from the frozen clocks in `rcu`.
    pub fn new(rcu: &mut Rcu, usart: USARTX, tx_pin: TX, rx_pin: RX, config: UsartConfig) -> (r: Self)
        requires
            baud_fits(USARTX::clock_of(old(rcu).clocks()).hz() as int, config.baud_spec().bps() as int),
        ensures
            r.state() == configured(
                usart.state(),
                USARTX::clock_of(old(rcu).clocks()).hz() as int,
                config.baud_spec().bps() as int,
                config.oversampling_spec(),
                ctl0_frame(ctl0_oversampling(config.oversampling_spec()), config.frame_format_spec()),
            ),
            r.pins() == (tx_pin, rx_pin),
            r.frame() == config.frame_format_spec(),
            final(rcu).regs() == with_reset_pulse(
                with_enable(old(rcu).regs(), USARTX::enable_bus(), USARTX::enable_bit(), true),
                USARTX::reset_bus(),
                USARTX::reset_bit(),
            ),
            final(rcu).clocks() == old(rcu).clocks(),
    {
        let mut regs = usart.into_regs();
        configure::<USARTX>(rcu, &mut regs, config.baud, config.oversampling);
        let w = write_ctl0_frame(regs.ctl0, config.frame_format);
        write_ctl0(&mut regs, w);
        enable_regs(&mut regs);
        Self {
            regs,
            tx_pin,
            rx_pin,
            frame_format: config.frame_format,
            _usart: PhantomData,
            _word: PhantomData,
        }
    }
}

impl<USARTX: Instance, TX, RX> Usart<USARTX, TX, RX, Word> {
    /// Sends one 9-bit word; bits above the ninth are discarded. The transmit
    /// buffer must accept it (`TBE`), which the chip waits for.
    pub fn write_word(&mut self, word: u16)
        requires
            get_bit(old(self).state().stat, STAT_TBE),
        ensures
            final(self).state() == (UsartState {
                sent: old(self).state().sent.push((word as u32) & DATA_9BIT_MASK),
                ..old(self).state()
            }),
            final(self).pins() == old(self).pins(),
            final(self).frame() == old(self).frame(),
    {
        write_tdata(&mut self.regs, (word as u32) & DATA_9BIT_MASK);
    }

    /// Sends every word of `buf`, in order.
    pub fn write_words(&mut self, buf: &[u16])
        requires
            buf@.len() > 0 ==> get_bit(old(self).state().stat, STAT_TBE),
        ensures
            final(self).state() == (UsartState { sent: old(self).state().sent + word_frames(buf@), ..old(self).state() }),
            final(self).pins() == old(self).pins(),
            final(self).frame() == old(self).frame(),
    {
        let n = buf.len();
        let ghost s0 = self.state();
        let mut i: usize = 0;
        while i < n
            invariant
                n == buf@.len(),
                0 <= i <= n,
                n > 0 ==> get_bit(s0.stat, STAT_TBE),
                self.state() == (UsartState { sent: s0.sent + word_frames(buf@.subrange(0, i as int)), ..s0 }),
                self.pins() == old(self).pins(),
                self.frame() == old(self).frame(),
                s0 == old(self).state(),
            decreases n - i,
        {
            assert(word_frames(buf@.subrange(0, i as int + 1)) =~= word_frames(buf@.subrange(0, i as int)).push((buf@[i as int] as u32) & DATA_9BIT_MASK));
            assert(s0.sent + word_frames(buf@.subrange(0, i as int + 1)) =~= (s0.sent + word_frames(buf@.subrange(0, i as int))).push((buf@[i as int] as u32) & DATA_9BIT_MASK));
            self.write_word(buf[i]);
            i = i + 1;
        }
        assert(buf@.subrange(0, n as int) =~= buf@);
    }

    /// Receives one 9-bit word; a frame must be waiting (`RBNE`), which the
    /// chip waits for. A line error consumes the frame and is reported instead.
    pub fn read_word(&mut self) -> (r: Result<u16, Error>)
        requires
            rx_ready(old(self).state()),
        ensures
            r == word_read_result(old(self).state()),
            final(self).state() == after_read(old(self).state()),
            final(self).pins() == old(self).pins(),
            final(self).frame() == old(self).frame(),
    {
        match self.take_error() {
            Some(e) => Err(e),
            None => Ok((read_rdata(&mut self.regs) & DATA_9BIT_MASK) as u16),
        }
    }

    /// Receives into `buf` and returns how many words were placed there; the
    /// same rule as [`read_bytes`](Usart::read_bytes).
    pub fn read_words(&mut self, buf: &mut [u16]) -> (r: Result<usize, Error>)
        requires
            old(buf)@.len() > 0 ==> rx_ready(old(self).state()),
        ensures
            final(buf)@.len() == old(buf)@.len(),
            old(buf)@.len() == 0 ==> r == Ok::<usize, Error>(0) && final(self).state() == old(self).state()
                && final(buf)@ == old(buf)@,
            old(buf)@.len() > 0 ==> ({
                let s = old(self).state();
                let n = old(buf)@.len() as int;
                let k = read_count(s, n);
                let e = first_spoiled(s, 0, k);
                &&& e < k ==> r == Err::<usize, Error>(error_of(stat_seen(skipped(s, e)))->0)
                    && final(self).state() == after_take_error(skipped(s, e))
                    && final(buf)@ == received_words(s, e) + old(buf)@.subrange(e, n)
                &&& e >= k ==> r == Ok::<usize, Error>(k as usize)
                    && final(self).state() == skipped(s, k)
                    && final(buf)@ == received_words(s, k) + old(buf)@.subrange(k, n)
            }),
            old(buf)@.len() > 0 ==> (r matches Ok(k) ==> k >= 1),
            final(self).pins() == old(self).pins(),
            final(self).frame() == old(self).frame(),
    {
        let n = buf.len();
        if n == 0 {
            return Ok(0);
        }
        let ghost s0 = self.state();
        let ghost b0 = buf@;
        let ghost ff = self.frame();
        let mut index: usize = 0;
        while index < n && self.read_ready()
            invariant
                n == b0.len(),
                n > 0,
                buf@.len() == n,
                0 <= index <= n,
                rx_ready(s0),
                forall|k: int| 0 <= k < index ==> !spoiled(s0, k),
                index <= available(s0),
                self.state() == skipped(s0, index as int),
                forall|j: int| 0 <= j < index ==> buf@[j] == (s0.incoming[s0.taken + j] & DATA_9BIT_MASK) as u16,
                forall|j: int| index <= j < n ==> buf@[j] == b0[j],
                self.pins() == old(self).pins(),
                self.frame() == ff,
                ff == old(self).frame(),
                s0 == old(self).state(),
                b0 == old(buf)@,
            decreases n - index,
        {
            match self.read_word() {
                Ok(w) => {
                    buf[index] = w;
                },
                Err(e) => {
                    proof {
                        let k = read_count(s0, n as int);
                        lemma_first_spoiled(s0, 0, index as int, k);
                        assert(buf@ =~= received_words(s0, index as int) + b0.subrange(index as int, n as int));
                    }
                    return Err(e);
                },
            }
            index = index + 1;
        }
        proof {
            let k = read_count(s0, n as int);
            assert(index == k);
            lemma_first_spoiled(s0, 0, k, k);
            assert(buf@ =~= received_words(s0, k) + b0.subrange(k, n as int));
        }
        Ok(index)
    }
}

impl<USARTX: Instance, TX: TxPin<USARTX>, RX: RxPin<USARTX>> Usart<USARTX, TX, RX, Word> {
    /// Same as [`new`](Usart::new), but configures raw 9-bit words with no
    /// parity.
    pub fn new_word(rcu: &mut Rcu, usart: USARTX, tx_pin: TX, rx_pin: RX, config: UsartConfig9) -> (r: Self)
        requires
            baud_fits(USARTX::clock_of(old(rcu).clocks()).hz() as int, config.baud_spec().bps() as int),
        ensures
            r.state() == configured(
                usart.state(),
                USARTX::clock_of(old(rcu).clocks()).hz() as int,
                config.baud_spec().bps() as int,
                config.oversampling_spec(),
                ctl0_word(ctl0_oversampling(config.oversampling_spec())),
            ),
            r.pins() == (tx_pin, rx_pin),
            final(rcu).regs() == with_reset_pulse(
                with_enable(old(rcu).regs(), USARTX::enable_bus(), USARTX::enable_bit(), true),
                USARTX::reset_bus(),
                USARTX::reset_bit(),
            ),
            final(rcu).clocks() == old(rcu).clocks(),
    {
        let mut regs = usart.into_regs();
        configure::<USARTX>(rcu, &mut regs, config.baud, config.oversampling);
        let w = write_bit(regs.ctl0, CTL0_PCEN, false);
        let w = write_bit(w, CTL0_WL, true);
        write_ctl0(&mut regs, w);
        enable_regs(&mut regs);
        Self {
            regs,
            tx_pin,
            rx_pin,
            // Never read: only the byte receiver looks at the frame format.
            frame_format: FrameFormat::N8,
            _usart: PhantomData,
            _word: PhantomData,
        }
    }
}

/// The divisor is `pclk / baud` rounded to the nearest integer: it misses
/// the exact quotient by at most half.
pub proof fn law_baud_divisor_rounds(pclk: int, baud: int)
    requires
        0 <= pclk,
        0 < baud,
    ensures
        2 * (usart_div(pclk, baud) * baud - pclk) <= baud,
        2 * (pclk - usart_div(pclk, baud) * baud) <= baud,
{
    let n = pclk + baud / 2;
    let q = n / baud;
    assert(q * baud <= n < q * baud + baud) by (nonlinear_arith)
        requires
            0 < baud,
            0 <= n,
            q == n / baud,
    ;
}

/// The `BAUD` register holds the divisor so that it reads back: as itself at
/// ×16, and at ×8 as eight times the integer part above bit 4 plus the
/// three-bit fraction below it.
pub proof fn law_baud_register_reads_back(div: int)
    requires
        0 <= div < 0x8000_0000,
    ensures
        baud_register(div, Oversampling::X16) == div,
        (baud_register(div, Oversampling::X8) >> 4u32) * 8 + (baud_register(div, Oversampling::X8) & 7u32) == div,
{
    let q = (div / 8) as u32;
    let f = (div % 8) as u32;
    assert(q < 0x1000_0000u32 && f < 8u32);
    assert((((q << 4u32) | (f & 7u32)) >> 4u32) == q && (((q << 4u32) | (f & 7u32)) & 7u32) == f)
        by (bit_vector)
        requires
            q < 0x1000_0000u32,
            f < 8u32,
    ;
}

/// Errors come out one per call, in the order `ORERR`, `NERR`, `FERR`,
/// `PERR`: the taken flag cleared, every other bit of `STAT` left standing;
/// four calls drain them all.
pub proof fn law_take_error_drains(stat: u32)
    ensures
        error_of(stat) is Some ==> !get_bit(stat_after_take(stat), error_bit(error_of(stat)->0)),
        error_of(stat) is Some ==> forall|i: u32|
            i < 32 && i != error_bit(error_of(stat)->0) ==> #[trigger] get_bit(stat_after_take(stat), i)
                == get_bit(stat, i),
        error_of(stat) is None ==> stat_after_take(stat) == stat,
        error_of(stat_after_take(stat_after_take(stat_after_take(stat_after_take(stat))))) is None,
{
    assert(forall|s: u32, i: u32, j: u32|
        #![trigger get_bit(put_bit(s, i, false), j)]
        i < 32 && j < 32 ==> (get_bit(put_bit(s, i, false), j) == if i == j {
            false
        } else {
            get_bit(s, j)
        })) by (bit_vector);
}


/// Listening for an event sets its enable, which `is_listening` reads back;
/// the other events' enables stand.
pub proof fn law_listen_reads_back(s: UsartState, event: Event, other: Event, on: bool)
    ensures
        event_enabled(with_event(s, event, on), event) == on,
        other != event ==> event_enabled(with_event(s, event, on), other) == event_enabled(s, other),
{
    let bit = match event {
        Event::Rbne => CTL0_RBNEIE,
        Event::Tbe => CTL0_TBEIE,
        Event::ParityError => CTL0_PERRIE,
        Event::Error => CTL2_ERRIE,
    };
    let word = match event {
        Event::Error => s.ctl2,
        _ => s.ctl0,
    };
    crate::bits::lemma_put_bit(word, bit, on, bit);
    crate::bits::lemma_put_bit(word, bit, on, CTL0_RBNEIE);
    crate::bits::lemma_put_bit(word, bit, on, CTL0_TBEIE);
    crate::bits::lemma_put_bit(word, bit, on, CTL0_PERRIE);
}

/// Each USART's divisor is computed from the clock that actually feeds it:
/// USART1 from the bus it is enabled on (APB1), USART0 from the source
/// `USART0SEL` picks rather than from its bus.
pub proof fn law_usart_clock_sources(c: Clocks)
    ensures
        periph::Usart1::clock_of(c) == bus_clock(c, periph::Usart1::enable_bus()),
        periph::Usart0::clock_of(c) == c.spec_usart0(),
{
}

/// Whether a frame format carries a parity bit.
pub open spec fn has_parity(ff: FrameFormat) -> bool {
    ff != FrameFormat::N8
}

/// Whether a frame format's parity is odd.
pub open spec fn odd_parity(ff: FrameFormat) -> bool {
    ff == FrameFormat::O8 || ff == FrameFormat::O7
}

/// The data bits a frame format carries.
pub open spec fn data_bits(ff: FrameFormat) -> nat {
    match ff {
        FrameFormat::E7 | FrameFormat::O7 => 7,
        _ => 8,
    }
}

/// The frame bits written for a format make the chip send exactly that
/// format: parity on when the format has one, odd when it is odd, and a word
/// length (`WL` set for 9 bits) of the data bits plus the parity bit.
pub proof fn law_frame_bits(ctl0: u32, ff: FrameFormat)
    ensures
        get_bit(ctl0_frame(ctl0, ff), CTL0_PCEN) == has_parity(ff),
        has_parity(ff) ==> get_bit(ctl0_frame(ctl0, ff), CTL0_PM) == odd_parity(ff),
        (if get_bit(ctl0_frame(ctl0, ff), CTL0_WL) { 9nat } else { 8nat }) == data_bits(ff) + (if has_parity(ff) {
            1nat
        } else {
            0nat
        }),
{
    assert(forall|c: u32, a: bool, b: bool, d: bool|
        #![trigger put_bit(put_bit(put_bit(c, 10, a), 9, b), 12, d)]
        {
            let x = put_bit(put_bit(put_bit(c, 10, a), 9, b), 12, d);
            &&& get_bit(x, 10) == a
            &&& get_bit(x, 9) == b
            &&& get_bit(x, 12) == d
        }) by (bit_vector);
    assert(forall|c: u32, a: bool, d: bool|
        #![trigger put_bit(put_bit(c, 10, a), 12, d)]
        {
            let x = put_bit(put_bit(c, 10, a), 12, d);
            &&& get_bit(x, 10) == a
            &&& get_bit(x, 12) == d
        }) by (bit_vector);
}

} // verus!
