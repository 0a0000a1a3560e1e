//! SPI master.
//!
//! Covers both SPI0 and SPI1 in master, full-duplex mode with software NSS
//! (chip select is an ordinary GPIO the caller toggles). Frames are 8 or 16
//! bits wide, selected by a typestate parameter.
//!
//! Every operation is a simultaneous *exchange* — a word leaves on MOSI while
//! another arrives on MISO. In the register file the words written into
//! `DATA` are `sent`, and the words the bus delivers are `incoming`, taken in
//! order; an exchange takes the next one.

use core::marker::PhantomData;

use vstd::prelude::*;

use crate::bits::{get_bit, get_field, put_bit, put_field, read_bit, write_bit, write_field};
use crate::gpio::{Alternate, PORT_A, PORT_B, Pin, PushPull};
use crate::periph::{self, CtlEvent, SpiRegs, SpiState};
use crate::rcu::{Enable, Rcu, Reset, with_enable, with_reset_pulse};

verus! {

/// `CTL0` bits.
pub const CTL0_CKPH: u32 = 0;
pub const CTL0_CKPL: u32 = 1;
pub const CTL0_MSTMOD: u32 = 2;
pub const CTL0_PSC: u32 = 3;
pub const CTL0_SPIEN: u32 = 6;
pub const CTL0_LF: u32 = 7;
pub const CTL0_SWNSS: u32 = 8;
pub const CTL0_SWNSSEN: u32 = 9;
pub const CTL0_FF16: u32 = 11;
/// `CTL1` bits.
pub const CTL1_ERRIE: u32 = 5;
pub const CTL1_RBNEIE: u32 = 6;
pub const CTL1_TBEIE: u32 = 7;
pub const CTL1_DZ: u32 = 8;
pub const CTL1_BYTEN: u32 = 12;
/// `STAT` bits.
pub const STAT_TBE: u32 = 1;
pub const STAT_CRCERR: u32 = 4;
pub const STAT_CONFERR: u32 = 5;
pub const STAT_RXORERR: u32 = 6;
pub const STAT_FERR: u32 = 8;
/// The error flags of `STAT`: `CRCERR`, `CONFERR`, `RXORERR`, `FERR`.
pub const STAT_ERRORS: u32 = 0x170;
/// SPI1 `DZ` encodes the frame length as bits - 1.
pub const DZ_8BIT: u32 = 0b0111;
pub const DZ_16BIT: u32 = 0b1111;

/// Named idle levels for the side of an exchange that carries no data.
pub const FILL_LOW: u8 = 0x00;
pub const FILL_HIGH: u8 = 0xFF;
pub const FILL_LOW_WORD: u16 = 0x0000;
pub const FILL_HIGH_WORD: u16 = 0xFFFF;

/// SCK prescaler: divides `pclk` down to the serial clock.
#[derive(Clone, Copy, PartialEq, Eq, Structural)]
#[allow(missing_docs)]
pub enum SpiPsc {
    Div2,
    Div4,
    Div8,
    Div16,
    Div32,
    Div64,
    Div128,
    Div256,
}

impl SpiPsc {
    /// The divider.
    pub open spec fn divisor(self) -> nat {
        match self {
            SpiPsc::Div2 => 2,
            SpiPsc::Div4 => 4,
            SpiPsc::Div8 => 8,
            SpiPsc::Div16 => 16,
            SpiPsc::Div32 => 32,
            SpiPsc::Div64 => 64,
            SpiPsc::Div128 => 128,
            SpiPsc::Div256 => 256,
        }
    }

    /// The `PSC` code: the power of two divided by, less one.
    pub open spec fn code(self) -> u32 {
        match self {
            SpiPsc::Div2 => 0,
            SpiPsc::Div4 => 1,
            SpiPsc::Div8 => 2,
            SpiPsc::Div16 => 3,
            SpiPsc::Div32 => 4,
            SpiPsc::Div64 => 5,
            SpiPsc::Div128 => 6,
            SpiPsc::Div256 => 7,
        }
    }

    fn reg_code(self) -> (r: u32)
        ensures
            r == self.code(),
    {
        match self {
            SpiPsc::Div2 => 0,
            SpiPsc::Div4 => 1,
            SpiPsc::Div8 => 2,
            SpiPsc::Div16 => 3,
            SpiPsc::Div32 => 4,
            SpiPsc::Div64 => 5,
            SpiPsc::Div128 => 6,
            SpiPsc::Div256 => 7,
        }
    }
}

/// Order in which the bits of a word are shifted onto the wire.
#[derive(Clone, Copy, PartialEq, Eq, Structural)]
pub enum BitOrder {
    /// Most significant bit first.
    MsbFirst,
    /// Least significant bit first.
    LsbFirst,
}

/// Clock polarity: the level SCK idles at.
#[derive(Clone, Copy, PartialEq, Eq, Structural)]
pub enum Polarity {
    /// SCK idles low.
    IdleLow,
    /// SCK idles high.
    IdleHigh,
}

/// Clock phase: which edge data is captured on.
#[derive(Clone, Copy, PartialEq, Eq, Structural)]
pub enum Phase {
    /// Data captured on the first transition.
    CaptureOnFirstTransition,
    /// Data captured on the second transition.
    CaptureOnSecondTransition,
}

/// An SPI mode: clock polarity and phase.
#[derive(Clone, Copy, PartialEq, Eq, Structural)]
pub struct Mode {
    pub polarity: Polarity,
    pub phase: Phase,
}

impl Mode {
    /// Mode 0: SCK idles low, data captured on the first transition.
    pub fn mode_0() -> (r: Mode)
        ensures
            r == (Mode { polarity: Polarity::IdleLow, phase: Phase::CaptureOnFirstTransition }),
    {
        Mode { polarity: Polarity::IdleLow, phase: Phase::CaptureOnFirstTransition }
    }
}

/// Bus configuration passed to [`Spi::new`] / [`Spi::new_word`].
#[derive(Clone, Copy, PartialEq, Eq, Structural)]
pub struct SpiConfig {
    psc: SpiPsc,
    mode: Mode,
    bit_order: BitOrder,
}

impl SpiConfig {
    /// The prescaler.
    pub closed spec fn psc_spec(self) -> SpiPsc {
        self.psc
    }

    /// The clock mode.
    pub closed spec fn mode_spec(self) -> Mode {
        self.mode
    }

    /// The bit order.
    pub closed spec fn bit_order_spec(self) -> BitOrder {
        self.bit_order
    }

    /// Creates a configuration with the given prescaler, Mode 0 and MSB-first.
    pub fn new(psc: SpiPsc) -> (r: Self)
        ensures
            r.psc_spec() == psc,
            r.mode_spec() == (Mode { polarity: Polarity::IdleLow, phase: Phase::CaptureOnFirstTransition }),
            r.bit_order_spec() == BitOrder::MsbFirst,
    {
        Self { psc, mode: Mode::mode_0(), bit_order: BitOrder::MsbFirst }
    }

    /// Sets the clock polarity and phase.
    pub fn mode(self, mode: Mode) -> (r: Self)
        ensures
            r.psc_spec() == self.psc_spec(),
            r.mode_spec() == mode,
            r.bit_order_spec() == self.bit_order_spec(),
    {
        Self { mode, ..self }
    }

    /// Sets the bit order.
    pub fn bit_order(self, bit_order: BitOrder) -> (r: Self)
        ensures
            r.psc_spec() == self.psc_spec(),
            r.mode_spec() == self.mode_spec(),
            r.bit_order_spec() == bit_order,
    {
        Self { bit_order, ..self }
    }
}

/// `CTL0` in master mode with software NSS, enabled, with `config`'s clock and
/// bit order; `FF16` set to `wide` where `with_ff16` says the register has it.
pub open spec fn ctl0_master(ctl0: u32, config: SpiConfig, wide: bool, with_ff16: bool) -> u32 {
    let w = put_bit(put_bit(put_bit(put_bit(ctl0, CTL0_MSTMOD, true), CTL0_SWNSSEN, true), CTL0_SWNSS, true), CTL0_LF, config.bit_order_spec() == BitOrder::LsbFirst);
    let w = if with_ff16 {
        put_bit(w, CTL0_FF16, wide)
    } else {
        w
    };
    let w = put_bit(put_bit(put_bit(w, CTL0_SPIEN, true), CTL0_CKPL, config.mode_spec().polarity == Polarity::IdleHigh), CTL0_CKPH, config.mode_spec().phase == Phase::CaptureOnSecondTransition);
    put_field(w, CTL0_PSC, 7, config.psc_spec().code())
}

/// Marks a pin usable as `SCK` for `SPI`, in the right alternate function.
pub trait SckPin<SPI> {

}

/// Marks a pin usable as `MISO` for `SPI`, in the right alternate function.
pub trait MisoPin<SPI> {

}

/// Marks a pin usable as `MOSI` for `SPI`, in the right alternate function.
pub trait MosiPin<SPI> {

}

impl SckPin<periph::Spi0> for Pin<PORT_A, 5, Alternate<0, PushPull>> {

}

impl SckPin<periph::Spi0> for Pin<PORT_B, 3, Alternate<0, PushPull>> {

}

impl MisoPin<periph::Spi0> for Pin<PORT_A, 6, Alternate<0, PushPull>> {

}

impl MisoPin<periph::Spi0> for Pin<PORT_B, 4, Alternate<0, PushPull>> {

}

impl MosiPin<periph::Spi0> for Pin<PORT_A, 7, Alternate<0, PushPull>> {

}

impl MosiPin<periph::Spi0> for Pin<PORT_B, 5, Alternate<0, PushPull>> {

}

impl SckPin<periph::Spi1> for Pin<PORT_B, 1, Alternate<6, PushPull>> {

}

impl MisoPin<periph::Spi1> for Pin<PORT_A, 13, Alternate<6, PushPull>> {

}

impl MosiPin<periph::Spi1> for Pin<PORT_A, 14, Alternate<6, PushPull>> {

}

/// Word-width marker: 8-bit frames.
pub struct Byte;

/// Word-width marker: 16-bit frames.
pub struct Word;

/// An error the peripheral flagged in `STAT`.
#[derive(Clone, Copy, PartialEq, Eq, Structural)]
pub enum Error {
    /// A received word was overwritten before it had been read (`RXORERR`).
    Overrun,
    /// `NSS` was pulled low while configured as a master (`CONFERR`).
    ModeFault,
    /// The received CRC does not match the one computed locally (`CRCERR`).
    Crc,
    /// A frame boundary arrived where none was expected (`FERR`).
    Framing,
}

/// The error `STAT` reports: the first of `RXORERR`, `CONFERR`, `CRCERR`,
/// `FERR` that stands.
pub open spec fn error_of(stat: u32) -> Option<Error> {
    if get_bit(stat, STAT_RXORERR) {
        Some(Error::Overrun)
    } else if get_bit(stat, STAT_CONFERR) {
        Some(Error::ModeFault)
    } else if get_bit(stat, STAT_CRCERR) {
        Some(Error::Crc)
    } else if get_bit(stat, STAT_FERR) {
        Some(Error::Framing)
    } else {
        None
    }
}

/// The `STAT` bit behind an error.
pub open spec fn error_bit(e: Error) -> u32 {
    match e {
        Error::Overrun => STAT_RXORERR,
        Error::ModeFault => STAT_CONFERR,
        Error::Crc => STAT_CRCERR,
        Error::Framing => STAT_FERR,
    }
}

/// `STAT` once the error it reports has been taken: that flag cleared, the
/// others left standing.
pub open spec fn stat_after_take(stat: u32) -> u32 {
    match error_of(stat) {
        Some(e) => put_bit(stat, error_bit(e), false),
        None => stat,
    }
}

/// The error flags the next incoming word arrives with.
pub open spec fn frame_errors(s: SpiState) -> u32 {
    if 0 <= s.taken < s.flags.len() {
        s.flags[s.taken] & STAT_ERRORS
    } else {
        0
    }
}

/// `STAT` once the next incoming word is read: the flags standing, with
/// those the word arrived with.
pub open spec fn stat_seen(s: SpiState) -> u32 {
    s.stat | frame_errors(s)
}

/// The registers after one exchange of `word`: it joins `sent`, the next
/// incoming word is taken with its flags, and the error `STAT` then reports
/// is taken.
pub open spec fn exchanged(s: SpiState, word: u16) -> SpiState {
    SpiState { sent: s.sent.push(word), taken: s.taken + 1, stat: stat_after_take(stat_seen(s)), ..s }
}

/// What an exchange returns: the word that arrived, or the error that stood
/// once it was read.
pub open spec fn exchange_result(s: SpiState) -> Result<u16, Error> {
    match error_of(stat_seen(s)) {
        Some(e) => Err(e),
        None => Ok(s.incoming[s.taken]),
    }
}

/// An exchange that reports no error leaves `STAT` as it stood.
pub proof fn lemma_clean_keeps_stat(s: SpiState)
    requires
        error_of(stat_seen(s)) is None,
    ensures
        stat_after_take(stat_seen(s)) == s.stat,
{
    let x = s.stat;
    let f = frame_errors(s);
    assert(f & !STAT_ERRORS == 0) by {
        if 0 <= s.taken < s.flags.len() {
            let g = s.flags[s.taken];
            assert((g & 0x170u32) & !0x170u32 == 0) by (bit_vector);
        } else {
            assert(0u32 & !0x170u32 == 0) by (bit_vector);
        }
    }
    assert(f & !0x170u32 == 0 && !get_bit(x | f, 4) && !get_bit(x | f, 5) && !get_bit(x | f, 6)
        && !get_bit(x | f, 8) ==> x | f == x) by (bit_vector);
}

/// The registers with the read position moved `j` words on.
pub open spec fn skipped(s: SpiState, j: int) -> SpiState {
    SpiState { taken: s.taken + j, ..s }
}

/// Whether the exchange `j` places after the read position, with `STAT`
/// standing as in `s`, reports an error.
pub open spec fn spoiled(s: SpiState, j: int) -> bool {
    error_of(stat_seen(skipped(s, j))) is Some
}

/// The first of the exchanges `j` to `limit - 1` places on that reports an
/// error, or `limit` when none does.
pub open spec fn first_spoiled(s: SpiState, j: int, limit: int) -> int
    decreases limit - j,
{
    if j >= limit {
        limit
    } else if spoiled(s, j) {
        j
    } else {
        first_spoiled(s, j + 1, limit)
    }
}

/// `first_spoiled` is the first index at which an exchange reports an
/// error, or `limit` when none before it does.
pub proof fn lemma_first_spoiled(s: SpiState, j: int, i: int, limit: int)
    requires
        j <= i <= limit,
        forall|k: int| j <= k < i ==> !spoiled(s, k),
        i < limit ==> spoiled(s, i),
    ensures
        first_spoiled(s, j, limit) == i,
    decreases i - j,
{
    if j < i {
        lemma_first_spoiled(s, j + 1, i, limit);
    }
}

/// Whether a word has arrived and waits to be read.
pub open spec fn rx_ready(s: SpiState) -> bool {
    0 <= s.taken < s.incoming.len()
}

/// A peripheral that [`Spi`] can drive, abstracted at the operation level:
/// SPI0 and SPI1 lay their frame-width bits out differently.
pub trait Instance: Enable + Reset + Sized {
    /// The registers.
    spec fn state(&self) -> SpiState;

    /// The registers, for the code that mirrors them onto the chip.
    fn regs(&self) -> (r: &SpiRegs)
        ensures
            r@ == self.state(),
    ;

    /// The registers once the full master configuration is written.
    spec fn configured(s: SpiState, config: SpiConfig, wide: bool) -> SpiState;

    /// Returns the configuration registers to their reset values, as pulsing
    /// the peripheral's reset line does.
    fn reset_registers(&mut self)
        ensures
            final(self).state() == (SpiState {
                ctl0: 0,
                ctl1: 0,
                ctl_log: old(self).state().ctl_log.push(CtlEvent::Reset),
                ..old(self).state()
            }),
    ;

    /// Writes the full master configuration, leaving the peripheral enabled.
    fn apply_config(&mut self, config: SpiConfig, wide: bool)
        ensures
            final(self).state() == Self::configured(old(self).state(), config, wide),
    ;

    /// Transmit buffer empty — ready to accept the next word.
    fn tbe(&self) -> (r: bool)
        ensures
            r == get_bit(self.state().stat, STAT_TBE),
    ;

    /// Receive buffer not empty — a word has arrived.
    fn rbne(&self) -> (r: bool)
        ensures
            r == rx_ready(self.state()),
    ;

    /// Writes a word to the data register, which starts the clock in master mode.
    fn write_data(&mut self, word: u16)
        ensures
            final(self).state() == (SpiState { sent: old(self).state().sent.push(word), ..old(self).state() }),
    ;

    /// Reads the received word from the data register; the error flags it
    /// arrived with stand in `STAT` from then on.
    fn read_data(&mut self) -> (r: u16)
        requires
            rx_ready(old(self).state()),
        ensures
            r == old(self).state().incoming[old(self).state().taken],
            final(self).state() == (SpiState { taken: old(self).state().taken + 1, stat: stat_seen(old(self).state()), ..old(self).state() }),
    ;

    /// Returns the first pending error, if any, clearing it.
    fn take_error(&mut self) -> (r: Option<Error>)
        ensures
            r == error_of(old(self).state().stat),
            final(self).state() == (SpiState { stat: stat_after_take(old(self).state().stat), ..old(self).state() }),
    ;

    /// Enables or disables the peripheral (`SPIEN`).
    fn set_enabled(&mut self, on: bool)
        ensures
            final(self).state() == (SpiState {
                ctl0: put_bit(old(self).state().ctl0, CTL0_SPIEN, on),
                ctl_log: old(self).state().ctl_log.push(CtlEvent::Ctl0(put_bit(old(self).state().ctl0, CTL0_SPIEN, on))),
                ..old(self).state()
            }),
    ;

    /// Enables or disables the interrupt of `event`.
    fn set_interrupt(&mut self, event: Event, on: bool)
        ensures
            final(self).state() == (SpiState {
                ctl1: put_bit(old(self).state().ctl1, event.ctl1_bit(), on),
                ctl_log: old(self).state().ctl_log.push(CtlEvent::Ctl1(put_bit(old(self).state().ctl1, event.ctl1_bit(), on))),
                ..old(self).state()
            }),
    ;

    /// Reads back the interrupt enable of `event`.
    fn interrupt(&self, event: Event) -> (r: bool)
        ensures
            r == get_bit(self.state().ctl1, event.ctl1_bit()),
    ;
}

/// Takes the first pending error out of `regs`.
fn take_error_regs(regs: &mut SpiRegs) -> (r: Option<Error>)
    ensures
        r == error_of(old(regs)@.stat),
        final(regs)@ == (SpiState { stat: stat_after_take(old(regs)@.stat), ..old(regs)@ }),
{
    let stat = regs.stat;
    if read_bit(stat, STAT_RXORERR) {
        // Reading `DATA` and `STAT` clears it.
        regs.stat = write_bit(stat, STAT_RXORERR, false);
        Some(Error::Overrun)
    } else if read_bit(stat, STAT_CONFERR) {
        // Reading `STAT` and writing `CTL0` clears it.
        regs.stat = write_bit(stat, STAT_CONFERR, false);
        Some(Error::ModeFault)
    } else if read_bit(stat, STAT_CRCERR) {
        regs.stat = write_bit(stat, STAT_CRCERR, false);
        Some(Error::Crc)
    } else if read_bit(stat, STAT_FERR) {
        regs.stat = write_bit(stat, STAT_FERR, false);
        Some(Error::Framing)
    } else {
        None
    }
}

fn read_data_regs(regs: &mut SpiRegs) -> (r: u16)
    requires
        rx_ready(old(regs)@),
    ensures
        r == old(regs)@.incoming[old(regs)@.taken],
        final(regs)@ == (SpiState { taken: old(regs)@.taken + 1, stat: stat_seen(old(regs)@), ..old(regs)@ }),
{
    let _len = regs.incoming.len();
    let word = regs.incoming[regs.taken];
    if regs.taken < regs.flags.len() {
        regs.stat = regs.stat | (regs.flags[regs.taken] & STAT_ERRORS);
    } else {
        let stat = regs.stat;
        assert(stat | 0 == stat) by (bit_vector);
    }
    regs.taken = regs.taken + 1;
    word
}

fn set_ctl1_bit(regs: &mut SpiRegs, bit: u32, on: bool)
    requires
        bit < 32,
    ensures
        final(regs)@ == (SpiState {
            ctl1: put_bit(old(regs)@.ctl1, bit, on),
            ctl_log: old(regs)@.ctl_log.push(CtlEvent::Ctl1(put_bit(old(regs)@.ctl1, bit, on))),
            ..old(regs)@
        }),
{
    let w = write_bit(regs.ctl1, bit, on);
    write_ctl1(regs, w);
}

/// Writes `value` into `CTL1`.
fn write_ctl1(regs: &mut SpiRegs, value: u32)
    ensures
        final(regs)@ == (SpiState { ctl1: value, ctl_log: old(regs)@.ctl_log.push(CtlEvent::Ctl1(value)), ..old(regs)@ }),
{
    regs.ctl1 = value;
    regs.ctl_log.push(CtlEvent::Ctl1(value));
}

/// Writes `value` into `CTL0`.
fn write_ctl0(regs: &mut SpiRegs, value: u32)
    ensures
        final(regs)@ == (SpiState { ctl0: value, ctl_log: old(regs)@.ctl_log.push(CtlEvent::Ctl0(value)), ..old(regs)@ }),
{
    regs.ctl0 = value;
    regs.ctl_log.push(CtlEvent::Ctl0(value));
}

/// The reset pulse: the control registers back to zero.
fn reset_ctl(regs: &mut SpiRegs)
    ensures
        final(regs)@ == (SpiState { ctl0: 0, ctl1: 0, ctl_log: old(regs)@.ctl_log.push(CtlEvent::Reset), ..old(regs)@ }),
{
    regs.ctl0 = 0;
    regs.ctl1 = 0;
    regs.ctl_log.push(CtlEvent::Reset);
}

/// Writes the master configuration into `CTL0`, which turns the peripheral
/// on. Where `CTL0` has no `FF16`, the frame width must already stand in
/// `CTL1`, so the peripheral never runs with a stale width.
fn enable_master(regs: &mut SpiRegs, config: SpiConfig, wide: bool, with_ff16: bool)
    requires
        !with_ff16 ==> old(regs).ctl1 == spi1_ctl1_width(old(regs).ctl1, wide),
    ensures
        final(regs)@ == (SpiState {
            ctl0: ctl0_master(old(regs).ctl0, config, wide, with_ff16),
            ctl_log: old(regs)@.ctl_log.push(CtlEvent::Ctl0(ctl0_master(old(regs).ctl0, config, wide, with_ff16))),
            ..old(regs)@
        }),
{
    let w = write_ctl0_master(regs.ctl0, config, wide, with_ff16);
    write_ctl0(regs, w);
}

fn write_ctl0_master(ctl0: u32, config: SpiConfig, wide: bool, with_ff16: bool) -> (r: u32)
    ensures
        r == ctl0_master(ctl0, config, wide, with_ff16),
{
    let w = write_bit(ctl0, CTL0_MSTMOD, true);
    let w = write_bit(w, CTL0_SWNSSEN, true);
    let w = write_bit(w, CTL0_SWNSS, true);
    let lsb = match config.bit_order {
        BitOrder::LsbFirst => true,
        BitOrder::MsbFirst => false,
    };
    let w = write_bit(w, CTL0_LF, lsb);
    let w = if with_ff16 {
        write_bit(w, CTL0_FF16, wide)
    } else {
        w
    };
    let w = write_bit(w, CTL0_SPIEN, true);
    let high = match config.mode.polarity {
        Polarity::IdleHigh => true,
        Polarity::IdleLow => false,
    };
    let w = write_bit(w, CTL0_CKPL, high);
    let second = match config.mode.phase {
        Phase::CaptureOnSecondTransition => true,
        Phase::CaptureOnFirstTransition => false,
    };
    let w = write_bit(w, CTL0_CKPH, second);
    write_field(w, CTL0_PSC, 7, config.psc.reg_code())
}

impl Instance for periph::Spi0 {
    open spec fn state(&self) -> SpiState {
        self.regs@
    }

    fn regs(&self) -> (r: &SpiRegs) {
        &self.regs
    }

    open spec fn configured(s: SpiState, config: SpiConfig, wide: bool) -> SpiState {
        SpiState {
            ctl0: ctl0_master(s.ctl0, config, wide, true),
            ctl_log: s.ctl_log.push(CtlEvent::Ctl0(ctl0_master(s.ctl0, config, wide, true))),
            ..s
        }
    }

    fn reset_registers(&mut self) {
        reset_ctl(&mut self.regs);
    }

    fn apply_config(&mut self, config: SpiConfig, wide: bool) {
        enable_master(&mut self.regs, config, wide, true);
    }

    fn tbe(&self) -> (r: bool) {
        read_bit(self.regs.stat, STAT_TBE)
    }

    fn rbne(&self) -> (r: bool) {
        self.regs.taken < self.regs.incoming.len()
    }

    fn write_data(&mut self, word: u16) {
        self.regs.sent.push(word);
    }

    fn read_data(&mut self) -> (r: u16) {
        read_data_regs(&mut self.regs)
    }

    fn take_error(&mut self) -> (r: Option<Error>) {
        take_error_regs(&mut self.regs)
    }

    fn set_enabled(&mut self, on: bool) {
        let w = write_bit(self.regs.ctl0, CTL0_SPIEN, on);
        write_ctl0(&mut self.regs, w);
    }

    fn set_interrupt(&mut self, event: Event, on: bool) {
        let bit = match event {
            Event::Rbne => CTL1_RBNEIE,
            Event::Tbe => CTL1_TBEIE,
            Event::Error => CTL1_ERRIE,
        };
        set_ctl1_bit(&mut self.regs, bit, on);
    }

    fn interrupt(&self, event: Event) -> (r: bool) {
        let bit = match event {
            Event::Rbne => CTL1_RBNEIE,
            Event::Tbe => CTL1_TBEIE,
            Event::Error => CTL1_ERRIE,
        };
        read_bit(self.regs.ctl1, bit)
    }
}

/// SPI1's `CTL1` for a frame width: `BYTEN` set for bytes, `DZ` the width
/// less one, so the FIFO access matches the frames.
pub open spec fn spi1_ctl1_width(ctl1: u32, wide: bool) -> u32 {
    put_field(put_bit(ctl1, CTL1_BYTEN, !wide), CTL1_DZ, 0xf, if wide {
        DZ_16BIT
    } else {
        DZ_8BIT
    })
}

impl Instance for periph::Spi1 {
    open spec fn state(&self) -> SpiState {
        self.regs@
    }

    fn regs(&self) -> (r: &SpiRegs) {
        &self.regs
    }

    open spec fn configured(s: SpiState, config: SpiConfig, wide: bool) -> SpiState {
        SpiState {
            ctl1: spi1_ctl1_width(s.ctl1, wide),
            ctl0: ctl0_master(s.ctl0, config, wide, false),
            ctl_log: s.ctl_log.push(CtlEvent::Ctl1(spi1_ctl1_width(s.ctl1, wide))).push(
                CtlEvent::Ctl0(ctl0_master(s.ctl0, config, wide, false)),
            ),
            ..s
        }
    }

    fn reset_registers(&mut self) {
        reset_ctl(&mut self.regs);
    }

    fn apply_config(&mut self, config: SpiConfig, wide: bool) {
        let ghost c = self.regs.ctl1;
        let dz = if wide {
            DZ_16BIT
        } else {
            DZ_8BIT
        };
        let w = write_bit(self.regs.ctl1, CTL1_BYTEN, !wide);
        let w = write_field(w, CTL1_DZ, 0xf, dz);
        write_ctl1(&mut self.regs, w);
        proof {
            let b = !wide;
            assert(dz <= 0xf ==> put_field(put_bit(put_field(put_bit(c, CTL1_BYTEN, b), CTL1_DZ, 0xf, dz), CTL1_BYTEN, b), CTL1_DZ, 0xf, dz)
                == put_field(put_bit(c, CTL1_BYTEN, b), CTL1_DZ, 0xf, dz)) by (bit_vector);
        }
        enable_master(&mut self.regs, config, wide, false);
    }

    fn tbe(&self) -> (r: bool) {
        read_bit(self.regs.stat, STAT_TBE)
    }

    fn rbne(&self) -> (r: bool) {
        self.regs.taken < self.regs.incoming.len()
    }

    fn write_data(&mut self, word: u16) {
        self.regs.sent.push(word);
    }

    fn read_data(&mut self) -> (r: u16) {
        read_data_regs(&mut self.regs)
    }

    fn take_error(&mut self) -> (r: Option<Error>) {
        take_error_regs(&mut self.regs)
    }

    fn set_enabled(&mut self, on: bool) {
        let w = write_bit(self.regs.ctl0, CTL0_SPIEN, on);
        write_ctl0(&mut self.regs, w);
    }

    fn set_interrupt(&mut self, event: Event, on: bool) {
        let bit = match event {
            Event::Rbne => CTL1_RBNEIE,
            Event::Tbe => CTL1_TBEIE,
            Event::Error => CTL1_ERRIE,
        };
        set_ctl1_bit(&mut self.regs, bit, on);
    }

    fn interrupt(&self, event: Event) -> (r: bool) {
        let bit = match event {
            Event::Rbne => CTL1_RBNEIE,
            Event::Tbe => CTL1_TBEIE,
            Event::Error => CTL1_ERRIE,
        };
        read_bit(self.regs.ctl1, bit)
    }
}

/// An SPI event that can raise an interrupt.
#[derive(Clone, Copy, PartialEq, Eq, Structural)]
pub enum Event {
    /// A word arrived in `DATA`, cleared by reading it.
    Rbne,
    /// The transmit buffer is free — true at idle.
    Tbe,
    /// Any of the `STAT` error flags, cleared by [`Spi::take_error`].
    Error,
}

impl Event {
    /// The event's enable bit in `CTL1`.
    pub open spec fn ctl1_bit(self) -> u32 {
        match self {
            Event::Rbne => CTL1_RBNEIE,
            Event::Tbe => CTL1_TBEIE,
            Event::Error => CTL1_ERRIE,
        }
    }
}

/// A configured SPI master, owning the peripheral and its three pins; `WORD`
/// records the frame width.
pub struct Spi<SPIX, SCK, MISO, MOSI, WORD> {
    spi: SPIX,
    sck_pin: SCK,
    miso_pin: MISO,
    mosi_pin: MOSI,
    _word: PhantomData<WORD>,
}


/// The registers after every word of `words` was exchanged without error:
/// the words joined `sent` and as many incoming words were taken.
pub open spec fn exchanged_all(s: SpiState, words: Seq<u16>) -> SpiState {
    SpiState { sent: s.sent + words, taken: s.taken + words.len(), ..s }
}

/// How many exchanges of a run of `n` complete before the first that
/// reports an error, or `n` when none does.
pub open spec fn exchange_count(s: SpiState, n: int) -> int {
    first_spoiled(s, 0, n)
}

/// The registers after a run of exchanges of `words` from `s`, and what the
/// run returns: it stops at the first exchange that reports an error, which
/// it returns; the exchanges before it took their words without error.
pub open spec fn exchange_run(s: SpiState, words: Seq<u16>) -> (SpiState, Result<(), Error>) {
    let e = exchange_count(s, words.len() as int);
    if e < words.len() {
        (
            exchanged(exchanged_all(s, words.subrange(0, e)), words[e]),
            Err(error_of(stat_seen(skipped(s, e)))->0),
        )
    } else {
        (exchanged_all(s, words), Ok(()))
    }
}

/// The incoming words an exchange of `n` words takes, from where `s` stands.
pub open spec fn next_incoming(s: SpiState, n: int) -> Seq<u16> {
    s.incoming.subrange(s.taken, s.taken + n)
}

/// Bytes widened to the data register's width.
pub open spec fn widen(b: Seq<u8>) -> Seq<u16> {
    b.map_values(|x: u8| x as u16)
}

/// Words cut to their low byte, as the 8-bit frames are read.
pub open spec fn narrow(w: Seq<u16>) -> Seq<u8> {
    w.map_values(|x: u16| x as u8)
}

/// Whether a buffer exchange of `n` words can run to its end in `s`: the
/// transmit buffer free, and `n` incoming words to answer them.
pub open spec fn can_exchange(s: SpiState, n: int) -> bool {
    &&& get_bit(s.stat, STAT_TBE)
    &&& 0 <= s.taken
    &&& s.taken + n <= s.incoming.len()
}

impl<SPIX: Instance, SCK, MISO, MOSI, WORD> Spi<SPIX, SCK, MISO, MOSI, WORD> {
    /// The registers.
    pub closed spec fn state(&self) -> SpiState {
        self.spi.state()
    }

    /// The pins held.
    pub closed spec fn pins(&self) -> (SCK, MISO, MOSI) {
        (self.sck_pin, self.miso_pin, self.mosi_pin)
    }

    /// The registers, for the code that mirrors them onto the chip.
    pub fn registers(&self) -> (r: &SpiRegs)
        ensures
            r@ == self.state(),
    {
        self.spi.regs()
    }

    /// Returns whether a received word is waiting in `DATA` (`RBNE`).
    pub fn read_ready(&self) -> (r: bool)
        ensures
            r == rx_ready(self.state()),
    {
        self.spi.rbne()
    }

    /// Returns whether `DATA` can accept the next word (`TBE`).
    pub fn write_ready(&self) -> (r: bool)
        ensures
            r == get_bit(self.state().stat, STAT_TBE),
    {
        self.spi.tbe()
    }

    /// Returns the pending error, if any, and clears it. One error per call —
    /// with two pending, the second survives for the next.
    pub fn take_error(&mut self) -> (r: Option<Error>)
        ensures
            r == error_of(old(self).state().stat),
            final(self).state() == (SpiState { stat: stat_after_take(old(self).state().stat), ..old(self).state() }),
            final(self).pins() == old(self).pins(),
    {
        self.spi.take_error()
    }

    /// Raises an interrupt on `event`.
    pub fn listen(&mut self, event: Event)
        ensures
            final(self).state() == (SpiState {
                ctl1: put_bit(old(self).state().ctl1, event.ctl1_bit(), true),
                ctl_log: old(self).state().ctl_log.push(CtlEvent::Ctl1(put_bit(old(self).state().ctl1, event.ctl1_bit(), true))),
                ..old(self).state()
            }),
            final(self).pins() == old(self).pins(),
    {
        self.spi.set_interrupt(event, true);
    }

    /// Stops raising an interrupt on `event`.
    pub fn unlisten(&mut self, event: Event)
        ensures
            final(self).state() == (SpiState {
                ctl1: put_bit(old(self).state().ctl1, event.ctl1_bit(), false),
                ctl_log: old(self).state().ctl_log.push(CtlEvent::Ctl1(put_bit(old(self).state().ctl1, event.ctl1_bit(), false))),
                ..old(self).state()
            }),
            final(self).pins() == old(self).pins(),
    {
        self.spi.set_interrupt(event, false);
    }

    /// Whether `event` is being listened for.
    pub fn is_listening(&self, event: Event) -> (r: bool)
        ensures
            r == get_bit(self.state().ctl1, event.ctl1_bit()),
    {
        self.spi.interrupt(event)
    }

    /// Disables the peripheral and returns it along with the three pins. The
    /// clock is left enabled and no reset is performed.
    pub fn release(self) -> (r: (SPIX, SCK, MISO, MOSI))
        ensures
            r.0.state() == (SpiState {
                ctl0: put_bit(self.state().ctl0, CTL0_SPIEN, false),
                ctl_log: self.state().ctl_log.push(CtlEvent::Ctl0(put_bit(self.state().ctl0, CTL0_SPIEN, false))),
                ..self.state()
            }),
            (r.1, r.2, r.3) == self.pins(),
    {
        let mut spi = self.spi;
        spi.set_enabled(false);
        (spi, self.sck_pin, self.miso_pin, self.mosi_pin)
    }
}

impl<SPIX: Instance, SCK: SckPin<SPIX>, MISO: MisoPin<SPIX>, MOSI: MosiPin<SPIX>> Spi<SPIX, SCK, MISO, MOSI, Byte> {
    /// Enables the clock, resets the peripheral and configures 8-bit master mode; the pins must already be in this SPI's alternate function.
    pub fn new(rcu: &mut Rcu, spi: SPIX, sck_pin: SCK, miso_pin: MISO, mosi_pin: MOSI, config: SpiConfig) -> (r: Self)
        ensures
            r.state() == SPIX::configured(SpiState { ctl0: 0, ctl1: 0, ctl_log: spi.state().ctl_log.push(CtlEvent::Reset), ..spi.state() }, config, false),
            r.pins() == (sck_pin, miso_pin, mosi_pin),
            final(rcu).regs() == with_reset_pulse(
                with_enable(old(rcu).regs(), SPIX::enable_bus(), SPIX::enable_bit(), true),
                SPIX::reset_bus(),
                SPIX::reset_bit(),
            ),
            final(rcu).clocks() == old(rcu).clocks(),
    {
        SPIX::enable(rcu);
        SPIX::reset(rcu);
        let mut spi = spi;
        spi.reset_registers();
        spi.apply_config(config, false);
        Self { spi, sck_pin, miso_pin, mosi_pin, _word: PhantomData }
    }
}

impl<SPIX: Instance, SCK: SckPin<SPIX>, MISO: MisoPin<SPIX>, MOSI: MosiPin<SPIX>> Spi<SPIX, SCK, MISO, MOSI, Word> {
    /// Same as [`new`](Spi::new), but configures 16-bit frames.
    pub fn new_word(rcu: &mut Rcu, spi: SPIX, sck_pin: SCK, miso_pin: MISO, mosi_pin: MOSI, config: SpiConfig) -> (r: Self)
        ensures
            r.state() == SPIX::configured(SpiState { ctl0: 0, ctl1: 0, ctl_log: spi.state().ctl_log.push(CtlEvent::Reset), ..spi.state() }, config, true),
            r.pins() == (sck_pin, miso_pin, mosi_pin),
            final(rcu).regs() == with_reset_pulse(
                with_enable(old(rcu).regs(), SPIX::enable_bus(), SPIX::enable_bit(), true),
                SPIX::reset_bus(),
                SPIX::reset_bit(),
            ),
            final(rcu).clocks() == old(rcu).clocks(),
    {
        SPIX::enable(rcu);
        SPIX::reset(rcu);
        let mut spi = spi;
        spi.reset_registers();
        spi.apply_config(config, true);
        Self { spi, sck_pin, miso_pin, mosi_pin, _word: PhantomData }
    }
}

impl<SPIX: Instance, SCK, MISO, MOSI> Spi<SPIX, SCK, MISO, MOSI, Byte> {
    /// Hands one byte to `DATA`: half an exchange.
    pub fn write_byte(&mut self, byte: u8)
        ensures
            final(self).state() == (SpiState { sent: old(self).state().sent.push(byte as u16), ..old(self).state() }),
            final(self).pins() == old(self).pins(),
    {
        self.spi.write_data(byte as u16);
    }

    /// Takes the byte that arrived on MISO, clearing `RBNE`; meaningful only
    /// once [`read_ready`](Spi::read_ready) holds. The error flags it arrived
    /// with are raised in `STAT`.
    pub fn read_byte(&mut self) -> (r: u8)
        requires
            rx_ready(old(self).state()),
        ensures
            r == old(self).state().incoming[old(self).state().taken] as u8,
            final(self).state() == (SpiState { taken: old(self).state().taken + 1, stat: stat_seen(old(self).state()), ..old(self).state() }),
            final(self).pins() == old(self).pins(),
    {
        self.spi.read_data() as u8
    }

    /// Exchanges one byte: sends `byte` on MOSI and returns what arrived on
    /// MISO, or the error that stood. Needs the transmit buffer free and a word
    /// to arrive, which the chip waits for.
    pub fn transfer_byte(&mut self, byte: u8) -> (r: Result<u8, Error>)
        requires
            can_exchange(old(self).state(), 1),
        ensures
            final(self).state() == exchanged(old(self).state(), byte as u16),
            r == match exchange_result(old(self).state()) {
                Ok(w) => Ok(w as u8),
                Err(e) => Err(e),
            },
            final(self).pins() == old(self).pins(),
    {
        self.write_byte(byte);
        let received = self.read_byte();
        match self.take_error() {
            Some(e) => Err(e),
            None => Ok(received),
        }
    }

    /// Exchanges two buffers: byte `i` of `write` goes out and what comes back
    /// lands at byte `i` of `read`. An error ends the exchange at once.
    ///
    /// The lengths must be the same.
    pub fn transfer_bytes(&mut self, read: &mut [u8], write: &[u8]) -> (r: Result<(), Error>)
        requires
            old(read)@.len() == write@.len(),
            can_exchange(old(self).state(), write@.len() as int),
        ensures
            final(read)@.len() == old(read)@.len(),
            final(self).state() == exchange_run(old(self).state(), widen(write@)).0,
            r == exchange_run(old(self).state(), widen(write@)).1,
            final(read)@ == narrow(next_incoming(old(self).state(), exchange_count(old(self).state(), write@.len() as int))) + old(read)@.subrange(exchange_count(old(self).state(), write@.len() as int), write@.len() as int),
            final(self).pins() == old(self).pins(),
    {
        let n = write.len();
        let ghost s0 = self.state();
        let ghost d0 = read@;
        let ghost ws = widen(write@);
        let mut i: usize = 0;
        assert(s0.sent + ws.subrange(0, 0) =~= s0.sent);
        while i < n
            invariant
                ws.len() == n,
                n == write@.len(),
                ws == widen(write@),
                read@.len() == n,
                forall|j: int| 0 <= j < i ==> read@[j] == s0.incoming[s0.taken + j] as u8,
                forall|j: int| i <= j < n ==> read@[j] == d0[j],
                d0 == old(read)@,
                d0.len() == n,
                0 <= i <= n,
                can_exchange(s0, n as int),
                forall|k: int| 0 <= k < i ==> !spoiled(s0, k),
                self.state() == exchanged_all(s0, ws.subrange(0, i as int)),
                self.pins() == old(self).pins(),
                s0 == old(self).state(),
            decreases n - i,
        {
            let ghost cur = self.state();
            assert(ws.subrange(0, i as int + 1) =~= ws.subrange(0, i as int).push(ws[i as int]));
            assert(s0.sent + ws.subrange(0, i as int + 1) =~= (s0.sent + ws.subrange(0, i as int)).push(ws[i as int]));
            assert(stat_seen(cur) == stat_seen(skipped(s0, i as int)));
            match self.transfer_byte(write[i]) {
                Ok(b) => {
                    proof {
                        lemma_clean_keeps_stat(cur);
                    }
                    read[i] = b;
                },
                Err(e) => {
                    proof {
                        lemma_first_spoiled(s0, 0, i as int, n as int);
                        assert(read@ =~= narrow(next_incoming(s0, i as int)) + d0.subrange(i as int, n as int));
                    }
                    return Err(e);
                },
            }
            i = i + 1;
        }
        proof {
            lemma_first_spoiled(s0, 0, n as int, n as int);
            assert(ws.subrange(0, n as int) =~= ws);
            assert(read@ =~= narrow(next_incoming(s0, n as int)) + d0.subrange(n as int, n as int));
        }
        Ok(())
    }

    /// Exchanges `words` against itself: each byte is replaced by what came
    /// back. An error ends the exchange at once.
    pub fn transfer_bytes_in_place(&mut self, words: &mut [u8]) -> (r: Result<(), Error>)
        requires
            can_exchange(old(self).state(), old(words)@.len() as int),
        ensures
            final(words)@.len() == old(words)@.len(),
            final(self).state() == exchange_run(old(self).state(), widen(old(words)@)).0,
            r == exchange_run(old(self).state(), widen(old(words)@)).1,
            final(words)@ == narrow(next_incoming(old(self).state(), exchange_count(old(self).state(), old(words)@.len() as int))) + old(words)@.subrange(exchange_count(old(self).state(), old(words)@.len() as int), old(words)@.len() as int),
            final(self).pins() == old(self).pins(),
    {
        let n = words.len();
        let ghost s0 = self.state();
        let ghost d0 = words@;
        let ghost ws = widen(words@);
        let mut i: usize = 0;
        assert(s0.sent + ws.subrange(0, 0) =~= s0.sent);
        while i < n
            invariant
                ws.len() == n,
                n == d0.len(),
                d0 == old(words)@,
                ws == widen(d0),
                words@.len() == n,
                forall|j: int| 0 <= j < i ==> words@[j] == s0.incoming[s0.taken + j] as u8,
                forall|j: int| i <= j < n ==> words@[j] == d0[j],
                0 <= i <= n,
                can_exchange(s0, n as int),
                forall|k: int| 0 <= k < i ==> !spoiled(s0, k),
                self.state() == exchanged_all(s0, ws.subrange(0, i as int)),
                self.pins() == old(self).pins(),
                s0 == old(self).state(),
            decreases n - i,
        {
            let ghost cur = self.state();
            assert(ws.subrange(0, i as int + 1) =~= ws.subrange(0, i as int).push(ws[i as int]));
            assert(s0.sent + ws.subrange(0, i as int + 1) =~= (s0.sent + ws.subrange(0, i as int)).push(ws[i as int]));
            assert(stat_seen(cur) == stat_seen(skipped(s0, i as int)));
            let out = words[i];
            match self.transfer_byte(out) {
                Ok(b) => {
                    proof {
                        lemma_clean_keeps_stat(cur);
                    }
                    words[i] = b;
                },
                Err(e) => {
                    proof {
                        lemma_first_spoiled(s0, 0, i as int, n as int);
                        assert(words@ =~= narrow(next_incoming(s0, i as int)) + d0.subrange(i as int, n as int));
                    }
                    return Err(e);
                },
            }
            i = i + 1;
        }
        proof {
            lemma_first_spoiled(s0, 0, n as int, n as int);
            assert(ws.subrange(0, n as int) =~= ws);
            assert(words@ =~= narrow(next_incoming(s0, n as int)) + d0.subrange(n as int, n as int));
        }
        Ok(())
    }
}

impl<SPIX: Instance, SCK, MISO, MOSI> Spi<SPIX, SCK, MISO, MOSI, Word> {
    /// Hands one 16-bit word to `DATA`: half an exchange.
    pub fn write_word(&mut self, word: u16)
        ensures
            final(self).state() == (SpiState { sent: old(self).state().sent.push(word), ..old(self).state() }),
            final(self).pins() == old(self).pins(),
    {
        self.spi.write_data(word);
    }

    /// Takes the word that arrived on MISO, clearing `RBNE`; meaningful only
    /// once [`read_ready`](Spi::read_ready) holds. The error flags it arrived
    /// with are raised in `STAT`.
    pub fn read_word(&mut self) -> (r: u16)
        requires
            rx_ready(old(self).state()),
        ensures
            r == old(self).state().incoming[old(self).state().taken],
            final(self).state() == (SpiState { taken: old(self).state().taken + 1, stat: stat_seen(old(self).state()), ..old(self).state() }),
            final(self).pins() == old(self).pins(),
    {
        self.spi.read_data()
    }

    /// Exchanges one 16-bit word: sends `byte` on MOSI and returns what arrived on
    /// MISO, or the error that stood. Needs the transmit buffer free and a word
    /// to arrive, which the chip waits for.
    pub fn transfer_word(&mut self, word: u16) -> (r: Result<u16, Error>)
        requires
            can_exchange(old(self).state(), 1),
        ensures
            final(self).state() == exchanged(old(self).state(), word),
            r == match exchange_result(old(self).state()) {
                Ok(w) => Ok(w),
                Err(e) => Err(e),
            },
            final(self).pins() == old(self).pins(),
    {
        self.write_word(word);
        let received = self.read_word();
        match self.take_error() {
            Some(e) => Err(e),
            None => Ok(received),
        }
    }

    /// Exchanges two buffers: word `i` of `write` goes out and what comes back
    /// lands at word `i` of `read`. An error ends the exchange at once.
    ///
    /// The lengths must be the same.
    pub fn transfer_words(&mut self, read: &mut [u16], write: &[u16]) -> (r: Result<(), Error>)
        requires
            old(read)@.len() == write@.len(),
            can_exchange(old(self).state(), write@.len() as int),
        ensures
            final(read)@.len() == old(read)@.len(),
            final(self).state() == exchange_run(old(self).state(), write@).0,
            r == exchange_run(old(self).state(), write@).1,
            final(read)@ == next_incoming(old(self).state(), exchange_count(old(self).state(), write@.len() as int)) + old(read)@.subrange(exchange_count(old(self).state(), write@.len() as int), write@.len() as int),
            final(self).pins() == old(self).pins(),
    {
        let n = write.len();
        let ghost s0 = self.state();
        let ghost d0 = read@;
        let ghost ws = write@;
        let mut i: usize = 0;
        assert(s0.sent + ws.subrange(0, 0) =~= s0.sent);
        while i < n
            invariant
                ws.len() == n,
                n == write@.len(),
                ws == write@,
                read@.len() == n,
                forall|j: int| 0 <= j < i ==> read@[j] == s0.incoming[s0.taken + j],
                forall|j: int| i <= j < n ==> read@[j] == d0[j],
                d0 == old(read)@,
                d0.len() == n,
                0 <= i <= n,
                can_exchange(s0, n as int),
                forall|k: int| 0 <= k < i ==> !spoiled(s0, k),
                self.state() == exchanged_all(s0, ws.subrange(0, i as int)),
                self.pins() == old(self).pins(),
                s0 == old(self).state(),
            decreases n - i,
        {
            let ghost cur = self.state();
            assert(ws.subrange(0, i as int + 1) =~= ws.subrange(0, i as int).push(ws[i as int]));
            assert(s0.sent + ws.subrange(0, i as int + 1) =~= (s0.sent + ws.subrange(0, i as int)).push(ws[i as int]));
            assert(stat_seen(cur) == stat_seen(skipped(s0, i as int)));
            match self.transfer_word(write[i]) {
                Ok(b) => {
                    proof {
                        lemma_clean_keeps_stat(cur);
                    }
                    read[i] = b;
                },
                Err(e) => {
                    proof {
                        lemma_first_spoiled(s0, 0, i as int, n as int);
                        assert(read@ =~= next_incoming(s0, i as int) + d0.subrange(i as int, n as int));
                    }
                    return Err(e);
                },
            }
            i = i + 1;
        }
        proof {
            lemma_first_spoiled(s0, 0, n as int, n as int);
            assert(ws.subrange(0, n as int) =~= ws);
            assert(read@ =~= next_incoming(s0, n as int) + d0.subrange(n as int, n as int));
        }
        Ok(())
    }

    /// Exchanges `words` against itself: each word is replaced by what came
    /// back. An error ends the exchange at once.
    pub fn transfer_words_in_place(&mut self, words: &mut [u16]) -> (r: Result<(), Error>)
        requires
            can_exchange(old(self).state(), old(words)@.len() as int),
        ensures
            final(words)@.len() == old(words)@.len(),
            final(self).state() == exchange_run(old(self).state(), old(words)@).0,
            r == exchange_run(old(self).state(), old(words)@).1,
            final(words)@ == next_incoming(old(self).state(), exchange_count(old(self).state(), old(words)@.len() as int)) + old(words)@.subrange(exchange_count(old(self).state(), old(words)@.len() as int), old(words)@.len() as int),
            final(self).pins() == old(self).pins(),
    {
        let n = words.len();
        let ghost s0 = self.state();
        let ghost d0 = words@;
        let ghost ws = words@;
        let mut i: usize = 0;
        assert(s0.sent + ws.subrange(0, 0) =~= s0.sent);
        while i < n
            invariant
                ws.len() == n,
                n == d0.len(),
                d0 == old(words)@,
                ws == d0,
                words@.len() == n,
                forall|j: int| 0 <= j < i ==> words@[j] == s0.incoming[s0.taken + j],
                forall|j: int| i <= j < n ==> words@[j] == d0[j],
                0 <= i <= n,
                can_exchange(s0, n as int),
                forall|k: int| 0 <= k < i ==> !spoiled(s0, k),
                self.state() == exchanged_all(s0, ws.subrange(0, i as int)),
                self.pins() == old(self).pins(),
                s0 == old(self).state(),
            decreases n - i,
        {
            let ghost cur = self.state();
            assert(ws.subrange(0, i as int + 1) =~= ws.subrange(0, i as int).push(ws[i as int]));
            assert(s0.sent + ws.subrange(0, i as int + 1) =~= (s0.sent + ws.subrange(0, i as int)).push(ws[i as int]));
            assert(stat_seen(cur) == stat_seen(skipped(s0, i as int)));
            let out = words[i];
            match self.transfer_word(out) {
                Ok(b) => {
                    proof {
                        lemma_clean_keeps_stat(cur);
                    }
                    words[i] = b;
                },
                Err(e) => {
                    proof {
                        lemma_first_spoiled(s0, 0, i as int, n as int);
                        assert(words@ =~= next_incoming(s0, i as int) + d0.subrange(i as int, n as int));
                    }
                    return Err(e);
                },
            }
            i = i + 1;
        }
        proof {
            lemma_first_spoiled(s0, 0, n as int, n as int);
            assert(ws.subrange(0, n as int) =~= ws);
            assert(words@ =~= next_incoming(s0, n as int) + d0.subrange(n as int, n as int));
        }
        Ok(())
    }
}

impl<SPIX: Instance, SCK, MISO, MOSI> Spi<SPIX, SCK, MISO, MOSI, Byte> {
    /// Reads `words.len()` bytes, sending [`FILL_LOW`] for each. An error
    /// ends the exchange at once.
    pub fn read(&mut self, words: &mut [u8]) -> (r: Result<(), Error>)
        requires
            can_exchange(old(self).state(), old(words)@.len() as int),
        ensures
            final(words)@.len() == old(words)@.len(),
            final(self).state() == exchange_run(old(self).state(), Seq::new(old(words)@.len(), |j: int| FILL_LOW as u16)).0,
            r == exchange_run(old(self).state(), Seq::new(old(words)@.len(), |j: int| FILL_LOW as u16)).1,
            final(words)@ == narrow(next_incoming(old(self).state(), exchange_count(old(self).state(), old(words)@.len() as int))) + old(words)@.subrange(exchange_count(old(self).state(), old(words)@.len() as int), old(words)@.len() as int),
            final(self).pins() == old(self).pins(),
    {
        let n = words.len();
        let ghost s0 = self.state();
        let ghost d0 = words@;
        let ghost ws = Seq::new(words@.len(), |j: int| FILL_LOW as u16);
        let mut i: usize = 0;
        assert(s0.sent + ws.subrange(0, 0) =~= s0.sent);
        while i < n
            invariant
                ws.len() == n,
                n == d0.len(),
                d0 == old(words)@,
                forall|j: int| 0 <= j < n ==> ws[j] == FILL_LOW as u16,
                words@.len() == n,
                forall|j: int| 0 <= j < i ==> words@[j] == s0.incoming[s0.taken + j] as u8,
                forall|j: int| i <= j < n ==> words@[j] == d0[j],
                0 <= i <= n,
                can_exchange(s0, n as int),
                forall|k: int| 0 <= k < i ==> !spoiled(s0, k),
                self.state() == exchanged_all(s0, ws.subrange(0, i as int)),
                self.pins() == old(self).pins(),
                s0 == old(self).state(),
            decreases n - i,
        {
            let ghost cur = self.state();
            assert(ws.subrange(0, i as int + 1) =~= ws.subrange(0, i as int).push(ws[i as int]));
            assert(s0.sent + ws.subrange(0, i as int + 1) =~= (s0.sent + ws.subrange(0, i as int)).push(ws[i as int]));
            assert(stat_seen(cur) == stat_seen(skipped(s0, i as int)));
            match self.transfer_byte(FILL_LOW) {
                Ok(b) => {
                    proof {
                        lemma_clean_keeps_stat(cur);
                    }
                    words[i] = b;
                },
                Err(e) => {
                    proof {
                        lemma_first_spoiled(s0, 0, i as int, n as int);
                        assert(ws =~= Seq::new(d0.len(), |j: int| FILL_LOW as u16));
                        assert(words@ =~= narrow(next_incoming(s0, i as int)) + d0.subrange(i as int, n as int));
                    }
                    return Err(e);
                },
            }
            i = i + 1;
        }
        proof {
            lemma_first_spoiled(s0, 0, n as int, n as int);
            assert(ws.subrange(0, n as int) =~= ws);
            assert(words@ =~= narrow(next_incoming(s0, n as int)) + d0.subrange(n as int, n as int));
        }
        Ok(())
    }

    /// Sends every byte of `words`, discarding what comes back. An error
    /// ends the exchange at once.
    pub fn write(&mut self, words: &[u8]) -> (r: Result<(), Error>)
        requires
            can_exchange(old(self).state(), words@.len() as int),
        ensures
            final(self).state() == exchange_run(old(self).state(), widen(words@)).0,
            r == exchange_run(old(self).state(), widen(words@)).1,
            final(self).pins() == old(self).pins(),
    {
        let n = words.len();
        let ghost s0 = self.state();
        let ghost ws = widen(words@);
        let mut i: usize = 0;
        assert(s0.sent + ws.subrange(0, 0) =~= s0.sent);
        while i < n
            invariant
                ws.len() == n,
                n == words@.len(),
                ws == widen(words@),
                0 <= i <= n,
                can_exchange(s0, n as int),
                forall|k: int| 0 <= k < i ==> !spoiled(s0, k),
                self.state() == exchanged_all(s0, ws.subrange(0, i as int)),
                self.pins() == old(self).pins(),
                s0 == old(self).state(),
            decreases n - i,
        {
            let ghost cur = self.state();
            assert(ws.subrange(0, i as int + 1) =~= ws.subrange(0, i as int).push(ws[i as int]));
            assert(s0.sent + ws.subrange(0, i as int + 1) =~= (s0.sent + ws.subrange(0, i as int)).push(ws[i as int]));
            assert(stat_seen(cur) == stat_seen(skipped(s0, i as int)));
            match self.transfer_byte(words[i]) {
                Ok(_) => {
                    proof {
                        lemma_clean_keeps_stat(cur);
                    }
                },
                Err(e) => {
                    proof {
                        lemma_first_spoiled(s0, 0, i as int, n as int);
                    }
                    return Err(e);
                },
            }
            i = i + 1;
        }
        proof {
            lemma_first_spoiled(s0, 0, n as int, n as int);
            assert(ws.subrange(0, n as int) =~= ws);
        }
        Ok(())
    }

    /// Exchanges two buffers; the same as [`transfer_bytes`](Self::transfer_bytes).
    pub fn transfer(&mut self, read: &mut [u8], write: &[u8]) -> (r: Result<(), Error>)
        requires
            old(read)@.len() == write@.len(),
            can_exchange(old(self).state(), write@.len() as int),
        ensures
            final(read)@.len() == old(read)@.len(),
            final(self).state() == exchange_run(old(self).state(), widen(write@)).0,
            r == exchange_run(old(self).state(), widen(write@)).1,
            final(read)@ == narrow(next_incoming(old(self).state(), exchange_count(old(self).state(), write@.len() as int))) + old(read)@.subrange(exchange_count(old(self).state(), write@.len() as int), write@.len() as int),
            final(self).pins() == old(self).pins(),
    {
        self.transfer_bytes(read, write)
    }

    /// Nothing is ever pending on the bus when an exchange returns, so there
    /// is nothing to wait for.
    pub fn flush(&mut self) -> (r: Result<(), Error>)
        ensures
            r == Ok::<(), Error>(()),
            final(self).state() == old(self).state(),
            final(self).pins() == old(self).pins(),
    {
        Ok(())
    }
}

impl<SPIX: Instance, SCK, MISO, MOSI> Spi<SPIX, SCK, MISO, MOSI, Word> {
    /// Reads `words.len()` words, sending [`FILL_LOW_WORD`] for each. An error
    /// ends the exchange at once.
    pub fn read(&mut self, words: &mut [u16]) -> (r: Result<(), Error>)
        requires
            can_exchange(old(self).state(), old(words)@.len() as int),
        ensures
            final(words)@.len() == old(words)@.len(),
            final(self).state() == exchange_run(old(self).state(), Seq::new(old(words)@.len(), |j: int| FILL_LOW_WORD)).0,
            r == exchange_run(old(self).state(), Seq::new(old(words)@.len(), |j: int| FILL_LOW_WORD)).1,
            final(words)@ == next_incoming(old(self).state(), exchange_count(old(self).state(), old(words)@.len() as int)) + old(words)@.subrange(exchange_count(old(self).state(), old(words)@.len() as int), old(words)@.len() as int),
            final(self).pins() == old(self).pins(),
    {
        let n = words.len();
        let ghost s0 = self.state();
        let ghost d0 = words@;
        let ghost ws = Seq::new(words@.len(), |j: int| FILL_LOW_WORD);
        let mut i: usize = 0;
        assert(s0.sent + ws.subrange(0, 0) =~= s0.sent);
        while i < n
            invariant
                ws.len() == n,
                n == d0.len(),
                d0 == old(words)@,
                forall|j: int| 0 <= j < n ==> ws[j] == FILL_LOW_WORD as u16,
                words@.len() == n,
                forall|j: int| 0 <= j < i ==> words@[j] == s0.incoming[s0.taken + j],
                forall|j: int| i <= j < n ==> words@[j] == d0[j],
                0 <= i <= n,
                can_exchange(s0, n as int),
                forall|k: int| 0 <= k < i ==> !spoiled(s0, k),
                self.state() == exchanged_all(s0, ws.subrange(0, i as int)),
                self.pins() == old(self).pins(),
                s0 == old(self).state(),
            decreases n - i,
        {
            let ghost cur = self.state();
            assert(ws.subrange(0, i as int + 1) =~= ws.subrange(0, i as int).push(ws[i as int]));
            assert(s0.sent + ws.subrange(0, i as int + 1) =~= (s0.sent + ws.subrange(0, i as int)).push(ws[i as int]));
            assert(stat_seen(cur) == stat_seen(skipped(s0, i as int)));
            match self.transfer_word(FILL_LOW_WORD) {
                Ok(b) => {
                    proof {
                        lemma_clean_keeps_stat(cur);
                    }
                    words[i] = b;
                },
                Err(e) => {
                    proof {
                        lemma_first_spoiled(s0, 0, i as int, n as int);
                        assert(ws =~= Seq::new(d0.len(), |j: int| FILL_LOW_WORD));
                        assert(words@ =~= next_incoming(s0, i as int) + d0.subrange(i as int, n as int));
                    }
                    return Err(e);
                },
            }
            i = i + 1;
        }
        proof {
            lemma_first_spoiled(s0, 0, n as int, n as int);
            assert(ws.subrange(0, n as int) =~= ws);
            assert(words@ =~= next_incoming(s0, n as int) + d0.subrange(n as int, n as int));
        }
        Ok(())
    }

    /// Sends every word of `words`, discarding what comes back. An error
    /// ends the exchange at once.
    pub fn write(&mut self, words: &[u16]) -> (r: Result<(), Error>)
        requires
            can_exchange(old(self).state(), words@.len() as int),
        ensures
            final(self).state() == exchange_run(old(self).state(), words@).0,
            r == exchange_run(old(self).state(), words@).1,
            final(self).pins() == old(self).pins(),
    {
        let n = words.len();
        let ghost s0 = self.state();
        let ghost ws = words@;
        let mut i: usize = 0;
        assert(s0.sent + ws.subrange(0, 0) =~= s0.sent);
        while i < n
            invariant
                ws.len() == n,
                n == words@.len(),
                ws == words@,
                0 <= i <= n,
                can_exchange(s0, n as int),
                forall|k: int| 0 <= k < i ==> !spoiled(s0, k),
                self.state() == exchanged_all(s0, ws.subrange(0, i as int)),
                self.pins() == old(self).pins(),
                s0 == old(self).state(),
            decreases n - i,
        {
            let ghost cur = self.state();
            assert(ws.subrange(0, i as int + 1) =~= ws.subrange(0, i as int).push(ws[i as int]));
            assert(s0.sent + ws.subrange(0, i as int + 1) =~= (s0.sent + ws.subrange(0, i as int)).push(ws[i as int]));
            assert(stat_seen(cur) == stat_seen(skipped(s0, i as int)));
            match self.transfer_word(words[i]) {
                Ok(_) => {
                    proof {
                        lemma_clean_keeps_stat(cur);
                    }
                },
                Err(e) => {
                    proof {
                        lemma_first_spoiled(s0, 0, i as int, n as int);
                    }
                    return Err(e);
                },
            }
            i = i + 1;
        }
        proof {
            lemma_first_spoiled(s0, 0, n as int, n as int);
            assert(ws.subrange(0, n as int) =~= ws);
        }
        Ok(())
    }

    /// Exchanges two buffers; the same as [`transfer_words`](Self::transfer_words).
    pub fn transfer(&mut self, read: &mut [u16], write: &[u16]) -> (r: Result<(), Error>)
        requires
            old(read)@.len() == write@.len(),
            can_exchange(old(self).state(), write@.len() as int),
        ensures
            final(read)@.len() == old(read)@.len(),
            final(self).state() == exchange_run(old(self).state(), write@).0,
            r == exchange_run(old(self).state(), write@).1,
            final(read)@ == next_incoming(old(self).state(), exchange_count(old(self).state(), write@.len() as int)) + old(read)@.subrange(exchange_count(old(self).state(), write@.len() as int), write@.len() as int),
            final(self).pins() == old(self).pins(),
    {
        self.transfer_words(read, write)
    }

    /// Nothing is ever pending on the bus when an exchange returns, so there
    /// is nothing to wait for.
    pub fn flush(&mut self) -> (r: Result<(), Error>)
        ensures
            r == Ok::<(), Error>(()),
            final(self).state() == old(self).state(),
            final(self).pins() == old(self).pins(),
    {
        Ok(())
    }
}

/// Errors come out one per call, in the order `RXORERR`, `CONFERR`,
/// `CRCERR`, `FERR`: the taken flag cleared, every other bit of `STAT` left
/// standing; four calls drain them all.
pub proof fn law_take_error_drains(stat: u32)
    ensures
        error_of(stat) is Some ==> !get_bit(stat_after_take(stat), error_bit(error_of(stat)->0)),
        error_of(stat) is Some ==> forall|i: u32|
            i < 32 && i != error_bit(error_of(stat)->0) ==> #[trigger] get_bit(stat_after_take(stat), i)
                == get_bit(stat, i),
        error_of(stat) is None ==> stat_after_take(stat) == stat,
        error_of(stat_after_take(stat_after_take(stat_after_take(stat_after_take(stat))))) is None,
{
    assert(forall|s: u32, i: u32, j: u32|
        #![trigger get_bit(put_bit(s, i, false), j)]
        i < 32 && j < 32 ==> (get_bit(put_bit(s, i, false), j) == if i == j {
            false
        } else {
            get_bit(s, j)
        })) by (bit_vector);
}


/// Listening for an event sets its enable, which `is_listening` reads back;
/// the other events' enables stand.
pub proof fn law_listen_reads_back(ctl1: u32, event: Event, other: Event, on: bool)
    ensures
        get_bit(put_bit(ctl1, event.ctl1_bit(), on), event.ctl1_bit()) == on,
        other != event ==> get_bit(put_bit(ctl1, event.ctl1_bit(), on), other.ctl1_bit()) == get_bit(
            ctl1,
            other.ctl1_bit(),
        ),
{
    crate::bits::lemma_put_bit(ctl1, event.ctl1_bit(), on, other.ctl1_bit());
}

/// The `PSC` code written for a prescaler makes the chip divide `pclk` by
/// exactly that prescaler: `SCK = pclk / 2^(PSC + 1)`.
pub proof fn law_prescaler_code_divides(p: SpiPsc)
    ensures
        p.code() < 8,
        vstd::arithmetic::power2::pow2((p.code() + 1) as nat) == p.divisor(),
{
    vstd::arithmetic::power2::lemma2_to64();
}

} // verus!
