//! External interrupts and events.
//!
//! GPIO has no interrupt of its own: an edge on a pin becomes one only here.
//! [`ExtiExt::split`] hands out one token per line, and only the lines that
//! exist. Lines 0 to 15 arrive without a source and reach the rest of their
//! API by being given a pin, which they then own; the internal lines have
//! their source wired in silicon.
//!
//! The per-line registers are shared by every line, so they stay with the
//! [`ExtiLines`] that [`split`](ExtiExt::split) returns, and each operation on
//! a line is given them; every write changes that line's bit alone.

use vstd::prelude::*;

use crate::bits::{get_bit, put_bit, read_bit, write_bit};
use crate::gpio::{PORT_A, PORT_B, PORT_F, Pin, port_of, Port};
use crate::periph;
use crate::syscfg::{Syscfg, with_extiss};

verus! {

/// A line that has no source yet, as [`ExtiExt::split`] hands it out.
pub struct PinSrc;

/// A line whose source is wired in silicon and needs no pin.
pub struct InternalSrc;

/// Marks a line whose source is settled, which is what the rest of the line's
/// API hangs off. Never implemented for [`PinSrc`].
pub trait ExtiConfigured {

}

impl ExtiConfigured for InternalSrc {

}

impl<const N: u8, MODE> ExtiConfigured for Pin<PORT_A, N, MODE> {

}

impl<const N: u8, MODE> ExtiConfigured for Pin<PORT_B, N, MODE> {

}

impl<const N: u8, MODE> ExtiConfigured for Pin<PORT_F, N, MODE> {

}

/// Source selection codes of the ports in `EXTISS`.
pub const PA_SS_CODE: u8 = 0b000;
pub const PB_SS_CODE: u8 = 0b001;
pub const PF_SS_CODE: u8 = 0b101;

/// The `EXTISS` code of a port.
pub open spec fn ss_code_of(port: Port) -> u8 {
    match port {
        Port::A => PA_SS_CODE,
        Port::B => PB_SS_CODE,
        Port::F => PF_SS_CODE,
    }
}

/// Marks a pin as a source the line of its number can be pointed at, and
/// gives the `EXTISS` code that points it there. Every bonded pin is one.
pub trait ExtiPin: ExtiConfigured {
    /// The port the pin belongs to.
    spec fn port() -> Port;

    /// Value written to this line's `EXTISS` field to select the pin's port.
    fn ss_code() -> (r: u8)
        ensures
            r == ss_code_of(Self::port()),
    ;
}

impl<const N: u8, MODE> ExtiPin for Pin<PORT_A, N, MODE> {
    open spec fn port() -> Port {
        Port::A
    }

    fn ss_code() -> (r: u8) {
        PA_SS_CODE
    }
}

impl<const N: u8, MODE> ExtiPin for Pin<PORT_B, N, MODE> {
    open spec fn port() -> Port {
        Port::B
    }

    fn ss_code() -> (r: u8) {
        PB_SS_CODE
    }
}

impl<const N: u8, MODE> ExtiPin for Pin<PORT_F, N, MODE> {
    open spec fn port() -> Port {
        Port::F
    }

    fn ss_code() -> (r: u8) {
        PF_SS_CODE
    }
}

/// Which edges on the source raise the line.
#[derive(Clone, Copy, PartialEq, Eq, Structural)]
pub enum EdgeTrigger {
    /// Neither edge; the line answers only to software.
    Neither,
    /// Low to high.
    Rising,
    /// High to low.
    Falling,
    /// Either direction.
    Both,
}

impl EdgeTrigger {
    /// Whether rising edges count.
    pub open spec fn rising(self) -> bool {
        self == EdgeTrigger::Rising || self == EdgeTrigger::Both
    }

    /// Whether falling edges count.
    pub open spec fn falling(self) -> bool {
        self == EdgeTrigger::Falling || self == EdgeTrigger::Both
    }
}

/// Whether line `n` exists: 0 to 17, 19, 21 and 25.
pub open spec fn line_exists(n: u8) -> bool {
    n <= 17 || n == 19 || n == 21 || n == 25
}

/// One EXTI line, identified by its number at the type level, holding
/// whatever drives it.
pub struct ExtiLine<const N: u8, SRC> {
    src: SRC,
}

impl<const N: u8, SRC> ExtiLine<N, SRC> {
    /// The source the line holds.
    pub closed spec fn src_spec(self) -> SRC {
        self.src
    }

    fn line(&self) -> (r: u32)
        requires
            line_exists(N),
        ensures
            r == N,
            N < 32,
    {
        N as u32
    }
}

impl<const N: u8> ExtiLine<N, PinSrc> {
    /// Points the line at `pin` and takes the pin in. The pin keeps working as
    /// it was.
    pub fn source<const P: u8, MODE>(self, syscfg: &mut Syscfg, pin: Pin<P, N, MODE>) -> (r: ExtiLine<N, Pin<P, N, MODE>>) where
        Pin<P, N, MODE>: ExtiPin,

        ensures
            final(syscfg).regs() == with_extiss(
                old(syscfg).regs(),
                N,
                ss_code_of(<Pin<P, N, MODE> as ExtiPin>::port()),
            ),
            r.src_spec() == pin,
    {
        let code = <Pin<P, N, MODE> as ExtiPin>::ss_code();
        let n = pin.pin_number();
        syscfg.set_extiss(n, code);
        ExtiLine { src: pin }
    }
}

/// The EXTI registers with line `n`'s bit of the named register set to `on`.
pub open spec fn with_line_bit(r: periph::Exti, reg: ExtiReg, n: u8, on: bool) -> periph::Exti {
    match reg {
        ExtiReg::Inten => periph::Exti { inten: put_bit(r.inten, n as u32, on), ..r },
        ExtiReg::Even => periph::Exti { even: put_bit(r.even, n as u32, on), ..r },
        ExtiReg::Rten => periph::Exti { rten: put_bit(r.rten, n as u32, on), ..r },
        ExtiReg::Ften => periph::Exti { ften: put_bit(r.ften, n as u32, on), ..r },
        ExtiReg::Swiev => periph::Exti { swiev: put_bit(r.swiev, n as u32, on), ..r },
        ExtiReg::Pd => periph::Exti { pd: put_bit(r.pd, n as u32, on), ..r },
    }
}

/// The per-line registers of EXTI.
#[derive(Clone, Copy, PartialEq, Eq, Structural)]
pub enum ExtiReg {
    /// `INTEN`, interrupt enable.
    Inten,
    /// `EVEN`, event enable.
    Even,
    /// `RTEN`, rising edge enable.
    Rten,
    /// `FTEN`, falling edge enable.
    Ften,
    /// `SWIEV`, software interrupt event.
    Swiev,
    /// `PD`, pending.
    Pd,
}

/// The EXTI registers once line `n` detects `edge`.
pub open spec fn with_edge(r: periph::Exti, n: u8, edge: EdgeTrigger) -> periph::Exti {
    with_line_bit(with_line_bit(r, ExtiReg::Rten, n, edge.rising()), ExtiReg::Ften, n, edge.falling())
}

impl<const N: u8, SRC: ExtiConfigured> ExtiLine<N, SRC> {
    fn set_bit(&mut self, exti: &mut periph::Exti, reg: ExtiReg, on: bool)
        requires
            line_exists(N),
        ensures
            *final(exti) == with_line_bit(*old(exti), reg, N, on),
            *final(self) == *old(self),
    {
        let n = self.line();
        match reg {
            ExtiReg::Inten => exti.inten = write_bit(exti.inten, n, on),
            ExtiReg::Even => exti.even = write_bit(exti.even, n, on),
            ExtiReg::Rten => exti.rten = write_bit(exti.rten, n, on),
            ExtiReg::Ften => exti.ften = write_bit(exti.ften, n, on),
            ExtiReg::Swiev => exti.swiev = write_bit(exti.swiev, n, on),
            ExtiReg::Pd => exti.pd = write_bit(exti.pd, n, on),
        }
    }

    /// Detects rising edges, falling edges, both, or neither.
    pub fn edge(&mut self, exti: &mut periph::Exti, edge: EdgeTrigger)
        requires
            line_exists(N),
        ensures
            *final(exti) == with_edge(*old(exti), N, edge),
            *final(self) == *old(self),
    {
        let (rising, falling) = match edge {
            EdgeTrigger::Neither => (false, false),
            EdgeTrigger::Rising => (true, false),
            EdgeTrigger::Falling => (false, true),
            EdgeTrigger::Both => (true, true),
        };
        self.set_bit(exti, ExtiReg::Rten, rising);
        self.set_bit(exti, ExtiReg::Ften, falling);
    }

    /// Raises this line's interrupt in the NVIC.
    pub fn listen(&mut self, exti: &mut periph::Exti)
        requires
            line_exists(N),
        ensures
            *final(exti) == with_line_bit(*old(exti), ExtiReg::Inten, N, true),
            *final(self) == *old(self),
    {
        self.set_bit(exti, ExtiReg::Inten, true);
    }

    /// Stops the line reaching the NVIC. The pending flag still latches.
    pub fn unlisten(&mut self, exti: &mut periph::Exti)
        requires
            line_exists(N),
        ensures
            *final(exti) == with_line_bit(*old(exti), ExtiReg::Inten, N, false),
            *final(self) == *old(self),
    {
        self.set_bit(exti, ExtiReg::Inten, false);
    }

    /// Whether the line reaches the NVIC.
    pub fn is_listening(&self, exti: &periph::Exti) -> (r: bool)
        requires
            line_exists(N),
        ensures
            r == get_bit(exti.inten, N as u32),
    {
        let n = self.line();
        read_bit(exti.inten, n)
    }

    /// Raises this line as an event instead of an interrupt.
    pub fn listen_event(&mut self, exti: &mut periph::Exti)
        requires
            line_exists(N),
        ensures
            *final(exti) == with_line_bit(*old(exti), ExtiReg::Even, N, true),
            *final(self) == *old(self),
    {
        self.set_bit(exti, ExtiReg::Even, true);
    }

    /// Stops the line raising events.
    pub fn unlisten_event(&mut self, exti: &mut periph::Exti)
        requires
            line_exists(N),
        ensures
            *final(exti) == with_line_bit(*old(exti), ExtiReg::Even, N, false),
            *final(self) == *old(self),
    {
        self.set_bit(exti, ExtiReg::Even, false);
    }

    /// Whether the line raises events.
    pub fn is_listening_event(&self, exti: &periph::Exti) -> (r: bool)
        requires
            line_exists(N),
        ensures
            r == get_bit(exti.even, N as u32),
    {
        let n = self.line();
        read_bit(exti.even, n)
    }

    /// Raises the line from software, edge or no edge, through `SWIEV`.
    pub fn pend(&mut self, exti: &mut periph::Exti)
        requires
            line_exists(N),
        ensures
            *final(exti) == with_line_bit(*old(exti), ExtiReg::Swiev, N, true),
            *final(self) == *old(self),
    {
        self.set_bit(exti, ExtiReg::Swiev, true);
    }

    /// Whether the line has fired and not been cleared since.
    pub fn is_pending(&self, exti: &periph::Exti) -> (r: bool)
        requires
            line_exists(N),
        ensures
            r == get_bit(exti.pd, N as u32),
    {
        let n = self.line();
        read_bit(exti.pd, n)
    }

    /// Clears the pending flag. `PD` clears by writing a one, so only this
    /// line's flag drops; the others stand.
    pub fn clear_interrupt(&mut self, exti: &mut periph::Exti)
        requires
            line_exists(N),
        ensures
            *final(exti) == with_line_bit(*old(exti), ExtiReg::Pd, N, false),
            *final(self) == *old(self),
    {
        self.set_bit(exti, ExtiReg::Pd, false);
    }
}

impl<const P: u8, const N: u8, MODE> ExtiLine<N, Pin<P, N, MODE>> {
    /// The pin the line listens to, for reading it.
    pub fn pin(&self) -> (r: &Pin<P, N, MODE>)
        ensures
            *r == self.src_spec(),
    {
        &self.src
    }

    /// The pin the line listens to, for driving it.
    pub fn pin_mut(&mut self) -> (r: &mut Pin<P, N, MODE>)
        ensures
            *r == old(self).src_spec(),
            final(self).src_spec() == *final(r),
    {
        &mut self.src
    }

    /// Gives the pin back and returns the line to its unsourced state,
    /// disarming it first: no edges, neither output, no pending flag.
    /// `EXTISS` keeps pointing at the port.
    pub fn release(self, exti: &mut periph::Exti) -> (r: (ExtiLine<N, PinSrc>, Pin<P, N, MODE>)) where
        Pin<P, N, MODE>: ExtiConfigured,

        ensures
            *final(exti) == with_line_bit(
                with_line_bit(
                    with_line_bit(with_edge(*old(exti), N, EdgeTrigger::Neither), ExtiReg::Inten, N, false),
                    ExtiReg::Even,
                    N,
                    false,
                ),
                ExtiReg::Pd,
                N,
                false,
            ),
            !get_bit(final(exti).rten, N as u32),
            !get_bit(final(exti).ften, N as u32),
            !get_bit(final(exti).inten, N as u32),
            !get_bit(final(exti).even, N as u32),
            !get_bit(final(exti).pd, N as u32),
            r.1 == self.src_spec(),
    {
        let mut line = self;
        let n = line.src.pin_number() as u32;
        line.edge(exti, EdgeTrigger::Neither);
        line.unlisten(exti);
        line.unlisten_event(exti);
        line.clear_interrupt(exti);
        proof {
            crate::bits::lemma_put_bit(old(exti).rten, n, false, n);
            crate::bits::lemma_put_bit(old(exti).ften, n, false, n);
            crate::bits::lemma_put_bit(old(exti).inten, n, false, n);
            crate::bits::lemma_put_bit(old(exti).even, n, false, n);
            crate::bits::lemma_put_bit(old(exti).pd, n, false, n);
        }
        (ExtiLine { src: PinSrc }, line.src)
    }
}


/// The EXTI lines, as handed out by [`ExtiExt::split`], with the registers
/// they share. The reserved line numbers are absent.
pub struct ExtiLines {
    /// Pin line 0.
    pub line0: ExtiLine<0, PinSrc>,
    /// Pin line 1.
    pub line1: ExtiLine<1, PinSrc>,
    /// Pin line 2.
    pub line2: ExtiLine<2, PinSrc>,
    /// Pin line 3.
    pub line3: ExtiLine<3, PinSrc>,
    /// Pin line 4.
    pub line4: ExtiLine<4, PinSrc>,
    /// Pin line 5.
    pub line5: ExtiLine<5, PinSrc>,
    /// Pin line 6.
    pub line6: ExtiLine<6, PinSrc>,
    /// Pin line 7.
    pub line7: ExtiLine<7, PinSrc>,
    /// Pin line 8.
    pub line8: ExtiLine<8, PinSrc>,
    /// Pin line 9.
    pub line9: ExtiLine<9, PinSrc>,
    /// Pin line 10.
    pub line10: ExtiLine<10, PinSrc>,
    /// Pin line 11.
    pub line11: ExtiLine<11, PinSrc>,
    /// Pin line 12.
    pub line12: ExtiLine<12, PinSrc>,
    /// Pin line 13.
    pub line13: ExtiLine<13, PinSrc>,
    /// Pin line 14.
    pub line14: ExtiLine<14, PinSrc>,
    /// Pin line 15.
    pub line15: ExtiLine<15, PinSrc>,
    /// Low voltage detector, in PMU.
    pub line16: ExtiLine<16, InternalSrc>,
    /// RTC alarm.
    pub line17: ExtiLine<17, InternalSrc>,
    /// RTC tamper and timestamp.
    pub line19: ExtiLine<19, InternalSrc>,
    /// Comparator output.
    pub line21: ExtiLine<21, InternalSrc>,
    /// USART0 wakeup.
    pub line25: ExtiLine<25, InternalSrc>,
    /// The per-line registers.
    pub regs: periph::Exti,
}

/// Splits the EXTI peripheral into its individual lines.
pub trait ExtiExt {
    /// The lines this peripheral hands out.
    type Lines;

    /// Hands out the lines. Takes no clock: EXTI has no enable bit of its own.
    fn split(self) -> Self::Lines;
}

impl ExtiExt for periph::Exti {
    type Lines = ExtiLines;

    fn split(self) -> (r: ExtiLines)
        ensures
            r.regs == self,
    {
        ExtiLines {
            line0: ExtiLine { src: PinSrc },
            line1: ExtiLine { src: PinSrc },
            line2: ExtiLine { src: PinSrc },
            line3: ExtiLine { src: PinSrc },
            line4: ExtiLine { src: PinSrc },
            line5: ExtiLine { src: PinSrc },
            line6: ExtiLine { src: PinSrc },
            line7: ExtiLine { src: PinSrc },
            line8: ExtiLine { src: PinSrc },
            line9: ExtiLine { src: PinSrc },
            line10: ExtiLine { src: PinSrc },
            line11: ExtiLine { src: PinSrc },
            line12: ExtiLine { src: PinSrc },
            line13: ExtiLine { src: PinSrc },
            line14: ExtiLine { src: PinSrc },
            line15: ExtiLine { src: PinSrc },
            line16: ExtiLine { src: InternalSrc },
            line17: ExtiLine { src: InternalSrc },
            line19: ExtiLine { src: InternalSrc },
            line21: ExtiLine { src: InternalSrc },
            line25: ExtiLine { src: InternalSrc },
            regs: self,
        }
    }
}

/// Writing one line's bit of a per-line register leaves every other line's
/// bit, and every other register, as it was.
pub proof fn law_line_bits_isolated(r: periph::Exti, reg: ExtiReg, n: u8, k: u8, on: bool)
    requires
        n < 32,
        k < 32,
    ensures
        get_bit(with_line_bit(r, reg, n, on).inten, k as u32) == if reg == ExtiReg::Inten && k == n {
            on
        } else {
            get_bit(r.inten, k as u32)
        },
        get_bit(with_line_bit(r, reg, n, on).even, k as u32) == if reg == ExtiReg::Even && k == n {
            on
        } else {
            get_bit(r.even, k as u32)
        },
        get_bit(with_line_bit(r, reg, n, on).rten, k as u32) == if reg == ExtiReg::Rten && k == n {
            on
        } else {
            get_bit(r.rten, k as u32)
        },
        get_bit(with_line_bit(r, reg, n, on).ften, k as u32) == if reg == ExtiReg::Ften && k == n {
            on
        } else {
            get_bit(r.ften, k as u32)
        },
        get_bit(with_line_bit(r, reg, n, on).pd, k as u32) == if reg == ExtiReg::Pd && k == n {
            on
        } else {
            get_bit(r.pd, k as u32)
        },
{
    crate::bits::lemma_put_bit(r.inten, n as u32, on, k as u32);
    crate::bits::lemma_put_bit(r.even, n as u32, on, k as u32);
    crate::bits::lemma_put_bit(r.rten, n as u32, on, k as u32);
    crate::bits::lemma_put_bit(r.ften, n as u32, on, k as u32);
    crate::bits::lemma_put_bit(r.pd, n as u32, on, k as u32);
}
} // verus!
