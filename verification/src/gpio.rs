//! General-purpose I/O.
//!
//! A pin's port, number and mode all live in its type, so whatever the
//! current mode doesn't support is not there to call: an [`Input`] pin has no
//! `set_high`, and an alternate function the pin doesn't have won't compile.
//! The port is named by its letter as a byte, `Pin<PORT_A, 5, _>` being `PA5`.
//!
//! Pins are handed out by [`GpioExt::split`], which consumes the port's
//! register file and enables its clock. The registers a port's pins share
//! stay with the [`GpioPort`] that comes back beside them, and every
//! operation on a pin is given that port.
//!
//! Two modes are special. `PA13`/`PA14` start as [`Debugger`], since after
//! reset they really are wired to SWD; leaving that goes through the separate
//! `activate_into_*()` family. [`Pin::lock`] freezes a configuration until
//! the next chip reset, which the type reflects as [`Locked`].

use core::marker::PhantomData;

use vstd::prelude::*;

use crate::bits::{get_bit, get_field, put_bit, put_field, read_bit, write_bit, write_field};
use crate::periph::{self, GpioRegs, LockAccess};
use crate::rcu::{Enable, Rcu, with_enable};

verus! {

/// The letters naming the ports in pin types, as bytes: `Pin<PORT_A, 5, _>`
/// is `PA5`.
pub const PORT_A: u8 = 0x41;
pub const PORT_B: u8 = 0x42;
pub const PORT_F: u8 = 0x46;

/// `CTL` field codes: what the pin is wired to.
pub const CTL_INPUT: u32 = 0;
pub const CTL_OUTPUT: u32 = 1;
pub const CTL_AF: u32 = 2;
pub const CTL_ANALOG: u32 = 3;
/// `LOCK.LKK`, the lock key bit.
pub const LOCK_LKK: u32 = 16;

/// Mode: digital input.
pub struct Input;

/// Output type: driven both high and low.
pub struct PushPull;

/// Output type: driven low, released high — needs a pull-up to reach a high level.
pub struct OpenDrain;

/// Mode: digital output, of type `OTYPE` ([`PushPull`] or [`OpenDrain`]).
pub struct Output<OTYPE> {
    _otype: PhantomData<OTYPE>,
}

/// Mode: analog, the input mode the ADC requires.
pub struct Analog;

/// Mode: alternate function `AF`, routing the pin to a peripheral, driven as
/// `OTYPE` ([`PushPull`] or [`OpenDrain`]).
pub struct Alternate<const AF: u8, OTYPE> {
    _otype: PhantomData<OTYPE>,
}

/// Mode: serial-wire debug, the reset state of `PA13`/`PA14`.
pub struct Debugger;

/// Mode: configuration frozen until the next chip reset, wrapping the mode it
/// was locked in.
pub struct Locked<MODE> {
    _mode: PhantomData<MODE>,
}

/// Which port a pin belongs to: the ports the GD32E230K8 (QFN32) bonds.
#[derive(Clone, Copy, PartialEq, Eq, Structural)]
#[allow(missing_docs)]
pub enum Port {
    A,
    B,
    F,
}

/// The port named by letter `p`; the letters of the bonded ports only.
pub open spec fn port_of(p: u8) -> Port {
    if p == PORT_A {
        Port::A
    } else if p == PORT_B {
        Port::B
    } else {
        Port::F
    }
}

/// Whether the package bonds pin `n` of the port lettered `p`: all of port
/// A, `PB0` to `PB8`, `PF0` and `PF1`.
pub open spec fn pin_exists(p: u8, n: u8) -> bool {
    ||| (p == PORT_A && n < 16)
    ||| (p == PORT_B && n <= 8)
    ||| (p == PORT_F && n <= 1)
}

/// Whether `port`/`n` is a bonded pin.
pub open spec fn erased_pin_exists(port: Port, n: u8) -> bool {
    match port {
        Port::A => n < 16,
        Port::B => n <= 8,
        Port::F => n <= 1,
    }
}

impl Port {
    /// Converts the type-level port letter into its runtime form.
    fn from_letter(p: u8) -> (r: Port)
        requires
            p == PORT_A || p == PORT_B || p == PORT_F,
        ensures
            r == port_of(p),
    {
        if p == PORT_A {
            Port::A
        } else if p == PORT_B {
            Port::B
        } else {
            Port::F
        }
    }
}

/// A single pin: `P` is the port letter (`PORT_A`, `PORT_B` or `PORT_F`), `N` the
/// pin number.
///
/// Zero-sized — the identity lives entirely in the type.
pub struct Pin<const P: u8, const N: u8, MODE> {
    _mode: PhantomData<MODE>,
}

/// A pin whose identity has moved into runtime values, keeping its mode.
pub struct ErasedPin<MODE> {
    port: Port,
    number: u8,
    _mode: PhantomData<MODE>,
}

/// The registers of one port, shared by its pins, with the port they belong to.
pub struct GpioPort {
    pub port: Port,
    pub regs: GpioRegs,
}

impl GpioPort {
    /// Which port these registers are.
    pub open spec fn id(&self) -> Port {
        self.port
    }

    /// Which port these registers are.
    pub fn port(&self) -> (r: Port)
        ensures
            r == self.id(),
    {
        self.port
    }
}

/// Internal pull resistor.
#[derive(Clone, Copy, PartialEq, Eq, Structural)]
pub enum Pull {
    /// No pull resistor.
    Floating,
    /// Pulled up to the supply.
    Up,
    /// Pulled down to ground.
    Down,
}

impl Pull {
    /// The `PUD` code.
    pub open spec fn code(self) -> u32 {
        match self {
            Pull::Floating => 0,
            Pull::Up => 1,
            Pull::Down => 2,
        }
    }
}

/// Output slew rate.
#[derive(Clone, Copy, PartialEq, Eq, Structural)]
#[allow(missing_docs)]
pub enum Speed {
    Mhz2,
    Mhz10,
    Mhz50,
}

impl Speed {
    /// The `OSPD` code.
    pub open spec fn code(self) -> u32 {
        match self {
            Speed::Mhz2 => 0,
            Speed::Mhz10 => 1,
            Speed::Mhz50 => 3,
        }
    }
}

/// The port's registers with pin `n`'s `CTL` field set to `mode`.
pub open spec fn with_mode(r: GpioRegs, n: u8, mode: u32) -> GpioRegs {
    GpioRegs { ctl: put_field(r.ctl, (2 * n) as u32, 3, mode), ..r }
}

/// The port's registers with pin `n` driven open-drain or push-pull.
pub open spec fn with_omode(r: GpioRegs, n: u8, open_drain: bool) -> GpioRegs {
    GpioRegs { omode: put_bit(r.omode, n as u32, open_drain), ..r }
}

/// The port's registers with pin `n` routed to alternate function `af`:
/// `AFSEL0` holds pins 0 to 7, `AFSEL1` pins 8 to 15, four bits each.
pub open spec fn with_af(r: GpioRegs, n: u8, af: u32) -> GpioRegs {
    if n < 8 {
        GpioRegs { afsel0: put_field(r.afsel0, (4 * n) as u32, 0xf, af), ..r }
    } else {
        GpioRegs { afsel1: put_field(r.afsel1, (4 * (n - 8)) as u32, 0xf, af), ..r }
    }
}

/// The port's registers with pin `n` set up for alternate function `af`.
pub open spec fn with_alternate(r: GpioRegs, n: u8, af: u32, open_drain: bool) -> GpioRegs {
    with_omode(with_af(with_mode(r, n, CTL_AF), n, af), n, open_drain)
}

/// The port's registers with pin `n` driven high (`BOP`) or low (`BC`).
pub open spec fn with_level(r: GpioRegs, n: u8, high: bool) -> GpioRegs {
    GpioRegs { octl: put_bit(r.octl, n as u32, high), ..r }
}

/// The port's registers with pin `n`'s driven level inverted (`TG`).
pub open spec fn with_toggle(r: GpioRegs, n: u8) -> GpioRegs {
    GpioRegs { octl: r.octl ^ (1u32 << n), ..r }
}

/// The word written into `LOCK`, over `lock`, to set pin `n`'s `LK` bit with
/// `LKK` as given.
pub open spec fn lock_word(lock: u32, n: u8, lkk: bool) -> u32 {
    put_bit(put_bit(lock, n as u32, true), LOCK_LKK, lkk)
}

/// The accesses of `LOCK` that lock pin `n`, over `lock`: writes with `LKK`
/// 1, 0, 1 and the pin's `LK` bit held set, then two reads, as the manual's
/// key sequence asks.
pub open spec fn lock_sequence(lock: u32, n: u8) -> Seq<LockAccess> {
    seq![
        LockAccess::Write(lock_word(lock, n, true)),
        LockAccess::Write(lock_word(lock, n, false)),
        LockAccess::Write(lock_word(lock, n, true)),
        LockAccess::Read,
        LockAccess::Read,
    ]
}

/// The port's registers once pin `n` is locked: its `LK` bit and `LKK` set.
pub open spec fn with_lock(r: GpioRegs, n: u8) -> GpioRegs {
    GpioRegs { lock: put_bit(put_bit(r.lock, n as u32, true), LOCK_LKK, true), ..r }
}

/// Marks `AF` as a valid alternate function number for this pin, from the
/// datasheet's pin table for the GD32E230x8.
pub trait ValidAf<const AF: u8> {

}

/// Marks a mode whose pin may be reconfigured.
pub trait Active {

}

impl Active for Input {

}

impl Active for Analog {

}

impl<const AF: u8, OTYPE> Active for Alternate<AF, OTYPE> {

}

impl<OTYPE> Active for Output<OTYPE> {

}

/// Marks a mode whose pin drives its level: the outputs.
pub trait Driven {

}

impl<OTYPE> Driven for Output<OTYPE> {

}

/// Marks a mode whose pin can be read: an input, or an open-drain output
/// reading the wire.
pub trait Readable {

}

impl Readable for Input {

}

impl Readable for Output<OpenDrain> {

}

/// Marks a pin on a port that has a `LOCK` register, gating [`Pin::lock`].
pub trait HasLock {

}

impl<const N: u8, MODE> HasLock for Pin<PORT_A, N, MODE> {

}

impl<const N: u8, MODE> HasLock for Pin<PORT_B, N, MODE> {

}

impl<const P: u8, const N: u8, MODE> Pin<P, N, MODE> {
    /// Every pin that exists is one the package bonds.
    #[verifier::type_invariant]
    spec fn bonded(self) -> bool {
        pin_exists(P, N)
    }

    /// Pin `PN` in its current mode; only for the pins that exist.
    fn new() -> (r: Self)
        requires
            pin_exists(P, N),
    {
        Pin { _mode: PhantomData }
    }

    /// The same pin, in another mode.
    fn into_mode<M>(self) -> (r: Pin<P, N, M>) {
        proof {
            use_type_invariant(&self);
        }
        Pin { _mode: PhantomData }
    }

    /// The pin number, with the pin's existence.
    fn number(&self) -> (r: u8)
        ensures
            r == N,
            pin_exists(P, N),
            N < 16,
    {
        proof {
            use_type_invariant(self);
        }
        N
    }

    fn set_mode(&mut self, port: &mut GpioPort, mode: u32)
        requires
            mode <= 3,
        ensures
            final(port).regs == with_mode(old(port).regs, N, mode),
            final(port).id() == old(port).id(),
    {
        let n = self.number();
        port.regs.ctl = write_field(port.regs.ctl, 2 * n as u32, 3, mode);
    }

    fn set_af(&mut self, port: &mut GpioPort, af: u32)
        ensures
            final(port).regs == with_af(old(port).regs, N, af),
            final(port).id() == old(port).id(),
    {
        let n = self.number();
        if n < 8 {
            port.regs.afsel0 = write_field(port.regs.afsel0, 4 * n as u32, 0xf, af);
        } else {
            port.regs.afsel1 = write_field(port.regs.afsel1, 4 * (n - 8) as u32, 0xf, af);
        }
    }

    fn set_pud(&mut self, port: &mut GpioPort, bits: u32)
        ensures
            final(port).regs == (GpioRegs {
                pud: put_field(old(port).regs.pud, (2 * N) as u32, 3, bits),
                ..old(port).regs
            }),
            final(port).id() == old(port).id(),
    {
        let n = self.number();
        port.regs.pud = write_field(port.regs.pud, 2 * n as u32, 3, bits);
    }

    fn set_ospd(&mut self, port: &mut GpioPort, bits: u32)
        ensures
            final(port).regs == (GpioRegs {
                ospd: put_field(old(port).regs.ospd, (2 * N) as u32, 3, bits),
                ..old(port).regs
            }),
            final(port).id() == old(port).id(),
    {
        let n = self.number();
        port.regs.ospd = write_field(port.regs.ospd, 2 * n as u32, 3, bits);
    }

    fn set_omode(&mut self, port: &mut GpioPort, open_drain: bool)
        ensures
            final(port).regs == with_omode(old(port).regs, N, open_drain),
            final(port).id() == old(port).id(),
    {
        let n = self.number();
        port.regs.omode = write_bit(port.regs.omode, n as u32, open_drain);
    }

    /// Routes the pin to `af` and drives it as `open_drain` says.
    fn set_alternate(&mut self, port: &mut GpioPort, af: u32, open_drain: bool)
        ensures
            final(port).regs == with_alternate(old(port).regs, N, af, open_drain),
            final(port).id() == old(port).id(),
    {
        self.set_mode(port, CTL_AF);
        self.set_af(port, af);
        self.set_omode(port, open_drain);
    }

    /// Writes `LOCK` once, with this pin's `LK` bit and `LKK` as given.
    fn set_lk(&mut self, port: &mut GpioPort, lkk: bool)
        ensures
            final(port).regs == (GpioRegs {
                lock: lock_word(old(port).regs.lock, N, lkk),
                lock_log: final(port).regs.lock_log,
                ..old(port).regs
            }),
            final(port).regs.lock_log@ == old(port).regs.lock_log@.push(LockAccess::Write(lock_word(old(port).regs.lock, N, lkk))),
            final(port).id() == old(port).id(),
    {
        let n = self.number();
        let w = write_bit(port.regs.lock, n as u32, true);
        let w = write_bit(w, LOCK_LKK, lkk);
        port.regs.lock = w;
        port.regs.lock_log.push(LockAccess::Write(w));
    }

    /// Reads `LOCK` back, as the end of the key sequence asks.
    fn read_lock(&self, port: &mut GpioPort) -> (r: u32)
        ensures
            r == old(port).regs.lock,
            final(port).regs == (GpioRegs { lock_log: final(port).regs.lock_log, ..old(port).regs }),
            final(port).regs.lock_log@ == old(port).regs.lock_log@.push(LockAccess::Read),
            final(port).id() == old(port).id(),
    {
        port.regs.lock_log.push(LockAccess::Read);
        port.regs.lock
    }

    fn read_pin(&self, port: &GpioPort) -> (r: bool)
        ensures
            r == get_bit(port.regs.istat, N as u32),
    {
        let n = self.number();
        read_bit(port.regs.istat, n as u32)
    }

    fn read_octl(&self, port: &GpioPort) -> (r: bool)
        ensures
            r == get_bit(port.regs.octl, N as u32),
    {
        let n = self.number();
        read_bit(port.regs.octl, n as u32)
    }

    fn set_bop(&mut self, port: &mut GpioPort)
        ensures
            final(port).regs == with_level(old(port).regs, N, true),
            final(port).id() == old(port).id(),
    {
        let n = self.number();
        port.regs.octl = write_bit(port.regs.octl, n as u32, true);
    }

    fn set_bc(&mut self, port: &mut GpioPort)
        ensures
            final(port).regs == with_level(old(port).regs, N, false),
            final(port).id() == old(port).id(),
    {
        let n = self.number();
        port.regs.octl = write_bit(port.regs.octl, n as u32, false);
    }

    fn set_tg(&mut self, port: &mut GpioPort)
        ensures
            final(port).regs == with_toggle(old(port).regs, N),
            final(port).id() == old(port).id(),
    {
        let n = self.number();
        port.regs.octl = port.regs.octl ^ (1u32 << n);
    }
}


impl<const P: u8, const N: u8> Pin<P, N, Debugger> {
    /// Releases the pin as a digital input, giving up debug access on it.
    pub fn activate_into_input(self, port: &mut GpioPort) -> (r: Pin<P, N, Input>)
        requires
            old(port).id() == port_of(P),
        ensures
            final(port).regs == with_mode(old(port).regs, N, CTL_INPUT),
            final(port).id() == old(port).id(),
    {
        let mut pin = self;
        pin.set_mode(port, CTL_INPUT);
        pin.into_mode()
    }

    /// Releases the pin as an input; shorthand for
    /// [`activate_into_input`](Self::activate_into_input).
    pub fn activate(self, port: &mut GpioPort) -> (r: Pin<P, N, Input>)
        requires
            old(port).id() == port_of(P),
        ensures
            final(port).regs == with_mode(old(port).regs, N, CTL_INPUT),
            final(port).id() == old(port).id(),
    {
        self.activate_into_input(port)
    }

    /// Releases the pin as a push-pull output.
    pub fn activate_into_push_pull_output(self, port: &mut GpioPort) -> (r: Pin<P, N, Output<PushPull>>)
        requires
            old(port).id() == port_of(P),
        ensures
            final(port).regs == with_omode(with_mode(old(port).regs, N, CTL_OUTPUT), N, false),
            final(port).id() == old(port).id(),
    {
        let mut pin = self;
        pin.set_mode(port, CTL_OUTPUT);
        pin.set_omode(port, false);
        pin.into_mode()
    }

    /// Releases the pin as an open-drain output.
    pub fn activate_into_open_drain_output(self, port: &mut GpioPort) -> (r: Pin<P, N, Output<OpenDrain>>)
        requires
            old(port).id() == port_of(P),
        ensures
            final(port).regs == with_omode(with_mode(old(port).regs, N, CTL_OUTPUT), N, true),
            final(port).id() == old(port).id(),
    {
        let mut pin = self;
        pin.set_mode(port, CTL_OUTPUT);
        pin.set_omode(port, true);
        pin.into_mode()
    }

    /// Releases the pin as an output; shorthand for the push-pull variant.
    pub fn activate_into_output(self, port: &mut GpioPort) -> (r: Pin<P, N, Output<PushPull>>)
        requires
            old(port).id() == port_of(P),
        ensures
            final(port).regs == with_omode(with_mode(old(port).regs, N, CTL_OUTPUT), N, false),
            final(port).id() == old(port).id(),
    {
        self.activate_into_push_pull_output(port)
    }

    /// Releases the pin as an analog input, as required by the ADC.
    pub fn activate_into_analog(self, port: &mut GpioPort) -> (r: Pin<P, N, Analog>)
        requires
            old(port).id() == port_of(P),
        ensures
            final(port).regs == with_mode(old(port).regs, N, CTL_ANALOG),
            final(port).id() == old(port).id(),
    {
        let mut pin = self;
        pin.set_mode(port, CTL_ANALOG);
        pin.into_mode()
    }

    /// Releases the pin to a peripheral through alternate function `AF`,
    /// driven push-pull.
    pub fn activate_into_alternate<const AF: u8>(self, port: &mut GpioPort) -> (r: Pin<P, N, Alternate<AF, PushPull>>) where
        Self: ValidAf<AF>,

        requires
            old(port).id() == port_of(P),
        ensures
            final(port).regs == with_alternate(old(port).regs, N, AF as u32, false),
            final(port).id() == old(port).id(),
    {
        let mut pin = self;
        pin.set_alternate(port, AF as u32, false);
        pin.into_mode()
    }

    /// Same, but leaves the pin open-drain, as I²C requires.
    pub fn activate_into_alternate_open_drain<const AF: u8>(self, port: &mut GpioPort) -> (r: Pin<
        P,
        N,
        Alternate<AF, OpenDrain>,
    >) where
        Self: ValidAf<AF>,

        requires
            old(port).id() == port_of(P),
        ensures
            final(port).regs == with_alternate(old(port).regs, N, AF as u32, true),
            final(port).id() == old(port).id(),
    {
        let mut pin = self;
        pin.set_alternate(port, AF as u32, true);
        pin.into_mode()
    }
}

impl<const P: u8, const N: u8, MODE: Active> Pin<P, N, MODE> {
    /// Reconfigures the pin as a digital input.
    pub fn into_input(self, port: &mut GpioPort) -> (r: Pin<P, N, Input>)
        requires
            old(port).id() == port_of(P),
        ensures
            final(port).regs == with_mode(old(port).regs, N, CTL_INPUT),
            final(port).id() == old(port).id(),
    {
        let mut pin = self;
        pin.set_mode(port, CTL_INPUT);
        pin.into_mode()
    }

    /// Reconfigures the pin as a push-pull output.
    pub fn into_push_pull_output(self, port: &mut GpioPort) -> (r: Pin<P, N, Output<PushPull>>)
        requires
            old(port).id() == port_of(P),
        ensures
            final(port).regs == with_omode(with_mode(old(port).regs, N, CTL_OUTPUT), N, false),
            final(port).id() == old(port).id(),
    {
        let mut pin = self;
        pin.set_mode(port, CTL_OUTPUT);
        pin.set_omode(port, false);
        pin.into_mode()
    }

    /// Reconfigures the pin as an open-drain output, which can also be read
    /// back.
    pub fn into_open_drain_output(self, port: &mut GpioPort) -> (r: Pin<P, N, Output<OpenDrain>>)
        requires
            old(port).id() == port_of(P),
        ensures
            final(port).regs == with_omode(with_mode(old(port).regs, N, CTL_OUTPUT), N, true),
            final(port).id() == old(port).id(),
    {
        let mut pin = self;
        pin.set_mode(port, CTL_OUTPUT);
        pin.set_omode(port, true);
        pin.into_mode()
    }

    /// Reconfigures the pin as an output; shorthand for the push-pull variant.
    pub fn into_output(self, port: &mut GpioPort) -> (r: Pin<P, N, Output<PushPull>>)
        requires
            old(port).id() == port_of(P),
        ensures
            final(port).regs == with_omode(with_mode(old(port).regs, N, CTL_OUTPUT), N, false),
            final(port).id() == old(port).id(),
    {
        self.into_push_pull_output(port)
    }

    /// Reconfigures the pin as an analog input, as required by the ADC.
    pub fn into_analog(self, port: &mut GpioPort) -> (r: Pin<P, N, Analog>)
        requires
            old(port).id() == port_of(P),
        ensures
            final(port).regs == with_mode(old(port).regs, N, CTL_ANALOG),
            final(port).id() == old(port).id(),
    {
        let mut pin = self;
        pin.set_mode(port, CTL_ANALOG);
        pin.into_mode()
    }

    /// Routes the pin to a peripheral through alternate function `AF`, driven
    /// push-pull. Only numbers this pin has will compile.
    pub fn into_alternate<const AF: u8>(self, port: &mut GpioPort) -> (r: Pin<P, N, Alternate<AF, PushPull>>) where
        Self: ValidAf<AF>,

        requires
            old(port).id() == port_of(P),
        ensures
            final(port).regs == with_alternate(old(port).regs, N, AF as u32, false),
            final(port).id() == old(port).id(),
    {
        let mut pin = self;
        pin.set_alternate(port, AF as u32, false);
        pin.into_mode()
    }

    /// Same, but leaves the pin open-drain.
    pub fn into_alternate_open_drain<const AF: u8>(self, port: &mut GpioPort) -> (r: Pin<
        P,
        N,
        Alternate<AF, OpenDrain>,
    >) where
        Self: ValidAf<AF>,

        requires
            old(port).id() == port_of(P),
        ensures
            final(port).regs == with_alternate(old(port).regs, N, AF as u32, true),
            final(port).id() == old(port).id(),
    {
        let mut pin = self;
        pin.set_alternate(port, AF as u32, true);
        pin.into_mode()
    }

    /// Freezes the pin's configuration until the next chip reset, with the
    /// `LKK` sequence 1, 0, 1 from the manual. Ports with a `LOCK` register only.
    pub fn lock(self, port: &mut GpioPort) -> (r: Pin<P, N, Locked<MODE>>) where
        Self: HasLock,

        requires
            old(port).id() == port_of(P),
        ensures
            final(port).regs == (GpioRegs { lock_log: final(port).regs.lock_log, ..with_lock(old(port).regs, N) }),
            final(port).regs.lock_log@ == old(port).regs.lock_log@ + lock_sequence(old(port).regs.lock, N),
            final(port).id() == old(port).id(),
    {
        let mut pin = self;
        let ghost l0 = port.regs.lock;
        let ghost w0 = port.regs.lock_log@;
        pin.set_lk(port, true);
        pin.set_lk(port, false);
        pin.set_lk(port, true);
        let _ = pin.read_lock(port);
        let _ = pin.read_lock(port);
        let n = pin.number() as u32;
        assert(put_bit(put_bit(put_bit(put_bit(l0, n, true), 16, true), n, true), 16, false)
            == put_bit(put_bit(l0, n, true), 16, false)) by (bit_vector)
            requires
                n < 16,
        ;
        assert(put_bit(put_bit(put_bit(put_bit(put_bit(put_bit(l0, n, true), 16, true), n, true), 16, false), n, true), 16, true)
            == put_bit(put_bit(l0, n, true), 16, true)) by (bit_vector)
            requires
                n < 16,
        ;
        assert(port.regs.lock_log@ =~= w0 + lock_sequence(l0, N));
        pin.into_mode()
    }

    /// Moves the pin's identity into runtime values, keeping its mode.
    /// Nothing is written; the configuration stands.
    pub fn erase(self) -> (r: ErasedPin<MODE>)
        ensures
            r.port_spec() == port_of(P),
            r.number_spec() == N,
    {
        let n = self.number();
        let port = Port::from_letter(P);
        ErasedPin { port, number: n, _mode: PhantomData }
    }

    /// Selects the internal pull resistor.
    pub fn set_pull(&mut self, port: &mut GpioPort, p: Pull)
        requires
            old(port).id() == port_of(P),
        ensures
            final(port).regs == (GpioRegs {
                pud: put_field(old(port).regs.pud, (2 * N) as u32, 3, p.code()),
                ..old(port).regs
            }),
            final(port).id() == old(port).id(),
    {
        let code: u32 = match p {
            Pull::Floating => 0,
            Pull::Up => 1,
            Pull::Down => 2,
        };
        self.set_pud(port, code);
    }

    /// Selects the output slew rate.
    pub fn set_speed(&mut self, port: &mut GpioPort, s: Speed)
        requires
            old(port).id() == port_of(P),
        ensures
            final(port).regs == (GpioRegs {
                ospd: put_field(old(port).regs.ospd, (2 * N) as u32, 3, s.code()),
                ..old(port).regs
            }),
            final(port).id() == old(port).id(),
    {
        let code: u32 = match s {
            Speed::Mhz2 => 0,
            Speed::Mhz10 => 1,
            Speed::Mhz50 => 3,
        };
        self.set_ospd(port, code);
    }
}

impl<const P: u8, const N: u8, OTYPE> Pin<P, N, Output<OTYPE>> {
    /// Drives the pin high.
    pub fn set_high(&mut self, port: &mut GpioPort)
        requires
            old(port).id() == port_of(P),
        ensures
            final(port).regs == with_level(old(port).regs, N, true),
            final(port).id() == old(port).id(),
    {
        self.set_bop(port);
    }

    /// Drives the pin low.
    pub fn set_low(&mut self, port: &mut GpioPort)
        requires
            old(port).id() == port_of(P),
        ensures
            final(port).regs == with_level(old(port).regs, N, false),
            final(port).id() == old(port).id(),
    {
        self.set_bc(port);
    }

    /// Inverts the driven level.
    pub fn toggle(&mut self, port: &mut GpioPort)
        requires
            old(port).id() == port_of(P),
        ensures
            final(port).regs == with_toggle(old(port).regs, N),
            final(port).id() == old(port).id(),
    {
        self.set_tg(port);
    }

    /// Returns whether the pin is *being driven* high: `OCTL`, what was last
    /// written, not what the wire is at.
    pub fn is_set_high(&self, port: &GpioPort) -> (r: bool)
        requires
            port.id() == port_of(P),
        ensures
            r == get_bit(port.regs.octl, N as u32),
    {
        self.read_octl(port)
    }

    /// Returns whether the pin is *being driven* low.
    pub fn is_set_low(&self, port: &GpioPort) -> (r: bool)
        requires
            port.id() == port_of(P),
        ensures
            r == !get_bit(port.regs.octl, N as u32),
    {
        !self.read_octl(port)
    }
}

impl<const P: u8, const N: u8> Pin<P, N, Input> {
    /// Returns whether the pin reads high (`ISTAT`).
    pub fn is_high(&self, port: &GpioPort) -> (r: bool)
        requires
            port.id() == port_of(P),
        ensures
            r == get_bit(port.regs.istat, N as u32),
    {
        self.read_pin(port)
    }

    /// Returns whether the pin reads low.
    pub fn is_low(&self, port: &GpioPort) -> (r: bool)
        requires
            port.id() == port_of(P),
        ensures
            r == !get_bit(port.regs.istat, N as u32),
    {
        !self.read_pin(port)
    }
}

impl<const P: u8, const N: u8> Pin<P, N, Output<OpenDrain>> {
    /// Returns whether the pin reads high on the wire (`ISTAT`), which another device on a shared bus may hold down.
    pub fn is_high(&self, port: &GpioPort) -> (r: bool)
        requires
            port.id() == port_of(P),
        ensures
            r == get_bit(port.regs.istat, N as u32),
    {
        self.read_pin(port)
    }

    /// Returns whether the pin reads low.
    pub fn is_low(&self, port: &GpioPort) -> (r: bool)
        requires
            port.id() == port_of(P),
        ensures
            r == !get_bit(port.regs.istat, N as u32),
    {
        !self.read_pin(port)
    }
}

impl<const P: u8, const N: u8, MODE: Driven> Pin<P, N, Locked<MODE>> {
    /// Drives the pin high.
    pub fn set_high(&mut self, port: &mut GpioPort)
        requires
            old(port).id() == port_of(P),
        ensures
            final(port).regs == with_level(old(port).regs, N, true),
            final(port).id() == old(port).id(),
    {
        self.set_bop(port);
    }

    /// Drives the pin low.
    pub fn set_low(&mut self, port: &mut GpioPort)
        requires
            old(port).id() == port_of(P),
        ensures
            final(port).regs == with_level(old(port).regs, N, false),
            final(port).id() == old(port).id(),
    {
        self.set_bc(port);
    }

    /// Inverts the driven level.
    pub fn toggle(&mut self, port: &mut GpioPort)
        requires
            old(port).id() == port_of(P),
        ensures
            final(port).regs == with_toggle(old(port).regs, N),
            final(port).id() == old(port).id(),
    {
        self.set_tg(port);
    }

    /// Returns whether the pin is *being driven* high: `OCTL`, what was last
    /// written, not what the wire is at.
    pub fn is_set_high(&self, port: &GpioPort) -> (r: bool)
        requires
            port.id() == port_of(P),
        ensures
            r == get_bit(port.regs.octl, N as u32),
    {
        self.read_octl(port)
    }

    /// Returns whether the pin is *being driven* low.
    pub fn is_set_low(&self, port: &GpioPort) -> (r: bool)
        requires
            port.id() == port_of(P),
        ensures
            r == !get_bit(port.regs.octl, N as u32),
    {
        !self.read_octl(port)
    }
}

impl<const P: u8, const N: u8, MODE: Readable> Pin<P, N, Locked<MODE>> {
    /// Returns whether the pin reads high (`ISTAT`).
    pub fn is_high(&self, port: &GpioPort) -> (r: bool)
        requires
            port.id() == port_of(P),
        ensures
            r == get_bit(port.regs.istat, N as u32),
    {
        self.read_pin(port)
    }

    /// Returns whether the pin reads low.
    pub fn is_low(&self, port: &GpioPort) -> (r: bool)
        requires
            port.id() == port_of(P),
        ensures
            r == !get_bit(port.regs.istat, N as u32),
    {
        !self.read_pin(port)
    }
}

impl<MODE> ErasedPin<MODE> {
    /// Every erased pin is one the package bonds.
    #[verifier::type_invariant]
    spec fn bonded(self) -> bool {
        erased_pin_exists(self.port, self.number)
    }

    /// The port, in specifications.
    pub closed spec fn port_spec(&self) -> Port {
        self.port
    }

    /// The pin number, in specifications.
    pub closed spec fn number_spec(&self) -> u8 {
        self.number
    }

    /// Returns which port the pin came from.
    pub fn port(&self) -> (r: Port)
        ensures
            r == self.port_spec(),
    {
        self.port
    }

    /// Returns the pin's number within its port.
    pub fn number(&self) -> (r: u8)
        ensures
            r == self.number_spec(),
            erased_pin_exists(self.port_spec(), r),
    {
        proof {
            use_type_invariant(self);
        }
        self.number
    }

    fn istat(&self, port: &GpioPort) -> (r: bool)
        ensures
            r == get_bit(port.regs.istat, self.number_spec() as u32),
    {
        let n = self.number();
        read_bit(port.regs.istat, n as u32)
    }

    fn octl(&self, port: &GpioPort) -> (r: bool)
        ensures
            r == get_bit(port.regs.octl, self.number_spec() as u32),
    {
        let n = self.number();
        read_bit(port.regs.octl, n as u32)
    }

    fn write_level(&mut self, port: &mut GpioPort, high: bool)
        ensures
            final(port).regs == with_level(old(port).regs, old(self).number_spec(), high),
            final(port).id() == old(port).id(),
            *final(self) == *old(self),
    {
        let n = self.number();
        port.regs.octl = write_bit(port.regs.octl, n as u32, high);
    }

    fn flip(&mut self, port: &mut GpioPort)
        ensures
            final(port).regs == with_toggle(old(port).regs, old(self).number_spec()),
            final(port).id() == old(port).id(),
            *final(self) == *old(self),
    {
        let n = self.number();
        port.regs.octl = port.regs.octl ^ (1u32 << n);
    }
}

impl<OTYPE> ErasedPin<Output<OTYPE>> {
    /// Drives the pin high.
    pub fn set_high(&mut self, port: &mut GpioPort)
        requires
            old(port).id() == old(self).port_spec(),
        ensures
            final(port).regs == with_level(old(port).regs, old(self).number_spec(), true),
            final(port).id() == old(port).id(),
    {
        self.write_level(port, true);
    }

    /// Drives the pin low.
    pub fn set_low(&mut self, port: &mut GpioPort)
        requires
            old(port).id() == old(self).port_spec(),
        ensures
            final(port).regs == with_level(old(port).regs, old(self).number_spec(), false),
            final(port).id() == old(port).id(),
    {
        self.write_level(port, false);
    }

    /// Inverts the driven level.
    pub fn toggle(&mut self, port: &mut GpioPort)
        requires
            old(port).id() == old(self).port_spec(),
        ensures
            final(port).regs == with_toggle(old(port).regs, old(self).number_spec()),
            final(port).id() == old(port).id(),
    {
        self.flip(port);
    }

    /// Returns whether the pin is *being driven* high: `OCTL`, what was last
    /// written, not what the wire is at.
    pub fn is_set_high(&self, port: &GpioPort) -> (r: bool)
        requires
            port.id() == self.port_spec(),
        ensures
            r == get_bit(port.regs.octl, self.number_spec() as u32),
    {
        self.octl(port)
    }

    /// Returns whether the pin is *being driven* low.
    pub fn is_set_low(&self, port: &GpioPort) -> (r: bool)
        requires
            port.id() == self.port_spec(),
        ensures
            r == !get_bit(port.regs.octl, self.number_spec() as u32),
    {
        !self.octl(port)
    }
}

impl ErasedPin<Input> {
    /// Returns whether the pin reads high (`ISTAT`).
    pub fn is_high(&self, port: &GpioPort) -> (r: bool)
        requires
            port.id() == self.port_spec(),
        ensures
            r == get_bit(port.regs.istat, self.number_spec() as u32),
    {
        self.istat(port)
    }

    /// Returns whether the pin reads low.
    pub fn is_low(&self, port: &GpioPort) -> (r: bool)
        requires
            port.id() == self.port_spec(),
        ensures
            r == !get_bit(port.regs.istat, self.number_spec() as u32),
    {
        !self.istat(port)
    }
}

impl ErasedPin<Output<OpenDrain>> {
    /// Returns whether the pin reads high (`ISTAT`).
    pub fn is_high(&self, port: &GpioPort) -> (r: bool)
        requires
            port.id() == self.port_spec(),
        ensures
            r == get_bit(port.regs.istat, self.number_spec() as u32),
    {
        self.istat(port)
    }

    /// Returns whether the pin reads low.
    pub fn is_low(&self, port: &GpioPort) -> (r: bool)
        requires
            port.id() == self.port_spec(),
        ensures
            r == !get_bit(port.regs.istat, self.number_spec() as u32),
    {
        !self.istat(port)
    }
}

/// `AF1` on `PA0` — USART1_CTS.
impl<MODE> ValidAf<1> for Pin<PORT_A, 0, MODE> {
}

/// `AF4` on `PA0` — I2C1_SCL.
impl<MODE> ValidAf<4> for Pin<PORT_A, 0, MODE> {
}

/// `AF7` on `PA0` — CMP_OUT.
impl<MODE> ValidAf<7> for Pin<PORT_A, 0, MODE> {
}

/// `AF0` on `PA1` — EVENTOUT.
impl<MODE> ValidAf<0> for Pin<PORT_A, 1, MODE> {
}

/// `AF1` on `PA1` — USART1_RTS/DE.
impl<MODE> ValidAf<1> for Pin<PORT_A, 1, MODE> {
}

/// `AF4` on `PA1` — I2C1_SDA.
impl<MODE> ValidAf<4> for Pin<PORT_A, 1, MODE> {
}

/// `AF5` on `PA1` — TIMER14_CH0_ON.
impl<MODE> ValidAf<5> for Pin<PORT_A, 1, MODE> {
}

/// `AF0` on `PA2` — TIMER14_CH0.
impl<MODE> ValidAf<0> for Pin<PORT_A, 2, MODE> {
}

/// `AF1` on `PA2` — USART1_TX.
impl<MODE> ValidAf<1> for Pin<PORT_A, 2, MODE> {
}

/// `AF0` on `PA3` — TIMER14_CH1.
impl<MODE> ValidAf<0> for Pin<PORT_A, 3, MODE> {
}

/// `AF1` on `PA3` — USART1_RX.
impl<MODE> ValidAf<1> for Pin<PORT_A, 3, MODE> {
}

/// `AF0` on `PA4` — SPI0_NSS/I2S0_WS.
impl<MODE> ValidAf<0> for Pin<PORT_A, 4, MODE> {
}

/// `AF1` on `PA4` — USART1_CK.
impl<MODE> ValidAf<1> for Pin<PORT_A, 4, MODE> {
}

/// `AF4` on `PA4` — TIMER13_CH0.
impl<MODE> ValidAf<4> for Pin<PORT_A, 4, MODE> {
}

/// `AF6` on `PA4` — SPI1_NSS.
impl<MODE> ValidAf<6> for Pin<PORT_A, 4, MODE> {
}

/// `AF0` on `PA5` — SPI0_SCK/I2S0_CK.
impl<MODE> ValidAf<0> for Pin<PORT_A, 5, MODE> {
}

/// `AF0` on `PA6` — SPI0_MISO.
impl<MODE> ValidAf<0> for Pin<PORT_A, 6, MODE> {
}

/// `AF1` on `PA6` — TIMER2_CH0.
impl<MODE> ValidAf<1> for Pin<PORT_A, 6, MODE> {
}

/// `AF2` on `PA6` — TIMER0_BRKIN.
impl<MODE> ValidAf<2> for Pin<PORT_A, 6, MODE> {
}

/// `AF5` on `PA6` — TIMER15_CH0.
impl<MODE> ValidAf<5> for Pin<PORT_A, 6, MODE> {
}

/// `AF6` on `PA6` — EVENTOUT.
impl<MODE> ValidAf<6> for Pin<PORT_A, 6, MODE> {
}

/// `AF7` on `PA6` — CMP_OUT.
impl<MODE> ValidAf<7> for Pin<PORT_A, 6, MODE> {
}

/// `AF0` on `PA7` — SPI0_MOSI.
impl<MODE> ValidAf<0> for Pin<PORT_A, 7, MODE> {
}

/// `AF1` on `PA7` — TIMER2_CH1.
impl<MODE> ValidAf<1> for Pin<PORT_A, 7, MODE> {
}

/// `AF2` on `PA7` — TIMER0_CH0_ON.
impl<MODE> ValidAf<2> for Pin<PORT_A, 7, MODE> {
}

/// `AF4` on `PA7` — TIMER13_CH0.
impl<MODE> ValidAf<4> for Pin<PORT_A, 7, MODE> {
}

/// `AF5` on `PA7` — TIMER16_CH0.
impl<MODE> ValidAf<5> for Pin<PORT_A, 7, MODE> {
}

/// `AF6` on `PA7` — EVENTOUT.
impl<MODE> ValidAf<6> for Pin<PORT_A, 7, MODE> {
}

/// `AF0` on `PA8` — CK_OUT.
impl<MODE> ValidAf<0> for Pin<PORT_A, 8, MODE> {
}

/// `AF1` on `PA8` — USART0_CK.
impl<MODE> ValidAf<1> for Pin<PORT_A, 8, MODE> {
}

/// `AF2` on `PA8` — TIMER0_CH0.
impl<MODE> ValidAf<2> for Pin<PORT_A, 8, MODE> {
}

/// `AF3` on `PA8` — EVENTOUT.
impl<MODE> ValidAf<3> for Pin<PORT_A, 8, MODE> {
}

/// `AF4` on `PA8` — USART1_TX.
impl<MODE> ValidAf<4> for Pin<PORT_A, 8, MODE> {
}

/// `AF0` on `PA9` — TIMER14_BRKIN.
impl<MODE> ValidAf<0> for Pin<PORT_A, 9, MODE> {
}

/// `AF1` on `PA9` — USART0_TX.
impl<MODE> ValidAf<1> for Pin<PORT_A, 9, MODE> {
}

/// `AF2` on `PA9` — TIMER0_CH1.
impl<MODE> ValidAf<2> for Pin<PORT_A, 9, MODE> {
}

/// `AF4` on `PA9` — I2C0_SCL.
impl<MODE> ValidAf<4> for Pin<PORT_A, 9, MODE> {
}

/// `AF5` on `PA9` — CK_OUT.
impl<MODE> ValidAf<5> for Pin<PORT_A, 9, MODE> {
}

/// `AF0` on `PA10` — TIMER16_BRKIN.
impl<MODE> ValidAf<0> for Pin<PORT_A, 10, MODE> {
}

/// `AF1` on `PA10` — USART0_RX.
impl<MODE> ValidAf<1> for Pin<PORT_A, 10, MODE> {
}

/// `AF2` on `PA10` — TIMER0_CH2.
impl<MODE> ValidAf<2> for Pin<PORT_A, 10, MODE> {
}

/// `AF4` on `PA10` — I2C0_SDA.
impl<MODE> ValidAf<4> for Pin<PORT_A, 10, MODE> {
}

/// `AF0` on `PA11` — EVENTOUT.
impl<MODE> ValidAf<0> for Pin<PORT_A, 11, MODE> {
}

/// `AF1` on `PA11` — USART0_CTS.
impl<MODE> ValidAf<1> for Pin<PORT_A, 11, MODE> {
}

/// `AF2` on `PA11` — TIMER0_CH3.
impl<MODE> ValidAf<2> for Pin<PORT_A, 11, MODE> {
}

/// `AF4` on `PA11` — I2C0_SMBA.
impl<MODE> ValidAf<4> for Pin<PORT_A, 11, MODE> {
}

/// `AF5` on `PA11` — I2C1_SCL.
impl<MODE> ValidAf<5> for Pin<PORT_A, 11, MODE> {
}

/// `AF6` on `PA11` — SPI1_IO2.
impl<MODE> ValidAf<6> for Pin<PORT_A, 11, MODE> {
}

/// `AF7` on `PA11` — CMP_OUT.
impl<MODE> ValidAf<7> for Pin<PORT_A, 11, MODE> {
}

/// `AF0` on `PA12` — EVENTOUT.
impl<MODE> ValidAf<0> for Pin<PORT_A, 12, MODE> {
}

/// `AF1` on `PA12` — USART0_RTS/DE.
impl<MODE> ValidAf<1> for Pin<PORT_A, 12, MODE> {
}

/// `AF2` on `PA12` — TIMER0_ETI.
impl<MODE> ValidAf<2> for Pin<PORT_A, 12, MODE> {
}

/// `AF4` on `PA12` — I2C0_TXFRAME.
impl<MODE> ValidAf<4> for Pin<PORT_A, 12, MODE> {
}

/// `AF5` on `PA12` — I2C1_SDA.
impl<MODE> ValidAf<5> for Pin<PORT_A, 12, MODE> {
}

/// `AF6` on `PA12` — SPI1_IO3.
impl<MODE> ValidAf<6> for Pin<PORT_A, 12, MODE> {
}

/// `AF0` on `PA13` — SWDIO.
impl<MODE> ValidAf<0> for Pin<PORT_A, 13, MODE> {
}

/// `AF1` on `PA13` — IFRP_OUT.
impl<MODE> ValidAf<1> for Pin<PORT_A, 13, MODE> {
}

/// `AF6` on `PA13` — SPI1_MISO.
impl<MODE> ValidAf<6> for Pin<PORT_A, 13, MODE> {
}

/// `AF0` on `PA14` — SWCLK.
impl<MODE> ValidAf<0> for Pin<PORT_A, 14, MODE> {
}

/// `AF1` on `PA14` — USART1_TX.
impl<MODE> ValidAf<1> for Pin<PORT_A, 14, MODE> {
}

/// `AF6` on `PA14` — SPI1_MOSI.
impl<MODE> ValidAf<6> for Pin<PORT_A, 14, MODE> {
}

/// `AF0` on `PA15` — SPI0_NSS/I2S0_WS.
impl<MODE> ValidAf<0> for Pin<PORT_A, 15, MODE> {
}

/// `AF1` on `PA15` — USART1_RX.
impl<MODE> ValidAf<1> for Pin<PORT_A, 15, MODE> {
}

/// `AF3` on `PA15` — EVENTOUT.
impl<MODE> ValidAf<3> for Pin<PORT_A, 15, MODE> {
}

/// `AF6` on `PA15` — SPI1_NSS.
impl<MODE> ValidAf<6> for Pin<PORT_A, 15, MODE> {
}

/// `AF0` on `PB0` — EVENTOUT.
impl<MODE> ValidAf<0> for Pin<PORT_B, 0, MODE> {
}

/// `AF1` on `PB0` — TIMER2_CH2.
impl<MODE> ValidAf<1> for Pin<PORT_B, 0, MODE> {
}

/// `AF2` on `PB0` — TIMER0_CH1_ON.
impl<MODE> ValidAf<2> for Pin<PORT_B, 0, MODE> {
}

/// `AF4` on `PB0` — USART1_RX.
impl<MODE> ValidAf<4> for Pin<PORT_B, 0, MODE> {
}

/// `AF1` on `PB1` — TIMER2_CH3.
impl<MODE> ValidAf<1> for Pin<PORT_B, 1, MODE> {
}

/// `AF2` on `PB1` — TIMER13_CH0.
impl<MODE> ValidAf<2> for Pin<PORT_B, 1, MODE> {
}

/// `AF3` on `PB1` — TIMER0_CH2_ON.
impl<MODE> ValidAf<3> for Pin<PORT_B, 1, MODE> {
}

/// `AF6` on `PB1` — SPI1_SCK.
impl<MODE> ValidAf<6> for Pin<PORT_B, 1, MODE> {
}

/// `AF1` on `PB2` — TIMER2_ETI.
impl<MODE> ValidAf<1> for Pin<PORT_B, 2, MODE> {
}

/// `AF0` on `PB3` — SPI0_SCK/I2S0_CK.
impl<MODE> ValidAf<0> for Pin<PORT_B, 3, MODE> {
}

/// `AF1` on `PB3` — EVENTOUT.
impl<MODE> ValidAf<1> for Pin<PORT_B, 3, MODE> {
}

/// `AF0` on `PB4` — SPI0_MISO.
impl<MODE> ValidAf<0> for Pin<PORT_B, 4, MODE> {
}

/// `AF1` on `PB4` — TIMER2_CH0.
impl<MODE> ValidAf<1> for Pin<PORT_B, 4, MODE> {
}

/// `AF2` on `PB4` — EVENTOUT.
impl<MODE> ValidAf<2> for Pin<PORT_B, 4, MODE> {
}

/// `AF4` on `PB4` — I2C0_TXFRAME.
impl<MODE> ValidAf<4> for Pin<PORT_B, 4, MODE> {
}

/// `AF6` on `PB4` — TIMER16_BRKIN.
impl<MODE> ValidAf<6> for Pin<PORT_B, 4, MODE> {
}

/// `AF0` on `PB5` — SPI0_MOSI.
impl<MODE> ValidAf<0> for Pin<PORT_B, 5, MODE> {
}

/// `AF1` on `PB5` — TIMER2_CH1.
impl<MODE> ValidAf<1> for Pin<PORT_B, 5, MODE> {
}

/// `AF2` on `PB5` — I2C0_SMBA.
impl<MODE> ValidAf<2> for Pin<PORT_B, 5, MODE> {
}

/// `AF3` on `PB5` — TIMER15_BRKIN.
impl<MODE> ValidAf<3> for Pin<PORT_B, 5, MODE> {
}

/// `AF0` on `PB6` — USART0_TX.
impl<MODE> ValidAf<0> for Pin<PORT_B, 6, MODE> {
}

/// `AF1` on `PB6` — I2C0_SCL.
impl<MODE> ValidAf<1> for Pin<PORT_B, 6, MODE> {
}

/// `AF2` on `PB6` — TIMER15_CH0_ON.
impl<MODE> ValidAf<2> for Pin<PORT_B, 6, MODE> {
}

/// `AF0` on `PB7` — USART0_RX.
impl<MODE> ValidAf<0> for Pin<PORT_B, 7, MODE> {
}

/// `AF1` on `PB7` — I2C0_SDA.
impl<MODE> ValidAf<1> for Pin<PORT_B, 7, MODE> {
}

/// `AF2` on `PB7` — TIMER16_CH0_ON.
impl<MODE> ValidAf<2> for Pin<PORT_B, 7, MODE> {
}

/// `AF1` on `PB8` — I2C0_SCL.
impl<MODE> ValidAf<1> for Pin<PORT_B, 8, MODE> {
}

/// `AF2` on `PB8` — TIMER15_CH0.
impl<MODE> ValidAf<2> for Pin<PORT_B, 8, MODE> {
}

/// `AF1` on `PF0` — I2C0_SDA.
impl<MODE> ValidAf<1> for Pin<PORT_F, 0, MODE> {
}

/// `AF1` on `PF1` — I2C0_SCL.
impl<MODE> ValidAf<1> for Pin<PORT_F, 1, MODE> {
}

/// Extension trait splitting a GPIO port into its individual pins.
pub trait GpioExt {
    /// The struct of individual pins this port yields.
    type Parts;

    /// Enables the port's clock and returns its pins, with the port's registers.
    ///
    /// Consumes the port, so its pins can only be obtained once.
    fn split(self, rcu: &mut Rcu) -> Self::Parts;
}

/// The pins of port A, in their reset modes, with the port's registers.
pub struct PartsA {
    /// Pin `PA0`, in its reset mode.
    pub pa0: Pin<PORT_A, 0, Input>,
    /// Pin `PA1`, in its reset mode.
    pub pa1: Pin<PORT_A, 1, Input>,
    /// Pin `PA2`, in its reset mode.
    pub pa2: Pin<PORT_A, 2, Input>,
    /// Pin `PA3`, in its reset mode.
    pub pa3: Pin<PORT_A, 3, Input>,
    /// Pin `PA4`, in its reset mode.
    pub pa4: Pin<PORT_A, 4, Input>,
    /// Pin `PA5`, in its reset mode.
    pub pa5: Pin<PORT_A, 5, Input>,
    /// Pin `PA6`, in its reset mode.
    pub pa6: Pin<PORT_A, 6, Input>,
    /// Pin `PA7`, in its reset mode.
    pub pa7: Pin<PORT_A, 7, Input>,
    /// Pin `PA8`, in its reset mode.
    pub pa8: Pin<PORT_A, 8, Input>,
    /// Pin `PA9`, in its reset mode.
    pub pa9: Pin<PORT_A, 9, Input>,
    /// Pin `PA10`, in its reset mode.
    pub pa10: Pin<PORT_A, 10, Input>,
    /// Pin `PA11`, in its reset mode.
    pub pa11: Pin<PORT_A, 11, Input>,
    /// Pin `PA12`, in its reset mode.
    pub pa12: Pin<PORT_A, 12, Input>,
    /// Pin `PA13`, in its reset mode.
    pub pa13: Pin<PORT_A, 13, Debugger>,
    /// Pin `PA14`, in its reset mode.
    pub pa14: Pin<PORT_A, 14, Debugger>,
    /// Pin `PA15`, in its reset mode.
    pub pa15: Pin<PORT_A, 15, Input>,
    /// The registers the pins above share.
    pub port: GpioPort,
}

impl GpioExt for periph::Gpioa {
    type Parts = PartsA;

    fn split(self, rcu: &mut Rcu) -> (r: PartsA)
        ensures
            r.port.regs == self.regs,
            r.port.id() == Port::A,
            final(rcu).regs() == with_enable(old(rcu).regs(), <periph::Gpioa as Enable>::enable_bus(), <periph::Gpioa as Enable>::enable_bit(), true),
            final(rcu).clocks() == old(rcu).clocks(),
    {
        <periph::Gpioa as Enable>::enable(rcu);
        PartsA {
            pa0: Pin::new(),
            pa1: Pin::new(),
            pa2: Pin::new(),
            pa3: Pin::new(),
            pa4: Pin::new(),
            pa5: Pin::new(),
            pa6: Pin::new(),
            pa7: Pin::new(),
            pa8: Pin::new(),
            pa9: Pin::new(),
            pa10: Pin::new(),
            pa11: Pin::new(),
            pa12: Pin::new(),
            pa13: Pin::new(),
            pa14: Pin::new(),
            pa15: Pin::new(),
            port: GpioPort { port: Port::A, regs: self.regs },
        }
    }
}

/// The pins of port B, in their reset modes, with the port's registers.
pub struct PartsB {
    /// Pin `PB0`, in its reset mode.
    pub pb0: Pin<PORT_B, 0, Input>,
    /// Pin `PB1`, in its reset mode.
    pub pb1: Pin<PORT_B, 1, Input>,
    /// Pin `PB2`, in its reset mode.
    pub pb2: Pin<PORT_B, 2, Input>,
    /// Pin `PB3`, in its reset mode.
    pub pb3: Pin<PORT_B, 3, Input>,
    /// Pin `PB4`, in its reset mode.
    pub pb4: Pin<PORT_B, 4, Input>,
    /// Pin `PB5`, in its reset mode.
    pub pb5: Pin<PORT_B, 5, Input>,
    /// Pin `PB6`, in its reset mode.
    pub pb6: Pin<PORT_B, 6, Input>,
    /// Pin `PB7`, in its reset mode.
    pub pb7: Pin<PORT_B, 7, Input>,
    /// Pin `PB8`, in its reset mode.
    pub pb8: Pin<PORT_B, 8, Input>,
    /// The registers the pins above share.
    pub port: GpioPort,
}

impl GpioExt for periph::Gpiob {
    type Parts = PartsB;

    fn split(self, rcu: &mut Rcu) -> (r: PartsB)
        ensures
            r.port.regs == self.regs,
            r.port.id() == Port::B,
            final(rcu).regs() == with_enable(old(rcu).regs(), <periph::Gpiob as Enable>::enable_bus(), <periph::Gpiob as Enable>::enable_bit(), true),
            final(rcu).clocks() == old(rcu).clocks(),
    {
        <periph::Gpiob as Enable>::enable(rcu);
        PartsB {
            pb0: Pin::new(),
            pb1: Pin::new(),
            pb2: Pin::new(),
            pb3: Pin::new(),
            pb4: Pin::new(),
            pb5: Pin::new(),
            pb6: Pin::new(),
            pb7: Pin::new(),
            pb8: Pin::new(),
            port: GpioPort { port: Port::B, regs: self.regs },
        }
    }
}

/// The pins of port F, in their reset modes, with the port's registers.
pub struct PartsF {
    /// Pin `PF0`, in its reset mode.
    pub pf0: Pin<PORT_F, 0, Input>,
    /// Pin `PF1`, in its reset mode.
    pub pf1: Pin<PORT_F, 1, Input>,
    /// The registers the pins above share.
    pub port: GpioPort,
}

impl GpioExt for periph::Gpiof {
    type Parts = PartsF;

    fn split(self, rcu: &mut Rcu) -> (r: PartsF)
        ensures
            r.port.regs == self.regs,
            r.port.id() == Port::F,
            final(rcu).regs() == with_enable(old(rcu).regs(), <periph::Gpiof as Enable>::enable_bus(), <periph::Gpiof as Enable>::enable_bit(), true),
            final(rcu).clocks() == old(rcu).clocks(),
    {
        <periph::Gpiof as Enable>::enable(rcu);
        PartsF {
            pf0: Pin::new(),
            pf1: Pin::new(),
            port: GpioPort { port: Port::F, regs: self.regs },
        }
    }
}

/// Reconfiguring a pin sets its own two-bit field of a port register
/// (`CTL`, `PUD`, `OSPD`) and leaves every other pin's field as it was.
pub proof fn law_pin_field_isolated(word: u32, n: u8, k: u8, value: u32)
    requires
        n < 16,
        k < 16,
    ensures
        get_field(put_field(word, (2 * n) as u32, 3, value), (2 * k) as u32, 3) == if k == n {
            value & 3
        } else {
            get_field(word, (2 * k) as u32, 3)
        },
{
    let a = (2 * n) as u32;
    let b = (2 * k) as u32;
    assert(get_field(put_field(word, a, 3, value), b, 3) == if b == a {
        value & 3
    } else {
        get_field(word, b, 3)
    }) by (bit_vector)
        requires
            a < 32,
            b < 32,
            a % 2 == 0,
            b % 2 == 0,
    ;
}

/// Routing a pin to an alternate function sets its own four bits of
/// `AFSEL0`/`AFSEL1` and leaves every other pin's selection as it was.
pub proof fn law_pin_af_isolated(word: u32, n: u8, k: u8, value: u32)
    requires
        n < 8,
        k < 8,
    ensures
        get_field(put_field(word, (4 * n) as u32, 0xf, value), (4 * k) as u32, 0xf) == if k == n {
            value & 0xf
        } else {
            get_field(word, (4 * k) as u32, 0xf)
        },
{
    let a = (4 * n) as u32;
    let b = (4 * k) as u32;
    assert(get_field(put_field(word, a, 0xf, value), b, 0xf) == if b == a {
        value & 0xf
    } else {
        get_field(word, b, 0xf)
    }) by (bit_vector)
        requires
            a < 32,
            b < 32,
            a % 4 == 0,
            b % 4 == 0,
    ;
}

/// Toggling a pin twice leaves the port's output levels as they were, and a
/// toggle inverts that pin's level alone.
pub proof fn law_toggle(r: GpioRegs, n: u8, k: u8)
    requires
        n < 16,
        k < 16,
    ensures
        with_toggle(with_toggle(r, n), n) == r,
        get_bit(with_toggle(r, n).octl, k as u32) == if k == n {
            !get_bit(r.octl, k as u32)
        } else {
            get_bit(r.octl, k as u32)
        },
{
    let o = r.octl;
    let a = n as u32;
    let b = k as u32;
    assert((o ^ (1u32 << a)) ^ (1u32 << a) == o && (get_bit(o ^ (1u32 << a), b) == if b == a {
        !get_bit(o, b)
    } else {
        get_bit(o, b)
    })) by (bit_vector)
        requires
            a < 16,
            b < 16,
    ;
}
} // verus!

verus! {

impl<const P: u8, const N: u8, MODE> Pin<P, N, MODE> {
    /// The pin number, below 16 for every pin that exists.
    pub(crate) fn pin_number(&self) -> (r: u8)
        ensures
            r == N,
            N < 16,
    {
        self.number()
    }
}


/// A pin driven high or low reads back, through `OCTL`, the level it was
/// driven to; every other pin's driven level stands.
pub proof fn law_level_reads_back(r: GpioRegs, n: u8, k: u8, high: bool)
    requires
        n < 16,
        k < 16,
    ensures
        get_bit(with_level(r, n, high).octl, n as u32) == high,
        k != n ==> get_bit(with_level(r, n, high).octl, k as u32) == get_bit(r.octl, k as u32),
{
    crate::bits::lemma_put_bit(r.octl, n as u32, high, k as u32);
}

/// The slew rate, in MHz, the chip gives an `OSPD` code: `0b01` 10 MHz,
/// `0b11` 50 MHz, and `0b00` or `0b10` 2 MHz.
pub open spec fn ospd_mhz(code: u32) -> nat {
    if code == 1 {
        10
    } else if code == 3 {
        50
    } else {
        2
    }
}

/// The rate a speed setting is named for, in MHz.
pub open spec fn speed_mhz(s: Speed) -> nat {
    match s {
        Speed::Mhz2 => 2,
        Speed::Mhz10 => 10,
        Speed::Mhz50 => 50,
    }
}

/// The pull the chip gives a `PUD` code: none, up, down; `0b11` is reserved.
pub open spec fn pud_pull(code: u32) -> Option<Pull> {
    if code == 0 {
        Some(Pull::Floating)
    } else if code == 1 {
        Some(Pull::Up)
    } else if code == 2 {
        Some(Pull::Down)
    } else {
        None
    }
}

/// The codes written for speeds and pulls select, as the chip reads them,
/// exactly the setting asked for; no pull writes the reserved code.
pub proof fn law_pad_setting_codes(s: Speed, p: Pull)
    ensures
        s.code() < 4,
        ospd_mhz(s.code()) == speed_mhz(s),
        p.code() < 3,
        pud_pull(p.code()) == Some(p),
{
}

} // verus!
