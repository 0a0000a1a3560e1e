//! Register files: the peripherals of the GD32E230K8 as their register words.
//!
//! A register file is the state a driver reads and writes. Fields are the
//! registers by their manual names, at their reset values after
//! [`reset_state`](Rcu::reset_state). Flags that the silicon raises on its
//! own (`BUSY`, `PLLSTB`, a received frame) stand in the file as the code
//! driving the chip last found them.

use vstd::prelude::*;

verus! {

/// A register of the reset and clock unit, as its write log names it.
#[derive(Clone, Copy, PartialEq, Eq, Structural, Debug)]
pub enum RcuReg {
    Ctl0,
    Ctl1,
    Cfg0,
    Cfg2,
    Rstsck,
    Ahben,
    Apb1en,
    Apb2en,
    Ahbrst,
    Apb1rst,
    Apb2rst,
}

/// The reset and clock unit.
///
/// Enables, resets and clock switches take effect in the order they are
/// written, so besides the register values `log` lists every write, oldest
/// first, as the register and the word written into it.
#[derive(Clone, Copy)]
pub struct Rcu {
    pub ctl0: u32,
    pub ctl1: u32,
    pub cfg0: u32,
    pub cfg2: u32,
    pub rstsck: u32,
    pub ahben: u32,
    pub apb1en: u32,
    pub apb2en: u32,
    pub ahbrst: u32,
    pub apb1rst: u32,
    pub apb2rst: u32,
    pub log: Ghost<Seq<(RcuReg, u32)>>,
}

impl Rcu {
    /// The register values after a power-on reset, with nothing written yet.
    pub fn reset_state() -> (r: Rcu)
        ensures
            r.ctl0 == 0x83,
            r.ctl1 == 0x80,
            r.cfg0 == 0,
            r.cfg2 == 0,
            r.rstsck == 0x0c00_0000,
            r.ahben == 0x14,
            r.apb1en == 0,
            r.apb2en == 0,
            r.ahbrst == 0,
            r.apb1rst == 0,
            r.apb2rst == 0,
            r.log@ == Seq::<(RcuReg, u32)>::empty(),
    {
        Rcu {
            ctl0: 0x83,
            ctl1: 0x80,
            cfg0: 0,
            cfg2: 0,
            rstsck: 0x0c00_0000,
            ahben: 0x14,
            apb1en: 0,
            apb2en: 0,
            ahbrst: 0,
            apb1rst: 0,
            apb2rst: 0,
            log: Ghost(Seq::empty()),
        }
    }
}

/// The flash memory controller.
///
/// `bus` lists, oldest first, the `(address, word)` pairs written through the
/// flash bus while programming: those writes are the program commands.
/// `KEY` and `OBKEY` are write-only, and it is the order of what is written
/// into them that unlocks: `key` and `obkey` list those words, oldest first.
///
/// Each erase or program operation ends with the controller raising flags in
/// `STAT`: `ENDF`, or the error flags of what went wrong. `outcomes` lists
/// those flags for the operations in the order they are started, of which the
/// first `done` have ended.
pub struct Fmc {
    pub ws: u32,
    pub key: Vec<u32>,
    pub obkey: Vec<u32>,
    pub stat: u32,
    pub ctl: u32,
    pub addr: u32,
    pub obstat: u32,
    pub wp: u32,
    pub pid: u32,
    pub bus: Vec<(u32, u32)>,
    pub outcomes: Vec<u32>,
    pub done: usize,
}

impl Fmc {
    /// The register values after a power-on reset, with the option byte
    /// status, write protection and product ID as the chip presents them.
    /// The prefetch buffer comes up on. `outcomes` are the flags the
    /// operations to come end with.
    pub fn reset_state(obstat: u32, wp: u32, pid: u32, outcomes: Vec<u32>) -> (r: Fmc)
        ensures
            r.ws == 0x10,
            r.key@ == Seq::<u32>::empty(),
            r.obkey@ == Seq::<u32>::empty(),
            r.stat == 0,
            r.ctl == 0x80,
            r.addr == 0,
            r.obstat == obstat,
            r.wp == wp,
            r.pid == pid,
            r.bus@ == Seq::<(u32, u32)>::empty(),
            r.outcomes@ == outcomes@,
            r.done == 0,
    {
        Fmc {
            ws: 0x10,
            key: Vec::new(),
            obkey: Vec::new(),
            stat: 0,
            ctl: 0x80,
            addr: 0,
            obstat,
            wp,
            pid,
            bus: Vec::new(),
            outcomes,
            done: 0,
        }
    }
}

/// One access to a port's `LOCK` register: a write of a word, or a read.
#[derive(Clone, Copy, PartialEq, Eq, Structural, Debug)]
pub enum LockAccess {
    Write(u32),
    Read,
}

/// The registers of one GPIO port.
///
/// `LOCK` reacts to the order of what is done to it, so besides the value it
/// reads back, `lock_log` lists the writes and reads of it, oldest first.
pub struct GpioRegs {
    pub ctl: u32,
    pub omode: u32,
    pub ospd: u32,
    pub pud: u32,
    pub istat: u32,
    pub octl: u32,
    pub lock: u32,
    pub lock_log: Vec<LockAccess>,
    pub afsel0: u32,
    pub afsel1: u32,
}

impl GpioRegs {
    /// Port A after reset: `PA13`/`PA14` wired to SWD.
    pub fn reset_port_a() -> (r: GpioRegs)
        ensures
            r.ctl == 0x2800_0000,
            r.omode == 0,
            r.ospd == 0x0c00_0000,
            r.pud == 0x2400_0000,
            r.istat == 0,
            r.octl == 0,
            r.lock == 0,
            r.afsel0 == 0,
            r.afsel1 == 0,
            r.lock_log@ == Seq::<LockAccess>::empty(),
    {
        GpioRegs {
            ctl: 0x2800_0000,
            omode: 0,
            ospd: 0x0c00_0000,
            pud: 0x2400_0000,
            istat: 0,
            octl: 0,
            lock: 0,
            lock_log: Vec::new(),
            afsel0: 0,
            afsel1: 0,
        }
    }

    /// Ports B and F after reset: every register zero.
    pub fn reset_other() -> (r: GpioRegs)
        ensures
            r.ctl == 0,
            r.omode == 0,
            r.ospd == 0,
            r.pud == 0,
            r.istat == 0,
            r.octl == 0,
            r.lock == 0,
            r.afsel0 == 0,
            r.afsel1 == 0,
            r.lock_log@ == Seq::<LockAccess>::empty(),
    {
        GpioRegs { ctl: 0, omode: 0, ospd: 0, pud: 0, istat: 0, octl: 0, lock: 0,
            lock_log: Vec::new(), afsel0: 0, afsel1: 0 }
    }
}

/// GPIO port A.
pub struct Gpioa {
    pub regs: GpioRegs,
}

/// GPIO port B.
pub struct Gpiob {
    pub regs: GpioRegs,
}

/// GPIO port F.
pub struct Gpiof {
    pub regs: GpioRegs,
}

/// The external interrupt and event controller.
#[derive(Clone, Copy, PartialEq, Eq, Structural)]
pub struct Exti {
    pub inten: u32,
    pub even: u32,
    pub rten: u32,
    pub ften: u32,
    pub swiev: u32,
    pub pd: u32,
}

impl Exti {
    /// The register values after reset.
    pub fn reset_state() -> (r: Exti)
        ensures
            r == (Exti { inten: 0x0f94_0000, even: 0, rten: 0, ften: 0, swiev: 0, pd: 0 }),
    {
        Exti { inten: 0x0f94_0000, even: 0, rten: 0, ften: 0, swiev: 0, pd: 0 }
    }
}

/// The system configuration controller: its four `EXTISS` registers.
#[derive(Clone, Copy, PartialEq, Eq, Structural)]
pub struct Syscfg {
    pub extiss0: u32,
    pub extiss1: u32,
    pub extiss2: u32,
    pub extiss3: u32,
}

impl Syscfg {
    /// The register values after reset.
    pub fn reset_state() -> (r: Syscfg)
        ensures
            r == (Syscfg { extiss0: 0, extiss1: 0, extiss2: 0, extiss3: 0 }),
    {
        Syscfg { extiss0: 0, extiss1: 0, extiss2: 0, extiss3: 0 }
    }
}

/// The CRC calculation unit.
///
/// `data` is the result register as the unit presents it; `fed` is the last
/// value written into it, which the unit folds into the result. `fed_width`
/// is the width of that access in bits.
#[derive(Clone, Copy, PartialEq, Eq, Structural)]
pub struct Crc {
    pub data: u32,
    pub fdata: u32,
    pub ctl: u32,
    pub idata: u32,
    pub poly: u32,
    pub fed: u32,
    pub fed_width: u32,
}

impl Crc {
    /// The register values after reset.
    pub fn reset_state() -> (r: Crc)
        ensures
            r == (Crc {
                data: 0xffff_ffff,
                fdata: 0,
                ctl: 0,
                idata: 0xffff_ffff,
                poly: 0x04c1_1db7,
                fed: 0,
                fed_width: 0,
            }),
    {
        Crc {
            data: 0xffff_ffff,
            fdata: 0,
            ctl: 0,
            idata: 0xffff_ffff,
            poly: 0x04c1_1db7,
            fed: 0,
            fed_width: 0,
        }
    }
}

/// The comparator: its control and status register.
#[derive(Clone, Copy, PartialEq, Eq, Structural)]
pub struct Cmp {
    pub cs: u32,
}

/// One event at a peripheral's control registers, in the order they happen:
/// the reset pulse, which returns them to their reset values, or a word
/// written into `CTL0`, `CTL1` or `CTL2`.
#[derive(Clone, Copy, PartialEq, Eq, Structural, Debug)]
pub enum CtlEvent {
    Reset,
    Ctl0(u32),
    Ctl1(u32),
    Ctl2(u32),
}

/// The registers of an SPI, with the two sides of its data register kept
/// apart: `sent` lists the words written into `DATA`, oldest first, and
/// `incoming` the words the bus delivers into it, of which the first
/// `taken` have been read. `flags` lists, word by word, the error flags of
/// `STAT` raised with each incoming word. `ctl_log` lists the resets and
/// the writes of the control registers, oldest first.
pub struct SpiRegs {
    pub ctl0: u32,
    pub ctl1: u32,
    pub ctl_log: Vec<CtlEvent>,
    pub stat: u32,
    pub sent: Vec<u16>,
    pub incoming: Vec<u16>,
    pub flags: Vec<u32>,
    pub taken: usize,
}

impl SpiRegs {
    /// The register values after reset, with `incoming` the words the bus is
    /// going to deliver and `flags` the error flags each arrives with.
    pub fn reset_state(incoming: Vec<u16>, flags: Vec<u32>) -> (r: SpiRegs)
        ensures
            r.ctl0 == 0,
            r.ctl1 == 0,
            r.ctl_log@ == Seq::<CtlEvent>::empty(),
            r.stat == 2,
            r.sent@ == Seq::<u16>::empty(),
            r.incoming@ == incoming@,
            r.flags@ == flags@,
            r.taken == 0,
    {
        SpiRegs { ctl0: 0, ctl1: 0, ctl_log: Vec::new(), stat: 2, sent: Vec::new(), incoming, flags, taken: 0 }
    }
}

/// SPI0.
pub struct Spi0 {
    pub regs: SpiRegs,
}

/// SPI1.
pub struct Spi1 {
    pub regs: SpiRegs,
}

/// The registers of a USART, with the data registers as streams: `sent`
/// lists the frames written into `TDATA`, oldest first, and `incoming` the
/// frames the line delivers into `RDATA`, of which the first `taken` have
/// been read. `flags` lists, frame by frame, the error flags of `STAT` the
/// receiver raises with each incoming frame. `ctl_log` lists the resets and
/// the writes of the control registers, oldest first.
pub struct UsartRegs {
    pub ctl0: u32,
    pub ctl2: u32,
    pub ctl_log: Vec<CtlEvent>,
    pub baud: u32,
    pub stat: u32,
    pub sent: Vec<u32>,
    pub incoming: Vec<u32>,
    pub flags: Vec<u32>,
    pub taken: usize,
}

impl UsartRegs {
    /// The register values after reset, with `incoming` the frames the line
    /// is going to deliver and `flags` the error flags each arrives with.
    pub fn reset_state(incoming: Vec<u32>, flags: Vec<u32>) -> (r: UsartRegs)
        ensures
            r.ctl0 == 0,
            r.ctl2 == 0,
            r.ctl_log@ == Seq::<CtlEvent>::empty(),
            r.baud == 0,
            r.stat == 0xc0,
            r.sent@ == Seq::<u32>::empty(),
            r.incoming@ == incoming@,
            r.flags@ == flags@,
            r.taken == 0,
    {
        UsartRegs { ctl0: 0, ctl2: 0, ctl_log: Vec::new(), baud: 0, stat: 0xc0, sent: Vec::new(), incoming, flags, taken: 0 }
    }
}

/// USART0.
pub struct Usart0 {
    pub regs: UsartRegs,
}

/// USART1.
pub struct Usart1 {
    pub regs: UsartRegs,
}


/// An SPI's registers as values: the streams as sequences.
pub ghost struct SpiState {
    pub ctl0: u32,
    pub ctl1: u32,
    pub ctl_log: Seq<CtlEvent>,
    pub stat: u32,
    pub sent: Seq<u16>,
    pub incoming: Seq<u16>,
    pub flags: Seq<u32>,
    pub taken: int,
}

impl View for SpiRegs {
    type V = SpiState;

    open spec fn view(&self) -> SpiState {
        SpiState {
            ctl0: self.ctl0,
            ctl1: self.ctl1,
            ctl_log: self.ctl_log@,
            stat: self.stat,
            sent: self.sent@,
            incoming: self.incoming@,
            flags: self.flags@,
            taken: self.taken as int,
        }
    }
}

/// A USART's registers as values: the streams as sequences.
pub ghost struct UsartState {
    pub ctl0: u32,
    pub ctl2: u32,
    pub ctl_log: Seq<CtlEvent>,
    pub baud: u32,
    pub stat: u32,
    pub sent: Seq<u32>,
    pub incoming: Seq<u32>,
    pub flags: Seq<u32>,
    pub taken: int,
}

impl View for UsartRegs {
    type V = UsartState;

    open spec fn view(&self) -> UsartState {
        UsartState {
            ctl0: self.ctl0,
            ctl2: self.ctl2,
            ctl_log: self.ctl_log@,
            baud: self.baud,
            stat: self.stat,
            sent: self.sent@,
            incoming: self.incoming@,
            flags: self.flags@,
            taken: self.taken as int,
        }
    }
}
} // verus!
