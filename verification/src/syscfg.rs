//! System configuration: the registers that wire peripherals to each other
//! rather than to the outside world.
//!
//! Only `EXTISS` is covered, and it is not public: the port an EXTI line
//! listens to is picked by [`crate::exti::ExtiLine::source`], which owns the
//! pin it names.

use vstd::prelude::*;

use crate::bits::{put_field, write_field};
use crate::periph;
use crate::rcu::{APB2_CFGCMP, Bus, Rcu, with_enable};

verus! {

/// The SYSCFG registers with the `EXTISS` field of `line` set to `code`:
/// four lines to a register, four bits to a line.
pub open spec fn with_extiss(r: periph::Syscfg, line: u8, code: u8) -> periph::Syscfg {
    let offset = (4 * (line % 4)) as u32;
    if line < 4 {
        periph::Syscfg { extiss0: put_field(r.extiss0, offset, 0xf, code as u32), ..r }
    } else if line < 8 {
        periph::Syscfg { extiss1: put_field(r.extiss1, offset, 0xf, code as u32), ..r }
    } else if line < 12 {
        periph::Syscfg { extiss2: put_field(r.extiss2, offset, 0xf, code as u32), ..r }
    } else {
        periph::Syscfg { extiss3: put_field(r.extiss3, offset, 0xf, code as u32), ..r }
    }
}

/// Owns the SYSCFG registers, so nothing else can reach them.
pub struct Syscfg {
    syscfg: periph::Syscfg,
}

impl Syscfg {
    /// The registers.
    pub closed spec fn regs(&self) -> periph::Syscfg {
        self.syscfg
    }

    /// The registers, for the code that mirrors them onto the chip.
    pub fn registers(&self) -> (r: &periph::Syscfg)
        ensures
            *r == self.regs(),
    {
        &self.syscfg
    }

    /// Points EXTI line `line` at the port encoded by `code`; lines above 15
    /// have no source to select.
    pub(crate) fn set_extiss(&mut self, line: u8, code: u8)
        requires
            line <= 15,
        ensures
            final(self).regs() == with_extiss(old(self).regs(), line, code),
    {
        let offset: u32 = 4 * (line % 4) as u32;
        if line < 4 {
            self.syscfg.extiss0 = write_field(self.syscfg.extiss0, offset, 0xf, code as u32);
        } else if line < 8 {
            self.syscfg.extiss1 = write_field(self.syscfg.extiss1, offset, 0xf, code as u32);
        } else if line < 12 {
            self.syscfg.extiss2 = write_field(self.syscfg.extiss2, offset, 0xf, code as u32);
        } else {
            self.syscfg.extiss3 = write_field(self.syscfg.extiss3, offset, 0xf, code as u32);
        }
    }
}

/// Takes the register file into [`Syscfg`].
pub trait SyscfgExt: Sized {
    /// The register file taken in.
    spec fn regs_in(&self) -> periph::Syscfg;

    /// Switches the SYSCFG clock on and hands back the owning type. The clock
    /// bit is shared with the comparator.
    fn constrain(self, rcu: &mut Rcu) -> (r: Syscfg)
        ensures
            r.regs() == self.regs_in(),
            final(rcu).regs() == with_enable(old(rcu).regs(), Bus::Apb2, APB2_CFGCMP, true),
            final(rcu).clocks() == old(rcu).clocks(),
    ;
}

impl SyscfgExt for periph::Syscfg {
    open spec fn regs_in(&self) -> periph::Syscfg {
        *self
    }

    fn constrain(self, rcu: &mut Rcu) -> (r: Syscfg) {
        rcu.enable_cfgcmp();
        Syscfg { syscfg: self }
    }
}

} // verus!
