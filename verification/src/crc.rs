//! Hardware CRC calculation unit.
//!
//! The arithmetic is the unit's: in the register file, `data` is the result
//! the unit presents and `fed` the value last written into it.

use core::marker::PhantomData;

use vstd::prelude::*;

use crate::bits::{put_bit, put_field, write_bit, write_field};
use crate::periph;
use crate::rcu::{Enable, Rcu, with_enable};

verus! {

/// `CTL` fields.
pub const CTL_PS: u32 = 3;
pub const CTL_REV_I: u32 = 5;
pub const CTL_REV_O: u32 = 7;

/// 32-bit polynomial size, selects [`Crc::new_32bit`].
pub struct B32;

/// 16-bit polynomial size, selects [`Crc::new_16bit`].
pub struct B16;

/// 8-bit polynomial size, selects [`Crc::new_8bit`].
pub struct B8;

/// 7-bit polynomial size, selects [`Crc::new_7bit`].
pub struct B7;

/// Input data bit-reversal granularity (`REV_I`).
#[derive(Clone, Copy, PartialEq, Eq, Structural)]
pub enum ReverseInput {
    /// No reversal.
    Disabled,
    /// Reverse the bit order within each byte.
    Byte,
    /// Reverse the bit order within each half-word.
    HalfWord,
    /// Reverse the bit order within each word.
    Word,
}

impl ReverseInput {
    /// The `REV_I` code.
    pub open spec fn code(self) -> u32 {
        match self {
            ReverseInput::Disabled => 0,
            ReverseInput::Byte => 1,
            ReverseInput::HalfWord => 2,
            ReverseInput::Word => 3,
        }
    }
}

/// Output data bit reversal (`REV_O`).
#[derive(Clone, Copy, PartialEq, Eq, Structural)]
pub enum ReverseOutput {
    /// The result is read out as computed.
    Disabled,
    /// The result is bit-reversed on read.
    Enabled,
}

/// Settings shared by every polynomial size.
#[derive(Clone, Copy, PartialEq, Eq, Structural)]
pub struct CrcConfig {
    reverse_input: ReverseInput,
    reverse_output: ReverseOutput,
}

impl CrcConfig {
    /// The input reversal.
    pub closed spec fn rev_in(self) -> ReverseInput {
        self.reverse_input
    }

    /// The output reversal.
    pub closed spec fn rev_out(self) -> ReverseOutput {
        self.reverse_output
    }

    /// Creates a configuration with the given input/output reversal.
    pub fn new(reverse_input: ReverseInput, reverse_output: ReverseOutput) -> (r: Self)
        ensures
            r.rev_in() == reverse_input,
            r.rev_out() == reverse_output,
    {
        Self { reverse_input, reverse_output }
    }
}

impl Default for CrcConfig {
    fn default() -> (r: Self)
        ensures
            r.rev_in() == ReverseInput::Disabled,
            r.rev_out() == ReverseOutput::Disabled,
    {
        Self { reverse_input: ReverseInput::Disabled, reverse_output: ReverseOutput::Disabled }
    }
}

/// The CRC registers once configured for polynomial size code `ps` and `poly`.
pub open spec fn configured(r: periph::Crc, ps: u32, poly: u32, config: CrcConfig) -> periph::Crc {
    periph::Crc {
        ctl: put_field(
            put_bit(put_field(r.ctl, CTL_PS, 3, ps), CTL_REV_O, config.rev_out() == ReverseOutput::Enabled),
            CTL_REV_I,
            3,
            config.rev_in().code(),
        ),
        poly,
        ..r
    }
}

/// Writes the fields shared by every polynomial size.
fn configure(crc: &mut periph::Crc, ps: u32, poly: u32, config: CrcConfig)
    ensures
        *final(crc) == configured(*old(crc), ps, poly, config),
{
    let rev_o = match config.reverse_output {
        ReverseOutput::Enabled => true,
        ReverseOutput::Disabled => false,
    };
    let rev_i: u32 = match config.reverse_input {
        ReverseInput::Disabled => 0,
        ReverseInput::Byte => 1,
        ReverseInput::HalfWord => 2,
        ReverseInput::Word => 3,
    };
    let w = write_field(crc.ctl, CTL_PS, 3, ps);
    let w = write_bit(w, CTL_REV_O, rev_o);
    crc.ctl = write_field(w, CTL_REV_I, 3, rev_i);
    crc.poly = poly;
}

/// Loads `idata` into the result register through a pulse of `RST`, which
/// reads back clear.
fn new_seed(crc: &mut periph::Crc, idata: u32)
    ensures
        *final(crc) == (periph::Crc { idata, data: idata, ..*old(crc) }),
{
    crc.idata = idata;
    crc.data = crc.idata;
}

/// Hardware CRC calculation unit; `PS` fixes the polynomial width.
pub struct Crc<PS> {
    crc: periph::Crc,
    _poly_size: PhantomData<PS>,
}

impl<PS> Crc<PS> {
    /// The registers.
    pub closed spec fn regs(&self) -> periph::Crc {
        self.crc
    }

    /// The registers, for the code that mirrors them onto the chip.
    pub fn registers(&self) -> (r: &periph::Crc)
        ensures
            *r == self.regs(),
    {
        &self.crc
    }

    /// Reads the current accumulated CRC result.
    pub fn read(&self) -> (r: u32)
        ensures
            r == self.regs().data,
    {
        self.crc.data
    }

    /// Hands the register file back. The clock is left enabled.
    pub fn release(self) -> (r: periph::Crc)
        ensures
            r == self.regs(),
    {
        self.crc
    }

    /// Writes a byte to the scratch `FDATA` register, unrelated to the
    /// calculation.
    pub fn set_fdata(&mut self, fdata: u8)
        ensures
            final(self).regs() == (periph::Crc { fdata: fdata as u32, ..old(self).regs() }),
    {
        self.crc.fdata = fdata as u32;
    }

    /// Reads back the byte last written with [`set_fdata`](Self::set_fdata).
    pub fn fdata(&self) -> (r: u8)
        ensures
            r == self.regs().fdata as u8,
    {
        self.crc.fdata as u8
    }

    /// Hands `value`, `width` bits wide, to the unit, which folds it into the
    /// result.
    fn feed(&mut self, value: u32, width: u32)
        ensures
            final(self).regs() == (periph::Crc {
                fed: value,
                fed_width: width,
                data: final(self).regs().data,
                ..old(self).regs()
            }),
    {
        self.crc.fed = value;
        self.crc.fed_width = width;
    }
}

impl Crc<B32> {
    /// Enables the peripheral's clock and configures a 32-bit polynomial.
    pub fn new_32bit(rcu: &mut Rcu, crc: periph::Crc, poly: u32, config: CrcConfig) -> (r: Self)
        ensures
            r.regs() == configured(crc, 0b00, poly, config),
            final(rcu).regs() == with_enable(old(rcu).regs(), <periph::Crc as Enable>::enable_bus(), <periph::Crc as Enable>::enable_bit(), true),
            final(rcu).clocks() == old(rcu).clocks(),
    {
        <periph::Crc as Enable>::enable(rcu);
        let mut crc = crc;
        configure(&mut crc, 0b00, poly, config);
        Self { crc, _poly_size: PhantomData }
    }

    /// Feeds one 32-bit word into the running CRC.
    pub fn write_32bit(&mut self, data: u32)
        ensures
            final(self).regs() == (periph::Crc {
                fed: data,
                fed_width: 32,
                data: final(self).regs().data,
                ..old(self).regs()
            }),
    {
        self.feed(data, 32);
    }

    /// Reads the current accumulated CRC result.
    pub fn read_32bit(&self) -> (r: u32)
        ensures
            r == self.regs().data,
    {
        self.read()
    }

    /// Sets `IDATA` to `seed` and pulses `RST`, so the result reads back as
    /// `seed` until the next write.
    pub fn reset_with(&mut self, seed: u32)
        ensures
            final(self).regs() == (periph::Crc { idata: seed, data: seed, ..old(self).regs() }),
    {
        new_seed(&mut self.crc, seed);
    }
}

impl Crc<B16> {
    /// Enables the peripheral's clock and configures a 16-bit polynomial.
    pub fn new_16bit(rcu: &mut Rcu, crc: periph::Crc, poly: u16, config: CrcConfig) -> (r: Self)
        ensures
            r.regs() == configured(crc, 0b01, poly as u32, config),
            final(rcu).regs() == with_enable(old(rcu).regs(), <periph::Crc as Enable>::enable_bus(), <periph::Crc as Enable>::enable_bit(), true),
            final(rcu).clocks() == old(rcu).clocks(),
    {
        <periph::Crc as Enable>::enable(rcu);
        let mut crc = crc;
        configure(&mut crc, 0b01, poly as u32, config);
        Self { crc, _poly_size: PhantomData }
    }

    /// Feeds one 16-bit half-word into the running CRC.
    pub fn write_16bit(&mut self, data: u16)
        ensures
            final(self).regs() == (periph::Crc {
                fed: data as u32,
                fed_width: 16,
                data: final(self).regs().data,
                ..old(self).regs()
            }),
    {
        self.feed(data as u32, 16);
    }

    /// Reads the current accumulated CRC result, its low 16 bits.
    pub fn read_16bit(&self) -> (r: u16)
        ensures
            r == self.regs().data as u16,
    {
        self.read() as u16
    }

    /// Sets `IDATA` to `seed` and pulses `RST`, so the result reads back as
    /// `seed` until the next write.
    pub fn reset_with(&mut self, seed: u16)
        ensures
            final(self).regs() == (periph::Crc {
                idata: seed as u32,
                data: seed as u32,
                ..old(self).regs()
            }),
    {
        new_seed(&mut self.crc, seed as u32);
    }
}

impl Crc<B8> {
    /// Enables the peripheral's clock and configures an 8-bit polynomial.
    pub fn new_8bit(rcu: &mut Rcu, crc: periph::Crc, poly: u8, config: CrcConfig) -> (r: Self)
        ensures
            r.regs() == configured(crc, 0b10, poly as u32, config),
            final(rcu).regs() == with_enable(old(rcu).regs(), <periph::Crc as Enable>::enable_bus(), <periph::Crc as Enable>::enable_bit(), true),
            final(rcu).clocks() == old(rcu).clocks(),
    {
        <periph::Crc as Enable>::enable(rcu);
        let mut crc = crc;
        configure(&mut crc, 0b10, poly as u32, config);
        Self { crc, _poly_size: PhantomData }
    }

    /// Feeds one byte into the running CRC.
    pub fn write_8bit(&mut self, data: u8)
        ensures
            final(self).regs() == (periph::Crc {
                fed: data as u32,
                fed_width: 8,
                data: final(self).regs().data,
                ..old(self).regs()
            }),
    {
        self.feed(data as u32, 8);
    }

    /// Reads the current accumulated CRC result, its low 8 bits.
    pub fn read_8bit(&self) -> (r: u8)
        ensures
            r == self.regs().data as u8,
    {
        self.read() as u8
    }

    /// Sets `IDATA` to `seed` and pulses `RST`, so the result reads back as
    /// `seed` until the next write.
    pub fn reset_with(&mut self, seed: u8)
        ensures
            final(self).regs() == (periph::Crc {
                idata: seed as u32,
                data: seed as u32,
                ..old(self).regs()
            }),
    {
        new_seed(&mut self.crc, seed as u32);
    }
}

impl Crc<B7> {
    /// Enables the peripheral's clock and configures a 7-bit polynomial.
    pub fn new_7bit(rcu: &mut Rcu, crc: periph::Crc, poly: u8, config: CrcConfig) -> (r: Self)
        ensures
            r.regs() == configured(crc, 0b11, poly as u32, config),
            final(rcu).regs() == with_enable(old(rcu).regs(), <periph::Crc as Enable>::enable_bus(), <periph::Crc as Enable>::enable_bit(), true),
            final(rcu).clocks() == old(rcu).clocks(),
    {
        <periph::Crc as Enable>::enable(rcu);
        let mut crc = crc;
        configure(&mut crc, 0b11, poly as u32, config);
        Self { crc, _poly_size: PhantomData }
    }

    /// Feeds the low 7 bits of `data` into the running CRC; the top bit is
    /// ignored by the unit.
    pub fn write_7bit(&mut self, data: u8)
        ensures
            final(self).regs() == (periph::Crc {
                fed: data as u32,
                fed_width: 7,
                data: final(self).regs().data,
                ..old(self).regs()
            }),
    {
        self.feed(data as u32, 7);
    }

    /// Reads the current accumulated CRC result, in the low 7 bits.
    pub fn read_7bit(&self) -> (r: u8)
        ensures
            r == (self.regs().data as u8) & 0x7f,
            r < 0x80,
    {
        let raw = self.read() as u8;
        let v = raw & 0x7f;
        assert(v < 0x80) by (bit_vector)
            requires
                v == raw & 0x7f,
        ;
        v
    }

    /// Sets `IDATA` to `seed` and pulses `RST`, so the result reads back as
    /// `seed` until the next write.
    pub fn reset_with(&mut self, seed: u8)
        ensures
            final(self).regs() == (periph::Crc {
                idata: seed as u32,
                data: seed as u32,
                ..old(self).regs()
            }),
    {
        new_seed(&mut self.crc, seed as u32);
    }
}

/// The granularity, in bits, a `REV_I` code reverses the input within:
/// none for 0, then 8, 16 and 32 bits for 1, 2 and 3.
pub open spec fn reversal_bits_by_code(code: u32) -> nat {
    if code == 0 {
        0
    } else {
        vstd::arithmetic::power2::pow2((code + 2) as nat)
    }
}

/// The granularity, in bits, an input reversal works within.
pub open spec fn reversal_bits(r: ReverseInput) -> nat {
    match r {
        ReverseInput::Disabled => 0,
        ReverseInput::Byte => 8,
        ReverseInput::HalfWord => 16,
        ReverseInput::Word => 32,
    }
}

/// The `REV_I` code written for an input reversal makes the chip reverse
/// within exactly that granularity.
pub proof fn law_reverse_input_code(r: ReverseInput)
    ensures
        r.code() < 4,
        reversal_bits_by_code(r.code()) == reversal_bits(r),
{
    vstd::arithmetic::power2::lemma2_to64();
}

} // verus!
