//! Reset and clock unit: the system clock tree and per-peripheral clock gating.
//!
//! [`RcuExt::constrain`] hands out an [`UnfrozenRcu`], whose only method applies a
//! [`ClockConfig`] and turns it into the [`Rcu`] every driver takes. Freezing
//! writes the registers once and consumes the unfrozen value, so the tree is
//! configured exactly once and the resulting [`Clocks`] are read-only afterwards.
//!
//! Peripheral clocks are gated through the [`Enable`] trait, which drivers call
//! from their constructors. [`Reset`] is separate because not every peripheral
//! has a reset bit.
//!
//! `HXTAL` and `LXTAL` are not started — no crystal is fitted on the target board.

use vstd::prelude::*;

use crate::bits::{get_bit, get_field, put_bit, put_field, write_bit, write_field, lemma_put_field, field_fits};
use crate::fmc::{Fmc, ws_code, ws_max_hclk};
use crate::periph::{self, RcuReg};
use crate::time::Hertz;

verus! {

/// The internal 8 MHz oscillator.
pub const IRC8M: u32 = 8_000_000;
/// The internal 28 MHz oscillator dedicated to the ADC.
pub const IRC28M: u32 = 28_000_000;
/// The low-speed crystal.
pub const LXTAL: u32 = 32_768;
/// The PLL source, IRC8M halved.
pub const PLL_SRC: u32 = 4_000_000;
/// The internal 40 kHz oscillator.
pub const IRC40K: u32 = 40_000;

/// `CFG0` bit offsets and widths.
pub const CFG0_SCS: u32 = 0;
pub const CFG0_AHBPSC: u32 = 4;
pub const CFG0_APB1PSC: u32 = 8;
pub const CFG0_APB2PSC: u32 = 11;
pub const CFG0_ADCPSC: u32 = 14;
pub const CFG0_PLLSEL: u32 = 16;
pub const CFG0_PLLMF: u32 = 18;
pub const CFG0_CKOUTSEL: u32 = 24;
pub const CFG0_PLLMF_MSB: u32 = 27;
pub const CFG0_CKOUTDIV: u32 = 28;
pub const CFG0_PLLDV: u32 = 31;
/// `SCS` code selecting the PLL.
pub const SCS_PLL: u32 = 2;
/// `CTL0.PLLEN`.
pub const CTL0_PLLEN: u32 = 24;
/// `CTL1.IRC28MEN`.
pub const CTL1_IRC28MEN: u32 = 0;
/// `CFG2` fields.
pub const CFG2_USART0SEL: u32 = 0;
pub const CFG2_ADCSEL: u32 = 8;
pub const CFG2_IRC28MDIV: u32 = 16;
pub const CFG2_ADCPSC_MSB: u32 = 31;
/// `RSTSCK` fields.
pub const RSTSCK_IRC40KEN: u32 = 0;
pub const RSTSCK_RSTFC: u32 = 24;
/// The reset flags of `RSTSCK` with `RSTFC`, which clearing the flags drops.
pub const RSTSCK_FLAGS: u32 = 0xff80_0000;
/// `APB2EN.CFGCMPEN` and `APB2RST.CFGCMPRST`.
pub const APB2_CFGCMP: u32 = 0;

/// Target system clock produced by the PLL, in 4 MHz steps up to the 72 MHz limit.
///
/// Named by frequency rather than multiplier: the PLL source is fixed
/// (IRC8M/2 = 4 MHz), so the two map one-to-one.
#[derive(Clone, Copy, PartialEq, Eq, Structural)]
#[allow(missing_docs)]
pub enum PllFreq {
    Mhz8,
    Mhz12,
    Mhz16,
    Mhz20,
    Mhz24,
    Mhz28,
    Mhz32,
    Mhz36,
    Mhz40,
    Mhz44,
    Mhz48,
    Mhz52,
    Mhz56,
    Mhz60,
    Mhz64,
    Mhz68,
    Mhz72,
}

impl PllFreq {
    /// The frequency in hertz.
    pub open spec fn spec_hz(self) -> u32 {
        match self {
            PllFreq::Mhz8 => 8_000_000,
            PllFreq::Mhz12 => 12_000_000,
            PllFreq::Mhz16 => 16_000_000,
            PllFreq::Mhz20 => 20_000_000,
            PllFreq::Mhz24 => 24_000_000,
            PllFreq::Mhz28 => 28_000_000,
            PllFreq::Mhz32 => 32_000_000,
            PllFreq::Mhz36 => 36_000_000,
            PllFreq::Mhz40 => 40_000_000,
            PllFreq::Mhz44 => 44_000_000,
            PllFreq::Mhz48 => 48_000_000,
            PllFreq::Mhz52 => 52_000_000,
            PllFreq::Mhz56 => 56_000_000,
            PllFreq::Mhz60 => 60_000_000,
            PllFreq::Mhz64 => 64_000_000,
            PllFreq::Mhz68 => 68_000_000,
            PllFreq::Mhz72 => 72_000_000,
        }
    }

    /// The frequency in hertz.
    #[verifier::when_used_as_spec(spec_hz)]
    pub fn hz(self) -> (r: u32)
        ensures
            r == self.spec_hz(),
    {
        match self {
            PllFreq::Mhz8 => 8_000_000,
            PllFreq::Mhz12 => 12_000_000,
            PllFreq::Mhz16 => 16_000_000,
            PllFreq::Mhz20 => 20_000_000,
            PllFreq::Mhz24 => 24_000_000,
            PllFreq::Mhz28 => 28_000_000,
            PllFreq::Mhz32 => 32_000_000,
            PllFreq::Mhz36 => 36_000_000,
            PllFreq::Mhz40 => 40_000_000,
            PllFreq::Mhz44 => 44_000_000,
            PllFreq::Mhz48 => 48_000_000,
            PllFreq::Mhz52 => 52_000_000,
            PllFreq::Mhz56 => 56_000_000,
            PllFreq::Mhz60 => 60_000_000,
            PllFreq::Mhz64 => 64_000_000,
            PllFreq::Mhz68 => 68_000_000,
            PllFreq::Mhz72 => 72_000_000,
        }
    }
}

/// Source of the system clock.
///
/// [`Irc8m`](Self::Irc8m) means the reset state rather than a switch back to it:
/// [`freeze`](UnfrozenRcu::freeze) leaves `SCS` alone.
#[derive(Clone, Copy, PartialEq, Eq, Structural)]
pub enum SysClk {
    /// IRC8M straight through at 8 MHz, PLL off.
    Irc8m,
    /// The PLL, at the frequency it is asked for.
    Pll(PllFreq),
}

/// AHB prescaler: divides the system clock down to `hclk`.
#[derive(Clone, Copy, PartialEq, Eq, Structural)]
#[allow(missing_docs)]
pub enum AhbPsc {
    Div1,
    Div2,
    Div4,
    Div8,
    Div16,
    Div64,
    Div128,
    Div256,
    Div512,
}

impl AhbPsc {
    /// The divider.
    pub open spec fn divisor(self) -> u32 {
        match self {
            AhbPsc::Div1 => 1,
            AhbPsc::Div2 => 2,
            AhbPsc::Div4 => 4,
            AhbPsc::Div8 => 8,
            AhbPsc::Div16 => 16,
            AhbPsc::Div64 => 64,
            AhbPsc::Div128 => 128,
            AhbPsc::Div256 => 256,
            AhbPsc::Div512 => 512,
        }
    }

    /// The `AHBPSC` code of this divider.
    pub open spec fn code(self) -> u32 {
        match self {
            AhbPsc::Div1 => 0,
            AhbPsc::Div2 => 8,
            AhbPsc::Div4 => 9,
            AhbPsc::Div8 => 10,
            AhbPsc::Div16 => 11,
            AhbPsc::Div64 => 12,
            AhbPsc::Div128 => 13,
            AhbPsc::Div256 => 14,
            AhbPsc::Div512 => 15,
        }
    }

    /// The divider, as a number.
    #[verifier::when_used_as_spec(divisor)]
    pub fn div(self) -> (r: u32)
        ensures
            r == self.divisor(),
    {
        match self {
            AhbPsc::Div1 => 1,
            AhbPsc::Div2 => 2,
            AhbPsc::Div4 => 4,
            AhbPsc::Div8 => 8,
            AhbPsc::Div16 => 16,
            AhbPsc::Div64 => 64,
            AhbPsc::Div128 => 128,
            AhbPsc::Div256 => 256,
            AhbPsc::Div512 => 512,
        }
    }

    fn reg_code(self) -> (r: u32)
        ensures
            r == self.code(),
    {
        match self {
            AhbPsc::Div1 => 0,
            AhbPsc::Div2 => 8,
            AhbPsc::Div4 => 9,
            AhbPsc::Div8 => 10,
            AhbPsc::Div16 => 11,
            AhbPsc::Div64 => 12,
            AhbPsc::Div128 => 13,
            AhbPsc::Div256 => 14,
            AhbPsc::Div512 => 15,
        }
    }
}

/// APB prescaler: divides `hclk` down to `pclk1` (APB1) or `pclk2` (APB2).
#[derive(Clone, Copy, PartialEq, Eq, Structural)]
#[allow(missing_docs)]
pub enum ApbPsc {
    Div1,
    Div2,
    Div4,
    Div8,
    Div16,
}

impl ApbPsc {
    /// The divider.
    pub open spec fn divisor(self) -> u32 {
        match self {
            ApbPsc::Div1 => 1,
            ApbPsc::Div2 => 2,
            ApbPsc::Div4 => 4,
            ApbPsc::Div8 => 8,
            ApbPsc::Div16 => 16,
        }
    }

    /// The `APBxPSC` code of this divider.
    pub open spec fn code(self) -> u32 {
        match self {
            ApbPsc::Div1 => 0,
            ApbPsc::Div2 => 4,
            ApbPsc::Div4 => 5,
            ApbPsc::Div8 => 6,
            ApbPsc::Div16 => 7,
        }
    }

    /// The divider, as a number.
    #[verifier::when_used_as_spec(divisor)]
    pub fn div(self) -> (r: u32)
        ensures
            r == self.divisor(),
    {
        match self {
            ApbPsc::Div1 => 1,
            ApbPsc::Div2 => 2,
            ApbPsc::Div4 => 4,
            ApbPsc::Div8 => 8,
            ApbPsc::Div16 => 16,
        }
    }

    fn reg_code(self) -> (r: u32)
        ensures
            r == self.code(),
    {
        match self {
            ApbPsc::Div1 => 0,
            ApbPsc::Div2 => 4,
            ApbPsc::Div4 => 5,
            ApbPsc::Div8 => 6,
            ApbPsc::Div16 => 7,
        }
    }
}

/// Divider for the prescaled `CK_ADC` branch, including which bus it taps.
#[derive(Clone, Copy, PartialEq, Eq, Structural)]
#[allow(missing_docs)]
pub enum AdcPsc {
    Apb2Div2,
    Apb2Div4,
    Apb2Div6,
    Apb2Div8,
    AhbDiv3,
    AhbDiv5,
    AhbDiv7,
    AhbDiv9,
}

impl AdcPsc {
    /// The two low bits of the `ADCPSC` code, in `CFG0`.
    pub open spec fn low_code(self) -> u32 {
        match self {
            AdcPsc::Apb2Div2 | AdcPsc::AhbDiv3 => 0,
            AdcPsc::Apb2Div4 | AdcPsc::AhbDiv5 => 1,
            AdcPsc::Apb2Div6 | AdcPsc::AhbDiv7 => 2,
            AdcPsc::Apb2Div8 | AdcPsc::AhbDiv9 => 3,
        }
    }

    /// The top bit of the `ADCPSC` code, in `CFG2`: set for the AHB taps.
    pub open spec fn from_ahb(self) -> bool {
        match self {
            AdcPsc::AhbDiv3 | AdcPsc::AhbDiv5 | AdcPsc::AhbDiv7 | AdcPsc::AhbDiv9 => true,
            _ => false,
        }
    }

    /// The divider applied to the bus it taps.
    pub open spec fn divisor(self) -> u32 {
        match self {
            AdcPsc::Apb2Div2 => 2,
            AdcPsc::Apb2Div4 => 4,
            AdcPsc::Apb2Div6 => 6,
            AdcPsc::Apb2Div8 => 8,
            AdcPsc::AhbDiv3 => 3,
            AdcPsc::AhbDiv5 => 5,
            AdcPsc::AhbDiv7 => 7,
            AdcPsc::AhbDiv9 => 9,
        }
    }
}

/// Divider on the internal 28 MHz oscillator feeding `CK_ADC`.
#[derive(Clone, Copy, PartialEq, Eq, Structural)]
#[allow(missing_docs)]
pub enum Irc28mDiv {
    Div1,
    Div2,
}

/// Source of the ADC clock.
#[derive(Clone, Copy, PartialEq, Eq, Structural)]
pub enum AdcSel {
    /// Left as the reset state: `CK_ADC` is 0 Hz and [`Clocks::ck_adc`] reads zero.
    Off,
    /// The dedicated internal 28 MHz oscillator, which [`UnfrozenRcu::freeze`] starts.
    Irc28m(Irc28mDiv),
    /// A prescaled tap off APB2 or AHB.
    Prescaled(AdcPsc),
}

/// Source of the USART0 clock, independent of the APB2 bus clock.
#[derive(Clone, Copy, PartialEq, Eq, Structural)]
pub enum Usart0Sel {
    /// The APB2 bus clock — the reset default.
    Apb2,
    /// The system clock, unaffected by the bus prescalers.
    Sysclk,
    /// The 32.768 kHz crystal, which this crate does not start.
    Lxtal,
    /// The internal 8 MHz RC oscillator, independent of the system clock.
    Irc8m,
}

impl Usart0Sel {
    /// The `USART0SEL` code.
    pub open spec fn code(self) -> u32 {
        match self {
            Usart0Sel::Apb2 => 0,
            Usart0Sel::Sysclk => 1,
            Usart0Sel::Lxtal => 2,
            Usart0Sel::Irc8m => 3,
        }
    }
}

/// Frozen clock frequencies, produced by [`UnfrozenRcu::freeze`].
///
/// There are no setters — once frozen, the tree matches what was actually
/// written to the registers.
#[derive(Clone, Copy, PartialEq, Eq, Structural)]
pub struct Clocks {
    hclk: Hertz,
    pclk1: Hertz,
    pclk2: Hertz,
    sysclk: Hertz,
    usart0: Hertz,
    ck_adc: Hertz,
    pclk1_tim: Hertz,
    pclk2_tim: Hertz,
}

impl Clocks {
    pub closed spec fn spec_hclk(&self) -> Hertz {
        self.hclk
    }

    pub closed spec fn spec_pclk1(&self) -> Hertz {
        self.pclk1
    }

    pub closed spec fn spec_pclk2(&self) -> Hertz {
        self.pclk2
    }

    pub closed spec fn spec_sysclk(&self) -> Hertz {
        self.sysclk
    }

    pub closed spec fn spec_usart0(&self) -> Hertz {
        self.usart0
    }

    pub closed spec fn spec_ck_adc(&self) -> Hertz {
        self.ck_adc
    }

    pub closed spec fn spec_pclk1_tim(&self) -> Hertz {
        self.pclk1_tim
    }

    pub closed spec fn spec_pclk2_tim(&self) -> Hertz {
        self.pclk2_tim
    }

    /// AHB clock, which also clocks the core.
    #[verifier::when_used_as_spec(spec_hclk)]
    pub fn hclk(&self) -> (r: Hertz)
        ensures
            r == self.spec_hclk(),
    {
        self.hclk
    }

    /// APB1 bus clock.
    #[verifier::when_used_as_spec(spec_pclk1)]
    pub fn pclk1(&self) -> (r: Hertz)
        ensures
            r == self.spec_pclk1(),
    {
        self.pclk1
    }

    /// APB2 bus clock.
    #[verifier::when_used_as_spec(spec_pclk2)]
    pub fn pclk2(&self) -> (r: Hertz)
        ensures
            r == self.spec_pclk2(),
    {
        self.pclk2
    }

    /// System clock, before the AHB prescaler.
    #[verifier::when_used_as_spec(spec_sysclk)]
    pub fn sysclk(&self) -> (r: Hertz)
        ensures
            r == self.spec_sysclk(),
    {
        self.sysclk
    }

    /// Clock actually feeding USART0, per [`Usart0Sel`].
    #[verifier::when_used_as_spec(spec_usart0)]
    pub fn usart0(&self) -> (r: Hertz)
        ensures
            r == self.spec_usart0(),
    {
        self.usart0
    }

    /// Clock feeding the ADC. Zero while [`AdcSel::Off`] stands.
    #[verifier::when_used_as_spec(spec_ck_adc)]
    pub fn ck_adc(&self) -> (r: Hertz)
        ensures
            r == self.spec_ck_adc(),
    {
        self.ck_adc
    }

    /// Clock feeding the timers on APB1.
    ///
    /// Equal to [`pclk1`](Self::pclk1) only when the APB1 prescaler is
    /// [`ApbPsc::Div1`]; on every other divider the timers are fed twice the
    /// bus clock.
    #[verifier::when_used_as_spec(spec_pclk1_tim)]
    pub fn pclk1_tim(&self) -> (r: Hertz)
        ensures
            r == self.spec_pclk1_tim(),
    {
        self.pclk1_tim
    }

    /// Clock feeding the timers on APB2; same doubling rule as
    /// [`pclk1_tim`](Self::pclk1_tim).
    #[verifier::when_used_as_spec(spec_pclk2_tim)]
    pub fn pclk2_tim(&self) -> (r: Hertz)
        ensures
            r == self.spec_pclk2_tim(),
    {
        self.pclk2_tim
    }
}

/// Builder for the clock tree, applied by [`freeze`](UnfrozenRcu::freeze).
///
/// [`Default`] holds the reset state — undivided buses, IRC8M as the system
/// clock, USART0 on APB2 and no ADC clock.
#[derive(Clone, Copy, PartialEq, Eq, Structural)]
pub struct ClockConfig {
    hclk: AhbPsc,
    pclk1: ApbPsc,
    pclk2: ApbPsc,
    sysclk: SysClk,
    usart0_sel: Usart0Sel,
    adc_sel: AdcSel,
}

impl Default for ClockConfig {
    fn default() -> (r: Self)
        ensures
            r.ahb_psc() == AhbPsc::Div1,
            r.apb1_psc() == ApbPsc::Div1,
            r.apb2_psc() == ApbPsc::Div1,
            r.sys_src() == SysClk::Irc8m,
            r.usart0_src() == Usart0Sel::Apb2,
            r.adc_src() == AdcSel::Off,
    {
        Self {
            hclk: AhbPsc::Div1,
            pclk1: ApbPsc::Div1,
            pclk2: ApbPsc::Div1,
            sysclk: SysClk::Irc8m,
            usart0_sel: Usart0Sel::Apb2,
            adc_sel: AdcSel::Off,
        }
    }
}

/// The PLL multiplier that produces `f` from the 4 MHz source.
pub open spec fn pll_mul_of(f: PllFreq) -> u32 {
    f.spec_hz() / PLL_SRC
}

/// The `PLLMF` field that selects multiplier `mul`, 2 to 18.
pub open spec fn pllmf_field(mul: u32) -> u32 {
    if mul <= 16 {
        (mul - 2) as u32
    } else {
        (mul - 17) as u32
    }
}

/// The `PLLMF_MSB` bit that selects multiplier `mul`: it adds 15.
pub open spec fn pllmf_msb(mul: u32) -> bool {
    mul > 16
}

/// The multiplier a `PLLMF` field and its top bit select.
pub open spec fn pll_mul_decoded(field: u32, msb: bool) -> u32 {
    (field + 2 + if msb {
        15u32
    } else {
        0u32
    }) as u32
}

impl ClockConfig {
    /// The AHB prescaler.
    pub closed spec fn ahb_psc(self) -> AhbPsc {
        self.hclk
    }

    /// The APB1 prescaler.
    pub closed spec fn apb1_psc(self) -> ApbPsc {
        self.pclk1
    }

    /// The APB2 prescaler.
    pub closed spec fn apb2_psc(self) -> ApbPsc {
        self.pclk2
    }

    /// The system clock source.
    pub closed spec fn sys_src(self) -> SysClk {
        self.sysclk
    }

    /// The USART0 clock source.
    pub closed spec fn usart0_src(self) -> Usart0Sel {
        self.usart0_sel
    }

    /// The ADC clock source.
    pub closed spec fn adc_src(self) -> AdcSel {
        self.adc_sel
    }

    fn pll_mul(desired: PllFreq) -> (r: u32)
        ensures
            r == pll_mul_of(desired),
            2 <= r <= 18,
            r * PLL_SRC == desired.spec_hz(),
    {
        desired.hz() / PLL_SRC
    }

    /// Sets the AHB prescaler, dividing `sysclk` down to `hclk`.
    pub fn hclk(self, psc: AhbPsc) -> (r: Self)
        ensures
            r.ahb_psc() == psc,
            r.apb1_psc() == self.apb1_psc(),
            r.apb2_psc() == self.apb2_psc(),
            r.sys_src() == self.sys_src(),
            r.usart0_src() == self.usart0_src(),
            r.adc_src() == self.adc_src(),
    {
        Self { hclk: psc, ..self }
    }

    /// Sets the APB1 prescaler, dividing `hclk` down to `pclk1`.
    pub fn pclk1(self, psc: ApbPsc) -> (r: Self)
        ensures
            r.ahb_psc() == self.ahb_psc(),
            r.apb1_psc() == psc,
            r.apb2_psc() == self.apb2_psc(),
            r.sys_src() == self.sys_src(),
            r.usart0_src() == self.usart0_src(),
            r.adc_src() == self.adc_src(),
    {
        Self { pclk1: psc, ..self }
    }

    /// Sets the APB2 prescaler, dividing `hclk` down to `pclk2`.
    pub fn pclk2(self, psc: ApbPsc) -> (r: Self)
        ensures
            r.ahb_psc() == self.ahb_psc(),
            r.apb1_psc() == self.apb1_psc(),
            r.apb2_psc() == psc,
            r.sys_src() == self.sys_src(),
            r.usart0_src() == self.usart0_src(),
            r.adc_src() == self.adc_src(),
    {
        Self { pclk2: psc, ..self }
    }

    /// Picks the system clock source.
    pub fn sysclk(self, src: SysClk) -> (r: Self)
        ensures
            r.ahb_psc() == self.ahb_psc(),
            r.apb1_psc() == self.apb1_psc(),
            r.apb2_psc() == self.apb2_psc(),
            r.sys_src() == src,
            r.usart0_src() == self.usart0_src(),
            r.adc_src() == self.adc_src(),
    {
        Self { sysclk: src, ..self }
    }

    /// Picks the USART0 clock source.
    pub fn usart0_sel(self, src: Usart0Sel) -> (r: Self)
        ensures
            r.ahb_psc() == self.ahb_psc(),
            r.apb1_psc() == self.apb1_psc(),
            r.apb2_psc() == self.apb2_psc(),
            r.sys_src() == self.sys_src(),
            r.usart0_src() == src,
            r.adc_src() == self.adc_src(),
    {
        Self { usart0_sel: src, ..self }
    }

    /// Picks the ADC clock source and starts it if needed.
    pub fn adc_sel(self, sel: AdcSel) -> (r: Self)
        ensures
            r.ahb_psc() == self.ahb_psc(),
            r.apb1_psc() == self.apb1_psc(),
            r.apb2_psc() == self.apb2_psc(),
            r.sys_src() == self.sys_src(),
            r.usart0_src() == self.usart0_src(),
            r.adc_src() == sel,
    {
        Self { adc_sel: sel, ..self }
    }
}

/// The system clock, in hertz, that `c` selects.
pub open spec fn sysclk_of(c: ClockConfig) -> u32 {
    match c.sys_src() {
        SysClk::Irc8m => IRC8M,
        SysClk::Pll(f) => f.spec_hz(),
    }
}

/// The AHB clock that `c` produces.
pub open spec fn hclk_of(c: ClockConfig) -> u32 {
    (sysclk_of(c) / c.ahb_psc().divisor()) as u32
}

/// The APB1 clock that `c` produces.
pub open spec fn pclk1_of(c: ClockConfig) -> u32 {
    (hclk_of(c) / c.apb1_psc().divisor()) as u32
}

/// The APB2 clock that `c` produces.
pub open spec fn pclk2_of(c: ClockConfig) -> u32 {
    (hclk_of(c) / c.apb2_psc().divisor()) as u32
}

/// The USART0 clock that `c` produces.
pub open spec fn usart0_of(c: ClockConfig) -> u32 {
    match c.usart0_src() {
        Usart0Sel::Apb2 => pclk2_of(c),
        Usart0Sel::Sysclk => sysclk_of(c),
        Usart0Sel::Lxtal => LXTAL,
        Usart0Sel::Irc8m => IRC8M,
    }
}

/// The ADC clock that `c` produces.
pub open spec fn ck_adc_of(c: ClockConfig) -> u32 {
    adc_hz(c.adc_src(), hclk_of(c), pclk2_of(c))
}

/// The timer clock behind an APB prescaler: the bus clock itself when
/// undivided, twice the bus clock otherwise.
pub open spec fn timer_clock(hclk: u32, psc: ApbPsc) -> u32 {
    if psc == ApbPsc::Div1 {
        hclk
    } else {
        (hclk / (psc.divisor() / 2)) as u32
    }
}

/// The frequencies of the tree that `c` configures.
pub closed spec fn clocks_of(c: ClockConfig) -> Clocks {
    Clocks {
        hclk: Hertz::spec_from_raw(hclk_of(c)),
        pclk1: Hertz::spec_from_raw(pclk1_of(c)),
        pclk2: Hertz::spec_from_raw(pclk2_of(c)),
        sysclk: Hertz::spec_from_raw(sysclk_of(c)),
        usart0: Hertz::spec_from_raw(usart0_of(c)),
        ck_adc: Hertz::spec_from_raw(ck_adc_of(c)),
        pclk1_tim: Hertz::spec_from_raw(timer_clock(hclk_of(c), c.pclk1)),
        pclk2_tim: Hertz::spec_from_raw(timer_clock(hclk_of(c), c.pclk2)),
    }
}

/// `CFG0` once the PLL is programmed for `f`: source IRC8M/2, multiplier split
/// across `PLLMF` and `PLLMF_MSB`.
pub open spec fn cfg0_with_pll(cfg0: u32, f: PllFreq) -> u32 {
    let mul = pll_mul_of(f);
    put_bit(
        put_field(put_bit(cfg0, CFG0_PLLSEL, false), CFG0_PLLMF, 0xf, pllmf_field(mul)),
        CFG0_PLLMF_MSB,
        pllmf_msb(mul),
    )
}

/// `CFG0` once the prescalers are written, and `SCS` switched to the PLL when
/// the PLL is the source; `SCS` is left alone otherwise.
pub open spec fn cfg0_with_prescalers(cfg0: u32, c: ClockConfig) -> u32 {
    let w = put_field(
        put_field(put_field(cfg0, CFG0_AHBPSC, 0xf, c.ahb_psc().code()), CFG0_APB1PSC, 7, c.apb1_psc().code()),
        CFG0_APB2PSC,
        7,
        c.apb2_psc().code(),
    );
    match c.sys_src() {
        SysClk::Pll(_) => put_field(w, CFG0_SCS, 3, SCS_PLL),
        SysClk::Irc8m => w,
    }
}

/// The RCU registers once `v` is written into `reg`: that register holds it,
/// and the write joins the log.
pub open spec fn logged(r: periph::Rcu, reg: RcuReg, v: u32) -> periph::Rcu {
    let l = Ghost(r.log@.push((reg, v)));
    match reg {
        RcuReg::Ctl0 => periph::Rcu { ctl0: v, log: l, ..r },
        RcuReg::Ctl1 => periph::Rcu { ctl1: v, log: l, ..r },
        RcuReg::Cfg0 => periph::Rcu { cfg0: v, log: l, ..r },
        RcuReg::Cfg2 => periph::Rcu { cfg2: v, log: l, ..r },
        RcuReg::Rstsck => periph::Rcu { rstsck: v, log: l, ..r },
        RcuReg::Ahben => periph::Rcu { ahben: v, log: l, ..r },
        RcuReg::Apb1en => periph::Rcu { apb1en: v, log: l, ..r },
        RcuReg::Apb2en => periph::Rcu { apb2en: v, log: l, ..r },
        RcuReg::Ahbrst => periph::Rcu { ahbrst: v, log: l, ..r },
        RcuReg::Apb1rst => periph::Rcu { apb1rst: v, log: l, ..r },
        RcuReg::Apb2rst => periph::Rcu { apb2rst: v, log: l, ..r },
    }
}

/// Writes `v` into `reg`.
fn write_reg(rcu: &mut periph::Rcu, reg: RcuReg, v: u32)
    ensures
        *final(rcu) == logged(*old(rcu), reg, v),
{
    match reg {
        RcuReg::Ctl0 => rcu.ctl0 = v,
        RcuReg::Ctl1 => rcu.ctl1 = v,
        RcuReg::Cfg0 => rcu.cfg0 = v,
        RcuReg::Cfg2 => rcu.cfg2 = v,
        RcuReg::Rstsck => rcu.rstsck = v,
        RcuReg::Ahben => rcu.ahben = v,
        RcuReg::Apb1en => rcu.apb1en = v,
        RcuReg::Apb2en => rcu.apb2en = v,
        RcuReg::Ahbrst => rcu.ahbrst = v,
        RcuReg::Apb1rst => rcu.apb1rst = v,
        RcuReg::Apb2rst => rcu.apb2rst = v,
    }
    rcu.log = Ghost(rcu.log@.push((reg, v)));
}

/// The RCU registers once the PLL is programmed (`CFG0`) and then enabled
/// (`PLLEN`) for `src`; the registers are untouched when IRC8M is the source.
pub open spec fn with_pll(r: periph::Rcu, src: SysClk) -> periph::Rcu {
    match src {
        SysClk::Pll(f) => logged(
            logged(r, RcuReg::Cfg0, cfg0_with_pll(r.cfg0, f)),
            RcuReg::Ctl0,
            put_bit(r.ctl0, CTL0_PLLEN, true),
        ),
        SysClk::Irc8m => r,
    }
}

/// The RCU registers once `USART0SEL` selects `sel`.
pub open spec fn with_usart0(r: periph::Rcu, sel: Usart0Sel) -> periph::Rcu {
    logged(r, RcuReg::Cfg2, put_field(r.cfg2, CFG2_USART0SEL, 3, sel.code()))
}

/// The RCU registers once the ADC clock is set up for `sel`: IRC28M started
/// with its divider and selected, or the prescaler code split across `CFG0`
/// and `CFG2` and the prescaled branch selected; untouched when off.
pub open spec fn with_adc(r: periph::Rcu, sel: AdcSel) -> periph::Rcu {
    match sel {
        AdcSel::Off => r,
        AdcSel::Irc28m(div) => logged(
            logged(r, RcuReg::Ctl1, put_bit(r.ctl1, CTL1_IRC28MEN, true)),
            RcuReg::Cfg2,
            put_bit(put_bit(r.cfg2, CFG2_IRC28MDIV, div == Irc28mDiv::Div1), CFG2_ADCSEL, false),
        ),
        AdcSel::Prescaled(psc) => logged(
            logged(r, RcuReg::Cfg0, put_field(r.cfg0, CFG0_ADCPSC, 3, psc.low_code())),
            RcuReg::Cfg2,
            put_bit(put_bit(r.cfg2, CFG2_ADCPSC_MSB, psc.from_ahb()), CFG2_ADCSEL, true),
        ),
    }
}

/// The frequency of `CK_ADC` for `sel`, given the AHB and APB2 clocks.
pub open spec fn adc_hz(sel: AdcSel, hclk: u32, pclk2: u32) -> u32 {
    match sel {
        AdcSel::Off => 0,
        AdcSel::Irc28m(Irc28mDiv::Div1) => IRC28M,
        AdcSel::Irc28m(Irc28mDiv::Div2) => (IRC28M / 2) as u32,
        AdcSel::Prescaled(psc) => if psc.from_ahb() {
            (hclk / psc.divisor()) as u32
        } else {
            (pclk2 / psc.divisor()) as u32
        },
    }
}

/// The RCU registers after [`UnfrozenRcu::freeze`]: the PLL, then the USART0
/// source, then the ADC clock, then the prescalers and `SCS`. Nothing else
/// changes.
pub open spec fn freeze_regs(r: periph::Rcu, c: ClockConfig) -> periph::Rcu {
    let r1 = with_adc(with_usart0(with_pll(r, c.sys_src()), c.usart0_src()), c.adc_src());
    logged(r1, RcuReg::Cfg0, cfg0_with_prescalers(r1.cfg0, c))
}

/// The RCU before its clock tree is frozen, handed out by [`RcuExt::constrain`].
pub struct UnfrozenRcu {
    rcu: periph::Rcu,
}

impl UnfrozenRcu {
    /// The registers.
    pub closed spec fn regs(&self) -> periph::Rcu {
        self.rcu
    }

    /// Applies `config` and hands back the RCU at the resulting frequencies.
    ///
    /// Flash wait states are set from the new `hclk` before the system clock
    /// switches over, so the flash is never read faster than it can respond.
    /// The waits for `PLLSTB` and `IRC28MSTB` are the silicon's: on the chip
    /// they stand between the writes, here only what is written is recorded.
    pub fn freeze(self, fmc: &mut Fmc, config: ClockConfig) -> (r: Rcu)
        ensures
            r.clocks() == clocks_of(config),
            r.regs() == freeze_regs(self.regs(), config),
            r.clocks().spec_sysclk().hz() == sysclk_of(config),
            r.clocks().spec_hclk().hz() == hclk_of(config),
            r.clocks().spec_pclk1().hz() == pclk1_of(config),
            r.clocks().spec_pclk2().hz() == pclk2_of(config),
            r.clocks().spec_usart0().hz() == usart0_of(config),
            r.clocks().spec_ck_adc().hz() == ck_adc_of(config),
            r.clocks().spec_pclk1_tim().hz() == timer_clock(hclk_of(config), config.apb1_psc()),
            r.clocks().spec_pclk2_tim().hz() == timer_clock(hclk_of(config), config.apb2_psc()),
            final(fmc).regs().ws == put_field(
                old(fmc).regs().ws,
                0,
                7,
                ws_code(hclk_of(config)),
            ),
            hclk_of(config) <= ws_max_hclk(ws_code(hclk_of(config))),
            final(fmc).regs() == (periph::Fmc { ws: final(fmc).regs().ws, ..old(fmc).regs() }),
    {
        let mut rcu = self.rcu;
        let sysclk: u32 = match config.sysclk {
            SysClk::Irc8m => IRC8M,
            SysClk::Pll(desired) => {
                program_pll(&mut rcu, desired);
                desired.hz()
            },
        };

        let ahb_psc = config.hclk;
        let hclk = sysclk / ahb_psc.div();
        let apb1_psc = config.pclk1;
        let pclk1 = hclk / apb1_psc.div();
        let apb2_psc = config.pclk2;
        let pclk2 = hclk / apb2_psc.div();

        let usart0_sel = config.usart0_sel;
        let usart0: u32 = match usart0_sel {
            Usart0Sel::Apb2 => pclk2,
            Usart0Sel::Sysclk => sysclk,
            Usart0Sel::Lxtal => LXTAL,
            Usart0Sel::Irc8m => IRC8M,
        };
        let sel_code: u32 = match usart0_sel {
            Usart0Sel::Apb2 => 0,
            Usart0Sel::Sysclk => 1,
            Usart0Sel::Lxtal => 2,
            Usart0Sel::Irc8m => 3,
        };
        let w = write_field(rcu.cfg2, CFG2_USART0SEL, 3, sel_code);
        write_reg(&mut rcu, RcuReg::Cfg2, w);

        let ck_adc = program_adc(&mut rcu, config.adc_sel, hclk, pclk2);

        fmc.set_ws(hclk);
        proof {
            assert(field_fits(0, 7)) by (bit_vector);
            lemma_put_field(old(fmc).regs().ws, crate::fmc::WS_WSCNT, 7, ws_code(hclk as u32));
            let code = ws_code(hclk as u32);
            assert(code <= 2);
            assert(code <= 2 ==> code & 7 == code) by (bit_vector);
            assert(hclk <= ws_max_hclk(ws_code(hclk as u32)));
        }
        switch_clocks(&mut rcu, fmc, config, hclk);
        let clocks = Clocks {
            hclk: Hertz::from_raw(hclk),
            pclk1: Hertz::from_raw(pclk1),
            pclk2: Hertz::from_raw(pclk2),
            sysclk: Hertz::from_raw(sysclk),
            usart0: Hertz::from_raw(usart0),
            ck_adc: Hertz::from_raw(ck_adc),
            pclk1_tim: Hertz::from_raw(
                match apb1_psc {
                    ApbPsc::Div1 => hclk,
                    _ => hclk / (apb1_psc.div() / 2),
                },
            ),
            pclk2_tim: Hertz::from_raw(
                match apb2_psc {
                    ApbPsc::Div1 => hclk,
                    _ => hclk / (apb2_psc.div() / 2),
                },
            ),
        };
        proof {
            law_clocks_of(config);
        }
        Rcu { rcu, clocks }
    }
}

/// Writes the prescalers into `CFG0` and, for the PLL, switches `SCS` over to
/// it. Only once the flash waits long enough for the new `hclk`: the wait
/// states are written first.
fn switch_clocks(rcu: &mut periph::Rcu, fmc: &Fmc, config: ClockConfig, hclk: u32)
    requires
        hclk == hclk_of(config),
        hclk <= ws_max_hclk(get_field(fmc.regs().ws, crate::fmc::WS_WSCNT, 7)),
    ensures
        *final(rcu) == logged(*old(rcu), RcuReg::Cfg0, cfg0_with_prescalers(old(rcu).cfg0, config)),
{
    let w = write_field(rcu.cfg0, CFG0_AHBPSC, 0xf, config.hclk.reg_code());
    let w = write_field(w, CFG0_APB1PSC, 7, config.pclk1.reg_code());
    let w = write_field(w, CFG0_APB2PSC, 7, config.pclk2.reg_code());
    let w = match config.sysclk {
        SysClk::Pll(_) => write_field(w, CFG0_SCS, 3, SCS_PLL),
        // SCS is left alone: switching down after the wait states were
        // set for a higher hclk would read the flash too fast.
        SysClk::Irc8m => w,
    };
    write_reg(rcu, RcuReg::Cfg0, w);
}

/// Programs the PLL for `desired` from IRC8M/2 and enables it.
fn program_pll(rcu: &mut periph::Rcu, desired: PllFreq)
    ensures
        *final(rcu) == with_pll(*old(rcu), SysClk::Pll(desired)),
{
    let mul = ClockConfig::pll_mul(desired);
    let field: u32 = if mul <= 16 {
        mul - 2
    } else {
        mul - 17
    };
    let w = write_bit(rcu.cfg0, CFG0_PLLSEL, false);
    let w = write_field(w, CFG0_PLLMF, 0xf, field);
    let w = write_bit(w, CFG0_PLLMF_MSB, mul > 16);
    write_reg(rcu, RcuReg::Cfg0, w);
    let w = write_bit(rcu.ctl0, CTL0_PLLEN, true);
    write_reg(rcu, RcuReg::Ctl0, w);
}

/// Sets up the ADC clock for `sel` and returns its frequency.
fn program_adc(rcu: &mut periph::Rcu, sel: AdcSel, hclk: u32, pclk2: u32) -> (r: u32)
    ensures
        *final(rcu) == with_adc(*old(rcu), sel),
        r == adc_hz(sel, hclk, pclk2),
{
    match sel {
        AdcSel::Off => 0,
        AdcSel::Irc28m(div) => {
            let w = write_bit(rcu.ctl1, CTL1_IRC28MEN, true);
            write_reg(rcu, RcuReg::Ctl1, w);
            let w = match div {
                Irc28mDiv::Div1 => write_bit(rcu.cfg2, CFG2_IRC28MDIV, true),
                Irc28mDiv::Div2 => write_bit(rcu.cfg2, CFG2_IRC28MDIV, false),
            };
            let w = write_bit(w, CFG2_ADCSEL, false);
            write_reg(rcu, RcuReg::Cfg2, w);
            match div {
                Irc28mDiv::Div1 => IRC28M,
                Irc28mDiv::Div2 => IRC28M / 2,
            }
        },
        AdcSel::Prescaled(psc) => {
            let low: u32 = match psc {
                AdcPsc::Apb2Div2 | AdcPsc::AhbDiv3 => 0,
                AdcPsc::Apb2Div4 | AdcPsc::AhbDiv5 => 1,
                AdcPsc::Apb2Div6 | AdcPsc::AhbDiv7 => 2,
                AdcPsc::Apb2Div8 | AdcPsc::AhbDiv9 => 3,
            };
            let w = write_field(rcu.cfg0, CFG0_ADCPSC, 3, low);
            write_reg(rcu, RcuReg::Cfg0, w);
            let w = match psc {
                AdcPsc::Apb2Div2 | AdcPsc::Apb2Div4 | AdcPsc::Apb2Div6 | AdcPsc::Apb2Div8 => {
                    write_bit(rcu.cfg2, CFG2_ADCPSC_MSB, false)
                },
                AdcPsc::AhbDiv3 | AdcPsc::AhbDiv5 | AdcPsc::AhbDiv7 | AdcPsc::AhbDiv9 => {
                    write_bit(rcu.cfg2, CFG2_ADCPSC_MSB, true)
                },
            };
            let w = write_bit(w, CFG2_ADCSEL, true);
            write_reg(rcu, RcuReg::Cfg2, w);
            match psc {
                AdcPsc::Apb2Div2 => pclk2 / 2,
                AdcPsc::Apb2Div4 => pclk2 / 4,
                AdcPsc::Apb2Div6 => pclk2 / 6,
                AdcPsc::Apb2Div8 => pclk2 / 8,
                AdcPsc::AhbDiv3 => hclk / 3,
                AdcPsc::AhbDiv5 => hclk / 5,
                AdcPsc::AhbDiv7 => hclk / 7,
                AdcPsc::AhbDiv9 => hclk / 9,
            }
        },
    }
}

/// Divider on the PLL branch feeding `CK_OUT`, ahead of the source multiplexer.
#[derive(Clone, Copy, PartialEq, Eq, Structural)]
#[allow(missing_docs)]
pub enum PllDiv {
    Div1,
    Div2,
}

/// Clock node to route out on the `CK_OUT` pin.
#[derive(Clone, Copy, PartialEq, Eq, Structural)]
pub enum CkOutSrc {
    /// Nothing driven out.
    Off,
    /// The internal RC oscillator dedicated to the ADC.
    Irc14m,
    /// The internal low-speed RC oscillator.
    Lsi40k,
    /// The external low-speed crystal.
    Lxtal,
    /// The system clock.
    Sysclk,
    /// The internal 8 MHz RC oscillator.
    Irc8m,
    /// The external high-speed crystal.
    Hxtal,
    /// The PLL output, through its own divider.
    Pll(PllDiv),
}

impl CkOutSrc {
    /// The `CKOUTSEL` code.
    pub open spec fn code(self) -> u32 {
        match self {
            CkOutSrc::Off => 0,
            CkOutSrc::Irc14m => 1,
            CkOutSrc::Lsi40k => 2,
            CkOutSrc::Lxtal => 3,
            CkOutSrc::Sysclk => 4,
            CkOutSrc::Irc8m => 5,
            CkOutSrc::Hxtal => 6,
            CkOutSrc::Pll(_) => 7,
        }
    }
}

/// Divider applied to `CK_OUT` after the source multiplexer, for any source.
#[derive(Clone, Copy, PartialEq, Eq, Structural)]
#[allow(missing_docs)]
pub enum CkOutDiv {
    Div1,
    Div2,
    Div4,
    Div8,
    Div16,
    Div32,
    Div64,
    Div128,
}

impl CkOutDiv {
    /// The `CKOUTDIV` code: the power of two divided by.
    pub open spec fn code(self) -> u32 {
        match self {
            CkOutDiv::Div1 => 0,
            CkOutDiv::Div2 => 1,
            CkOutDiv::Div4 => 2,
            CkOutDiv::Div8 => 3,
            CkOutDiv::Div16 => 4,
            CkOutDiv::Div32 => 5,
            CkOutDiv::Div64 => 6,
            CkOutDiv::Div128 => 7,
        }
    }
}

/// `CFG0` once `CK_OUT` is routed: the divider, the source, and for the PLL
/// its own divider (`PLLDV` set means undivided).
pub open spec fn cfg0_with_ck_out(cfg0: u32, src: CkOutSrc, div: CkOutDiv) -> u32 {
    let w = put_field(put_field(cfg0, CFG0_CKOUTDIV, 7, div.code()), CFG0_CKOUTSEL, 7, src.code());
    match src {
        CkOutSrc::Pll(d) => put_bit(w, CFG0_PLLDV, d == PllDiv::Div1),
        _ => w,
    }
}

/// What brought the chip up, as recorded in `RSTSCK`.
#[derive(Clone, Copy, PartialEq, Eq, Structural)]
pub enum ResetFlag {
    /// Deep-sleep or standby reset.
    LowPower,
    /// The window watchdog timed out.
    WindowWatchdog,
    /// The free watchdog timed out.
    FreeWatchdog,
    /// A software reset was requested.
    Software,
    /// Power reset.
    Power,
    /// The external reset pin was pulled.
    ExternalPin,
    /// The option byte loader ran.
    OptionByteLoader,
}

impl ResetFlag {
    /// The flag's bit in `RSTSCK`.
    pub open spec fn bit(self) -> u32 {
        match self {
            ResetFlag::LowPower => 31,
            ResetFlag::WindowWatchdog => 30,
            ResetFlag::FreeWatchdog => 29,
            ResetFlag::Software => 28,
            ResetFlag::Power => 27,
            ResetFlag::ExternalPin => 26,
            ResetFlag::OptionByteLoader => 25,
        }
    }
}

/// Owns the RCU with its clock tree already frozen; obtained from
/// [`UnfrozenRcu::freeze`].
pub struct Rcu {
    rcu: periph::Rcu,
    clocks: Clocks,
}

/// Which enable or reset register a peripheral's gate sits in.
#[derive(Clone, Copy, PartialEq, Eq, Structural)]
pub enum Bus {
    /// `AHBEN` / `AHBRST`.
    Ahb,
    /// `APB1EN` / `APB1RST`.
    Apb1,
    /// `APB2EN` / `APB2RST`.
    Apb2,
}

/// `r` with bit `bit` of the enable register of `bus` set to `on`.
pub open spec fn with_enable(r: periph::Rcu, bus: Bus, bit: u32, on: bool) -> periph::Rcu {
    match bus {
        Bus::Ahb => logged(r, RcuReg::Ahben, put_bit(r.ahben, bit, on)),
        Bus::Apb1 => logged(r, RcuReg::Apb1en, put_bit(r.apb1en, bit, on)),
        Bus::Apb2 => logged(r, RcuReg::Apb2en, put_bit(r.apb2en, bit, on)),
    }
}

/// `r` after a pulse on bit `bit` of the reset register of `bus`: set, then
/// cleared, so the bit ends clear.
pub open spec fn with_reset_pulse(r: periph::Rcu, bus: Bus, bit: u32) -> periph::Rcu {
    match bus {
        Bus::Ahb => logged(
            logged(r, RcuReg::Ahbrst, put_bit(r.ahbrst, bit, true)),
            RcuReg::Ahbrst,
            put_bit(put_bit(r.ahbrst, bit, true), bit, false),
        ),
        Bus::Apb1 => logged(
            logged(r, RcuReg::Apb1rst, put_bit(r.apb1rst, bit, true)),
            RcuReg::Apb1rst,
            put_bit(put_bit(r.apb1rst, bit, true), bit, false),
        ),
        Bus::Apb2 => logged(
            logged(r, RcuReg::Apb2rst, put_bit(r.apb2rst, bit, true)),
            RcuReg::Apb2rst,
            put_bit(put_bit(r.apb2rst, bit, true), bit, false),
        ),
    }
}

impl Rcu {
    /// The registers.
    pub closed spec fn regs(&self) -> periph::Rcu {
        self.rcu
    }

    /// The registers, for the code that mirrors them onto the chip.
    pub fn registers(&self) -> (r: &periph::Rcu)
        ensures
            *r == self.regs(),
    {
        &self.rcu
    }

    pub closed spec fn spec_clocks(&self) -> Clocks {
        self.clocks
    }

    /// The frequencies the tree was frozen at.
    #[verifier::when_used_as_spec(spec_clocks)]
    pub fn clocks(&self) -> (r: Clocks)
        ensures
            r == self.spec_clocks(),
    {
        self.clocks
    }

    /// Routes an internal clock node out onto `PA8` (AF0) or `PA9` (AF5).
    pub fn ck_out(&mut self, src: CkOutSrc, div: CkOutDiv)
        ensures
            final(self).regs() == logged(old(self).regs(), RcuReg::Cfg0, cfg0_with_ck_out(old(self).regs().cfg0, src, div)),
            final(self).clocks() == old(self).clocks(),
    {
        let div_code: u32 = match div {
            CkOutDiv::Div1 => 0,
            CkOutDiv::Div2 => 1,
            CkOutDiv::Div4 => 2,
            CkOutDiv::Div8 => 3,
            CkOutDiv::Div16 => 4,
            CkOutDiv::Div32 => 5,
            CkOutDiv::Div64 => 6,
            CkOutDiv::Div128 => 7,
        };
        let src_code: u32 = match src {
            CkOutSrc::Off => 0,
            CkOutSrc::Irc14m => 1,
            CkOutSrc::Lsi40k => 2,
            CkOutSrc::Lxtal => 3,
            CkOutSrc::Sysclk => 4,
            CkOutSrc::Irc8m => 5,
            CkOutSrc::Hxtal => 6,
            CkOutSrc::Pll(_) => 7,
        };
        let w = write_field(self.rcu.cfg0, CFG0_CKOUTDIV, 7, div_code);
        let w = write_field(w, CFG0_CKOUTSEL, 7, src_code);
        let w = match src {
            CkOutSrc::Pll(d) => match d {
                PllDiv::Div1 => write_bit(w, CFG0_PLLDV, true),
                PllDiv::Div2 => write_bit(w, CFG0_PLLDV, false),
            },
            _ => w,
        };
        write_reg(&mut self.rcu, RcuReg::Cfg0, w);
    }

    /// Starts the internal 40 kHz oscillator.
    ///
    /// On the chip the call then waits for `IRC40KSTB`; the register file
    /// records the enable.
    pub fn enable_irc40k(&mut self)
        ensures
            final(self).regs() == logged(old(self).regs(), RcuReg::Rstsck, put_bit(old(self).regs().rstsck, RSTSCK_IRC40KEN, true)),
            final(self).clocks() == old(self).clocks(),
    {
        let w = write_bit(self.rcu.rstsck, RSTSCK_IRC40KEN, true);
        write_reg(&mut self.rcu, RcuReg::Rstsck, w);
    }

    /// Stops the internal 40 kHz oscillator.
    pub fn disable_irc40k(&mut self)
        ensures
            final(self).regs() == logged(old(self).regs(), RcuReg::Rstsck, put_bit(old(self).regs().rstsck, RSTSCK_IRC40KEN, false)),
            final(self).clocks() == old(self).clocks(),
    {
        let w = write_bit(self.rcu.rstsck, RSTSCK_IRC40KEN, false);
        write_reg(&mut self.rcu, RcuReg::Rstsck, w);
    }

    /// Clocks SYSCFG and the comparator, which `CFGCMPEN` gates together.
    pub fn enable_cfgcmp(&mut self)
        ensures
            final(self).regs() == with_enable(old(self).regs(), Bus::Apb2, APB2_CFGCMP, true),
            final(self).clocks() == old(self).clocks(),
    {
        let w = write_bit(self.rcu.apb2en, APB2_CFGCMP, true);
        write_reg(&mut self.rcu, RcuReg::Apb2en, w);
    }

    /// Stops the clock of SYSCFG and the comparator.
    pub fn disable_cfgcmp(&mut self)
        ensures
            final(self).regs() == with_enable(old(self).regs(), Bus::Apb2, APB2_CFGCMP, false),
            final(self).clocks() == old(self).clocks(),
    {
        let w = write_bit(self.rcu.apb2en, APB2_CFGCMP, false);
        write_reg(&mut self.rcu, RcuReg::Apb2en, w);
    }

    /// Pulses the reset line of SYSCFG and the comparator.
    pub fn reset_cfgcmp(&mut self)
        ensures
            final(self).regs() == with_reset_pulse(old(self).regs(), Bus::Apb2, APB2_CFGCMP),
            final(self).clocks() == old(self).clocks(),
    {
        let w = write_bit(self.rcu.apb2rst, APB2_CFGCMP, true);
        write_reg(&mut self.rcu, RcuReg::Apb2rst, w);
        let w = write_bit(self.rcu.apb2rst, APB2_CFGCMP, false);
        write_reg(&mut self.rcu, RcuReg::Apb2rst, w);
    }

    /// Whether `flag` took part in the last reset.
    pub fn reset_flag(&self, flag: ResetFlag) -> (r: bool)
        ensures
            r == get_bit(self.regs().rstsck, flag.bit()),
    {
        let rstsck = self.rcu.rstsck;
        match flag {
            ResetFlag::LowPower => read_bit_at(rstsck, 31),
            ResetFlag::WindowWatchdog => read_bit_at(rstsck, 30),
            ResetFlag::FreeWatchdog => read_bit_at(rstsck, 29),
            ResetFlag::Software => read_bit_at(rstsck, 28),
            ResetFlag::Power => read_bit_at(rstsck, 27),
            ResetFlag::ExternalPin => read_bit_at(rstsck, 26),
            ResetFlag::OptionByteLoader => read_bit_at(rstsck, 25),
        }
    }

    /// Clears every reset flag at once; `RSTFC` has no per-flag granularity.
    ///
    /// Writing `RSTFC` drops the flags and `RSTFC` itself reads back clear.
    pub fn clear_reset_flags(&mut self)
        ensures
            final(self).regs() == logged(old(self).regs(), RcuReg::Rstsck, old(self).regs().rstsck & !RSTSCK_FLAGS),
            final(self).clocks() == old(self).clocks(),
    {
        let w = self.rcu.rstsck & !RSTSCK_FLAGS;
        write_reg(&mut self.rcu, RcuReg::Rstsck, w);
    }
}

fn read_bit_at(word: u32, index: u32) -> (r: bool)
    requires
        index < 32,
    ensures
        r == get_bit(word, index),
{
    crate::bits::read_bit(word, index)
}

/// Extension trait turning the raw RCU register file into the managed [`UnfrozenRcu`].
pub trait RcuExt: Sized {
    /// The register file taken in.
    spec fn regs_in(&self) -> periph::Rcu;

    /// Consumes the register file and returns the managed wrapper, which
    /// [`freeze`](UnfrozenRcu::freeze) turns into an [`Rcu`].
    fn constrain(self) -> (r: UnfrozenRcu)
        ensures
            r.regs() == self.regs_in(),
    ;
}

impl RcuExt for periph::Rcu {
    open spec fn regs_in(&self) -> periph::Rcu {
        *self
    }

    fn constrain(self) -> (r: UnfrozenRcu) {
        UnfrozenRcu { rcu: self }
    }
}

/// Clock gating for a peripheral, implemented per peripheral type.
pub trait Enable {
    /// The register holding this peripheral's enable bit.
    spec fn enable_bus() -> Bus;

    /// The enable bit.
    spec fn enable_bit() -> u32;

    /// Switches the peripheral's clock on.
    fn enable(rcu: &mut Rcu)
        ensures
            final(rcu).regs() == with_enable(
                old(rcu).regs(),
                Self::enable_bus(),
                Self::enable_bit(),
                true,
            ),
            final(rcu).clocks() == old(rcu).clocks(),
    ;

    /// Switches the peripheral's clock off.
    fn disable(rcu: &mut Rcu)
        ensures
            final(rcu).regs() == with_enable(
                old(rcu).regs(),
                Self::enable_bus(),
                Self::enable_bit(),
                false,
            ),
            final(rcu).clocks() == old(rcu).clocks(),
    ;
}

/// Reset control for a peripheral, implemented per peripheral type.
pub trait Reset {
    /// The register holding this peripheral's reset bit.
    spec fn reset_bus() -> Bus;

    /// The reset bit.
    spec fn reset_bit() -> u32;

    /// Pulses the peripheral's reset line.
    fn reset(rcu: &mut Rcu)
        ensures
            final(rcu).regs() == with_reset_pulse(
                old(rcu).regs(),
                Self::reset_bus(),
                Self::reset_bit(),
            ),
            final(rcu).clocks() == old(rcu).clocks(),
    ;
}

impl Rcu {
    /// Sets or clears one enable bit.
    fn set_enable(&mut self, bus: Bus, bit: u32, on: bool)
        requires
            bit < 32,
        ensures
            final(self).regs() == with_enable(old(self).regs(), bus, bit, on),
            final(self).clocks() == old(self).clocks(),
    {
        match bus {
            Bus::Ahb => {
                let w = write_bit(self.rcu.ahben, bit, on);
                write_reg(&mut self.rcu, RcuReg::Ahben, w);
            },
            Bus::Apb1 => {
                let w = write_bit(self.rcu.apb1en, bit, on);
                write_reg(&mut self.rcu, RcuReg::Apb1en, w);
            },
            Bus::Apb2 => {
                let w = write_bit(self.rcu.apb2en, bit, on);
                write_reg(&mut self.rcu, RcuReg::Apb2en, w);
            },
        }
    }

    /// Pulses one reset bit.
    fn pulse_reset(&mut self, bus: Bus, bit: u32)
        requires
            bit < 32,
        ensures
            final(self).regs() == with_reset_pulse(old(self).regs(), bus, bit),
            final(self).clocks() == old(self).clocks(),
    {
        match bus {
            Bus::Ahb => {
                let w = write_bit(self.rcu.ahbrst, bit, true);
                write_reg(&mut self.rcu, RcuReg::Ahbrst, w);
                let w = write_bit(self.rcu.ahbrst, bit, false);
                write_reg(&mut self.rcu, RcuReg::Ahbrst, w);
            },
            Bus::Apb1 => {
                let w = write_bit(self.rcu.apb1rst, bit, true);
                write_reg(&mut self.rcu, RcuReg::Apb1rst, w);
                let w = write_bit(self.rcu.apb1rst, bit, false);
                write_reg(&mut self.rcu, RcuReg::Apb1rst, w);
            },
            Bus::Apb2 => {
                let w = write_bit(self.rcu.apb2rst, bit, true);
                write_reg(&mut self.rcu, RcuReg::Apb2rst, w);
                let w = write_bit(self.rcu.apb2rst, bit, false);
                write_reg(&mut self.rcu, RcuReg::Apb2rst, w);
            },
        }
    }
}

impl Enable for periph::Gpioa {
    open spec fn enable_bus() -> Bus {
        Bus::Ahb
    }

    open spec fn enable_bit() -> u32 {
        17
    }

    fn enable(rcu: &mut Rcu) {
        rcu.set_enable(Bus::Ahb, 17, true);
    }

    fn disable(rcu: &mut Rcu) {
        rcu.set_enable(Bus::Ahb, 17, false);
    }
}

impl Enable for periph::Gpiob {
    open spec fn enable_bus() -> Bus {
        Bus::Ahb
    }

    open spec fn enable_bit() -> u32 {
        18
    }

    fn enable(rcu: &mut Rcu) {
        rcu.set_enable(Bus::Ahb, 18, true);
    }

    fn disable(rcu: &mut Rcu) {
        rcu.set_enable(Bus::Ahb, 18, false);
    }
}

impl Enable for periph::Gpiof {
    open spec fn enable_bus() -> Bus {
        Bus::Ahb
    }

    open spec fn enable_bit() -> u32 {
        22
    }

    fn enable(rcu: &mut Rcu) {
        rcu.set_enable(Bus::Ahb, 22, true);
    }

    fn disable(rcu: &mut Rcu) {
        rcu.set_enable(Bus::Ahb, 22, false);
    }
}

impl Enable for periph::Crc {
    open spec fn enable_bus() -> Bus {
        Bus::Ahb
    }

    open spec fn enable_bit() -> u32 {
        6
    }

    fn enable(rcu: &mut Rcu) {
        rcu.set_enable(Bus::Ahb, 6, true);
    }

    fn disable(rcu: &mut Rcu) {
        rcu.set_enable(Bus::Ahb, 6, false);
    }
}

impl Enable for periph::Usart1 {
    open spec fn enable_bus() -> Bus {
        Bus::Apb1
    }

    open spec fn enable_bit() -> u32 {
        17
    }

    fn enable(rcu: &mut Rcu) {
        rcu.set_enable(Bus::Apb1, 17, true);
    }

    fn disable(rcu: &mut Rcu) {
        rcu.set_enable(Bus::Apb1, 17, false);
    }
}

impl Enable for periph::Spi1 {
    open spec fn enable_bus() -> Bus {
        Bus::Apb1
    }

    open spec fn enable_bit() -> u32 {
        14
    }

    fn enable(rcu: &mut Rcu) {
        rcu.set_enable(Bus::Apb1, 14, true);
    }

    fn disable(rcu: &mut Rcu) {
        rcu.set_enable(Bus::Apb1, 14, false);
    }
}

impl Enable for periph::Usart0 {
    open spec fn enable_bus() -> Bus {
        Bus::Apb2
    }

    open spec fn enable_bit() -> u32 {
        14
    }

    fn enable(rcu: &mut Rcu) {
        rcu.set_enable(Bus::Apb2, 14, true);
    }

    fn disable(rcu: &mut Rcu) {
        rcu.set_enable(Bus::Apb2, 14, false);
    }
}

impl Enable for periph::Spi0 {
    open spec fn enable_bus() -> Bus {
        Bus::Apb2
    }

    open spec fn enable_bit() -> u32 {
        12
    }

    fn enable(rcu: &mut Rcu) {
        rcu.set_enable(Bus::Apb2, 12, true);
    }

    fn disable(rcu: &mut Rcu) {
        rcu.set_enable(Bus::Apb2, 12, false);
    }
}

impl Reset for periph::Gpioa {
    open spec fn reset_bus() -> Bus {
        Bus::Ahb
    }

    open spec fn reset_bit() -> u32 {
        17
    }

    fn reset(rcu: &mut Rcu) {
        rcu.pulse_reset(Bus::Ahb, 17);
    }
}

impl Reset for periph::Gpiob {
    open spec fn reset_bus() -> Bus {
        Bus::Ahb
    }

    open spec fn reset_bit() -> u32 {
        18
    }

    fn reset(rcu: &mut Rcu) {
        rcu.pulse_reset(Bus::Ahb, 18);
    }
}

impl Reset for periph::Gpiof {
    open spec fn reset_bus() -> Bus {
        Bus::Ahb
    }

    open spec fn reset_bit() -> u32 {
        22
    }

    fn reset(rcu: &mut Rcu) {
        rcu.pulse_reset(Bus::Ahb, 22);
    }
}

impl Reset for periph::Usart1 {
    open spec fn reset_bus() -> Bus {
        Bus::Apb1
    }

    open spec fn reset_bit() -> u32 {
        17
    }

    fn reset(rcu: &mut Rcu) {
        rcu.pulse_reset(Bus::Apb1, 17);
    }
}

impl Reset for periph::Spi1 {
    open spec fn reset_bus() -> Bus {
        Bus::Apb1
    }

    open spec fn reset_bit() -> u32 {
        14
    }

    fn reset(rcu: &mut Rcu) {
        rcu.pulse_reset(Bus::Apb1, 14);
    }
}

impl Reset for periph::Usart0 {
    open spec fn reset_bus() -> Bus {
        Bus::Apb2
    }

    open spec fn reset_bit() -> u32 {
        14
    }

    fn reset(rcu: &mut Rcu) {
        rcu.pulse_reset(Bus::Apb2, 14);
    }
}

impl Reset for periph::Spi0 {
    open spec fn reset_bus() -> Bus {
        Bus::Apb2
    }

    open spec fn reset_bit() -> u32 {
        12
    }

    fn reset(rcu: &mut Rcu) {
        rcu.pulse_reset(Bus::Apb2, 12);
    }
}


/// Each frequency of the tree that `c` configures, in hertz, from the
/// configuration: the system clock from its source, the bus clocks through
/// their dividers, the timer clocks from `hclk`, and the USART0 and ADC
/// clocks from their sources.
pub proof fn law_clocks_of(c: ClockConfig)
    ensures
        clocks_of(c).spec_sysclk().hz() == sysclk_of(c),
        clocks_of(c).spec_hclk().hz() == hclk_of(c),
        clocks_of(c).spec_pclk1().hz() == pclk1_of(c),
        clocks_of(c).spec_pclk2().hz() == pclk2_of(c),
        clocks_of(c).spec_usart0().hz() == usart0_of(c),
        clocks_of(c).spec_ck_adc().hz() == ck_adc_of(c),
        clocks_of(c).spec_pclk1_tim().hz() == timer_clock(hclk_of(c), c.apb1_psc()),
        clocks_of(c).spec_pclk2_tim().hz() == timer_clock(hclk_of(c), c.apb2_psc()),
{
    let k = clocks_of(c);
    k.spec_sysclk().lemma_hz(sysclk_of(c));
    k.spec_hclk().lemma_hz(hclk_of(c));
    k.spec_pclk1().lemma_hz(pclk1_of(c));
    k.spec_pclk2().lemma_hz(pclk2_of(c));
    k.spec_usart0().lemma_hz(usart0_of(c));
    k.spec_ck_adc().lemma_hz(ck_adc_of(c));
    k.spec_pclk1_tim().lemma_hz(timer_clock(hclk_of(c), c.apb1_psc()));
    k.spec_pclk2_tim().lemma_hz(timer_clock(hclk_of(c), c.apb2_psc()));
}

/// The clock tree that `freeze` records: `hclk` is `sysclk` through the AHB
/// divider, each APB clock is `hclk` through its own divider, no clock exceeds
/// the 72 MHz limit, and `CK_ADC` is zero exactly when the ADC clock is off.
pub proof fn law_clock_tree(c: ClockConfig)
    ensures
        clocks_of(c).spec_hclk().hz() == sysclk_of(c) / c.ahb_psc().divisor(),
        clocks_of(c).spec_pclk1().hz() == clocks_of(c).spec_hclk().hz() / (c.apb1_psc().divisor() as nat),
        clocks_of(c).spec_pclk2().hz() == clocks_of(c).spec_hclk().hz() / (c.apb2_psc().divisor() as nat),
        clocks_of(c).spec_sysclk().hz() == sysclk_of(c),
        clocks_of(c).spec_sysclk().hz() <= 72_000_000,
        clocks_of(c).spec_hclk().hz() <= clocks_of(c).spec_sysclk().hz(),
        clocks_of(c).spec_pclk1().hz() <= clocks_of(c).spec_hclk().hz(),
        clocks_of(c).spec_pclk2().hz() <= clocks_of(c).spec_hclk().hz(),
        (clocks_of(c).spec_ck_adc().hz() == 0) <==> (c.adc_src() == AdcSel::Off),
        c.usart0_src() == Usart0Sel::Apb2 ==> clocks_of(c).spec_usart0() == clocks_of(c).spec_pclk2(),
{
    let k = clocks_of(c);
    k.spec_hclk().lemma_hz(hclk_of(c));
    k.spec_pclk1().lemma_hz(pclk1_of(c));
    k.spec_pclk2().lemma_hz(pclk2_of(c));
    k.spec_sysclk().lemma_hz(sysclk_of(c));
    k.spec_ck_adc().lemma_hz(ck_adc_of(c));
    let sys = sysclk_of(c) as int;
    let dh = c.hclk.divisor() as int;
    let d2 = c.pclk2.divisor() as int;
    assert(8_000_000 <= sys <= 72_000_000);
    assert(1 <= dh <= 512 && 1 <= d2 <= 16);
    assert(sys / dh >= 15625 && sys / dh <= sys) by (nonlinear_arith)
        requires
            8_000_000 <= sys,
            1 <= dh <= 512,
    ;
    let h = sys / dh;
    assert(h / d2 >= 976 && h / d2 <= h) by (nonlinear_arith)
        requires
            h >= 15625,
            1 <= d2 <= 16,
    ;
    let d1 = c.pclk1.divisor() as int;
    assert(1 <= d1 <= 16);
    assert(h / d1 <= h) by (nonlinear_arith)
        requires
            h >= 0,
            1 <= d1,
    ;
}

/// The timer clock behind an APB prescaler is the bus clock when the
/// prescaler is `Div1`, and otherwise twice the bus clock, give or take the
/// one hertz that integer division drops.
pub proof fn law_timer_clock(hclk: u32, psc: ApbPsc)
    ensures
        psc == ApbPsc::Div1 ==> timer_clock(hclk, psc) == hclk / psc.divisor(),
        psc != ApbPsc::Div1 ==> (timer_clock(hclk, psc) == 2 * (hclk / psc.divisor())
            || timer_clock(hclk, psc) == 2 * (hclk / psc.divisor()) + 1),
{
    let h = hclk as int;
    match psc {
        ApbPsc::Div1 => {},
        ApbPsc::Div2 => {
            assert(h / 1 == 2 * (h / 2) || h / 1 == 2 * (h / 2) + 1) by (nonlinear_arith);
        },
        ApbPsc::Div4 => {
            assert(h / 2 == 2 * (h / 4) || h / 2 == 2 * (h / 4) + 1) by (nonlinear_arith)
                requires h >= 0;
        },
        ApbPsc::Div8 => {
            assert(h / 4 == 2 * (h / 8) || h / 4 == 2 * (h / 8) + 1) by (nonlinear_arith)
                requires h >= 0;
        },
        ApbPsc::Div16 => {
            assert(h / 8 == 2 * (h / 16) || h / 8 == 2 * (h / 16) + 1) by (nonlinear_arith)
                requires h >= 0;
        },
    }
}

/// Freezing onto the PLL programs it, from IRC8M/2, with the multiplier that
/// produces exactly the requested frequency, raises `PLLEN`, and switches
/// `SCS` to the PLL.
pub proof fn law_freeze_pll(regs: periph::Rcu, c: ClockConfig, f: PllFreq)
    requires
        c.sys_src() == SysClk::Pll(f),
    ensures
        pll_mul_decoded(
            get_field(freeze_regs(regs, c).cfg0, CFG0_PLLMF, 0xf),
            get_bit(freeze_regs(regs, c).cfg0, CFG0_PLLMF_MSB),
        ) * PLL_SRC == f.spec_hz(),
        !get_bit(freeze_regs(regs, c).cfg0, CFG0_PLLSEL),
        get_bit(freeze_regs(regs, c).ctl0, CTL0_PLLEN),
        get_field(freeze_regs(regs, c).cfg0, CFG0_SCS, 3) == SCS_PLL,
{
    let mul = pll_mul_of(f);
    let fld = pllmf_field(mul);
    let msb = pllmf_msb(mul);
    let x = cfg0_with_pll(regs.cfg0, f);
    let w0 = regs.cfg0;
    assert(fld <= 15);
    assert(((put_bit(put_field(put_bit(w0, 16, false), 18, 0xf, fld), 27, msb) >> 18) & 0xf == fld)
        && ((put_bit(put_field(put_bit(w0, 16, false), 18, 0xf, fld), 27, msb) >> 27) & 1 == 1) == msb
        && ((put_bit(put_field(put_bit(w0, 16, false), 18, 0xf, fld), 27, msb) >> 16) & 1 != 1))
        by (bit_vector)
        requires
            fld <= 15,
    ;
    let a = c.ahb_psc().code();
    let b = c.apb1_psc().code();
    let d = c.apb2_psc().code();
    let e: u32 = match c.adc_src() {
        AdcSel::Prescaled(psc) => psc.low_code(),
        _ => 0,
    };
    assert(forall|y: u32, a: u32, b: u32, d: u32|
        #![trigger put_field(put_field(put_field(put_field(y, 4, 0xf, a), 8, 7, b), 11, 7, d), 0, 3, 2)]
        {
            let z = put_field(put_field(put_field(put_field(y, 4, 0xf, a), 8, 7, b), 11, 7, d), 0, 3, 2);
            &&& (z >> 18) & 0xf == (y >> 18) & 0xf
            &&& (z >> 27) & 1 == (y >> 27) & 1
            &&& (z >> 16) & 1 == (y >> 16) & 1
            &&& (z >> 0) & 3 == 2
        }) by (bit_vector);
    assert(forall|y: u32, e: u32|
        #![trigger put_field(y, 14, 3, e)]
        {
            let z = put_field(y, 14, 3, e);
            &&& (z >> 18) & 0xf == (y >> 18) & 0xf
            &&& (z >> 27) & 1 == (y >> 27) & 1
            &&& (z >> 16) & 1 == (y >> 16) & 1
        }) by (bit_vector);
    let y = match c.adc_src() {
        AdcSel::Prescaled(psc) => put_field(x, CFG0_ADCPSC, 3, psc.low_code()),
        _ => x,
    };
    let z = put_field(put_field(put_field(put_field(y, 4, 0xf, a), 8, 7, b), 11, 7, d), 0, 3, 2);
    assert(freeze_regs(regs, c).cfg0 == z);
    let c0 = regs.ctl0;
    assert(((put_bit(c0, 24, true) >> 24) & 1) == 1) by (bit_vector);
}

/// Freezing onto IRC8M leaves `SCS` and `CTL0` as they were: the system clock
/// is not switched, nor the PLL started.
pub proof fn law_freeze_irc8m(regs: periph::Rcu, c: ClockConfig)
    requires
        c.sys_src() == SysClk::Irc8m,
    ensures
        get_field(freeze_regs(regs, c).cfg0, CFG0_SCS, 3) == get_field(regs.cfg0, CFG0_SCS, 3),
        freeze_regs(regs, c).ctl0 == regs.ctl0,
{
    let a = c.ahb_psc().code();
    let b = c.apb1_psc().code();
    let d = c.apb2_psc().code();
    assert(forall|y: u32, a: u32, b: u32, d: u32, e: u32|
        #![trigger put_field(put_field(put_field(put_field(y, 14, 3, e), 4, 0xf, a), 8, 7, b), 11, 7, d)]
        (put_field(put_field(put_field(put_field(y, 14, 3, e), 4, 0xf, a), 8, 7, b), 11, 7, d) >> 0)
            & 3 == (y >> 0) & 3) by (bit_vector);
    assert(forall|y: u32, a: u32, b: u32, d: u32|
        #![trigger put_field(put_field(put_field(y, 4, 0xf, a), 8, 7, b), 11, 7, d)]
        (put_field(put_field(put_field(y, 4, 0xf, a), 8, 7, b), 11, 7, d) >> 0) & 3 == (y >> 0) & 3)
        by (bit_vector);
    match c.adc_src() {
        AdcSel::Prescaled(psc) => {
            assert(freeze_regs(regs, c).cfg0 == put_field(
                put_field(put_field(put_field(regs.cfg0, 14, 3, psc.low_code()), 4, 0xf, a), 8, 7, b),
                11,
                7,
                d,
            ));
        },
        _ => {
            assert(freeze_regs(regs, c).cfg0 == put_field(
                put_field(put_field(regs.cfg0, 4, 0xf, a), 8, 7, b),
                11,
                7,
                d,
            ));
        },
    }
}

/// Freezing writes each prescaler's code into its field of `CFG0`.
pub proof fn law_freeze_prescalers(regs: periph::Rcu, c: ClockConfig)
    ensures
        get_field(freeze_regs(regs, c).cfg0, CFG0_AHBPSC, 0xf) == c.ahb_psc().code(),
        get_field(freeze_regs(regs, c).cfg0, CFG0_APB1PSC, 7) == c.apb1_psc().code(),
        get_field(freeze_regs(regs, c).cfg0, CFG0_APB2PSC, 7) == c.apb2_psc().code(),
        get_field(freeze_regs(regs, c).cfg2, CFG2_USART0SEL, 3) == c.usart0_src().code(),
{
    let a = c.ahb_psc().code();
    let b = c.apb1_psc().code();
    let d = c.apb2_psc().code();
    assert(a <= 15 && b <= 7 && d <= 7);
    assert(forall|y: u32, a: u32, b: u32, d: u32|
        #![trigger put_field(put_field(put_field(y, 4, 0xf, a), 8, 7, b), 11, 7, d)]
        a <= 15 && b <= 7 && d <= 7 ==> {
            let z = put_field(put_field(put_field(y, 4, 0xf, a), 8, 7, b), 11, 7, d);
            &&& (z >> 4) & 0xf == a
            &&& (z >> 8) & 7 == b
            &&& (z >> 11) & 7 == d
            &&& (put_field(z, 0, 3, 2) >> 4) & 0xf == a
            &&& (put_field(z, 0, 3, 2) >> 8) & 7 == b
            &&& (put_field(z, 0, 3, 2) >> 11) & 7 == d
        }) by (bit_vector);
    let s = c.usart0_src().code();
    assert(s <= 3);
    assert(forall|y: u32, s: u32, i: u32, j: u32, p: bool, q: bool|
        #![trigger put_bit(put_bit(put_field(y, 0, 3, s), i, p), j, q)]
        s <= 3 && 8 <= i < 32 && 8 <= j < 32 ==> ((put_bit(put_bit(put_field(y, 0, 3, s), i, p), j, q)
            >> 0) & 3 == s)) by (bit_vector);
    assert(forall|y: u32, s: u32| #![trigger put_field(y, 0, 3, s)] s <= 3 ==> (put_field(y, 0, 3, s) >> 0) & 3 == s)
        by (bit_vector);
}

/// How the chip reads an `AHBPSC` code: 0 to 7 leave `sysclk` undivided,
/// 8 to 11 divide it by 2, 4, 8, 16, and 12 to 15 by 64, 128, 256, 512
/// (there is no division by 32).
pub open spec fn ahbpsc_divides_by(code: u32) -> nat {
    if code < 8 {
        1
    } else if code < 12 {
        vstd::arithmetic::power2::pow2((code - 7) as nat)
    } else if code < 16 {
        vstd::arithmetic::power2::pow2((code - 6) as nat)
    } else {
        0
    }
}

/// How the chip reads an `APBxPSC` code: 0 to 3 leave `hclk` undivided, 4
/// to 7 divide it by 2, 4, 8, 16.
pub open spec fn apbpsc_divides_by(code: u32) -> nat {
    if code < 4 {
        1
    } else if code < 8 {
        vstd::arithmetic::power2::pow2((code - 3) as nat)
    } else {
        0
    }
}

/// How the chip reads the three-bit `ADCPSC` code, whose top bit lies in
/// `CFG2`: the APB2 taps divide by twice the low bits plus two, the AHB taps
/// by twice the low bits plus three.
pub open spec fn adcpsc_divides_by(low: u32, from_ahb: bool) -> nat {
    if from_ahb {
        (2 * low + 3) as nat
    } else {
        (2 * low + 2) as nat
    }
}

/// The clock a `USART0SEL` code feeds USART0 from: APB2, the system clock,
/// LXTAL or IRC8M.
pub open spec fn usart0_clock_by_code(code: u32, pclk2: u32, sysclk: u32) -> u32 {
    if code == 0 {
        pclk2
    } else if code == 1 {
        sysclk
    } else if code == 2 {
        LXTAL
    } else {
        IRC8M
    }
}

/// The bus clock of `bus` in the tree `c`.
pub open spec fn bus_clock(c: Clocks, bus: Bus) -> Hertz {
    match bus {
        Bus::Ahb => c.spec_hclk(),
        Bus::Apb1 => c.spec_pclk1(),
        Bus::Apb2 => c.spec_pclk2(),
    }
}

/// Every prescaler's register code selects, as the chip reads it, a
/// division by exactly the divisor the clock tree is computed with.
pub proof fn law_prescaler_codes(a: AhbPsc, p: ApbPsc, q: AdcPsc)
    ensures
        a.code() < 16,
        ahbpsc_divides_by(a.code()) == a.divisor(),
        p.code() < 8,
        apbpsc_divides_by(p.code()) == p.divisor(),
        q.low_code() < 4,
        adcpsc_divides_by(q.low_code(), q.from_ahb()) == q.divisor(),
{
    vstd::arithmetic::power2::lemma2_to64();
}

/// What `freeze` writes is what it reports: decoding the prescaler fields
/// of `CFG0` as the chip does gives back `hclk`, `pclk1` and `pclk2` from
/// `sysclk`, and the `USART0SEL` field of `CFG2` selects the reported USART0
/// clock.
pub proof fn law_freeze_registers_give_clocks(regs: periph::Rcu, c: ClockConfig)
    ensures
        hclk_of(c) as nat == sysclk_of(c) as nat / ahbpsc_divides_by(get_field(freeze_regs(regs, c).cfg0, CFG0_AHBPSC, 0xf)),
        pclk1_of(c) as nat == hclk_of(c) as nat / apbpsc_divides_by(get_field(freeze_regs(regs, c).cfg0, CFG0_APB1PSC, 7)),
        pclk2_of(c) as nat == hclk_of(c) as nat / apbpsc_divides_by(get_field(freeze_regs(regs, c).cfg0, CFG0_APB2PSC, 7)),
        usart0_of(c) == usart0_clock_by_code(
            get_field(freeze_regs(regs, c).cfg2, CFG2_USART0SEL, 3),
            pclk2_of(c),
            sysclk_of(c),
        ),
{
    law_freeze_prescalers(regs, c);
    law_prescaler_codes(c.ahb_psc(), c.apb1_psc(), AdcPsc::Apb2Div2);
    law_prescaler_codes(c.ahb_psc(), c.apb2_psc(), AdcPsc::Apb2Div2);
    let s = sysclk_of(c);
    let d = c.ahb_psc().divisor();
    assert(d >= 1);
    assert(s / d <= s) by (nonlinear_arith)
        requires
            d >= 1,
    ;
    let h = hclk_of(c);
    let d1 = c.apb1_psc().divisor();
    let d2 = c.apb2_psc().divisor();
    assert(h / d1 <= h && h / d2 <= h) by (nonlinear_arith)
        requires
            d1 >= 1,
            d2 >= 1,
    ;
}

impl CkOutDiv {
    /// The divider.
    pub open spec fn divisor(self) -> nat {
        match self {
            CkOutDiv::Div1 => 1,
            CkOutDiv::Div2 => 2,
            CkOutDiv::Div4 => 4,
            CkOutDiv::Div8 => 8,
            CkOutDiv::Div16 => 16,
            CkOutDiv::Div32 => 32,
            CkOutDiv::Div64 => 64,
            CkOutDiv::Div128 => 128,
        }
    }
}

/// Routing `CK_OUT` writes codes that mean what was asked: the divider code
/// divides by exactly that divider (`2^code`), distinct sources get distinct
/// `CKOUTSEL` codes (the PLL's own divider goes to `PLLDV`), and the reset
/// flags sit on distinct bits of the flag byte of `RSTSCK`.
pub proof fn law_ck_out_and_flag_codes(d: CkOutDiv, a: CkOutSrc, b: CkOutSrc, f: ResetFlag, g: ResetFlag)
    ensures
        d.code() < 8,
        vstd::arithmetic::power2::pow2(d.code() as nat) == d.divisor(),
        a.code() < 8,
        a.code() == b.code() ==> a == b || (a is Pll && b is Pll),
        25 <= f.bit() < 32,
        f.bit() == g.bit() ==> f == g,
{
    vstd::arithmetic::power2::lemma2_to64();
}

} // verus!
