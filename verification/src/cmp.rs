//! Analog comparator.

use core::marker::PhantomData;

use vstd::prelude::*;

use crate::bits::{get_bit, put_bit, put_field, read_bit, write_bit, write_field};
use crate::gpio::{Analog, PORT_A, Pin};
use crate::periph;
use crate::rcu::{APB2_CFGCMP, Bus, Rcu, with_enable};

verus! {

/// `CS` fields.
pub const CS_CMPEN: u32 = 0;
pub const CS_CMPSW: u32 = 1;
pub const CS_CMPM: u32 = 2;
pub const CS_CMPMSEL: u32 = 4;
pub const CS_CMPOSEL: u32 = 8;
pub const CS_CMPPL: u32 = 11;
pub const CS_CMPHST: u32 = 12;
pub const CS_CMPO: u32 = 14;
pub const CS_CMPLK: u32 = 15;

/// Hysteresis on the comparator output, suppressing chatter near the threshold.
#[derive(Clone, Copy, PartialEq, Eq, Structural)]
#[allow(missing_docs)]
pub enum Hysteresis {
    Off,
    Low,
    Medium,
    High,
}

impl Hysteresis {
    /// The `CMPxHST` code.
    pub open spec fn code(self) -> u32 {
        match self {
            Hysteresis::Off => 0,
            Hysteresis::Low => 1,
            Hysteresis::Medium => 2,
            Hysteresis::High => 3,
        }
    }
}

/// A source the inverting input can be tied to, with its `CMPxMSEL` code.
///
/// `VREFINT` is 1.2 V, so the taps sit at 0.3, 0.6, 0.9 and 1.2 V.
pub trait InvertingInput {
    /// The `CMPxMSEL` encoding of this source.
    spec fn msel() -> u32;

    /// The `CMPxMSEL` encoding of this source.
    fn msel_code() -> (r: u32)
        ensures
            r == Self::msel(),
    ;
}

/// A quarter of the internal reference.
pub struct VrefintQuarter;

/// Half of the internal reference.
pub struct VrefintHalf;

/// Three quarters of the internal reference.
pub struct VrefintThreeQuarters;

/// The internal reference itself.
pub struct Vrefint;

impl InvertingInput for VrefintQuarter {
    open spec fn msel() -> u32 {
        0b000
    }

    fn msel_code() -> (r: u32) {
        0b000
    }
}

impl InvertingInput for VrefintHalf {
    open spec fn msel() -> u32 {
        0b001
    }

    fn msel_code() -> (r: u32) {
        0b001
    }
}

impl InvertingInput for VrefintThreeQuarters {
    open spec fn msel() -> u32 {
        0b010
    }

    fn msel_code() -> (r: u32) {
        0b010
    }
}

impl InvertingInput for Vrefint {
    open spec fn msel() -> u32 {
        0b011
    }

    fn msel_code() -> (r: u32) {
        0b011
    }
}

impl InvertingInput for Pin<PORT_A, 4, Analog> {
    open spec fn msel() -> u32 {
        0b100
    }

    fn msel_code() -> (r: u32) {
        0b100
    }
}

impl InvertingInput for Pin<PORT_A, 5, Analog> {
    open spec fn msel() -> u32 {
        0b101
    }

    fn msel_code() -> (r: u32) {
        0b101
    }
}

impl InvertingInput for Pin<PORT_A, 0, Analog> {
    open spec fn msel() -> u32 {
        0b110
    }

    fn msel_code() -> (r: u32) {
        0b110
    }
}

impl InvertingInput for Pin<PORT_A, 2, Analog> {
    open spec fn msel() -> u32 {
        0b111
    }

    fn msel_code() -> (r: u32) {
        0b111
    }
}

/// What the non-inverting input consists of, with the `CMPxSW` state.
///
/// `PA1` alone, or `PA1` tied to `PA4` through the closed switch.
pub trait NonInvertingInput {
    /// Whether `CMPxSW` is closed for this source.
    spec fn sw() -> bool;

    /// Whether `CMPxSW` is closed for this source.
    fn switch_closed() -> (r: bool)
        ensures
            r == Self::sw(),
    ;
}

impl NonInvertingInput for Pin<PORT_A, 1, Analog> {
    open spec fn sw() -> bool {
        false
    }

    fn switch_closed() -> (r: bool) {
        false
    }
}

impl NonInvertingInput for (Pin<PORT_A, 1, Analog>, Pin<PORT_A, 4, Analog>) {
    open spec fn sw() -> bool {
        true
    }

    fn switch_closed() -> (r: bool) {
        true
    }
}

/// Where the comparator output is routed on top of the pin.
#[derive(Clone, Copy, PartialEq, Eq, Structural)]
pub enum OutputSel {
    /// Nowhere.
    Nowhere,
    /// TIMER0 break input.
    Timer0Break,
    /// TIMER0 CH0 input capture.
    Timer0Ch0,
    /// TIMER0 `OCPRE_CLR` input.
    Timer0OcpreClr,
    /// TIMER2 CH0 input capture.
    Timer2Ch0,
    /// TIMER2 `OCPRE_CLR` input.
    Timer2OcpreClr,
}

impl OutputSel {
    /// The `CMPxOSEL` code; `0b100` and `0b101` are reserved.
    pub open spec fn code(self) -> u32 {
        match self {
            OutputSel::Nowhere => 0b000,
            OutputSel::Timer0Break => 0b001,
            OutputSel::Timer0Ch0 => 0b010,
            OutputSel::Timer0OcpreClr => 0b011,
            OutputSel::Timer2Ch0 => 0b110,
            OutputSel::Timer2OcpreClr => 0b111,
        }
    }
}

/// Propagation delay traded against current draw.
#[derive(Clone, Copy, PartialEq, Eq, Structural)]
#[allow(missing_docs)]
pub enum Speed {
    High,
    Medium,
    Low,
    VeryLow,
}

impl Speed {
    /// The `CMPxM` code.
    pub open spec fn code(self) -> u32 {
        match self {
            Speed::High => 0,
            Speed::Medium => 1,
            Speed::Low => 2,
            Speed::VeryLow => 3,
        }
    }
}

/// Polarity of the comparator output.
#[derive(Clone, Copy, PartialEq, Eq, Structural)]
pub enum Polarity {
    /// The output is high while the non-inverting input is the higher one.
    NotInverted,
    /// The output is inverted.
    Inverted,
}

/// Everything the comparator is set up with, apart from its inputs.
#[derive(Clone, Copy, PartialEq, Eq, Structural)]
pub struct CmpConfig {
    speed: Speed,
    hysteresis: Hysteresis,
    output_sel: OutputSel,
    polarity: Polarity,
}

impl CmpConfig {
    /// The speed.
    pub closed spec fn speed_spec(self) -> Speed {
        self.speed
    }

    /// The hysteresis.
    pub closed spec fn hysteresis_spec(self) -> Hysteresis {
        self.hysteresis
    }

    /// Where the output goes.
    pub closed spec fn output_sel_spec(self) -> OutputSel {
        self.output_sel
    }

    /// The output polarity.
    pub closed spec fn polarity_spec(self) -> Polarity {
        self.polarity
    }

    /// Creates a configuration with the given speed, no hysteresis, no output
    /// routing and a non-inverted output.
    pub fn new(speed: Speed) -> (r: Self)
        ensures
            r.speed_spec() == speed,
            r.hysteresis_spec() == Hysteresis::Off,
            r.output_sel_spec() == OutputSel::Nowhere,
            r.polarity_spec() == Polarity::NotInverted,
    {
        Self {
            speed,
            hysteresis: Hysteresis::Off,
            output_sel: OutputSel::Nowhere,
            polarity: Polarity::NotInverted,
        }
    }

    /// Sets the hysteresis.
    pub fn hysteresis(self, hysteresis: Hysteresis) -> (r: Self)
        ensures
            r.speed_spec() == self.speed_spec(),
            r.hysteresis_spec() == hysteresis,
            r.output_sel_spec() == self.output_sel_spec(),
            r.polarity_spec() == self.polarity_spec(),
    {
        Self { hysteresis, ..self }
    }

    /// Routes the output to a timer as well as the pin.
    pub fn output_sel(self, output_sel: OutputSel) -> (r: Self)
        ensures
            r.speed_spec() == self.speed_spec(),
            r.hysteresis_spec() == self.hysteresis_spec(),
            r.output_sel_spec() == output_sel,
            r.polarity_spec() == self.polarity_spec(),
    {
        Self { output_sel, ..self }
    }

    /// Sets the output polarity.
    pub fn polarity(self, polarity: Polarity) -> (r: Self)
        ensures
            r.speed_spec() == self.speed_spec(),
            r.hysteresis_spec() == self.hysteresis_spec(),
            r.output_sel_spec() == self.output_sel_spec(),
            r.polarity_spec() == polarity,
    {
        Self { polarity, ..self }
    }
}

/// `CS` once `config` and the inputs are written, with the comparator
/// stopped (`CMPxEN` clear).
pub open spec fn cs_configured(cs: u32, config: CmpConfig, msel: u32, sw: bool) -> u32 {
    put_bit(put_bit(
        put_field(
            put_bit(
                put_field(
                    put_field(put_field(cs, CS_CMPHST, 3, config.hysteresis_spec().code()), CS_CMPOSEL, 7, config.output_sel_spec().code()),
                    CS_CMPM,
                    3,
                    config.speed_spec().code(),
                ),
                CS_CMPPL,
                config.polarity_spec() == Polarity::Inverted,
            ),
            CS_CMPMSEL,
            7,
            msel,
        ),
        CS_CMPSW,
        sw,
    ), CS_CMPEN, false)
}

/// Writing the configuration leaves the comparator stopped and the lock as
/// it was: `CMPLK` lies outside every field it writes.
pub proof fn lemma_configured_keeps_state(cs: u32, config: CmpConfig, msel: u32, sw: bool)
    ensures
        !get_bit(cs_configured(cs, config, msel, sw), CS_CMPEN),
        get_bit(cs_configured(cs, config, msel, sw), CS_CMPLK) == get_bit(cs, CS_CMPLK),
{
    let h = config.hysteresis_spec().code();
    let o = config.output_sel_spec().code();
    let m = config.speed_spec().code();
    let pl = config.polarity_spec() == Polarity::Inverted;
    let v = cs_configured(cs, config, msel, sw);
    assert(v == put_bit(put_bit(put_field(put_bit(put_field(put_field(put_field(cs, 12, 3, h), 8, 7, o), 2, 3, m), 11, pl), 4, 7, msel), 1, sw), 0, false));
    assert(!get_bit(put_bit(put_bit(put_field(put_bit(put_field(put_field(put_field(cs, 12, 3, h), 8, 7, o), 2, 3, m), 11, pl), 4, 7, msel), 1, sw), 0, false), 0)
        && get_bit(put_bit(put_bit(put_field(put_bit(put_field(put_field(put_field(cs, 12, 3, h), 8, 7, o), 2, 3, m), 11, pl), 4, 7, msel), 1, sw), 0, false), 15) == get_bit(cs, 15))
        by (bit_vector);
}

/// Two configurations that agree on every setting are the same
/// configuration.
pub proof fn law_config_settings_determine(a: CmpConfig, b: CmpConfig)
    requires
        a.speed_spec() == b.speed_spec(),
        a.hysteresis_spec() == b.hysteresis_spec(),
        a.output_sel_spec() == b.output_sel_spec(),
        a.polarity_spec() == b.polarity_spec(),
    ensures
        a == b,
{
}

/// Typestate: the control register still accepts writes.
pub struct Unlocked;

/// Typestate: the control register is frozen until the next system reset.
pub struct Locked;

/// The comparator, configured and stopped.
pub struct Cmp<POS, INV> {
    cmp: periph::Cmp,
    pos: POS,
    inv: INV,
}

/// The comparator, running; once `LOCKED` is [`Locked`] the control register
/// is frozen for good.
pub struct CmpRunning<POS, INV, LOCKED> {
    cmp: periph::Cmp,
    pos: POS,
    inv: INV,
    _locked: PhantomData<LOCKED>,
}

impl<POS, INV> Cmp<POS, INV> {
    /// The registers.
    pub closed spec fn regs(&self) -> periph::Cmp {
        self.cmp
    }

    /// The registers, for the code that mirrors them onto the chip.
    pub fn registers(&self) -> (r: &periph::Cmp)
        ensures
            *r == self.regs(),
    {
        &self.cmp
    }

    /// The inputs held.
    pub closed spec fn inputs(&self) -> (POS, INV) {
        (self.pos, self.inv)
    }
}

impl<POS, INV, LOCKED> CmpRunning<POS, INV, LOCKED> {
    /// The registers.
    pub closed spec fn regs(&self) -> periph::Cmp {
        self.cmp
    }

    /// The registers, for the code that mirrors them onto the chip.
    pub fn registers(&self) -> (r: &periph::Cmp)
        ensures
            *r == self.regs(),
    {
        &self.cmp
    }

    /// The inputs held.
    pub closed spec fn inputs(&self) -> (POS, INV) {
        (self.pos, self.inv)
    }

    /// Whether the non-inverting input is above the inverting one: `CMPxO`,
    /// taken before the polarity multiplexer.
    pub fn output(&self) -> (r: bool)
        ensures
            r == get_bit(self.regs().cs, CS_CMPO),
    {
        read_bit(self.cmp.cs, CS_CMPO)
    }
}

impl<POS: NonInvertingInput, INV: InvertingInput> Cmp<POS, INV> {
    /// Clocks the peripheral and applies `config`, leaving the comparator stopped.
    pub fn new(rcu: &mut Rcu, cmp: periph::Cmp, pos: POS, inv: INV, config: CmpConfig) -> (r: Self)
        ensures
            r.regs().cs == cs_configured(cmp.cs, config, INV::msel(), POS::sw()),
            !get_bit(r.regs().cs, CS_CMPEN),
            get_bit(r.regs().cs, CS_CMPLK) == get_bit(cmp.cs, CS_CMPLK),
            r.inputs() == (pos, inv),
            final(rcu).regs() == with_enable(old(rcu).regs(), Bus::Apb2, APB2_CFGCMP, true),
            final(rcu).clocks() == old(rcu).clocks(),
    {
        rcu.enable_cfgcmp();
        let mut c = Self { cmp, pos, inv };
        c.apply_config(config);
        proof {
            lemma_configured_keeps_state(cmp.cs, config, INV::msel(), POS::sw());
        }
        c
    }

    /// Hands back the register file and both inputs. The clock stays on.
    pub fn release(self) -> (r: (periph::Cmp, POS, INV))
        ensures
            r.0 == self.regs(),
            (r.1, r.2) == self.inputs(),
    {
        (self.cmp, self.pos, self.inv)
    }

    /// Writes the whole configuration, leaving `CMPxEN` alone.
    fn apply_config(&mut self, config: CmpConfig)
        ensures
            final(self).regs().cs == cs_configured(old(self).regs().cs, config, INV::msel(), POS::sw()),
            final(self).inputs() == old(self).inputs(),
    {
        let hst: u32 = match config.hysteresis {
            Hysteresis::Off => 0,
            Hysteresis::Low => 1,
            Hysteresis::Medium => 2,
            Hysteresis::High => 3,
        };
        let osel: u32 = match config.output_sel {
            OutputSel::Nowhere => 0b000,
            OutputSel::Timer0Break => 0b001,
            OutputSel::Timer0Ch0 => 0b010,
            OutputSel::Timer0OcpreClr => 0b011,
            OutputSel::Timer2Ch0 => 0b110,
            OutputSel::Timer2OcpreClr => 0b111,
        };
        let m: u32 = match config.speed {
            Speed::High => 0,
            Speed::Medium => 1,
            Speed::Low => 2,
            Speed::VeryLow => 3,
        };
        let pl = match config.polarity {
            Polarity::Inverted => true,
            Polarity::NotInverted => false,
        };
        let w = write_field(self.cmp.cs, CS_CMPHST, 3, hst);
        let w = write_field(w, CS_CMPOSEL, 7, osel);
        let w = write_field(w, CS_CMPM, 3, m);
        let w = write_bit(w, CS_CMPPL, pl);
        let w = write_field(w, CS_CMPMSEL, 7, INV::msel_code());
        let w = write_bit(w, CS_CMPSW, POS::switch_closed());
        // The configuration is written with the comparator stopped.
        self.cmp.cs = write_bit(w, CS_CMPEN, false);
    }

    /// Starts the comparator.
    pub fn enable(self) -> (r: CmpRunning<POS, INV, Unlocked>)
        ensures
            r.regs().cs == put_bit(self.regs().cs, CS_CMPEN, true),
            r.inputs() == self.inputs(),
    {
        let mut cmp = self.cmp;
        cmp.cs = write_bit(cmp.cs, CS_CMPEN, true);
        CmpRunning { cmp, pos: self.pos, inv: self.inv, _locked: PhantomData }
    }
}

impl<POS, INV> CmpRunning<POS, INV, Unlocked> {
    /// Stops the comparator, handing back the configured but idle peripheral.
    pub fn disable(self) -> (r: Cmp<POS, INV>)
        ensures
            r.regs().cs == put_bit(self.regs().cs, CS_CMPEN, false),
            r.inputs() == self.inputs(),
    {
        let mut cmp = self.cmp;
        cmp.cs = write_bit(cmp.cs, CS_CMPEN, false);
        Cmp { cmp, pos: self.pos, inv: self.inv }
    }

    /// Freezes the control register until the next system reset. The locked
    /// type has neither `disable` nor a way out.
    pub fn lock(self) -> (r: CmpRunning<POS, INV, Locked>)
        ensures
            r.regs().cs == put_bit(self.regs().cs, CS_CMPLK, true),
            r.inputs() == self.inputs(),
    {
        let mut cmp = self.cmp;
        cmp.cs = write_bit(cmp.cs, CS_CMPLK, true);
        CmpRunning { cmp, pos: self.pos, inv: self.inv, _locked: PhantomData }
    }
}

/// The fraction of `VREFINT`, in quarters, that an `MSEL` code of 0 to 3
/// ties the inverting input to: `code + 1` quarters. The pin codes tie it to
/// no fraction (0).
pub open spec fn msel_vref_quarters(code: u32) -> u32 {
    if code < 4 {
        (code + 1) as u32
    } else {
        0
    }
}

/// The `PA` pin an `MSEL` code of 4 to 7 ties the inverting input to: PA4,
/// PA5, PA0, PA2. The reference taps tie it to no pin (16).
pub open spec fn msel_pin(code: u32) -> u32 {
    if code == 4 {
        4
    } else if code == 5 {
        5
    } else if code == 6 {
        0
    } else if code == 7 {
        2
    } else {
        16
    }
}

/// Each inverting-input source selects itself: a reference tap the fraction
/// of `VREFINT` it is named for (so the taps rise with their codes), a pin
/// its own pin.
pub proof fn law_inverting_input_codes()
    ensures
        msel_vref_quarters(VrefintQuarter::msel()) == 1,
        msel_vref_quarters(VrefintHalf::msel()) == 2,
        msel_vref_quarters(VrefintThreeQuarters::msel()) == 3,
        msel_vref_quarters(Vrefint::msel()) == 4,
        msel_pin(Pin::<PORT_A, 4, Analog>::msel()) == 4,
        msel_pin(Pin::<PORT_A, 5, Analog>::msel()) == 5,
        msel_pin(Pin::<PORT_A, 0, Analog>::msel()) == 0,
        msel_pin(Pin::<PORT_A, 2, Analog>::msel()) == 2,
{
}

/// The non-inverting input closes the switch exactly when PA4 is joined to
/// PA1.
pub proof fn law_non_inverting_switch()
    ensures
        !Pin::<PORT_A, 1, Analog>::sw(),
        <(Pin<PORT_A, 1, Analog>, Pin<PORT_A, 4, Analog>)>::sw(),
{
}

/// Distinct settings write distinct codes, each within its field: hysteresis
/// codes rise with the hysteresis, speed codes fall with the speed (the
/// slowest mode draws least), and the output selection never uses the
/// reserved codes `0b100` and `0b101`.
pub proof fn law_setting_codes(h: Hysteresis, h2: Hysteresis, s: Speed, s2: Speed, o: OutputSel, o2: OutputSel)
    ensures
        h.code() < 4,
        h.code() == h2.code() ==> h == h2,
        Hysteresis::Off.code() < Hysteresis::Low.code() < Hysteresis::Medium.code() < Hysteresis::High.code(),
        s.code() < 4,
        s.code() == s2.code() ==> s == s2,
        Speed::High.code() < Speed::Medium.code() < Speed::Low.code() < Speed::VeryLow.code(),
        o.code() < 8,
        o.code() != 4 && o.code() != 5,
        o.code() == o2.code() ==> o == o2,
        OutputSel::Nowhere.code() == 0,
{
}

} // verus!
