use gd32e2_hal::fmc::{Fmc, FmcExt};
use gd32e2_hal::periph;
use gd32e2_hal::rcu::{
    AdcPsc, AdcSel, AhbPsc, ApbPsc, CkOutDiv, CkOutSrc, ClockConfig, Irc28mDiv, PllDiv, PllFreq, Rcu,
    RcuExt, ResetFlag, SysClk, Usart0Sel,
};

fn fresh_fmc() -> Fmc {
    periph::Fmc::reset_state(0x00ff_ff02, 0xffff_ffff, 0x1234_5678, vec![]).constrain()
}

fn frozen(config: ClockConfig) -> (Rcu, Fmc) {
    let mut fmc = fresh_fmc();
    let rcu = periph::Rcu::reset_state().constrain().freeze(&mut fmc, config);
    (rcu, fmc)
}

#[test]
fn freeze_default_stays_on_irc8m() {
    let (rcu, fmc) = frozen(ClockConfig::default());
    let clocks = rcu.clocks();
    assert_eq!(clocks.sysclk().to_Hz(), 8_000_000);
    assert_eq!(clocks.hclk().to_Hz(), 8_000_000);
    assert_eq!(clocks.pclk1().to_Hz(), 8_000_000);
    assert_eq!(clocks.pclk2().to_Hz(), 8_000_000);
    assert_eq!(clocks.usart0().to_Hz(), 8_000_000);
    assert_eq!(clocks.ck_adc().to_Hz(), 0);
    assert_eq!(clocks.pclk1_tim().to_Hz(), 8_000_000);
    assert_eq!(clocks.pclk2_tim().to_Hz(), 8_000_000);
    // Nothing but the (unchanged) USART0 source is written; SCS stays.
    assert_eq!(rcu.registers().cfg0, 0);
    assert_eq!(rcu.registers().ctl0, 0x83);
    assert_eq!(fmc.registers().ws & 7, 0);
}

#[test]
fn freeze_pll_48mhz_programs_multiplier_and_wait_state() {
    let (rcu, fmc) = frozen(ClockConfig::default().sysclk(SysClk::Pll(PllFreq::Mhz48)));
    assert_eq!(rcu.clocks().sysclk().to_Hz(), 48_000_000);
    assert_eq!(rcu.clocks().hclk().to_Hz(), 48_000_000);
    // PLLMF = 12 - 2 at bit 18, PLLSEL = IRC8M/2, SCS = PLL.
    assert_eq!(rcu.registers().cfg0, (10 << 18) | 2);
    assert_eq!(rcu.registers().ctl0, 0x83 | (1 << 24));
    assert_eq!(fmc.registers().ws & 7, 1);
}

#[test]
fn freeze_pll_72mhz_uses_the_multiplier_msb() {
    let (rcu, fmc) = frozen(ClockConfig::default().sysclk(SysClk::Pll(PllFreq::Mhz72)));
    assert_eq!(rcu.clocks().hclk().to_Hz(), 72_000_000);
    // x18 is PLLMF "x3" with PLLMF_MSB adding 15.
    assert_eq!(rcu.registers().cfg0, (1 << 27) | (1 << 18) | 2);
    assert_eq!(fmc.registers().ws & 7, 2);
}

#[test]
fn freeze_pll_8mhz_multiplier_two() {
    let (rcu, fmc) = frozen(ClockConfig::default().sysclk(SysClk::Pll(PllFreq::Mhz8)));
    assert_eq!(rcu.clocks().sysclk().to_Hz(), 8_000_000);
    assert_eq!(rcu.registers().cfg0, 2);
    assert_eq!(fmc.registers().ws & 7, 0);
}

#[test]
fn freeze_wait_states_follow_hclk_limits() {
    for (freq, hz, ws) in [
        (PllFreq::Mhz24, 24_000_000, 0),
        (PllFreq::Mhz28, 28_000_000, 1),
        (PllFreq::Mhz48, 48_000_000, 1),
        (PllFreq::Mhz52, 52_000_000, 2),
    ] {
        let (rcu, fmc) = frozen(ClockConfig::default().sysclk(SysClk::Pll(freq)));
        assert_eq!(rcu.clocks().hclk().to_Hz(), hz);
        assert_eq!(fmc.registers().ws & 7, ws);
    }
}

#[test]
fn freeze_prescalers_divide_and_double_timer_clocks() {
    let config = ClockConfig::default()
        .sysclk(SysClk::Pll(PllFreq::Mhz72))
        .hclk(AhbPsc::Div2)
        .pclk1(ApbPsc::Div2)
        .pclk2(ApbPsc::Div4);
    let (rcu, fmc) = frozen(config);
    let clocks = rcu.clocks();
    assert_eq!(clocks.hclk().to_Hz(), 36_000_000);
    assert_eq!(clocks.pclk1().to_Hz(), 18_000_000);
    assert_eq!(clocks.pclk2().to_Hz(), 9_000_000);
    assert_eq!(clocks.pclk1_tim().to_Hz(), 36_000_000);
    assert_eq!(clocks.pclk2_tim().to_Hz(), 18_000_000);
    assert_eq!(clocks.usart0().to_Hz(), 9_000_000);
    // AHBPSC = 8 at bit 4, APB1PSC = 4 at bit 8, APB2PSC = 5 at bit 11.
    assert_eq!(rcu.registers().cfg0, (1 << 27) | (1 << 18) | (5 << 11) | (4 << 8) | (8 << 4) | 2);
    assert_eq!(fmc.registers().ws & 7, 1);
}

#[test]
fn freeze_ahb_div512() {
    let (rcu, _) = frozen(ClockConfig::default().hclk(AhbPsc::Div512));
    assert_eq!(rcu.clocks().hclk().to_Hz(), 8_000_000 / 512);
    assert_eq!((rcu.registers().cfg0 >> 4) & 0xf, 15);
}

#[test]
fn freeze_usart0_sources() {
    let base = ClockConfig::default().sysclk(SysClk::Pll(PllFreq::Mhz64)).pclk2(ApbPsc::Div2);
    for (sel, hz, code) in [
        (Usart0Sel::Apb2, 32_000_000, 0),
        (Usart0Sel::Sysclk, 64_000_000, 1),
        (Usart0Sel::Lxtal, 32_768, 2),
        (Usart0Sel::Irc8m, 8_000_000, 3),
    ] {
        let (rcu, _) = frozen(base.usart0_sel(sel));
        assert_eq!(rcu.clocks().usart0().to_Hz(), hz);
        assert_eq!(rcu.registers().cfg2 & 3, code);
    }
}

#[test]
fn freeze_adc_from_irc28m() {
    let (rcu, _) = frozen(ClockConfig::default().adc_sel(AdcSel::Irc28m(Irc28mDiv::Div2)));
    assert_eq!(rcu.clocks().ck_adc().to_Hz(), 14_000_000);
    assert_eq!(rcu.registers().ctl1 & 1, 1);
    assert_eq!((rcu.registers().cfg2 >> 16) & 1, 0);
    assert_eq!((rcu.registers().cfg2 >> 8) & 1, 0);

    let (rcu, _) = frozen(ClockConfig::default().adc_sel(AdcSel::Irc28m(Irc28mDiv::Div1)));
    assert_eq!(rcu.clocks().ck_adc().to_Hz(), 28_000_000);
    assert_eq!((rcu.registers().cfg2 >> 16) & 1, 1);
}

#[test]
fn freeze_adc_prescaled() {
    let (rcu, _) = frozen(ClockConfig::default().adc_sel(AdcSel::Prescaled(AdcPsc::AhbDiv5)));
    assert_eq!(rcu.clocks().ck_adc().to_Hz(), 1_600_000);
    assert_eq!((rcu.registers().cfg0 >> 14) & 3, 1);
    assert_eq!(rcu.registers().cfg2 >> 31, 1);
    assert_eq!((rcu.registers().cfg2 >> 8) & 1, 1);

    let (rcu, _) = frozen(ClockConfig::default().adc_sel(AdcSel::Prescaled(AdcPsc::Apb2Div8)));
    assert_eq!(rcu.clocks().ck_adc().to_Hz(), 1_000_000);
    assert_eq!((rcu.registers().cfg0 >> 14) & 3, 3);
    assert_eq!(rcu.registers().cfg2 >> 31, 0);
}

#[test]
fn ck_out_routes_pll_undivided() {
    let (mut rcu, _) = frozen(ClockConfig::default());
    rcu.ck_out(CkOutSrc::Pll(PllDiv::Div1), CkOutDiv::Div4);
    let cfg0 = rcu.registers().cfg0;
    assert_eq!((cfg0 >> 24) & 7, 7);
    assert_eq!((cfg0 >> 28) & 7, 2);
    assert_eq!(cfg0 >> 31, 1);
    rcu.ck_out(CkOutSrc::Off, CkOutDiv::Div1);
    let cfg0 = rcu.registers().cfg0;
    assert_eq!((cfg0 >> 24) & 7, 0);
    assert_eq!((cfg0 >> 28) & 7, 0);
    // PLLDV is left as it was when the PLL is not the source.
    assert_eq!(cfg0 >> 31, 1);
}

#[test]
fn ck_out_leaves_the_clock_tree() {
    let (mut rcu, _) = frozen(ClockConfig::default().sysclk(SysClk::Pll(PllFreq::Mhz48)));
    let before = rcu.clocks();
    rcu.ck_out(CkOutSrc::Sysclk, CkOutDiv::Div128);
    assert!(rcu.clocks() == before);
    assert_eq!((rcu.registers().cfg0 >> 24) & 7, 4);
    assert_eq!((rcu.registers().cfg0 >> 28) & 7, 7);
    assert_eq!(rcu.registers().cfg0 & 3, 2);
}

#[test]
fn irc40k_and_cfgcmp_bits() {
    let (mut rcu, _) = frozen(ClockConfig::default());
    rcu.enable_irc40k();
    assert_eq!(rcu.registers().rstsck & 1, 1);
    rcu.disable_irc40k();
    assert_eq!(rcu.registers().rstsck & 1, 0);
    rcu.enable_cfgcmp();
    assert_eq!(rcu.registers().apb2en & 1, 1);
    rcu.reset_cfgcmp();
    assert_eq!(rcu.registers().apb2rst & 1, 0);
    rcu.disable_cfgcmp();
    assert_eq!(rcu.registers().apb2en & 1, 0);
}

#[test]
fn reset_flags_read_and_clear() {
    let mut regs = periph::Rcu::reset_state();
    // Power and external pin, as after a power-on.
    assert!(regs.rstsck & (1 << 27) != 0);
    regs.rstsck |= 1 << 28;
    let mut fmc = fresh_fmc();
    let mut rcu = regs.constrain().freeze(&mut fmc, ClockConfig::default());
    assert!(rcu.reset_flag(ResetFlag::Power));
    assert!(rcu.reset_flag(ResetFlag::ExternalPin));
    assert!(rcu.reset_flag(ResetFlag::Software));
    assert!(!rcu.reset_flag(ResetFlag::LowPower));
    assert!(!rcu.reset_flag(ResetFlag::WindowWatchdog));
    assert!(!rcu.reset_flag(ResetFlag::FreeWatchdog));
    assert!(!rcu.reset_flag(ResetFlag::OptionByteLoader));
    rcu.enable_irc40k();
    rcu.clear_reset_flags();
    assert!(!rcu.reset_flag(ResetFlag::Power));
    assert!(!rcu.reset_flag(ResetFlag::ExternalPin));
    assert!(!rcu.reset_flag(ResetFlag::Software));
    // The oscillator enable shares the register and is left alone.
    assert_eq!(rcu.registers().rstsck & 1, 1);
}

#[test]
fn pll_freq_hz() {
    assert_eq!(PllFreq::Mhz8.hz(), 8_000_000);
    assert_eq!(PllFreq::Mhz44.hz(), 44_000_000);
    assert_eq!(PllFreq::Mhz72.hz(), 72_000_000);
    assert_eq!(AhbPsc::Div64.div(), 64);
    assert_eq!(ApbPsc::Div16.div(), 16);
}


#[test]
fn readme_example_clock_tree() {
    let (rcu, fmc) = frozen(ClockConfig::default().sysclk(SysClk::Pll(PllFreq::Mhz48)).pclk1(ApbPsc::Div2));
    let c = rcu.clocks();
    assert_eq!(c.hclk().to_Hz(), 48_000_000);
    assert_eq!(c.pclk1().to_Hz(), 24_000_000);
    assert_eq!(c.pclk1_tim().to_Hz(), 48_000_000);
    assert_eq!(c.pclk2().to_Hz(), 48_000_000);
    assert_eq!(c.pclk2_tim().to_Hz(), 48_000_000);
    assert_eq!(c.usart0().to_Hz(), 48_000_000);
    assert_eq!(fmc.registers().ws, 0x11);
}
