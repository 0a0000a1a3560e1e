use gd32e2_hal::cmp::{Cmp, CmpConfig, Hysteresis, OutputSel, Polarity, Speed, VrefintHalf};
use gd32e2_hal::fmc::FmcExt;
use gd32e2_hal::gpio::GpioExt;
use gd32e2_hal::periph;
use gd32e2_hal::rcu::{ClockConfig, Rcu, RcuExt};

fn rcu() -> Rcu {
    let mut fmc = periph::Fmc::reset_state(0, 0xffff_ffff, 0, vec![]).constrain();
    periph::Rcu::reset_state().constrain().freeze(&mut fmc, ClockConfig::default())
}

#[test]
fn new_writes_the_control_register() {
    let mut rcu = rcu();
    let mut a = periph::Gpioa { regs: periph::GpioRegs::reset_port_a() }.split(&mut rcu);
    let pa1 = a.pa1.into_analog(&mut a.port);
    let config = CmpConfig::new(Speed::Low)
        .hysteresis(Hysteresis::Medium)
        .output_sel(OutputSel::Timer2Ch0)
        .polarity(Polarity::Inverted);
    let cmp = Cmp::new(&mut rcu, periph::Cmp { cs: 0 }, pa1, VrefintHalf, config);
    assert_eq!(rcu.registers().apb2en & 1, 1);
    // HST = 2, OSEL = 0b110, PL, MSEL = 1, M = 2, SW open, not enabled.
    assert_eq!(cmp.registers().cs, (2 << 12) | (0b110 << 8) | (1 << 11) | (1 << 4) | (2 << 2));
}

#[test]
fn new_leaves_a_running_comparator_stopped() {
    let mut rcu = rcu();
    let mut a = periph::Gpioa { regs: periph::GpioRegs::reset_port_a() }.split(&mut rcu);
    let pa1 = a.pa1.into_analog(&mut a.port);
    let cmp = Cmp::new(&mut rcu, periph::Cmp { cs: 1 }, pa1, VrefintHalf, CmpConfig::new(Speed::High));
    assert_eq!(cmp.registers().cs & 1, 0);
    assert_eq!(cmp.registers().cs, 1 << 4);
}

#[test]
fn switch_closes_for_the_pa1_pa4_pair() {
    let mut rcu = rcu();
    let mut a = periph::Gpioa { regs: periph::GpioRegs::reset_port_a() }.split(&mut rcu);
    let pa1 = a.pa1.into_analog(&mut a.port);
    let pa4 = a.pa4.into_analog(&mut a.port);
    let pa5 = a.pa5.into_analog(&mut a.port);
    let cmp = Cmp::new(&mut rcu, periph::Cmp { cs: 0 }, (pa1, pa4), pa5, CmpConfig::new(Speed::High));
    assert_eq!(cmp.registers().cs, (0b101 << 4) | (1 << 1));
    let (regs, _pos, _inv) = cmp.release();
    assert_eq!(regs.cs, (0b101 << 4) | (1 << 1));
}

#[test]
fn enable_disable_lock_and_output() {
    let mut rcu = rcu();
    let mut a = periph::Gpioa { regs: periph::GpioRegs::reset_port_a() }.split(&mut rcu);
    let pa1 = a.pa1.into_analog(&mut a.port);
    let pa0 = a.pa0.into_analog(&mut a.port);
    let cmp = Cmp::new(&mut rcu, periph::Cmp { cs: 1 << 14 }, pa1, pa0, CmpConfig::new(Speed::VeryLow));
    let running = cmp.enable();
    assert_eq!(running.registers().cs & 1, 1);
    assert!(running.output());
    let stopped = running.disable();
    assert_eq!(stopped.registers().cs & 1, 0);
    let locked = stopped.enable().lock();
    assert_eq!(locked.registers().cs & ((1 << 15) | 1), (1 << 15) | 1);
    assert_eq!((locked.registers().cs >> 4) & 7, 0b110);
    assert_eq!((locked.registers().cs >> 2) & 3, 3);
}
