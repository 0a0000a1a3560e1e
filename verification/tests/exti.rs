use gd32e2_hal::exti::{EdgeTrigger, ExtiExt};
use gd32e2_hal::fmc::FmcExt;
use gd32e2_hal::gpio::GpioExt;
use gd32e2_hal::periph;
use gd32e2_hal::rcu::{ClockConfig, Rcu, RcuExt};
use gd32e2_hal::syscfg::SyscfgExt;

fn rcu() -> Rcu {
    let mut fmc = periph::Fmc::reset_state(0, 0xffff_ffff, 0, vec![]).constrain();
    periph::Rcu::reset_state().constrain().freeze(&mut fmc, ClockConfig::default())
}

#[test]
fn syscfg_constrain_enables_its_clock() {
    let mut rcu = rcu();
    let syscfg = periph::Syscfg::reset_state().constrain(&mut rcu);
    assert_eq!(rcu.registers().apb2en & 1, 1);
    assert_eq!(syscfg.registers().extiss0, 0);
}

#[test]
fn source_selects_the_port() {
    let mut rcu = rcu();
    let mut syscfg = periph::Syscfg::reset_state().constrain(&mut rcu);
    let mut b = periph::Gpiob { regs: periph::GpioRegs::reset_other() }.split(&mut rcu);
    let mut f = periph::Gpiof { regs: periph::GpioRegs::reset_other() }.split(&mut rcu);
    let lines = periph::Exti::reset_state().split();
    let pb6 = b.pb6.into_input(&mut b.port);
    let _line6 = lines.line6.source(&mut syscfg, pb6);
    assert_eq!(syscfg.registers().extiss1, 1 << 8);
    let pf1 = f.pf1.into_input(&mut f.port);
    let _line1 = lines.line1.source(&mut syscfg, pf1);
    assert_eq!(syscfg.registers().extiss0, 5 << 4);
    assert_eq!(syscfg.registers().extiss1, 1 << 8);
    assert_eq!(syscfg.registers().extiss2, 0);
}

#[test]
fn line_edges_listen_and_pending() {
    let mut rcu = rcu();
    let mut syscfg = periph::Syscfg::reset_state().constrain(&mut rcu);
    let mut a = periph::Gpioa { regs: periph::GpioRegs::reset_port_a() }.split(&mut rcu);
    let mut lines = periph::Exti::reset_state().split();
    let pa0 = a.pa0.into_push_pull_output(&mut a.port);
    let mut line = lines.line0.source(&mut syscfg, pa0);
    assert_eq!(syscfg.registers().extiss0, 0);

    line.edge(&mut lines.regs, EdgeTrigger::Rising);
    assert_eq!(lines.regs.rten, 1);
    assert_eq!(lines.regs.ften, 0);
    line.edge(&mut lines.regs, EdgeTrigger::Both);
    assert_eq!(lines.regs.rten, 1);
    assert_eq!(lines.regs.ften, 1);
    line.edge(&mut lines.regs, EdgeTrigger::Falling);
    assert_eq!(lines.regs.rten, 0);
    assert_eq!(lines.regs.ften, 1);

    line.listen(&mut lines.regs);
    assert!(line.is_listening(&lines.regs));
    assert_eq!(lines.regs.inten, 0x0f94_0001);
    line.unlisten(&mut lines.regs);
    assert!(!line.is_listening(&lines.regs));
    line.listen_event(&mut lines.regs);
    assert!(line.is_listening_event(&lines.regs));
    line.unlisten_event(&mut lines.regs);
    assert!(!line.is_listening_event(&lines.regs));

    line.pend(&mut lines.regs);
    assert_eq!(lines.regs.swiev, 1);
    // The controller latches the line: PD of lines 0 and 1 stand.
    lines.regs.pd = 0b11;
    assert!(line.is_pending(&lines.regs));
    line.clear_interrupt(&mut lines.regs);
    assert!(!line.is_pending(&lines.regs));
    assert_eq!(lines.regs.pd, 0b10);

    // The pin stays usable through the line.
    line.pin_mut().set_high(&mut a.port);
    assert!(line.pin().is_set_high(&a.port));
    assert_eq!(a.port.regs.octl, 1);
}

#[test]
fn release_disarms_the_line() {
    let mut rcu = rcu();
    let mut syscfg = periph::Syscfg::reset_state().constrain(&mut rcu);
    let mut a = periph::Gpioa { regs: periph::GpioRegs::reset_port_a() }.split(&mut rcu);
    let mut lines = periph::Exti::reset_state().split();
    let pa3 = a.pa3.into_input(&mut a.port);
    let mut line = lines.line3.source(&mut syscfg, pa3);
    line.edge(&mut lines.regs, EdgeTrigger::Both);
    line.listen(&mut lines.regs);
    line.listen_event(&mut lines.regs);
    lines.regs.pd = 1 << 3;
    let (_line3, pin) = line.release(&mut lines.regs);
    assert_eq!(lines.regs.rten, 0);
    assert_eq!(lines.regs.ften, 0);
    assert_eq!(lines.regs.inten, 0x0f94_0000);
    assert_eq!(lines.regs.even, 0);
    assert_eq!(lines.regs.pd, 0);
    a.port.regs.istat = 1 << 3;
    assert!(pin.is_high(&a.port));
}

#[test]
fn internal_lines_listen() {
    let mut lines = periph::Exti::reset_state().split();
    lines.line17.listen(&mut lines.regs);
    lines.line25.unlisten(&mut lines.regs);
    assert_eq!(lines.regs.inten, 0x0f94_0000 & !(1 << 25) | (1 << 17));
    lines.line19.edge(&mut lines.regs, EdgeTrigger::Rising);
    assert_eq!(lines.regs.rten, 1 << 19);
    lines.line16.pend(&mut lines.regs);
    assert_eq!(lines.regs.swiev, 1 << 16);
}
