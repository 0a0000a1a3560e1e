use gd32e2_hal::fmc::FmcExt;
use gd32e2_hal::gpio::{GpioExt, PartsA, PartsB, PartsF, Port, Pull, Speed};
use gd32e2_hal::periph::{self, LockAccess};
use gd32e2_hal::rcu::{ClockConfig, Rcu, RcuExt};

fn rcu() -> Rcu {
    let mut fmc = periph::Fmc::reset_state(0, 0xffff_ffff, 0, vec![]).constrain();
    periph::Rcu::reset_state().constrain().freeze(&mut fmc, ClockConfig::default())
}

fn ports(rcu: &mut Rcu) -> (PartsA, PartsB, PartsF) {
    let a = periph::Gpioa { regs: periph::GpioRegs::reset_port_a() }.split(rcu);
    let b = periph::Gpiob { regs: periph::GpioRegs::reset_other() }.split(rcu);
    let f = periph::Gpiof { regs: periph::GpioRegs::reset_other() }.split(rcu);
    (a, b, f)
}

#[test]
fn split_enables_port_clocks() {
    let mut rcu = rcu();
    let (a, b, f) = ports(&mut rcu);
    let ahben = rcu.registers().ahben;
    assert_eq!(ahben & (1 << 17), 1 << 17);
    assert_eq!(ahben & (1 << 18), 1 << 18);
    assert_eq!(ahben & (1 << 22), 1 << 22);
    assert!(a.port.port() == Port::A);
    assert!(b.port.port() == Port::B);
    assert!(f.port.port() == Port::F);
    assert_eq!(a.port.regs.ctl, 0x2800_0000);
}

#[test]
fn output_drives_and_toggles() {
    let mut rcu = rcu();
    let (mut a, _, _) = ports(&mut rcu);
    let mut led = a.pa5.into_output(&mut a.port);
    assert_eq!((a.port.regs.ctl >> 10) & 3, 1);
    assert_eq!(a.port.regs.omode & (1 << 5), 0);
    assert!(led.is_set_low(&a.port));
    led.set_high(&mut a.port);
    assert!(led.is_set_high(&a.port));
    assert_eq!(a.port.regs.octl, 1 << 5);
    led.toggle(&mut a.port);
    assert!(led.is_set_low(&a.port));
    led.toggle(&mut a.port);
    assert!(led.is_set_high(&a.port));
    led.set_low(&mut a.port);
    assert_eq!(a.port.regs.octl, 0);
    // The debug pins keep their alternate function.
    assert_eq!((a.port.regs.ctl >> 26) & 0xf, 0b1010);
}

#[test]
fn open_drain_reads_the_pad() {
    let mut rcu = rcu();
    let (_, mut b, _) = ports(&mut rcu);
    let mut line = b.pb3.into_open_drain_output(&mut b.port);
    assert_eq!(b.port.regs.omode, 1 << 3);
    assert_eq!((b.port.regs.ctl >> 6) & 3, 1);
    line.set_high(&mut b.port);
    assert!(line.is_low(&b.port));
    b.port.regs.istat = 1 << 3;
    assert!(line.is_high(&b.port));
}

#[test]
fn input_reads_istat() {
    let mut rcu = rcu();
    let (mut a, _, _) = ports(&mut rcu);
    let button = a.pa0.into_input(&mut a.port);
    assert!(button.is_low(&a.port));
    a.port.regs.istat = 1;
    assert!(button.is_high(&a.port));
    assert!(!button.is_low(&a.port));
}

#[test]
fn alternate_function_fields() {
    let mut rcu = rcu();
    let (mut a, mut b, _) = ports(&mut rcu);
    let _tx = a.pa9.into_alternate::<1>(&mut a.port);
    assert_eq!((a.port.regs.ctl >> 18) & 3, 2);
    assert_eq!((a.port.regs.afsel1 >> 4) & 0xf, 1);
    assert_eq!(a.port.regs.omode & (1 << 9), 0);
    let _sda = b.pb7.into_alternate_open_drain::<1>(&mut b.port);
    assert_eq!((b.port.regs.afsel0 >> 28) & 0xf, 1);
    assert_eq!(b.port.regs.omode, 1 << 7);
    let _ana = a.pa4.into_analog(&mut a.port);
    assert_eq!((a.port.regs.ctl >> 8) & 3, 3);
}

#[test]
fn pull_and_speed_fields() {
    let mut rcu = rcu();
    let (mut a, _, _) = ports(&mut rcu);
    let mut pin = a.pa2.into_output(&mut a.port);
    pin.set_pull(&mut a.port, Pull::Up);
    assert_eq!((a.port.regs.pud >> 4) & 3, 1);
    pin.set_pull(&mut a.port, Pull::Down);
    assert_eq!((a.port.regs.pud >> 4) & 3, 2);
    pin.set_pull(&mut a.port, Pull::Floating);
    assert_eq!((a.port.regs.pud >> 4) & 3, 0);
    pin.set_speed(&mut a.port, Speed::Mhz50);
    assert_eq!((a.port.regs.ospd >> 4) & 3, 3);
    pin.set_speed(&mut a.port, Speed::Mhz10);
    assert_eq!((a.port.regs.ospd >> 4) & 3, 1);
    // PA13/PA14 reset pulls are untouched.
    assert_eq!(a.port.regs.pud >> 26, 0b1001);
}

#[test]
fn lock_sets_lk_and_lkk() {
    let mut rcu = rcu();
    let (mut a, _, _) = ports(&mut rcu);
    let out = a.pa6.into_output(&mut a.port);
    let mut locked = out.lock(&mut a.port);
    assert_eq!(a.port.regs.lock, (1 << 16) | (1 << 6));
    // The key sequence: LKK 1, 0, 1 with the pin's LK bit held.
    assert_eq!(
        a.port.regs.lock_log,
        vec![
            LockAccess::Write((1 << 16) | (1 << 6)),
            LockAccess::Write(1 << 6),
            LockAccess::Write((1 << 16) | (1 << 6)),
            LockAccess::Read,
            LockAccess::Read,
        ]
    );
    locked.set_high(&mut a.port);
    assert!(locked.is_set_high(&a.port));
    locked.toggle(&mut a.port);
    assert!(locked.is_set_low(&a.port));
    let input = a.pa7.into_input(&mut a.port).lock(&mut a.port);
    assert_eq!(a.port.regs.lock, (1 << 16) | (1 << 7) | (1 << 6));
    a.port.regs.istat = 1 << 7;
    assert!(input.is_high(&a.port));
}

#[test]
fn erased_pin_keeps_identity() {
    let mut rcu = rcu();
    let (_, mut b, mut f) = ports(&mut rcu);
    let mut pin = b.pb8.into_output(&mut b.port).erase();
    assert!(pin.port() == Port::B);
    assert_eq!(pin.number(), 8);
    pin.set_high(&mut b.port);
    assert_eq!(b.port.regs.octl, 1 << 8);
    assert!(pin.is_set_high(&b.port));
    pin.toggle(&mut b.port);
    assert!(pin.is_set_low(&b.port));
    let input = f.pf1.into_input(&mut f.port).erase();
    assert!(input.port() == Port::F);
    assert_eq!(input.number(), 1);
    f.port.regs.istat = 2;
    assert!(input.is_high(&f.port));
}

#[test]
fn debugger_pin_activates() {
    let mut rcu = rcu();
    let (mut a, _, _) = ports(&mut rcu);
    let mut pin = a.pa13.activate_into_push_pull_output(&mut a.port);
    assert_eq!((a.port.regs.ctl >> 26) & 3, 1);
    pin.set_high(&mut a.port);
    assert_eq!(a.port.regs.octl, 1 << 13);
    let _swclk = a.pa14.activate(&mut a.port);
    assert_eq!((a.port.regs.ctl >> 28) & 3, 0);
}

#[test]
fn debugger_pins_other_modes() {
    let mut rcu = rcu();
    let (mut a, _, _) = ports(&mut rcu);
    let _od = a.pa13.activate_into_open_drain_output(&mut a.port);
    assert_eq!((a.port.regs.ctl >> 26) & 3, 1);
    assert_eq!(a.port.regs.omode, 1 << 13);
    let _ana = a.pa14.activate_into_analog(&mut a.port);
    assert_eq!((a.port.regs.ctl >> 28) & 3, 3);

    let (mut a, _, _) = ports(&mut rcu);
    let _miso = a.pa13.activate_into_alternate_open_drain::<6>(&mut a.port);
    assert_eq!((a.port.regs.ctl >> 26) & 3, 2);
    assert_eq!((a.port.regs.afsel1 >> 20) & 0xf, 6);
    assert_eq!(a.port.regs.omode, 1 << 13);
    let mut out = a.pa14.activate_into_output(&mut a.port);
    assert_eq!((a.port.regs.ctl >> 28) & 3, 1);
    out.set_high(&mut a.port);
    assert_eq!(a.port.regs.octl, 1 << 14);
}
