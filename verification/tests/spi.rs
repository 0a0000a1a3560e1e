use gd32e2_hal::fmc::FmcExt;
use gd32e2_hal::gpio::{Alternate, GpioExt, Pin, PushPull, PORT_A};
use gd32e2_hal::periph::{self, CtlEvent};
use gd32e2_hal::rcu::{ClockConfig, Rcu, RcuExt};
use gd32e2_hal::spi::{
    BitOrder, Byte, Error, Event, Mode, Phase, Polarity, Spi, SpiConfig, SpiPsc, FILL_LOW, FILL_LOW_WORD,
};

type Spi0 = Spi<
    periph::Spi0,
    Pin<PORT_A, 5, Alternate<0, PushPull>>,
    Pin<PORT_A, 6, Alternate<0, PushPull>>,
    Pin<PORT_A, 7, Alternate<0, PushPull>>,
    Byte,
>;

fn rcu() -> Rcu {
    let mut fmc = periph::Fmc::reset_state(0, 0xffff_ffff, 0, vec![]).constrain();
    periph::Rcu::reset_state().constrain().freeze(&mut fmc, ClockConfig::default())
}

fn spi0(rcu: &mut Rcu, incoming: Vec<u16>, stat: u32, config: SpiConfig) -> Spi0 {
    spi0_flagged(rcu, incoming, vec![], stat, config)
}

fn spi0_flagged(rcu: &mut Rcu, incoming: Vec<u16>, flags: Vec<u32>, stat: u32, config: SpiConfig) -> Spi0 {
    let mut a = periph::Gpioa { regs: periph::GpioRegs::reset_port_a() }.split(rcu);
    let sck = a.pa5.into_alternate::<0>(&mut a.port);
    let miso = a.pa6.into_alternate::<0>(&mut a.port);
    let mosi = a.pa7.into_alternate::<0>(&mut a.port);
    let mut regs = periph::SpiRegs::reset_state(incoming, flags);
    regs.stat = stat;
    Spi::new(rcu, periph::Spi0 { regs }, sck, miso, mosi, config)
}

const TBE: u32 = 1 << 1;

#[test]
fn new_configures_master_mode() {
    let mut rcu = rcu();
    let spi = spi0(&mut rcu, vec![], TBE, SpiConfig::new(SpiPsc::Div8));
    assert_eq!(rcu.registers().apb2en & (1 << 12), 1 << 12);
    // MSTMOD, SPIEN, SWNSS, SWNSSEN and PSC = 2; mode 0, MSB first, 8-bit.
    assert_eq!(spi.registers().ctl0, (1 << 2) | (1 << 6) | (1 << 8) | (1 << 9) | (2 << 3));
    assert_eq!(spi.registers().ctl1, 0);
    let ctl0 = spi.registers().ctl0;
    assert_eq!(spi.registers().ctl_log, vec![CtlEvent::Reset, CtlEvent::Ctl0(ctl0)]);
}

#[test]
fn mode_and_bit_order_bits() {
    let mut rcu = rcu();
    let mode = Mode { polarity: Polarity::IdleHigh, phase: Phase::CaptureOnSecondTransition };
    let config = SpiConfig::new(SpiPsc::Div256).mode(mode).bit_order(BitOrder::LsbFirst);
    let spi = spi0(&mut rcu, vec![], TBE, config);
    let ctl0 = spi.registers().ctl0;
    assert_eq!(ctl0 & 3, 3);
    assert_eq!((ctl0 >> 7) & 1, 1);
    assert_eq!((ctl0 >> 3) & 7, 7);
    let m0 = Mode::mode_0();
    assert!(m0.polarity == Polarity::IdleLow);
    assert!(m0.phase == Phase::CaptureOnFirstTransition);
}

#[test]
fn transfer_byte_exchanges() {
    let mut rcu = rcu();
    let mut spi = spi0(&mut rcu, vec![0xa5, 0x1ff], TBE, SpiConfig::new(SpiPsc::Div2));
    assert!(spi.write_ready());
    assert!(spi.transfer_byte(0x3c) == Ok(0xa5));
    // An 8-bit frame keeps only the low byte of the data register.
    assert!(spi.transfer_byte(0x00) == Ok(0xff));
    assert_eq!(spi.registers().sent, vec![0x3c, 0x00]);
    assert!(!spi.read_ready());
}

#[test]
fn transfer_bytes_fills_read() {
    let mut rcu = rcu();
    let mut spi = spi0(&mut rcu, vec![1, 2, 3], TBE, SpiConfig::new(SpiPsc::Div2));
    let mut read = [0u8; 3];
    assert!(spi.transfer_bytes(&mut read, &[9, 8, 7]) == Ok(()));
    assert_eq!(read, [1, 2, 3]);
    assert_eq!(spi.registers().sent, vec![9, 8, 7]);
    let mut none: [u8; 0] = [];
    assert!(spi.transfer(&mut none, &[]) == Ok(()));
}

#[test]
fn transfer_in_place_replaces_each_byte() {
    let mut rcu = rcu();
    let mut spi = spi0(&mut rcu, vec![0x10, 0x20], TBE, SpiConfig::new(SpiPsc::Div2));
    let mut buf = [0xaa, 0xbb];
    assert!(spi.transfer_bytes_in_place(&mut buf) == Ok(()));
    assert_eq!(buf, [0x10, 0x20]);
    assert_eq!(spi.registers().sent, vec![0xaa, 0xbb]);
}

#[test]
fn read_sends_fill_and_write_discards() {
    let mut rcu = rcu();
    let mut spi = spi0(&mut rcu, vec![5, 6, 7, 8], TBE, SpiConfig::new(SpiPsc::Div2));
    let mut buf = [0u8; 2];
    assert!(spi.read(&mut buf) == Ok(()));
    assert_eq!(buf, [5, 6]);
    assert!(spi.write(&[0x11, 0x22]) == Ok(()));
    assert_eq!(spi.registers().sent, vec![FILL_LOW as u16, FILL_LOW as u16, 0x11, 0x22]);
    assert_eq!(spi.registers().taken, 4);
    assert!(spi.flush() == Ok(()));
}

#[test]
fn overrun_is_reported_and_cleared() {
    let mut rcu = rcu();
    let mut spi = spi0(&mut rcu, vec![0x42, 0x43], TBE | (1 << 6), SpiConfig::new(SpiPsc::Div2));
    assert!(spi.transfer_byte(0x01) == Err(Error::Overrun));
    assert_eq!(spi.registers().stat, TBE);
    assert!(spi.transfer_byte(0x02) == Ok(0x43));
}

#[test]
fn buffer_exchange_stops_at_the_first_error() {
    let mut rcu = rcu();
    let mut spi = spi0(&mut rcu, vec![1, 2, 3], TBE | (1 << 4), SpiConfig::new(SpiPsc::Div2));
    let mut read = [0u8; 3];
    assert!(spi.transfer_bytes(&mut read, &[9, 8, 7]) == Err(Error::Crc));
    assert_eq!(read, [0, 0, 0]);
    assert_eq!(spi.registers().sent, vec![9]);
}

#[test]
fn buffer_exchange_stops_at_a_spoiled_word() {
    let mut rcu = rcu();
    // The third word arrives with RXORERR raised, the fourth with FERR.
    let flags = vec![0, 0, 1 << 6, 1 << 8];
    let mut spi = spi0_flagged(&mut rcu, vec![1, 2, 3, 4], flags, TBE, SpiConfig::new(SpiPsc::Div2));
    let mut read = [0xaau8; 4];
    assert!(spi.transfer_bytes(&mut read, &[9, 8, 7, 6]) == Err(Error::Overrun));
    assert_eq!(read, [1, 2, 0xaa, 0xaa]);
    assert_eq!(spi.registers().sent, vec![9, 8, 7]);
    assert_eq!(spi.registers().taken, 3);
    assert_eq!(spi.registers().stat, TBE);
    assert!(spi.transfer_byte(5) == Err(Error::Framing));
    assert_eq!(spi.registers().stat, TBE);
}

#[test]
fn flags_outside_the_error_bits_are_not_raised() {
    let mut rcu = rcu();
    let mut spi = spi0_flagged(&mut rcu, vec![0x31], vec![1 << 7], TBE, SpiConfig::new(SpiPsc::Div2));
    assert!(spi.transfer_byte(0) == Ok(0x31));
    assert_eq!(spi.registers().stat, TBE);
}

#[test]
fn take_error_priority() {
    let mut rcu = rcu();
    let stat = TBE | (1 << 8) | (1 << 5) | (1 << 4) | (1 << 6);
    let mut spi = spi0(&mut rcu, vec![], stat, SpiConfig::new(SpiPsc::Div2));
    assert!(spi.take_error() == Some(Error::Overrun));
    assert!(spi.take_error() == Some(Error::ModeFault));
    assert!(spi.take_error() == Some(Error::Crc));
    assert!(spi.take_error() == Some(Error::Framing));
    assert!(spi.take_error().is_none());
    assert_eq!(spi.registers().stat, TBE);
}

#[test]
fn listen_and_release() {
    let mut rcu = rcu();
    let mut spi = spi0(&mut rcu, vec![], TBE, SpiConfig::new(SpiPsc::Div2));
    spi.listen(Event::Rbne);
    spi.listen(Event::Error);
    assert!(spi.is_listening(Event::Rbne));
    assert!(spi.is_listening(Event::Error));
    assert!(!spi.is_listening(Event::Tbe));
    assert_eq!(spi.registers().ctl1, (1 << 6) | (1 << 5));
    spi.unlisten(Event::Rbne);
    assert_eq!(spi.registers().ctl1, 1 << 5);
    let (raw, _sck, _miso, _mosi) = spi.release();
    assert_eq!(raw.regs.ctl0 & (1 << 6), 0);
    assert_eq!(raw.regs.ctl0 & (1 << 2), 1 << 2);
}

#[test]
fn spi1_word_frames() {
    let mut rcu = rcu();
    let mut a = periph::Gpioa { regs: periph::GpioRegs::reset_port_a() }.split(&mut rcu);
    let mut b = periph::Gpiob { regs: periph::GpioRegs::reset_other() }.split(&mut rcu);
    let sck = b.pb1.into_alternate::<6>(&mut b.port);
    let miso = a.pa13.activate_into_alternate::<6>(&mut a.port);
    let mosi = a.pa14.activate_into_alternate::<6>(&mut a.port);
    let mut regs = periph::SpiRegs::reset_state(vec![0xbeef, 0x1234, 0x5678], vec![]);
    regs.stat = TBE;
    let mut spi =
        Spi::new_word(&mut rcu, periph::Spi1 { regs }, sck, miso, mosi, SpiConfig::new(SpiPsc::Div4));
    assert_eq!(rcu.registers().apb1en & (1 << 14), 1 << 14);
    // BYTEN clear and DZ = 15 for 16-bit frames; SPI1 has no FF16.
    assert_eq!(spi.registers().ctl1, 0xf << 8);
    assert_eq!(spi.registers().ctl0 & (1 << 11), 0);
    // Reset, then CTL1 (frame width) before CTL0 turns the peripheral on.
    let ctl0 = spi.registers().ctl0;
    assert_eq!(spi.registers().ctl_log, vec![CtlEvent::Reset, CtlEvent::Ctl1(0xf << 8), CtlEvent::Ctl0(ctl0)]);
    assert!(spi.transfer_word(0xcafe) == Ok(0xbeef));
    let mut buf = [0u16; 2];
    assert!(spi.read(&mut buf) == Ok(()));
    assert_eq!(buf, [0x1234, 0x5678]);
    assert_eq!(spi.registers().sent, vec![0xcafe, FILL_LOW_WORD, FILL_LOW_WORD]);
}

#[test]
fn spi0_word_frames_set_ff16() {
    let mut rcu = rcu();
    let mut a = periph::Gpioa { regs: periph::GpioRegs::reset_port_a() }.split(&mut rcu);
    let sck = a.pa5.into_alternate::<0>(&mut a.port);
    let miso = a.pa6.into_alternate::<0>(&mut a.port);
    let mosi = a.pa7.into_alternate::<0>(&mut a.port);
    let mut regs = periph::SpiRegs::reset_state(vec![7, 8, 9], vec![]);
    regs.stat = TBE;
    let mut spi = Spi::new_word(&mut rcu, periph::Spi0 { regs }, sck, miso, mosi, SpiConfig::new(SpiPsc::Div2));
    assert_eq!(spi.registers().ctl0 & (1 << 11), 1 << 11);
    let mut buf = [0x100u16, 0x200];
    assert!(spi.transfer_words_in_place(&mut buf) == Ok(()));
    assert_eq!(buf, [7, 8]);
    let mut read = [0u16; 1];
    assert!(spi.transfer_words(&mut read, &[0x300]) == Ok(()));
    assert_eq!(read, [9]);
    assert!(spi.write(&[]) == Ok(()));
    assert_eq!(spi.registers().sent, vec![0x100, 0x200, 0x300]);
}
