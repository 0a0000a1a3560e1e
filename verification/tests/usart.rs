use gd32e2_hal::fmc::FmcExt;
use gd32e2_hal::gpio::{Alternate, GpioExt, Pin, PushPull, PORT_A};
use gd32e2_hal::periph::{self, CtlEvent};
use gd32e2_hal::rcu::{ClockConfig, PllFreq, Rcu, RcuExt, SysClk};
use gd32e2_hal::time::Bps;
use gd32e2_hal::usart::{
    Byte, Error, Event, FrameFormat, Oversampling, Usart, UsartConfig, UsartConfig9, Word, B115200, B9600,
};

type Tx = Pin<PORT_A, 9, Alternate<1, PushPull>>;
type Rx = Pin<PORT_A, 10, Alternate<1, PushPull>>;
type Serial = Usart<periph::Usart0, Tx, Rx, Byte>;

const TC_TBE: u32 = 0xc0;

fn rcu(config: ClockConfig) -> Rcu {
    let mut fmc = periph::Fmc::reset_state(0, 0xffff_ffff, 0, vec![]).constrain();
    periph::Rcu::reset_state().constrain().freeze(&mut fmc, config)
}

fn pins(rcu: &mut Rcu) -> (Tx, Rx) {
    let mut a = periph::Gpioa { regs: periph::GpioRegs::reset_port_a() }.split(rcu);
    let tx = a.pa9.into_alternate::<1>(&mut a.port);
    let rx = a.pa10.into_alternate::<1>(&mut a.port);
    (tx, rx)
}

fn serial(rcu: &mut Rcu, incoming: Vec<u32>, stat: u32, config: UsartConfig) -> Serial {
    let (tx, rx) = pins(rcu);
    let mut regs = periph::UsartRegs::reset_state(incoming, vec![]);
    regs.stat = stat;
    Usart::new(rcu, periph::Usart0 { regs }, tx, rx, config)
}

#[test]
fn new_default_is_115200_8n1() {
    let mut rcu = rcu(ClockConfig::default());
    let s = serial(&mut rcu, vec![], TC_TBE, UsartConfig::default());
    // round(8 MHz / 115200) = 69.
    assert_eq!(s.registers().baud, 69);
    // UEN, TEN, REN; x16, 8 bits, no parity.
    assert_eq!(s.registers().ctl0, 0b1101);
    assert_eq!(s.registers().ctl2, 0);
    assert_eq!(rcu.registers().apb2en & (1 << 14), 1 << 14);
}

#[test]
fn new_enables_before_starting_the_transfer() {
    let mut rcu = rcu(ClockConfig::default());
    let s = serial(&mut rcu, vec![], TC_TBE, UsartConfig::default());
    // Reset, oversampling (x16), frame bits (8N1), UEN, then TEN and REN.
    assert_eq!(
        s.registers().ctl_log,
        vec![CtlEvent::Reset, CtlEvent::Ctl0(0), CtlEvent::Ctl0(0), CtlEvent::Ctl0(0b1), CtlEvent::Ctl0(0b1101)]
    );
}

#[test]
fn baud_divisor_rounds_to_nearest() {
    let mut rcu = rcu(ClockConfig::default().sysclk(SysClk::Pll(PllFreq::Mhz48)));
    let s = serial(&mut rcu, vec![], TC_TBE, UsartConfig::default().baud(Bps::from_raw(B9600)));
    // 48e6 / 9600 = 5000 exactly.
    assert_eq!(s.registers().baud, 5000);
    let s = serial(&mut rcu, vec![], TC_TBE, UsartConfig::default());
    // 48e6 / 115200 = 416.67, rounded up.
    assert_eq!(s.registers().baud, 417);
    let s = serial(&mut rcu, vec![], TC_TBE, UsartConfig::default().baud(Bps::from_raw(1_000_000)));
    assert_eq!(s.registers().baud, 48);
}

#[test]
fn oversampling_by_eight_splits_the_divisor() {
    let mut rcu = rcu(ClockConfig::default().sysclk(SysClk::Pll(PllFreq::Mhz48)));
    let config = UsartConfig::default().oversampling(Oversampling::X8);
    let s = serial(&mut rcu, vec![], TC_TBE, config);
    // 417 = 52 * 8 + 1.
    assert_eq!(s.registers().baud, (52 << 4) | 1);
    assert_eq!(s.registers().ctl0, (1 << 15) | 0b1101);
}

#[test]
fn frame_formats_set_parity_and_length() {
    let mut rcu = rcu(ClockConfig::default());
    for (ff, bits) in [
        (FrameFormat::N8, 0),
        (FrameFormat::E8, (1 << 10) | (1 << 12)),
        (FrameFormat::O8, (1 << 10) | (1 << 9) | (1 << 12)),
        (FrameFormat::E7, 1 << 10),
        (FrameFormat::O7, (1 << 10) | (1 << 9)),
    ] {
        let s = serial(&mut rcu, vec![], TC_TBE, UsartConfig::default().frame_format(ff));
        assert_eq!(s.registers().ctl0, bits | 0b1101);
    }
}

#[test]
fn usart0_follows_its_clock_source() {
    let config = ClockConfig::default()
        .sysclk(SysClk::Pll(PllFreq::Mhz72))
        .usart0_sel(gd32e2_hal::rcu::Usart0Sel::Irc8m);
    let mut rcu = rcu(config);
    let s = serial(&mut rcu, vec![], TC_TBE, UsartConfig::default());
    assert_eq!(s.registers().baud, 69);
}

#[test]
fn write_and_read_bytes() {
    let mut rcu = rcu(ClockConfig::default());
    let mut s = serial(&mut rcu, vec![b'h' as u32, b'i' as u32], TC_TBE, UsartConfig::default());
    assert!(s.write_ready());
    s.write_byte(b'x');
    s.write_bytes(b"ok");
    assert_eq!(s.registers().sent, vec![b'x' as u32, b'o' as u32, b'k' as u32]);
    assert!(s.read_ready());
    assert!(s.read_byte() == Ok(b'h'));
    assert!(s.read_byte() == Ok(b'i'));
    assert!(!s.read_ready());
    assert!(s.flush_ready());
    s.flush();
}

#[test]
fn seven_bit_frames_drop_the_parity_bit() {
    let mut rcu = rcu(ClockConfig::default());
    let config = UsartConfig::default().frame_format(FrameFormat::E7);
    let mut s = serial(&mut rcu, vec![0xc1, 0x1ff], TC_TBE, config);
    assert!(s.read_byte() == Ok(0x41));
    assert!(s.read_byte() == Ok(0x7f));
}

#[test]
fn read_bytes_takes_what_is_waiting() {
    let mut rcu = rcu(ClockConfig::default());
    let mut s = serial(&mut rcu, vec![1, 2, 3], TC_TBE, UsartConfig::default());
    let mut buf = [0u8; 8];
    assert!(s.read_bytes(&mut buf) == Ok(3));
    assert_eq!(buf[..3], [1, 2, 3]);
    assert_eq!(buf[3..], [0; 5]);
    let mut empty: [u8; 0] = [];
    assert!(s.read_bytes(&mut empty) == Ok(0));
}

#[test]
fn read_bytes_stops_at_the_buffer_end() {
    let mut rcu = rcu(ClockConfig::default());
    let mut s = serial(&mut rcu, vec![1, 2, 3], TC_TBE, UsartConfig::default());
    let mut buf = [9u8; 2];
    assert!(s.read_bytes(&mut buf) == Ok(2));
    assert_eq!(buf, [1, 2]);
    assert!(s.read_ready());
    assert!(s.read_byte() == Ok(3));
}

#[test]
fn line_error_replaces_the_frame() {
    let mut rcu = rcu(ClockConfig::default());
    let mut s = serial(&mut rcu, vec![0x55, 0x66], TC_TBE | (1 << 1), UsartConfig::default());
    assert!(s.read_byte() == Err(Error::Framing));
    // The spoiled frame is gone; the next one reads clean.
    assert!(s.read_byte() == Ok(0x66));
    assert_eq!(s.registers().stat, TC_TBE);
}

#[test]
fn read_bytes_reports_an_error_and_keeps_the_buffer() {
    let mut rcu = rcu(ClockConfig::default());
    let mut s = serial(&mut rcu, vec![1, 2], TC_TBE | 1, UsartConfig::default());
    let mut buf = [7u8; 2];
    assert!(s.read_bytes(&mut buf) == Err(Error::Parity));
    assert_eq!(buf, [7, 7]);
    assert_eq!(s.registers().taken, 1);
}

#[test]
fn usart_take_error_one_per_call() {
    let mut rcu = rcu(ClockConfig::default());
    let stat = TC_TBE | 0b1111;
    let mut s = serial(&mut rcu, vec![1, 2, 3, 4, 5], stat, UsartConfig::default());
    assert!(s.take_error() == Some(Error::Overrun));
    assert!(s.take_error() == Some(Error::Noise));
    assert!(s.take_error() == Some(Error::Framing));
    assert!(s.take_error() == Some(Error::Parity));
    assert!(s.take_error().is_none());
    assert_eq!(s.registers().stat, TC_TBE);
    // Each error drained one frame.
    assert_eq!(s.registers().taken, 4);
    assert!(s.read_byte() == Ok(5));
}

#[test]
fn listen_unlisten_and_release() {
    let mut rcu = rcu(ClockConfig::default());
    let mut s = serial(&mut rcu, vec![], TC_TBE, UsartConfig::default());
    s.listen(Event::Rbne);
    s.listen(Event::Tbe);
    s.listen(Event::ParityError);
    s.listen(Event::Error);
    assert_eq!(s.registers().ctl0, 0b1101 | (1 << 5) | (1 << 7) | (1 << 8));
    assert_eq!(s.registers().ctl2, 1);
    assert!(s.is_listening(Event::Tbe));
    s.unlisten(Event::Tbe);
    s.unlisten(Event::Error);
    assert!(!s.is_listening(Event::Tbe));
    assert!(!s.is_listening(Event::Error));
    assert!(s.is_listening(Event::Rbne));
    assert!(s.is_listening(Event::ParityError));
    let (raw, _tx, _rx) = s.release();
    assert_eq!(raw.regs.ctl0 & 1, 0);
    assert_eq!(raw.regs.ctl0 & 0b1100, 0b1100);
}

#[test]
fn nine_bit_words() {
    let mut rcu = rcu(ClockConfig::default());
    let mut a = periph::Gpioa { regs: periph::GpioRegs::reset_port_a() }.split(&mut rcu);
    let tx = a.pa2.into_alternate::<1>(&mut a.port);
    let rx = a.pa3.into_alternate::<1>(&mut a.port);
    let mut regs = periph::UsartRegs::reset_state(vec![0x1ff, 0x3a5, 0x001], vec![]);
    regs.stat = TC_TBE;
    let config = UsartConfig9::default().baud(Bps::from_raw(B115200));
    let mut s: Usart<periph::Usart1, _, _, Word> = Usart::new_word(&mut rcu, periph::Usart1 { regs }, tx, rx, config);
    assert_eq!(rcu.registers().apb1en & (1 << 17), 1 << 17);
    assert_eq!(s.registers().ctl0, (1 << 12) | 0b1101);
    assert_eq!(s.registers().baud, 69);
    s.write_word(0xffff);
    s.write_words(&[0x100, 0x2ff]);
    assert_eq!(s.registers().sent, vec![0x1ff, 0x100, 0x0ff]);
    assert!(s.read_word() == Ok(0x1ff));
    let mut buf = [0u16; 4];
    assert!(s.read_words(&mut buf) == Ok(2));
    assert_eq!(buf, [0x1a5, 0x001, 0, 0]);
}

#[test]
fn word_config_oversampling() {
    let mut rcu = rcu(ClockConfig::default());
    let mut a = periph::Gpioa { regs: periph::GpioRegs::reset_port_a() }.split(&mut rcu);
    let tx = a.pa14.activate_into_alternate::<1>(&mut a.port);
    let rx = a.pa15.into_alternate::<1>(&mut a.port);
    let regs = periph::UsartRegs::reset_state(vec![], vec![]);
    let config = UsartConfig9::default().oversampling(Oversampling::X8).baud(Bps::from_raw(B9600));
    let s = Usart::new_word(&mut rcu, periph::Usart1 { regs }, tx, rx, config);
    // round(8e6 / 9600) = 833 = 104 * 8 + 1.
    assert_eq!(s.registers().baud, (104 << 4) | 1);
    assert_eq!(s.registers().ctl0, (1 << 15) | (1 << 12) | 0b1101);
}

#[test]
fn read_bytes_stops_at_a_spoiled_frame() {
    let mut rcu = rcu(ClockConfig::default());
    let (tx, rx) = pins(&mut rcu);
    let mut regs = periph::UsartRegs::reset_state(vec![1, 2, 3, 4], vec![0, 0, 1 << 1, 0]);
    regs.stat = TC_TBE;
    let mut s: Serial = Usart::new(&mut rcu, periph::Usart0 { regs }, tx, rx, UsartConfig::default());
    let mut buf = [0u8; 4];
    // Two clean frames, then the third arrives with a framing error.
    assert!(s.read_bytes(&mut buf) == Err(Error::Framing));
    assert_eq!(buf, [1, 2, 0, 0]);
    assert_eq!(s.registers().taken, 3);
    assert_eq!(s.registers().stat, TC_TBE);
    assert!(s.read_byte() == Ok(4));
}

#[test]
fn frame_flags_report_one_error_per_call() {
    let mut rcu = rcu(ClockConfig::default());
    let (tx, rx) = pins(&mut rcu);
    let mut regs = periph::UsartRegs::reset_state(vec![7, 8], vec![0b0101, 0]);
    regs.stat = TC_TBE;
    let mut s: Serial = Usart::new(&mut rcu, periph::Usart0 { regs }, tx, rx, UsartConfig::default());
    // Noise and parity came with the first frame: noise first, and the
    // frame goes with it; parity stays standing for the next call.
    assert!(s.take_error() == Some(Error::Noise));
    assert_eq!(s.registers().taken, 1);
    assert!(s.read_byte() == Err(Error::Parity));
    assert_eq!(s.registers().taken, 2);
    assert!(s.take_error().is_none());
}
