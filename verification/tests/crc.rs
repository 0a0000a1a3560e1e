use gd32e2_hal::crc::{Crc, CrcConfig, ReverseInput, ReverseOutput};
use gd32e2_hal::fmc::FmcExt;
use gd32e2_hal::periph;
use gd32e2_hal::rcu::{ClockConfig, Rcu, RcuExt};

fn rcu() -> Rcu {
    let mut fmc = periph::Fmc::reset_state(0, 0xffff_ffff, 0, vec![]).constrain();
    periph::Rcu::reset_state().constrain().freeze(&mut fmc, ClockConfig::default())
}

#[test]
fn new_32bit_configures_and_enables() {
    let mut rcu = rcu();
    let crc = Crc::new_32bit(&mut rcu, periph::Crc::reset_state(), 0x04c1_1db7, CrcConfig::default());
    assert_eq!(rcu.registers().ahben & (1 << 6), 1 << 6);
    let regs = crc.registers();
    assert_eq!(regs.ctl, 0);
    assert_eq!(regs.poly, 0x04c1_1db7);
    assert_eq!(crc.read(), 0xffff_ffff);
    assert_eq!(crc.read_32bit(), 0xffff_ffff);
}

#[test]
fn config_reversal_fields() {
    let mut rcu = rcu();
    let config = CrcConfig::new(ReverseInput::Word, ReverseOutput::Enabled);
    let crc = Crc::new_32bit(&mut rcu, periph::Crc::reset_state(), 0x04c1_1db7, config);
    assert_eq!(crc.registers().ctl, (3 << 5) | (1 << 7));
    let config = CrcConfig::new(ReverseInput::Byte, ReverseOutput::Disabled);
    let crc = Crc::new_16bit(&mut rcu, periph::Crc::reset_state(), 0x8005, config);
    assert_eq!(crc.registers().ctl, (1 << 5) | (1 << 3));
    assert_eq!(crc.registers().poly, 0x8005);
}

#[test]
fn polynomial_sizes() {
    let mut rcu = rcu();
    let crc8 = Crc::new_8bit(&mut rcu, periph::Crc::reset_state(), 0x07, CrcConfig::default());
    assert_eq!(crc8.registers().ctl, 2 << 3);
    assert_eq!(crc8.registers().poly, 0x07);
    let crc7 = Crc::new_7bit(&mut rcu, periph::Crc::reset_state(), 0x09, CrcConfig::default());
    assert_eq!(crc7.registers().ctl, 3 << 3);
    let cfg = CrcConfig::new(ReverseInput::HalfWord, ReverseOutput::Disabled);
    let crc16 = Crc::new_16bit(&mut rcu, periph::Crc::reset_state(), 0x1021, cfg);
    assert_eq!(crc16.registers().ctl, (2 << 5) | (1 << 3));
}

#[test]
fn writes_hand_values_to_the_unit() {
    let mut rcu = rcu();
    let mut crc = Crc::new_32bit(&mut rcu, periph::Crc::reset_state(), 0x04c1_1db7, CrcConfig::default());
    crc.write_32bit(0x1234_5678);
    assert_eq!(crc.registers().fed, 0x1234_5678);
    assert_eq!(crc.registers().fed_width, 32);
    let mut crc16 = Crc::new_16bit(&mut rcu, periph::Crc::reset_state(), 0x8005, CrcConfig::default());
    crc16.write_16bit(0xbeef);
    assert_eq!(crc16.registers().fed, 0xbeef);
    assert_eq!(crc16.registers().fed_width, 16);
    let mut crc8 = Crc::new_8bit(&mut rcu, periph::Crc::reset_state(), 0x07, CrcConfig::default());
    crc8.write_8bit(0x5a);
    assert_eq!(crc8.registers().fed_width, 8);
    let mut crc7 = Crc::new_7bit(&mut rcu, periph::Crc::reset_state(), 0x09, CrcConfig::default());
    crc7.write_7bit(0xff);
    assert_eq!(crc7.registers().fed, 0xff);
    assert_eq!(crc7.registers().fed_width, 7);
}

#[test]
fn reset_with_seeds_the_result() {
    let mut rcu = rcu();
    let mut crc = Crc::new_32bit(&mut rcu, periph::Crc::reset_state(), 0x04c1_1db7, CrcConfig::default());
    crc.reset_with(0x1234_5678);
    assert_eq!(crc.read_32bit(), 0x1234_5678);
    assert_eq!(crc.registers().idata, 0x1234_5678);
    let mut crc16 = Crc::new_16bit(&mut rcu, periph::Crc::reset_state(), 0x8005, CrcConfig::default());
    crc16.reset_with(0xabcd);
    assert_eq!(crc16.read_16bit(), 0xabcd);
    let mut crc8 = Crc::new_8bit(&mut rcu, periph::Crc::reset_state(), 0x07, CrcConfig::default());
    crc8.reset_with(0x5a);
    assert_eq!(crc8.read_8bit(), 0x5a);
    let mut crc7 = Crc::new_7bit(&mut rcu, periph::Crc::reset_state(), 0x09, CrcConfig::default());
    crc7.reset_with(0x3c);
    assert_eq!(crc7.read_7bit(), 0x3c);
    // The result sits in the low seven bits.
    crc7.reset_with(0xff);
    assert_eq!(crc7.read_7bit(), 0x7f);
}

#[test]
fn fdata_scratch_and_release() {
    let mut rcu = rcu();
    let mut crc = Crc::new_8bit(&mut rcu, periph::Crc::reset_state(), 0x07, CrcConfig::default());
    crc.set_fdata(0x42);
    assert_eq!(crc.fdata(), 0x42);
    let regs = crc.release();
    assert_eq!(regs.fdata, 0x42);
    assert_eq!(regs.ctl, 2 << 3);
}
