use gd32e2_hal::fmc::{
    Boot1, Error, Event, Fmc, FmcExt, FreeWatchdog, LowPowerEntry, OptionBytes, Page, ProtectionLevel,
    Spc, SramParity, VddaMonitor,
};
use gd32e2_hal::periph;

const LK: u32 = 1 << 7;

const ENDF: u32 = 1 << 5;

fn fmc_with(obstat: u32, wp: u32, stat: u32) -> Fmc {
    fmc_answering(obstat, wp, stat, vec![])
}

fn fmc_answering(obstat: u32, wp: u32, stat: u32, outcomes: Vec<u32>) -> Fmc {
    let mut regs = periph::Fmc::reset_state(obstat, wp, 0x0042_0017, outcomes);
    regs.stat = stat;
    regs.constrain()
}

#[test]
fn reads_option_status() {
    let fmc = fmc_with((0x1234 << 16) | (0xfe << 8), 0xffff_fffe, 0);
    assert!(fmc.protection_level() == ProtectionLevel::NoProtection);
    assert_eq!(fmc.user_option(), 0xfe);
    assert_eq!(fmc.data_option(), 0x1234);
    assert!(!fmc.option_error());
    assert_eq!(fmc.product_id_code(), 0x0042_0017);
    assert!(fmc.is_protected(Page::P0));
    assert!(fmc.is_protected(Page::P3));
    assert!(!fmc.is_protected(Page::P4));
    assert!(!fmc.is_protected(Page::P63));

    let ob = fmc.read_option_bytes();
    assert!(ob.protection() == ProtectionLevel::NoProtection);
    assert_eq!(ob.data_bytes(), 0x1234);
    assert!(ob.get_free_watchdog() == FreeWatchdog::Hardware);
    assert!(ob.get_deep_sleep() == LowPowerEntry::Enter);
    assert!(ob.is_protected(Page::P2));
    assert!(!ob.is_protected(Page::P7));
}

#[test]
fn protection_levels_and_option_error() {
    assert!(fmc_with(0b010, 0, 0).protection_level() == ProtectionLevel::Low);
    assert!(fmc_with(0b110, 0, 0).protection_level() == ProtectionLevel::High);
    assert!(fmc_with(0b001, 0, 0).option_error());
}

#[test]
fn prefetch_toggles() {
    let mut fmc = fmc_with(0, 0xffff_ffff, 0);
    // The buffer comes up on after reset.
    assert!(fmc.is_prefetch_enabled());
    fmc.set_prefetch(false);
    assert!(!fmc.is_prefetch_enabled());
    assert_eq!(fmc.registers().ws, 0);
    fmc.set_prefetch(true);
    assert!(fmc.is_prefetch_enabled());
    assert_eq!(fmc.registers().ws, 1 << 4);
}

#[test]
fn erase_page_sets_address_and_relocks() {
    let mut fmc = fmc_answering(0, 0xffff_ffff, 0, vec![ENDF]);
    let r = fmc.with_unlocked(|mut u| {
        assert_eq!(u.registers().ctl & LK, 0);
        let r = u.erase_page(Page::P3);
        (u, r)
    });
    assert!(r == Ok(()));
    let regs = fmc.registers();
    assert_eq!(regs.addr, 0x0800_0000 + 3 * 0x400);
    assert_eq!(regs.ctl & LK, LK);
    assert_eq!(regs.ctl & ((1 << 1) | (1 << 6)), 0);
    assert_eq!(regs.key, vec![0x4567_0123, 0xCDEF_89AB]);
}

#[test]
fn erase_reports_write_protection() {
    let mut fmc = fmc_answering(0, 0xffff_ffff, 0, vec![1 << 4]);
    let r = fmc.with_unlocked(|mut u| {
        let r = u.erase_page(Page::P0);
        (u, r)
    });
    assert!(r == Err(Error::WriteProtected));
    assert_eq!(fmc.registers().stat, 0);
}

#[test]
fn program_writes_the_word_on_the_bus() {
    let mut fmc = fmc_answering(0, 0xffff_ffff, 0, vec![ENDF, ENDF]);
    let r = fmc.with_unlocked(|mut u| {
        let a = u.program(Page::P10, 2, 0xdead_beef);
        let b = u.program(Page::P10, 3, 0x0123_4567);
        (u, a.and(b))
    });
    assert!(r == Ok(()));
    let bus = &fmc.registers().bus;
    assert_eq!(bus.len(), 2);
    assert_eq!(bus[0], (0x0800_0000 + 10 * 0x400 + 8, 0xdead_beef));
    assert_eq!(bus[1], (0x0800_0000 + 10 * 0x400 + 12, 0x0123_4567));
    assert_eq!(fmc.registers().ctl & 1, 0);
}

#[test]
fn program_reports_program_error() {
    let mut fmc = fmc_answering(0, 0xffff_ffff, 0, vec![1 << 2]);
    let r = fmc.with_unlocked(|mut u| {
        let r = u.program(Page::P1, 0, 0);
        (u, r)
    });
    assert!(r == Err(Error::Program));
}

#[test]
fn mass_erase_succeeds() {
    let mut fmc = fmc_answering(0, 0xffff_ffff, 0, vec![ENDF]);
    let r = fmc.with_unlocked(|mut u| {
        let r = u.mass_erase();
        (u, r)
    });
    assert!(r == Ok(()));
    assert_eq!(fmc.registers().stat & (1 << 5), 0);
    assert_eq!(fmc.registers().ctl & (1 << 2), 0);
}

#[test]
fn write_default_option_bytes() {
    let mut fmc = fmc_answering(0, 0xffff_ffff, 0, vec![ENDF; 5]);
    let ob = OptionBytes::default();
    let r = fmc.with_unlocked(|mut u| {
        let r = u.write_option_bytes(&ob);
        (u, r)
    });
    assert!(r == Ok(()));
    let bus = &fmc.registers().bus;
    assert_eq!(bus.len(), 4);
    assert_eq!(bus[0], (0x1FFF_F800, 0x00FF_5AA5));
    assert_eq!(bus[1], (0x1FFF_F804, 0x00FF_00FF));
    assert_eq!(bus[2], (0x1FFF_F808, 0x00FF_00FF));
    assert_eq!(bus[3], (0x1FFF_F80C, 0x00FF_00FF));
    assert_eq!(fmc.registers().obkey, vec![0x4567_0123, 0xCDEF_89AB]);
    // OBWEN, OBER and OBPG all dropped again.
    assert_eq!(fmc.registers().ctl & ((1 << 9) | (1 << 5) | (1 << 4)), 0);
}

#[test]
fn write_option_bytes_packs_complements() {
    let mut fmc = fmc_answering(0, 0xffff_ffff, 0, vec![ENDF; 5]);
    let ob = OptionBytes::default()
        .protection_low()
        .data(0x1234)
        .free_watchdog(FreeWatchdog::Hardware)
        .protect(Page::P5);
    let r = fmc.with_unlocked(|mut u| {
        let r = u.write_option_bytes(&ob);
        (u, r)
    });
    assert!(r == Ok(()));
    let bus = &fmc.registers().bus;
    // SPC 0x00 and USER 0xFE with their complements.
    assert_eq!(bus[0].1, 0x01FE_FF00);
    assert_eq!(bus[1].1, 0xED12_CB34);
    // Group 1 (pages 4 to 7) protected: WP0 = 0xFD.
    assert_eq!(bus[2].1, 0x00FF_02FD);
}

#[test]
fn write_option_bytes_stops_when_erase_fails() {
    let mut fmc = fmc_answering(0, 0xffff_ffff, 0, vec![1 << 4]);
    let ob = OptionBytes::default();
    let r = fmc.with_unlocked(|mut u| {
        let r = u.write_option_bytes(&ob);
        (u, r)
    });
    assert!(r == Err(Error::WriteProtected));
    assert_eq!(fmc.registers().bus.len(), 0);
    assert_eq!(fmc.registers().done, 1);
}

#[test]
fn write_option_bytes_stops_at_the_first_failed_word() {
    let mut fmc = fmc_answering(0, 0xffff_ffff, 0, vec![ENDF, ENDF, ENDF, 1 << 2]);
    let ob = OptionBytes::default();
    let r = fmc.with_unlocked(|mut u| {
        let r = u.write_option_bytes(&ob);
        (u, r)
    });
    assert!(r == Err(Error::Program));
    let bus = &fmc.registers().bus;
    // The erase, two good words, and the third word that failed; no fourth.
    assert_eq!(bus.len(), 3);
    assert_eq!(bus[2], (0x1FFF_F808, 0x00FF_00FF));
    assert_eq!(fmc.registers().done, 4);
    assert_eq!(fmc.registers().stat, 0);
    assert_eq!(fmc.registers().ctl & ((1 << 9) | (1 << 5) | (1 << 4)), 0);
}

#[test]
fn fmc_take_error_one_per_call() {
    let mut fmc = fmc_with(0, 0xffff_ffff, (1 << 4) | (1 << 3) | (1 << 2));
    assert!(fmc.take_error() == Some(Error::WriteProtected));
    assert!(fmc.take_error() == Some(Error::ProgramAlignment));
    assert!(fmc.take_error() == Some(Error::Program));
    assert!(fmc.take_error().is_none());
}

#[test]
fn interrupts_listen_and_clear() {
    let mut fmc = fmc_with(0, 0xffff_ffff, (1 << 5) | (1 << 4) | (1 << 2));
    fmc.with_unlocked(|mut u| {
        u.listen(Event::End);
        u.listen(Event::Error);
        u.unlisten(Event::Error);
        (u, ())
    });
    assert!(fmc.is_listening(Event::End));
    assert!(!fmc.is_listening(Event::Error));
    fmc.clear_interrupt(Event::Error);
    assert_eq!(fmc.registers().stat, 1 << 5);
    fmc.clear_interrupt(Event::End);
    assert_eq!(fmc.registers().stat, 0);
}

#[test]
fn reload_sets_obrld() {
    let mut fmc = fmc_with(0, 0xffff_ffff, 0);
    fmc.reload_option_bytes();
    assert_eq!(fmc.registers().ctl, 0x80 | (1 << 13));
    let regs = fmc.release();
    assert_eq!(regs.ctl, 0x80 | (1 << 13));
}

#[test]
fn option_byte_user_settings_round_trip() {
    let ob = OptionBytes::default()
        .free_watchdog(FreeWatchdog::Hardware)
        .deep_sleep(LowPowerEntry::Reset)
        .standby(LowPowerEntry::Reset)
        .boot1(Boot1::High)
        .vdda_monitor(VddaMonitor::Disabled)
        .sram_parity(SramParity::Enabled);
    assert!(ob.get_free_watchdog() == FreeWatchdog::Hardware);
    assert!(ob.get_deep_sleep() == LowPowerEntry::Reset);
    assert!(ob.get_standby() == LowPowerEntry::Reset);
    assert!(ob.get_boot1() == Boot1::High);
    assert!(ob.get_vdda_monitor() == VddaMonitor::Disabled);
    assert!(ob.get_sram_parity() == SramParity::Enabled);
    let ob = ob.vdda_monitor(VddaMonitor::Enabled).boot1(Boot1::Low);
    assert!(ob.get_vdda_monitor() == VddaMonitor::Enabled);
    assert!(ob.get_boot1() == Boot1::Low);
    assert!(ob.get_free_watchdog() == FreeWatchdog::Hardware);
}

#[test]
fn option_byte_defaults() {
    let ob = OptionBytes::default();
    assert!(ob.protection() == ProtectionLevel::NoProtection);
    assert_eq!(ob.data_bytes(), 0xffff);
    assert!(ob.get_free_watchdog() == FreeWatchdog::Software);
    assert!(ob.get_sram_parity() == SramParity::Disabled);
    assert!(ob.get_vdda_monitor() == VddaMonitor::Enabled);
    assert!(!ob.is_protected(Page::P0));
    let ob = ob.protect(Page::P9);
    assert!(ob.is_protected(Page::P8));
    assert!(ob.is_protected(Page::P11));
    assert!(!ob.is_protected(Page::P12));
    let ob = ob.unprotect(Page::P10);
    assert!(!ob.is_protected(Page::P9));
    assert!(ob.protection_high_forever().protection() == ProtectionLevel::High);
    assert!(ob.protection_low().no_protection().protection() == ProtectionLevel::NoProtection);
}

#[test]
fn spc_codes_and_pages() {
    assert_eq!(Spc::NoProtection.code(), 0xA5);
    assert_eq!(Spc::Low.code(), 0x00);
    assert_eq!(Spc::High.code(), 0xCC);
    assert_eq!(Page::P0.number(), 0);
    assert_eq!(Page::P63.number(), 63);
}
