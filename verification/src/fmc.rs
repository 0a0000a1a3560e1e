//! Flash memory controller.
//!
//! The wait states are not set from here: they have to be raised before the
//! system clock speeds up, so [`UnfrozenRcu::freeze`](crate::rcu::UnfrozenRcu::freeze)
//! borrows this type and writes them itself.
//!
//! Erasing and programming need `CTL` unlocked, which happens for the body of
//! [`Fmc::with_unlocked`] and no longer. The option bytes are covered too, as a
//! block: [`OptionBytes`] is read, changed and written back whole, because
//! erasing them takes every byte at once. A written block only takes effect on
//! the next load, [`Fmc::reload_option_bytes`] or a power-up.
//!
//! In the register file an erase or program operation ends as soon as it is
//! started: `START` reads back clear, and the error flags in `STAT` are those
//! the controller reported, which the operation takes and clears.

use vstd::prelude::*;

use crate::bits::{get_bit, get_field, put_bit, put_field, read_bit, read_field, write_bit, write_field};
use crate::periph;

verus! {

/// Highest `hclk` each wait-state setting can be read at.
pub const WS0_MAX_HCLK: u32 = 24_000_000;
pub const WS1_MAX_HCLK: u32 = 48_000_000;
pub const WS2_MAX_HCLK: u32 = 72_000_000;
/// The two keys that unlock `CTL`, and with `OBKEY` the option bytes.
pub const UNLOCK_KEY1: u32 = 0x45670123;
pub const UNLOCK_KEY2: u32 = 0xCDEF89AB;

/// Where the main flash starts.
pub const BASE: u32 = 0x0800_0000;
/// Bytes per page.
pub const PAGE_SIZE: u32 = 0x400;
/// Pages covered by one `OB_WP` bit.
pub const PAGES_PER_WP_BIT: u32 = 4;
/// Bytes per programmed word.
pub const WORD_SIZE: u32 = 4;
/// `OB_WP` with every group free, protection being active low.
pub const WP_ALL_FREE: u32 = 0xFFFF_FFFF;
/// Start of the option byte block.
pub const OB_BASE: u32 = 0x1FFF_F800;

/// Bit positions inside `OB_USER`; bits 3 and 7 are reserved and are carried
/// through untouched.
pub const BIT_NWDG_SW: u8 = 0;
pub const BIT_NRST_DPSLP: u8 = 1;
pub const BIT_NRST_STDBY: u8 = 2;
pub const BIT_BOOT1_N: u8 = 4;
pub const BIT_VDDA_VISOR: u8 = 5;
pub const BIT_SRAM_PARITY: u8 = 6;

/// `CTL` bits.
pub const CTL_PG: u32 = 0;
pub const CTL_PER: u32 = 1;
pub const CTL_MER: u32 = 2;
pub const CTL_OBPG: u32 = 4;
pub const CTL_OBER: u32 = 5;
pub const CTL_START: u32 = 6;
pub const CTL_LK: u32 = 7;
pub const CTL_OBWEN: u32 = 9;
pub const CTL_ERRIE: u32 = 10;
pub const CTL_ENDIE: u32 = 12;
pub const CTL_OBRLD: u32 = 13;
/// `STAT` bits.
pub const STAT_PGERR: u32 = 2;
pub const STAT_PGAERR: u32 = 3;
pub const STAT_WPERR: u32 = 4;
pub const STAT_ENDF: u32 = 5;
/// `WS` fields.
pub const WS_WSCNT: u32 = 0;
pub const WS_PFEN: u32 = 4;
/// `OBSTAT` fields.
pub const OBSTAT_OBERR: u32 = 0;
pub const OBSTAT_PLEVEL: u32 = 1;
pub const OBSTAT_USER: u32 = 8;
pub const OBSTAT_DATA: u32 = 16;

/// The `WSCNT` code for reading the flash at `hclk`: the fewest wait states
/// that keep up with it.
pub open spec fn ws_code(hclk: u32) -> u32 {
    if hclk <= WS0_MAX_HCLK {
        0
    } else if hclk <= WS1_MAX_HCLK {
        1
    } else {
        2
    }
}

/// The highest `hclk` a `WSCNT` code can be read at.
pub open spec fn ws_max_hclk(code: u32) -> u32 {
    if code == 0 {
        WS0_MAX_HCLK
    } else if code == 1 {
        WS1_MAX_HCLK
    } else {
        WS2_MAX_HCLK
    }
}

/// The complement of a byte, widened.
pub open spec fn not_byte(b: u8) -> u32 {
    (255 - b) as u32
}

/// A byte next to its complement, as every option byte is stored.
pub open spec fn ob_pair(b: u8) -> u32 {
    ((b as u32) + 256 * not_byte(b)) as u32
}

/// The programmed word holding two option bytes and their complements: `low`,
/// `!low`, `high`, `!high` from the least significant byte up.
pub open spec fn ob_word_spec(low: u8, high: u8) -> u32 {
    (ob_pair(low) + 65536 * ob_pair(high)) as u32
}

/// Packs two option bytes and their complements into one programmed word.
fn ob_word(low: u8, high: u8) -> (r: u32)
    ensures
        r == ob_word_spec(low, high),
{
    let pair_low: u32 = low as u32 + 256 * (255 - low) as u32;
    let pair_high: u32 = high as u32 + 256 * (255 - high) as u32;
    pair_low + 65536 * pair_high
}

/// The `OB_WP` bit covering page number `page`, one bit standing for four
/// pages.
pub open spec fn wp_bit_spec(page: u32) -> u32 {
    (1u32 << (page / PAGES_PER_WP_BIT))
}

/// Whether an `OB_WP` mask protects the group holding page number `page`; a
/// protected group reads 0.
pub open spec fn wp_protected_spec(wp: u32, page: u32) -> bool {
    wp & wp_bit_spec(page) == 0
}

/// The `OB_WP` bit covering `page`.
fn wp_bit(page: Page) -> (r: u32)
    ensures
        r == wp_bit_spec(page.spec_number()),
{
    let number = page.number();
    1u32 << (number / PAGES_PER_WP_BIT)
}

/// Whether an `OB_WP` mask protects the group holding `page`.
fn wp_protected(wp: u32, page: Page) -> (r: bool)
    ensures
        r == wp_protected_spec(wp, page.spec_number()),
{
    wp & wp_bit(page) == 0
}

/// One bit of `OB_USER`.
pub open spec fn user_bit_spec(user: u8, bit: u8) -> bool {
    (user >> bit) & 1u8 == 1u8
}

/// `OB_USER` with one bit set to `on`, the rest untouched.
pub open spec fn set_user_bit_spec(user: u8, bit: u8, on: bool) -> u8 {
    if on {
        user | (1u8 << bit)
    } else {
        user & !(1u8 << bit)
    }
}

/// Reads one bit of `OB_USER`.
fn user_bit(user: u8, bit: u8) -> (r: bool)
    requires
        bit < 8,
    ensures
        r == user_bit_spec(user, bit),
{
    (user >> bit) & 1u8 == 1u8
}

/// Returns `OB_USER` with one bit set to `on`, the rest untouched.
fn set_user_bit(user: u8, bit: u8, on: bool) -> (r: u8)
    requires
        bit < 8,
    ensures
        r == set_user_bit_spec(user, bit, on),
{
    if on {
        user | (1u8 << bit)
    } else {
        user & !(1u8 << bit)
    }
}

/// A user bit that was written reads back as written, and the other bits of
/// `OB_USER` keep their values.
pub proof fn lemma_user_bit(user: u8, bit: u8, on: bool, other: u8)
    requires
        bit < 8,
        other < 8,
    ensures
        user_bit_spec(set_user_bit_spec(user, bit, on), bit) == on,
        other != bit ==> user_bit_spec(set_user_bit_spec(user, bit, on), other) == user_bit_spec(
            user,
            other,
        ),
{
    assert(user_bit_spec(set_user_bit_spec(user, bit, on), bit) == on && (other != bit
        ==> user_bit_spec(set_user_bit_spec(user, bit, on), other) == user_bit_spec(user, other)))
        by (bit_vector)
        requires
            bit < 8,
            other < 8,
    ;
}

} // verus!
verus! {
/// An erasable 1 KB page of the main flash: the 64 pages of the 64 KB part.
#[derive(Clone, Copy, PartialEq, Eq, Structural)]
#[allow(missing_docs)]
pub enum Page {
    P0,
    P1,
    P2,
    P3,
    P4,
    P5,
    P6,
    P7,
    P8,
    P9,
    P10,
    P11,
    P12,
    P13,
    P14,
    P15,
    P16,
    P17,
    P18,
    P19,
    P20,
    P21,
    P22,
    P23,
    P24,
    P25,
    P26,
    P27,
    P28,
    P29,
    P30,
    P31,
    P32,
    P33,
    P34,
    P35,
    P36,
    P37,
    P38,
    P39,
    P40,
    P41,
    P42,
    P43,
    P44,
    P45,
    P46,
    P47,
    P48,
    P49,
    P50,
    P51,
    P52,
    P53,
    P54,
    P55,
    P56,
    P57,
    P58,
    P59,
    P60,
    P61,
    P62,
    P63,
}

impl Page {
    /// The page number, counting from the start of the flash.
    pub open spec fn spec_number(self) -> u32 {
        match self {
            Page::P0 => 0,
            Page::P1 => 1,
            Page::P2 => 2,
            Page::P3 => 3,
            Page::P4 => 4,
            Page::P5 => 5,
            Page::P6 => 6,
            Page::P7 => 7,
            Page::P8 => 8,
            Page::P9 => 9,
            Page::P10 => 10,
            Page::P11 => 11,
            Page::P12 => 12,
            Page::P13 => 13,
            Page::P14 => 14,
            Page::P15 => 15,
            Page::P16 => 16,
            Page::P17 => 17,
            Page::P18 => 18,
            Page::P19 => 19,
            Page::P20 => 20,
            Page::P21 => 21,
            Page::P22 => 22,
            Page::P23 => 23,
            Page::P24 => 24,
            Page::P25 => 25,
            Page::P26 => 26,
            Page::P27 => 27,
            Page::P28 => 28,
            Page::P29 => 29,
            Page::P30 => 30,
            Page::P31 => 31,
            Page::P32 => 32,
            Page::P33 => 33,
            Page::P34 => 34,
            Page::P35 => 35,
            Page::P36 => 36,
            Page::P37 => 37,
            Page::P38 => 38,
            Page::P39 => 39,
            Page::P40 => 40,
            Page::P41 => 41,
            Page::P42 => 42,
            Page::P43 => 43,
            Page::P44 => 44,
            Page::P45 => 45,
            Page::P46 => 46,
            Page::P47 => 47,
            Page::P48 => 48,
            Page::P49 => 49,
            Page::P50 => 50,
            Page::P51 => 51,
            Page::P52 => 52,
            Page::P53 => 53,
            Page::P54 => 54,
            Page::P55 => 55,
            Page::P56 => 56,
            Page::P57 => 57,
            Page::P58 => 58,
            Page::P59 => 59,
            Page::P60 => 60,
            Page::P61 => 61,
            Page::P62 => 62,
            Page::P63 => 63,
        }
    }

    /// The page number, counting from the start of the flash.
    #[verifier::when_used_as_spec(spec_number)]
    pub fn number(self) -> (r: u32)
        ensures
            r == self.spec_number(),
            r < 64,
    {
        match self {
            Page::P0 => 0,
            Page::P1 => 1,
            Page::P2 => 2,
            Page::P3 => 3,
            Page::P4 => 4,
            Page::P5 => 5,
            Page::P6 => 6,
            Page::P7 => 7,
            Page::P8 => 8,
            Page::P9 => 9,
            Page::P10 => 10,
            Page::P11 => 11,
            Page::P12 => 12,
            Page::P13 => 13,
            Page::P14 => 14,
            Page::P15 => 15,
            Page::P16 => 16,
            Page::P17 => 17,
            Page::P18 => 18,
            Page::P19 => 19,
            Page::P20 => 20,
            Page::P21 => 21,
            Page::P22 => 22,
            Page::P23 => 23,
            Page::P24 => 24,
            Page::P25 => 25,
            Page::P26 => 26,
            Page::P27 => 27,
            Page::P28 => 28,
            Page::P29 => 29,
            Page::P30 => 30,
            Page::P31 => 31,
            Page::P32 => 32,
            Page::P33 => 33,
            Page::P34 => 34,
            Page::P35 => 35,
            Page::P36 => 36,
            Page::P37 => 37,
            Page::P38 => 38,
            Page::P39 => 39,
            Page::P40 => 40,
            Page::P41 => 41,
            Page::P42 => 42,
            Page::P43 => 43,
            Page::P44 => 44,
            Page::P45 => 45,
            Page::P46 => 46,
            Page::P47 => 47,
            Page::P48 => 48,
            Page::P49 => 49,
            Page::P50 => 50,
            Page::P51 => 51,
            Page::P52 => 52,
            Page::P53 => 53,
            Page::P54 => 54,
            Page::P55 => 55,
            Page::P56 => 56,
            Page::P57 => 57,
            Page::P58 => 58,
            Page::P59 => 59,
            Page::P60 => 60,
            Page::P61 => 61,
            Page::P62 => 62,
            Page::P63 => 63,
        }
    }
}
} // verus!

verus! {

/// Where page `number` starts.
pub open spec fn page_addr(number: u32) -> u32 {
    (BASE + number * PAGE_SIZE) as u32
}

/// An FMC event that can raise an interrupt.
#[derive(Clone, Copy, PartialEq, Eq, Structural)]
pub enum Event {
    /// An erase or a program operation finished (`ENDF`).
    End,
    /// An operation failed (`ERRIE`); which way is [`Fmc::take_error`].
    Error,
}

impl Event {
    /// The event's enable bit in `CTL`.
    pub open spec fn ctl_bit(self) -> u32 {
        match self {
            Event::End => CTL_ENDIE,
            Event::Error => CTL_ERRIE,
        }
    }
}

/// What an erase or a program operation failed on.
#[derive(Clone, Copy, PartialEq, Eq, Structural)]
pub enum Error {
    /// The page is protected by the option bytes.
    WriteProtected,
    /// The address is not aligned to the programming width.
    ProgramAlignment,
    /// The cell was not erased before programming.
    Program,
}

/// The error `STAT` reports, the first of `WPERR`, `PGAERR`, `PGERR` that
/// stands.
pub open spec fn error_of(stat: u32) -> Option<Error> {
    if get_bit(stat, STAT_WPERR) {
        Some(Error::WriteProtected)
    } else if get_bit(stat, STAT_PGAERR) {
        Some(Error::ProgramAlignment)
    } else if get_bit(stat, STAT_PGERR) {
        Some(Error::Program)
    } else {
        None
    }
}

/// `STAT` once the error it reports has been taken: that one flag cleared.
pub open spec fn stat_after_take(stat: u32) -> u32 {
    if get_bit(stat, STAT_WPERR) {
        put_bit(stat, STAT_WPERR, false)
    } else if get_bit(stat, STAT_PGAERR) {
        put_bit(stat, STAT_PGAERR, false)
    } else if get_bit(stat, STAT_PGERR) {
        put_bit(stat, STAT_PGERR, false)
    } else {
        stat
    }
}

/// `STAT` once an operation has been waited out: `ENDF` cleared and the
/// reported error taken.
pub open spec fn stat_after_op(stat: u32) -> u32 {
    stat_after_take(put_bit(stat, STAT_ENDF, false))
}

/// An operation's outcome, as its error flag reports it.
pub open spec fn result_of(stat: u32) -> Result<(), Error> {
    match error_of(stat) {
        Some(e) => Err(e),
        None => Ok(()),
    }
}

/// How far the option bytes lock the flash against being read out.
#[derive(Clone, Copy, PartialEq, Eq, Structural)]
pub enum ProtectionLevel {
    /// No protection: the debugger reads and writes the flash freely.
    NoProtection,
    /// Debugger access is refused. Leaving this level mass-erases the main flash.
    Low,
    /// As `Low`, and the option bytes themselves can no longer be erased or
    /// reprogrammed — the part stays this way for good.
    High,
}

/// The `OB_SPC` byte itself, standing for a protection level.
#[derive(Clone, Copy, PartialEq, Eq, Structural)]
pub enum Spc {
    /// No protection, `0xA5`.
    NoProtection,
    /// Low protection, `0x00`. Every code other than the two others means
    /// this one as well.
    Low,
    /// High protection, `0xCC`, which cannot be undone.
    High,
}

impl Spc {
    /// The code that goes into the option byte.
    pub open spec fn spec_code(self) -> u8 {
        match self {
            Spc::NoProtection => 0xA5,
            Spc::Low => 0x00,
            Spc::High => 0xCC,
        }
    }

    /// The code that goes into the option byte.
    #[verifier::when_used_as_spec(spec_code)]
    pub fn code(self) -> (r: u8)
        ensures
            r == self.spec_code(),
    {
        match self {
            Spc::NoProtection => 0xA5,
            Spc::Low => 0x00,
            Spc::High => 0xCC,
        }
    }
}

impl ProtectionLevel {
    /// The `OB_SPC` code standing for this level.
    pub open spec fn spec_spc(self) -> Spc {
        match self {
            ProtectionLevel::NoProtection => Spc::NoProtection,
            ProtectionLevel::Low => Spc::Low,
            ProtectionLevel::High => Spc::High,
        }
    }

    /// The `OB_SPC` code standing for this level.
    #[verifier::when_used_as_spec(spec_spc)]
    fn spc(self) -> (r: Spc)
        ensures
            r == self.spec_spc(),
    {
        match self {
            ProtectionLevel::NoProtection => Spc::NoProtection,
            ProtectionLevel::Low => Spc::Low,
            ProtectionLevel::High => Spc::High,
        }
    }
}

/// The protection level a `PLEVEL` code stands for.
pub open spec fn plevel_level(plevel: u32) -> ProtectionLevel {
    if plevel == 0 {
        ProtectionLevel::NoProtection
    } else if plevel == 1 {
        ProtectionLevel::Low
    } else {
        ProtectionLevel::High
    }
}

/// Which free watchdog the part starts with (`nWDG_SW`).
#[derive(Clone, Copy, PartialEq, Eq, Structural)]
pub enum FreeWatchdog {
    /// Started by hardware, running from reset.
    Hardware,
    /// Started by software.
    Software,
}

/// What entering deep-sleep or standby does (`nRST_DPSLP`, `nRST_STDBY`).
#[derive(Clone, Copy, PartialEq, Eq, Structural)]
pub enum LowPowerEntry {
    /// The part resets instead of entering the mode.
    Reset,
    /// The part enters the mode.
    Enter,
}

/// The level `BOOT1` is taken to have (`BOOT1_n`, stored inverted).
#[derive(Clone, Copy, PartialEq, Eq, Structural)]
pub enum Boot1 {
    /// `BOOT1` reads as 0.
    Low,
    /// `BOOT1` reads as 1.
    High,
}

/// Whether the supply monitor watches VDDA (`VDDA_VISOR`).
#[derive(Clone, Copy, PartialEq, Eq, Structural)]
pub enum VddaMonitor {
    /// Not watched.
    Disabled,
    /// Watched; the part is held in reset while VDDA is too low.
    Enabled,
}

/// Whether the SRAM parity check is on (`SRAM_PARITY_CHECK`, stored inverted).
#[derive(Clone, Copy, PartialEq, Eq, Structural)]
pub enum SramParity {
    /// Not checked.
    Disabled,
    /// Checked.
    Enabled,
}

/// Which free watchdog an `OB_USER` byte starts the part with.
pub open spec fn free_watchdog_of(user: u8) -> FreeWatchdog {
    if user_bit_spec(user, BIT_NWDG_SW) {
        FreeWatchdog::Software
    } else {
        FreeWatchdog::Hardware
    }
}

/// What entering deep-sleep does under an `OB_USER` byte.
pub open spec fn deep_sleep_of(user: u8) -> LowPowerEntry {
    if user_bit_spec(user, BIT_NRST_DPSLP) {
        LowPowerEntry::Enter
    } else {
        LowPowerEntry::Reset
    }
}

/// What entering standby does under an `OB_USER` byte.
pub open spec fn standby_of(user: u8) -> LowPowerEntry {
    if user_bit_spec(user, BIT_NRST_STDBY) {
        LowPowerEntry::Enter
    } else {
        LowPowerEntry::Reset
    }
}

/// The `BOOT1` level an `OB_USER` byte gives, the bit being stored inverted.
pub open spec fn boot1_of(user: u8) -> Boot1 {
    if user_bit_spec(user, BIT_BOOT1_N) {
        Boot1::Low
    } else {
        Boot1::High
    }
}

/// Whether an `OB_USER` byte turns the VDDA monitor on.
pub open spec fn vdda_monitor_of(user: u8) -> VddaMonitor {
    if user_bit_spec(user, BIT_VDDA_VISOR) {
        VddaMonitor::Enabled
    } else {
        VddaMonitor::Disabled
    }
}

/// Whether an `OB_USER` byte turns the SRAM parity check on, the bit being stored inverted.
pub open spec fn sram_parity_of(user: u8) -> SramParity {
    if user_bit_spec(user, BIT_SRAM_PARITY) {
        SramParity::Disabled
    } else {
        SramParity::Enabled
    }
}

/// The option byte block as a whole, read with [`Fmc::read_option_bytes`] and
/// written back with [`UnlockedFmc::write_option_bytes`].
#[derive(Clone, Copy, PartialEq, Eq, Structural)]
pub struct OptionBytes {
    protection: ProtectionLevel,
    user: u8,
    data: u16,
    wp: u32,
}

impl Default for OptionBytes {
    /// The state the part leaves the factory in: no protection, and every other
    /// byte erased.
    fn default() -> (r: Self)
        ensures
            r.protection_spec() == ProtectionLevel::NoProtection,
            r.user_spec() == 0xFF,
            r.data_spec() == 0xFFFF,
            r.wp_spec() == WP_ALL_FREE,
    {
        Self { protection: ProtectionLevel::NoProtection, user: 0xFF, data: 0xFFFF, wp: WP_ALL_FREE }
    }
}

impl OptionBytes {
    /// The protection level asked for.
    pub closed spec fn protection_spec(self) -> ProtectionLevel {
        self.protection
    }

    /// `OB_USER`.
    pub closed spec fn user_spec(self) -> u8 {
        self.user
    }

    /// The two user data bytes.
    pub closed spec fn data_spec(self) -> u16 {
        self.data
    }

    /// `OB_WP`, one bit per group of four pages, clear for protected.
    pub closed spec fn wp_spec(self) -> u32 {
        self.wp
    }

    /// The four words the block is programmed as, in address order.
    pub open spec fn words(self) -> Seq<u32> {
        seq![
            ob_word_spec(self.protection_spec().spec_spc().spec_code(), self.user_spec()),
            ob_word_spec((self.data_spec() % 256) as u8, (self.data_spec() / 256) as u8),
            ob_word_spec((self.wp_spec() % 256) as u8, ((self.wp_spec() / 256) % 256) as u8),
            ob_word_spec(((self.wp_spec() / 65536) % 256) as u8, (self.wp_spec() / 16777216) as u8),
        ]
    }

    /// The `(address, word)` writes that program the block, in order.
    pub open spec fn bus_writes(self) -> Seq<(u32, u32)> {
        Seq::new(4, |i: int| ((OB_BASE + i * WORD_SIZE) as u32, self.words()[i]))
    }

    /// Leaves the flash readable by a debugger.
    pub fn no_protection(self) -> (r: Self)
        ensures
            r.protection_spec() == ProtectionLevel::NoProtection,
            r.user_spec() == self.user_spec(),
            r.data_spec() == self.data_spec(),
            r.wp_spec() == self.wp_spec(),
    {
        Self { protection: ProtectionLevel::NoProtection, ..self }
    }

    /// Refuses debugger access. Going back to
    /// [`no_protection`](Self::no_protection) later mass-erases the main flash.
    pub fn protection_low(self) -> (r: Self)
        ensures
            r.protection_spec() == ProtectionLevel::Low,
            r.user_spec() == self.user_spec(),
            r.data_spec() == self.data_spec(),
            r.wp_spec() == self.wp_spec(),
    {
        Self { protection: ProtectionLevel::Low, ..self }
    }

    /// Refuses debugger access **for good**: after this the option bytes
    /// themselves can no longer be erased or reprogrammed.
    pub fn protection_high_forever(self) -> (r: Self)
        ensures
            r.protection_spec() == ProtectionLevel::High,
            r.user_spec() == self.user_spec(),
            r.data_spec() == self.data_spec(),
            r.wp_spec() == self.wp_spec(),
    {
        Self { protection: ProtectionLevel::High, ..self }
    }

    /// Picks which free watchdog the part starts with.
    pub fn free_watchdog(self, watchdog: FreeWatchdog) -> (r: Self)
        ensures
            r.protection_spec() == self.protection_spec(),
            r.user_spec() == set_user_bit_spec(self.user_spec(), BIT_NWDG_SW, watchdog == FreeWatchdog::Software),
            r.data_spec() == self.data_spec(),
            r.wp_spec() == self.wp_spec(),
    {
        let on = match watchdog {
            FreeWatchdog::Software => true,
            FreeWatchdog::Hardware => false,
        };
        Self { user: set_user_bit(self.user, BIT_NWDG_SW, on), ..self }
    }

    /// Says what entering deep-sleep does.
    pub fn deep_sleep(self, entry: LowPowerEntry) -> (r: Self)
        ensures
            r.protection_spec() == self.protection_spec(),
            r.user_spec() == set_user_bit_spec(self.user_spec(), BIT_NRST_DPSLP, entry == LowPowerEntry::Enter),
            r.data_spec() == self.data_spec(),
            r.wp_spec() == self.wp_spec(),
    {
        let on = match entry {
            LowPowerEntry::Enter => true,
            LowPowerEntry::Reset => false,
        };
        Self { user: set_user_bit(self.user, BIT_NRST_DPSLP, on), ..self }
    }

    /// Says what entering standby does.
    pub fn standby(self, entry: LowPowerEntry) -> (r: Self)
        ensures
            r.protection_spec() == self.protection_spec(),
            r.user_spec() == set_user_bit_spec(self.user_spec(), BIT_NRST_STDBY, entry == LowPowerEntry::Enter),
            r.data_spec() == self.data_spec(),
            r.wp_spec() == self.wp_spec(),
    {
        let on = match entry {
            LowPowerEntry::Enter => true,
            LowPowerEntry::Reset => false,
        };
        Self { user: set_user_bit(self.user, BIT_NRST_STDBY, on), ..self }
    }

    /// Sets the level `BOOT1` is taken to have; the bit is stored inverted.
    pub fn boot1(self, boot1: Boot1) -> (r: Self)
        ensures
            r.protection_spec() == self.protection_spec(),
            r.user_spec() == set_user_bit_spec(self.user_spec(), BIT_BOOT1_N, boot1 == Boot1::Low),
            r.data_spec() == self.data_spec(),
            r.wp_spec() == self.wp_spec(),
    {
        let on = match boot1 {
            Boot1::Low => true,
            Boot1::High => false,
        };
        Self { user: set_user_bit(self.user, BIT_BOOT1_N, on), ..self }
    }

    /// Turns the VDDA monitor on or off.
    pub fn vdda_monitor(self, monitor: VddaMonitor) -> (r: Self)
        ensures
            r.protection_spec() == self.protection_spec(),
            r.user_spec() == set_user_bit_spec(self.user_spec(), BIT_VDDA_VISOR, monitor == VddaMonitor::Enabled),
            r.data_spec() == self.data_spec(),
            r.wp_spec() == self.wp_spec(),
    {
        let on = match monitor {
            VddaMonitor::Enabled => true,
            VddaMonitor::Disabled => false,
        };
        Self { user: set_user_bit(self.user, BIT_VDDA_VISOR, on), ..self }
    }

    /// Turns the SRAM parity check on or off; the bit is stored inverted.
    pub fn sram_parity(self, parity: SramParity) -> (r: Self)
        ensures
            r.protection_spec() == self.protection_spec(),
            r.user_spec() == set_user_bit_spec(self.user_spec(), BIT_SRAM_PARITY, parity == SramParity::Disabled),
            r.data_spec() == self.data_spec(),
            r.wp_spec() == self.wp_spec(),
    {
        let on = match parity {
            SramParity::Disabled => true,
            SramParity::Enabled => false,
        };
        Self { user: set_user_bit(self.user, BIT_SRAM_PARITY, on), ..self }
    }

    /// Sets the two user data bytes, which the silicon never reads itself.
    pub fn data(self, data: u16) -> (r: Self)
        ensures
            r.protection_spec() == self.protection_spec(),
            r.user_spec() == self.user_spec(),
            r.data_spec() == data,
            r.wp_spec() == self.wp_spec(),
    {
        Self { data, ..self }
    }

    /// Closes `page` to erasing and programming, with the three other pages
    /// sharing its `OB_WP` bit.
    pub fn protect(self, page: Page) -> (r: Self)
        ensures
            r.protection_spec() == self.protection_spec(),
            r.user_spec() == self.user_spec(),
            r.data_spec() == self.data_spec(),
            r.wp_spec() == self.wp_spec() & !wp_bit_spec(page.spec_number()),
    {
        Self { wp: self.wp & !wp_bit(page), ..self }
    }

    /// Opens `page`, and with it the three pages sharing its `OB_WP` bit.
    pub fn unprotect(self, page: Page) -> (r: Self)
        ensures
            r.protection_spec() == self.protection_spec(),
            r.user_spec() == self.user_spec(),
            r.data_spec() == self.data_spec(),
            r.wp_spec() == self.wp_spec() | wp_bit_spec(page.spec_number()),
    {
        Self { wp: self.wp | wp_bit(page), ..self }
    }

    /// The protection level this block asks for.
    pub fn protection(&self) -> (r: ProtectionLevel)
        ensures
            r == self.protection_spec(),
    {
        self.protection
    }

    /// Which free watchdog the part starts with.
    pub fn get_free_watchdog(&self) -> (r: FreeWatchdog)
        ensures
            r == free_watchdog_of(self.user_spec()),
    {
        match user_bit(self.user, BIT_NWDG_SW) {
            true => FreeWatchdog::Software,
            false => FreeWatchdog::Hardware,
        }
    }

    /// What entering deep-sleep does.
    pub fn get_deep_sleep(&self) -> (r: LowPowerEntry)
        ensures
            r == deep_sleep_of(self.user_spec()),
    {
        match user_bit(self.user, BIT_NRST_DPSLP) {
            true => LowPowerEntry::Enter,
            false => LowPowerEntry::Reset,
        }
    }

    /// What entering standby does.
    pub fn get_standby(&self) -> (r: LowPowerEntry)
        ensures
            r == standby_of(self.user_spec()),
    {
        match user_bit(self.user, BIT_NRST_STDBY) {
            true => LowPowerEntry::Enter,
            false => LowPowerEntry::Reset,
        }
    }

    /// The level `BOOT1` is taken to have.
    pub fn get_boot1(&self) -> (r: Boot1)
        ensures
            r == boot1_of(self.user_spec()),
    {
        match user_bit(self.user, BIT_BOOT1_N) {
            true => Boot1::Low,
            false => Boot1::High,
        }
    }

    /// Whether the VDDA monitor is on.
    pub fn get_vdda_monitor(&self) -> (r: VddaMonitor)
        ensures
            r == vdda_monitor_of(self.user_spec()),
    {
        match user_bit(self.user, BIT_VDDA_VISOR) {
            true => VddaMonitor::Enabled,
            false => VddaMonitor::Disabled,
        }
    }

    /// Whether the SRAM parity check is on.
    pub fn get_sram_parity(&self) -> (r: SramParity)
        ensures
            r == sram_parity_of(self.user_spec()),
    {
        match user_bit(self.user, BIT_SRAM_PARITY) {
            true => SramParity::Disabled,
            false => SramParity::Enabled,
        }
    }

    /// The two user data bytes.
    pub fn data_bytes(&self) -> (r: u16)
        ensures
            r == self.data_spec(),
    {
        self.data
    }

    /// Whether this block closes `page` to erasing and programming.
    pub fn is_protected(&self, page: Page) -> (r: bool)
        ensures
            r == wp_protected_spec(self.wp_spec(), page.spec_number()),
    {
        wp_protected(self.wp, page)
    }
}

} // verus!

verus! {

/// `CTL` after a command: the command bit and `START` raised, `START` dropped
/// by the controller as the operation ends, then the command bit cleared.
pub open spec fn ctl_after_command(ctl: u32, cmd: u32) -> u32 {
    put_bit(put_bit(put_bit(put_bit(ctl, cmd, true), CTL_START, true), CTL_START, false), cmd, false)
}

/// `CTL` after writing the option bytes: `OBWEN` raised, the erase command
/// run, then when it succeeded `OBPG` raised and cleared around the
/// programming, and `OBWEN` dropped.
pub open spec fn ctl_after_option_write(ctl: u32, erased: bool) -> u32 {
    let c = ctl_after_command(put_bit(ctl, CTL_OBWEN, true), CTL_OBER);
    let c2 = if erased {
        put_bit(put_bit(c, CTL_OBPG, true), CTL_OBPG, false)
    } else {
        c
    };
    put_bit(c2, CTL_OBWEN, false)
}

/// Whether the controller has an outcome for each of the next `n`
/// operations: on the chip it always answers, and the driver waits on `BUSY`
/// for it.
pub open spec fn can_end(f: periph::Fmc, n: int) -> bool {
    f.done + n <= f.outcomes@.len()
}

/// `STAT` once the next operation has ended: the flags it ends with raised.
pub open spec fn stat_ended(f: periph::Fmc) -> u32 {
    f.stat | f.outcomes@[f.done as int]
}

/// Programming the option block word by word over `STAT` `stat`, the `i`-th
/// operation ending with `outs[i]`: `STAT`, the result, and how many
/// operations ran, once `i` words have been asked for. The first failure
/// ends the run, and what is asked for after it stays unasked.
pub open spec fn ob_steps(stat: u32, outs: Seq<u32>, i: nat) -> (u32, Result<(), Error>, nat)
    decreases i,
{
    if i == 0 {
        (stat, Ok(()), 0)
    } else {
        let prev = ob_steps(stat, outs, (i - 1) as nat);
        if prev.1 is Err {
            prev
        } else {
            let s = prev.0 | outs[i - 1];
            (stat_after_op(s), result_of(s), i)
        }
    }
}

/// A failed run stays as it stopped, however many more words are asked for.
pub proof fn lemma_ob_steps_stop(stat: u32, outs: Seq<u32>, i: nat, j: nat)
    requires
        i <= j,
        ob_steps(stat, outs, i).1 is Err,
    ensures
        ob_steps(stat, outs, j) == ob_steps(stat, outs, i),
    decreases j - i,
{
    if j > i {
        lemma_ob_steps_stop(stat, outs, i, (j - 1) as nat);
    }
}

/// A run of `i` words runs at most `i` operations.
pub proof fn lemma_ob_steps_count(stat: u32, outs: Seq<u32>, i: nat)
    ensures
        ob_steps(stat, outs, i).2 <= i,
    decreases i,
{
    if i > 0 {
        lemma_ob_steps_count(stat, outs, (i - 1) as nat);
    }
}

/// Writing the option block from `f`: the erase ends first, and when it
/// succeeds the four words are programmed, stopping at the first failure.
/// `STAT`, the result, and how many operations ran.
pub open spec fn option_write(f: periph::Fmc) -> (u32, Result<(), Error>, nat) {
    let e = stat_ended(f);
    if result_of(e) is Ok {
        let steps = ob_steps(stat_after_op(e), f.outcomes@.skip(f.done + 1), 4);
        (steps.0, steps.1, steps.2 + 1)
    } else {
        (stat_after_op(e), result_of(e), 1)
    }
}

/// Whether the controller has an outcome for each word that programming the
/// option block asks for, starting with `STAT` at `stat` and the outcomes
/// from index `from` on: the run stops at the first failure, so only the
/// words up to it need one.
pub open spec fn ob_answered(f: periph::Fmc, stat: u32, from: int) -> bool {
    forall|k: nat|
        #![trigger ob_steps(stat, f.outcomes@.skip(from), k)]
        k < 4 && ob_steps(stat, f.outcomes@.skip(from), k).1 is Ok ==> from + k + 1 <= f.outcomes@.len()
}

/// `after` is `before` unlocked: the two keys written into `KEY`, first
/// `0x4567_0123` and then `0xCDEF_89AB`, and `LK` dropped in consequence;
/// nothing else changes.
pub open spec fn unlocked_from(before: periph::Fmc, after: periph::Fmc) -> bool {
    &&& after == (periph::Fmc { key: after.key, ctl: put_bit(before.ctl, CTL_LK, false), ..before })
    &&& after.key@ == before.key@.push(UNLOCK_KEY1).push(UNLOCK_KEY2)
}

/// Owns the flash memory controller.
pub struct Fmc {
    fmc: periph::Fmc,
}

/// The flash controller with `CTL` unlocked, handed to the body of
/// [`Fmc::with_unlocked`] and locked again when that call returns.
pub struct UnlockedFmc {
    fmc: Fmc,
}

impl Fmc {
    /// The registers.
    pub closed spec fn regs(&self) -> periph::Fmc {
        self.fmc
    }

    /// The registers, for the code that mirrors them onto the chip.
    pub fn registers(&self) -> (r: &periph::Fmc)
        ensures
            *r == self.regs(),
    {
        &self.fmc
    }

    /// Takes the error the last operation ended with: clears `ENDF`, then the
    /// error flag, and reports how it went. The wait on `BUSY` that precedes
    /// this on the chip is the silicon's.
    fn wait_busy(&mut self) -> (r: Result<(), Error>)
        requires
            can_end(old(self).regs(), 1),
        ensures
            final(self).regs() == (periph::Fmc {
                stat: stat_after_op(stat_ended(old(self).regs())),
                done: (old(self).regs().done + 1) as usize,
                ..old(self).regs()
            }),
            final(self).regs().done == old(self).regs().done + 1,
            r == result_of(stat_ended(old(self).regs())),
    {
        // The operation ends: the controller raises its flags.
        let _len = self.fmc.outcomes.len();
        let outcome = self.fmc.outcomes[self.fmc.done];
        self.fmc.stat = self.fmc.stat | outcome;
        self.fmc.done = self.fmc.done + 1;
        let ghost s = self.fmc.stat;
        self.clear_interrupt(Event::End);
        proof {
            crate::bits::lemma_put_bit(s, STAT_ENDF, false, STAT_WPERR);
            crate::bits::lemma_put_bit(s, STAT_ENDF, false, STAT_PGAERR);
            crate::bits::lemma_put_bit(s, STAT_ENDF, false, STAT_PGERR);
        }
        match self.take_error() {
            Some(error) => Err(error),
            None => Ok(()),
        }
    }

    fn unlock(self) -> (r: UnlockedFmc)
        ensures
            unlocked_from(self.regs(), r.regs()),
    {
        let mut fmc = self.fmc;
        fmc.key.push(UNLOCK_KEY1);
        fmc.key.push(UNLOCK_KEY2);
        // The key sequence drops `LK`.
        fmc.ctl = write_bit(fmc.ctl, CTL_LK, false);
        UnlockedFmc { fmc: Fmc { fmc } }
    }

    /// Unlocks `CTL`, runs `f` on the unlocked controller, locks it again, and
    /// returns what `f` returned.
    ///
    /// `f` takes the unlocked controller and hands it back with its result, so
    /// the flash is never left writable once this returns.
    pub fn with_unlocked<R, F: FnOnce(UnlockedFmc) -> (UnlockedFmc, R)>(&mut self, f: F) -> (r: R)
        requires
            forall|u: UnlockedFmc| f.requires((u,)),
        ensures
            exists|u_in: UnlockedFmc, u: UnlockedFmc|
                {
                    &&& unlocked_from(old(self).regs(), u_in.regs())
                    &&& #[trigger] f.ensures((u_in,), (u, r))
                    &&& final(self).regs() == (periph::Fmc {
                        ctl: put_bit(u.regs().ctl, CTL_LK, true),
                        ..u.regs()
                    })
                },
            get_bit(final(self).regs().ctl, CTL_LK),
    {
        let mut taken = Fmc { fmc: periph::Fmc::reset_state(0, 0, 0, Vec::new()) };
        core::mem::swap(&mut taken, self);
        let unlocked_in = taken.unlock();
        let ret = f(unlocked_in);
        let (unlocked, result) = ret;
        assert(f.ensures((unlocked_in,), (unlocked, result)));
        let mut locked = unlocked.lock();
        proof {
            crate::bits::lemma_put_bit(unlocked.regs().ctl, CTL_LK, true, CTL_LK);
        }
        core::mem::swap(&mut locked, self);
        result
    }

    /// Returns the register file.
    pub fn release(self) -> (r: periph::Fmc)
        ensures
            r == self.regs(),
    {
        self.fmc
    }

    /// Sets the wait states `hclk` can be read at, `hclk` given in Hz.
    pub(crate) fn set_ws(&mut self, hclk: u32)
        requires
            hclk <= WS2_MAX_HCLK,
        ensures
            final(self).regs() == (periph::Fmc {
                ws: put_field(old(self).regs().ws, WS_WSCNT, 7, ws_code(hclk)),
                ..old(self).regs()
            }),
    {
        let code: u32 = if hclk <= WS0_MAX_HCLK {
            0
        } else if hclk <= WS1_MAX_HCLK {
            1
        } else {
            2
        };
        self.fmc.ws = write_field(self.fmc.ws, WS_WSCNT, 7, code);
    }

    /// Whether the option bytes protect `page` from being erased or programmed.
    pub fn is_protected(&self, page: Page) -> (r: bool)
        ensures
            r == wp_protected_spec(self.regs().wp, page.spec_number()),
    {
        wp_protected(self.fmc.wp, page)
    }

    /// The security protection level the option bytes ask for.
    pub fn protection_level(&self) -> (r: ProtectionLevel)
        ensures
            r == plevel_level(get_field(self.regs().obstat, OBSTAT_PLEVEL, 3)),
    {
        let plevel = read_field(self.fmc.obstat, OBSTAT_PLEVEL, 3);
        if plevel == 0 {
            ProtectionLevel::NoProtection
        } else if plevel == 1 {
            ProtectionLevel::Low
        } else {
            ProtectionLevel::High
        }
    }

    /// Whether the option bytes failed their checksum, in which case the
    /// defaults were loaded instead of them.
    pub fn option_error(&self) -> (r: bool)
        ensures
            r == get_bit(self.regs().obstat, OBSTAT_OBERR),
    {
        read_bit(self.fmc.obstat, OBSTAT_OBERR)
    }

    /// The user option byte, raw.
    pub fn user_option(&self) -> (r: u8)
        ensures
            r == get_field(self.regs().obstat, OBSTAT_USER, 0xff),
    {
        let w = self.fmc.obstat;
        let v = read_field(w, OBSTAT_USER, 0xff);
        assert(v <= 0xff) by (bit_vector)
            requires
                v == get_field(w, OBSTAT_USER, 0xff),
        ;
        v as u8
    }

    /// The two user data bytes of the option block, raw.
    pub fn data_option(&self) -> (r: u16)
        ensures
            r == get_field(self.regs().obstat, OBSTAT_DATA, 0xffff),
    {
        let w = self.fmc.obstat;
        let v = read_field(w, OBSTAT_DATA, 0xffff);
        assert(v <= 0xffff) by (bit_vector)
            requires
                v == get_field(w, OBSTAT_DATA, 0xffff),
        ;
        v as u16
    }

    /// The product ID code, fixed in silicon and read-only.
    pub fn product_id_code(&self) -> (r: u32)
        ensures
            r == self.regs().pid,
    {
        self.fmc.pid
    }

    /// The option bytes as they were loaded at reset.
    pub fn read_option_bytes(&self) -> (r: OptionBytes)
        ensures
            r.protection_spec() == plevel_level(get_field(self.regs().obstat, OBSTAT_PLEVEL, 3)),
            r.user_spec() == get_field(self.regs().obstat, OBSTAT_USER, 0xff),
            r.data_spec() == get_field(self.regs().obstat, OBSTAT_DATA, 0xffff),
            r.wp_spec() == self.regs().wp,
    {
        OptionBytes {
            protection: self.protection_level(),
            user: self.user_option(),
            data: self.data_option(),
            wp: self.fmc.wp,
        }
    }

    /// Asks for the option bytes to be reloaded, which resets the part.
    ///
    /// `OBRLD` is the one bit of `CTL` the lock leaves writable. On the chip
    /// nothing runs after this: the reset follows at once.
    pub fn reload_option_bytes(&mut self)
        ensures
            final(self).regs() == (periph::Fmc {
                ctl: put_bit(old(self).regs().ctl, CTL_OBRLD, true),
                ..old(self).regs()
            }),
    {
        self.fmc.ctl = write_bit(self.fmc.ctl, CTL_OBRLD, true);
    }

    /// Turns the prefetch buffer on or off.
    pub fn set_prefetch(&mut self, on: bool)
        ensures
            final(self).regs() == (periph::Fmc {
                ws: put_bit(old(self).regs().ws, WS_PFEN, on),
                ..old(self).regs()
            }),
    {
        self.fmc.ws = write_bit(self.fmc.ws, WS_PFEN, on);
    }

    /// Whether the prefetch buffer is on.
    pub fn is_prefetch_enabled(&self) -> (r: bool)
        ensures
            r == get_bit(self.regs().ws, WS_PFEN),
    {
        read_bit(self.fmc.ws, WS_PFEN)
    }

    /// Returns the error the last operation ended with, clearing its flag.
    ///
    /// `ENDF` is left alone: it marks success and never stands together with an
    /// error.
    pub fn take_error(&mut self) -> (r: Option<Error>)
        ensures
            r == error_of(old(self).regs().stat),
            final(self).regs() == (periph::Fmc {
                stat: stat_after_take(old(self).regs().stat),
                ..old(self).regs()
            }),
    {
        let stat = self.fmc.stat;
        if read_bit(stat, STAT_WPERR) {
            self.fmc.stat = write_bit(stat, STAT_WPERR, false);
            Some(Error::WriteProtected)
        } else if read_bit(stat, STAT_PGAERR) {
            self.fmc.stat = write_bit(stat, STAT_PGAERR, false);
            Some(Error::ProgramAlignment)
        } else if read_bit(stat, STAT_PGERR) {
            self.fmc.stat = write_bit(stat, STAT_PGERR, false);
            Some(Error::Program)
        } else {
            None
        }
    }

    /// Whether `event` currently raises an interrupt.
    pub fn is_listening(&self, event: Event) -> (r: bool)
        ensures
            r == get_bit(self.regs().ctl, event.ctl_bit()),
    {
        match event {
            Event::End => read_bit(self.fmc.ctl, CTL_ENDIE),
            Event::Error => read_bit(self.fmc.ctl, CTL_ERRIE),
        }
    }

    /// Clears the flag behind `event`; for [`Event::Error`] every error flag at
    /// once.
    pub fn clear_interrupt(&mut self, event: Event)
        ensures
            final(self).regs() == (periph::Fmc {
                stat: match event {
                    Event::End => put_bit(old(self).regs().stat, STAT_ENDF, false),
                    Event::Error => put_bit(
                        put_bit(put_bit(old(self).regs().stat, STAT_WPERR, false), STAT_PGAERR, false),
                        STAT_PGERR,
                        false,
                    ),
                },
                ..old(self).regs()
            }),
    {
        match event {
            Event::End => {
                self.fmc.stat = write_bit(self.fmc.stat, STAT_ENDF, false);
            },
            Event::Error => {
                let s = write_bit(self.fmc.stat, STAT_WPERR, false);
                let s = write_bit(s, STAT_PGAERR, false);
                self.fmc.stat = write_bit(s, STAT_PGERR, false);
            },
        }
    }
}

impl UnlockedFmc {
    /// The registers.
    pub closed spec fn regs(&self) -> periph::Fmc {
        self.fmc.fmc
    }

    /// The registers, for the code that mirrors them onto the chip.
    pub fn registers(&self) -> (r: &periph::Fmc)
        ensures
            *r == self.regs(),
    {
        &self.fmc.fmc
    }

    fn lock(self) -> (r: Fmc)
        ensures
            r.regs() == (periph::Fmc { ctl: put_bit(self.regs().ctl, CTL_LK, true), ..self.regs() }),
    {
        let mut fmc = self.fmc.fmc;
        fmc.ctl = write_bit(fmc.ctl, CTL_LK, true);
        Fmc { fmc }
    }

    /// Runs the command whose bit is `cmd`: raises it and `START`, takes the
    /// outcome, and clears the command bit.
    fn run_command(&mut self, cmd: u32) -> (r: Result<(), Error>)
        requires
            cmd < 32,
            can_end(old(self).regs(), 1),
        ensures
            final(self).regs() == (periph::Fmc {
                ctl: ctl_after_command(old(self).regs().ctl, cmd),
                stat: stat_after_op(stat_ended(old(self).regs())),
                done: (old(self).regs().done + 1) as usize,
                ..old(self).regs()
            }),
            final(self).regs().done == old(self).regs().done + 1,
            r == result_of(stat_ended(old(self).regs())),
    {
        self.fmc.fmc.ctl = write_bit(self.fmc.fmc.ctl, cmd, true);
        self.fmc.fmc.ctl = write_bit(self.fmc.fmc.ctl, CTL_START, true);
        // The controller drops `START` when the operation ends.
        self.fmc.fmc.ctl = write_bit(self.fmc.fmc.ctl, CTL_START, false);
        let result = self.fmc.wait_busy();
        self.fmc.fmc.ctl = write_bit(self.fmc.fmc.ctl, cmd, false);
        result
    }

    /// Erases one page, reporting the error the controller raised, if any.
    pub fn erase_page(&mut self, page: Page) -> (r: Result<(), Error>)
        requires
            can_end(old(self).regs(), 1),
        ensures
            final(self).regs() == (periph::Fmc {
                addr: page_addr(page.spec_number()),
                ctl: ctl_after_command(old(self).regs().ctl, CTL_PER),
                stat: stat_after_op(stat_ended(old(self).regs())),
                done: (old(self).regs().done + 1) as usize,
                ..old(self).regs()
            }),
            r == result_of(stat_ended(old(self).regs())),
    {
        self.fmc.fmc.addr = BASE + page.number() * PAGE_SIZE;
        self.run_command(CTL_PER)
    }

    /// Erases the whole main flash.
    pub fn mass_erase(&mut self) -> (r: Result<(), Error>)
        requires
            can_end(old(self).regs(), 1),
        ensures
            final(self).regs() == (periph::Fmc {
                ctl: ctl_after_command(old(self).regs().ctl, CTL_MER),
                stat: stat_after_op(stat_ended(old(self).regs())),
                done: (old(self).regs().done + 1) as usize,
                ..old(self).regs()
            }),
            r == result_of(stat_ended(old(self).regs())),
    {
        self.run_command(CTL_MER)
    }

    /// Programs one 32-bit word, `index` counting words from the start of
    /// `page`: the write of `word` to its address on the flash bus, while `PG`
    /// stands, is the command.
    pub fn program(&mut self, page: Page, index: u8, word: u32) -> (r: Result<(), Error>)
        requires
            can_end(old(self).regs(), 1),
        ensures
            final(self).regs() == (periph::Fmc {
                ctl: put_bit(put_bit(old(self).regs().ctl, CTL_PG, true), CTL_PG, false),
                stat: stat_after_op(stat_ended(old(self).regs())),
                done: (old(self).regs().done + 1) as usize,
                bus: final(self).regs().bus,
                ..old(self).regs()
            }),
            final(self).regs().bus@ == old(self).regs().bus@.push(
                ((page_addr(page.spec_number()) + index * WORD_SIZE) as u32, word),
            ),
            r == result_of(stat_ended(old(self).regs())),
    {
        self.fmc.fmc.ctl = write_bit(self.fmc.fmc.ctl, CTL_PG, true);
        let addr = BASE + page.number() * PAGE_SIZE + index as u32 * WORD_SIZE;
        self.fmc.fmc.bus.push((addr, word));
        let result = self.fmc.wait_busy();
        self.fmc.fmc.ctl = write_bit(self.fmc.fmc.ctl, CTL_PG, false);
        result
    }

    /// Erases the option byte block and programs `ob` in its place.
    ///
    /// The block is written as four words, each pair of option bytes next to
    /// their complements; nothing is programmed when the erase fails, and
    /// programming stops at the first word that fails. Nothing takes effect
    /// until the option bytes are loaded again. The controller answers every
    /// operation started: the erase, and the words up to the first that
    /// fails.
    pub fn write_option_bytes(&mut self, ob: &OptionBytes) -> (r: Result<(), Error>)
        requires
            can_end(old(self).regs(), 1),
            result_of(stat_ended(old(self).regs())) is Ok ==> ob_answered(
                old(self).regs(),
                stat_after_op(stat_ended(old(self).regs())),
                old(self).regs().done + 1,
            ),
        ensures
            r == option_write(old(self).regs()).1,
            final(self).regs().obkey@ == old(self).regs().obkey@.push(UNLOCK_KEY1).push(UNLOCK_KEY2),
            final(self).regs() == (periph::Fmc {
                obkey: final(self).regs().obkey,
                ctl: ctl_after_option_write(
                    old(self).regs().ctl,
                    result_of(stat_ended(old(self).regs())) is Ok,
                ),
                stat: option_write(old(self).regs()).0,
                done: (old(self).regs().done + option_write(old(self).regs()).2) as usize,
                bus: final(self).regs().bus,
                ..old(self).regs()
            }),
            final(self).regs().bus@ == old(self).regs().bus@ + ob.bus_writes().take(
                option_write(old(self).regs()).2 - 1,
            ),
    {
        self.fmc.fmc.obkey.push(UNLOCK_KEY1);
        self.fmc.fmc.obkey.push(UNLOCK_KEY2);
        self.fmc.fmc.ctl = write_bit(self.fmc.fmc.ctl, CTL_OBWEN, true);
        let ghost f0 = self.fmc.fmc;
        let erased = self.erase_option_bytes();
        let ghost f1 = self.fmc.fmc;
        let result = match erased {
            Ok(()) => self.program_option_bytes(ob),
            Err(e) => Err(e),
        };
        proof {
            let o = old(self).regs();
            assert(stat_ended(f0) == stat_ended(o));
            if erased is Err {
                assert(ob.bus_writes().take(0) =~= Seq::<(u32, u32)>::empty());
                assert(self.fmc.fmc.bus@ =~= f0.bus@ + ob.bus_writes().take(0));
            } else {
                let outs = f1.outcomes@.skip(f1.done as int);
                assert(outs =~= o.outcomes@.skip(o.done + 1));
                let steps = ob_steps(f1.stat, outs, 4);
                assert(f1.stat == stat_after_op(stat_ended(o)));
                assert(steps == ob_steps(stat_after_op(stat_ended(o)), o.outcomes@.skip(o.done + 1), 4));
                assert(option_write(o) == (steps.0, steps.1, steps.2 + 1));
                assert(result == steps.1);
            }
        }
        self.fmc.fmc.ctl = write_bit(self.fmc.fmc.ctl, CTL_OBWEN, false);
        result
    }

    /// Erases the whole option byte block, every byte going back to `0xFF`.
    fn erase_option_bytes(&mut self) -> (r: Result<(), Error>)
        requires
            can_end(old(self).regs(), 1),
        ensures
            final(self).regs() == (periph::Fmc {
                ctl: ctl_after_command(old(self).regs().ctl, CTL_OBER),
                stat: stat_after_op(stat_ended(old(self).regs())),
                done: (old(self).regs().done + 1) as usize,
                ..old(self).regs()
            }),
            final(self).regs().done == old(self).regs().done + 1,
            r == result_of(stat_ended(old(self).regs())),
    {
        self.run_command(CTL_OBER)
    }

    /// Programs the erased block, one word per pair of option bytes, stopping
    /// at the first word that fails.
    fn program_option_bytes(&mut self, ob: &OptionBytes) -> (r: Result<(), Error>)
        requires
            ob_answered(old(self).regs(), old(self).regs().stat, old(self).regs().done as int),
        ensures
            ({
                let steps = ob_steps(
                    old(self).regs().stat,
                    old(self).regs().outcomes@.skip(old(self).regs().done as int),
                    4,
                );
                &&& r == steps.1
                &&& final(self).regs() == (periph::Fmc {
                    ctl: put_bit(put_bit(old(self).regs().ctl, CTL_OBPG, true), CTL_OBPG, false),
                    stat: steps.0,
                    done: (old(self).regs().done + steps.2) as usize,
                    bus: final(self).regs().bus,
                    ..old(self).regs()
                })
                &&& final(self).regs().bus@ == old(self).regs().bus@ + ob.bus_writes().take(steps.2 as int)
                &&& final(self).regs().done == old(self).regs().done + steps.2
                &&& 1 <= steps.2 <= 4
            }),
    {
        let data_low: u8 = (ob.data % 256) as u8;
        let data_high: u8 = (ob.data / 256) as u8;
        let wp0: u8 = (ob.wp % 256) as u8;
        let wp1: u8 = ((ob.wp / 256) % 256) as u8;
        let wp2: u8 = ((ob.wp / 65536) % 256) as u8;
        let wp3: u8 = (ob.wp / 16777216) as u8;
        let words: [u32; 4] = [
            ob_word(ob.protection.spc().code(), ob.user),
            ob_word(data_low, data_high),
            ob_word(wp0, wp1),
            ob_word(wp2, wp3),
        ];
        let ghost target = ob.bus_writes();
        assert(words@ == ob.words());
        let ghost f0 = self.fmc.fmc;
        let ghost outs = f0.outcomes@.skip(f0.done as int);
        self.fmc.fmc.ctl = write_bit(self.fmc.fmc.ctl, CTL_OBPG, true);
        let mut result: Result<(), Error> = Ok(());
        let mut index: usize = 0;
        while index < 4 && result.is_ok()
            invariant
                0 <= index <= 4,
                words@ == ob.words(),
                target == ob.bus_writes(),
                target.len() == 4,
                forall|i: int| 0 <= i < 4 ==> #[trigger] target[i] == ((OB_BASE + i * WORD_SIZE) as u32, words@[i]),
                outs == f0.outcomes@.skip(f0.done as int),
                ob_answered(f0, f0.stat, f0.done as int),
                ob_steps(f0.stat, outs, index as nat) == (self.fmc.fmc.stat, result, index as nat),
                self.fmc.fmc.bus@ == f0.bus@ + target.take(index as int),
                self.fmc.fmc.done == f0.done + index,
                self.fmc.fmc.outcomes == f0.outcomes,
                self.fmc.fmc.ctl == put_bit(f0.ctl, CTL_OBPG, true),
                self.fmc.fmc.obkey == f0.obkey,
                self.fmc.fmc.key == f0.key,
                self.fmc.fmc.ws == f0.ws,
                self.fmc.fmc.addr == f0.addr,
                self.fmc.fmc.obstat == f0.obstat,
                self.fmc.fmc.wp == f0.wp,
                self.fmc.fmc.pid == f0.pid,
                f0 == old(self).regs(),
            decreases 4 - index,
        {
            let addr = OB_BASE + index as u32 * WORD_SIZE;
            self.fmc.fmc.bus.push((addr, words[index]));
            assert(target.take(index as int + 1) == target.take(index as int).push(target[index as int]));
            assert(ob_steps(f0.stat, outs, index as nat).1 is Ok);
            assert(f0.done + index + 1 <= f0.outcomes@.len());
            assert(outs[index as int] == f0.outcomes@[f0.done + index]);
            result = self.fmc.wait_busy();
            index = index + 1;
        }
        proof {
            if index < 4 {
                lemma_ob_steps_stop(f0.stat, outs, index as nat, 4);
            }
            assert(index >= 1);
        }
        self.fmc.fmc.ctl = write_bit(self.fmc.fmc.ctl, CTL_OBPG, false);
        result
    }

    /// Raises an interrupt on `event`; the bit outlives the lock.
    pub fn listen(&mut self, event: Event)
        ensures
            final(self).regs() == (periph::Fmc {
                ctl: put_bit(old(self).regs().ctl, event.ctl_bit(), true),
                ..old(self).regs()
            }),
    {
        match event {
            Event::End => self.fmc.fmc.ctl = write_bit(self.fmc.fmc.ctl, CTL_ENDIE, true),
            Event::Error => self.fmc.fmc.ctl = write_bit(self.fmc.fmc.ctl, CTL_ERRIE, true),
        }
    }

    /// Stops `event` from raising an interrupt.
    pub fn unlisten(&mut self, event: Event)
        ensures
            final(self).regs() == (periph::Fmc {
                ctl: put_bit(old(self).regs().ctl, event.ctl_bit(), false),
                ..old(self).regs()
            }),
    {
        match event {
            Event::End => self.fmc.fmc.ctl = write_bit(self.fmc.fmc.ctl, CTL_ENDIE, false),
            Event::Error => self.fmc.fmc.ctl = write_bit(self.fmc.fmc.ctl, CTL_ERRIE, false),
        }
    }
}

/// Entry point on the raw register file.
pub trait FmcExt: Sized {
    /// The register file taken in.
    spec fn regs_in(&self) -> periph::Fmc;

    /// Takes the register file. Nothing is written and no clock is gated.
    fn constrain(self) -> (r: Fmc)
        ensures
            r.regs() == self.regs_in(),
    ;
}

impl FmcExt for periph::Fmc {
    open spec fn regs_in(&self) -> periph::Fmc {
        *self
    }

    fn constrain(self) -> (r: Fmc) {
        Fmc { fmc: self }
    }
}

} // verus!

verus! {

/// Each user setting reads back as it was set, and setting one leaves every
/// other bit of `OB_USER` as it was.
pub proof fn law_option_user_settings(
    u: u8,
    w: FreeWatchdog,
    d: LowPowerEntry,
    s: LowPowerEntry,
    b: Boot1,
    v: VddaMonitor,
    p: SramParity,
    other: u8,
)
    requires
        other < 8,
    ensures
        free_watchdog_of(set_user_bit_spec(u, BIT_NWDG_SW, w == FreeWatchdog::Software)) == w,
        deep_sleep_of(set_user_bit_spec(u, BIT_NRST_DPSLP, d == LowPowerEntry::Enter)) == d,
        standby_of(set_user_bit_spec(u, BIT_NRST_STDBY, s == LowPowerEntry::Enter)) == s,
        boot1_of(set_user_bit_spec(u, BIT_BOOT1_N, b == Boot1::Low)) == b,
        vdda_monitor_of(set_user_bit_spec(u, BIT_VDDA_VISOR, v == VddaMonitor::Enabled)) == v,
        sram_parity_of(set_user_bit_spec(u, BIT_SRAM_PARITY, p == SramParity::Disabled)) == p,
        other != BIT_NWDG_SW ==> user_bit_spec(set_user_bit_spec(u, BIT_NWDG_SW, w == FreeWatchdog::Software), other) == user_bit_spec(u, other),
        other != BIT_NRST_DPSLP ==> user_bit_spec(set_user_bit_spec(u, BIT_NRST_DPSLP, d == LowPowerEntry::Enter), other) == user_bit_spec(u, other),
        other != BIT_NRST_STDBY ==> user_bit_spec(set_user_bit_spec(u, BIT_NRST_STDBY, s == LowPowerEntry::Enter), other) == user_bit_spec(u, other),
        other != BIT_BOOT1_N ==> user_bit_spec(set_user_bit_spec(u, BIT_BOOT1_N, b == Boot1::Low), other) == user_bit_spec(u, other),
        other != BIT_VDDA_VISOR ==> user_bit_spec(set_user_bit_spec(u, BIT_VDDA_VISOR, v == VddaMonitor::Enabled), other) == user_bit_spec(u, other),
        other != BIT_SRAM_PARITY ==> user_bit_spec(set_user_bit_spec(u, BIT_SRAM_PARITY, p == SramParity::Disabled), other) == user_bit_spec(u, other),
{
    lemma_user_bit(u, BIT_NWDG_SW, w == FreeWatchdog::Software, other);
    lemma_user_bit(u, BIT_NRST_DPSLP, d == LowPowerEntry::Enter, other);
    lemma_user_bit(u, BIT_NRST_STDBY, s == LowPowerEntry::Enter, other);
    lemma_user_bit(u, BIT_BOOT1_N, b == Boot1::Low, other);
    lemma_user_bit(u, BIT_VDDA_VISOR, v == VddaMonitor::Enabled, other);
    lemma_user_bit(u, BIT_SRAM_PARITY, p == SramParity::Disabled, other);
}

/// Protecting a page closes exactly the group of four pages holding it;
/// unprotecting opens exactly that group. Every page outside the group keeps
/// its state.
pub proof fn law_protect_groups(wp: u32, page: u32, other: u32)
    requires
        page < 64,
        other < 64,
    ensures
        wp_protected_spec(wp & !wp_bit_spec(page), other) == (other / 4 == page / 4
            || wp_protected_spec(wp, other)),
        wp_protected_spec(wp | wp_bit_spec(page), other) == (other / 4 != page / 4
            && wp_protected_spec(wp, other)),
{
    let gp = page / 4;
    let go = other / 4;
    assert(gp < 16 && go < 16);
    assert(((wp & !(1u32 << gp)) & (1u32 << go) == 0) == (go == gp || wp & (1u32 << go) == 0) && ((
    wp | (1u32 << gp)) & (1u32 << go) == 0) == (go != gp && wp & (1u32 << go) == 0))
        by (bit_vector)
        requires
            gp < 16,
            go < 16,
    ;
}

/// Protecting a page that was open and then opening it again gives back the
/// `OB_WP` mask it started from; an option block is determined by its
/// settings, so the block comes back unchanged.
pub proof fn law_protect_unprotect_round_trip(wp: u32, page: u32)
    requires
        page < 64,
        !wp_protected_spec(wp, page),
    ensures
        (wp & !wp_bit_spec(page)) | wp_bit_spec(page) == wp,
{
    let g = page / 4;
    assert(g < 16);
    assert(wp & (1u32 << g) != 0 ==> (wp & !(1u32 << g)) | (1u32 << g) == wp) by (bit_vector)
        requires
            g < 16,
    ;
}

/// Two option blocks that agree on every setting are the same block.
pub proof fn law_option_bytes_determined(a: OptionBytes, b: OptionBytes)
    requires
        a.protection_spec() == b.protection_spec(),
        a.user_spec() == b.user_spec(),
        a.data_spec() == b.data_spec(),
        a.wp_spec() == b.wp_spec(),
    ensures
        a == b,
{
}

/// Every option byte is programmed next to its complement: the word for a
/// pair of bytes holds `low`, `!low`, `high`, `!high` from the least
/// significant byte up.
pub proof fn law_option_word_layout(low: u8, high: u8)
    ensures
        ob_word_spec(low, high) % 256 == low,
        (ob_word_spec(low, high) / 256) % 256 == 255 - low,
        (ob_word_spec(low, high) / 65536) % 256 == high,
        ob_word_spec(low, high) / 16777216 == 255 - high,
{
    let l = low as int;
    let h = high as int;
    let w = l + 256 * (255 - l) + 65536 * (h + 256 * (255 - h));
    assert(0 <= w < 0x1_0000_0000);
    assert(ob_word_spec(low, high) == w);
    assert(w % 256 == l && (w / 256) % 256 == 255 - l && (w / 65536) % 256 == h && w / 16777216
        == 255 - h) by (nonlinear_arith)
        requires
            w == l + 256 * (255 - l) + 65536 * (h + 256 * (255 - h)),
            0 <= l < 256,
            0 <= h < 256,
    ;
}

/// Errors come out one per call, in the order `WPERR`, `PGAERR`, `PGERR`, the
/// taken flag cleared and the others left standing; three calls drain them
/// all.
pub proof fn law_take_error_drains(stat: u32)
    ensures
        error_of(stat) is Some ==> !get_bit(stat_after_take(stat), match error_of(stat) {
            Some(Error::WriteProtected) => STAT_WPERR,
            Some(Error::ProgramAlignment) => STAT_PGAERR,
            _ => STAT_PGERR,
        }),
        error_of(stat) == Some(Error::WriteProtected) ==> get_bit(stat_after_take(stat), STAT_PGAERR)
            == get_bit(stat, STAT_PGAERR) && get_bit(stat_after_take(stat), STAT_PGERR) == get_bit(
            stat,
            STAT_PGERR,
        ),
        error_of(stat) is None ==> stat_after_take(stat) == stat,
        error_of(stat_after_take(stat_after_take(stat_after_take(stat)))) is None,
{
    assert(forall|s: u32, i: u32, j: u32|
        #![trigger get_bit(put_bit(s, i, false), j)]
        i < 32 && j < 32 ==> (get_bit(put_bit(s, i, false), j) == if i == j {
            false
        } else {
            get_bit(s, j)
        })) by (bit_vector);
}

/// An interrupt enabled by `listen` inside [`Fmc::with_unlocked`] is still
/// enabled once the controller is locked again: locking writes only `LK`, so
/// `is_listening` reads the enable back after the call.
pub proof fn law_listen_survives_relock(ctl: u32, event: Event)
    ensures
        get_bit(put_bit(put_bit(ctl, event.ctl_bit(), true), CTL_LK, true), event.ctl_bit()),
        get_bit(put_bit(ctl, CTL_LK, true), event.ctl_bit()) == get_bit(ctl, event.ctl_bit()),
{
    crate::bits::lemma_put_bit(ctl, event.ctl_bit(), true, event.ctl_bit());
    crate::bits::lemma_put_bit(put_bit(ctl, event.ctl_bit(), true), CTL_LK, true, event.ctl_bit());
    crate::bits::lemma_put_bit(ctl, CTL_LK, true, event.ctl_bit());
}

/// The page numbered `n`, for `n` below 64.
spec fn page_numbered(n: u32) -> Page {
    match n {
        0 => Page::P0,
        1 => Page::P1,
        2 => Page::P2,
        3 => Page::P3,
        4 => Page::P4,
        5 => Page::P5,
        6 => Page::P6,
        7 => Page::P7,
        8 => Page::P8,
        9 => Page::P9,
        10 => Page::P10,
        11 => Page::P11,
        12 => Page::P12,
        13 => Page::P13,
        14 => Page::P14,
        15 => Page::P15,
        16 => Page::P16,
        17 => Page::P17,
        18 => Page::P18,
        19 => Page::P19,
        20 => Page::P20,
        21 => Page::P21,
        22 => Page::P22,
        23 => Page::P23,
        24 => Page::P24,
        25 => Page::P25,
        26 => Page::P26,
        27 => Page::P27,
        28 => Page::P28,
        29 => Page::P29,
        30 => Page::P30,
        31 => Page::P31,
        32 => Page::P32,
        33 => Page::P33,
        34 => Page::P34,
        35 => Page::P35,
        36 => Page::P36,
        37 => Page::P37,
        38 => Page::P38,
        39 => Page::P39,
        40 => Page::P40,
        41 => Page::P41,
        42 => Page::P42,
        43 => Page::P43,
        44 => Page::P44,
        45 => Page::P45,
        46 => Page::P46,
        47 => Page::P47,
        48 => Page::P48,
        49 => Page::P49,
        50 => Page::P50,
        51 => Page::P51,
        52 => Page::P52,
        53 => Page::P53,
        54 => Page::P54,
        55 => Page::P55,
        56 => Page::P56,
        57 => Page::P57,
        58 => Page::P58,
        59 => Page::P59,
        60 => Page::P60,
        61 => Page::P61,
        62 => Page::P62,
        _ => Page::P63,
    }
}

/// Page numbers name the pages one to one: every page's number is below 64,
/// distinct pages have distinct numbers, and every number below 64 names a
/// page. So erasing or programming one page never reaches another's 1 KB.
pub proof fn law_page_numbers_one_to_one(a: Page, b: Page, n: u32)
    ensures
        a.spec_number() < 64,
        a.spec_number() == b.spec_number() ==> a == b,
        n < 64 ==> exists|p: Page| p.spec_number() == n,
{
    assert(page_numbered(a.spec_number()) == a);
    assert(page_numbered(b.spec_number()) == b);
    if n < 64 {
        assert(page_numbered(n).spec_number() == n);
    }
}

/// The protection level the chip reads out of an `OB_SPC` byte: `0xA5` no
/// protection, `0xCC` high protection, any other byte low protection.
pub open spec fn spc_byte_level(b: u8) -> ProtectionLevel {
    if b == 0xA5 {
        ProtectionLevel::NoProtection
    } else if b == 0xCC {
        ProtectionLevel::High
    } else {
        ProtectionLevel::Low
    }
}

/// The `OB_SPC` byte written for a protection level is read by the chip as
/// that level.
pub proof fn law_spc_byte_selects_level(level: ProtectionLevel)
    ensures
        spc_byte_level(level.spec_spc().spec_code()) == level,
{
}

} // verus!
