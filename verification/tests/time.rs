use gd32e2_hal::time::{Bps, Hertz};
use gd32e2_hal::usart::{B110, B921600};

#[test]
fn hertz_round_trips() {
    let f = Hertz::from_raw(48_000_000);
    assert_eq!(f.to_Hz(), 48_000_000);
    assert_eq!(f.raw(), 48_000_000);
    assert!(f == Hertz::from_raw(48_000_000));
    assert!(f != Hertz::from_raw(8_000_000));
}

#[test]
fn bps_round_trips() {
    assert_eq!(Bps::from_raw(B921600).to_raw(), 921_600);
    assert_eq!(Bps::from_raw(B110).to_raw(), 110);
}
