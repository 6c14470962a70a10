use saelient::signal::{
    Command, Discrete, Param10, Param12, Param16, Param20, Param24, Param28, Param32, Param4,
    Param8, Signal,
};

#[test]
fn valid_range() {
    assert!(Param4::from(0x0).is_valid());
    assert!(Param8::from(0x0).is_valid());
    assert!(Param12::from(0x0).is_valid());
    assert!(Param16::from(0x0).is_valid());
    assert!(Param20::from(0x0).is_valid());
    assert!(Param24::from(0x0).is_valid());
    assert!(Param28::from(0x0).is_valid());
    assert!(Param32::from(0x0).is_valid());
}

#[test]
fn outside_signal() {
    assert!(Param4::from_raw(0xF + 1).is_none());
    assert!(Param10::from_raw(0x3FF + 1).is_none());
    assert!(Param12::from_raw(0xFFF + 1).is_none());
    assert!(Param20::from_raw(0xFFFFF + 1).is_none());
    assert!(Param24::from_raw(0xFFFFFF + 1).is_none());
    assert!(Param28::from_raw(0xFFFFFFF + 1).is_none());
}

#[test]
fn value() {
    assert_eq!(Param4::from_raw(0x0).unwrap().value(), Some(0x0));
    assert_eq!(Param4::from_raw(0xA).unwrap().value(), Some(0xA));
    assert_eq!(Param4::from_raw(0xF).unwrap().value(), None);
}

#[test]
fn ranges_of_a_short_signal() {
    let indicator = Param4::from_raw(0xB).unwrap();
    assert!(indicator.is_indicator() && !indicator.is_valid());
    assert_eq!(indicator.indicator(), Some(0xB));
    assert_eq!(indicator.error(), None);
    let error = Param4::from_raw(0xE).unwrap();
    assert!(error.is_error());
    assert_eq!(error.error(), Some(0xE));
    let absent = Param4::from_raw(0xF).unwrap();
    assert!(absent.is_not_present());
    assert_eq!(absent.not_present(), Some(0xF));
    assert_eq!(absent.to_raw(), 0xF);
    assert!(Param4::from_raw(0xC).is_none());
    assert!(Param4::from_raw(0xD).is_none());
    assert!(Param8::from_raw(0xFC).is_none());
    assert!(Param10::from_raw(0x3FC).is_none());
    let reserved = Param4::from(0xC);
    assert!(!reserved.is_valid() && !reserved.is_indicator());
    assert!(!reserved.is_error() && !reserved.is_not_present());
    assert_eq!(u8::from(reserved), 0xC);
}

#[test]
fn ranges_of_a_wide_signal() {
    assert_eq!(Param16::from_raw(0xFAFF).unwrap().value(), Some(0xFAFF));
    assert_eq!(Param16::from_raw(0xFB00).unwrap().indicator(), Some(0xFB00));
    assert!(Param16::from_raw(0xFC00).is_none());
    assert_eq!(Param16::from_raw(0xFEFF).unwrap().error(), Some(0xFEFF));
    assert_eq!(Param16::from_raw(0xFFFF).unwrap().not_present(), Some(0xFFFF));
    assert_eq!(Param32::from_raw(0xFAFF_FFFF).unwrap().value(), Some(0xFAFF_FFFF));
    assert!(Param32::from_raw(0xFB00_0000).unwrap().is_indicator());
    assert!(Param32::from_raw(0xFD00_0000).is_none());
    assert!(Param32::from_raw(0xFFFF_FFFF).unwrap().is_not_present());
    assert!(Param12::from_raw(0xFB5).unwrap().is_indicator());
    assert!(Param20::from_raw(0xFE123).unwrap().is_error());
    assert!(Param24::from_raw(0xFF0000).unwrap().is_not_present());
    assert_eq!(Param28::from_raw(0xFAFFFFF).unwrap().value(), Some(0xFAFFFFF));
    assert_eq!(u32::from(Param24::from(5)), 5);
}

#[test]
fn discrete_and_command_bits() {
    assert_eq!(Discrete::try_from(0), Ok(Discrete::Disabled));
    assert_eq!(Discrete::try_from(1), Ok(Discrete::Enabled));
    assert_eq!(Discrete::try_from(2), Ok(Discrete::ErrorIndicator));
    assert_eq!(Discrete::try_from(3), Ok(Discrete::NotAvailable));
    assert_eq!(Discrete::try_from(4), Err(4));
    assert_eq!(u8::from(Discrete::NotAvailable), 3);
    assert_eq!(Command::try_from(0), Ok(Command::Disable));
    assert_eq!(Command::try_from(2), Ok(Command::Reserved));
    assert_eq!(Command::try_from(3), Ok(Command::NoAction));
    assert_eq!(Command::try_from(200), Err(200));
    assert_eq!(u8::from(Command::Enable), 1);
}
