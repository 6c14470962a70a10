use embedded_can::ExtendedId;
use saelient::{Id, IdBuilder, PduFormat, Pgn};

#[test]
fn proprietary_id() {
    // example id taken from a DBC file.
    // Note: it has the CAN_EFF_FLAG set but this will be masked.
    let id = Id::new(2565821696);

    assert_eq!(id.sa(), 0x00);
    assert_eq!(id.da(), Some(0x55));
    assert_eq!(id.pgn(), Pgn::ProprietaryA);
    assert_eq!(id.pf(), PduFormat::Pdu1(0xEF));
    assert_eq!(id.priority(), 6);
}

#[test]
fn builder() {
    let id = IdBuilder::new()
        .sa(0x00)
        .da(0x55)
        .pgn(Pgn::ProprietaryA)
        .priority(6)
        .build()
        .unwrap();

    assert_eq!(id, Id::new(2565821696));
    assert_eq!(id.pf(), PduFormat::Pdu1(0xEF));
}

#[test]
fn pgn_pf() {
    assert_eq!(PduFormat::from(Pgn::ProprietaryA), PduFormat::Pdu1(239));
    assert_eq!(PduFormat::from(Pgn::ProprietaryB(0)), PduFormat::Pdu2(255));
}

#[test]
fn id_is_masked_to_29_bits() {
    assert_eq!(Id::new(0xFFFF_FFFF).as_raw(), 0x1FFF_FFFF);
    assert_eq!(Id::new(2565821696).as_raw(), 0x18EF_5500);
    assert_eq!(Id::new(0).as_raw(), 0);
}

#[test]
fn id_fields() {
    let id = Id::new(0x1DFE_F542);
    assert_eq!(id.priority(), 7);
    assert_eq!(id.dp(), 1);
    assert_eq!(id.pf(), PduFormat::Pdu2(0xFE));
    assert_eq!(id.ps(), 0xF5);
    assert_eq!(id.ge(), Some(0xF5));
    assert_eq!(id.da(), None);
    assert_eq!(id.sa(), 0x42);
    assert_eq!(id.pgn(), Pgn::Other(0xFEF5));

    let id = Id::new(418316373);
    assert_eq!(id.pgn(), Pgn::ProprietaryA);
    assert_eq!(id.sa(), 0x55);
    assert_eq!(id.da(), Some(0));
    assert_eq!(id.ge(), None);
    assert_eq!(id.dp(), 0);
    assert_eq!(Id::new(0x18FF_1200).pgn(), Pgn::ProprietaryB(0x12));
}

#[test]
fn builder_needs_pgn_and_source() {
    assert!(Id::builder().build().is_none());
    assert!(Id::builder().sa(1).build().is_none());
    assert!(Id::builder().pgn(Pgn::ProprietaryA).da(2).build().is_none());
    assert!(IdBuilder::default().pgn(Pgn::ProprietaryA).sa(1).build().is_none());
    let id = Id::builder().pgn(Pgn::ProprietaryB(3)).sa(1).build().unwrap();
    assert_eq!(id.as_raw(), 0x18FF_0301);
    let id = Id::builder().sa(0x55).pgn(Pgn::ProprietaryA).da(0x00).build().unwrap();
    assert_eq!(id.as_raw(), 0x18EF_0055);
    let id = Id::builder().priority(0).sa(9).pgn(Pgn::Request).da(0xFF).build().unwrap();
    assert_eq!(id.as_raw(), 0x00EA_FF09);
}

#[test]
fn pgn_numbers() {
    for value in [
        51456u32, 51712, 54784, 55040, 55296, 55552, 59904, 59392, 60160, 60416, 61184, 126720,
        65280, 65535, 130816, 131071, 0, 65279, 65536, 131072, 0xFFFF_FFFF,
    ] {
        assert_eq!(u32::from(Pgn::from(value)), value);
        assert_eq!(u32::from(&Pgn::from(value)), value);
    }
    assert_eq!(Pgn::from(61184), Pgn::ProprietaryA);
    assert_eq!(Pgn::from(65281), Pgn::ProprietaryB(1));
    assert_eq!(Pgn::from(131071), Pgn::ProprietaryB2(255));
    assert_eq!(Pgn::from(12), Pgn::Other(12));
    assert_eq!(u32::from(Pgn::ProprietaryB2(0x34)), 0x1FF34);
    assert_eq!(Pgn::ProprietaryB(0).pf(), PduFormat::Pdu2(255));
    assert_eq!(PduFormat::from(239), PduFormat::Pdu1(239));
    assert_eq!(PduFormat::from(240), PduFormat::Pdu2(240));
    assert_eq!(PduFormat::from(&Pgn::Request), PduFormat::Pdu1(0xEA));
}

#[test]
fn extended_id_conversions() {
    let extended = ExtendedId::new(0x18EF_5500).unwrap();
    let id = Id::from(extended);
    assert_eq!(id.as_raw(), 0x18EF_5500);
    assert_eq!(Id::from(ExtendedId::MAX).as_raw(), 0x1FFF_FFFF);
    assert_eq!(ExtendedId::from(Id::new(0x18EF_5500)), extended);
    assert_eq!(ExtendedId::from(Id::new(0)), ExtendedId::ZERO);
}
