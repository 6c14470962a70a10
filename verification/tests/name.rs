use saelient::name::{IndustryGroup, Name};

#[test]
fn name_fields() {
    let name = Name::from(0xA5C3_9F00_7654_3210u64);
    assert_eq!(name.identity(), 0x14_3210);
    assert_eq!(name.manufacturer_code(), 0x3B2);
    assert_eq!(name.ecu_instance(), 0);
    assert_eq!(name.function_instance(), 0);
    assert_eq!(name.function(), 0x9F);
    assert_eq!(name.vehicle_system(), 0x61);
    assert_eq!(name.vehicle_system_instance(), 0x5);
    assert_eq!(name.industry_group(), IndustryGroup::Reserved7);
    assert!(name.arbitrary_address_capable());
    assert!(Name::from(0).arbitrary_address_capable());

    let name = Name::from(0x0000_02FF_0000_0000u64);
    assert_eq!(name.ecu_instance(), 7);
    assert_eq!(name.function_instance(), 0x1F);
    assert_eq!(name.function(), 2);
    assert_eq!(name.industry_group(), IndustryGroup::AgriculturalAndForestry);
}

#[test]
fn industry_group_numbers() {
    let groups = [
        IndustryGroup::Global,
        IndustryGroup::OnHighway,
        IndustryGroup::AgriculturalAndForestry,
        IndustryGroup::Construction,
        IndustryGroup::Marine,
        IndustryGroup::Industrial,
        IndustryGroup::Reserved6,
        IndustryGroup::Reserved7,
    ];
    for (code, group) in groups.into_iter().enumerate() {
        assert_eq!(IndustryGroup::try_from(code as u8), Ok(group));
        assert_eq!(u8::from(group), code as u8);
    }
    assert_eq!(IndustryGroup::try_from(8), Err(8));
}
