use spreadsheet::import::bea::{deserialize_code_keys, match_code_key, Cainc5nCodeKey};
use spreadsheet::import::utilities::entity::Entity;
use spreadsheet::import::utilities::wastewater::owner::Owner;
use spreadsheet::import::utilities::wastewater;

#[test]
fn line_codes_by_name() {
    assert_eq!(match_code_key("CAINC5N-10"), Some(Cainc5nCodeKey::CAINC5N_10));
    assert_eq!(match_code_key("CAINC5N-100"), Some(Cainc5nCodeKey::CAINC5N_100));
    assert_eq!(match_code_key("CAINC5N-907"), Some(Cainc5nCodeKey::CAINC5N_907));
    assert_eq!(match_code_key("CAINC5N-2012"), Some(Cainc5nCodeKey::CAINC5N_2012));
    assert_eq!(match_code_key("CAINC5N-11"), None);
    assert_eq!(match_code_key("CAINC5N_10"), None);
    assert_eq!(match_code_key("cainc5n-10"), None);
    assert_eq!(match_code_key(""), None);
    assert_eq!(deserialize_code_keys("CAINC5N-42"), Cainc5nCodeKey::CAINC5N_42);
}

#[test]
fn entities_by_code() {
    assert_eq!(Entity::from(1), Entity::City);
    assert_eq!(Entity::from(2), Entity::Gpid);
    assert_eq!(Entity::from(3), Entity::State);
    assert_eq!(Entity::from(4), Entity::County);
    assert_eq!(Entity::from(5), Entity::Federal);
    assert_eq!(Entity::from(6), Entity::Private);
    assert_eq!(Entity::from(7), Entity::Unknown);
    assert_eq!(Entity::from(8), Entity::Parks);
    assert_eq!(Entity::from(100), Entity::Unknown);
    assert_eq!(Entity::from(0), Entity::Unknown);
    assert_eq!(Entity::from(-1), Entity::Unknown);
    assert_eq!(Entity::default(), Entity::City);
}

#[test]
fn owners_by_code_and_by_entity() {
    assert_eq!(Owner::from(1), Owner::City);
    assert_eq!(Owner::from(2), Owner::Unknown);
    assert_eq!(Owner::from(3), Owner::State);
    assert_eq!(Owner::from(4), Owner::County);
    assert_eq!(Owner::from(5), Owner::Federal);
    assert_eq!(Owner::from(6), Owner::Private);
    assert_eq!(Owner::from(8), Owner::Unknown);
    assert_eq!(Owner::from(&Entity::City), Owner::City);
    assert_eq!(Owner::from(&Entity::County), Owner::County);
    assert_eq!(Owner::from(&Entity::State), Owner::State);
    assert_eq!(Owner::from(&Entity::Federal), Owner::Federal);
    assert_eq!(Owner::from(&Entity::Private), Owner::Private);
    assert_eq!(Owner::from(&Entity::Gpid), Owner::Unknown);
    assert_eq!(Owner::from(&Entity::Parks), Owner::Unknown);
    assert_eq!(Owner::from(&Entity::Unknown), Owner::Unknown);
    assert_eq!(Owner::default(), Owner::City);
    assert_eq!(Owner::Federal.to_string(), "Federal");
}

#[test]
fn device_groups_and_types() {
    assert_eq!(wastewater::device::AssetGroup::from(1), wastewater::device::AssetGroup::FlowValve);
    assert_eq!(wastewater::device::AssetGroup::from(32), wastewater::device::AssetGroup::ManholeChannel);
    assert_eq!(wastewater::device::AssetGroup::from(53), wastewater::device::AssetGroup::Groundbed);
    assert_eq!(wastewater::device::AssetGroup::from(4), wastewater::device::AssetGroup::Unknown);
    assert_eq!(wastewater::device::AssetGroup::default(), wastewater::device::AssetGroup::Unknown);
    assert_eq!(wastewater::device::AssetGroup::BackflowPreventer.to_string(), "Backflow Preventer");
    let any = wastewater::device::AssetGroup::Pump;
    assert_eq!(wastewater::device::AssetType::from_i16(0, &any), wastewater::device::AssetType::Unknown);
    assert_eq!(wastewater::device::AssetType::from_i16(1, &any), wastewater::device::AssetType::Commercial);
    assert_eq!(wastewater::device::AssetType::from_i16(62, &any), wastewater::device::AssetType::PumpWithGrinder);
    assert_eq!(wastewater::device::AssetType::from_i16(286, &any), wastewater::device::AssetType::VNotch);
    assert_eq!(wastewater::device::AssetType::from_i16(303, &any), wastewater::device::AssetType::GreaseRecovery);
    assert_eq!(wastewater::device::AssetType::from_i16(981, &any), wastewater::device::AssetType::TestPoint);
    assert_eq!(wastewater::device::AssetType::from_i16(4, &any), wastewater::device::AssetType::Unknown);
    assert_eq!(wastewater::device::AssetType::from_i16(-1, &any), wastewater::device::AssetType::Unknown);
    assert_eq!(wastewater::device::AssetType::AirAndVacuum.to_string(), "Air & Vacuum");
    assert_eq!(wastewater::device::AssetType::Iccp.to_string(), "ICCP");
    assert_eq!(wastewater::device::AssetType::VNotch.to_string(), "V-Notch");
}

#[test]
fn device_types_that_depend_on_the_group() {
    let trap = wastewater::device::AssetGroup::GreaseTrap;
    let channel = wastewater::device::AssetGroup::ManholeChannel;
    let other = wastewater::device::AssetGroup::Weir;
    assert_eq!(wastewater::device::AssetType::from_i16(301, &trap), wastewater::device::AssetType::GreaseTrap);
    assert_eq!(wastewater::device::AssetType::from_i16(301, &channel), wastewater::device::AssetType::ManholeChannel);
    assert_eq!(wastewater::device::AssetType::from_i16(301, &other), wastewater::device::AssetType::Unknown);
    assert_eq!(wastewater::device::AssetType::from_i16(302, &trap), wastewater::device::AssetType::GreaseInterceptor);
    assert_eq!(
        wastewater::device::AssetType::from_i16(302, &channel),
        wastewater::device::AssetType::DirectionalManholeChannel
    );
    assert_eq!(wastewater::device::AssetType::from_i16(302, &other), wastewater::device::AssetType::Unknown);
}

#[test]
fn junction_groups_and_types() {
    assert_eq!(wastewater::junction::AssetGroup::from(20), wastewater::junction::AssetGroup::Fitting);
    assert_eq!(wastewater::junction::AssetGroup::from(50), wastewater::junction::AssetGroup::Wire);
    assert_eq!(wastewater::junction::AssetGroup::from(51), wastewater::junction::AssetGroup::Insulation);
    assert_eq!(wastewater::junction::AssetGroup::from(1), wastewater::junction::AssetGroup::Unknown);
    assert_eq!(wastewater::junction::AssetType::from(41), wastewater::junction::AssetType::Coupling);
    assert_eq!(wastewater::junction::AssetType::from(59), wastewater::junction::AssetType::Wye);
    assert_eq!(wastewater::junction::AssetType::from(60), wastewater::junction::AssetType::Unknown);
    assert_eq!(wastewater::junction::AssetType::ReducingTee.to_string(), "ReducingTee");
    assert_eq!(wastewater::junction::AssetGroup::Fitting.to_string(), "Fitting");
}

#[test]
fn line_groups_and_types() {
    assert_eq!(wastewater::line::AssetGroup::from(1), wastewater::line::AssetGroup::GravityMain);
    assert_eq!(wastewater::line::AssetGroup::from(2), wastewater::line::AssetGroup::ForceMain);
    assert_eq!(wastewater::line::AssetGroup::from(3), wastewater::line::AssetGroup::Lateral);
    assert_eq!(wastewater::line::AssetGroup::from(52), wastewater::line::AssetGroup::RectifierCable);
    assert_eq!(wastewater::line::AssetGroup::from(9), wastewater::line::AssetGroup::Unknown);
    assert_eq!(wastewater::line::AssetType::from(1), wastewater::line::AssetType::Collector);
    assert_eq!(wastewater::line::AssetType::from(123), wastewater::line::AssetType::Residential);
    assert_eq!(wastewater::line::AssetType::from(961), wastewater::line::AssetType::RectifierCable);
    assert_eq!(wastewater::line::AssetType::from(962), wastewater::line::AssetType::Unknown);
    assert_eq!(wastewater::line::AssetType::default(), wastewater::line::AssetType::Unknown);
}
