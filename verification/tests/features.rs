use spreadsheet::analytic::{AnyGeometry, Coord, Point};
use spreadsheet::civil::Date;
use spreadsheet::import::beehive::{Event, EventRaw};
use spreadsheet::import::utilities::cctv::{Inspection, InspectionFile, Inspections};
use spreadsheet::import::utilities::wastewater;
use spreadsheet::import::utilities::wastewater::device::Device;
use spreadsheet::import::utilities::wastewater::event::{DeviceEvent, DeviceEvents};
use spreadsheet::import::utilities::wastewater::manhole_card::{ManholeCard, ManholeCards};
use spreadsheet::import::utilities::wastewater::owner::Owner;

fn place(x: f64, y: f64) -> AnyGeometry {
    AnyGeometry::Point(Point(Coord { x: x.to_bits(), y: y.to_bits() }))
}

fn device(id: &str, historic: Option<&str>) -> Device {
    Device {
        asset_group: wastewater::device::AssetGroup::ManholeChannel,
        asset_type: wastewater::device::AssetType::DirectionalManholeChannel,
        asset_id: id.to_string(),
        historic_id: historic.map(|h| h.to_string()),
        owner: Owner::County,
        geometry: place(1.0, 2.0),
    }
}

fn sewer(id: &str) -> wastewater::line::Line {
    wastewater::line::Line {
        asset_group: wastewater::line::AssetGroup::GravityMain,
        asset_type: wastewater::line::AssetType::Collector,
        asset_id: id.to_string(),
        historic_id: None,
        owner: Owner::City,
        geometry: place(3.0, 4.0),
    }
}

fn event(asset_id: &str) -> Event {
    Event::try_from(&EventRaw {
        asset_id: asset_id.to_string(),
        asset_kind: "Wastewater Manhole".to_string(),
        assigned_to: "crew".to_string(),
        created_by: "clerk".to_string(),
        create_date: "3/15/2024 14:30".to_string(),
        maintenance: None,
        modify_date: "3/16/2024".to_string(),
        modified_by: "chief".to_string(),
        name: "E1".to_string(),
        notes: Some("mind the dog".to_string()),
        kind: "CCTV".to_string(),
        plan_date: "3/20/2024".to_string(),
        priority: "1 - High".to_string(),
        schedule_time: "2:30PM".to_string(),
        status: Some("In Progress".to_string()),
    })
    .unwrap()
}

fn property(feature: &geojson::Feature, key: &str) -> Option<String> {
    match feature.property(key) {
        Some(geojson::JsonValue::String(text)) => Some(text.clone()),
        Some(geojson::JsonValue::Null) => None,
        other => panic!("{key}: {other:?}"),
    }
}

#[test]
fn feature_of_a_manhole_card() {
    let card = ManholeCard::new(device("MH1", Some("old1")), std::path::PathBuf::from("cards/old1.jpg"));
    let feature = card.feature();
    assert_eq!(feature.geometry.as_ref().unwrap().value, geojson::Value::Point(vec![1.0, 2.0]));
    assert_eq!(property(&feature, "asset_id"), Some("MH1".to_string()));
    assert_eq!(property(&feature, "historic_id"), Some("old1".to_string()));
    assert_eq!(property(&feature, "owner"), Some("County".to_string()));
    assert_eq!(property(&feature, "path"), Some("cards/old1.jpg".to_string()));
    assert_eq!(feature.properties.as_ref().unwrap().len(), 4);
    let bare = ManholeCard::new(device("MH2", None), std::path::PathBuf::from("x")).feature();
    assert_eq!(property(&bare, "historic_id"), None);
    assert!(bare.contains_property("historic_id"));
    let cards = ManholeCards::new(vec![card.clone(), card]);
    let collection = cards.feature_collection();
    assert_eq!(collection.features.len(), 2);
    assert_eq!(collection.features[0], feature);
    assert_eq!(cards.geojson(), collection.to_string());
    assert!(cards.geojson().starts_with("{"));
}

#[test]
fn feature_of_an_inspection() {
    let inspection = Inspection::new(
        sewer("A1.B2"),
        InspectionFile::new(
            None,
            Date::new(2024, 3, 15).unwrap(),
            "A1.B2".to_string(),
            std::path::PathBuf::from("reports/A1.pdf"),
        ),
    );
    let feature = inspection.feature();
    assert_eq!(feature.geometry.as_ref().unwrap().value, geojson::Value::Point(vec![3.0, 4.0]));
    assert_eq!(property(&feature, "asset_id"), Some("A1.B2".to_string()));
    assert_eq!(property(&feature, "historic_id"), None);
    assert_eq!(property(&feature, "owner"), Some("City".to_string()));
    assert_eq!(property(&feature, "date"), Some("2024-03-15".to_string()));
    assert_eq!(property(&feature, "path"), Some("reports/A1.pdf".to_string()));
    let all = Inspections::new(vec![inspection]);
    assert_eq!(all.feature_collection().features, vec![feature]);
    assert_eq!(all.geojson(), all.feature_collection().to_string());
}

#[test]
fn feature_of_an_event_with_its_device() {
    let mut with_card = event("MH1");
    with_card = with_card.with_manhole_card(Some(std::path::PathBuf::from("cards/MH1.jpg")));
    let feature = DeviceEvent::new(device("MH1", Some("old1")), with_card).feature();
    assert_eq!(feature.geometry.as_ref().unwrap().value, geojson::Value::Point(vec![1.0, 2.0]));
    let expected = [
        ("asset_id", Some("MH1")),
        ("historic_id", Some("old1")),
        ("event_id", Some("MH1")),
        ("asset_group", Some("Manhole Channel")),
        ("asset_type", Some("Directional Manhole Channel")),
        ("owner", Some("County")),
        ("asset_kind", Some("Manhole")),
        ("assigned_to", Some("crew")),
        ("created_by", Some("clerk")),
        ("create_date", Some("2024-03-15T14:30:00")),
        ("maintenance", None),
        ("modify_date", Some("2024-03-16T00:00:00")),
        ("modified_by", Some("chief")),
        ("name", Some("E1")),
        ("notes", Some("mind the dog")),
        ("event_kind", Some("Cctv")),
        ("plan_date", Some("2024-03-20")),
        ("priority", Some("High")),
        ("schedule_time", Some("14:30:00")),
        ("status", Some("InProgress")),
        ("manhole_card", Some("cards/MH1.jpg")),
    ];
    for (key, value) in expected {
        assert_eq!(property(&feature, key), value.map(|v| v.to_string()), "{key}");
    }
    assert_eq!(feature.properties.as_ref().unwrap().len(), expected.len());
    assert!(!feature.contains_property("cctv"));
}

#[test]
fn feature_of_an_event_with_a_camera_inspection() {
    let inspection = Inspection::new(
        sewer("MH1"),
        InspectionFile::new(
            None,
            Date::new(2024, 3, 15).unwrap(),
            "MH1".to_string(),
            std::path::PathBuf::from("reports/MH1.pdf"),
        ),
    );
    let with_report = event("MH1").with_cctv(Some(inspection));
    let events = DeviceEvents::new(vec![DeviceEvent::new(device("MH1", None), with_report)]);
    let collection = events.feature_collection();
    assert_eq!(property(&collection.features[0], "cctv"), Some("reports/MH1.pdf".to_string()));
    assert_eq!(property(&collection.features[0], "manhole_card"), None);
    assert_eq!(events.geojson(), collection.to_string());
}
