use spreadsheet::analytic::{AnyGeometry, Coord, LineString, MultiLineString, Point};
use spreadsheet::error::Error;
use spreadsheet::import::utilities::wastewater;
use spreadsheet::import::utilities::wastewater::device::{Device, Devices};
use spreadsheet::import::utilities::wastewater::junction::{Junction, Junctions};
use spreadsheet::import::utilities::wastewater::owner::Owner;
use spreadsheet::legacy;
use spreadsheet::record::{Field, FieldValue, Record};
use spreadsheet::utils::{read_geo_line, read_geo_point};

fn number(name: &str, value: i64) -> Field {
    Field { name: name.to_string(), value: FieldValue::Numeric(Some(value)) }
}

fn text(name: &str, value: &str) -> Field {
    Field { name: name.to_string(), value: FieldValue::Character(Some(value.to_string())) }
}

fn record(group: i64, kind: i64, id: &str, historic: Option<&str>, owner: i64) -> Record {
    let mut fields = vec![
        number("ASSETGROUP", group),
        number("ASSETTYPE", kind),
        text("assetid", id),
        number("ownedby", owner),
    ];
    if let Some(historic) = historic {
        fields.push(text("historicid", historic));
    }
    Record::new(fields)
}

fn without(record: &Record, name: &str) -> Record {
    Record::new(record.fields.iter().filter(|f| f.name != name).cloned().collect())
}

fn place(x: f64, y: f64) -> AnyGeometry {
    AnyGeometry::Point(Point(Coord { x: x.to_bits(), y: y.to_bits() }))
}

#[test]
fn device_from_a_shape_and_its_attributes() {
    let device = Device::from_shp(place(1.0, 2.0), &record(32, 301, "MH1", Some("old1"), 1)).unwrap();
    assert_eq!(device.asset_group, wastewater::device::AssetGroup::ManholeChannel);
    assert_eq!(device.asset_type, wastewater::device::AssetType::ManholeChannel);
    assert_eq!(device.asset_id(), "MH1");
    assert_eq!(device.historic_id(), &Some("old1".to_string()));
    assert_eq!(device.owner, Owner::City);
    assert_eq!(device.geometry, place(1.0, 2.0));
    assert_eq!(device.asset_group(), "Manhole Channel");
    assert_eq!(device.asset_type(), "Manhole Channel");
    assert_eq!(device.owner(), "City");
    assert!(device.is_known_as(&"MH1".to_string()));
    assert!(device.is_known_as(&"old1".to_string()));
    assert!(!device.is_known_as(&"MH2".to_string()));
    assert_eq!(device.clone(), device);
}

#[test]
fn device_type_is_read_in_its_group() {
    let trap = Device::from_shp(place(0.0, 0.0), &record(30, 301, "GT1", None, 6)).unwrap();
    assert_eq!(trap.asset_type, wastewater::device::AssetType::GreaseTrap);
    assert_eq!(trap.owner, Owner::Private);
    assert_eq!(trap.historic_id(), &None);
    let other = Device::from_shp(place(0.0, 0.0), &record(5, 301, "PS1", None, 2)).unwrap();
    assert_eq!(other.asset_type, wastewater::device::AssetType::Unknown);
    assert_eq!(other.owner, Owner::Unknown);
}

#[test]
fn codes_out_of_range_are_held_within_it() {
    let device = Device::from_shp(place(0.0, 0.0), &record(1000, 100000, "X", None, -1000)).unwrap();
    assert_eq!(device.asset_group, wastewater::device::AssetGroup::Unknown);
    assert_eq!(device.asset_type, wastewater::device::AssetType::Unknown);
    assert_eq!(device.owner, Owner::Unknown);
}

#[test]
fn what_is_missing_is_named_in_order() {
    let full = record(32, 301, "MH1", Some("old1"), 1);
    let hint = |text: &str| Err(Error::Hint(text.to_string()));
    assert_eq!(
        Device::from_shp(place(0.0, 0.0), &without(&full, "ASSETGROUP")),
        hint("Failed to read an asset group.")
    );
    assert_eq!(
        Device::from_shp(place(0.0, 0.0), &without(&full, "ASSETTYPE")),
        hint("Failed to read an asset type.")
    );
    assert_eq!(
        Device::from_shp(place(0.0, 0.0), &without(&full, "assetid")),
        hint("Failed to read an asset id.")
    );
    assert_eq!(
        Device::from_shp(place(0.0, 0.0), &without(&full, "ownedby")),
        hint("Failed to read owner field.")
    );
    assert_eq!(
        Device::from_shp(place(0.0, 0.0), &Record::new(vec![])),
        hint("Failed to read an asset group.")
    );
    assert_eq!(
        Device::from_shp(place(0.0, 0.0), &without(&without(&full, "ownedby"), "ASSETTYPE")),
        hint("Failed to read an asset type.")
    );
    assert!(Device::from_shp(place(0.0, 0.0), &without(&full, "historicid")).is_ok());
}

#[test]
fn junction_and_line_from_shapes() {
    let junction = Junction::from_shp(place(0.0, 0.0), &record(20, 56, "J1", None, 4)).unwrap();
    assert_eq!(junction.asset_group, wastewater::junction::AssetGroup::Fitting);
    assert_eq!(junction.asset_type, wastewater::junction::AssetType::Tee);
    assert_eq!(junction.owner, Owner::County);
    assert_eq!(junction.asset_type(), "Tee");
    let line = wastewater::line::Line::from_shp(place(0.0, 0.0), &record(1, 2, "L1", None, 3)).unwrap();
    assert_eq!(line.asset_group, wastewater::line::AssetGroup::GravityMain);
    assert_eq!(line.asset_type, wastewater::line::AssetType::Interceptor);
    assert_eq!(line.owner, Owner::State);
    assert_eq!(line.asset_group(), "GravityMain");
}

#[test]
fn devices_of_a_file() {
    let point = |x: f64, y: f64| legacy::PointZ::new(x.to_bits(), y.to_bits(), 0, 0);
    let shapes = vec![
        (point(1.0, 2.0), record(32, 301, "MH1", Some("old1"), 1)),
        (point(3.0, 4.0), record(5, 61, "PS1", None, 1)),
    ];
    let devices = Devices::from_shp_z(&shapes).unwrap();
    assert_eq!(devices.len(), 2);
    assert_eq!(devices.0[0].geometry, place(1.0, 2.0));
    assert_eq!(devices.0[1].asset_id(), "PS1");
    assert_eq!(devices.find(&"old1".to_string()).unwrap().asset_id(), "MH1");
    assert_eq!(devices.find(&"PS1".to_string()).unwrap().asset_id(), "PS1");
    assert_eq!(devices.find(&"nothing".to_string()), None);
    let broken = vec![
        (point(1.0, 2.0), record(32, 301, "MH1", None, 1)),
        (point(3.0, 4.0), without(&record(5, 61, "PS1", None, 1), "assetid")),
    ];
    assert_eq!(
        Devices::from_shp_z(&broken),
        Err(Error::Hint("Failed to read an asset id.".to_string()))
    );
    assert_eq!(Junctions::from_shp_z(&vec![]).unwrap().len(), 0);
}

#[test]
fn the_first_asset_with_an_identifier_is_found() {
    let a = Device::from_shp(place(1.0, 1.0), &record(5, 61, "A", Some("X"), 1)).unwrap();
    let b = Device::from_shp(place(2.0, 2.0), &record(5, 61, "X", None, 1)).unwrap();
    let devices = Devices::new(vec![a.clone(), b.clone()]);
    assert_eq!(devices.find(&"X".to_string()), Some(&a));
    let devices = Devices::new(vec![b.clone(), a]);
    assert_eq!(devices.find(&"X".to_string()), Some(&b));
}

#[test]
fn lines_of_a_file() {
    let point = |x: f64, y: f64| legacy::PointZ::new(x.to_bits(), y.to_bits(), 0, 0);
    let shape = legacy::PolylineZ::with_parts(vec![vec![point(0.0, 0.0), point(1.0, 1.0)]]);
    let expected = AnyGeometry::MultiLineString(MultiLineString::new(vec![LineString::new(vec![
        Coord { x: 0f64.to_bits(), y: 0f64.to_bits() },
        Coord { x: 1f64.to_bits(), y: 1f64.to_bits() },
    ])]));
    assert_eq!(read_geo_line(&shape), expected);
    assert_eq!(read_geo_point(&point(5.0, 6.0)), place(5.0, 6.0));
    let lines =
        wastewater::line::Lines::from_shp_z(&vec![(shape, record(3, 123, "L9", None, 6))]).unwrap();
    assert_eq!(lines.0[0].geometry, expected);
    assert_eq!(lines.0[0].asset_type, wastewater::line::AssetType::Residential);
}
