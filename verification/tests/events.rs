use spreadsheet::analytic::{AnyGeometry, Coord, Point};
use spreadsheet::civil::{Date, Time};
use spreadsheet::error::Error;
use spreadsheet::import::beehive::{
    AssetKind, Event, EventKind, EventRaw, Events, EventsRaw, Maintenance, Priority, Status,
};
use spreadsheet::import::utilities::cctv::{Inspection, InspectionFile, InspectionFiles, Inspections};
use spreadsheet::import::utilities::wastewater;
use spreadsheet::import::utilities::wastewater::device::{Device, Devices};
use spreadsheet::import::utilities::wastewater::event::{DeviceEvent, DeviceEvents, LineEvents};
use spreadsheet::import::utilities::wastewater::manhole_card::{ManholeCard, ManholeCards};
use spreadsheet::import::utilities::wastewater::owner::Owner;

fn place(x: f64, y: f64) -> AnyGeometry {
    AnyGeometry::Point(Point(Coord { x: x.to_bits(), y: y.to_bits() }))
}

fn device(id: &str, historic: Option<&str>) -> Device {
    Device {
        asset_group: wastewater::device::AssetGroup::ManholeChannel,
        asset_type: wastewater::device::AssetType::ManholeChannel,
        asset_id: id.to_string(),
        historic_id: historic.map(|h| h.to_string()),
        owner: Owner::City,
        geometry: place(1.0, 2.0),
    }
}

fn sewer(id: &str, historic: Option<&str>) -> wastewater::line::Line {
    wastewater::line::Line {
        asset_group: wastewater::line::AssetGroup::GravityMain,
        asset_type: wastewater::line::AssetType::Collector,
        asset_id: id.to_string(),
        historic_id: historic.map(|h| h.to_string()),
        owner: Owner::City,
        geometry: place(3.0, 4.0),
    }
}

fn raw(asset_id: &str) -> EventRaw {
    EventRaw {
        asset_id: asset_id.to_string(),
        asset_kind: "Wastewater Manhole".to_string(),
        assigned_to: "crew".to_string(),
        created_by: "clerk".to_string(),
        create_date: "3/15/2024 14:30".to_string(),
        maintenance: Some("Annual Maintenance".to_string()),
        modify_date: "3/16/2024".to_string(),
        modified_by: "chief".to_string(),
        name: "E1".to_string(),
        notes: None,
        kind: "CCTV".to_string(),
        plan_date: "3/20/2024".to_string(),
        priority: "1 - High".to_string(),
        schedule_time: "2:30PM".to_string(),
        status: Some("In Progress".to_string()),
    }
}

fn event(asset_id: &str) -> Event {
    Event::try_from(&raw(asset_id)).unwrap()
}

fn report(line: &str, date: (i16, i8, i8)) -> Inspection {
    Inspection::new(
        sewer(line, None),
        InspectionFile::new(
            None,
            Date::new(date.0, date.1, date.2).unwrap(),
            line.to_string(),
            std::path::PathBuf::from("reports").join(line),
        ),
    )
}

#[test]
fn kinds_by_name() {
    assert_eq!(EventKind::from_str("CCTV"), Ok(EventKind::Cctv));
    assert_eq!(EventKind::from_str("_Adjustment"), Ok(EventKind::Adjustment));
    assert_eq!(EventKind::from_str("Clean"), Ok(EventKind::Cleaning));
    assert_eq!(EventKind::from_str("_1yr Warranty TV Inspection"), Ok(EventKind::Warranty));
    assert_eq!(
        EventKind::from_str("cctv"),
        Err(Error::Hint("Unrecognized EventKind: cctv".to_string()))
    );
    assert_eq!(AssetKind::from_str("Wastewater Pipe"), Ok(AssetKind::Pipe));
    assert_eq!(
        AssetKind::from_str("Pipe"),
        Err(Error::Hint("Unrecognized EventKind: Pipe".to_string()))
    );
    assert_eq!(Maintenance::from_str("Maintenance (Capital) "), Ok(Maintenance::Capital));
    assert_eq!(
        Maintenance::from_str("Maintenance (Capital)"),
        Err(Error::Hint("Unrecognized EventKind: Maintenance (Capital)".to_string()))
    );
    assert_eq!(Priority::from_str("5 - Low"), Ok(Priority::Low));
    assert_eq!(Priority::from_str("3"), Ok(Priority::Medium));
    assert_eq!(Priority::from_str("6"), Err(Error::Hint("Unrecognized Priority: 6".to_string())));
    assert_eq!(Status::from_str("On Hold"), Ok(Status::OnHold));
    assert_eq!(
        Status::from_str("Done"),
        Err(Error::Hint("Unrecognized Status: Done".to_string()))
    );
    assert_eq!(Maintenance::from_raw(&Some("Operate".to_string())), Some(Maintenance::Operate));
    assert_eq!(Maintenance::from_raw(&Some("nothing".to_string())), None);
    assert_eq!(Maintenance::from_raw(&None), None);
    assert_eq!(Status::from_raw(&Some("Complete".to_string())), Some(Status::Complete));
    assert_eq!(Status::from_raw(&Some("".to_string())), None);
    assert_eq!(Status::from_raw(&None), None);
    assert_eq!(EventKind::default(), EventKind::Maintenance);
    assert_eq!(AssetKind::default(), AssetKind::Maintenance);
    assert_eq!(Maintenance::default(), Maintenance::Regular);
    assert_eq!(Priority::default(), Priority::Medium);
    assert_eq!(Status::default(), Status::Complete);
    assert_eq!(EventKind::RootControl.to_string(), "RootControl");
    assert_eq!(Priority::MediumHigh.to_string(), "MediumHigh");
}

#[test]
fn event_from_texts() {
    let event = event("MH1");
    assert_eq!(event.asset_id(), "MH1");
    assert_eq!(event.asset_kind(), &AssetKind::Manhole);
    assert_eq!(event.kind(), &EventKind::Cctv);
    assert_eq!(event.priority(), &Priority::High);
    assert_eq!(event.maintenance(), &Some(Maintenance::Annual));
    assert_eq!(event.status(), &Some(Status::InProgress));
    assert_eq!(event.create_date().to_string(), "2024-03-15T14:30:00");
    assert_eq!(event.modify_date().to_string(), "2024-03-16T00:00:00");
    assert_eq!(event.plan_date(), &Date::new(2024, 3, 20).unwrap());
    assert_eq!(event.schedule_time(), &Time::new(14, 30, 0, 0).unwrap());
    assert_eq!(event.cctv(), &None);
    assert_eq!(event.manhole_card(), &None);
    assert_eq!(event.notes(), &None);
    assert_eq!(event.name(), "E1");
    assert_eq!(event.clone(), event);
}

#[test]
fn event_from_texts_that_cannot_be_read() {
    let with = |change: fn(&mut EventRaw)| {
        let mut value = raw("MH1");
        change(&mut value);
        Event::try_from(&value)
    };
    assert_eq!(with(|r| r.create_date = "yesterday".to_string()), Err(Error::ParseError));
    assert_eq!(with(|r| r.modify_date = "2/30/2024".to_string()), Err(Error::RangeError));
    assert_eq!(
        with(|r| r.asset_kind = "Manhole".to_string()),
        Err(Error::Hint("Unrecognized EventKind: Manhole".to_string()))
    );
    assert_eq!(
        with(|r| r.kind = "Television".to_string()),
        Err(Error::Hint("Unrecognized EventKind: Television".to_string()))
    );
    assert_eq!(with(|r| r.plan_date = "".to_string()), Err(Error::ParseError));
    assert_eq!(
        with(|r| r.priority = "high".to_string()),
        Err(Error::Hint("Unrecognized Priority: high".to_string()))
    );
    assert_eq!(
        with(|r| {
            r.priority = "high".to_string();
            r.create_date = "".to_string();
        }),
        Err(Error::ParseError)
    );
    let lenient = with(|r| {
        r.schedule_time = "".to_string();
        r.maintenance = Some("unheard of".to_string());
        r.status = None;
    })
    .unwrap();
    assert_eq!(lenient.schedule_time(), &Time::midnight());
    assert_eq!(lenient.maintenance(), &None);
    assert_eq!(lenient.status(), &None);
}

#[test]
fn events_from_texts_leave_out_what_cannot_be_read() {
    let mut bad = raw("MH2");
    bad.kind = "Television".to_string();
    let events = Events::from(&EventsRaw::new(vec![raw("MH1"), bad, raw("MH3")]));
    assert_eq!(events.len(), 2);
    assert_eq!(events.0[0].asset_id(), "MH1");
    assert_eq!(events.0[1].asset_id(), "MH3");
}

#[test]
fn events_with_their_devices() {
    let devices = Devices::new(vec![device("MH1", Some("old1")), device("MH2", None)]);
    let found = event("old1").from_device(&devices).unwrap();
    assert_eq!(found, DeviceEvent::new(device("MH1", Some("old1")), event("old1")));
    assert_eq!(event("MH9").from_device(&devices), None);
    let events = Events::new(vec![event("MH2"), event("MH9"), event("old1")]);
    let matched = events.from_devices(&devices).unwrap();
    assert_eq!(
        matched,
        DeviceEvents::new(vec![
            DeviceEvent::new(device("MH2", None), event("MH2")),
            DeviceEvent::new(device("MH1", Some("old1")), event("old1")),
        ])
    );
    assert_eq!(Events::new(vec![event("MH9")]).from_devices(&devices), None);
    assert_eq!(DeviceEvents::try_from(&events, &devices), Ok(matched));
    assert_eq!(
        DeviceEvents::try_from(&Events::new(vec![]), &devices),
        Err(Error::Hint("No events returned.".to_string()))
    );
    let lines = wastewater::line::Lines::new(vec![sewer("L1", None)]);
    assert_eq!(events.from_lines(&lines), None);
    assert!(LineEvents::try_from(&Events::new(vec![event("L1")]), &lines).is_ok());
    let junctions = wastewater::junction::Junctions::new(vec![]);
    assert_eq!(events.from_junctions(&junctions), None);
}

#[test]
fn events_with_camera_inspections() {
    let reports = Inspections::new(vec![
        report("L1", (2024, 3, 20)),
        report("L1", (2024, 1, 1)),
        report("L2", (2024, 3, 20)),
        report("L1", (2024, 3, 15)),
        report("L1", (2024, 3, 16)),
    ]);
    let with = event("L1").add_cctv_builder(&reports);
    assert_eq!(with.len(), 3);
    assert_eq!(with[0].cctv(), &Some(report("L1", (2024, 3, 20))));
    assert_eq!(with[1].cctv(), &Some(report("L1", (2024, 3, 15))));
    assert_eq!(with[2].cctv(), &Some(report("L1", (2024, 3, 16))));
    assert_eq!(with[0].clone().with_cctv(None), event("L1"));
    assert_eq!(event("L3").add_cctv_builder(&reports), vec![event("L3")]);
    let all = Events::new(vec![event("L3"), event("L1")]).build_cctv_reports(&reports);
    assert_eq!(all.len(), 4);
    assert_eq!(all.0[0], event("L3"));
    assert_eq!(all.0[1..].to_vec(), with);
}

#[test]
fn events_with_manhole_cards() {
    let cards = ManholeCards::new(vec![
        ManholeCard::new(device("MH1", Some("a")), std::path::PathBuf::from("first.jpg")),
        ManholeCard::new(device("MH2", Some("b")), std::path::PathBuf::from("second.jpg")),
        ManholeCard::new(device("MH1", Some("c")), std::path::PathBuf::from("third.jpg")),
    ]);
    let mut first = event("MH1");
    first.add_manhole_card(&cards);
    assert_eq!(first.manhole_card(), &Some(std::path::PathBuf::from("first.jpg")));
    let mut none = event("a");
    none.add_manhole_card(&cards);
    assert_eq!(none, event("a"));
    let mut events = Events::new(vec![event("MH2"), event("MH7"), event("MH1")]);
    events.add_manhole_cards(&cards);
    assert_eq!(events.0[0].manhole_card(), &Some(std::path::PathBuf::from("second.jpg")));
    assert_eq!(events.0[1].manhole_card(), &None);
    assert_eq!(events.0[2].manhole_card(), &Some(std::path::PathBuf::from("first.jpg")));
}

#[test]
fn manhole_cards_of_devices() {
    let names = vec!["zzz".to_string(), "old1".to_string(), "MH1".to_string(), "MH2".to_string()];
    let directory = std::path::PathBuf::from("cards");
    let card = ManholeCard::from_device(&device("MH1", Some("old1")), &names, directory.clone()).unwrap();
    assert_eq!(card.asset(), &device("MH1", Some("old1")));
    assert_eq!(card.path(), &std::path::Path::new("cards").join("old1.jpg"));
    assert_eq!(ManholeCard::from_device(&device("MH2", None), &names, directory.clone()), None);
    assert_eq!(ManholeCard::from_device(&device("MH3", Some("x")), &names, directory.clone()), None);
    let devices =
        Devices::new(vec![device("MH2", None), device("MH2", Some("q")), device("MH1", Some("old1"))]);
    let cards = ManholeCards::from_devices(&devices, &names, directory);
    assert_eq!(cards.len(), 2);
    assert_eq!(cards.0[0].asset(), &device("MH2", Some("q")));
    assert_eq!(cards.0[0].path(), &std::path::Path::new("cards").join("MH2.jpg"));
    assert_eq!(cards.0[1].asset(), &device("MH1", Some("old1")));
    assert_eq!(cards.0[1].path(), &std::path::Path::new("cards").join("old1.jpg"));
    assert_eq!(cards.get("old1"), Some(cards.0[1].clone()));
    assert_eq!(cards.get("MH1"), None);
    assert!(cards.contains("q"));
    assert!(!cards.contains("zzz"));
    assert_eq!(cards.orphans(&names), vec!["zzz".to_string(), "MH1".to_string(), "MH2".to_string()]);
}

#[test]
fn titles_of_inspection_reports() {
    let read = |title: &str| InspectionFile::from_path(title, std::path::PathBuf::from("reports"));
    let file = read("MH1.MH2 3 15 2024").unwrap();
    assert_eq!(file.name(), "MH1.MH2");
    let mut expected = std::path::PathBuf::from("reports");
    expected.push("MH1.MH2 3 15 2024");
    expected.set_extension("pdf");
    assert_eq!(file.path(), &expected);
    assert_eq!(file.archive(), &None);
    assert_eq!(file.date(), &Date::new(2024, 3, 15).unwrap());
    let file = read("A1.B2 UPSTREAM (old) ARCHIVE 12 31 1999").unwrap();
    assert_eq!(file.name(), "A1.B2");
    assert_eq!(file.archive(), &Some("old".to_string()));
    assert_eq!(file.date(), &Date::new(1999, 12, 31).unwrap());
    let file = read("A1.B2_20240315").unwrap();
    assert_eq!(file.date(), &Date::new(2024, 3, 15).unwrap());
    assert_eq!(file.archive(), &None);
    let file = read("A1.B2 (x). 1 2 2003").unwrap();
    assert_eq!(file.date(), &Date::new(2003, 1, 2).unwrap());
    assert_eq!(read("A1 3 15 2024"), Err(Error::ParseError));
    assert_eq!(read("A1.B2"), Err(Error::ParseError));
    assert_eq!(read("A1.B2 (open 3 15 2024"), Err(Error::ParseError));
    assert_eq!(read("A1.B2 2 30 2024"), Err(Error::RangeError));
    assert_eq!(read("A1.B2_2024031"), Err(Error::ParseError));
    assert_eq!(InspectionFile::read_name("MH1.MH2 UPSTREAM 3"), Ok((" 3", "MH1.MH2".to_string())));
    assert_eq!(InspectionFile::read_archive(" (a b) ARCHIVE 1"), Ok((" 1", "a b")));
    assert_eq!(InspectionFile::read_archive("(a)  x"), Ok(("x", "a")));
    assert_eq!(InspectionFile::read_mdy(". 3 15 2024x"), Ok(("x", (2024, 3, 15))));
    assert_eq!(InspectionFile::read_datestamp("_20240315.pdf"), Ok((".pdf", (2024, 3, 15))));
    assert_eq!(InspectionFile::read_datestamp("_-123+1-2"), Ok(("", (-123, 1, -2))));
    assert_eq!(InspectionFile::read_date("_20240315"), Date::new(2024, 3, 15));
    assert_eq!(InspectionFile::read_date("_20241315"), Err(Error::RangeError));
    let files = InspectionFiles::from_path(
        &vec!["MH1.MH2 3 15 2024".to_string(), "notes".to_string(), "A1.B2_20240101".to_string()],
        &std::path::PathBuf::from("reports"),
    );
    assert_eq!(files.len(), 2);
    assert_eq!(files.0[0], read("MH1.MH2 3 15 2024").unwrap());
    assert_eq!(files.0[1], read("A1.B2_20240101").unwrap());
}

#[test]
fn inspections_of_lines() {
    let lines = wastewater::line::Lines::new(vec![sewer("L1", Some("A1.B2")), sewer("A1.B2", None)]);
    let file = InspectionFile::new(
        Some("old".to_string()),
        Date::new(2024, 3, 15).unwrap(),
        "A1.B2".to_string(),
        std::path::PathBuf::from("reports/a.pdf"),
    );
    let inspection = Inspection::from_file(&file, &lines).unwrap();
    assert_eq!(inspection.asset(), &sewer("L1", Some("A1.B2")));
    assert_eq!(inspection.file(), &file);
    assert_eq!(inspection.date(), &Date::new(2024, 3, 15).unwrap());
    assert_eq!(inspection.path(), &std::path::PathBuf::from("reports/a.pdf"));
    let lost = file.clone().with_name("C3.D4".to_string());
    assert_eq!(
        Inspection::from_file(&lost, &lines),
        Err(Error::Hint("Line match to C3.D4 not found.".to_string()))
    );
    let all = Inspections::from_files(&InspectionFiles::new(vec![lost, file.clone()]), &lines).unwrap();
    assert_eq!(all, Inspections::new(vec![inspection]));
}
