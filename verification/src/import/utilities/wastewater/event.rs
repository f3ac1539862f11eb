//! Events with the assets they are about.
use crate::civil::{date_text, datetime_text, time_text};
use crate::convert::Convert;
use crate::error::{Error, ErrorView};
use crate::import::beehive;
use crate::import::beehive::{Event, EventView};
use crate::import::utilities::wastewater::device::Device;
use crate::import::utilities::wastewater::junction::Junction;
use crate::import::utilities::wastewater::line::Line;
use crate::import::utilities::wastewater::{device, junction, line};
use crate::interchange::{
    collect_features, collection_holds, collection_text, feature_holds, feature_properties,
    no_properties, set_property, shape_of, write_collection, FeatureHeld, GeometryHeld,
};
use crate::paths::{path_shown, show};
use crate::text::clone_opt;
use vstd::prelude::*;

verus! {

/// An event with the device it is about.
#[derive(Debug, PartialEq)]
pub struct DeviceEvent {
    /// The device.
    asset: Device,
    /// The event.
    event: Event,
}

/// What an event with its device holds.
pub struct DeviceEventView {
    pub asset: device::DeviceView,
    pub event: EventView,
}

impl View for DeviceEvent {
    type V = DeviceEventView;

    closed spec fn view(&self) -> DeviceEventView {
        DeviceEventView {
            asset: self.asset@,
            event: self.event@,
        }
    }
}

impl Clone for DeviceEvent {
    fn clone(&self) -> (r: Self)
        ensures
            r@ == self@,
    {
        DeviceEvent {
            asset: self.asset.clone(),
            event: self.event.clone(),
        }
    }
}

/// A list of events, each with the device it is about.
#[derive(Debug, PartialEq)]
pub struct DeviceEvents(pub Vec<DeviceEvent>);

impl View for DeviceEvents {
    type V = Seq<DeviceEventView>;

    open spec fn view(&self) -> Seq<DeviceEventView> {
        Seq::new(self.0@.len(), |i: int| self.0@[i]@)
    }
}

impl Clone for DeviceEvents {
    fn clone(&self) -> (r: Self)
        ensures
            r@ == self@,
    {
        let mut items: Vec<DeviceEvent> = Vec::new();
        let mut i: usize = 0;
        while i < self.0.len()
            invariant
                i <= self.0.len(),
                items@.len() == i,
                forall|k: int| 0 <= k < i ==> (#[trigger] items@[k])@ == self.0@[k]@,
            decreases self.0.len() - i,
        {
            items.push(self.0[i].clone());
            i = i + 1;
        }
        let r = DeviceEvents(items);
        assert(r@ =~= self@);
        r
    }
}

/// The properties of the feature of an event with its device. What the event
/// holds of a camera inspection is told apart: see [`DeviceEvent::feature`].
pub open spec fn device_event_properties(event: DeviceEventView) -> Map<Seq<char>, Option<Seq<char>>> {
    no_properties().insert(
        "asset_id"@,
        Some(event.asset.asset_id),
    ).insert(
        "historic_id"@,
        event.asset.historic_id,
    ).insert(
        "event_id"@,
        Some(event.event.asset_id),
    ).insert(
        "asset_group"@,
        Some(event.asset.asset_group.label()),
    ).insert(
        "asset_type"@,
        Some(event.asset.asset_type.label()),
    ).insert(
        "owner"@,
        Some(event.asset.owner.label()),
    ).insert(
        "asset_kind"@,
        Some(event.event.asset_kind.label()),
    ).insert(
        "assigned_to"@,
        Some(event.event.assigned_to),
    ).insert(
        "created_by"@,
        Some(event.event.created_by),
    ).insert(
        "create_date"@,
        Some(datetime_text(event.event.create_date.0, event.event.create_date.1)),
    ).insert(
        "maintenance"@,
        match event.event.maintenance { Some(kind) => Some(kind.label()), None => None },
    ).insert(
        "modify_date"@,
        Some(datetime_text(event.event.modify_date.0, event.event.modify_date.1)),
    ).insert(
        "modified_by"@,
        Some(event.event.modified_by),
    ).insert(
        "name"@,
        Some(event.event.name),
    ).insert(
        "notes"@,
        event.event.notes,
    ).insert(
        "event_kind"@,
        Some(event.event.kind.label()),
    ).insert(
        "plan_date"@,
        Some(date_text(event.event.plan_date.0, event.event.plan_date.1, event.event.plan_date.2)),
    ).insert(
        "priority"@,
        Some(event.event.priority.label()),
    ).insert(
        "schedule_time"@,
        Some(time_text(event.event.schedule_time.0, event.event.schedule_time.1, event.event.schedule_time.2, event.event.schedule_time.3)),
    ).insert(
        "status"@,
        match event.event.status { Some(status) => Some(status.label()), None => None },
    ).insert(
        "manhole_card"@,
        match event.event.manhole_card { Some(path) => Some(path_shown(path)), None => None },
    )
}

/// The properties with the path of the report of the camera inspection, if
/// the event has one.
pub open spec fn device_event_properties_with_report(event: DeviceEventView) -> Map<
    Seq<char>,
    Option<Seq<char>>,
> {
    match event.event.cctv {
        Some(report) => device_event_properties(event).insert(
            "cctv"@,
            Some(path_shown(report.file.path)),
        ),
        None => device_event_properties(event),
    }
}

/// The features of events, with their geometry and their properties.
pub open spec fn device_features_of(features: Seq<geojson::Feature>, events: Seq<DeviceEventView>) -> bool {
    features.len() == events.len() && forall|i: int|
        0 <= i < features.len() ==> feature_properties(#[trigger] features[i])
            == device_event_properties_with_report(events[i]) && feature_holds(features[i])
            == (FeatureHeld {
            geometry: Some(
                GeometryHeld {
                    value: shape_of(events[i].asset.geometry),
                    bbox: false,
                    foreign_members: false,
                },
            ),
            bbox: false,
            id: false,
            foreign_members: false,
        })
}

impl DeviceEvent {
    /// The event with the device it is about.
    pub fn new(asset: device::Device, event: beehive::Event) -> (r: Self)
        ensures
            r@ == (DeviceEventView { asset: asset@, event: event@ }),
    {
        DeviceEvent { asset, event }
    }

    /// The GeoJSON feature of the event: the geometry of the device, and as
    /// properties what is known of the device and of the event.
    pub fn feature(&self) -> (r: geojson::Feature)
        ensures
            feature_holds(r) == (FeatureHeld {
                geometry: Some(
                    GeometryHeld {
                        value: shape_of(self@.asset.geometry),
                        bbox: false,
                        foreign_members: false,
                    },
                ),
                bbox: false,
                id: false,
                foreign_members: false,
            }),
            feature_properties(r) == device_event_properties_with_report(self@),
    {
        let mut result = Convert::new(self.asset.geometry.clone()).geojson_feature();
        set_property(&mut result, "asset_id", Some(self.asset.asset_id().clone()));
        set_property(&mut result, "historic_id", clone_opt(self.asset.historic_id()));
        set_property(&mut result, "event_id", Some(self.event.asset_id().clone()));
        set_property(&mut result, "asset_group", Some(self.asset.asset_group()));
        set_property(&mut result, "asset_type", Some(self.asset.asset_type()));
        set_property(&mut result, "owner", Some(self.asset.owner()));
        set_property(&mut result, "asset_kind", Some(self.event.asset_kind().to_string()));
        set_property(&mut result, "assigned_to", Some(self.event.assigned_to().clone()));
        set_property(&mut result, "created_by", Some(self.event.created_by().clone()));
        set_property(&mut result, "create_date", Some(self.event.create_date().to_string()));
        set_property(&mut result, "maintenance", match self.event.maintenance() { Some(kind) => Some(kind.to_string()), None => None });
        set_property(&mut result, "modify_date", Some(self.event.modify_date().to_string()));
        set_property(&mut result, "modified_by", Some(self.event.modified_by().clone()));
        set_property(&mut result, "name", Some(self.event.name().clone()));
        set_property(&mut result, "notes", clone_opt(self.event.notes()));
        set_property(&mut result, "event_kind", Some(self.event.kind().to_string()));
        set_property(&mut result, "plan_date", Some(self.event.plan_date().to_string()));
        set_property(&mut result, "priority", Some(self.event.priority().to_string()));
        set_property(&mut result, "schedule_time", Some(self.event.schedule_time().to_string()));
        set_property(&mut result, "status", match self.event.status() { Some(status) => Some(status.to_string()), None => None });
        set_property(&mut result, "manhole_card", match self.event.manhole_card() { Some(path) => Some(show(path)), None => None });
        if let Some(cctv) = self.event.cctv() {
            let report = show(cctv.file().path());
            set_property(&mut result, "cctv", Some(report));
        }
        result
    }
}

impl DeviceEvents {
    /// The list of the given events.
    pub fn new(events: Vec<DeviceEvent>) -> (r: Self)
        ensures
            r.0 == events,
    {
        DeviceEvents(events)
    }

    /// The events of a network with the devices they are about, or an error
    /// where no event is about one of the devices.
    pub fn try_from(events: &beehive::Events, devices: &device::Devices) -> (r: Result<Self, Error>)
        ensures
            match r {
                Ok(found) => found@ == beehive::device_events(events@, devices@) && found@.len()
                    > 0,
                Err(e) => beehive::device_events(events@, devices@).len() == 0 && e@
                    == ErrorView::Hint("No events returned."@),
            },
    {
        match events.from_devices(devices) {
            Some(found) => Ok(found),
            None => Err(Error::Hint("No events returned.".to_owned())),
        }
    }

    /// The GeoJSON features of the events, in their order.
    pub fn feature_collection(&self) -> (r: geojson::FeatureCollection)
        ensures
            device_features_of(collection_holds(r), self@),
    {
        let mut features: Vec<geojson::Feature> = Vec::new();
        let mut i: usize = 0;
        while i < self.0.len()
            invariant
                i <= self.0.len(),
                device_features_of(features@, self@.take(i as int)),
            decreases self.0.len() - i,
        {
            let feature = self.0[i].feature();
            features.push(feature);
            i = i + 1;
        }
        assert(self@.take(i as int) =~= self@);
        collect_features(features)
    }

    /// The events written as a GeoJSON text.
    pub fn geojson(&self) -> (r: String)
        ensures
            exists|collection: geojson::FeatureCollection|
                device_features_of(collection_holds(collection), self@) && r@
                    == collection_text(collection),
    {
        let collection = self.feature_collection();
        write_collection(&collection)
    }
}

/// An event with the line it is about.
#[derive(Debug, PartialEq)]
pub struct LineEvent {
    /// The line.
    asset: Line,
    /// The event.
    event: Event,
}

/// What an event with its line holds.
pub struct LineEventView {
    pub asset: line::LineView,
    pub event: EventView,
}

impl View for LineEvent {
    type V = LineEventView;

    closed spec fn view(&self) -> LineEventView {
        LineEventView {
            asset: self.asset@,
            event: self.event@,
        }
    }
}

impl Clone for LineEvent {
    fn clone(&self) -> (r: Self)
        ensures
            r@ == self@,
    {
        LineEvent {
            asset: self.asset.clone(),
            event: self.event.clone(),
        }
    }
}

/// A list of events, each with the line it is about.
#[derive(Debug, PartialEq)]
pub struct LineEvents(pub Vec<LineEvent>);

impl View for LineEvents {
    type V = Seq<LineEventView>;

    open spec fn view(&self) -> Seq<LineEventView> {
        Seq::new(self.0@.len(), |i: int| self.0@[i]@)
    }
}

impl Clone for LineEvents {
    fn clone(&self) -> (r: Self)
        ensures
            r@ == self@,
    {
        let mut items: Vec<LineEvent> = Vec::new();
        let mut i: usize = 0;
        while i < self.0.len()
            invariant
                i <= self.0.len(),
                items@.len() == i,
                forall|k: int| 0 <= k < i ==> (#[trigger] items@[k])@ == self.0@[k]@,
            decreases self.0.len() - i,
        {
            items.push(self.0[i].clone());
            i = i + 1;
        }
        let r = LineEvents(items);
        assert(r@ =~= self@);
        r
    }
}

/// The properties of the feature of an event with its line. What the event
/// holds of a camera inspection is told apart: see [`LineEvent::feature`].
pub open spec fn line_event_properties(event: LineEventView) -> Map<Seq<char>, Option<Seq<char>>> {
    no_properties().insert(
        "asset_id"@,
        Some(event.asset.asset_id),
    ).insert(
        "historic_id"@,
        event.asset.historic_id,
    ).insert(
        "event_id"@,
        Some(event.event.asset_id),
    ).insert(
        "asset_group"@,
        Some(event.asset.asset_group.label()),
    ).insert(
        "asset_type"@,
        Some(event.asset.asset_type.label()),
    ).insert(
        "owner"@,
        Some(event.asset.owner.label()),
    ).insert(
        "asset_kind"@,
        Some(event.event.asset_kind.label()),
    ).insert(
        "assigned_to"@,
        Some(event.event.assigned_to),
    ).insert(
        "created_by"@,
        Some(event.event.created_by),
    ).insert(
        "create_date"@,
        Some(datetime_text(event.event.create_date.0, event.event.create_date.1)),
    ).insert(
        "maintenance"@,
        match event.event.maintenance { Some(kind) => Some(kind.label()), None => None },
    ).insert(
        "modify_date"@,
        Some(datetime_text(event.event.modify_date.0, event.event.modify_date.1)),
    ).insert(
        "modified_by"@,
        Some(event.event.modified_by),
    ).insert(
        "name"@,
        Some(event.event.name),
    ).insert(
        "notes"@,
        event.event.notes,
    ).insert(
        "event_kind"@,
        Some(event.event.kind.label()),
    ).insert(
        "plan_date"@,
        Some(date_text(event.event.plan_date.0, event.event.plan_date.1, event.event.plan_date.2)),
    ).insert(
        "priority"@,
        Some(event.event.priority.label()),
    ).insert(
        "schedule_time"@,
        Some(time_text(event.event.schedule_time.0, event.event.schedule_time.1, event.event.schedule_time.2, event.event.schedule_time.3)),
    ).insert(
        "status"@,
        match event.event.status { Some(status) => Some(status.label()), None => None },
    ).insert(
        "manhole_card"@,
        match event.event.manhole_card { Some(path) => Some(path_shown(path)), None => None },
    )
}

/// The properties with the path of the report of the camera inspection, if
/// the event has one.
pub open spec fn line_event_properties_with_report(event: LineEventView) -> Map<
    Seq<char>,
    Option<Seq<char>>,
> {
    match event.event.cctv {
        Some(report) => line_event_properties(event).insert(
            "cctv"@,
            Some(path_shown(report.file.path)),
        ),
        None => line_event_properties(event),
    }
}

/// The features of events, with their geometry and their properties.
pub open spec fn line_features_of(features: Seq<geojson::Feature>, events: Seq<LineEventView>) -> bool {
    features.len() == events.len() && forall|i: int|
        0 <= i < features.len() ==> feature_properties(#[trigger] features[i])
            == line_event_properties_with_report(events[i]) && feature_holds(features[i])
            == (FeatureHeld {
            geometry: Some(
                GeometryHeld {
                    value: shape_of(events[i].asset.geometry),
                    bbox: false,
                    foreign_members: false,
                },
            ),
            bbox: false,
            id: false,
            foreign_members: false,
        })
}

impl LineEvent {
    /// The event with the line it is about.
    pub fn new(asset: line::Line, event: beehive::Event) -> (r: Self)
        ensures
            r@ == (LineEventView { asset: asset@, event: event@ }),
    {
        LineEvent { asset, event }
    }

    /// The GeoJSON feature of the event: the geometry of the line, and as
    /// properties what is known of the line and of the event.
    pub fn feature(&self) -> (r: geojson::Feature)
        ensures
            feature_holds(r) == (FeatureHeld {
                geometry: Some(
                    GeometryHeld {
                        value: shape_of(self@.asset.geometry),
                        bbox: false,
                        foreign_members: false,
                    },
                ),
                bbox: false,
                id: false,
                foreign_members: false,
            }),
            feature_properties(r) == line_event_properties_with_report(self@),
    {
        let mut result = Convert::new(self.asset.geometry.clone()).geojson_feature();
        set_property(&mut result, "asset_id", Some(self.asset.asset_id().clone()));
        set_property(&mut result, "historic_id", clone_opt(self.asset.historic_id()));
        set_property(&mut result, "event_id", Some(self.event.asset_id().clone()));
        set_property(&mut result, "asset_group", Some(self.asset.asset_group()));
        set_property(&mut result, "asset_type", Some(self.asset.asset_type()));
        set_property(&mut result, "owner", Some(self.asset.owner()));
        set_property(&mut result, "asset_kind", Some(self.event.asset_kind().to_string()));
        set_property(&mut result, "assigned_to", Some(self.event.assigned_to().clone()));
        set_property(&mut result, "created_by", Some(self.event.created_by().clone()));
        set_property(&mut result, "create_date", Some(self.event.create_date().to_string()));
        set_property(&mut result, "maintenance", match self.event.maintenance() { Some(kind) => Some(kind.to_string()), None => None });
        set_property(&mut result, "modify_date", Some(self.event.modify_date().to_string()));
        set_property(&mut result, "modified_by", Some(self.event.modified_by().clone()));
        set_property(&mut result, "name", Some(self.event.name().clone()));
        set_property(&mut result, "notes", clone_opt(self.event.notes()));
        set_property(&mut result, "event_kind", Some(self.event.kind().to_string()));
        set_property(&mut result, "plan_date", Some(self.event.plan_date().to_string()));
        set_property(&mut result, "priority", Some(self.event.priority().to_string()));
        set_property(&mut result, "schedule_time", Some(self.event.schedule_time().to_string()));
        set_property(&mut result, "status", match self.event.status() { Some(status) => Some(status.to_string()), None => None });
        set_property(&mut result, "manhole_card", match self.event.manhole_card() { Some(path) => Some(show(path)), None => None });
        if let Some(cctv) = self.event.cctv() {
            let report = show(cctv.file().path());
            set_property(&mut result, "cctv", Some(report));
        }
        result
    }
}

impl LineEvents {
    /// The list of the given events.
    pub fn new(events: Vec<LineEvent>) -> (r: Self)
        ensures
            r.0 == events,
    {
        LineEvents(events)
    }

    /// The events of a network with the lines they are about, or an error
    /// where no event is about one of the lines.
    pub fn try_from(events: &beehive::Events, lines: &line::Lines) -> (r: Result<Self, Error>)
        ensures
            match r {
                Ok(found) => found@ == beehive::line_events(events@, lines@) && found@.len()
                    > 0,
                Err(e) => beehive::line_events(events@, lines@).len() == 0 && e@
                    == ErrorView::Hint("No events returned."@),
            },
    {
        match events.from_lines(lines) {
            Some(found) => Ok(found),
            None => Err(Error::Hint("No events returned.".to_owned())),
        }
    }

    /// The GeoJSON features of the events, in their order.
    pub fn feature_collection(&self) -> (r: geojson::FeatureCollection)
        ensures
            line_features_of(collection_holds(r), self@),
    {
        let mut features: Vec<geojson::Feature> = Vec::new();
        let mut i: usize = 0;
        while i < self.0.len()
            invariant
                i <= self.0.len(),
                line_features_of(features@, self@.take(i as int)),
            decreases self.0.len() - i,
        {
            let feature = self.0[i].feature();
            features.push(feature);
            i = i + 1;
        }
        assert(self@.take(i as int) =~= self@);
        collect_features(features)
    }

    /// The events written as a GeoJSON text.
    pub fn geojson(&self) -> (r: String)
        ensures
            exists|collection: geojson::FeatureCollection|
                line_features_of(collection_holds(collection), self@) && r@
                    == collection_text(collection),
    {
        let collection = self.feature_collection();
        write_collection(&collection)
    }
}

/// An event with the junction it is about.
#[derive(Debug, PartialEq)]
pub struct JunctionEvent {
    /// The junction.
    asset: Junction,
    /// The event.
    event: Event,
}

/// What an event with its junction holds.
pub struct JunctionEventView {
    pub asset: junction::JunctionView,
    pub event: EventView,
}

impl View for JunctionEvent {
    type V = JunctionEventView;

    closed spec fn view(&self) -> JunctionEventView {
        JunctionEventView {
            asset: self.asset@,
            event: self.event@,
        }
    }
}

impl Clone for JunctionEvent {
    fn clone(&self) -> (r: Self)
        ensures
            r@ == self@,
    {
        JunctionEvent {
            asset: self.asset.clone(),
            event: self.event.clone(),
        }
    }
}

/// A list of events, each with the junction it is about.
#[derive(Debug, PartialEq)]
pub struct JunctionEvents(pub Vec<JunctionEvent>);

impl View for JunctionEvents {
    type V = Seq<JunctionEventView>;

    open spec fn view(&self) -> Seq<JunctionEventView> {
        Seq::new(self.0@.len(), |i: int| self.0@[i]@)
    }
}

impl Clone for JunctionEvents {
    fn clone(&self) -> (r: Self)
        ensures
            r@ == self@,
    {
        let mut items: Vec<JunctionEvent> = Vec::new();
        let mut i: usize = 0;
        while i < self.0.len()
            invariant
                i <= self.0.len(),
                items@.len() == i,
                forall|k: int| 0 <= k < i ==> (#[trigger] items@[k])@ == self.0@[k]@,
            decreases self.0.len() - i,
        {
            items.push(self.0[i].clone());
            i = i + 1;
        }
        let r = JunctionEvents(items);
        assert(r@ =~= self@);
        r
    }
}

/// The properties of the feature of an event with its junction. What the event
/// holds of a camera inspection is told apart: see [`JunctionEvent::feature`].
pub open spec fn junction_event_properties(event: JunctionEventView) -> Map<Seq<char>, Option<Seq<char>>> {
    no_properties().insert(
        "asset_id"@,
        Some(event.asset.asset_id),
    ).insert(
        "historic_id"@,
        event.asset.historic_id,
    ).insert(
        "event_id"@,
        Some(event.event.asset_id),
    ).insert(
        "asset_group"@,
        Some(event.asset.asset_group.label()),
    ).insert(
        "asset_type"@,
        Some(event.asset.asset_type.label()),
    ).insert(
        "owner"@,
        Some(event.asset.owner.label()),
    ).insert(
        "asset_kind"@,
        Some(event.event.asset_kind.label()),
    ).insert(
        "assigned_to"@,
        Some(event.event.assigned_to),
    ).insert(
        "created_by"@,
        Some(event.event.created_by),
    ).insert(
        "create_date"@,
        Some(datetime_text(event.event.create_date.0, event.event.create_date.1)),
    ).insert(
        "maintenance"@,
        match event.event.maintenance { Some(kind) => Some(kind.label()), None => None },
    ).insert(
        "modify_date"@,
        Some(datetime_text(event.event.modify_date.0, event.event.modify_date.1)),
    ).insert(
        "modified_by"@,
        Some(event.event.modified_by),
    ).insert(
        "name"@,
        Some(event.event.name),
    ).insert(
        "notes"@,
        event.event.notes,
    ).insert(
        "event_kind"@,
        Some(event.event.kind.label()),
    ).insert(
        "plan_date"@,
        Some(date_text(event.event.plan_date.0, event.event.plan_date.1, event.event.plan_date.2)),
    ).insert(
        "priority"@,
        Some(event.event.priority.label()),
    ).insert(
        "schedule_time"@,
        Some(time_text(event.event.schedule_time.0, event.event.schedule_time.1, event.event.schedule_time.2, event.event.schedule_time.3)),
    ).insert(
        "status"@,
        match event.event.status { Some(status) => Some(status.label()), None => None },
    ).insert(
        "manhole_card"@,
        match event.event.manhole_card { Some(path) => Some(path_shown(path)), None => None },
    )
}

/// The properties with the path of the report of the camera inspection, if
/// the event has one.
pub open spec fn junction_event_properties_with_report(event: JunctionEventView) -> Map<
    Seq<char>,
    Option<Seq<char>>,
> {
    match event.event.cctv {
        Some(report) => junction_event_properties(event).insert(
            "cctv"@,
            Some(path_shown(report.file.path)),
        ),
        None => junction_event_properties(event),
    }
}

/// The features of events, with their geometry and their properties.
pub open spec fn junction_features_of(features: Seq<geojson::Feature>, events: Seq<JunctionEventView>) -> bool {
    features.len() == events.len() && forall|i: int|
        0 <= i < features.len() ==> feature_properties(#[trigger] features[i])
            == junction_event_properties_with_report(events[i]) && feature_holds(features[i])
            == (FeatureHeld {
            geometry: Some(
                GeometryHeld {
                    value: shape_of(events[i].asset.geometry),
                    bbox: false,
                    foreign_members: false,
                },
            ),
            bbox: false,
            id: false,
            foreign_members: false,
        })
}

impl JunctionEvent {
    /// The event with the junction it is about.
    pub fn new(asset: junction::Junction, event: beehive::Event) -> (r: Self)
        ensures
            r@ == (JunctionEventView { asset: asset@, event: event@ }),
    {
        JunctionEvent { asset, event }
    }

    /// The GeoJSON feature of the event: the geometry of the junction, and as
    /// properties what is known of the junction and of the event.
    pub fn feature(&self) -> (r: geojson::Feature)
        ensures
            feature_holds(r) == (FeatureHeld {
                geometry: Some(
                    GeometryHeld {
                        value: shape_of(self@.asset.geometry),
                        bbox: false,
                        foreign_members: false,
                    },
                ),
                bbox: false,
                id: false,
                foreign_members: false,
            }),
            feature_properties(r) == junction_event_properties_with_report(self@),
    {
        let mut result = Convert::new(self.asset.geometry.clone()).geojson_feature();
        set_property(&mut result, "asset_id", Some(self.asset.asset_id().clone()));
        set_property(&mut result, "historic_id", clone_opt(self.asset.historic_id()));
        set_property(&mut result, "event_id", Some(self.event.asset_id().clone()));
        set_property(&mut result, "asset_group", Some(self.asset.asset_group()));
        set_property(&mut result, "asset_type", Some(self.asset.asset_type()));
        set_property(&mut result, "owner", Some(self.asset.owner()));
        set_property(&mut result, "asset_kind", Some(self.event.asset_kind().to_string()));
        set_property(&mut result, "assigned_to", Some(self.event.assigned_to().clone()));
        set_property(&mut result, "created_by", Some(self.event.created_by().clone()));
        set_property(&mut result, "create_date", Some(self.event.create_date().to_string()));
        set_property(&mut result, "maintenance", match self.event.maintenance() { Some(kind) => Some(kind.to_string()), None => None });
        set_property(&mut result, "modify_date", Some(self.event.modify_date().to_string()));
        set_property(&mut result, "modified_by", Some(self.event.modified_by().clone()));
        set_property(&mut result, "name", Some(self.event.name().clone()));
        set_property(&mut result, "notes", clone_opt(self.event.notes()));
        set_property(&mut result, "event_kind", Some(self.event.kind().to_string()));
        set_property(&mut result, "plan_date", Some(self.event.plan_date().to_string()));
        set_property(&mut result, "priority", Some(self.event.priority().to_string()));
        set_property(&mut result, "schedule_time", Some(self.event.schedule_time().to_string()));
        set_property(&mut result, "status", match self.event.status() { Some(status) => Some(status.to_string()), None => None });
        set_property(&mut result, "manhole_card", match self.event.manhole_card() { Some(path) => Some(show(path)), None => None });
        if let Some(cctv) = self.event.cctv() {
            let report = show(cctv.file().path());
            set_property(&mut result, "cctv", Some(report));
        }
        result
    }
}

impl JunctionEvents {
    /// The list of the given events.
    pub fn new(events: Vec<JunctionEvent>) -> (r: Self)
        ensures
            r.0 == events,
    {
        JunctionEvents(events)
    }

    /// The events of a network with the junctions they are about, or an error
    /// where no event is about one of the junctions.
    pub fn try_from(events: &beehive::Events, junctions: &junction::Junctions) -> (r: Result<Self, Error>)
        ensures
            match r {
                Ok(found) => found@ == beehive::junction_events(events@, junctions@) && found@.len()
                    > 0,
                Err(e) => beehive::junction_events(events@, junctions@).len() == 0 && e@
                    == ErrorView::Hint("No events returned."@),
            },
    {
        match events.from_junctions(junctions) {
            Some(found) => Ok(found),
            None => Err(Error::Hint("No events returned.".to_owned())),
        }
    }

    /// The GeoJSON features of the events, in their order.
    pub fn feature_collection(&self) -> (r: geojson::FeatureCollection)
        ensures
            junction_features_of(collection_holds(r), self@),
    {
        let mut features: Vec<geojson::Feature> = Vec::new();
        let mut i: usize = 0;
        while i < self.0.len()
            invariant
                i <= self.0.len(),
                junction_features_of(features@, self@.take(i as int)),
            decreases self.0.len() - i,
        {
            let feature = self.0[i].feature();
            features.push(feature);
            i = i + 1;
        }
        assert(self@.take(i as int) =~= self@);
        collect_features(features)
    }

    /// The events written as a GeoJSON text.
    pub fn geojson(&self) -> (r: String)
        ensures
            exists|collection: geojson::FeatureCollection|
                junction_features_of(collection_holds(collection), self@) && r@
                    == collection_text(collection),
    {
        let collection = self.feature_collection();
        write_collection(&collection)
    }
}

} // verus!
