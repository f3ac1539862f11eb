//! The events of the asset management system: work that was planned or done
//! on the assets of the network.
use crate::civil::{Date, DateTime, Time};
use crate::error::{Error, ErrorView};
use crate::import::utilities::cctv::{Inspection, InspectionView, Inspections};
use crate::import::utilities::wastewater::event::{
    DeviceEvent, DeviceEventView, DeviceEvents, JunctionEvent, JunctionEventView,
    JunctionEvents, LineEvent, LineEventView, LineEvents,
};
use crate::import::utilities::wastewater::manhole_card::{ManholeCardView, ManholeCards};
use crate::import::utilities::wastewater::{device, junction, line};
use crate::paths::clone_opt_path;
use crate::text::{clone_opt, join, opt_text, same};
use crate::utils;
use crate::utils::{datetime_of, hm12_of, mdy_of};
use vstd::prelude::*;

verus! {

/// The kinds of work that an event can record.
#[derive(Debug, Clone, Copy, PartialEq, Eq, PartialOrd, Ord, Hash, Structural)]
pub enum EventKind {
    Adjustment,
    Bypass,
    CallIn,
    Cctv,
    Cleaning,
    Construction,
    Contractor,
    ContractorInspection,
    DataCollection,
    DebrisRemoval,
    Emergency,
    Excavation,
    FinalInspection,
    Grease,
    Grouting,
    Housekeeping,
    Inspection,
    Installation,
    Investigation,
    Jetting,
    LineParking,
    Locates,
    Maintenance,
    Mapping,
    Misc,
    Notification,
    Other,
    Owner,
    PlannedCleaning,
    PlannedInspection,
    Records,
    Reduction,
    Replaced,
    Restoration,
    RootControl,
    Testing,
    UnplannedInspection,
    Vacuum,
    VisualInspection,
    Warranty,
}

impl Default for EventKind {
    fn default() -> (r: Self)
        ensures
            r == EventKind::Maintenance,
    {
        EventKind::Maintenance
    }
}

impl EventKind {
    /// The name of the value.
    pub open spec fn label(self) -> Seq<char> {
        match self {
            EventKind::Adjustment => "Adjustment"@,
            EventKind::Bypass => "Bypass"@,
            EventKind::CallIn => "CallIn"@,
            EventKind::Cctv => "Cctv"@,
            EventKind::Cleaning => "Cleaning"@,
            EventKind::Construction => "Construction"@,
            EventKind::Contractor => "Contractor"@,
            EventKind::ContractorInspection => "ContractorInspection"@,
            EventKind::DataCollection => "DataCollection"@,
            EventKind::DebrisRemoval => "DebrisRemoval"@,
            EventKind::Emergency => "Emergency"@,
            EventKind::Excavation => "Excavation"@,
            EventKind::FinalInspection => "FinalInspection"@,
            EventKind::Grease => "Grease"@,
            EventKind::Grouting => "Grouting"@,
            EventKind::Housekeeping => "Housekeeping"@,
            EventKind::Inspection => "Inspection"@,
            EventKind::Installation => "Installation"@,
            EventKind::Investigation => "Investigation"@,
            EventKind::Jetting => "Jetting"@,
            EventKind::LineParking => "LineParking"@,
            EventKind::Locates => "Locates"@,
            EventKind::Maintenance => "Maintenance"@,
            EventKind::Mapping => "Mapping"@,
            EventKind::Misc => "Misc"@,
            EventKind::Notification => "Notification"@,
            EventKind::Other => "Other"@,
            EventKind::Owner => "Owner"@,
            EventKind::PlannedCleaning => "PlannedCleaning"@,
            EventKind::PlannedInspection => "PlannedInspection"@,
            EventKind::Records => "Records"@,
            EventKind::Reduction => "Reduction"@,
            EventKind::Replaced => "Replaced"@,
            EventKind::Restoration => "Restoration"@,
            EventKind::RootControl => "RootControl"@,
            EventKind::Testing => "Testing"@,
            EventKind::UnplannedInspection => "UnplannedInspection"@,
            EventKind::Vacuum => "Vacuum"@,
            EventKind::VisualInspection => "VisualInspection"@,
            EventKind::Warranty => "Warranty"@,
        }
    }

    /// The name of the value.
    pub fn to_string(&self) -> (r: String)
        ensures
            r@ == self.label(),
    {
        match self {
            EventKind::Adjustment => "Adjustment".to_owned(),
            EventKind::Bypass => "Bypass".to_owned(),
            EventKind::CallIn => "CallIn".to_owned(),
            EventKind::Cctv => "Cctv".to_owned(),
            EventKind::Cleaning => "Cleaning".to_owned(),
            EventKind::Construction => "Construction".to_owned(),
            EventKind::Contractor => "Contractor".to_owned(),
            EventKind::ContractorInspection => "ContractorInspection".to_owned(),
            EventKind::DataCollection => "DataCollection".to_owned(),
            EventKind::DebrisRemoval => "DebrisRemoval".to_owned(),
            EventKind::Emergency => "Emergency".to_owned(),
            EventKind::Excavation => "Excavation".to_owned(),
            EventKind::FinalInspection => "FinalInspection".to_owned(),
            EventKind::Grease => "Grease".to_owned(),
            EventKind::Grouting => "Grouting".to_owned(),
            EventKind::Housekeeping => "Housekeeping".to_owned(),
            EventKind::Inspection => "Inspection".to_owned(),
            EventKind::Installation => "Installation".to_owned(),
            EventKind::Investigation => "Investigation".to_owned(),
            EventKind::Jetting => "Jetting".to_owned(),
            EventKind::LineParking => "LineParking".to_owned(),
            EventKind::Locates => "Locates".to_owned(),
            EventKind::Maintenance => "Maintenance".to_owned(),
            EventKind::Mapping => "Mapping".to_owned(),
            EventKind::Misc => "Misc".to_owned(),
            EventKind::Notification => "Notification".to_owned(),
            EventKind::Other => "Other".to_owned(),
            EventKind::Owner => "Owner".to_owned(),
            EventKind::PlannedCleaning => "PlannedCleaning".to_owned(),
            EventKind::PlannedInspection => "PlannedInspection".to_owned(),
            EventKind::Records => "Records".to_owned(),
            EventKind::Reduction => "Reduction".to_owned(),
            EventKind::Replaced => "Replaced".to_owned(),
            EventKind::Restoration => "Restoration".to_owned(),
            EventKind::RootControl => "RootControl".to_owned(),
            EventKind::Testing => "Testing".to_owned(),
            EventKind::UnplannedInspection => "UnplannedInspection".to_owned(),
            EventKind::Vacuum => "Vacuum".to_owned(),
            EventKind::VisualInspection => "VisualInspection".to_owned(),
            EventKind::Warranty => "Warranty".to_owned(),
        }
    }
}

impl EventKind {
    /// The kind of event that a text names, if it names one.
    pub open spec fn named(s: Seq<char>) -> Option<EventKind> {
        if s == "_Adjustment"@ {
            Some(EventKind::Adjustment)
        } else if s == "_Bypass Pumping"@ {
            Some(EventKind::Bypass)
        } else if s == "Wastewater Call-in"@ {
            Some(EventKind::CallIn)
        } else if s == "CCTV"@ {
            Some(EventKind::Cctv)
        } else if s == "Cleaning"@ {
            Some(EventKind::Cleaning)
        } else if s == "Clean"@ {
            Some(EventKind::Cleaning)
        } else if s == "_Cleaning - Emergency/Blockages"@ {
            Some(EventKind::Cleaning)
        } else if s == "Construction"@ {
            Some(EventKind::Construction)
        } else if s == "Contractor"@ {
            Some(EventKind::Contractor)
        } else if s == "_Inspection - Contractor"@ {
            Some(EventKind::ContractorInspection)
        } else if s == "Data Collection"@ {
            Some(EventKind::DataCollection)
        } else if s == "_Data Collection"@ {
            Some(EventKind::DataCollection)
        } else if s == "_Debris/Grit Removal"@ {
            Some(EventKind::DebrisRemoval)
        } else if s == "Emergency Response/Callout"@ {
            Some(EventKind::Emergency)
        } else if s == "_Emergency Response/Callout"@ {
            Some(EventKind::Emergency)
        } else if s == "_Excavation"@ {
            Some(EventKind::Excavation)
        } else if s == "_TV Inspection - Final"@ {
            Some(EventKind::FinalInspection)
        } else if s == "Grease"@ {
            Some(EventKind::Grease)
        } else if s == "_Sealing/Grouting"@ {
            Some(EventKind::Grouting)
        } else if s == "Housekeeping"@ {
            Some(EventKind::Housekeeping)
        } else if s == "Inspection"@ {
            Some(EventKind::Inspection)
        } else if s == "_Inspection"@ {
            Some(EventKind::Inspection)
        } else if s == "Installation"@ {
            Some(EventKind::Installation)
        } else if s == "_Installation"@ {
            Some(EventKind::Installation)
        } else if s == "Investigation"@ {
            Some(EventKind::Investigation)
        } else if s == "_Investigation"@ {
            Some(EventKind::Investigation)
        } else if s == "_Jetting"@ {
            Some(EventKind::Jetting)
        } else if s == "Line Parking (Force Main)"@ {
            Some(EventKind::LineParking)
        } else if s == "_Locates (Visual)"@ {
            Some(EventKind::Locates)
        } else if s == "_Locates (GPS)"@ {
            Some(EventKind::Locates)
        } else if s == "Wastewater Maintenance"@ {
            Some(EventKind::Maintenance)
        } else if s == "Maintenance"@ {
            Some(EventKind::Maintenance)
        } else if s == "_Maintenance"@ {
            Some(EventKind::Maintenance)
        } else if s == "Mapping"@ {
            Some(EventKind::Mapping)
        } else if s == "_Miscellaneous Tasks"@ {
            Some(EventKind::Misc)
        } else if s == "Notification"@ {
            Some(EventKind::Notification)
        } else if s == "Other"@ {
            Some(EventKind::Other)
        } else if s == "_Other"@ {
            Some(EventKind::Other)
        } else if s == "Owner Contacted"@ {
            Some(EventKind::Owner)
        } else if s == "_Cleaning - Planned"@ {
            Some(EventKind::PlannedCleaning)
        } else if s == "_TV Inspection - Planned"@ {
            Some(EventKind::PlannedInspection)
        } else if s == "_Record Keeping/Updating"@ {
            Some(EventKind::Records)
        } else if s == "I&I Reduction"@ {
            Some(EventKind::Reduction)
        } else if s == "_I&I Reduction"@ {
            Some(EventKind::Reduction)
        } else if s == "Replaced"@ {
            Some(EventKind::Replaced)
        } else if s == "Restoration"@ {
            Some(EventKind::Restoration)
        } else if s == "_Restoration"@ {
            Some(EventKind::Restoration)
        } else if s == "Root Control"@ {
            Some(EventKind::RootControl)
        } else if s == "_Root Control Mechanical"@ {
            Some(EventKind::RootControl)
        } else if s == "Testing"@ {
            Some(EventKind::Testing)
        } else if s == "_Testing (dye)"@ {
            Some(EventKind::Testing)
        } else if s == "_TV Inspection - Unplanned"@ {
            Some(EventKind::UnplannedInspection)
        } else if s == "_Vacuum"@ {
            Some(EventKind::Vacuum)
        } else if s == "_Inspection - Visual"@ {
            Some(EventKind::VisualInspection)
        } else if s == "_Inspection - Unplanned Visual"@ {
            Some(EventKind::VisualInspection)
        } else if s == "_1Yr Warranty Clean"@ {
            Some(EventKind::Warranty)
        } else if s == "_1yr Warranty TV Inspection"@ {
            Some(EventKind::Warranty)
        } else {
            None
        }
    }

    /// The kind of event that a text names, if it names one. Any other text is an error that names it.
    pub open spec fn read(s: Seq<char>) -> Result<EventKind, ErrorView> {
        match EventKind::named(s) {
            Some(value) => Ok(value),
            None => Err(ErrorView::Hint("Unrecognized EventKind: "@ + s)),
        }
    }

    /// Reads the kind of an event.
    pub fn from_str(s: &str) -> (r: Result<Self, Error>)
        ensures
            match r {
                Ok(value) => EventKind::read(s@) == Ok::<EventKind, ErrorView>(value),
                Err(e) => EventKind::read(s@) == Err::<EventKind, ErrorView>(e@),
            },
    {
        if same(s, "_Adjustment") {
            Ok(EventKind::Adjustment)
        } else if same(s, "_Bypass Pumping") {
            Ok(EventKind::Bypass)
        } else if same(s, "Wastewater Call-in") {
            Ok(EventKind::CallIn)
        } else if same(s, "CCTV") {
            Ok(EventKind::Cctv)
        } else if same(s, "Cleaning") {
            Ok(EventKind::Cleaning)
        } else if same(s, "Clean") {
            Ok(EventKind::Cleaning)
        } else if same(s, "_Cleaning - Emergency/Blockages") {
            Ok(EventKind::Cleaning)
        } else if same(s, "Construction") {
            Ok(EventKind::Construction)
        } else if same(s, "Contractor") {
            Ok(EventKind::Contractor)
        } else if same(s, "_Inspection - Contractor") {
            Ok(EventKind::ContractorInspection)
        } else if same(s, "Data Collection") {
            Ok(EventKind::DataCollection)
        } else if same(s, "_Data Collection") {
            Ok(EventKind::DataCollection)
        } else if same(s, "_Debris/Grit Removal") {
            Ok(EventKind::DebrisRemoval)
        } else if same(s, "Emergency Response/Callout") {
            Ok(EventKind::Emergency)
        } else if same(s, "_Emergency Response/Callout") {
            Ok(EventKind::Emergency)
        } else if same(s, "_Excavation") {
            Ok(EventKind::Excavation)
        } else if same(s, "_TV Inspection - Final") {
            Ok(EventKind::FinalInspection)
        } else if same(s, "Grease") {
            Ok(EventKind::Grease)
        } else if same(s, "_Sealing/Grouting") {
            Ok(EventKind::Grouting)
        } else if same(s, "Housekeeping") {
            Ok(EventKind::Housekeeping)
        } else if same(s, "Inspection") {
            Ok(EventKind::Inspection)
        } else if same(s, "_Inspection") {
            Ok(EventKind::Inspection)
        } else if same(s, "Installation") {
            Ok(EventKind::Installation)
        } else if same(s, "_Installation") {
            Ok(EventKind::Installation)
        } else if same(s, "Investigation") {
            Ok(EventKind::Investigation)
        } else if same(s, "_Investigation") {
            Ok(EventKind::Investigation)
        } else if same(s, "_Jetting") {
            Ok(EventKind::Jetting)
        } else if same(s, "Line Parking (Force Main)") {
            Ok(EventKind::LineParking)
        } else if same(s, "_Locates (Visual)") {
            Ok(EventKind::Locates)
        } else if same(s, "_Locates (GPS)") {
            Ok(EventKind::Locates)
        } else if same(s, "Wastewater Maintenance") {
            Ok(EventKind::Maintenance)
        } else if same(s, "Maintenance") {
            Ok(EventKind::Maintenance)
        } else if same(s, "_Maintenance") {
            Ok(EventKind::Maintenance)
        } else if same(s, "Mapping") {
            Ok(EventKind::Mapping)
        } else if same(s, "_Miscellaneous Tasks") {
            Ok(EventKind::Misc)
        } else if same(s, "Notification") {
            Ok(EventKind::Notification)
        } else if same(s, "Other") {
            Ok(EventKind::Other)
        } else if same(s, "_Other") {
            Ok(EventKind::Other)
        } else if same(s, "Owner Contacted") {
            Ok(EventKind::Owner)
        } else if same(s, "_Cleaning - Planned") {
            Ok(EventKind::PlannedCleaning)
        } else if same(s, "_TV Inspection - Planned") {
            Ok(EventKind::PlannedInspection)
        } else if same(s, "_Record Keeping/Updating") {
            Ok(EventKind::Records)
        } else if same(s, "I&I Reduction") {
            Ok(EventKind::Reduction)
        } else if same(s, "_I&I Reduction") {
            Ok(EventKind::Reduction)
        } else if same(s, "Replaced") {
            Ok(EventKind::Replaced)
        } else if same(s, "Restoration") {
            Ok(EventKind::Restoration)
        } else if same(s, "_Restoration") {
            Ok(EventKind::Restoration)
        } else if same(s, "Root Control") {
            Ok(EventKind::RootControl)
        } else if same(s, "_Root Control Mechanical") {
            Ok(EventKind::RootControl)
        } else if same(s, "Testing") {
            Ok(EventKind::Testing)
        } else if same(s, "_Testing (dye)") {
            Ok(EventKind::Testing)
        } else if same(s, "_TV Inspection - Unplanned") {
            Ok(EventKind::UnplannedInspection)
        } else if same(s, "_Vacuum") {
            Ok(EventKind::Vacuum)
        } else if same(s, "_Inspection - Visual") {
            Ok(EventKind::VisualInspection)
        } else if same(s, "_Inspection - Unplanned Visual") {
            Ok(EventKind::VisualInspection)
        } else if same(s, "_1Yr Warranty Clean") {
            Ok(EventKind::Warranty)
        } else if same(s, "_1yr Warranty TV Inspection") {
            Ok(EventKind::Warranty)
        } else {
            Err(Error::Hint(join("Unrecognized EventKind: ", s)))
        }
    }
}

/// The kinds of asset that an event can be about.
#[derive(Debug, Clone, Copy, PartialEq, Eq, PartialOrd, Ord, Hash, Structural)]
pub enum AssetKind {
    Basin,
    CallIn,
    Cleanout,
    Fitting,
    Force,
    Lateral,
    Maintenance,
    Manhole,
    Pipe,
    Pump,
    Structure,
    Valve,
}

impl Default for AssetKind {
    fn default() -> (r: Self)
        ensures
            r == AssetKind::Maintenance,
    {
        AssetKind::Maintenance
    }
}

impl AssetKind {
    /// The name of the value.
    pub open spec fn label(self) -> Seq<char> {
        match self {
            AssetKind::Basin => "Basin"@,
            AssetKind::CallIn => "CallIn"@,
            AssetKind::Cleanout => "Cleanout"@,
            AssetKind::Fitting => "Fitting"@,
            AssetKind::Force => "Force"@,
            AssetKind::Lateral => "Lateral"@,
            AssetKind::Maintenance => "Maintenance"@,
            AssetKind::Manhole => "Manhole"@,
            AssetKind::Pipe => "Pipe"@,
            AssetKind::Pump => "Pump"@,
            AssetKind::Structure => "Structure"@,
            AssetKind::Valve => "Valve"@,
        }
    }

    /// The name of the value.
    pub fn to_string(&self) -> (r: String)
        ensures
            r@ == self.label(),
    {
        match self {
            AssetKind::Basin => "Basin".to_owned(),
            AssetKind::CallIn => "CallIn".to_owned(),
            AssetKind::Cleanout => "Cleanout".to_owned(),
            AssetKind::Fitting => "Fitting".to_owned(),
            AssetKind::Force => "Force".to_owned(),
            AssetKind::Lateral => "Lateral".to_owned(),
            AssetKind::Maintenance => "Maintenance".to_owned(),
            AssetKind::Manhole => "Manhole".to_owned(),
            AssetKind::Pipe => "Pipe".to_owned(),
            AssetKind::Pump => "Pump".to_owned(),
            AssetKind::Structure => "Structure".to_owned(),
            AssetKind::Valve => "Valve".to_owned(),
        }
    }
}

impl AssetKind {
    /// The kind of asset that a text names, if it names one.
    pub open spec fn named(s: Seq<char>) -> Option<AssetKind> {
        if s == "Wastewater Sewer Basin"@ {
            Some(AssetKind::Basin)
        } else if s == "Wastewater Cleanouts"@ {
            Some(AssetKind::Cleanout)
        } else if s == "Wastewater Call-In"@ {
            Some(AssetKind::CallIn)
        } else if s == "Wastewater Fitting"@ {
            Some(AssetKind::Fitting)
        } else if s == "Wastewater Force Main"@ {
            Some(AssetKind::Force)
        } else if s == "Wastewater Lateral"@ {
            Some(AssetKind::Lateral)
        } else if s == "Wastewater Maintenance"@ {
            Some(AssetKind::Maintenance)
        } else if s == "Wastewater Manhole"@ {
            Some(AssetKind::Manhole)
        } else if s == "Wastewater Pipe"@ {
            Some(AssetKind::Pipe)
        } else if s == "Wastewater Pump"@ {
            Some(AssetKind::Pump)
        } else if s == "Wastewater Network Structure"@ {
            Some(AssetKind::Structure)
        } else if s == "Wastewater Valve"@ {
            Some(AssetKind::Valve)
        } else {
            None
        }
    }

    /// The kind of asset that a text names, if it names one. Any other text is an error that names it.
    pub open spec fn read(s: Seq<char>) -> Result<AssetKind, ErrorView> {
        match AssetKind::named(s) {
            Some(value) => Ok(value),
            None => Err(ErrorView::Hint("Unrecognized EventKind: "@ + s)),
        }
    }

    /// Reads the kind of an asset.
    pub fn from_str(s: &str) -> (r: Result<Self, Error>)
        ensures
            match r {
                Ok(value) => AssetKind::read(s@) == Ok::<AssetKind, ErrorView>(value),
                Err(e) => AssetKind::read(s@) == Err::<AssetKind, ErrorView>(e@),
            },
    {
        if same(s, "Wastewater Sewer Basin") {
            Ok(AssetKind::Basin)
        } else if same(s, "Wastewater Cleanouts") {
            Ok(AssetKind::Cleanout)
        } else if same(s, "Wastewater Call-In") {
            Ok(AssetKind::CallIn)
        } else if same(s, "Wastewater Fitting") {
            Ok(AssetKind::Fitting)
        } else if same(s, "Wastewater Force Main") {
            Ok(AssetKind::Force)
        } else if same(s, "Wastewater Lateral") {
            Ok(AssetKind::Lateral)
        } else if same(s, "Wastewater Maintenance") {
            Ok(AssetKind::Maintenance)
        } else if same(s, "Wastewater Manhole") {
            Ok(AssetKind::Manhole)
        } else if same(s, "Wastewater Pipe") {
            Ok(AssetKind::Pipe)
        } else if same(s, "Wastewater Pump") {
            Ok(AssetKind::Pump)
        } else if same(s, "Wastewater Network Structure") {
            Ok(AssetKind::Structure)
        } else if same(s, "Wastewater Valve") {
            Ok(AssetKind::Valve)
        } else {
            Err(Error::Hint(join("Unrecognized EventKind: ", s)))
        }
    }
}

/// The kinds of maintenance.
#[derive(Debug, Clone, Copy, PartialEq, Eq, PartialOrd, Ord, Hash, Structural)]
pub enum Maintenance {
    Annual,
    Capital,
    Disposal,
    Emergency,
    Expansion,
    Inspection,
    Monthly,
    Operate,
    Quarterly,
    Regular,
    Replace,
    SemiAnnual,
    Upgrade,
    Weekly,
}

impl Default for Maintenance {
    fn default() -> (r: Self)
        ensures
            r == Maintenance::Regular,
    {
        Maintenance::Regular
    }
}

impl Maintenance {
    /// The name of the value.
    pub open spec fn label(self) -> Seq<char> {
        match self {
            Maintenance::Annual => "Annual"@,
            Maintenance::Capital => "Capital"@,
            Maintenance::Disposal => "Disposal"@,
            Maintenance::Emergency => "Emergency"@,
            Maintenance::Expansion => "Expansion"@,
            Maintenance::Inspection => "Inspection"@,
            Maintenance::Monthly => "Monthly"@,
            Maintenance::Operate => "Operate"@,
            Maintenance::Quarterly => "Quarterly"@,
            Maintenance::Regular => "Regular"@,
            Maintenance::Replace => "Replace"@,
            Maintenance::SemiAnnual => "SemiAnnual"@,
            Maintenance::Upgrade => "Upgrade"@,
            Maintenance::Weekly => "Weekly"@,
        }
    }

    /// The name of the value.
    pub fn to_string(&self) -> (r: String)
        ensures
            r@ == self.label(),
    {
        match self {
            Maintenance::Annual => "Annual".to_owned(),
            Maintenance::Capital => "Capital".to_owned(),
            Maintenance::Disposal => "Disposal".to_owned(),
            Maintenance::Emergency => "Emergency".to_owned(),
            Maintenance::Expansion => "Expansion".to_owned(),
            Maintenance::Inspection => "Inspection".to_owned(),
            Maintenance::Monthly => "Monthly".to_owned(),
            Maintenance::Operate => "Operate".to_owned(),
            Maintenance::Quarterly => "Quarterly".to_owned(),
            Maintenance::Regular => "Regular".to_owned(),
            Maintenance::Replace => "Replace".to_owned(),
            Maintenance::SemiAnnual => "SemiAnnual".to_owned(),
            Maintenance::Upgrade => "Upgrade".to_owned(),
            Maintenance::Weekly => "Weekly".to_owned(),
        }
    }
}

impl Maintenance {
    /// The kind of maintenance that a text names, if it names one.
    pub open spec fn named(s: Seq<char>) -> Option<Maintenance> {
        if s == "Annual Maintenance"@ {
            Some(Maintenance::Annual)
        } else if s == "Maintenance (Capital) "@ {
            Some(Maintenance::Capital)
        } else if s == "Disposal"@ {
            Some(Maintenance::Disposal)
        } else if s == "Maintenance (Emergency)"@ {
            Some(Maintenance::Emergency)
        } else if s == "Emergency Inspection"@ {
            Some(Maintenance::Emergency)
        } else if s == "Expansion"@ {
            Some(Maintenance::Expansion)
        } else if s == "Inspection"@ {
            Some(Maintenance::Inspection)
        } else if s == "Problem Inspection"@ {
            Some(Maintenance::Inspection)
        } else if s == "Routine Inspection"@ {
            Some(Maintenance::Inspection)
        } else if s == "Monthly Maintenance"@ {
            Some(Maintenance::Monthly)
        } else if s == "Operate"@ {
            Some(Maintenance::Operate)
        } else if s == "Quarterly Maintenance"@ {
            Some(Maintenance::Quarterly)
        } else if s == "Maintenance (Regular)"@ {
            Some(Maintenance::Regular)
        } else if s == "Replace"@ {
            Some(Maintenance::Replace)
        } else if s == "Semi-Annual Maintenance"@ {
            Some(Maintenance::SemiAnnual)
        } else if s == "Upgrade"@ {
            Some(Maintenance::Upgrade)
        } else if s == "Weekly Maintenance"@ {
            Some(Maintenance::Weekly)
        } else {
            None
        }
    }

    /// The kind of maintenance that a text names, if it names one. Any other text is an error that names it.
    pub open spec fn read(s: Seq<char>) -> Result<Maintenance, ErrorView> {
        match Maintenance::named(s) {
            Some(value) => Ok(value),
            None => Err(ErrorView::Hint("Unrecognized EventKind: "@ + s)),
        }
    }

    /// Reads the kind of maintenance.
    pub fn from_str(s: &str) -> (r: Result<Self, Error>)
        ensures
            match r {
                Ok(value) => Maintenance::read(s@) == Ok::<Maintenance, ErrorView>(value),
                Err(e) => Maintenance::read(s@) == Err::<Maintenance, ErrorView>(e@),
            },
    {
        if same(s, "Annual Maintenance") {
            Ok(Maintenance::Annual)
        } else if same(s, "Maintenance (Capital) ") {
            Ok(Maintenance::Capital)
        } else if same(s, "Disposal") {
            Ok(Maintenance::Disposal)
        } else if same(s, "Maintenance (Emergency)") {
            Ok(Maintenance::Emergency)
        } else if same(s, "Emergency Inspection") {
            Ok(Maintenance::Emergency)
        } else if same(s, "Expansion") {
            Ok(Maintenance::Expansion)
        } else if same(s, "Inspection") {
            Ok(Maintenance::Inspection)
        } else if same(s, "Problem Inspection") {
            Ok(Maintenance::Inspection)
        } else if same(s, "Routine Inspection") {
            Ok(Maintenance::Inspection)
        } else if same(s, "Monthly Maintenance") {
            Ok(Maintenance::Monthly)
        } else if same(s, "Operate") {
            Ok(Maintenance::Operate)
        } else if same(s, "Quarterly Maintenance") {
            Ok(Maintenance::Quarterly)
        } else if same(s, "Maintenance (Regular)") {
            Ok(Maintenance::Regular)
        } else if same(s, "Replace") {
            Ok(Maintenance::Replace)
        } else if same(s, "Semi-Annual Maintenance") {
            Ok(Maintenance::SemiAnnual)
        } else if same(s, "Upgrade") {
            Ok(Maintenance::Upgrade)
        } else if same(s, "Weekly Maintenance") {
            Ok(Maintenance::Weekly)
        } else {
            Err(Error::Hint(join("Unrecognized EventKind: ", s)))
        }
    }

    /// The kind of maintenance that a text names, if it names one. There is none where there is no text, or where the text names
    /// none.
    pub open spec fn raw_of(s: Option<Seq<char>>) -> Option<Maintenance> {
        match s {
            Some(value) => Maintenance::named(value),
            None => None,
        }
    }

    /// Reads the kind of maintenance.
    pub fn from_raw(s: &Option<String>) -> (r: Option<Self>)
        ensures
            r == Maintenance::raw_of(opt_text(*s)),
    {
        match s {
            Some(value) => match Maintenance::from_str(value.as_str()) {
                Ok(result) => Some(result),
                Err(_) => None,
            },
            None => None,
        }
    }
}

/// How urgent an event is.
#[derive(Debug, Clone, Copy, PartialEq, Eq, PartialOrd, Ord, Hash, Structural)]
pub enum Priority {
    High,
    MediumHigh,
    Medium,
    MediumLow,
    Low,
}

impl Default for Priority {
    fn default() -> (r: Self)
        ensures
            r == Priority::Medium,
    {
        Priority::Medium
    }
}

impl Priority {
    /// The name of the value.
    pub open spec fn label(self) -> Seq<char> {
        match self {
            Priority::High => "High"@,
            Priority::MediumHigh => "MediumHigh"@,
            Priority::Medium => "Medium"@,
            Priority::MediumLow => "MediumLow"@,
            Priority::Low => "Low"@,
        }
    }

    /// The name of the value.
    pub fn to_string(&self) -> (r: String)
        ensures
            r@ == self.label(),
    {
        match self {
            Priority::High => "High".to_owned(),
            Priority::MediumHigh => "MediumHigh".to_owned(),
            Priority::Medium => "Medium".to_owned(),
            Priority::MediumLow => "MediumLow".to_owned(),
            Priority::Low => "Low".to_owned(),
        }
    }
}

impl Priority {
    /// The priority that a text names, if it names one.
    pub open spec fn named(s: Seq<char>) -> Option<Priority> {
        if s == "1 - High"@ {
            Some(Priority::High)
        } else if s == "2"@ {
            Some(Priority::MediumHigh)
        } else if s == "3"@ {
            Some(Priority::Medium)
        } else if s == "4"@ {
            Some(Priority::MediumLow)
        } else if s == "5 - Low"@ {
            Some(Priority::Low)
        } else {
            None
        }
    }

    /// The priority that a text names, if it names one. Any other text is an error that names it.
    pub open spec fn read(s: Seq<char>) -> Result<Priority, ErrorView> {
        match Priority::named(s) {
            Some(value) => Ok(value),
            None => Err(ErrorView::Hint("Unrecognized Priority: "@ + s)),
        }
    }

    /// Reads a priority.
    pub fn from_str(s: &str) -> (r: Result<Self, Error>)
        ensures
            match r {
                Ok(value) => Priority::read(s@) == Ok::<Priority, ErrorView>(value),
                Err(e) => Priority::read(s@) == Err::<Priority, ErrorView>(e@),
            },
    {
        if same(s, "1 - High") {
            Ok(Priority::High)
        } else if same(s, "2") {
            Ok(Priority::MediumHigh)
        } else if same(s, "3") {
            Ok(Priority::Medium)
        } else if same(s, "4") {
            Ok(Priority::MediumLow)
        } else if same(s, "5 - Low") {
            Ok(Priority::Low)
        } else {
            Err(Error::Hint(join("Unrecognized Priority: ", s)))
        }
    }
}

/// How far the work of an event has come.
#[derive(Debug, Clone, Copy, PartialEq, Eq, PartialOrd, Ord, Hash, Structural)]
pub enum Status {
    Complete,
    InProgress,
    OnHold,
}

impl Default for Status {
    fn default() -> (r: Self)
        ensures
            r == Status::Complete,
    {
        Status::Complete
    }
}

impl Status {
    /// The name of the value.
    pub open spec fn label(self) -> Seq<char> {
        match self {
            Status::Complete => "Complete"@,
            Status::InProgress => "InProgress"@,
            Status::OnHold => "OnHold"@,
        }
    }

    /// The name of the value.
    pub fn to_string(&self) -> (r: String)
        ensures
            r@ == self.label(),
    {
        match self {
            Status::Complete => "Complete".to_owned(),
            Status::InProgress => "InProgress".to_owned(),
            Status::OnHold => "OnHold".to_owned(),
        }
    }
}

impl Status {
    /// The status that a text names, if it names one.
    pub open spec fn named(s: Seq<char>) -> Option<Status> {
        if s == "Complete"@ {
            Some(Status::Complete)
        } else if s == "In Progress"@ {
            Some(Status::InProgress)
        } else if s == "On Hold"@ {
            Some(Status::OnHold)
        } else {
            None
        }
    }

    /// The status that a text names, if it names one. Any other text is an error that names it.
    pub open spec fn read(s: Seq<char>) -> Result<Status, ErrorView> {
        match Status::named(s) {
            Some(value) => Ok(value),
            None => Err(ErrorView::Hint("Unrecognized Status: "@ + s)),
        }
    }

    /// Reads a status.
    pub fn from_str(s: &str) -> (r: Result<Self, Error>)
        ensures
            match r {
                Ok(value) => Status::read(s@) == Ok::<Status, ErrorView>(value),
                Err(e) => Status::read(s@) == Err::<Status, ErrorView>(e@),
            },
    {
        if same(s, "Complete") {
            Ok(Status::Complete)
        } else if same(s, "In Progress") {
            Ok(Status::InProgress)
        } else if same(s, "On Hold") {
            Ok(Status::OnHold)
        } else {
            Err(Error::Hint(join("Unrecognized Status: ", s)))
        }
    }

    /// The status that a text names, if it names one. There is none where there is no text, or where the text names
    /// none.
    pub open spec fn raw_of(s: Option<Seq<char>>) -> Option<Status> {
        match s {
            Some(value) => Status::named(value),
            None => None,
        }
    }

    /// Reads a status.
    pub fn from_raw(s: &Option<String>) -> (r: Option<Self>)
        ensures
            r == Status::raw_of(opt_text(*s)),
    {
        match s {
            Some(value) => match Status::from_str(value.as_str()) {
                Ok(result) => Some(result),
                Err(_) => None,
            },
            None => None,
        }
    }
}

/// An event as the asset management system hands it out: every field a text.
#[derive(Debug, PartialEq)]
pub struct EventRaw {
    /// The identifier of the asset.
    pub asset_id: String,
    /// The kind of the asset.
    pub asset_kind: String,
    /// Who the work is assigned to.
    pub assigned_to: String,
    /// Who recorded the event.
    pub created_by: String,
    /// When the event was recorded.
    pub create_date: String,
    /// The kind of maintenance.
    pub maintenance: Option<String>,
    /// When the record was last changed.
    pub modify_date: String,
    /// Who last changed the record.
    pub modified_by: String,
    /// The name of the event.
    pub name: String,
    /// Notes on the event.
    pub notes: Option<String>,
    /// The kind of the event.
    pub kind: String,
    /// The day the work is planned for.
    pub plan_date: String,
    /// How urgent the work is.
    pub priority: String,
    /// The time of day the work is scheduled for.
    pub schedule_time: String,
    /// How far the work has come.
    pub status: Option<String>,
}

/// What an event as it is handed out holds.
pub struct EventRawView {
    pub asset_id: Seq<char>,
    pub asset_kind: Seq<char>,
    pub assigned_to: Seq<char>,
    pub created_by: Seq<char>,
    pub create_date: Seq<char>,
    pub maintenance: Option<Seq<char>>,
    pub modify_date: Seq<char>,
    pub modified_by: Seq<char>,
    pub name: Seq<char>,
    pub notes: Option<Seq<char>>,
    pub kind: Seq<char>,
    pub plan_date: Seq<char>,
    pub priority: Seq<char>,
    pub schedule_time: Seq<char>,
    pub status: Option<Seq<char>>,
}

impl View for EventRaw {
    type V = EventRawView;

    open spec fn view(&self) -> EventRawView {
        EventRawView {
            asset_id: self.asset_id@,
            asset_kind: self.asset_kind@,
            assigned_to: self.assigned_to@,
            created_by: self.created_by@,
            create_date: self.create_date@,
            maintenance: opt_text(self.maintenance),
            modify_date: self.modify_date@,
            modified_by: self.modified_by@,
            name: self.name@,
            notes: opt_text(self.notes),
            kind: self.kind@,
            plan_date: self.plan_date@,
            priority: self.priority@,
            schedule_time: self.schedule_time@,
            status: opt_text(self.status),
        }
    }
}

impl Clone for EventRaw {
    fn clone(&self) -> (r: Self)
        ensures
            r@ == self@,
    {
        EventRaw {
            asset_id: self.asset_id.clone(),
            asset_kind: self.asset_kind.clone(),
            assigned_to: self.assigned_to.clone(),
            created_by: self.created_by.clone(),
            create_date: self.create_date.clone(),
            maintenance: clone_opt(&self.maintenance),
            modify_date: self.modify_date.clone(),
            modified_by: self.modified_by.clone(),
            name: self.name.clone(),
            notes: clone_opt(&self.notes),
            kind: self.kind.clone(),
            plan_date: self.plan_date.clone(),
            priority: self.priority.clone(),
            schedule_time: self.schedule_time.clone(),
            status: clone_opt(&self.status),
        }
    }
}

/// Events as the asset management system hands them out.
#[derive(Debug, PartialEq)]
pub struct EventsRaw(pub Vec<EventRaw>);

impl View for EventsRaw {
    type V = Seq<EventRawView>;

    open spec fn view(&self) -> Seq<EventRawView> {
        Seq::new(self.0@.len(), |i: int| self.0@[i]@)
    }
}

impl Clone for EventsRaw {
    fn clone(&self) -> (r: Self)
        ensures
            r@ == self@,
    {
        let mut items: Vec<EventRaw> = Vec::new();
        let mut i: usize = 0;
        while i < self.0.len()
            invariant
                i <= self.0.len(),
                items@.len() == i,
                forall|k: int| 0 <= k < i ==> (#[trigger] items@[k])@ == self.0@[k]@,
            decreases self.0.len() - i,
        {
            items.push(self.0[i].clone());
            i = i + 1;
        }
        let r = EventsRaw(items);
        assert(r@ =~= self@);
        r
    }
}

impl EventsRaw {
    /// The list of the given events.
    pub fn new(items: Vec<EventRaw>) -> (r: Self)
        ensures
            r.0 == items,
    {
        EventsRaw(items)
    }

    /// How many events there are.
    pub fn len(&self) -> (r: usize)
        ensures
            r == self@.len(),
    {
        self.0.len()
    }
}

/// An event: work that was planned or done on an asset.
#[derive(Debug, PartialEq)]
pub struct Event {
    /// The identifier of the asset.
    asset_id: String,
    /// The kind of the asset.
    asset_kind: AssetKind,
    /// Who the work is assigned to.
    assigned_to: String,
    /// The camera inspection that goes with the event, if one was found.
    cctv: Option<Inspection>,
    /// Who recorded the event.
    created_by: String,
    /// When the event was recorded.
    create_date: DateTime,
    /// The kind of maintenance.
    maintenance: Option<Maintenance>,
    /// Where the card of the manhole lies, if one was found.
    manhole_card: Option<std::path::PathBuf>,
    /// When the record was last changed.
    modify_date: DateTime,
    /// Who last changed the record.
    modified_by: String,
    /// The name of the event.
    name: String,
    /// Notes on the event.
    notes: Option<String>,
    /// The kind of the event.
    kind: EventKind,
    /// The day the work is planned for.
    plan_date: Date,
    /// How urgent the work is.
    priority: Priority,
    /// The time of day the work is scheduled for.
    schedule_time: Time,
    /// How far the work has come.
    status: Option<Status>,
}

/// What an event holds.
pub struct EventView {
    pub asset_id: Seq<char>,
    pub asset_kind: AssetKind,
    pub assigned_to: Seq<char>,
    pub cctv: Option<InspectionView>,
    pub created_by: Seq<char>,
    pub create_date: ((i16, i8, i8), (i8, i8, i8, i32)),
    pub maintenance: Option<Maintenance>,
    pub manhole_card: Option<std::path::PathBuf>,
    pub modify_date: ((i16, i8, i8), (i8, i8, i8, i32)),
    pub modified_by: Seq<char>,
    pub name: Seq<char>,
    pub notes: Option<Seq<char>>,
    pub kind: EventKind,
    pub plan_date: (i16, i8, i8),
    pub priority: Priority,
    pub schedule_time: (i8, i8, i8, i32),
    pub status: Option<Status>,
}

impl View for Event {
    type V = EventView;

    closed spec fn view(&self) -> EventView {
        EventView {
            asset_id: self.asset_id@,
            asset_kind: self.asset_kind,
            assigned_to: self.assigned_to@,
            cctv: match self.cctv { Some(x) => Some(x@), None => None },
            created_by: self.created_by@,
            create_date: self.create_date@,
            maintenance: self.maintenance,
            manhole_card: self.manhole_card,
            modify_date: self.modify_date@,
            modified_by: self.modified_by@,
            name: self.name@,
            notes: opt_text(self.notes),
            kind: self.kind,
            plan_date: self.plan_date@,
            priority: self.priority,
            schedule_time: self.schedule_time@,
            status: self.status,
        }
    }
}

impl Clone for Event {
    fn clone(&self) -> (r: Self)
        ensures
            r@ == self@,
    {
        Event {
            asset_id: self.asset_id.clone(),
            asset_kind: self.asset_kind,
            assigned_to: self.assigned_to.clone(),
            cctv: match &self.cctv { Some(x) => Some(x.clone()), None => None },
            created_by: self.created_by.clone(),
            create_date: self.create_date,
            maintenance: self.maintenance,
            manhole_card: clone_opt_path(&self.manhole_card),
            modify_date: self.modify_date,
            modified_by: self.modified_by.clone(),
            name: self.name.clone(),
            notes: clone_opt(&self.notes),
            kind: self.kind,
            plan_date: self.plan_date,
            priority: self.priority,
            schedule_time: self.schedule_time,
            status: self.status,
        }
    }
}

impl Event {
    /// The identifier of the asset.
    pub fn asset_id(&self) -> (r: &String)
        ensures
            (*r)@ == self@.asset_id,
    {
        &self.asset_id
    }

    /// The kind of the asset.
    pub fn asset_kind(&self) -> (r: &AssetKind)
        ensures
            *r == self@.asset_kind,
    {
        &self.asset_kind
    }

    /// Who the work is assigned to.
    pub fn assigned_to(&self) -> (r: &String)
        ensures
            (*r)@ == self@.assigned_to,
    {
        &self.assigned_to
    }

    /// The camera inspection that goes with the event, if one was found.
    pub fn cctv(&self) -> (r: &Option<Inspection>)
        ensures
            match (*r) { Some(x) => Some(x@), None => None } == self@.cctv,
    {
        &self.cctv
    }

    /// Who recorded the event.
    pub fn created_by(&self) -> (r: &String)
        ensures
            (*r)@ == self@.created_by,
    {
        &self.created_by
    }

    /// When the event was recorded.
    pub fn create_date(&self) -> (r: &DateTime)
        ensures
            (*r)@ == self@.create_date,
    {
        &self.create_date
    }

    /// The kind of maintenance.
    pub fn maintenance(&self) -> (r: &Option<Maintenance>)
        ensures
            *r == self@.maintenance,
    {
        &self.maintenance
    }

    /// Where the card of the manhole lies, if one was found.
    pub fn manhole_card(&self) -> (r: &Option<std::path::PathBuf>)
        ensures
            *r == self@.manhole_card,
    {
        &self.manhole_card
    }

    /// When the record was last changed.
    pub fn modify_date(&self) -> (r: &DateTime)
        ensures
            (*r)@ == self@.modify_date,
    {
        &self.modify_date
    }

    /// Who last changed the record.
    pub fn modified_by(&self) -> (r: &String)
        ensures
            (*r)@ == self@.modified_by,
    {
        &self.modified_by
    }

    /// The name of the event.
    pub fn name(&self) -> (r: &String)
        ensures
            (*r)@ == self@.name,
    {
        &self.name
    }

    /// Notes on the event.
    pub fn notes(&self) -> (r: &Option<String>)
        ensures
            opt_text((*r)) == self@.notes,
    {
        &self.notes
    }

    /// The kind of the event.
    pub fn kind(&self) -> (r: &EventKind)
        ensures
            *r == self@.kind,
    {
        &self.kind
    }

    /// The day the work is planned for.
    pub fn plan_date(&self) -> (r: &Date)
        ensures
            (*r)@ == self@.plan_date,
    {
        &self.plan_date
    }

    /// How urgent the work is.
    pub fn priority(&self) -> (r: &Priority)
        ensures
            *r == self@.priority,
    {
        &self.priority
    }

    /// The time of day the work is scheduled for.
    pub fn schedule_time(&self) -> (r: &Time)
        ensures
            (*r)@ == self@.schedule_time,
    {
        &self.schedule_time
    }

    /// How far the work has come.
    pub fn status(&self) -> (r: &Option<Status>)
        ensures
            *r == self@.status,
    {
        &self.status
    }

    /// The same, but with another value for: the identifier of the asset.
    pub fn with_asset_id(self, value: String) -> (r: Self)
        ensures
            r@ == (EventView { asset_id: value@, ..self@ }),
    {
        let mut r = self;
        r.asset_id = value;
        r
    }

    /// The same, but with another value for: the kind of the asset.
    pub fn with_asset_kind(self, value: AssetKind) -> (r: Self)
        ensures
            r@ == (EventView { asset_kind: value, ..self@ }),
    {
        let mut r = self;
        r.asset_kind = value;
        r
    }

    /// The same, but with another value for: who the work is assigned to.
    pub fn with_assigned_to(self, value: String) -> (r: Self)
        ensures
            r@ == (EventView { assigned_to: value@, ..self@ }),
    {
        let mut r = self;
        r.assigned_to = value;
        r
    }

    /// The same, but with another value for: the camera inspection that goes with the event, if one was found.
    pub fn with_cctv(self, value: Option<Inspection>) -> (r: Self)
        ensures
            r@ == (EventView { cctv: match value { Some(x) => Some(x@), None => None }, ..self@ }),
    {
        let mut r = self;
        r.cctv = value;
        r
    }

    /// The same, but with another value for: who recorded the event.
    pub fn with_created_by(self, value: String) -> (r: Self)
        ensures
            r@ == (EventView { created_by: value@, ..self@ }),
    {
        let mut r = self;
        r.created_by = value;
        r
    }

    /// The same, but with another value for: when the event was recorded.
    pub fn with_create_date(self, value: DateTime) -> (r: Self)
        ensures
            r@ == (EventView { create_date: value@, ..self@ }),
    {
        let mut r = self;
        r.create_date = value;
        r
    }

    /// The same, but with another value for: the kind of maintenance.
    pub fn with_maintenance(self, value: Option<Maintenance>) -> (r: Self)
        ensures
            r@ == (EventView { maintenance: value, ..self@ }),
    {
        let mut r = self;
        r.maintenance = value;
        r
    }

    /// The same, but with another value for: where the card of the manhole lies, if one was found.
    pub fn with_manhole_card(self, value: Option<std::path::PathBuf>) -> (r: Self)
        ensures
            r@ == (EventView { manhole_card: value, ..self@ }),
    {
        let mut r = self;
        r.manhole_card = value;
        r
    }

    /// The same, but with another value for: when the record was last changed.
    pub fn with_modify_date(self, value: DateTime) -> (r: Self)
        ensures
            r@ == (EventView { modify_date: value@, ..self@ }),
    {
        let mut r = self;
        r.modify_date = value;
        r
    }

    /// The same, but with another value for: who last changed the record.
    pub fn with_modified_by(self, value: String) -> (r: Self)
        ensures
            r@ == (EventView { modified_by: value@, ..self@ }),
    {
        let mut r = self;
        r.modified_by = value;
        r
    }

    /// The same, but with another value for: the name of the event.
    pub fn with_name(self, value: String) -> (r: Self)
        ensures
            r@ == (EventView { name: value@, ..self@ }),
    {
        let mut r = self;
        r.name = value;
        r
    }

    /// The same, but with another value for: notes on the event.
    pub fn with_notes(self, value: Option<String>) -> (r: Self)
        ensures
            r@ == (EventView { notes: opt_text(value), ..self@ }),
    {
        let mut r = self;
        r.notes = value;
        r
    }

    /// The same, but with another value for: the kind of the event.
    pub fn with_kind(self, value: EventKind) -> (r: Self)
        ensures
            r@ == (EventView { kind: value, ..self@ }),
    {
        let mut r = self;
        r.kind = value;
        r
    }

    /// The same, but with another value for: the day the work is planned for.
    pub fn with_plan_date(self, value: Date) -> (r: Self)
        ensures
            r@ == (EventView { plan_date: value@, ..self@ }),
    {
        let mut r = self;
        r.plan_date = value;
        r
    }

    /// The same, but with another value for: how urgent the work is.
    pub fn with_priority(self, value: Priority) -> (r: Self)
        ensures
            r@ == (EventView { priority: value, ..self@ }),
    {
        let mut r = self;
        r.priority = value;
        r
    }

    /// The same, but with another value for: the time of day the work is scheduled for.
    pub fn with_schedule_time(self, value: Time) -> (r: Self)
        ensures
            r@ == (EventView { schedule_time: value@, ..self@ }),
    {
        let mut r = self;
        r.schedule_time = value;
        r
    }

    /// The same, but with another value for: how far the work has come.
    pub fn with_status(self, value: Option<Status>) -> (r: Self)
        ensures
            r@ == (EventView { status: value, ..self@ }),
    {
        let mut r = self;
        r.status = value;
        r
    }
}

/// The events of a network.
#[derive(Debug, PartialEq)]
pub struct Events(pub Vec<Event>);

impl View for Events {
    type V = Seq<EventView>;

    open spec fn view(&self) -> Seq<EventView> {
        Seq::new(self.0@.len(), |i: int| self.0@[i]@)
    }
}

impl Clone for Events {
    fn clone(&self) -> (r: Self)
        ensures
            r@ == self@,
    {
        let mut items: Vec<Event> = Vec::new();
        let mut i: usize = 0;
        while i < self.0.len()
            invariant
                i <= self.0.len(),
                items@.len() == i,
                forall|k: int| 0 <= k < i ==> (#[trigger] items@[k])@ == self.0@[k]@,
            decreases self.0.len() - i,
        {
            items.push(self.0[i].clone());
            i = i + 1;
        }
        let r = Events(items);
        assert(r@ =~= self@);
        r
    }
}

impl Events {
    /// The list of the given events.
    pub fn new(items: Vec<Event>) -> (r: Self)
        ensures
            r.0 == items,
    {
        Events(items)
    }

    /// How many events there are.
    pub fn len(&self) -> (r: usize)
        ensures
            r == self@.len(),
    {
        self.0.len()
    }
}

/// The event that a record of texts stands for, or the first thing that
/// cannot be read in it: the two moments, the kind of asset, the kind of
/// event, the planned day and the priority, in this order. A kind of
/// maintenance or a status that names none is left out, and a time that
/// cannot be read is taken for midnight.
pub open spec fn event_of(raw: EventRawView) -> Result<EventView, ErrorView> {
    match datetime_of(raw.create_date) {
        Err(e) => Err(e@),
        Ok((_, create_date)) => match datetime_of(raw.modify_date) {
            Err(e) => Err(e@),
            Ok((_, modify_date)) => match AssetKind::read(raw.asset_kind) {
                Err(e) => Err(e),
                Ok(asset_kind) => match EventKind::read(raw.kind) {
                    Err(e) => Err(e),
                    Ok(kind) => match mdy_of(raw.plan_date) {
                        Err(e) => Err(e@),
                        Ok((_, plan_date)) => match Priority::read(raw.priority) {
                            Err(e) => Err(e),
                            Ok(priority) => Ok(
                                EventView {
                                    asset_id: raw.asset_id,
                                    asset_kind,
                                    assigned_to: raw.assigned_to,
                                    cctv: None,
                                    created_by: raw.created_by,
                                    create_date,
                                    maintenance: Maintenance::raw_of(raw.maintenance),
                                    manhole_card: None,
                                    modify_date,
                                    modified_by: raw.modified_by,
                                    name: raw.name,
                                    notes: raw.notes,
                                    kind,
                                    plan_date,
                                    priority,
                                    schedule_time: match hm12_of(raw.schedule_time) {
                                        Ok((_, time)) => time,
                                        Err(_) => (0i8, 0i8, 0i8, 0i32),
                                    },
                                    status: Status::raw_of(raw.status),
                                },
                            ),
                        },
                    },
                },
            },
        },
    }
}

/// The events that records of texts stand for: those that can be read, in
/// their order.
pub open spec fn events_of(raw: Seq<EventRawView>) -> Seq<EventView>
    decreases raw.len(),
{
    if raw.len() == 0 {
        Seq::empty()
    } else {
        match event_of(raw.last()) {
            Ok(event) => events_of(raw.drop_last()).push(event),
            Err(_) => events_of(raw.drop_last()),
        }
    }
}

/// Whether a camera inspection goes with an event: it is of the asset of
/// the event, and was made on the day the work was planned for, or on the
/// day the event was recorded or last changed.
pub open spec fn goes_with(report: InspectionView, event: EventView) -> bool {
    report.asset.asset_id == event.asset_id && (report.file.date == event.plan_date
        || report.file.date == event.create_date.0 || report.file.date == event.modify_date.0)
}

/// The event once for each inspection that goes with it, in the order of
/// the inspections.
pub open spec fn reported(event: EventView, reports: Seq<InspectionView>) -> Seq<EventView>
    decreases reports.len(),
{
    if reports.len() == 0 {
        Seq::empty()
    } else if goes_with(reports.last(), event) {
        reported(event, reports.drop_last()).push(
            EventView { cctv: Some(reports.last()), ..event },
        )
    } else {
        reported(event, reports.drop_last())
    }
}

/// The event once for each inspection that goes with it, or the event as it
/// is where none does.
pub open spec fn with_reports(event: EventView, reports: Seq<InspectionView>) -> Seq<EventView> {
    if reported(event, reports).len() == 0 {
        seq![event]
    } else {
        reported(event, reports)
    }
}

/// All events, each with its reports, one after the other.
pub open spec fn all_with_reports(events: Seq<EventView>, reports: Seq<InspectionView>) -> Seq<
    EventView,
>
    decreases events.len(),
{
    if events.len() == 0 {
        Seq::empty()
    } else {
        all_with_reports(events.drop_last(), reports) + with_reports(events.last(), reports)
    }
}

/// The place of the first card of the asset with the given identifier, or
/// the number of cards where there is none.
pub open spec fn first_card_of(cards: Seq<ManholeCardView>, id: Seq<char>) -> int
    decreases cards.len(),
{
    if cards.len() == 0 {
        0
    } else if cards.first().asset.asset_id == id {
        0
    } else {
        1 + first_card_of(cards.drop_first(), id)
    }
}

/// Where no card before a place is of the asset, the first that is one is
/// not before that place.
pub proof fn lemma_first_card_of(cards: Seq<ManholeCardView>, id: Seq<char>, i: int)
    requires
        0 <= i <= cards.len(),
        forall|k: int| 0 <= k < i ==> cards[k].asset.asset_id != id,
    ensures
        0 <= first_card_of(cards, id) <= cards.len(),
        i < cards.len() && cards[i].asset.asset_id == id ==> first_card_of(cards, id) == i,
        i == cards.len() ==> first_card_of(cards, id) == i,
    decreases cards.len(),
{
    if cards.len() > 0 {
        let rest = cards.drop_first();
        if i > 0 {
            assert(cards[0].asset.asset_id != id);
            assert forall|k: int| 0 <= k < i - 1 implies rest[k].asset.asset_id != id by {
                assert(rest[k] == cards[k + 1]);
            }
            lemma_first_card_of(rest, id, i - 1);
            if i < cards.len() {
                assert(rest[i - 1] == cards[i]);
            }
        } else {
            lemma_first_card_of(rest, id, 0);
        }
    }
}

/// The event with the card of its asset, if there is one: the first of the
/// cards is taken.
pub open spec fn with_card(event: EventView, cards: Seq<ManholeCardView>) -> EventView {
    if first_card_of(cards, event.asset_id) < cards.len() {
        EventView { manhole_card: Some(cards[first_card_of(cards, event.asset_id)].path), ..event }
    } else {
        event
    }
}

/// The events of the devices they are about: each event with the first device that
/// goes by the identifier of its asset, and nothing for an event without one.
pub open spec fn device_events(events: Seq<EventView>, assets: Seq<device::DeviceView>) -> Seq<DeviceEventView>
    decreases events.len(),
{
    if events.len() == 0 {
        Seq::empty()
    } else {
        let before = device_events(events.drop_last(), assets);
        let at = device::first_known_as(assets, events.last().asset_id);
        if at < assets.len() {
            before.push(DeviceEventView { asset: assets[at], event: events.last() })
        } else {
            before
        }
    }
}

/// The events of the lines they are about: each event with the first line that
/// goes by the identifier of its asset, and nothing for an event without one.
pub open spec fn line_events(events: Seq<EventView>, assets: Seq<line::LineView>) -> Seq<LineEventView>
    decreases events.len(),
{
    if events.len() == 0 {
        Seq::empty()
    } else {
        let before = line_events(events.drop_last(), assets);
        let at = line::first_known_as(assets, events.last().asset_id);
        if at < assets.len() {
            before.push(LineEventView { asset: assets[at], event: events.last() })
        } else {
            before
        }
    }
}

/// The events of the junctions they are about: each event with the first junction that
/// goes by the identifier of its asset, and nothing for an event without one.
pub open spec fn junction_events(events: Seq<EventView>, assets: Seq<junction::JunctionView>) -> Seq<JunctionEventView>
    decreases events.len(),
{
    if events.len() == 0 {
        Seq::empty()
    } else {
        let before = junction_events(events.drop_last(), assets);
        let at = junction::first_known_as(assets, events.last().asset_id);
        if at < assets.len() {
            before.push(JunctionEventView { asset: assets[at], event: events.last() })
        } else {
            before
        }
    }
}

impl Event {
    /// The event with the given parts.
    pub fn new(
        asset_id: String,
        asset_kind: AssetKind,
        assigned_to: String,
        created_by: String,
        create_date: DateTime,
        modify_date: DateTime,
        modified_by: String,
        name: String,
        kind: EventKind,
        plan_date: Date,
        priority: Priority,
        schedule_time: Time,
    ) -> (r: Self)
        ensures
            r@ == (EventView {
                asset_id: asset_id@,
                asset_kind,
                assigned_to: assigned_to@,
                cctv: None,
                created_by: created_by@,
                create_date: create_date@,
                maintenance: None,
                manhole_card: None,
                modify_date: modify_date@,
                modified_by: modified_by@,
                name: name@,
                notes: None,
                kind,
                plan_date: plan_date@,
                priority,
                schedule_time: schedule_time@,
                status: None,
            }),
    {
        Event {
            asset_id,
            asset_kind,
            assigned_to,
            cctv: None,
            created_by,
            create_date,
            maintenance: None,
            manhole_card: None,
            modify_date,
            modified_by,
            name,
            notes: None,
            kind,
            plan_date,
            priority,
            schedule_time,
            status: None,
        }
    }

    /// The event with the device it is about: the first that goes by the
    /// identifier of its asset, now or before.
    pub fn from_device(&self, devices: &device::Devices) -> (r: Option<DeviceEvent>)
        ensures
            match r {
                Some(found) => device::first_known_as(devices@, self@.asset_id) < devices@.len() && found@
                    == (DeviceEventView {
                    asset: devices@[device::first_known_as(devices@, self@.asset_id)],
                    event: self@,
                }),
                None => device::first_known_as(devices@, self@.asset_id) == devices@.len(),
            },
    {
        match devices.find(&self.asset_id) {
            Some(asset) => Some(DeviceEvent::new(asset.clone(), self.clone())),
            None => None,
        }
    }

    /// The event with the line it is about: the first that goes by the
    /// identifier of its asset, now or before.
    pub fn from_line(&self, lines: &line::Lines) -> (r: Option<LineEvent>)
        ensures
            match r {
                Some(found) => line::first_known_as(lines@, self@.asset_id) < lines@.len() && found@
                    == (LineEventView {
                    asset: lines@[line::first_known_as(lines@, self@.asset_id)],
                    event: self@,
                }),
                None => line::first_known_as(lines@, self@.asset_id) == lines@.len(),
            },
    {
        match lines.find(&self.asset_id) {
            Some(asset) => Some(LineEvent::new(asset.clone(), self.clone())),
            None => None,
        }
    }

    /// The event with the junction it is about: the first that goes by the
    /// identifier of its asset, now or before.
    pub fn from_junction(&self, junctions: &junction::Junctions) -> (r: Option<JunctionEvent>)
        ensures
            match r {
                Some(found) => junction::first_known_as(junctions@, self@.asset_id) < junctions@.len() && found@
                    == (JunctionEventView {
                    asset: junctions@[junction::first_known_as(junctions@, self@.asset_id)],
                    event: self@,
                }),
                None => junction::first_known_as(junctions@, self@.asset_id) == junctions@.len(),
            },
    {
        match junctions.find(&self.asset_id) {
            Some(asset) => Some(JunctionEvent::new(asset.clone(), self.clone())),
            None => None,
        }
    }

    /// The event once for each camera inspection that goes with it, each
    /// time with that inspection, or the event as it is where none does.
    pub fn add_cctv_builder(&self, reports: &Inspections) -> (r: Vec<Self>)
        ensures
            Events(r)@ == with_reports(self@, reports@),
    {
        let mut results: Vec<Event> = Vec::new();
        let mut i: usize = 0;
        while i < reports.0.len()
            invariant
                i <= reports.0.len(),
                Events(results)@ == reported(self@, reports@.take(i as int)),
            decreases reports.0.len() - i,
        {
            let ghost before = Events(results)@;
            assert(reports@.take(i + 1).drop_last() =~= reports@.take(i as int));
            let report = &reports.0[i];
            let date = *report.date();
            let found = *report.asset().asset_id() == self.asset_id && (date == self.plan_date
                || date == self.create_date.date() || date == self.modify_date.date());
            proof {
                lemma_same_day(date, self.plan_date);
                lemma_same_day(date, self.create_date.date);
                lemma_same_day(date, self.modify_date.date);
            }
            if found {
                let mut event = self.clone();
                event.cctv = Some(report.clone());
                results.push(event);
                assert(Events(results)@ =~= before.push(
                    EventView { cctv: Some(reports@[i as int]), ..self@ },
                ));
            } else {
                assert(Events(results)@ =~= before);
            }
            i = i + 1;
        }
        assert(reports@.take(i as int) =~= reports@);
        if results.len() == 0 {
            let mut results: Vec<Event> = Vec::new();
            results.push(self.clone());
            assert(Events(results)@ =~= seq![self@]);
            results
        } else {
            results
        }
    }

    /// Gives the event the card of its asset, if there is one: the first of
    /// the cards of the asset with the identifier of the event.
    pub fn add_manhole_card(&mut self, cards: &ManholeCards)
        ensures
            final(self)@ == with_card(old(self)@, cards@),
    {
        let mut i: usize = 0;
        while i < cards.0.len()
            invariant
                i <= cards.0.len(),
                *self == *old(self),
                forall|k: int| 0 <= k < i ==> cards@[k].asset.asset_id != self@.asset_id,
            decreases cards.0.len() - i,
        {
            if *cards.0[i].asset().asset_id() == self.asset_id {
                proof {
                    lemma_first_card_of(cards@, self@.asset_id, i as int);
                }
                self.manhole_card = Some(cards.0[i].path().clone());
                return ;
            }
            i = i + 1;
        }
        proof {
            lemma_first_card_of(cards@, self@.asset_id, i as int);
        }
    }

    /// The event that a record of texts stands for.
    pub fn try_from(value: &EventRaw) -> (r: Result<Self, Error>)
        ensures
            match r {
                Ok(event) => event_of(value@) == Ok::<EventView, ErrorView>(event@),
                Err(e) => event_of(value@) == Err::<EventView, ErrorView>(e@),
            },
    {
        let create_date = match utils::datetime(value.create_date.as_str()) {
            Ok((_, moment)) => moment,
            Err(e) => { return Err(e); },
        };
        let modify_date = match utils::datetime(value.modify_date.as_str()) {
            Ok((_, moment)) => moment,
            Err(e) => { return Err(e); },
        };
        let asset_kind = match AssetKind::from_str(value.asset_kind.as_str()) {
            Ok(kind) => kind,
            Err(e) => { return Err(e); },
        };
        let kind = match EventKind::from_str(value.kind.as_str()) {
            Ok(kind) => kind,
            Err(e) => { return Err(e); },
        };
        let maintenance = Maintenance::from_raw(&value.maintenance);
        let plan_date = match utils::mdy(value.plan_date.as_str()) {
            Ok((_, date)) => date,
            Err(e) => { return Err(e); },
        };
        let priority = match Priority::from_str(value.priority.as_str()) {
            Ok(priority) => priority,
            Err(e) => { return Err(e); },
        };
        let schedule_time = match utils::hm12(value.schedule_time.as_str()) {
            Ok((_, time)) => time,
            Err(_) => Time::default(),
        };
        let status = Status::from_raw(&value.status);
        Ok(
            Event {
                asset_id: value.asset_id.clone(),
                asset_kind,
                assigned_to: value.assigned_to.clone(),
                cctv: None,
                create_date,
                created_by: value.created_by.clone(),
                maintenance,
                manhole_card: None,
                modified_by: value.modified_by.clone(),
                modify_date,
                name: value.name.clone(),
                notes: clone_opt(&value.notes),
                kind,
                plan_date,
                priority,
                schedule_time,
                status,
            },
        )
    }
}

/// Two days are the same day exactly if they show the same year, month and
/// day of the month.
pub proof fn lemma_same_day(a: Date, b: Date)
    ensures
        a == b <==> a@ == b@,
{
    crate::civil::lemma_date_view(a, b);
}

impl Events {

    /// The events with the devices they are about, in the order of the
    /// events, or none where no event is about one of the devices.
    pub fn from_devices(&self, devices: &device::Devices) -> (r: Option<DeviceEvents>)
        ensures
            match r {
                Some(found) => found@ == device_events(self@, devices@) && found@.len() > 0,
                None => device_events(self@, devices@).len() == 0,
            },
    {
        let mut results: Vec<DeviceEvent> = Vec::new();
        let mut i: usize = 0;
        while i < self.0.len()
            invariant
                i <= self.0.len(),
                DeviceEvents(results)@ == device_events(self@.take(i as int), devices@),
            decreases self.0.len() - i,
        {
            let ghost before = DeviceEvents(results)@;
            assert(self@.take(i + 1).drop_last() =~= self@.take(i as int));
            match self.0[i].from_device(devices) {
                Some(event) => {
                    results.push(event);
                    assert(DeviceEvents(results)@ =~= before.push(event@));
                },
                None => {
                    assert(DeviceEvents(results)@ =~= before);
                },
            }
            i = i + 1;
        }
        assert(self@.take(i as int) =~= self@);
        if results.len() > 0 {
            Some(DeviceEvents::new(results))
        } else {
            None
        }
    }

    /// The events with the lines they are about, in the order of the
    /// events, or none where no event is about one of the lines.
    pub fn from_lines(&self, lines: &line::Lines) -> (r: Option<LineEvents>)
        ensures
            match r {
                Some(found) => found@ == line_events(self@, lines@) && found@.len() > 0,
                None => line_events(self@, lines@).len() == 0,
            },
    {
        let mut results: Vec<LineEvent> = Vec::new();
        let mut i: usize = 0;
        while i < self.0.len()
            invariant
                i <= self.0.len(),
                LineEvents(results)@ == line_events(self@.take(i as int), lines@),
            decreases self.0.len() - i,
        {
            let ghost before = LineEvents(results)@;
            assert(self@.take(i + 1).drop_last() =~= self@.take(i as int));
            match self.0[i].from_line(lines) {
                Some(event) => {
                    results.push(event);
                    assert(LineEvents(results)@ =~= before.push(event@));
                },
                None => {
                    assert(LineEvents(results)@ =~= before);
                },
            }
            i = i + 1;
        }
        assert(self@.take(i as int) =~= self@);
        if results.len() > 0 {
            Some(LineEvents::new(results))
        } else {
            None
        }
    }

    /// The events with the junctions they are about, in the order of the
    /// events, or none where no event is about one of the junctions.
    pub fn from_junctions(&self, junctions: &junction::Junctions) -> (r: Option<JunctionEvents>)
        ensures
            match r {
                Some(found) => found@ == junction_events(self@, junctions@) && found@.len() > 0,
                None => junction_events(self@, junctions@).len() == 0,
            },
    {
        let mut results: Vec<JunctionEvent> = Vec::new();
        let mut i: usize = 0;
        while i < self.0.len()
            invariant
                i <= self.0.len(),
                JunctionEvents(results)@ == junction_events(self@.take(i as int), junctions@),
            decreases self.0.len() - i,
        {
            let ghost before = JunctionEvents(results)@;
            assert(self@.take(i + 1).drop_last() =~= self@.take(i as int));
            match self.0[i].from_junction(junctions) {
                Some(event) => {
                    results.push(event);
                    assert(JunctionEvents(results)@ =~= before.push(event@));
                },
                None => {
                    assert(JunctionEvents(results)@ =~= before);
                },
            }
            i = i + 1;
        }
        assert(self@.take(i as int) =~= self@);
        if results.len() > 0 {
            Some(JunctionEvents::new(results))
        } else {
            None
        }
    }

    /// All events, each once for each camera inspection that goes with it,
    /// or as it is where none does.
    pub fn build_cctv_reports(&self, reports: &Inspections) -> (r: Self)
        ensures
            r@ == all_with_reports(self@, reports@),
    {
        let mut results: Vec<Event> = Vec::new();
        let mut i: usize = 0;
        while i < self.0.len()
            invariant
                i <= self.0.len(),
                Events(results)@ == all_with_reports(self@.take(i as int), reports@),
            decreases self.0.len() - i,
        {
            assert(self@.take(i + 1).drop_last() =~= self@.take(i as int));
            let ghost before = Events(results)@;
            let mut more = self.0[i].add_cctv_builder(reports);
            let ghost added = Events(more)@;
            results.append(&mut more);
            assert(Events(results)@ =~= before + added);
            i = i + 1;
        }
        assert(self@.take(i as int) =~= self@);
        Events::new(results)
    }

    /// Gives each event the card of its asset, if there is one.
    pub fn add_manhole_cards(&mut self, cards: &ManholeCards)
        ensures
            final(self)@.len() == old(self)@.len(),
            forall|i: int|
                0 <= i < old(self)@.len() ==> #[trigger] final(self)@[i] == with_card(
                    old(self)@[i],
                    cards@,
                ),
    {
        let mut results: Vec<Event> = Vec::new();
        let mut i: usize = 0;
        while i < self.0.len()
            invariant
                i <= self.0.len(),
                *self == *old(self),
                results@.len() == i,
                forall|k: int|
                    0 <= k < i ==> (#[trigger] results@[k])@ == with_card(old(self)@[k], cards@),
            decreases self.0.len() - i,
        {
            let mut event = self.0[i].clone();
            event.add_manhole_card(cards);
            results.push(event);
            i = i + 1;
        }
        self.0 = results;
    }

    /// The events that records of texts stand for: those that can be read,
    /// in their order.
    pub fn from(value: &EventsRaw) -> (r: Self)
        ensures
            r@ == events_of(value@),
    {
        let mut events: Vec<Event> = Vec::new();
        let mut i: usize = 0;
        while i < value.0.len()
            invariant
                i <= value.0.len(),
                Events(events)@ == events_of(value@.take(i as int)),
            decreases value.0.len() - i,
        {
            let ghost before = Events(events)@;
            assert(value@.take(i + 1).drop_last() =~= value@.take(i as int));
            match Event::try_from(&value.0[i]) {
                Ok(event) => {
                    events.push(event);
                    assert(Events(events)@ =~= before.push(event@));
                },
                Err(_) => {
                    assert(Events(events)@ =~= before);
                },
            }
            i = i + 1;
        }
        assert(value@.take(i as int) =~= value@);
        Events(events)
    }
}

} // verus!
