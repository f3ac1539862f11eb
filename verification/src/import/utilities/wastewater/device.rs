//! The devices of the wastewater network: valves, pumps, meters and the like.
use crate::analytic::{AnyGeometry, GeometryView};
use crate::convert::coord_of;
use crate::error::{Error, ErrorView};
use crate::import::utilities::entity::Entity;
use crate::import::utilities::wastewater::owner::Owner;
use crate::legacy;
use crate::record::{number_of, text_of, to_i16, to_i8, within_i16, within_i8, Field, Record};
use crate::utils;
use vstd::prelude::*;

verus! {

/// The groups of wastewater devices.
#[derive(Debug, Clone, Copy, PartialEq, Eq, PartialOrd, Ord, Hash, Structural)]
pub enum AssetGroup {
    /// Anode (not used by the city)
    Anode,
    /// Backflow Preventer
    BackflowPreventer,
    /// Cleanout
    Cleanout,
    /// Connection
    Connection,
    /// Controllable Valve
    ControllableValve,
    /// Flow valve
    FlowValve,
    /// Gate valve
    Gate,
    /// Grease Trap
    GreaseTrap,
    /// Groundbed
    Groundbed,
    /// Manhole Channel
    /// Used to represent manhole lid locations by the city.
    ManholeChannel,
    /// Meter
    Meter,
    /// Monitoring
    Monitoring,
    /// Outlet
    Outlet,
    /// Pump
    Pump,
    /// Rectifier
    Rectifier,
    /// Relief Valve
    ReliefValve,
    /// Service Connection
    ServiceConnection,
    /// Test Point
    TestPoint,
    /// Treatment
    Treatment,
    /// Weir
    Weir,
    /// Unknown
    Unknown,
}

impl Default for AssetGroup {
    fn default() -> (r: Self)
        ensures
            r == AssetGroup::Unknown,
    {
        AssetGroup::Unknown
    }
}

impl AssetGroup {
    /// The name of the group.
    pub open spec fn label(self) -> Seq<char> {
        match self {
            AssetGroup::Anode => "Anode"@,
            AssetGroup::BackflowPreventer => "Backflow Preventer"@,
            AssetGroup::Cleanout => "Cleanout"@,
            AssetGroup::Connection => "Connection"@,
            AssetGroup::ControllableValve => "Controllable Valve"@,
            AssetGroup::FlowValve => "Flow Valve"@,
            AssetGroup::Gate => "Gate"@,
            AssetGroup::GreaseTrap => "Grease Trap"@,
            AssetGroup::Groundbed => "Groundbed"@,
            AssetGroup::ManholeChannel => "Manhole Channel"@,
            AssetGroup::Meter => "Meter"@,
            AssetGroup::Monitoring => "Monitoring"@,
            AssetGroup::Outlet => "Outlet"@,
            AssetGroup::Pump => "Pump"@,
            AssetGroup::Rectifier => "Rectifier"@,
            AssetGroup::ReliefValve => "Relief Valve"@,
            AssetGroup::ServiceConnection => "Service Connection"@,
            AssetGroup::TestPoint => "Test Point"@,
            AssetGroup::Treatment => "Treatment"@,
            AssetGroup::Weir => "Weir"@,
            AssetGroup::Unknown => "Unknown"@,
        }
    }

    /// The name of the group.
    pub fn to_string(&self) -> (r: String)
        ensures
            r@ == self.label(),
    {
        match self {
            AssetGroup::Anode => "Anode".to_owned(),
            AssetGroup::BackflowPreventer => "Backflow Preventer".to_owned(),
            AssetGroup::Cleanout => "Cleanout".to_owned(),
            AssetGroup::Connection => "Connection".to_owned(),
            AssetGroup::ControllableValve => "Controllable Valve".to_owned(),
            AssetGroup::FlowValve => "Flow Valve".to_owned(),
            AssetGroup::Gate => "Gate".to_owned(),
            AssetGroup::GreaseTrap => "Grease Trap".to_owned(),
            AssetGroup::Groundbed => "Groundbed".to_owned(),
            AssetGroup::ManholeChannel => "Manhole Channel".to_owned(),
            AssetGroup::Meter => "Meter".to_owned(),
            AssetGroup::Monitoring => "Monitoring".to_owned(),
            AssetGroup::Outlet => "Outlet".to_owned(),
            AssetGroup::Pump => "Pump".to_owned(),
            AssetGroup::Rectifier => "Rectifier".to_owned(),
            AssetGroup::ReliefValve => "Relief Valve".to_owned(),
            AssetGroup::ServiceConnection => "Service Connection".to_owned(),
            AssetGroup::TestPoint => "Test Point".to_owned(),
            AssetGroup::Treatment => "Treatment".to_owned(),
            AssetGroup::Weir => "Weir".to_owned(),
            AssetGroup::Unknown => "Unknown".to_owned(),
        }
    }
}

impl AssetGroup {
    /// The group that a code stands for; a code that stands for none is `Unknown`.
    pub open spec fn of_code(value: i8) -> AssetGroup {
        if value == 0 {
            AssetGroup::Unknown
        } else if value == 1 {
            AssetGroup::FlowValve
        } else if value == 2 {
            AssetGroup::ControllableValve
        } else if value == 3 {
            AssetGroup::ReliefValve
        } else if value == 5 {
            AssetGroup::Pump
        } else if value == 7 {
            AssetGroup::ServiceConnection
        } else if value == 10 {
            AssetGroup::Meter
        } else if value == 15 {
            AssetGroup::Treatment
        } else if value == 21 {
            AssetGroup::Cleanout
        } else if value == 22 {
            AssetGroup::Outlet
        } else if value == 23 {
            AssetGroup::Connection
        } else if value == 25 {
            AssetGroup::Monitoring
        } else if value == 26 {
            AssetGroup::Weir
        } else if value == 27 {
            AssetGroup::Gate
        } else if value == 30 {
            AssetGroup::GreaseTrap
        } else if value == 31 {
            AssetGroup::BackflowPreventer
        } else if value == 32 {
            AssetGroup::ManholeChannel
        } else if value == 50 {
            AssetGroup::Anode
        } else if value == 51 {
            AssetGroup::Rectifier
        } else if value == 52 {
            AssetGroup::TestPoint
        } else if value == 53 {
            AssetGroup::Groundbed
        } else {
            AssetGroup::Unknown
        }
    }
}

impl From<i8> for AssetGroup {
    fn from(value: i8) -> (r: Self) {
        match value {
            0 => AssetGroup::Unknown,
            1 => AssetGroup::FlowValve,
            2 => AssetGroup::ControllableValve,
            3 => AssetGroup::ReliefValve,
            5 => AssetGroup::Pump,
            7 => AssetGroup::ServiceConnection,
            10 => AssetGroup::Meter,
            15 => AssetGroup::Treatment,
            21 => AssetGroup::Cleanout,
            22 => AssetGroup::Outlet,
            23 => AssetGroup::Connection,
            25 => AssetGroup::Monitoring,
            26 => AssetGroup::Weir,
            27 => AssetGroup::Gate,
            30 => AssetGroup::GreaseTrap,
            31 => AssetGroup::BackflowPreventer,
            32 => AssetGroup::ManholeChannel,
            50 => AssetGroup::Anode,
            51 => AssetGroup::Rectifier,
            52 => AssetGroup::TestPoint,
            53 => AssetGroup::Groundbed,
            _ => AssetGroup::Unknown,
        }
    }
}

impl vstd::std_specs::convert::FromSpecImpl<i8> for AssetGroup {
    open spec fn obeys_from_spec() -> bool {
        true
    }

    open spec fn from_spec(value: i8) -> Self {
        AssetGroup::of_code(value)
    }
}

/// The types of wastewater devices. Each belongs to one group.
#[derive(Debug, Clone, Copy, PartialEq, Eq, PartialOrd, Ord, Hash, Structural)]
pub enum AssetType {
    /// Valve with the primary purpose of allowing large volumes of air to be exhausted from or
    /// admitted into a sewer pipe as it is filled or drained.
    /// A sub-type of [`AssetGroup::ReliefValve`].
    AirAndVacuum,
    /// Valve that relieves system of trapped air or vacuums.
    /// A sub-type of [`AssetGroup::FlowValve`].
    AirGap,
    /// Valve with a primary role of releasing air pockets.
    /// A sub-type of [`AssetGroup::ReliefValve`].
    AirRelease,
    /// Valve that controls flow into a tower when the level drops below a threshold.
    /// A sub-type of [`AssetGroup::FlowValve`].
    Altitude,
    /// A point representing a groundbed.
    /// A sub-type of [`AssetGroup::Groundbed`].
    AnodeBed,
    /// A point representing a backflow preventer.
    /// A sub-type of [`AssetGroup::BackflowPreventer`].
    BackflowPreventer,
    /// A weir that typically spans the width of a bioswale, or channel, and operates with higher
    /// levels of downstream wastewater.
    /// A sub-type of [`AssetGroup::Weir`].
    BroadCrested,
    /// Meter for measuring bulk waste.
    /// A sub-type of [`AssetGroup::Meter`].
    Bulk,
    /// Valve that closes to prevent backward wastewater flow.
    /// A sub-type of [`AssetGroup::FlowValve`].
    Check,
    /// A location to clean a clogged pipe.
    /// A sub-type of [`AssetGroup::Cleanout`].
    Cleanout,
    /// A weir designed for areas of varying flows of wastewater.
    /// A sub-type of [`AssetGroup::Weir`].
    Combination,
    /// Valve with combined features of an air/vacuum valve and air release valve.
    /// A sub-type of [`AssetGroup::ReliefValve`].
    CombinationAir,
    /// A service connection for a commercial service.
    /// A sub-type of [`AssetGroup::Connection`].
    Commercial,
    /// A point representing a directional manhole channel.
    /// A sub-type of [`AssetGroup::ManholeChannel`].
    DirectionalManholeChannel,
    /// The point treated wastewater enters a body of water.
    /// A sub-type of [`AssetGroup::Outlet`].
    EffluentDischarge,
    /// A point representing a galvanic anode.
    /// A sub-type of [`AssetGroup::Anode`].
    Galvanic,
    /// A gate that can be raised and lowered to control flow.
    /// A sub-type of [`AssetGroup::Gate`].
    Gate,
    /// A point representing a grease interceptor.
    /// A sub-type of [`AssetGroup::GreaseTrap`].
    GreaseInterceptor,
    /// A point representing a grease recovery.
    /// A sub-type of [`AssetGroup::GreaseTrap`].
    GreaseRecovery,
    /// A point representing a grease trap.
    /// A sub-type of [`AssetGroup::GreaseTrap`].
    GreaseTrap,
    /// A point representing an impressed current cathodic protection anode.
    /// A sub-type of [`AssetGroup::Anode`].
    Iccp,
    /// A service connection for an industrial service.
    /// A sub-type of [`AssetGroup::Connection`].
    Industrial,
    /// A weir designed to control flow by an increased length in respect to the bioswale or
    /// channel's width.
    /// A sub-type of [`AssetGroup::Weir`].
    Labyrinth,
    /// A small opening allowing a light to be lowered to inspect the pipe.
    /// A sub-type of [`AssetGroup::Cleanout`].
    LampHole,
    /// A point representing a manhole channel.
    /// A sub-type of [`AssetGroup::ManholeChannel`].
    ManholeChannel,
    /// A weir designed for areas of heavy/torrential storms to minimize flooding upstream.
    /// A sub-type of [`AssetGroup::Weir`].
    MinimumEnergyLoss,
    /// A point representing an overflow.
    /// A sub-type of [`AssetGroup::Outlet`].
    Overflow,
    /// The connection of multiple pipes.
    /// A sub-type of [`AssetGroup::Connection`].
    PipeConnection,
    /// A device to measure pressure.
    /// A sub-type of [`AssetGroup::Monitoring`].
    PressureSensor,
    /// Pump that moves sewage.
    /// A sub-type of [`AssetGroup::Pump`].
    Pump,
    /// Grinds solids of sewage and then the sewage is pumped.
    /// A sub-type of [`AssetGroup::Pump`].
    PumpWithGrinder,
    /// A point representing a rectifier.
    /// A sub-type of [`AssetGroup::Rectifier`].
    Rectifier,
    /// A service connection for a residential service.
    /// A sub-type of [`AssetGroup::Connection`].
    Residential,
    /// A weir designed to take accurate measurements of flow and discharge.
    /// A sub-type of [`AssetGroup::Weir`].
    SharpCrested,
    /// Meter for measuring wastewater through a pump station.
    /// A sub-type of [`AssetGroup::Meter`].
    Station,
    /// A wall that can be inserted and removed to control.
    /// A sub-type of [`AssetGroup::Gate`].
    StopLog,
    /// Valve with a primary purpose of isolation areas of the sewer network.
    /// A sub-type of [`AssetGroup::ControllableValve`].
    System,
    /// A device to measure temperature.
    /// A sub-type of [`AssetGroup::Monitoring`].
    TemperatureSensor,
    /// A cleanout provided at the upstream end of a sewer main when a manhole is not provided.
    /// A sub-type of [`AssetGroup::Cleanout`].
    Terminal,
    /// A point representing a test point for cathodic protection.
    /// A sub-type of [`AssetGroup::TestPoint`].
    TestPoint,
    /// Facility to treat wastewater.
    /// A sub-type of [`AssetGroup::Treatment`].
    TreatmentPlant,
    /// Valve to control wastewater flow in a vault.
    /// A sub-type of [`AssetGroup::ControllableValve`].
    Vault,
    /// A point representing a vertical pipe.
    /// A sub-type of [`AssetGroup::Weir`].
    VNotch,
    /// Unknown
    Unknown,
}

impl Default for AssetType {
    fn default() -> (r: Self)
        ensures
            r == AssetType::Unknown,
    {
        AssetType::Unknown
    }
}

impl AssetType {
    /// The name of the type.
    pub open spec fn label(self) -> Seq<char> {
        match self {
            AssetType::AirAndVacuum => "Air & Vacuum"@,
            AssetType::AirGap => "Air Gap"@,
            AssetType::AirRelease => "Air Release"@,
            AssetType::Altitude => "Altitude"@,
            AssetType::AnodeBed => "Anode Bed"@,
            AssetType::BackflowPreventer => "Backflow Preventer"@,
            AssetType::BroadCrested => "Broad-Crested"@,
            AssetType::Bulk => "Bulk"@,
            AssetType::Check => "Check"@,
            AssetType::Cleanout => "Cleanout"@,
            AssetType::Combination => "Combination"@,
            AssetType::CombinationAir => "Combination Air"@,
            AssetType::Commercial => "Commercial"@,
            AssetType::DirectionalManholeChannel => "Directional Manhole Channel"@,
            AssetType::EffluentDischarge => "Effluent Discharge"@,
            AssetType::Galvanic => "Galvanic"@,
            AssetType::Gate => "Gate"@,
            AssetType::GreaseInterceptor => "Grease Interceptor"@,
            AssetType::GreaseRecovery => "Grease Recovery"@,
            AssetType::GreaseTrap => "Grease Trap"@,
            AssetType::Iccp => "ICCP"@,
            AssetType::Industrial => "Industrial"@,
            AssetType::Labyrinth => "Labyrinth"@,
            AssetType::LampHole => "Lamp Hole"@,
            AssetType::ManholeChannel => "Manhole Channel"@,
            AssetType::MinimumEnergyLoss => "Minimum Energy Loss"@,
            AssetType::Overflow => "Overflow"@,
            AssetType::PipeConnection => "Pipe Connection"@,
            AssetType::PressureSensor => "Pressure Sensor"@,
            AssetType::Pump => "Pump"@,
            AssetType::PumpWithGrinder => "Pump with Grinder"@,
            AssetType::Rectifier => "Rectifier"@,
            AssetType::Residential => "Residential"@,
            AssetType::SharpCrested => "Sharp-Crested"@,
            AssetType::Station => "Station"@,
            AssetType::StopLog => "Stop Log"@,
            AssetType::System => "System"@,
            AssetType::TemperatureSensor => "Temperature Sensor"@,
            AssetType::Terminal => "Terminal"@,
            AssetType::TestPoint => "Test Point"@,
            AssetType::TreatmentPlant => "Treatment Plant"@,
            AssetType::Vault => "Vault"@,
            AssetType::VNotch => "V-Notch"@,
            AssetType::Unknown => "Unknown"@,
        }
    }

    /// The name of the type.
    pub fn to_string(&self) -> (r: String)
        ensures
            r@ == self.label(),
    {
        match self {
            AssetType::AirAndVacuum => "Air & Vacuum".to_owned(),
            AssetType::AirGap => "Air Gap".to_owned(),
            AssetType::AirRelease => "Air Release".to_owned(),
            AssetType::Altitude => "Altitude".to_owned(),
            AssetType::AnodeBed => "Anode Bed".to_owned(),
            AssetType::BackflowPreventer => "Backflow Preventer".to_owned(),
            AssetType::BroadCrested => "Broad-Crested".to_owned(),
            AssetType::Bulk => "Bulk".to_owned(),
            AssetType::Check => "Check".to_owned(),
            AssetType::Cleanout => "Cleanout".to_owned(),
            AssetType::Combination => "Combination".to_owned(),
            AssetType::CombinationAir => "Combination Air".to_owned(),
            AssetType::Commercial => "Commercial".to_owned(),
            AssetType::DirectionalManholeChannel => "Directional Manhole Channel".to_owned(),
            AssetType::EffluentDischarge => "Effluent Discharge".to_owned(),
            AssetType::Galvanic => "Galvanic".to_owned(),
            AssetType::Gate => "Gate".to_owned(),
            AssetType::GreaseInterceptor => "Grease Interceptor".to_owned(),
            AssetType::GreaseRecovery => "Grease Recovery".to_owned(),
            AssetType::GreaseTrap => "Grease Trap".to_owned(),
            AssetType::Iccp => "ICCP".to_owned(),
            AssetType::Industrial => "Industrial".to_owned(),
            AssetType::Labyrinth => "Labyrinth".to_owned(),
            AssetType::LampHole => "Lamp Hole".to_owned(),
            AssetType::ManholeChannel => "Manhole Channel".to_owned(),
            AssetType::MinimumEnergyLoss => "Minimum Energy Loss".to_owned(),
            AssetType::Overflow => "Overflow".to_owned(),
            AssetType::PipeConnection => "Pipe Connection".to_owned(),
            AssetType::PressureSensor => "Pressure Sensor".to_owned(),
            AssetType::Pump => "Pump".to_owned(),
            AssetType::PumpWithGrinder => "Pump with Grinder".to_owned(),
            AssetType::Rectifier => "Rectifier".to_owned(),
            AssetType::Residential => "Residential".to_owned(),
            AssetType::SharpCrested => "Sharp-Crested".to_owned(),
            AssetType::Station => "Station".to_owned(),
            AssetType::StopLog => "Stop Log".to_owned(),
            AssetType::System => "System".to_owned(),
            AssetType::TemperatureSensor => "Temperature Sensor".to_owned(),
            AssetType::Terminal => "Terminal".to_owned(),
            AssetType::TestPoint => "Test Point".to_owned(),
            AssetType::TreatmentPlant => "Treatment Plant".to_owned(),
            AssetType::Vault => "Vault".to_owned(),
            AssetType::VNotch => "V-Notch".to_owned(),
            AssetType::Unknown => "Unknown".to_owned(),
        }
    }
}

impl AssetType {
    /// The type that a code stands for in a group. The codes 301 and 302 stand
    /// for one type in the group of grease traps and for another in the group
    /// of manhole channels, and for none elsewhere. A code that stands for none
    /// is `Unknown`.
    pub open spec fn of_code(value: i16, group: AssetGroup) -> AssetType {
        if value == 0 {
            AssetType::Unknown
        } else if value == 1 {
            AssetType::Commercial
        } else if value == 2 {
            AssetType::Industrial
        } else if value == 3 {
            AssetType::Residential
        } else if value == 41 {
            AssetType::AirGap
        } else if value == 42 {
            AssetType::Altitude
        } else if value == 43 {
            AssetType::Check
        } else if value == 61 {
            AssetType::Pump
        } else if value == 62 {
            AssetType::PumpWithGrinder
        } else if value == 81 {
            AssetType::Cleanout
        } else if value == 82 {
            AssetType::LampHole
        } else if value == 83 {
            AssetType::Terminal
        } else if value == 101 {
            AssetType::Gate
        } else if value == 102 {
            AssetType::StopLog
        } else if value == 121 {
            AssetType::AirAndVacuum
        } else if value == 122 {
            AssetType::AirRelease
        } else if value == 123 {
            AssetType::CombinationAir
        } else if value == 141 {
            AssetType::System
        } else if value == 142 {
            AssetType::Vault
        } else if value == 161 {
            AssetType::Bulk
        } else if value == 162 {
            AssetType::Station
        } else if value == 181 {
            AssetType::PressureSensor
        } else if value == 182 {
            AssetType::TemperatureSensor
        } else if value == 201 {
            AssetType::TreatmentPlant
        } else if value == 221 {
            AssetType::EffluentDischarge
        } else if value == 222 {
            AssetType::Overflow
        } else if value == 241 {
            AssetType::PipeConnection
        } else if value == 281 {
            AssetType::BroadCrested
        } else if value == 282 {
            AssetType::Combination
        } else if value == 283 {
            AssetType::Labyrinth
        } else if value == 284 {
            AssetType::MinimumEnergyLoss
        } else if value == 285 {
            AssetType::SharpCrested
        } else if value == 286 {
            AssetType::VNotch
        } else if value == 301 {
            match group {
                AssetGroup::GreaseTrap => AssetType::GreaseTrap,
                AssetGroup::ManholeChannel => AssetType::ManholeChannel,
                _ => AssetType::Unknown,
            }
        } else if value == 302 {
            match group {
                AssetGroup::GreaseTrap => AssetType::GreaseInterceptor,
                AssetGroup::ManholeChannel => AssetType::DirectionalManholeChannel,
                _ => AssetType::Unknown,
            }
        } else if value == 303 {
            AssetType::GreaseRecovery
        } else if value == 321 {
            AssetType::BackflowPreventer
        } else if value == 901 {
            AssetType::Iccp
        } else if value == 902 {
            AssetType::Galvanic
        } else if value == 911 {
            AssetType::AnodeBed
        } else if value == 941 {
            AssetType::Rectifier
        } else if value == 981 {
            AssetType::TestPoint
        } else {
            AssetType::Unknown
        }
    }

    /// The type that a code stands for in a group.
    pub fn from_i16(value: i16, group: &AssetGroup) -> (r: Self)
        ensures
            r == AssetType::of_code(value, *group),
    {
        match value {
            0 => AssetType::Unknown,
            1 => AssetType::Commercial,
            2 => AssetType::Industrial,
            3 => AssetType::Residential,
            41 => AssetType::AirGap,
            42 => AssetType::Altitude,
            43 => AssetType::Check,
            61 => AssetType::Pump,
            62 => AssetType::PumpWithGrinder,
            81 => AssetType::Cleanout,
            82 => AssetType::LampHole,
            83 => AssetType::Terminal,
            101 => AssetType::Gate,
            102 => AssetType::StopLog,
            121 => AssetType::AirAndVacuum,
            122 => AssetType::AirRelease,
            123 => AssetType::CombinationAir,
            141 => AssetType::System,
            142 => AssetType::Vault,
            161 => AssetType::Bulk,
            162 => AssetType::Station,
            181 => AssetType::PressureSensor,
            182 => AssetType::TemperatureSensor,
            201 => AssetType::TreatmentPlant,
            221 => AssetType::EffluentDischarge,
            222 => AssetType::Overflow,
            241 => AssetType::PipeConnection,
            281 => AssetType::BroadCrested,
            282 => AssetType::Combination,
            283 => AssetType::Labyrinth,
            284 => AssetType::MinimumEnergyLoss,
            285 => AssetType::SharpCrested,
            286 => AssetType::VNotch,
            301 => match *group {
                AssetGroup::GreaseTrap => AssetType::GreaseTrap,
                AssetGroup::ManholeChannel => AssetType::ManholeChannel,
                _ => AssetType::Unknown,
            },
            302 => match *group {
                AssetGroup::GreaseTrap => AssetType::GreaseInterceptor,
                AssetGroup::ManholeChannel => AssetType::DirectionalManholeChannel,
                _ => AssetType::Unknown,
            },
            303 => AssetType::GreaseRecovery,
            321 => AssetType::BackflowPreventer,
            901 => AssetType::Iccp,
            902 => AssetType::Galvanic,
            911 => AssetType::AnodeBed,
            941 => AssetType::Rectifier,
            981 => AssetType::TestPoint,
            _ => AssetType::Unknown,
        }
    }
}

/// A device of the wastewater network. In the network the values of a domain are
/// coded as numbers; here each code has become the value it stands for.
#[derive(Debug, PartialEq)]
pub struct Device {
    /// The group of the asset.
    pub asset_group: AssetGroup,
    /// The type of the asset.
    pub asset_type: AssetType,
    /// The identifier of the asset.
    pub asset_id: String,
    /// The identifier under which the asset was known before.
    pub historic_id: Option<String>,
    /// The owner of the asset.
    pub owner: Owner,
    /// Where the asset lies.
    pub geometry: AnyGeometry,
}

/// What a device holds.
pub struct DeviceView {
    pub asset_group: AssetGroup,
    pub asset_type: AssetType,
    pub asset_id: Seq<char>,
    pub historic_id: Option<Seq<char>>,
    pub owner: Owner,
    pub geometry: GeometryView,
}

/// The devices of a network.
#[derive(Debug, PartialEq)]
pub struct Devices(pub Vec<Device>);

impl View for Device {
    type V = DeviceView;

    open spec fn view(&self) -> DeviceView {
        DeviceView {
            asset_group: self.asset_group,
            asset_type: self.asset_type,
            asset_id: self.asset_id@,
            historic_id: match self.historic_id {
                Some(id) => Some(id@),
                None => None,
            },
            owner: self.owner,
            geometry: self.geometry@,
        }
    }
}

impl View for Devices {
    type V = Seq<DeviceView>;

    open spec fn view(&self) -> Seq<DeviceView> {
        Seq::new(self.0@.len(), |i: int| self.0@[i]@)
    }
}

impl Clone for Device {
    fn clone(&self) -> (r: Self)
        ensures
            r@ == self@,
    {
        Device {
            asset_group: self.asset_group,
            asset_type: self.asset_type,
            asset_id: self.asset_id.clone(),
            historic_id: match &self.historic_id {
                Some(id) => Some(id.clone()),
                None => None,
            },
            owner: self.owner,
            geometry: self.geometry.clone(),
        }
    }
}

impl Clone for Devices {
    fn clone(&self) -> (r: Self)
        ensures
            r@ == self@,
    {
        let mut records: Vec<Device> = Vec::new();
        let mut i: usize = 0;
        while i < self.0.len()
            invariant
                i <= self.0.len(),
                records@.len() == i,
                forall|k: int| 0 <= k < i ==> (#[trigger] records@[k])@ == self.0@[k]@,
            decreases self.0.len() - i,
        {
            records.push(self.0[i].clone());
            i = i + 1;
        }
        let r = Devices(records);
        assert(r@ =~= self@);
        r
    }
}

impl Device {
    /// The identifier of the asset.
    pub fn asset_id(&self) -> (r: &String)
        ensures
            r@ == self@.asset_id,
    {
        &self.asset_id
    }

    /// The identifier under which the asset was known before.
    pub fn historic_id(&self) -> (r: &Option<String>)
        ensures
            *r == self.historic_id,
    {
        &self.historic_id
    }

    /// The name of the group of the asset.
    pub fn asset_group(&self) -> (r: String)
        ensures
            r@ == self.asset_group.label(),
    {
        self.asset_group.to_string()
    }

    /// The name of the type of the asset.
    pub fn asset_type(&self) -> (r: String)
        ensures
            r@ == self.asset_type.label(),
    {
        self.asset_type.to_string()
    }

    /// The name of the owner of the asset.
    pub fn owner(&self) -> (r: String)
        ensures
            r@ == self.owner.label(),
    {
        self.owner.to_string()
    }

    /// Whether the asset goes by the given identifier, now or before.
    pub open spec fn known_as(asset: DeviceView, id: Seq<char>) -> bool {
        asset.asset_id == id || asset.historic_id == Some(id)
    }

    /// Whether the asset goes by the given identifier, now or before.
    pub fn is_known_as(&self, id: &String) -> (r: bool)
        ensures
            r == Device::known_as(self@, id@),
    {
        if self.asset_id == *id {
            true
        } else {
            match &self.historic_id {
                Some(historic) => *historic == *id,
                None => false,
            }
        }
    }

    /// What the attributes of a shape say of the asset, or what is missing:
    /// the group, the type, the identifier and the owner are needed, and are
    /// asked for in this order.
    pub open spec fn read(geometry: GeometryView, fields: Seq<Field>) -> Result<DeviceView, ErrorView> {
        match number_of(fields, "ASSETGROUP"@) {
            None => Err(ErrorView::Hint("Failed to read an asset group."@)),
            Some(group) => match number_of(fields, "ASSETTYPE"@) {
                None => Err(ErrorView::Hint("Failed to read an asset type."@)),
                Some(kind) => match text_of(fields, "assetid"@) {
                    None => Err(ErrorView::Hint("Failed to read an asset id."@)),
                    Some(id) => match number_of(fields, "ownedby"@) {
                        None => Err(ErrorView::Hint("Failed to read owner field."@)),
                        Some(owner) => Ok(
                            DeviceView {
                                asset_group: AssetGroup::of_code(within_i8(group)),
                                asset_type: AssetType::of_code(within_i16(kind), AssetGroup::of_code(within_i8(group))),
                                asset_id: id,
                                historic_id: text_of(fields, "historicid"@),
                                owner: Owner::of_entity(Entity::of_code(within_i8(owner))),
                                geometry,
                            },
                        ),
                    },
                },
            },
        }
    }

    /// The asset that a shape and its attributes stand for.
    pub fn from_shp(geometry: AnyGeometry, record: &Record) -> (r: Result<Self, Error>)
        ensures
            match r {
                Ok(asset) => Device::read(geometry@, record.fields@) == Ok::<DeviceView, ErrorView>(
                    asset@,
                ),
                Err(e) => Device::read(geometry@, record.fields@) == Err::<DeviceView, ErrorView>(e@),
            },
    {
        let group = utils::read_num(record, "ASSETGROUP");
        let kind = utils::read_num(record, "ASSETTYPE");
        let id = utils::read_char(record, "assetid");
        let historic_id = utils::read_char(record, "historicid");
        let owner = utils::read_num(record, "ownedby");

        if let Some(asset_group) = group {
            let asset_group = AssetGroup::from(to_i8(asset_group));
            if let Some(asset_type) = kind {
                let asset_type = AssetType::from_i16(to_i16(asset_type), &asset_group);
                if let Some(asset_id) = id {
                    if let Some(owner) = owner {
                        Ok(
                            Device {
                                asset_group,
                                asset_type,
                                asset_id,
                                historic_id,
                                owner: Owner::from(&Entity::from(to_i8(owner))),
                                geometry,
                            },
                        )
                    } else {
                        Err(Error::Hint("Failed to read owner field.".to_owned()))
                    }
                } else {
                    Err(Error::Hint("Failed to read an asset id.".to_owned()))
                }
            } else {
                Err(Error::Hint("Failed to read an asset type.".to_owned()))
            }
        } else {
            Err(Error::Hint("Failed to read an asset group.".to_owned()))
        }
    }
}

/// The place of the first asset that goes by the given identifier, now or
/// before, or the number of assets where none does.
pub open spec fn first_known_as(assets: Seq<DeviceView>, id: Seq<char>) -> int
    decreases assets.len(),
{
    if assets.len() == 0 {
        0
    } else if Device::known_as(assets.first(), id) {
        0
    } else {
        1 + first_known_as(assets.drop_first(), id)
    }
}

/// The first asset that goes by an identifier does so, and none before it.
pub proof fn lemma_first_known_as(assets: Seq<DeviceView>, id: Seq<char>)
    ensures
        0 <= first_known_as(assets, id) <= assets.len(),
        first_known_as(assets, id) < assets.len() ==> Device::known_as(
            assets[first_known_as(assets, id)],
            id,
        ),
        forall|i: int| 0 <= i < first_known_as(assets, id) ==> !Device::known_as(assets[i], id),
    decreases assets.len(),
{
    if assets.len() > 0 && !Device::known_as(assets.first(), id) {
        let rest = assets.drop_first();
        lemma_first_known_as(rest, id);
        assert forall|i: int| 0 <= i < first_known_as(assets, id) implies !Device::known_as(
            assets[i],
            id,
        ) by {
            if i > 0 {
                assert(assets[i] == rest[i - 1]);
            }
        }
    }
}

/// Where no asset before a place goes by an identifier, the first that does
/// is not before that place; where the asset at the place does, it is there.
pub proof fn lemma_first_known_as_from(assets: Seq<DeviceView>, id: Seq<char>, i: int)
    requires
        0 <= i <= assets.len(),
        forall|k: int| 0 <= k < i ==> !Device::known_as(assets[k], id),
    ensures
        first_known_as(assets, id) >= i,
        i < assets.len() && Device::known_as(assets[i], id) ==> first_known_as(assets, id) == i,
        i == assets.len() ==> first_known_as(assets, id) == i,
{
    lemma_first_known_as(assets, id);
}

impl Devices {
    /// The list of the given assets.
    pub fn new(assets: Vec<Device>) -> (r: Self)
        ensures
            r.0 == assets,
    {
        Devices(assets)
    }

    /// How many assets there are.
    pub fn len(&self) -> (r: usize)
        ensures
            r == self@.len(),
    {
        self.0.len()
    }

    /// The first asset that goes by the given identifier, now or before.
    pub fn find(&self, id: &String) -> (r: Option<&Device>)
        ensures
            match r {
                Some(asset) => first_known_as(self@, id@) < self@.len() && asset@
                    == self@[first_known_as(self@, id@)],
                None => first_known_as(self@, id@) == self@.len(),
            },
    {
        let mut i: usize = 0;
        while i < self.0.len()
            invariant
                i <= self.0.len(),
                forall|k: int| 0 <= k < i ==> !Device::known_as(self@[k], id@),
            decreases self.0.len() - i,
        {
            if self.0[i].is_known_as(id) {
                proof {
                    lemma_first_known_as_from(self@, id@, i as int);
                }
                return Some(&self.0[i]);
            }
            i = i + 1;
        }
        proof {
            lemma_first_known_as_from(self@, id@, i as int);
        }
        None
    }

    /// The assets that the shapes of a file and their attributes stand for,
    /// in the order of the file, or what is missing in the first record that
    /// lacks something.
    pub fn from_shp_z(shapes: &Vec<(legacy::PointZ, Record)>) -> (r: Result<Self, Error>)
        ensures
            match r {
                Ok(assets) => assets@.len() == shapes@.len() && forall|i: int|
                    0 <= i < shapes@.len() ==> Device::read(
                        GeometryView::Point(coord_of(shapes@[i].0)),
                        (#[trigger] shapes@[i]).1.fields@,
                    ) == Ok::<DeviceView, ErrorView>(assets@[i]),
                Err(e) => exists|i: int|
                    0 <= i < shapes@.len() && Device::read(
                        GeometryView::Point(coord_of(shapes@[i].0)),
                        (#[trigger] shapes@[i]).1.fields@,
                    ) == Err::<DeviceView, ErrorView>(e@) && forall|k: int|
                        0 <= k < i ==> Device::read(
                            GeometryView::Point(coord_of(shapes@[k].0)),
                            (#[trigger] shapes@[k]).1.fields@,
                        ) is Ok,
            },
    {
        let mut assets: Vec<Device> = Vec::new();
        let mut i: usize = 0;
        while i < shapes.len()
            invariant
                i <= shapes.len(),
                assets@.len() == i,
                forall|k: int|
                    0 <= k < i ==> Device::read(
                        GeometryView::Point(coord_of(shapes@[k].0)),
                        (#[trigger] shapes@[k]).1.fields@,
                    ) == Ok::<DeviceView, ErrorView>(assets@[k]@),
            decreases shapes.len() - i,
        {
            let geo = utils::read_geo_point(&shapes[i].0);
            match Device::from_shp(geo, &shapes[i].1) {
                Ok(asset) => assets.push(asset),
                Err(e) => {
                    assert(Device::read(
                        GeometryView::Point(coord_of(shapes@[i as int].0)),
                        shapes@[i as int].1.fields@,
                    ) == Err::<DeviceView, ErrorView>(e@));
                    return Err(e);
                },
            }
            i = i + 1;
        }
        Ok(Devices(assets))
    }
}


} // verus!
