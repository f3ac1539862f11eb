//! The lines of the wastewater network: mains, laterals and the like.
use crate::analytic::{AnyGeometry, GeometryView};
use crate::convert::lines_of;
use crate::error::{Error, ErrorView};
use crate::import::utilities::entity::Entity;
use crate::import::utilities::wastewater::owner::Owner;
use crate::legacy;
use crate::record::{number_of, text_of, to_i16, to_i8, within_i16, within_i8, Field, Record};
use crate::utils;
use vstd::prelude::*;

verus! {

/// The groups of wastewater lines.
#[derive(Debug, Clone, Copy, PartialEq, Eq, PartialOrd, Ord, Hash, Structural)]
pub enum AssetGroup {
    /// The Bonding Line asset group in the SewerLine feature class represents cathodic protection
    /// with a line feature connecting protected and non-protected features.
    BondingLine,
    /// The Sewer Force Main asset group in the SewerLine feature class represents pipes with a
    /// primary role lifting wastewater to a higher elevation.
    ForceMain,
    /// The Sewer Gravity Main asset group in the SewerLine feature class represents pipes using
    /// gravity to collect and transport wastewater.
    GravityMain,
    /// The Lateral asset group in the SewerLine feature class represents service lines with a
    /// primary role of transporting wastewater from the customer to the main.
    Lateral,
    /// The Rectifier Cable asset group in the SewerLine Feature class represents cathodic
    /// protection wire that connects the rectifier to the pipe.
    RectifierCable,
    /// The Test Lead Wire asset group in the SewerLine Feature class represents cathodic
    /// protection connecting from the test point to protected pipes.
    TestLeadWire,
    /// Unknown
    Unknown,
}

impl Default for AssetGroup {
    fn default() -> (r: Self)
        ensures
            r == AssetGroup::Unknown,
    {
        AssetGroup::Unknown
    }
}

impl AssetGroup {
    /// The name of the group.
    pub open spec fn label(self) -> Seq<char> {
        match self {
            AssetGroup::BondingLine => "BondingLine"@,
            AssetGroup::ForceMain => "ForceMain"@,
            AssetGroup::GravityMain => "GravityMain"@,
            AssetGroup::Lateral => "Lateral"@,
            AssetGroup::RectifierCable => "RectifierCable"@,
            AssetGroup::TestLeadWire => "TestLeadWire"@,
            AssetGroup::Unknown => "Unknown"@,
        }
    }

    /// The name of the group.
    pub fn to_string(&self) -> (r: String)
        ensures
            r@ == self.label(),
    {
        match self {
            AssetGroup::BondingLine => "BondingLine".to_owned(),
            AssetGroup::ForceMain => "ForceMain".to_owned(),
            AssetGroup::GravityMain => "GravityMain".to_owned(),
            AssetGroup::Lateral => "Lateral".to_owned(),
            AssetGroup::RectifierCable => "RectifierCable".to_owned(),
            AssetGroup::TestLeadWire => "TestLeadWire".to_owned(),
            AssetGroup::Unknown => "Unknown".to_owned(),
        }
    }
}

impl AssetGroup {
    /// The group that a code stands for; a code that stands for none is `Unknown`.
    pub open spec fn of_code(value: i8) -> AssetGroup {
        if value == 0 {
            AssetGroup::Unknown
        } else if value == 1 {
            AssetGroup::GravityMain
        } else if value == 2 {
            AssetGroup::ForceMain
        } else if value == 3 {
            AssetGroup::Lateral
        } else if value == 50 {
            AssetGroup::BondingLine
        } else if value == 51 {
            AssetGroup::TestLeadWire
        } else if value == 52 {
            AssetGroup::RectifierCable
        } else {
            AssetGroup::Unknown
        }
    }
}

impl From<i8> for AssetGroup {
    fn from(value: i8) -> (r: Self) {
        match value {
            0 => AssetGroup::Unknown,
            1 => AssetGroup::GravityMain,
            2 => AssetGroup::ForceMain,
            3 => AssetGroup::Lateral,
            50 => AssetGroup::BondingLine,
            51 => AssetGroup::TestLeadWire,
            52 => AssetGroup::RectifierCable,
            _ => AssetGroup::Unknown,
        }
    }
}

impl vstd::std_specs::convert::FromSpecImpl<i8> for AssetGroup {
    open spec fn obeys_from_spec() -> bool {
        true
    }

    open spec fn from_spec(value: i8) -> Self {
        AssetGroup::of_code(value)
    }
}

/// The types of wastewater lines.
#[derive(Debug, Clone, Copy, PartialEq, Eq, PartialOrd, Ord, Hash, Structural)]
pub enum AssetType {
    /// Aqua test lead wire.
    /// A sub-type of [`AssetGroup::TestLeadWire`].
    Aqua,
    /// Blue test lead wire.
    /// A sub-type of [`AssetGroup::TestLeadWire`].
    Blue,
    /// Sewer Gravity Main to collect wastewater.
    /// A sub-type of [`AssetGroup::GravityMain`].
    Collector,
    /// A Commercial lateral service.
    /// A sub-type of [`AssetGroup::Lateral`].
    Commercial,
    /// Sewer Force main to collect wastewater.
    /// A sub-type of [`AssetGroup::ForceMain`].
    ForceMain,
    /// Forest test lead wire.
    /// A sub-type of [`AssetGroup::TestLeadWire`].
    Forest,
    /// Green test lead wire.
    /// A sub-type of [`AssetGroup::TestLeadWire`].
    Green,
    /// An Industrial lateral service.
    Industrial,
    /// Sewer Gravity Main to transport wastewater to the treatment plant.
    /// A sub-type of [`AssetGroup::GravityMain`].
    Interceptor,
    /// Lavender test lead wire.
    /// A sub-type of [`AssetGroup::TestLeadWire`].
    Lavender,
    /// Orange test lead wire.
    /// A sub-type of [`AssetGroup::TestLeadWire`].
    Orange,
    /// Pink test lead wire.
    /// A sub-type of [`AssetGroup::TestLeadWire`].
    Pink,
    /// Rectifier cable used for connecting rectifier to pipe for cathodic protection.
    /// A sub-type of [`AssetGroup::RectifierCable`].
    RectifierCable,
    /// Red test lead wire.
    /// A sub-type of [`AssetGroup::TestLeadWire`].
    Red,
    /// A residential lateral service.
    /// A sub-type of [`AssetGroup::Lateral`].
    Residential,
    /// Strap bonding line.
    /// A sub-type of [`AssetGroup::BondingLine`].
    Strap,
    /// Wire bonding line.
    /// A sub-type of [`AssetGroup::BondingLine`].
    Wire,
    /// Yellow test lead wire.
    /// A sub-type of [`AssetGroup::TestLeadWire`].
    Yellow,
    /// Unknown
    Unknown,
}

impl Default for AssetType {
    fn default() -> (r: Self)
        ensures
            r == AssetType::Unknown,
    {
        AssetType::Unknown
    }
}

impl AssetType {
    /// The name of the type.
    pub open spec fn label(self) -> Seq<char> {
        match self {
            AssetType::Aqua => "Aqua"@,
            AssetType::Blue => "Blue"@,
            AssetType::Collector => "Collector"@,
            AssetType::Commercial => "Commercial"@,
            AssetType::ForceMain => "ForceMain"@,
            AssetType::Forest => "Forest"@,
            AssetType::Green => "Green"@,
            AssetType::Industrial => "Industrial"@,
            AssetType::Interceptor => "Interceptor"@,
            AssetType::Lavender => "Lavender"@,
            AssetType::Orange => "Orange"@,
            AssetType::Pink => "Pink"@,
            AssetType::RectifierCable => "RectifierCable"@,
            AssetType::Red => "Red"@,
            AssetType::Residential => "Residential"@,
            AssetType::Strap => "Strap"@,
            AssetType::Wire => "Wire"@,
            AssetType::Yellow => "Yellow"@,
            AssetType::Unknown => "Unknown"@,
        }
    }

    /// The name of the type.
    pub fn to_string(&self) -> (r: String)
        ensures
            r@ == self.label(),
    {
        match self {
            AssetType::Aqua => "Aqua".to_owned(),
            AssetType::Blue => "Blue".to_owned(),
            AssetType::Collector => "Collector".to_owned(),
            AssetType::Commercial => "Commercial".to_owned(),
            AssetType::ForceMain => "ForceMain".to_owned(),
            AssetType::Forest => "Forest".to_owned(),
            AssetType::Green => "Green".to_owned(),
            AssetType::Industrial => "Industrial".to_owned(),
            AssetType::Interceptor => "Interceptor".to_owned(),
            AssetType::Lavender => "Lavender".to_owned(),
            AssetType::Orange => "Orange".to_owned(),
            AssetType::Pink => "Pink".to_owned(),
            AssetType::RectifierCable => "RectifierCable".to_owned(),
            AssetType::Red => "Red".to_owned(),
            AssetType::Residential => "Residential".to_owned(),
            AssetType::Strap => "Strap".to_owned(),
            AssetType::Wire => "Wire".to_owned(),
            AssetType::Yellow => "Yellow".to_owned(),
            AssetType::Unknown => "Unknown".to_owned(),
        }
    }
}

impl AssetType {
    /// The type that a code stands for; a code that stands for none is `Unknown`.
    pub open spec fn of_code(value: i16) -> AssetType {
        if value == 0 {
            AssetType::Unknown
        } else if value == 1 {
            AssetType::Collector
        } else if value == 2 {
            AssetType::Interceptor
        } else if value == 41 {
            AssetType::ForceMain
        } else if value == 121 {
            AssetType::Commercial
        } else if value == 122 {
            AssetType::Industrial
        } else if value == 123 {
            AssetType::Residential
        } else if value == 901 {
            AssetType::Aqua
        } else if value == 902 {
            AssetType::Blue
        } else if value == 903 {
            AssetType::Forest
        } else if value == 904 {
            AssetType::Green
        } else if value == 905 {
            AssetType::Lavender
        } else if value == 906 {
            AssetType::Orange
        } else if value == 907 {
            AssetType::Pink
        } else if value == 908 {
            AssetType::Red
        } else if value == 909 {
            AssetType::Yellow
        } else if value == 941 {
            AssetType::Wire
        } else if value == 942 {
            AssetType::Strap
        } else if value == 961 {
            AssetType::RectifierCable
        } else {
            AssetType::Unknown
        }
    }
}

impl From<i16> for AssetType {
    fn from(value: i16) -> (r: Self) {
        match value {
            0 => AssetType::Unknown,
            1 => AssetType::Collector,
            2 => AssetType::Interceptor,
            41 => AssetType::ForceMain,
            121 => AssetType::Commercial,
            122 => AssetType::Industrial,
            123 => AssetType::Residential,
            901 => AssetType::Aqua,
            902 => AssetType::Blue,
            903 => AssetType::Forest,
            904 => AssetType::Green,
            905 => AssetType::Lavender,
            906 => AssetType::Orange,
            907 => AssetType::Pink,
            908 => AssetType::Red,
            909 => AssetType::Yellow,
            941 => AssetType::Wire,
            942 => AssetType::Strap,
            961 => AssetType::RectifierCable,
            _ => AssetType::Unknown,
        }
    }
}

impl vstd::std_specs::convert::FromSpecImpl<i16> for AssetType {
    open spec fn obeys_from_spec() -> bool {
        true
    }

    open spec fn from_spec(value: i16) -> Self {
        AssetType::of_code(value)
    }
}

/// A line of the wastewater network. In the network the values of a domain are
/// coded as numbers; here each code has become the value it stands for.
#[derive(Debug, PartialEq)]
pub struct Line {
    /// The group of the asset.
    pub asset_group: AssetGroup,
    /// The type of the asset.
    pub asset_type: AssetType,
    /// The identifier of the asset.
    pub asset_id: String,
    /// The identifier under which the asset was known before.
    pub historic_id: Option<String>,
    /// The owner of the asset.
    pub owner: Owner,
    /// Where the asset lies.
    pub geometry: AnyGeometry,
}

/// What a line holds.
pub struct LineView {
    pub asset_group: AssetGroup,
    pub asset_type: AssetType,
    pub asset_id: Seq<char>,
    pub historic_id: Option<Seq<char>>,
    pub owner: Owner,
    pub geometry: GeometryView,
}

/// The lines of a network.
#[derive(Debug, PartialEq)]
pub struct Lines(pub Vec<Line>);

impl View for Line {
    type V = LineView;

    open spec fn view(&self) -> LineView {
        LineView {
            asset_group: self.asset_group,
            asset_type: self.asset_type,
            asset_id: self.asset_id@,
            historic_id: match self.historic_id {
                Some(id) => Some(id@),
                None => None,
            },
            owner: self.owner,
            geometry: self.geometry@,
        }
    }
}

impl View for Lines {
    type V = Seq<LineView>;

    open spec fn view(&self) -> Seq<LineView> {
        Seq::new(self.0@.len(), |i: int| self.0@[i]@)
    }
}

impl Clone for Line {
    fn clone(&self) -> (r: Self)
        ensures
            r@ == self@,
    {
        Line {
            asset_group: self.asset_group,
            asset_type: self.asset_type,
            asset_id: self.asset_id.clone(),
            historic_id: match &self.historic_id {
                Some(id) => Some(id.clone()),
                None => None,
            },
            owner: self.owner,
            geometry: self.geometry.clone(),
        }
    }
}

impl Clone for Lines {
    fn clone(&self) -> (r: Self)
        ensures
            r@ == self@,
    {
        let mut records: Vec<Line> = Vec::new();
        let mut i: usize = 0;
        while i < self.0.len()
            invariant
                i <= self.0.len(),
                records@.len() == i,
                forall|k: int| 0 <= k < i ==> (#[trigger] records@[k])@ == self.0@[k]@,
            decreases self.0.len() - i,
        {
            records.push(self.0[i].clone());
            i = i + 1;
        }
        let r = Lines(records);
        assert(r@ =~= self@);
        r
    }
}

impl Line {
    /// The identifier of the asset.
    pub fn asset_id(&self) -> (r: &String)
        ensures
            r@ == self@.asset_id,
    {
        &self.asset_id
    }

    /// The identifier under which the asset was known before.
    pub fn historic_id(&self) -> (r: &Option<String>)
        ensures
            *r == self.historic_id,
    {
        &self.historic_id
    }

    /// The name of the group of the asset.
    pub fn asset_group(&self) -> (r: String)
        ensures
            r@ == self.asset_group.label(),
    {
        self.asset_group.to_string()
    }

    /// The name of the type of the asset.
    pub fn asset_type(&self) -> (r: String)
        ensures
            r@ == self.asset_type.label(),
    {
        self.asset_type.to_string()
    }

    /// The name of the owner of the asset.
    pub fn owner(&self) -> (r: String)
        ensures
            r@ == self.owner.label(),
    {
        self.owner.to_string()
    }

    /// Whether the asset goes by the given identifier, now or before.
    pub open spec fn known_as(asset: LineView, id: Seq<char>) -> bool {
        asset.asset_id == id || asset.historic_id == Some(id)
    }

    /// Whether the asset goes by the given identifier, now or before.
    pub fn is_known_as(&self, id: &String) -> (r: bool)
        ensures
            r == Line::known_as(self@, id@),
    {
        if self.asset_id == *id {
            true
        } else {
            match &self.historic_id {
                Some(historic) => *historic == *id,
                None => false,
            }
        }
    }

    /// What the attributes of a shape say of the asset, or what is missing:
    /// the group, the type, the identifier and the owner are needed, and are
    /// asked for in this order.
    pub open spec fn read(geometry: GeometryView, fields: Seq<Field>) -> Result<LineView, ErrorView> {
        match number_of(fields, "ASSETGROUP"@) {
            None => Err(ErrorView::Hint("Failed to read an asset group."@)),
            Some(group) => match number_of(fields, "ASSETTYPE"@) {
                None => Err(ErrorView::Hint("Failed to read an asset type."@)),
                Some(kind) => match text_of(fields, "assetid"@) {
                    None => Err(ErrorView::Hint("Failed to read an asset id."@)),
                    Some(id) => match number_of(fields, "ownedby"@) {
                        None => Err(ErrorView::Hint("Failed to read owner field."@)),
                        Some(owner) => Ok(
                            LineView {
                                asset_group: AssetGroup::of_code(within_i8(group)),
                                asset_type: AssetType::of_code(within_i16(kind)),
                                asset_id: id,
                                historic_id: text_of(fields, "historicid"@),
                                owner: Owner::of_entity(Entity::of_code(within_i8(owner))),
                                geometry,
                            },
                        ),
                    },
                },
            },
        }
    }

    /// The asset that a shape and its attributes stand for.
    pub fn from_shp(geometry: AnyGeometry, record: &Record) -> (r: Result<Self, Error>)
        ensures
            match r {
                Ok(asset) => Line::read(geometry@, record.fields@) == Ok::<LineView, ErrorView>(
                    asset@,
                ),
                Err(e) => Line::read(geometry@, record.fields@) == Err::<LineView, ErrorView>(e@),
            },
    {
        let group = utils::read_num(record, "ASSETGROUP");
        let kind = utils::read_num(record, "ASSETTYPE");
        let id = utils::read_char(record, "assetid");
        let historic_id = utils::read_char(record, "historicid");
        let owner = utils::read_num(record, "ownedby");

        if let Some(asset_group) = group {
            let asset_group = AssetGroup::from(to_i8(asset_group));
            if let Some(asset_type) = kind {
                let asset_type = AssetType::from(to_i16(asset_type));
                if let Some(asset_id) = id {
                    if let Some(owner) = owner {
                        Ok(
                            Line {
                                asset_group,
                                asset_type,
                                asset_id,
                                historic_id,
                                owner: Owner::from(&Entity::from(to_i8(owner))),
                                geometry,
                            },
                        )
                    } else {
                        Err(Error::Hint("Failed to read owner field.".to_owned()))
                    }
                } else {
                    Err(Error::Hint("Failed to read an asset id.".to_owned()))
                }
            } else {
                Err(Error::Hint("Failed to read an asset type.".to_owned()))
            }
        } else {
            Err(Error::Hint("Failed to read an asset group.".to_owned()))
        }
    }
}

/// The place of the first asset that goes by the given identifier, now or
/// before, or the number of assets where none does.
pub open spec fn first_known_as(assets: Seq<LineView>, id: Seq<char>) -> int
    decreases assets.len(),
{
    if assets.len() == 0 {
        0
    } else if Line::known_as(assets.first(), id) {
        0
    } else {
        1 + first_known_as(assets.drop_first(), id)
    }
}

/// The first asset that goes by an identifier does so, and none before it.
pub proof fn lemma_first_known_as(assets: Seq<LineView>, id: Seq<char>)
    ensures
        0 <= first_known_as(assets, id) <= assets.len(),
        first_known_as(assets, id) < assets.len() ==> Line::known_as(
            assets[first_known_as(assets, id)],
            id,
        ),
        forall|i: int| 0 <= i < first_known_as(assets, id) ==> !Line::known_as(assets[i], id),
    decreases assets.len(),
{
    if assets.len() > 0 && !Line::known_as(assets.first(), id) {
        let rest = assets.drop_first();
        lemma_first_known_as(rest, id);
        assert forall|i: int| 0 <= i < first_known_as(assets, id) implies !Line::known_as(
            assets[i],
            id,
        ) by {
            if i > 0 {
                assert(assets[i] == rest[i - 1]);
            }
        }
    }
}

/// Where no asset before a place goes by an identifier, the first that does
/// is not before that place; where the asset at the place does, it is there.
pub proof fn lemma_first_known_as_from(assets: Seq<LineView>, id: Seq<char>, i: int)
    requires
        0 <= i <= assets.len(),
        forall|k: int| 0 <= k < i ==> !Line::known_as(assets[k], id),
    ensures
        first_known_as(assets, id) >= i,
        i < assets.len() && Line::known_as(assets[i], id) ==> first_known_as(assets, id) == i,
        i == assets.len() ==> first_known_as(assets, id) == i,
{
    lemma_first_known_as(assets, id);
}

impl Lines {
    /// The list of the given assets.
    pub fn new(assets: Vec<Line>) -> (r: Self)
        ensures
            r.0 == assets,
    {
        Lines(assets)
    }

    /// How many assets there are.
    pub fn len(&self) -> (r: usize)
        ensures
            r == self@.len(),
    {
        self.0.len()
    }

    /// The first asset that goes by the given identifier, now or before.
    pub fn find(&self, id: &String) -> (r: Option<&Line>)
        ensures
            match r {
                Some(asset) => first_known_as(self@, id@) < self@.len() && asset@
                    == self@[first_known_as(self@, id@)],
                None => first_known_as(self@, id@) == self@.len(),
            },
    {
        let mut i: usize = 0;
        while i < self.0.len()
            invariant
                i <= self.0.len(),
                forall|k: int| 0 <= k < i ==> !Line::known_as(self@[k], id@),
            decreases self.0.len() - i,
        {
            if self.0[i].is_known_as(id) {
                proof {
                    lemma_first_known_as_from(self@, id@, i as int);
                }
                return Some(&self.0[i]);
            }
            i = i + 1;
        }
        proof {
            lemma_first_known_as_from(self@, id@, i as int);
        }
        None
    }

    /// The assets that the shapes of a file and their attributes stand for,
    /// in the order of the file, or what is missing in the first record that
    /// lacks something.
    pub fn from_shp_z(shapes: &Vec<(legacy::GenericPolyline<legacy::PointZ>, Record)>) -> (r: Result<Self, Error>)
        ensures
            match r {
                Ok(assets) => assets@.len() == shapes@.len() && forall|i: int|
                    0 <= i < shapes@.len() ==> Line::read(
                        GeometryView::MultiLineString(lines_of(shapes@[i].0@)),
                        (#[trigger] shapes@[i]).1.fields@,
                    ) == Ok::<LineView, ErrorView>(assets@[i]),
                Err(e) => exists|i: int|
                    0 <= i < shapes@.len() && Line::read(
                        GeometryView::MultiLineString(lines_of(shapes@[i].0@)),
                        (#[trigger] shapes@[i]).1.fields@,
                    ) == Err::<LineView, ErrorView>(e@) && forall|k: int|
                        0 <= k < i ==> Line::read(
                            GeometryView::MultiLineString(lines_of(shapes@[k].0@)),
                            (#[trigger] shapes@[k]).1.fields@,
                        ) is Ok,
            },
    {
        let mut assets: Vec<Line> = Vec::new();
        let mut i: usize = 0;
        while i < shapes.len()
            invariant
                i <= shapes.len(),
                assets@.len() == i,
                forall|k: int|
                    0 <= k < i ==> Line::read(
                        GeometryView::MultiLineString(lines_of(shapes@[k].0@)),
                        (#[trigger] shapes@[k]).1.fields@,
                    ) == Ok::<LineView, ErrorView>(assets@[k]@),
            decreases shapes.len() - i,
        {
            let geo = utils::read_geo_line(&shapes[i].0);
            match Line::from_shp(geo, &shapes[i].1) {
                Ok(asset) => assets.push(asset),
                Err(e) => {
                    assert(Line::read(
                        GeometryView::MultiLineString(lines_of(shapes@[i as int].0@)),
                        shapes@[i as int].1.fields@,
                    ) == Err::<LineView, ErrorView>(e@));
                    return Err(e);
                },
            }
            i = i + 1;
        }
        Ok(Lines(assets))
    }
}


} // verus!
