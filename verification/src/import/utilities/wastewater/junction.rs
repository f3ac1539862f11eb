//! The junctions of the wastewater network: fittings and the like.
use crate::analytic::{AnyGeometry, GeometryView};
use crate::convert::coord_of;
use crate::error::{Error, ErrorView};
use crate::import::utilities::entity::Entity;
use crate::import::utilities::wastewater::owner::Owner;
use crate::legacy;
use crate::record::{number_of, text_of, to_i16, to_i8, within_i16, within_i8, Field, Record};
use crate::utils;
use vstd::prelude::*;

verus! {

/// The groups of wastewater junctions.
#[derive(Debug, Clone, Copy, PartialEq, Eq, PartialOrd, Ord, Hash, Structural)]
pub enum AssetGroup {
    /// The Sewer Fitting asset group in the SewerJunction feature class represents the junctions
    /// where pipes connect to other pipes.
    Fitting,
    /// The Wire Junction asset group in the SewerJunction feature class represents cathodic
    /// protection junction features that connect to pipes.
    Wire,
    /// The Insulation Junction asset group in the SewerJunction feature class represents cathodic
    /// protection junction features where the electric current stops.
    Insulation,
    /// Unknown
    Unknown,
}

impl Default for AssetGroup {
    fn default() -> (r: Self)
        ensures
            r == AssetGroup::Unknown,
    {
        AssetGroup::Unknown
    }
}

impl AssetGroup {
    /// The name of the group.
    pub open spec fn label(self) -> Seq<char> {
        match self {
            AssetGroup::Fitting => "Fitting"@,
            AssetGroup::Wire => "Wire"@,
            AssetGroup::Insulation => "Insulation"@,
            AssetGroup::Unknown => "Unknown"@,
        }
    }

    /// The name of the group.
    pub fn to_string(&self) -> (r: String)
        ensures
            r@ == self.label(),
    {
        match self {
            AssetGroup::Fitting => "Fitting".to_owned(),
            AssetGroup::Wire => "Wire".to_owned(),
            AssetGroup::Insulation => "Insulation".to_owned(),
            AssetGroup::Unknown => "Unknown".to_owned(),
        }
    }
}

impl AssetGroup {
    /// The group that a code stands for; a code that stands for none is `Unknown`.
    pub open spec fn of_code(value: i8) -> AssetGroup {
        if value == 0 {
            AssetGroup::Unknown
        } else if value == 20 {
            AssetGroup::Fitting
        } else if value == 50 {
            AssetGroup::Wire
        } else if value == 51 {
            AssetGroup::Insulation
        } else {
            AssetGroup::Unknown
        }
    }
}

impl From<i8> for AssetGroup {
    fn from(value: i8) -> (r: Self) {
        match value {
            0 => AssetGroup::Unknown,
            20 => AssetGroup::Fitting,
            50 => AssetGroup::Wire,
            51 => AssetGroup::Insulation,
            _ => AssetGroup::Unknown,
        }
    }
}

impl vstd::std_specs::convert::FromSpecImpl<i8> for AssetGroup {
    open spec fn obeys_from_spec() -> bool {
        true
    }

    open spec fn from_spec(value: i8) -> Self {
        AssetGroup::of_code(value)
    }
}

/// The types of wastewater junctions.
#[derive(Debug, Clone, Copy, PartialEq, Eq, PartialOrd, Ord, Hash, Structural)]
pub enum AssetType {
    /// Fitting with a socket at both ends connecting 2 pipes of the same size that is joined,
    /// welded, brazed or soldered.
    /// A sub-type of [`AssetGroup::Fitting`].
    Coupling,
    /// Fitting connecting 4 pipes of the same size.
    /// A sub-type of [`AssetGroup::Fitting`].
    Cross,
    /// Fitting connecting 2 pipes to allow a change in direction.
    /// A sub-type of [`AssetGroup::Fitting`].
    Elbow,
    /// Fitting to cover an open end of a pipe.
    /// A sub-type of [`AssetGroup::Fitting`].
    EndCap,
    /// Fitting connecting 2 pipes designed to absorb thermal expansion or movement.
    /// A sub-type of [`AssetGroup::Fitting`].
    ExpansionJoint,
    /// Fitting connecting pipes or valves with threaded bolts, wedges, clamps or other means of
    /// high compressive force.
    /// A sub-type of [`AssetGroup::Fitting`].
    Flange,
    /// Fitting inserted inside a pipe segment to stop flow.
    /// A sub-type of [`AssetGroup::Fitting`].
    Plug,
    /// Fitting connecting 2 pipes of different sizes.
    /// A sub-type of [`AssetGroup::Fitting`].
    Reducer,
    /// Fitting connecting 4 pipes of different sizes.
    /// A sub-type of [`AssetGroup::Fitting`].
    ReducingCross,
    /// Fitting connecting 3 pipes of different sizes.
    /// A sub-type of [`AssetGroup::Fitting`].
    ReducingTee,
    /// Fitting connecting 2 pipes by placing 2 different sides of the fitting around the pipes and
    /// securing in place with bolts.
    /// A sub-type of [`AssetGroup::Fitting`].
    Saddle,
    /// Fitting connection 2 pipes by screwing the pipes together.
    /// A sub-type of [`AssetGroup::Fitting`].
    Screw,
    /// Fitting connecting 2 pipes that by placing a sleeve over the pipe ends secured with clamps.
    /// A sub-type of [`AssetGroup::Fitting`].
    Sleeve,
    /// Fitting placed around a pipe and secured in place with bolts to enable a tap to be inserted in the pipe.
    /// A sub-type of [`AssetGroup::Fitting`].
    Tap,
    /// Fitting connection 2 different size pipes that is mounted around both sides of the larger
    /// pipe.
    /// A sub-type of [`AssetGroup::Fitting`].
    TappingSaddle,
    /// Fitting connection 3 pipes of the same size.
    /// A sub-type of [`AssetGroup::Fitting`].
    Tee,
    /// Fitting that transitions a pipe to another pipe of a different material.
    /// A sub-type of [`AssetGroup::Fitting`].
    Transition,
    /// Fitting that welds 2 pipes together.
    /// A sub-type of [`AssetGroup::Fitting`].
    Weld,
    /// Fitting connecting 3 pipes where a side inlet pipe joins at less than 90 degrees.
    /// A sub-type of [`AssetGroup::Fitting`].
    Wye,
    /// Unknown
    Unknown,
}

impl Default for AssetType {
    fn default() -> (r: Self)
        ensures
            r == AssetType::Unknown,
    {
        AssetType::Unknown
    }
}

impl AssetType {
    /// The name of the type.
    pub open spec fn label(self) -> Seq<char> {
        match self {
            AssetType::Coupling => "Coupling"@,
            AssetType::Cross => "Cross"@,
            AssetType::Elbow => "Elbow"@,
            AssetType::EndCap => "EndCap"@,
            AssetType::ExpansionJoint => "ExpansionJoint"@,
            AssetType::Flange => "Flange"@,
            AssetType::Plug => "Plug"@,
            AssetType::Reducer => "Reducer"@,
            AssetType::ReducingCross => "ReducingCross"@,
            AssetType::ReducingTee => "ReducingTee"@,
            AssetType::Saddle => "Saddle"@,
            AssetType::Screw => "Screw"@,
            AssetType::Sleeve => "Sleeve"@,
            AssetType::Tap => "Tap"@,
            AssetType::TappingSaddle => "TappingSaddle"@,
            AssetType::Tee => "Tee"@,
            AssetType::Transition => "Transition"@,
            AssetType::Weld => "Weld"@,
            AssetType::Wye => "Wye"@,
            AssetType::Unknown => "Unknown"@,
        }
    }

    /// The name of the type.
    pub fn to_string(&self) -> (r: String)
        ensures
            r@ == self.label(),
    {
        match self {
            AssetType::Coupling => "Coupling".to_owned(),
            AssetType::Cross => "Cross".to_owned(),
            AssetType::Elbow => "Elbow".to_owned(),
            AssetType::EndCap => "EndCap".to_owned(),
            AssetType::ExpansionJoint => "ExpansionJoint".to_owned(),
            AssetType::Flange => "Flange".to_owned(),
            AssetType::Plug => "Plug".to_owned(),
            AssetType::Reducer => "Reducer".to_owned(),
            AssetType::ReducingCross => "ReducingCross".to_owned(),
            AssetType::ReducingTee => "ReducingTee".to_owned(),
            AssetType::Saddle => "Saddle".to_owned(),
            AssetType::Screw => "Screw".to_owned(),
            AssetType::Sleeve => "Sleeve".to_owned(),
            AssetType::Tap => "Tap".to_owned(),
            AssetType::TappingSaddle => "TappingSaddle".to_owned(),
            AssetType::Tee => "Tee".to_owned(),
            AssetType::Transition => "Transition".to_owned(),
            AssetType::Weld => "Weld".to_owned(),
            AssetType::Wye => "Wye".to_owned(),
            AssetType::Unknown => "Unknown".to_owned(),
        }
    }
}

impl AssetType {
    /// The type that a code stands for; a code that stands for none is `Unknown`.
    pub open spec fn of_code(value: i16) -> AssetType {
        if value == 0 {
            AssetType::Unknown
        } else if value == 41 {
            AssetType::Coupling
        } else if value == 42 {
            AssetType::Cross
        } else if value == 43 {
            AssetType::Elbow
        } else if value == 44 {
            AssetType::EndCap
        } else if value == 45 {
            AssetType::ExpansionJoint
        } else if value == 46 {
            AssetType::Flange
        } else if value == 47 {
            AssetType::Plug
        } else if value == 48 {
            AssetType::Reducer
        } else if value == 49 {
            AssetType::ReducingCross
        } else if value == 50 {
            AssetType::ReducingTee
        } else if value == 51 {
            AssetType::Saddle
        } else if value == 52 {
            AssetType::Screw
        } else if value == 53 {
            AssetType::Sleeve
        } else if value == 54 {
            AssetType::Tap
        } else if value == 55 {
            AssetType::TappingSaddle
        } else if value == 56 {
            AssetType::Tee
        } else if value == 57 {
            AssetType::Transition
        } else if value == 58 {
            AssetType::Weld
        } else if value == 59 {
            AssetType::Wye
        } else {
            AssetType::Unknown
        }
    }
}

impl From<i16> for AssetType {
    fn from(value: i16) -> (r: Self) {
        match value {
            0 => AssetType::Unknown,
            41 => AssetType::Coupling,
            42 => AssetType::Cross,
            43 => AssetType::Elbow,
            44 => AssetType::EndCap,
            45 => AssetType::ExpansionJoint,
            46 => AssetType::Flange,
            47 => AssetType::Plug,
            48 => AssetType::Reducer,
            49 => AssetType::ReducingCross,
            50 => AssetType::ReducingTee,
            51 => AssetType::Saddle,
            52 => AssetType::Screw,
            53 => AssetType::Sleeve,
            54 => AssetType::Tap,
            55 => AssetType::TappingSaddle,
            56 => AssetType::Tee,
            57 => AssetType::Transition,
            58 => AssetType::Weld,
            59 => AssetType::Wye,
            _ => AssetType::Unknown,
        }
    }
}

impl vstd::std_specs::convert::FromSpecImpl<i16> for AssetType {
    open spec fn obeys_from_spec() -> bool {
        true
    }

    open spec fn from_spec(value: i16) -> Self {
        AssetType::of_code(value)
    }
}

/// A junction of the wastewater network. In the network the values of a domain
/// are coded as numbers; here each code has become the value it stands for.
#[derive(Debug, PartialEq)]
pub struct Junction {
    /// The group of the asset.
    pub asset_group: AssetGroup,
    /// The type of the asset.
    pub asset_type: AssetType,
    /// The identifier of the asset.
    pub asset_id: String,
    /// The identifier under which the asset was known before.
    pub historic_id: Option<String>,
    /// The owner of the asset.
    pub owner: Owner,
    /// Where the asset lies.
    pub geometry: AnyGeometry,
}

/// What a junction holds.
pub struct JunctionView {
    pub asset_group: AssetGroup,
    pub asset_type: AssetType,
    pub asset_id: Seq<char>,
    pub historic_id: Option<Seq<char>>,
    pub owner: Owner,
    pub geometry: GeometryView,
}

/// The junctions of a network.
#[derive(Debug, PartialEq)]
pub struct Junctions(pub Vec<Junction>);

impl View for Junction {
    type V = JunctionView;

    open spec fn view(&self) -> JunctionView {
        JunctionView {
            asset_group: self.asset_group,
            asset_type: self.asset_type,
            asset_id: self.asset_id@,
            historic_id: match self.historic_id {
                Some(id) => Some(id@),
                None => None,
            },
            owner: self.owner,
            geometry: self.geometry@,
        }
    }
}

impl View for Junctions {
    type V = Seq<JunctionView>;

    open spec fn view(&self) -> Seq<JunctionView> {
        Seq::new(self.0@.len(), |i: int| self.0@[i]@)
    }
}

impl Clone for Junction {
    fn clone(&self) -> (r: Self)
        ensures
            r@ == self@,
    {
        Junction {
            asset_group: self.asset_group,
            asset_type: self.asset_type,
            asset_id: self.asset_id.clone(),
            historic_id: match &self.historic_id {
                Some(id) => Some(id.clone()),
                None => None,
            },
            owner: self.owner,
            geometry: self.geometry.clone(),
        }
    }
}

impl Clone for Junctions {
    fn clone(&self) -> (r: Self)
        ensures
            r@ == self@,
    {
        let mut records: Vec<Junction> = Vec::new();
        let mut i: usize = 0;
        while i < self.0.len()
            invariant
                i <= self.0.len(),
                records@.len() == i,
                forall|k: int| 0 <= k < i ==> (#[trigger] records@[k])@ == self.0@[k]@,
            decreases self.0.len() - i,
        {
            records.push(self.0[i].clone());
            i = i + 1;
        }
        let r = Junctions(records);
        assert(r@ =~= self@);
        r
    }
}

impl Junction {
    /// The identifier of the asset.
    pub fn asset_id(&self) -> (r: &String)
        ensures
            r@ == self@.asset_id,
    {
        &self.asset_id
    }

    /// The identifier under which the asset was known before.
    pub fn historic_id(&self) -> (r: &Option<String>)
        ensures
            *r == self.historic_id,
    {
        &self.historic_id
    }

    /// The name of the group of the asset.
    pub fn asset_group(&self) -> (r: String)
        ensures
            r@ == self.asset_group.label(),
    {
        self.asset_group.to_string()
    }

    /// The name of the type of the asset.
    pub fn asset_type(&self) -> (r: String)
        ensures
            r@ == self.asset_type.label(),
    {
        self.asset_type.to_string()
    }

    /// The name of the owner of the asset.
    pub fn owner(&self) -> (r: String)
        ensures
            r@ == self.owner.label(),
    {
        self.owner.to_string()
    }

    /// Whether the asset goes by the given identifier, now or before.
    pub open spec fn known_as(asset: JunctionView, id: Seq<char>) -> bool {
        asset.asset_id == id || asset.historic_id == Some(id)
    }

    /// Whether the asset goes by the given identifier, now or before.
    pub fn is_known_as(&self, id: &String) -> (r: bool)
        ensures
            r == Junction::known_as(self@, id@),
    {
        if self.asset_id == *id {
            true
        } else {
            match &self.historic_id {
                Some(historic) => *historic == *id,
                None => false,
            }
        }
    }

    /// What the attributes of a shape say of the asset, or what is missing:
    /// the group, the type, the identifier and the owner are needed, and are
    /// asked for in this order.
    pub open spec fn read(geometry: GeometryView, fields: Seq<Field>) -> Result<JunctionView, ErrorView> {
        match number_of(fields, "ASSETGROUP"@) {
            None => Err(ErrorView::Hint("Failed to read an asset group."@)),
            Some(group) => match number_of(fields, "ASSETTYPE"@) {
                None => Err(ErrorView::Hint("Failed to read an asset type."@)),
                Some(kind) => match text_of(fields, "assetid"@) {
                    None => Err(ErrorView::Hint("Failed to read an asset id."@)),
                    Some(id) => match number_of(fields, "ownedby"@) {
                        None => Err(ErrorView::Hint("Failed to read owner field."@)),
                        Some(owner) => Ok(
                            JunctionView {
                                asset_group: AssetGroup::of_code(within_i8(group)),
                                asset_type: AssetType::of_code(within_i16(kind)),
                                asset_id: id,
                                historic_id: text_of(fields, "historicid"@),
                                owner: Owner::of_entity(Entity::of_code(within_i8(owner))),
                                geometry,
                            },
                        ),
                    },
                },
            },
        }
    }

    /// The asset that a shape and its attributes stand for.
    pub fn from_shp(geometry: AnyGeometry, record: &Record) -> (r: Result<Self, Error>)
        ensures
            match r {
                Ok(asset) => Junction::read(geometry@, record.fields@) == Ok::<JunctionView, ErrorView>(
                    asset@,
                ),
                Err(e) => Junction::read(geometry@, record.fields@) == Err::<JunctionView, ErrorView>(e@),
            },
    {
        let group = utils::read_num(record, "ASSETGROUP");
        let kind = utils::read_num(record, "ASSETTYPE");
        let id = utils::read_char(record, "assetid");
        let historic_id = utils::read_char(record, "historicid");
        let owner = utils::read_num(record, "ownedby");

        if let Some(asset_group) = group {
            let asset_group = AssetGroup::from(to_i8(asset_group));
            if let Some(asset_type) = kind {
                let asset_type = AssetType::from(to_i16(asset_type));
                if let Some(asset_id) = id {
                    if let Some(owner) = owner {
                        Ok(
                            Junction {
                                asset_group,
                                asset_type,
                                asset_id,
                                historic_id,
                                owner: Owner::from(&Entity::from(to_i8(owner))),
                                geometry,
                            },
                        )
                    } else {
                        Err(Error::Hint("Failed to read owner field.".to_owned()))
                    }
                } else {
                    Err(Error::Hint("Failed to read an asset id.".to_owned()))
                }
            } else {
                Err(Error::Hint("Failed to read an asset type.".to_owned()))
            }
        } else {
            Err(Error::Hint("Failed to read an asset group.".to_owned()))
        }
    }
}

/// The place of the first asset that goes by the given identifier, now or
/// before, or the number of assets where none does.
pub open spec fn first_known_as(assets: Seq<JunctionView>, id: Seq<char>) -> int
    decreases assets.len(),
{
    if assets.len() == 0 {
        0
    } else if Junction::known_as(assets.first(), id) {
        0
    } else {
        1 + first_known_as(assets.drop_first(), id)
    }
}

/// The first asset that goes by an identifier does so, and none before it.
pub proof fn lemma_first_known_as(assets: Seq<JunctionView>, id: Seq<char>)
    ensures
        0 <= first_known_as(assets, id) <= assets.len(),
        first_known_as(assets, id) < assets.len() ==> Junction::known_as(
            assets[first_known_as(assets, id)],
            id,
        ),
        forall|i: int| 0 <= i < first_known_as(assets, id) ==> !Junction::known_as(assets[i], id),
    decreases assets.len(),
{
    if assets.len() > 0 && !Junction::known_as(assets.first(), id) {
        let rest = assets.drop_first();
        lemma_first_known_as(rest, id);
        assert forall|i: int| 0 <= i < first_known_as(assets, id) implies !Junction::known_as(
            assets[i],
            id,
        ) by {
            if i > 0 {
                assert(assets[i] == rest[i - 1]);
            }
        }
    }
}

/// Where no asset before a place goes by an identifier, the first that does
/// is not before that place; where the asset at the place does, it is there.
pub proof fn lemma_first_known_as_from(assets: Seq<JunctionView>, id: Seq<char>, i: int)
    requires
        0 <= i <= assets.len(),
        forall|k: int| 0 <= k < i ==> !Junction::known_as(assets[k], id),
    ensures
        first_known_as(assets, id) >= i,
        i < assets.len() && Junction::known_as(assets[i], id) ==> first_known_as(assets, id) == i,
        i == assets.len() ==> first_known_as(assets, id) == i,
{
    lemma_first_known_as(assets, id);
}

impl Junctions {
    /// The list of the given assets.
    pub fn new(assets: Vec<Junction>) -> (r: Self)
        ensures
            r.0 == assets,
    {
        Junctions(assets)
    }

    /// How many assets there are.
    pub fn len(&self) -> (r: usize)
        ensures
            r == self@.len(),
    {
        self.0.len()
    }

    /// The first asset that goes by the given identifier, now or before.
    pub fn find(&self, id: &String) -> (r: Option<&Junction>)
        ensures
            match r {
                Some(asset) => first_known_as(self@, id@) < self@.len() && asset@
                    == self@[first_known_as(self@, id@)],
                None => first_known_as(self@, id@) == self@.len(),
            },
    {
        let mut i: usize = 0;
        while i < self.0.len()
            invariant
                i <= self.0.len(),
                forall|k: int| 0 <= k < i ==> !Junction::known_as(self@[k], id@),
            decreases self.0.len() - i,
        {
            if self.0[i].is_known_as(id) {
                proof {
                    lemma_first_known_as_from(self@, id@, i as int);
                }
                return Some(&self.0[i]);
            }
            i = i + 1;
        }
        proof {
            lemma_first_known_as_from(self@, id@, i as int);
        }
        None
    }

    /// The assets that the shapes of a file and their attributes stand for,
    /// in the order of the file, or what is missing in the first record that
    /// lacks something.
    pub fn from_shp_z(shapes: &Vec<(legacy::PointZ, Record)>) -> (r: Result<Self, Error>)
        ensures
            match r {
                Ok(assets) => assets@.len() == shapes@.len() && forall|i: int|
                    0 <= i < shapes@.len() ==> Junction::read(
                        GeometryView::Point(coord_of(shapes@[i].0)),
                        (#[trigger] shapes@[i]).1.fields@,
                    ) == Ok::<JunctionView, ErrorView>(assets@[i]),
                Err(e) => exists|i: int|
                    0 <= i < shapes@.len() && Junction::read(
                        GeometryView::Point(coord_of(shapes@[i].0)),
                        (#[trigger] shapes@[i]).1.fields@,
                    ) == Err::<JunctionView, ErrorView>(e@) && forall|k: int|
                        0 <= k < i ==> Junction::read(
                            GeometryView::Point(coord_of(shapes@[k].0)),
                            (#[trigger] shapes@[k]).1.fields@,
                        ) is Ok,
            },
    {
        let mut assets: Vec<Junction> = Vec::new();
        let mut i: usize = 0;
        while i < shapes.len()
            invariant
                i <= shapes.len(),
                assets@.len() == i,
                forall|k: int|
                    0 <= k < i ==> Junction::read(
                        GeometryView::Point(coord_of(shapes@[k].0)),
                        (#[trigger] shapes@[k]).1.fields@,
                    ) == Ok::<JunctionView, ErrorView>(assets@[k]@),
            decreases shapes.len() - i,
        {
            let geo = utils::read_geo_point(&shapes[i].0);
            match Junction::from_shp(geo, &shapes[i].1) {
                Ok(asset) => assets.push(asset),
                Err(e) => {
                    assert(Junction::read(
                        GeometryView::Point(coord_of(shapes@[i as int].0)),
                        shapes@[i as int].1.fields@,
                    ) == Err::<JunctionView, ErrorView>(e@));
                    return Err(e);
                },
            }
            i = i + 1;
        }
        Ok(Junctions(assets))
    }
}


} // verus!
