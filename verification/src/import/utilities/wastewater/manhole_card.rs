//! The cards of the manholes: pictures that are known by the identifiers of
//! the devices they show.
use crate::convert::Convert;
use crate::import::utilities::wastewater::device::{Device, DeviceView, Devices};
use crate::interchange::{
    collect_features, collection_holds, collection_text, feature_holds, feature_properties,
    no_properties, set_property, shape_of, write_collection, FeatureHeld, GeometryHeld,
};
use crate::paths::{
    file_path, lemma_known_extensions, path_text, push, set_extension, to_text,
};
use crate::text::clone_opt;
use vstd::prelude::*;

verus! {

/// The card of a manhole: a device of the network, and the picture of the card
/// that was kept of it.
#[derive(Debug, PartialEq)]
pub struct ManholeCard {
    /// The device that the card is of.
    asset: Device,
    /// Where the picture of the card lies.
    path: std::path::PathBuf,
}

/// What the card of a manhole holds.
pub struct ManholeCardView {
    pub asset: DeviceView,
    pub path: std::path::PathBuf,
}

impl View for ManholeCard {
    type V = ManholeCardView;

    closed spec fn view(&self) -> ManholeCardView {
        ManholeCardView {
            asset: self.asset@,
            path: self.path,
        }
    }
}

impl Clone for ManholeCard {
    fn clone(&self) -> (r: Self)
        ensures
            r@ == self@,
    {
        ManholeCard {
            asset: self.asset.clone(),
            path: self.path.clone(),
        }
    }
}

impl ManholeCard {
    /// The device that the card is of.
    pub fn asset(&self) -> (r: &Device)
        ensures
            (*r)@ == self@.asset,
    {
        &self.asset
    }

    /// Where the picture of the card lies.
    pub fn path(&self) -> (r: &std::path::PathBuf)
        ensures
            *r == self@.path,
    {
        &self.path
    }

    /// The same, but with another value for: the device that the card is of.
    pub fn with_asset(self, value: Device) -> (r: Self)
        ensures
            r@ == (ManholeCardView { asset: value@, ..self@ }),
    {
        let mut r = self;
        r.asset = value;
        r
    }

    /// The same, but with another value for: where the picture of the card lies.
    pub fn with_path(self, value: std::path::PathBuf) -> (r: Self)
        ensures
            r@ == (ManholeCardView { path: value, ..self@ }),
    {
        let mut r = self;
        r.path = value;
        r
    }
}

/// The cards of the manholes of a network.
#[derive(Debug, PartialEq)]
pub struct ManholeCards(pub Vec<ManholeCard>);

impl View for ManholeCards {
    type V = Seq<ManholeCardView>;

    open spec fn view(&self) -> Seq<ManholeCardView> {
        Seq::new(self.0@.len(), |i: int| self.0@[i]@)
    }
}

impl Clone for ManholeCards {
    fn clone(&self) -> (r: Self)
        ensures
            r@ == self@,
    {
        let mut items: Vec<ManholeCard> = Vec::new();
        let mut i: usize = 0;
        while i < self.0.len()
            invariant
                i <= self.0.len(),
                items@.len() == i,
                forall|k: int| 0 <= k < i ==> (#[trigger] items@[k])@ == self.0@[k]@,
            decreases self.0.len() - i,
        {
            items.push(self.0[i].clone());
            i = i + 1;
        }
        let r = ManholeCards(items);
        assert(r@ =~= self@);
        r
    }
}

impl ManholeCards {
    /// The list of the given cards.
    pub fn new(items: Vec<ManholeCard>) -> (r: Self)
        ensures
            r.0 == items,
    {
        ManholeCards(items)
    }

    /// How many cards there are.
    pub fn len(&self) -> (r: usize)
        ensures
            r == self@.len(),
    {
        self.0.len()
    }
}

/// The place of the first of the names that is one of two identifiers, or
/// the number of names where none is.
pub open spec fn first_named(names: Seq<String>, id: Seq<char>, historic: Seq<char>) -> int
    decreases names.len(),
{
    if names.len() == 0 {
        0
    } else if names.first()@ == id || names.first()@ == historic {
        0
    } else {
        1 + first_named(names.drop_first(), id, historic)
    }
}

/// Where no name before a place is one of the identifiers, the first that is
/// one is not before that place.
pub proof fn lemma_first_named(names: Seq<String>, id: Seq<char>, historic: Seq<char>, i: int)
    requires
        0 <= i <= names.len(),
        forall|k: int| 0 <= k < i ==> names[k]@ != id && names[k]@ != historic,
    ensures
        first_named(names, id, historic) <= names.len(),
        i < names.len() && (names[i]@ == id || names[i]@ == historic) ==> first_named(
            names,
            id,
            historic,
        ) == i,
        i == names.len() ==> first_named(names, id, historic) == i,
    decreases i,
{
    if i > 0 {
        let rest = names.drop_first();
        assert(names[0]@ != id && names[0]@ != historic);
        assert forall|k: int| 0 <= k < i - 1 implies rest[k]@ != id && rest[k]@ != historic by {
            assert(rest[k] == names[k + 1]);
        }
        lemma_first_named(rest, id, historic, i - 1);
        if i < names.len() {
            assert(rest[i - 1] == names[i]);
        }
    } else {
        lemma_first_named_bound(names, id, historic);
    }
}

/// The first name that is one of the identifiers is among the names, or there
/// is none.
pub proof fn lemma_first_named_bound(names: Seq<String>, id: Seq<char>, historic: Seq<char>)
    ensures
        0 <= first_named(names, id, historic) <= names.len(),
    decreases names.len(),
{
    if names.len() > 0 {
        lemma_first_named_bound(names.drop_first(), id, historic);
    }
}

/// The place of the first card of a device that was known by a name before,
/// or the number of cards where there is none.
pub open spec fn first_card(cards: Seq<ManholeCardView>, name: Seq<char>) -> int
    decreases cards.len(),
{
    if cards.len() == 0 {
        0
    } else if cards.first().asset.historic_id == Some(name) {
        0
    } else {
        1 + first_card(cards.drop_first(), name)
    }
}

/// Where no card before a place is of a device known by the name, the first
/// that is one is not before that place.
pub proof fn lemma_first_card(cards: Seq<ManholeCardView>, name: Seq<char>, i: int)
    requires
        0 <= i <= cards.len(),
        forall|k: int| 0 <= k < i ==> cards[k].asset.historic_id != Some(name),
    ensures
        0 <= first_card(cards, name) <= cards.len(),
        i < cards.len() && cards[i].asset.historic_id == Some(name) ==> first_card(cards, name)
            == i,
        i == cards.len() ==> first_card(cards, name) == i,
    decreases cards.len(),
{
    if cards.len() > 0 {
        let rest = cards.drop_first();
        if i > 0 {
            assert(cards[0].asset.historic_id != Some(name));
            assert forall|k: int| 0 <= k < i - 1 implies rest[k].asset.historic_id != Some(
                name,
            ) by {
                assert(rest[k] == cards[k + 1]);
            }
            lemma_first_card(rest, name, i - 1);
            if i < cards.len() {
                assert(rest[i - 1] == cards[i]);
            }
        } else {
            lemma_first_card(rest, name, 0);
        }
    }
}

/// Whether a card can be found for a device: the device was known by another
/// identifier before, and one of the names is one of its two identifiers.
pub open spec fn has_card(device: DeviceView, names: Seq<String>) -> bool {
    device.historic_id is Some && first_named(
        names,
        device.asset_id,
        device.historic_id->Some_0,
    ) < names.len()
}

/// The card of a device that has one: the picture is the file in the
/// directory that goes by the first name which is one of the two identifiers
/// of the device.
pub open spec fn card_of(device: DeviceView, names: Seq<String>, directory: std::path::PathBuf) -> ManholeCardView {
    ManholeCardView {
        asset: device,
        path: file_path(
            directory,
            names[first_named(names, device.asset_id, device.historic_id->Some_0)]@,
            "jpg"@,
        ),
    }
}

/// The cards of the devices that have one, in the order of the devices.
pub open spec fn with_cards(devices: Seq<DeviceView>, names: Seq<String>, directory: std::path::PathBuf) -> Seq<
    ManholeCardView,
>
    decreases devices.len(),
{
    if devices.len() == 0 {
        Seq::empty()
    } else if has_card(devices.last(), names) {
        with_cards(devices.drop_last(), names, directory).push(
            card_of(devices.last(), names, directory),
        )
    } else {
        with_cards(devices.drop_last(), names, directory)
    }
}

/// The names for which there is no card, in their order.
pub open spec fn orphans_of(cards: Seq<ManholeCardView>, names: Seq<String>) -> Seq<Seq<char>>
    decreases names.len(),
{
    if names.len() == 0 {
        Seq::empty()
    } else if first_card(cards, names.last()@) < cards.len() {
        orphans_of(cards, names.drop_last())
    } else {
        orphans_of(cards, names.drop_last()).push(names.last()@)
    }
}

/// The texts of a sequence, as characters.
pub open spec fn texts(names: Seq<String>) -> Seq<Seq<char>> {
    Seq::new(names.len(), |i: int| names[i]@)
}

/// The properties of the feature of a card.
pub open spec fn card_properties(card: ManholeCardView) -> Map<Seq<char>, Option<Seq<char>>> {
    no_properties().insert("asset_id"@, Some(card.asset.asset_id)).insert(
        "historic_id"@,
        card.asset.historic_id,
    ).insert("owner"@, Some(card.asset.owner.label())).insert("path"@, path_text(card.path))
}

/// The features of cards, with their geometry and their properties.
pub open spec fn features_of(features: Seq<geojson::Feature>, cards: Seq<ManholeCardView>) -> bool {
    features.len() == cards.len() && forall|i: int|
        0 <= i < features.len() ==> feature_properties(#[trigger] features[i])
            == card_properties(cards[i]) && feature_holds(features[i]) == (FeatureHeld {
            geometry: Some(
                GeometryHeld {
                    value: shape_of(cards[i].asset.geometry),
                    bbox: false,
                    foreign_members: false,
                },
            ),
            bbox: false,
            id: false,
            foreign_members: false,
        })
}

impl ManholeCard {
    /// The card of a device, with the picture at the given path.
    pub fn new(asset: Device, path: std::path::PathBuf) -> (r: Self)
        ensures
            r@ == (ManholeCardView { asset: asset@, path }),
    {
        ManholeCard { asset, path }
    }

    /// The card of a device, if there is one: the device must have been
    /// known by another identifier before, and one of the names of the
    /// pictures in the directory must be one of its two identifiers. The
    /// picture is the first with such a name.
    pub fn from_device(device: &Device, names: &Vec<String>, path: std::path::PathBuf) -> (r:
        Option<Self>)
        ensures
            r is Some <==> has_card(device@, names@),
            r is Some ==> r->Some_0@ == card_of(device@, names@, path),
    {
        match device.historic_id() {
            Some(historic_id) => {
                let mut i: usize = 0;
                while i < names.len()
                    invariant
                        i <= names.len(),
                        device@.historic_id == Some(historic_id@),
                        forall|k: int|
                            0 <= k < i ==> names@[k]@ != device@.asset_id && names@[k]@
                                != historic_id@,
                    decreases names.len() - i,
                {
                    if names[i] == *device.asset_id() || names[i] == *historic_id {
                        proof {
                            lemma_first_named(names@, device@.asset_id, historic_id@, i as int);
                        }
                        proof {
                            lemma_known_extensions();
                        }
                        let path = set_extension(push(path, names[i].as_str()), "jpg");
                        return Some(ManholeCard { asset: device.clone(), path });
                    }
                    i = i + 1;
                }
                proof {
                    lemma_first_named(names@, device@.asset_id, historic_id@, i as int);
                }
                None
            },
            None => None,
        }
    }

    /// The GeoJSON feature of the card: the geometry of the device, and as
    /// properties the identifiers and the owner of the device and the path
    /// of the picture.
    pub fn feature(&self) -> (r: geojson::Feature)
        ensures
            feature_holds(r) == (FeatureHeld {
                geometry: Some(
                    GeometryHeld {
                        value: shape_of(self@.asset.geometry),
                        bbox: false,
                        foreign_members: false,
                    },
                ),
                bbox: false,
                id: false,
                foreign_members: false,
            }),
            feature_properties(r) == card_properties(self@),
    {
        let mut result = Convert::new(self.asset.geometry.clone()).geojson_feature();
        set_property(&mut result, "asset_id", Some(self.asset.asset_id().clone()));
        set_property(&mut result, "historic_id", clone_opt(self.asset.historic_id()));
        set_property(&mut result, "owner", Some(self.asset.owner()));
        set_property(&mut result, "path", to_text(&self.path));
        result
    }
}

impl ManholeCards {
    /// The cards of the devices for which there is one, in the order of the
    /// devices.
    pub fn from_devices(devices: &Devices, names: &Vec<String>, path: std::path::PathBuf) -> (r:
        Self)
        ensures
            r@ == with_cards(devices@, names@, path),
    {
        let mut cards: Vec<ManholeCard> = Vec::new();
        let mut i: usize = 0;
        assert(ManholeCards(cards)@ =~= with_cards(devices@.take(0), names@, path));
        while i < devices.0.len()
            invariant
                i <= devices.0.len(),
                ManholeCards(cards)@ == with_cards(devices@.take(i as int), names@, path),
            decreases devices.0.len() - i,
        {
            let ghost before = ManholeCards(cards)@;
            assert(devices@.take(i + 1).drop_last() =~= devices@.take(i as int));
            match ManholeCard::from_device(&devices.0[i], names, path.clone()) {
                Some(card) => {
                    cards.push(card);
                    assert(ManholeCards(cards)@ =~= before.push(card@));
                },
                None => {
                    assert(ManholeCards(cards)@ =~= before);
                },
            }
            i = i + 1;
        }
        assert(devices@.take(i as int) =~= devices@);
        ManholeCards(cards)
    }

    /// The first card of a device that was known by the given name before.
    pub fn get(&self, name: &str) -> (r: Option<ManholeCard>)
        ensures
            match r {
                Some(card) => first_card(self@, name@) < self@.len() && card@
                    == self@[first_card(self@, name@)],
                None => first_card(self@, name@) == self@.len(),
            },
    {
        let wanted = name.to_owned();
        let mut i: usize = 0;
        while i < self.0.len()
            invariant
                i <= self.0.len(),
                wanted@ == name@,
                forall|k: int| 0 <= k < i ==> self@[k].asset.historic_id != Some(name@),
            decreases self.0.len() - i,
        {
            let found = match self.0[i].asset.historic_id() {
                Some(historic) => *historic == wanted,
                None => false,
            };
            if found {
                proof {
                    lemma_first_card(self@, name@, i as int);
                }
                return Some(self.0[i].clone());
            }
            i = i + 1;
        }
        proof {
            lemma_first_card(self@, name@, i as int);
        }
        None
    }

    /// Whether there is a card of a device that was known by the given name
    /// before.
    pub fn contains(&self, name: &str) -> (r: bool)
        ensures
            r == (first_card(self@, name@) < self@.len()),
    {
        self.get(name).is_some()
    }

    /// The names for which there is no card, in their order.
    pub fn orphans(&self, names: &Vec<String>) -> (r: Vec<String>)
        ensures
            texts(r@) == orphans_of(self@, names@),
    {
        let mut orphans: Vec<String> = Vec::new();
        let mut i: usize = 0;
        while i < names.len()
            invariant
                i <= names.len(),
                texts(orphans@) == orphans_of(self@, names@.take(i as int)),
            decreases names.len() - i,
        {
            let ghost before = texts(orphans@);
            assert(names@.take(i + 1).drop_last() =~= names@.take(i as int));
            if !self.contains(names[i].as_str()) {
                orphans.push(names[i].clone());
                assert(texts(orphans@) =~= before.push(names@[i as int]@));
            }
            i = i + 1;
        }
        assert(names@.take(i as int) =~= names@);
        orphans
    }

    /// The GeoJSON features of the cards, in their order.
    pub fn feature_collection(&self) -> (r: geojson::FeatureCollection)
        ensures
            features_of(collection_holds(r), self@),
    {
        let mut features: Vec<geojson::Feature> = Vec::new();
        let mut i: usize = 0;
        while i < self.0.len()
            invariant
                i <= self.0.len(),
                features_of(features@, self@.take(i as int)),
            decreases self.0.len() - i,
        {
            let feature = self.0[i].feature();
            features.push(feature);
            i = i + 1;
        }
        assert(self@.take(i as int) =~= self@);
        collect_features(features)
    }

    /// The cards written as a GeoJSON text.
    pub fn geojson(&self) -> (r: String)
        ensures
            exists|collection: geojson::FeatureCollection|
                features_of(collection_holds(collection), self@) && r@ == collection_text(
                    collection,
                ),
    {
        let collection = self.feature_collection();
        write_collection(&collection)
    }
}

} // verus!
