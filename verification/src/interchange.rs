//! The interchange format: GeoJSON values, made by the `geojson` crate from
//! the geometries of the analytical model.
//!
//! A GeoJSON value is the crate's own; what it holds is told here as nested
//! sequences of positions, and each position as the bit patterns of its
//! numbers.
use crate::analytic::{
    closed, Coord, GeometryView, Line, LineString, MultiLineString, MultiPoint, MultiPolygon,
    Point, Polygon, PolygonView, Rect, Triangle,
};
use crate::float;
use vstd::prelude::*;

verus! {

#[verifier::external_type_specification]
#[verifier::external_body]
pub struct ExValue(geojson::Value);

#[verifier::external_type_specification]
#[verifier::external_body]
pub struct ExGeometry(geojson::Geometry);

#[verifier::external_type_specification]
#[verifier::external_body]
pub struct ExFeature(geojson::Feature);

#[verifier::external_type_specification]
#[verifier::external_body]
pub struct ExFeatureCollection(geojson::FeatureCollection);

/// What a GeoJSON value holds.
pub enum Shape {
    /// One position.
    Point(Seq<u64>),
    /// Positions.
    MultiPoint(Seq<Seq<u64>>),
    /// The positions of one line.
    LineString(Seq<Seq<u64>>),
    /// Lines.
    MultiLineString(Seq<Seq<Seq<u64>>>),
    /// The rings of one polygon, the exterior ring first.
    Polygon(Seq<Seq<Seq<u64>>>),
    /// Polygons.
    MultiPolygon(Seq<Seq<Seq<Seq<u64>>>>),
    /// The values of the member geometries.
    GeometryCollection(Seq<Shape>),
}

/// What a GeoJSON geometry object holds.
pub struct GeometryHeld {
    /// Its value.
    pub value: Shape,
    /// Whether it has a bounding box.
    pub bbox: bool,
    /// Whether it has members that the format does not define.
    pub foreign_members: bool,
}

/// What a GeoJSON feature holds, but for its properties.
pub struct FeatureHeld {
    /// Its geometry, if it has one.
    pub geometry: Option<GeometryHeld>,
    /// Whether it has a bounding box.
    pub bbox: bool,
    /// Whether it has an identifier.
    pub id: bool,
    /// Whether it has members that the format does not define.
    pub foreign_members: bool,
}

/// What the value holds.
pub uninterp spec fn value_holds(value: geojson::Value) -> Shape;

/// What the geometry object holds.
pub uninterp spec fn geometry_holds(geometry: geojson::Geometry) -> GeometryHeld;

/// What the feature holds, but for its properties.
pub uninterp spec fn feature_holds(feature: geojson::Feature) -> FeatureHeld;

/// The properties of the feature: for each name the text given under it, or
/// none where the property is not a text. A feature without properties has
/// no names.
pub uninterp spec fn feature_properties(feature: geojson::Feature) -> Map<Seq<char>, Option<Seq<char>>>;

/// The features of the collection, in their order.
pub uninterp spec fn collection_holds(collection: geojson::FeatureCollection) -> Seq<
    geojson::Feature,
>;

/// The collection written as a GeoJSON text.
pub uninterp spec fn collection_text(collection: geojson::FeatureCollection) -> Seq<char>;

/// No properties at all.
pub open spec fn no_properties() -> Map<Seq<char>, Option<Seq<char>>> {
    Map::empty()
}

/// A position: the first ordinate, then the second.
pub open spec fn position(coord: Coord) -> Seq<u64> {
    seq![coord.x, coord.y]
}

/// The positions of a line, in its order.
pub open spec fn positions(coords: Seq<Coord>) -> Seq<Seq<u64>> {
    Seq::new(coords.len(), |i: int| position(coords[i]))
}

/// The positions of several lines.
pub open spec fn lines(lines: Seq<Seq<Coord>>) -> Seq<Seq<Seq<u64>>> {
    Seq::new(lines.len(), |i: int| positions(lines[i]))
}

/// The rings of a polygon, each closed: the exterior ring, then the holes.
pub open spec fn rings(polygon: PolygonView) -> Seq<Seq<Seq<u64>>> {
    seq![positions(closed(polygon.exterior))] + Seq::new(
        polygon.interiors.len(),
        |i: int| positions(closed(polygon.interiors[i])),
    )
}

/// The rectangle with its corners in order: on each axis the smaller
/// ordinate in `min`, unless the two do not compare.
pub open spec fn normalized(rect: Rect) -> Rect {
    Rect {
        min: Coord {
            x: if float::lt(rect.min.x, rect.max.x) { rect.min.x } else { rect.max.x },
            y: if float::lt(rect.min.y, rect.max.y) { rect.min.y } else { rect.max.y },
        },
        max: Coord {
            x: if float::lt(rect.min.x, rect.max.x) { rect.max.x } else { rect.min.x },
            y: if float::lt(rect.min.y, rect.max.y) { rect.max.y } else { rect.min.y },
        },
    }
}

/// The ring around a rectangle: from the corner of largest first and smallest
/// second ordinate, against the clock, and back to it.
pub open spec fn rect_ring(rect: Rect) -> Seq<Coord> {
    seq![
        Coord { x: rect.max.x, y: rect.min.y },
        Coord { x: rect.max.x, y: rect.max.y },
        Coord { x: rect.min.x, y: rect.max.y },
        Coord { x: rect.min.x, y: rect.min.y },
        Coord { x: rect.max.x, y: rect.min.y },
    ]
}

/// The ring around a triangle: its three corners and the first again.
pub open spec fn triangle_ring(triangle: Triangle) -> Seq<Coord> {
    seq![triangle.0, triangle.1, triangle.2, triangle.0]
}

/// What the GeoJSON value of a geometry holds.
pub open spec fn shape_of(geometry: GeometryView) -> Shape
    decreases geometry,
{
    match geometry {
        GeometryView::Point(g) => Shape::Point(position(g)),
        GeometryView::Line(g) => Shape::LineString(seq![position(g.start), position(g.end)]),
        GeometryView::LineString(g) => Shape::LineString(positions(g)),
        GeometryView::Polygon(g) => Shape::Polygon(rings(g)),
        GeometryView::MultiPoint(g) => Shape::MultiPoint(positions(g)),
        GeometryView::MultiLineString(g) => Shape::MultiLineString(lines(g)),
        GeometryView::MultiPolygon(g) => Shape::MultiPolygon(
            Seq::new(g.len(), |i: int| rings(g[i])),
        ),
        GeometryView::GeometryCollection(g) => Shape::GeometryCollection(
            Seq::new(
                g.len(),
                |i: int|
                    if 0 <= i < g.len() {
                        shape_of(g[i])
                    } else {
                        Shape::GeometryCollection(Seq::empty())
                    },
            ),
        ),
        GeometryView::Rect(g) => Shape::Polygon(seq![positions(closed(rect_ring(normalized(g))))]),
        GeometryView::Triangle(g) => Shape::Polygon(seq![positions(closed(triangle_ring(g)))]),
    }
}

/// What the values of a sequence hold.
pub open spec fn shapes(values: Seq<geojson::Value>) -> Seq<Shape> {
    Seq::new(values.len(), |i: int| value_holds(values[i]))
}

/// Calls `geojson::Value::from` on a `geo_types::Point`: a `Point` value with
/// the position of the point.
#[verifier::external_body]
pub(crate) fn point_value(point: &Point) -> (r: geojson::Value)
    ensures
        value_holds(r) == shape_of(GeometryView::Point(point.0)),
{
    let number = |bits: u64| num_traits::FromBytes::from_ne_bytes(&bits.to_ne_bytes());
    let point: geo_types::Point = geo_types::Point::new(number(point.0.x), number(point.0.y));
    geojson::Value::from(&point)
}

/// Calls `geojson::Value::from` on a `geo_types::Line`: a `LineString` value
/// with the positions of its start and its end.
#[verifier::external_body]
pub(crate) fn line_value(line: &Line) -> (r: geojson::Value)
    ensures
        value_holds(r) == shape_of(GeometryView::Line(*line)),
{
    let number = |bits: u64| num_traits::FromBytes::from_ne_bytes(&bits.to_ne_bytes());
    let line: geo_types::Line = geo_types::Line::new(
        (number(line.start.x), number(line.start.y)),
        (number(line.end.x), number(line.end.y)),
    );
    geojson::Value::from(&line)
}

/// Calls `geojson::Value::from` on a `geo_types::LineString`: a `LineString`
/// value with the positions of the line.
#[verifier::external_body]
pub(crate) fn line_string_value(line: &LineString) -> (r: geojson::Value)
    ensures
        value_holds(r) == shape_of(GeometryView::LineString(line@)),
{
    let number = |bits: u64| num_traits::FromBytes::from_ne_bytes(&bits.to_ne_bytes());
    let line: geo_types::LineString =
        line.0.iter().map(|c| (number(c.x), number(c.y))).collect();
    geojson::Value::from(&line)
}

/// Calls `geojson::Value::from` on a `geo_types::Polygon` built by
/// `geo_types::Polygon::new`: a `Polygon` value with the closed exterior ring
/// and then the closed holes.
#[verifier::external_body]
pub(crate) fn polygon_value(polygon: &Polygon) -> (r: geojson::Value)
    ensures
        value_holds(r) == shape_of(GeometryView::Polygon(polygon@)),
{
    let number = |bits: u64| num_traits::FromBytes::from_ne_bytes(&bits.to_ne_bytes());
    let line = |l: &LineString| -> geo_types::LineString {
        l.0.iter().map(|c| (number(c.x), number(c.y))).collect()
    };
    let polygon = geo_types::Polygon::new(
        line(polygon.exterior()),
        polygon.interiors().iter().map(line).collect(),
    );
    geojson::Value::from(&polygon)
}

/// Calls `geojson::Value::from` on a `geo_types::MultiPoint`: a `MultiPoint`
/// value with the positions of the points.
#[verifier::external_body]
pub(crate) fn multi_point_value(points: &MultiPoint) -> (r: geojson::Value)
    ensures
        value_holds(r) == shape_of(GeometryView::MultiPoint(points@)),
{
    let number = |bits: u64| num_traits::FromBytes::from_ne_bytes(&bits.to_ne_bytes());
    let points: geo_types::MultiPoint =
        points.0.iter().map(|p| (number(p.0.x), number(p.0.y))).collect();
    geojson::Value::from(&points)
}

/// Calls `geojson::Value::from` on a `geo_types::MultiLineString`: a
/// `MultiLineString` value with the positions of each line.
#[verifier::external_body]
pub(crate) fn multi_line_string_value(lines: &MultiLineString) -> (r: geojson::Value)
    ensures
        value_holds(r) == shape_of(GeometryView::MultiLineString(lines@)),
{
    let number = |bits: u64| num_traits::FromBytes::from_ne_bytes(&bits.to_ne_bytes());
    let line = |l: &LineString| -> geo_types::LineString {
        l.0.iter().map(|c| (number(c.x), number(c.y))).collect()
    };
    let lines: geo_types::MultiLineString = lines.0.iter().map(line).collect();
    geojson::Value::from(&lines)
}

/// Calls `geojson::Value::from` on a `geo_types::MultiPolygon` of polygons
/// built by `geo_types::Polygon::new`: a `MultiPolygon` value with the closed
/// rings of each polygon.
#[verifier::external_body]
pub(crate) fn multi_polygon_value(polygons: &MultiPolygon) -> (r: geojson::Value)
    ensures
        value_holds(r) == shape_of(GeometryView::MultiPolygon(polygons@)),
{
    let number = |bits: u64| num_traits::FromBytes::from_ne_bytes(&bits.to_ne_bytes());
    let line = |l: &LineString| -> geo_types::LineString {
        l.0.iter().map(|c| (number(c.x), number(c.y))).collect()
    };
    let polygon = |p: &Polygon| {
        geo_types::Polygon::new(line(p.exterior()), p.interiors().iter().map(line).collect())
    };
    geojson::Value::from(&geo_types::MultiPolygon::new(polygons.0.iter().map(polygon).collect()))
}

/// Calls `geojson::Value::from` on a `geo_types::Rect` built by
/// `geo_types::Rect::new`, which puts the corners in order: a `Polygon` value
/// with the one closed ring around the rectangle.
#[verifier::external_body]
pub(crate) fn rect_value(rect: &Rect) -> (r: geojson::Value)
    ensures
        value_holds(r) == shape_of(GeometryView::Rect(*rect)),
{
    let number = |bits: u64| num_traits::FromBytes::from_ne_bytes(&bits.to_ne_bytes());
    let rect: geo_types::Rect = geo_types::Rect::new(
        (number(rect.min.x), number(rect.min.y)),
        (number(rect.max.x), number(rect.max.y)),
    );
    geojson::Value::from(&rect)
}

/// Calls `geojson::Value::from` on a `geo_types::Triangle` with the three
/// corners as they are given: a `Polygon` value with the one closed ring
/// around the triangle.
#[verifier::external_body]
#[allow(deprecated)]
pub(crate) fn triangle_value(triangle: &Triangle) -> (r: geojson::Value)
    ensures
        value_holds(r) == shape_of(GeometryView::Triangle(*triangle)),
{
    let number = |bits: u64| num_traits::FromBytes::from_ne_bytes(&bits.to_ne_bytes());
    let coord = |c: Coord| geo_types::Coord::from((number(c.x), number(c.y)));
    let triangle: geo_types::Triangle =
        geo_types::Triangle(coord(triangle.0), coord(triangle.1), coord(triangle.2));
    geojson::Value::from(&triangle)
}

/// Builds `geojson::Value::GeometryCollection` from the members' values, each
/// wrapped by `geojson::Geometry::new`, as `geojson::Value::from` does for a
/// `geo_types::GeometryCollection`.
#[verifier::external_body]
pub(crate) fn collection_value(members: Vec<geojson::Value>) -> (r: geojson::Value)
    ensures
        value_holds(r) == Shape::GeometryCollection(shapes(members@)),
{
    geojson::Value::GeometryCollection(members.into_iter().map(geojson::Geometry::new).collect())
}

/// Calls `geojson::Geometry::new`: a geometry object with the value and
/// nothing else.
#[verifier::external_body]
pub(crate) fn geometry_new(value: geojson::Value) -> (r: geojson::Geometry)
    ensures
        geometry_holds(r) == (GeometryHeld {
            value: value_holds(value),
            bbox: false,
            foreign_members: false,
        }),
{
    geojson::Geometry::new(value)
}

/// Calls `geojson::Feature::from` on a geometry object: a feature with that
/// geometry, its bounding box and its foreign members, and neither an
/// identifier nor properties.
#[verifier::external_body]
pub(crate) fn feature_from(geometry: geojson::Geometry) -> (r: geojson::Feature)
    ensures
        feature_holds(r) == (FeatureHeld {
            geometry: Some(geometry_holds(geometry)),
            bbox: geometry_holds(geometry).bbox,
            id: false,
            foreign_members: geometry_holds(geometry).foreign_members,
        }),
        feature_properties(r) == no_properties(),
{
    geojson::Feature::from(geometry)
}

/// Calls `geojson::Feature::set_property` with a text, or with nothing, which
/// is written as `null`: the feature has the property from then on, in place
/// of any it had under that name, and is otherwise as before.
#[verifier::external_body]
pub(crate) fn set_property(feature: &mut geojson::Feature, key: &str, value: Option<String>)
    ensures
        feature_holds(*final(feature)) == feature_holds(*old(feature)),
        feature_properties(*final(feature)) == feature_properties(*old(feature)).insert(
            key@,
            match value {
                Some(text) => Some(text@),
                None => None,
            },
        ),
{
    feature.set_property(key, value)
}

/// Collects features into a `geojson::FeatureCollection`: the features, in
/// their order.
#[verifier::external_body]
pub(crate) fn collect_features(features: Vec<geojson::Feature>) -> (r: geojson::FeatureCollection)
    ensures
        collection_holds(r) == features@,
{
    features.into_iter().collect()
}

/// Calls `to_string` on a `geojson::FeatureCollection`: the collection
/// written as a GeoJSON text.
#[verifier::external_body]
pub(crate) fn write_collection(collection: &geojson::FeatureCollection) -> (r: String)
    ensures
        r@ == collection_text(*collection),
{
    collection.to_string()
}

/// The GeoJSON value of a geometry: each kind is handed to the conversion
/// that `geojson` has for it, and the members of a collection are converted
/// one by one.
#[verifier::loop_isolation(false)]
pub fn value_of(geometry: &crate::analytic::AnyGeometry) -> (r: geojson::Value)
    ensures
        value_holds(r) == shape_of(geometry@),
    decreases geometry,
{
    match geometry {
        crate::analytic::AnyGeometry::Point(g) => point_value(g),
        crate::analytic::AnyGeometry::Line(g) => line_value(g),
        crate::analytic::AnyGeometry::LineString(g) => line_string_value(g),
        crate::analytic::AnyGeometry::Polygon(g) => polygon_value(g),
        crate::analytic::AnyGeometry::MultiPoint(g) => multi_point_value(g),
        crate::analytic::AnyGeometry::MultiLineString(g) => multi_line_string_value(g),
        crate::analytic::AnyGeometry::MultiPolygon(g) => multi_polygon_value(g),
        crate::analytic::AnyGeometry::GeometryCollection(g) => {
            let mut members: Vec<geojson::Value> = Vec::new();
            let mut i: usize = 0;
            while i < g.0.len()
                invariant
                    i <= g.0.len(),
                    members@.len() == i,
                    forall|k: int|
                        0 <= k < i ==> value_holds(#[trigger] members@[k]) == shape_of(g.0@[k]@),
                decreases g.0.len() - i,
            {
                let member = value_of(&g.0[i]);
                members.push(member);
                i = i + 1;
            }
            let r = collection_value(members);
            assert(geometry@ == GeometryView::GeometryCollection(g@));
            assert(forall|k: int| 0 <= k < g@.len() ==> g@[k] == g.0@[k]@);
            assert(shapes(members@) =~= shape_of(geometry@)->GeometryCollection_0);
            r
        },
        crate::analytic::AnyGeometry::Rect(g) => rect_value(g),
        crate::analytic::AnyGeometry::Triangle(g) => triangle_value(g),
    }
}

/// Whatever the kind of a geometry, its GeoJSON value is of the kind that
/// goes with it: a line is a `LineString`, a rectangle or a triangle a
/// `Polygon`, and every other kind keeps its name.
pub proof fn lemma_kinds(geometry: GeometryView)
    ensures
        geometry is Point <==> shape_of(geometry) is Point,
        geometry is Line || geometry is LineString <==> shape_of(geometry) is LineString,
        geometry is Polygon || geometry is Rect || geometry is Triangle <==> shape_of(
            geometry,
        ) is Polygon,
        geometry is MultiPoint <==> shape_of(geometry) is MultiPoint,
        geometry is MultiLineString <==> shape_of(geometry) is MultiLineString,
        geometry is MultiPolygon <==> shape_of(geometry) is MultiPolygon,
        geometry is GeometryCollection <==> shape_of(geometry) is GeometryCollection,
{
}

} // verus!
