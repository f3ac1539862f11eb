//! Conversions between the models. Wrap a value in a [`Convert`] with
//! [`Convert::new`], then call the conversion that yields the wanted type.
//!
//! No conversion changes a number: every ordinate arrives with the bit
//! pattern it left with, and points keep their order. An elevation is left
//! behind where the target has no place for it.
use crate::analytic;
use crate::analytic::{
    all_numbers, bounding_rect_of, bounds, lines_view, polygons_view, touches, Coord, GeometryView,
};
use crate::assembly::{assemble, read, Assembler, TaggedRing};
use crate::bounds::{aggregate, aggregate_of, lemma_aggregate_encloses};
use crate::float;
use crate::interchange::{
    feature_from, feature_holds, feature_properties, geometry_holds, geometry_new, no_properties,
    shape_of, value_holds, value_of, FeatureHeld, GeometryHeld,
};
use crate::legacy;
use crate::legacy::HasXY;
use crate::render;
use crate::render::{contours_view, ordered, Point2d};
use vstd::prelude::*;

verus! {

/// Holds a value of one model and offers the conversions from it.
#[derive(Debug, Clone)]
pub struct Convert<T: std::fmt::Debug + Clone>(pub T);

/// A point of the plane, whatever it is made of.
pub trait CartesianPoint2d {
    /// The bit pattern of the first ordinate.
    spec fn spec_x(&self) -> u64;

    /// The bit pattern of the second ordinate.
    spec fn spec_y(&self) -> u64;

    /// The bit pattern of the first ordinate.
    fn x(&self) -> (r: u64)
        ensures
            r == self.spec_x(),
    ;

    /// The bit pattern of the second ordinate.
    fn y(&self) -> (r: u64)
        ensures
            r == self.spec_y(),
    ;
}

/// The point of the rendering model at a position.
pub open spec fn planar(coord: Coord) -> Point2d {
    Point2d { x: coord.x, y: coord.y }
}

/// The points of the rendering model at the positions of a line, in its
/// order.
pub open spec fn planar_points(coords: Seq<Coord>) -> Seq<Point2d> {
    Seq::new(coords.len(), |i: int| planar(coords[i]))
}

/// The polygon of the rendering model with the rings of a polygon as its
/// contours.
pub open spec fn planar_polygon(polygon: analytic::PolygonView) -> render::PolygonView {
    render::PolygonView {
        outer_contour: planar_points(polygon.exterior),
        inner_contours: Seq::new(
            polygon.interiors.len(),
            |i: int| planar_points(polygon.interiors[i]),
        ),
    }
}

/// The polygons of the rendering model for a sequence of polygons.
pub open spec fn planar_polygons(polygons: Seq<analytic::PolygonView>) -> Seq<
    render::PolygonView,
> {
    Seq::new(polygons.len(), |i: int| planar_polygon(polygons[i]))
}

/// The rectangle of the rendering model with the corners of a rectangle as
/// its bounds.
pub open spec fn planar_rect(rect: analytic::Rect) -> render::Rect {
    ordered(rect.min.x, rect.min.y, rect.max.x, rect.max.y)
}

/// The bounding rectangle of a polygon: that of its exterior ring, or none
/// where the ring is empty.
pub open spec fn polygon_bounds(polygon: analytic::PolygonView) -> Option<render::Rect> {
    match bounding_rect_of(polygon.exterior) {
        Some(rect) => Some(planar_rect(rect)),
        None => None,
    }
}

/// Whether a point lies within a rectangle, its sides included.
pub open spec fn within(rect: render::Rect, point: Point2d) -> bool {
    &&& float::le(rect.x_min, point.x)
    &&& float::le(point.x, rect.x_max)
    &&& float::le(rect.y_min, point.y)
    &&& float::le(point.y, rect.y_max)
}

/// Whether every point of a contour lies within a rectangle.
pub open spec fn holds(rect: render::Rect, points: Seq<Point2d>) -> bool {
    forall|i: int| 0 <= i < points.len() ==> within(rect, #[trigger] points[i])
}

/// The bounding rectangle of a ring whose ordinates are numbers has numbers
/// as its bounds, keeps them in order, and holds every point of the ring.
pub proof fn lemma_bounds_hold(rect: analytic::Rect, ring: Seq<Coord>)
    requires
        ring.len() > 0,
        all_numbers(ring),
        touches(rect, ring),
        bounds(rect, ring),
    ensures
        planar_rect(rect) == (render::Rect {
            x_min: rect.min.x,
            y_min: rect.min.y,
            x_max: rect.max.x,
            y_max: rect.max.y,
        }),
        !float::is_nan(rect.min.x) && !float::is_nan(rect.min.y) && !float::is_nan(rect.max.x)
            && !float::is_nan(rect.max.y),
        holds(planar_rect(rect), planar_points(ring)),
{
    assert(analytic::encloses(rect, ring[0]));
    assert forall|i: int| 0 <= i < planar_points(ring).len() implies within(
        planar_rect(rect),
        #[trigger] planar_points(ring)[i],
    ) by {
        assert(analytic::encloses(rect, ring[i]));
    }
}

/// A rectangle that lies around another holds every point the other holds.
pub proof fn lemma_holds_within(outer: render::Rect, inner: render::Rect, points: Seq<Point2d>)
    requires
        float::le(outer.x_min, inner.x_min),
        float::le(outer.y_min, inner.y_min),
        float::ge(outer.x_max, inner.x_max),
        float::ge(outer.y_max, inner.y_max),
        holds(inner, points),
    ensures
        holds(outer, points),
{
    assert forall|i: int| 0 <= i < points.len() implies within(outer, #[trigger] points[i]) by {
        assert(within(inner, points[i]));
    }
}

/// The bounding rectangles of the polygons of a sequence.
pub open spec fn parts_bounds(polygons: Seq<analytic::PolygonView>) -> Seq<Option<render::Rect>> {
    Seq::new(polygons.len(), |i: int| polygon_bounds(polygons[i]))
}

/// The position of a point of the flat file model.
pub open spec fn coord_of<P: HasXY>(point: P) -> Coord {
    Coord { x: point.spec_x(), y: point.spec_y() }
}

/// The positions of the points of a sequence, in its order.
pub open spec fn coords_of<P: HasXY>(points: Seq<P>) -> Seq<Coord> {
    Seq::new(points.len(), |i: int| coord_of(points[i]))
}

/// The positions of the parts of a polyline.
pub open spec fn lines_of<P: HasXY>(parts: Seq<Vec<P>>) -> Seq<Seq<Coord>> {
    Seq::new(parts.len(), |i: int| coords_of(parts[i]@))
}

/// The rings of a polygon record as the grouping reads them.
pub open spec fn tagged<P: HasXY>(rings: Seq<legacy::PolygonRing<P>>) -> Seq<TaggedRing> {
    Seq::new(
        rings.len(),
        |i: int| TaggedRing { outer: rings[i].is_outer(), coords: coords_of(rings[i].spec_points()) },
    )
}

/// A point that has been taken to another model and on to a third is where
/// the point taken there at once is, and a point taken to its own model is
/// the point itself: each ordinate keeps its bit pattern on every way.
pub proof fn lemma_point_round_trip<P: HasXY>(source: P, point: analytic::Point)
    ensures
        planar(analytic::Point(coord_of(source)).0) == planar(coord_of(source)),
        analytic::Point(analytic::Point(coord_of(source)).0) == analytic::Point(coord_of(source)),
        analytic::Point(point.0) == point,
        planar(analytic::Point(point.0).0) == planar(point.0),
        planar(coord_of(source)).x == source.spec_x(),
        planar(coord_of(source)).y == source.spec_y(),
        planar(point.0).x == point.0.x,
        planar(point.0).y == point.0.y,
{
}

fn contour_of(line: &analytic::LineString) -> (r: render::ClosedContour)
    ensures
        r@ == planar_points(line@),
{
    let mut points: Vec<Point2d> = Vec::new();
    let mut i: usize = 0;
    while i < line.0.len()
        invariant
            i <= line.0.len(),
            points@.len() == i,
            forall|k: int| 0 <= k < i ==> #[trigger] points@[k] == planar(line@[k]),
        decreases line.0.len() - i,
    {
        points.push(Convert::new(line.0[i]).point());
        i = i + 1;
    }
    assert(points@ =~= planar_points(line@));
    render::ClosedContour::new(points)
}

fn polygon_of(polygon: &analytic::Polygon) -> (r: render::Polygon)
    ensures
        r@ == planar_polygon(polygon@),
{
    let outer = contour_of(polygon.exterior());
    let interiors = polygon.interiors();
    let mut inner: Vec<render::ClosedContour> = Vec::new();
    let mut i: usize = 0;
    while i < interiors.len()
        invariant
            i <= interiors.len(),
            inner@.len() == i,
            forall|k: int| 0 <= k < i ==> (#[trigger] inner@[k])@ == planar_points(interiors@[k]@),
        decreases interiors.len() - i,
    {
        inner.push(contour_of(&interiors[i]));
        i = i + 1;
    }
    assert(contours_view(inner@) =~= planar_polygon(polygon@).inner_contours);
    render::Polygon::new(outer, inner)
}

fn bounded_polygon_of(polygon: &analytic::Polygon) -> (r: (render::Polygon, Option<render::Rect>))
    ensures
        r.0@ == planar_polygon(polygon@),
        r.1 == polygon_bounds(polygon@),
        r.1 is None <==> polygon@.exterior.len() == 0,
        r.1 is Some && all_numbers(polygon@.exterior) ==> holds(r.1->Some_0, r.0@.outer_contour)
            && !float::is_nan(r.1->Some_0.x_min) && !float::is_nan(r.1->Some_0.y_min)
            && !float::is_nan(r.1->Some_0.x_max) && !float::is_nan(r.1->Some_0.y_max),
{
    match polygon.exterior().bounding_rect() {
        Some(rect) => {
            let bounds = render::Rect::new(rect.min.x, rect.min.y, rect.max.x, rect.max.y);
            proof {
                if all_numbers(polygon@.exterior) {
                    lemma_bounds_hold(rect, polygon@.exterior);
                }
            }
            (polygon_of(polygon), Some(bounds))
        },
        None => (polygon_of(polygon), None),
    }
}

fn line_of<P: HasXY>(points: &Vec<P>) -> (r: analytic::LineString)
    ensures
        r@ == coords_of(points@),
{
    let mut coords: Vec<Coord> = Vec::new();
    let mut i: usize = 0;
    while i < points.len()
        invariant
            i <= points.len(),
            coords@.len() == i,
            forall|k: int| 0 <= k < i ==> #[trigger] coords@[k] == coord_of(points@[k]),
        decreases points.len() - i,
    {
        coords.push(Coord { x: points[i].x(), y: points[i].y() });
        i = i + 1;
    }
    assert(coords@ =~= coords_of(points@));
    analytic::LineString::new(coords)
}

fn polygons_of<P: HasXY>(rings: &Vec<legacy::PolygonRing<P>>) -> (r: Vec<analytic::Polygon>)
    ensures
        polygons_view(r@) == assemble(tagged(rings@)),
{
    let mut assembler = Assembler::new();
    let mut i: usize = 0;
    while i < rings.len()
        invariant
            i <= rings.len(),
            assembler@ == read(tagged(rings@).take(i as int)),
        decreases rings.len() - i,
    {
        let line = line_of(rings[i].points());
        let outer = match &rings[i] {
            legacy::PolygonRing::Outer(_) => true,
            legacy::PolygonRing::Inner(_) => false,
        };
        assert(tagged(rings@).take(i + 1).drop_last() =~= tagged(rings@).take(i as int));
        assembler = assembler.push(outer, line);
        i = i + 1;
    }
    assert(tagged(rings@).take(i as int) =~= tagged(rings@));
    assembler.finish()
}

fn lines_of_parts(parts: &Vec<Vec<legacy::PointZ>>) -> (r: Vec<analytic::LineString>)
    ensures
        lines_view(r@) == lines_of(parts@),
{
    let mut lines: Vec<analytic::LineString> = Vec::new();
    let mut i: usize = 0;
    while i < parts.len()
        invariant
            i <= parts.len(),
            lines@.len() == i,
            forall|k: int| 0 <= k < i ==> (#[trigger] lines@[k])@ == coords_of(parts@[k]@),
        decreases parts.len() - i,
    {
        lines.push(line_of(&parts[i]));
        i = i + 1;
    }
    assert(lines_view(lines@) =~= lines_of(parts@));
    lines
}

impl<T: std::fmt::Debug + Clone> Convert<T> {
    /// Wraps `from`.
    pub fn new(from: T) -> (r: Self)
        ensures
            r.0 == from,
    {
        Convert(from)
    }

    /// The value that was wrapped.
    pub fn into_inner(self) -> (r: T)
        ensures
            r == self.0,
    {
        self.0
    }
}

impl Convert<analytic::MultiPolygon> {
    /// The polygons of the rendering model, one for each polygon and in the
    /// same order.
    pub fn multipolygon(self) -> (r: render::MultiPolygon)
        ensures
            r@ == planar_polygons(self.0@),
    {
        let mut parts: Vec<render::Polygon> = Vec::new();
        let mut i: usize = 0;
        while i < self.0.0.len()
            invariant
                i <= self.0.0.len(),
                parts@.len() == i,
                forall|k: int| 0 <= k < i ==> (#[trigger] parts@[k])@ == planar_polygon(self.0@[k]),
            decreases self.0.0.len() - i,
        {
            parts.push(polygon_of(&self.0.0[i]));
            i = i + 1;
        }
        let r = render::MultiPolygon { parts };
        assert(r@ =~= planar_polygons(self.0@));
        r
    }

    /// The polygons of the rendering model, and one rectangle for all of
    /// them: the bounds start at the largest and the smallest finite number,
    /// and the bounding rectangle of each exterior ring that is not empty
    /// lowers or raises them. Where no ring has one, the lower bounds of the
    /// rectangle lie above its upper bounds. The rectangle holds every point
    /// of every outer contour whose ordinates are numbers.
    pub fn bounded_multipolygon(self) -> (r: (render::MultiPolygon, render::Rect))
        ensures
            r.0@ == planar_polygons(self.0@),
            r.1 == aggregate_of(parts_bounds(self.0@)),
            forall|k: int|
                0 <= k < self.0@.len() && all_numbers((#[trigger] self.0@[k]).exterior) ==> holds(
                    r.1,
                    r.0@[k].outer_contour,
                ),
    {
        let mut boundaries: Vec<Option<render::Rect>> = Vec::new();
        let mut parts: Vec<render::Polygon> = Vec::new();
        let mut i: usize = 0;
        while i < self.0.0.len()
            invariant
                i <= self.0.0.len(),
                parts@.len() == i,
                boundaries@.len() == i,
                forall|k: int| 0 <= k < i ==> (#[trigger] parts@[k])@ == planar_polygon(self.0@[k]),
                forall|k: int| 0 <= k < i ==> #[trigger] boundaries@[k] == polygon_bounds(self.0@[k]),
                forall|k: int|
                    0 <= k < i ==> ((#[trigger] boundaries@[k]) is None <==> self.0@[k].exterior.len()
                        == 0),
                forall|k: int|
                    0 <= k < i && boundaries@[k] is Some && all_numbers(self.0@[k].exterior)
                        ==> holds((#[trigger] boundaries@[k])->Some_0, parts@[k]@.outer_contour)
                        && !float::is_nan(boundaries@[k]->Some_0.x_min) && !float::is_nan(
                        boundaries@[k]->Some_0.y_min,
                    ) && !float::is_nan(boundaries@[k]->Some_0.x_max) && !float::is_nan(
                        boundaries@[k]->Some_0.y_max,
                    ),
            decreases self.0.0.len() - i,
        {
            let (polygon, bounds) = bounded_polygon_of(&self.0.0[i]);
            boundaries.push(bounds);
            parts.push(polygon);
            i = i + 1;
        }
        let bounds = aggregate(&boundaries);
        let multi = render::MultiPolygon { parts };
        assert(multi@ =~= planar_polygons(self.0@));
        assert(boundaries@ =~= parts_bounds(self.0@));
        assert forall|k: int|
            0 <= k < self.0@.len() && all_numbers((#[trigger] self.0@[k]).exterior) implies holds(
            bounds,
            multi@[k].outer_contour,
        ) by {
            if boundaries@[k] is Some {
                lemma_aggregate_encloses(boundaries@, k);
                lemma_holds_within(bounds, boundaries@[k]->Some_0, multi@[k].outer_contour);
            } else {
                assert(multi@[k].outer_contour.len() == 0);
            }
        }
        (multi, bounds)
    }

    /// The polygons of the rendering model, one for each polygon and in the
    /// same order.
    pub fn geo_to_multipolygon(self) -> (r: render::MultiPolygon)
        ensures
            r@ == planar_polygons(self.0@),
    {
        self.multipolygon()
    }
}

impl Convert<analytic::AnyGeometry> {
    /// The GeoJSON value of the geometry.
    pub fn geojson_value(self) -> (r: geojson::Value)
        ensures
            value_holds(r) == shape_of(self.0@),
    {
        value_of(&self.0)
    }

    /// The GeoJSON geometry object of the geometry: its value and nothing
    /// else.
    pub fn geojson_geometry(self) -> (r: geojson::Geometry)
        ensures
            geometry_holds(r) == (GeometryHeld {
                value: shape_of(self.0@),
                bbox: false,
                foreign_members: false,
            }),
    {
        geometry_new(self.geojson_value())
    }

    /// The GeoJSON feature of the geometry: its geometry object and nothing
    /// else.
    pub fn geojson_feature(self) -> (r: geojson::Feature)
        ensures
            feature_holds(r) == (FeatureHeld {
                geometry: Some(
                    GeometryHeld { value: shape_of(self.0@), bbox: false, foreign_members: false },
                ),
                bbox: false,
                id: false,
                foreign_members: false,
            }),
            feature_properties(r) == no_properties(),
    {
        feature_from(self.geojson_geometry())
    }
}

impl Convert<analytic::Polygon> {
    /// The polygon of the rendering model: the exterior ring as its outer
    /// contour and the holes as its inner contours.
    pub fn polygon(self) -> (r: render::Polygon)
        ensures
            r@ == planar_polygon(self.0@),
    {
        polygon_of(&self.0)
    }

    /// The polygon of the rendering model, with the bounding rectangle of
    /// its exterior ring, or with none where that ring is empty. Where the
    /// ordinates of the ring are numbers, the rectangle holds every point of
    /// the outer contour.
    pub fn bounded_polygon(self) -> (r: (render::Polygon, Option<render::Rect>))
        ensures
            r.0@ == planar_polygon(self.0@),
            r.1 == polygon_bounds(self.0@),
            r.1 is None <==> self.0@.exterior.len() == 0,
            r.1 is Some && all_numbers(self.0@.exterior) ==> holds(r.1->Some_0, r.0@.outer_contour),
    {
        bounded_polygon_of(&self.0)
    }
}

impl Convert<legacy::GenericPolygon<legacy::Point>> {
    /// The polygons that the rings of the record stand for.
    pub fn geo_polygons(self) -> (r: Vec<analytic::Polygon>)
        ensures
            polygons_view(r@) == assemble(tagged(self.0@)),
    {
        polygons_of(self.0.rings())
    }
}

impl Convert<legacy::GenericPolygon<legacy::PointZ>> {
    /// The polygons that the rings of the record stand for.
    pub fn geo_polygons(self) -> (r: Vec<analytic::Polygon>)
        ensures
            polygons_view(r@) == assemble(tagged(self.0@)),
    {
        polygons_of(self.0.rings())
    }
}

impl Convert<legacy::PolygonRing<legacy::Point>> {
    /// The line through the points of the ring, in their order.
    pub fn geo_linestring(self) -> (r: analytic::LineString)
        ensures
            r@ == coords_of(self.0.spec_points()),
    {
        line_of(self.0.points())
    }
}

impl Convert<legacy::PolygonRing<legacy::PointZ>> {
    /// The line through the points of the ring, in their order.
    pub fn geo_linestring(self) -> (r: analytic::LineString)
        ensures
            r@ == coords_of(self.0.spec_points()),
    {
        line_of(self.0.points())
    }
}

impl Convert<analytic::LineString> {
    /// The bounding rectangle of the line, or none for an empty line. Each
    /// of its bounds is an ordinate of one of the positions, and where every
    /// ordinate is a number, every position lies within it.
    pub fn bounds(&self) -> (r: Option<analytic::Rect>)
        ensures
            r == bounding_rect_of(self.0@),
            r is None <==> self.0@.len() == 0,
            r is Some ==> touches(r->Some_0, self.0@),
            r is Some && all_numbers(self.0@) ==> bounds(r->Some_0, self.0@),
    {
        self.0.bounding_rect()
    }

    /// The contour through the positions of the line, in their order and
    /// with none added or left out.
    pub fn contour(self) -> (r: render::ClosedContour)
        ensures
            r@ == planar_points(self.0@),
    {
        contour_of(&self.0)
    }
}

impl Convert<legacy::GenericPolyline<legacy::PointZ>> {
    /// The lines through the points of each part, in the order of the parts.
    pub fn geotypes_multilinestring(self) -> (r: analytic::MultiLineString)
        ensures
            r@ == lines_of(self.0@),
    {
        analytic::MultiLineString::new(lines_of_parts(self.0.parts()))
    }

    /// The lines through the points of each part, in the order of the parts.
    pub fn geo_multilinestring(self) -> (r: analytic::MultiLineString)
        ensures
            r@ == lines_of(self.0@),
    {
        analytic::MultiLineString::new(lines_of_parts(self.0.parts()))
    }

    /// The lines through the points of each part, as a geometry.
    pub fn into_geometry(self) -> (r: analytic::AnyGeometry)
        ensures
            r@ == GeometryView::MultiLineString(lines_of(self.0@)),
    {
        analytic::AnyGeometry::MultiLineString(self.geo_multilinestring())
    }
}

impl Convert<analytic::Rect> {
    /// The rectangle of the rendering model with the corners as its bounds.
    pub fn rect(self) -> (r: render::Rect)
        ensures
            r == planar_rect(self.0),
    {
        render::Rect::new(self.0.min.x, self.0.min.y, self.0.max.x, self.0.max.y)
    }
}

impl CartesianPoint2d for Convert<analytic::Point> {
    open spec fn spec_x(&self) -> u64 {
        self.0.0.x
    }

    open spec fn spec_y(&self) -> u64 {
        self.0.0.y
    }

    fn x(&self) -> (r: u64) {
        self.0.0.x
    }

    fn y(&self) -> (r: u64) {
        self.0.0.y
    }
}

impl Convert<analytic::Point> {
    /// The point of the rendering model at the same place.
    pub fn point(self) -> (r: Point2d)
        ensures
            r == planar(self.0.0),
    {
        Point2d::new(self.x(), self.y())
    }

    /// The point of the analytical model at the same place.
    pub fn geo_point(self) -> (r: analytic::Point)
        ensures
            r == self.0,
    {
        analytic::Point(Coord { x: self.x(), y: self.y() })
    }

    /// The position of the point.
    pub fn geo_coord(self) -> (r: Coord)
        ensures
            r == self.0.0,
    {
        Coord { x: self.x(), y: self.y() }
    }
}

impl CartesianPoint2d for Convert<legacy::Point> {
    open spec fn spec_x(&self) -> u64 {
        self.0.x
    }

    open spec fn spec_y(&self) -> u64 {
        self.0.y
    }

    fn x(&self) -> (r: u64) {
        self.0.x
    }

    fn y(&self) -> (r: u64) {
        self.0.y
    }
}

impl Convert<legacy::Point> {
    /// The point of the rendering model at the same place.
    pub fn point(self) -> (r: Point2d)
        ensures
            r == planar(coord_of(self.0)),
    {
        Point2d::new(self.x(), self.y())
    }

    /// The point of the analytical model at the same place.
    pub fn geo_point(self) -> (r: analytic::Point)
        ensures
            r == analytic::Point(coord_of(self.0)),
    {
        analytic::Point(Coord { x: self.x(), y: self.y() })
    }

    /// The position of the point.
    pub fn geo_coord(self) -> (r: Coord)
        ensures
            r == coord_of(self.0),
    {
        Coord { x: self.x(), y: self.y() }
    }
}

impl Convert<Vec<legacy::PointZ>> {
    /// The points of the rendering model at the places of the points, in
    /// their order.
    pub fn galileo_points(self) -> (r: Vec<Point2d>)
        ensures
            r@ == planar_points(coords_of(self.0@)),
    {
        let mut points: Vec<Point2d> = Vec::new();
        let mut i: usize = 0;
        while i < self.0.len()
            invariant
                i <= self.0.len(),
                points@.len() == i,
                forall|k: int| 0 <= k < i ==> #[trigger] points@[k] == planar(coord_of(self.0@[k])),
            decreases self.0.len() - i,
        {
            points.push(Convert::new(self.0[i]).point());
            i = i + 1;
        }
        assert(points@ =~= planar_points(coords_of(self.0@)));
        points
    }

    /// The positions of the points, in their order.
    pub fn geotypes_coords(self) -> (r: Vec<Coord>)
        ensures
            r@ == coords_of(self.0@),
    {
        let mut coords: Vec<Coord> = Vec::new();
        let mut i: usize = 0;
        while i < self.0.len()
            invariant
                i <= self.0.len(),
                coords@.len() == i,
                forall|k: int| 0 <= k < i ==> #[trigger] coords@[k] == coord_of(self.0@[k]),
            decreases self.0.len() - i,
        {
            coords.push(Convert::new(self.0[i]).geotypes_coord());
            i = i + 1;
        }
        assert(coords@ =~= coords_of(self.0@));
        coords
    }
}

impl Convert<legacy::PointZ> {
    /// The point of the rendering model at the same place, without the
    /// elevation.
    pub fn point(self) -> (r: Point2d)
        ensures
            r == planar(coord_of(self.0)),
    {
        Point2d::new(self.0.x(), self.0.y())
    }

    /// The point of the analytical model at the same place, without the
    /// elevation.
    pub fn geo_point(self) -> (r: analytic::Point)
        ensures
            r == analytic::Point(coord_of(self.0)),
    {
        analytic::Point(Coord { x: self.0.x(), y: self.0.y() })
    }

    /// The position of the point, without the elevation.
    pub fn geo_coord(self) -> (r: Coord)
        ensures
            r == coord_of(self.0),
    {
        Coord { x: self.0.x(), y: self.0.y() }
    }

    /// The position of the point, without the elevation.
    pub fn geotypes_coord(self) -> (r: Coord)
        ensures
            r == coord_of(self.0),
    {
        Coord { x: self.0.x(), y: self.0.y() }
    }
}

impl CartesianPoint2d for Convert<Coord> {
    open spec fn spec_x(&self) -> u64 {
        self.0.x
    }

    open spec fn spec_y(&self) -> u64 {
        self.0.y
    }

    fn x(&self) -> (r: u64) {
        self.0.x
    }

    fn y(&self) -> (r: u64) {
        self.0.y
    }
}

impl Convert<Coord> {
    /// The point of the rendering model at the position.
    pub fn point(self) -> (r: Point2d)
        ensures
            r == planar(self.0),
    {
        Point2d::new(self.x(), self.y())
    }
}

} // verus!
