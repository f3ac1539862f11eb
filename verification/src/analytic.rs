//! The analytical model: coordinates, lines, polygons and rectangles as the
//! spatial algorithms read them.
//!
//! The values mirror those of the `geo-types` crate, with each number held as
//! its bit pattern. What that crate computes when it builds or measures a
//! value is computed by it here too.
use crate::float;
use vstd::prelude::*;

verus! {

/// A planar position.
#[derive(Debug, Clone, Copy, PartialEq, Eq, Structural)]
pub struct Coord {
    /// The bit pattern of the first ordinate.
    pub x: u64,
    /// The bit pattern of the second ordinate.
    pub y: u64,
}

/// A single position, as a geometry.
#[derive(Debug, Clone, Copy, PartialEq, Eq, Structural)]
pub struct Point(pub Coord);

/// A straight segment between two positions.
#[derive(Debug, Clone, Copy, PartialEq, Eq, Structural)]
pub struct Line {
    /// Where the segment starts.
    pub start: Coord,
    /// Where the segment ends.
    pub end: Coord,
}

/// Three positions that span a triangle.
#[derive(Debug, Clone, Copy, PartialEq, Eq, Structural)]
pub struct Triangle(pub Coord, pub Coord, pub Coord);

/// An axis-aligned rectangle, given by two opposite corners.
#[derive(Debug, Clone, Copy, PartialEq, Eq, Structural)]
pub struct Rect {
    /// The corner with the smaller ordinates.
    pub min: Coord,
    /// The corner with the larger ordinates.
    pub max: Coord,
}

/// An ordered sequence of positions: an open line or a ring.
#[derive(Debug, PartialEq, Eq)]
pub struct LineString(pub Vec<Coord>);

/// One exterior ring and any number of holes. Building a polygon closes its
/// rings.
#[derive(Debug, PartialEq, Eq)]
pub struct Polygon {
    exterior: LineString,
    interiors: Vec<LineString>,
}

/// Any number of points.
#[derive(Debug, PartialEq, Eq)]
pub struct MultiPoint(pub Vec<Point>);

/// Any number of lines.
#[derive(Debug, PartialEq, Eq)]
pub struct MultiLineString(pub Vec<LineString>);

/// Any number of polygons, in the order they were given.
#[derive(Debug, PartialEq, Eq)]
pub struct MultiPolygon(pub Vec<Polygon>);

/// Any number of geometries of any kind.
#[derive(Debug, PartialEq, Eq)]
pub struct GeometryCollection(pub Vec<AnyGeometry>);

/// Any geometry of the analytical model.
#[derive(Debug, PartialEq, Eq)]
pub enum AnyGeometry {
    Point(Point),
    Line(Line),
    LineString(LineString),
    Polygon(Polygon),
    MultiPoint(MultiPoint),
    MultiLineString(MultiLineString),
    MultiPolygon(MultiPolygon),
    GeometryCollection(GeometryCollection),
    Rect(Rect),
    Triangle(Triangle),
}

/// What a polygon holds: its exterior ring and its holes, in order.
pub struct PolygonView {
    pub exterior: Seq<Coord>,
    pub interiors: Seq<Seq<Coord>>,
}

/// What a geometry holds, whatever its kind.
pub enum GeometryView {
    Point(Coord),
    Line(Line),
    LineString(Seq<Coord>),
    Polygon(PolygonView),
    MultiPoint(Seq<Coord>),
    MultiLineString(Seq<Seq<Coord>>),
    MultiPolygon(Seq<PolygonView>),
    GeometryCollection(Seq<GeometryView>),
    Rect(Rect),
    Triangle(Triangle),
}

/// Two positions are equal when both ordinates are equal as numbers.
pub open spec fn coord_eq(a: Coord, b: Coord) -> bool {
    float::eq(a.x, b.x) && float::eq(a.y, b.y)
}

/// A ring is closed when it is empty or ends where it starts.
pub open spec fn is_closed(ring: Seq<Coord>) -> bool {
    ring.len() == 0 || coord_eq(ring.first(), ring.last())
}

/// The ring, with its first position repeated at the end unless it is closed.
pub open spec fn closed(ring: Seq<Coord>) -> Seq<Coord> {
    if is_closed(ring) {
        ring
    } else {
        ring.push(ring.first())
    }
}

/// The views of a sequence of lines.
pub open spec fn lines_view(lines: Seq<LineString>) -> Seq<Seq<Coord>> {
    Seq::new(lines.len(), |i: int| lines[i]@)
}

/// The polygon that is built from an exterior ring and holes: each ring closed.
pub open spec fn polygon_of(exterior: Seq<Coord>, interiors: Seq<Seq<Coord>>) -> PolygonView {
    PolygonView {
        exterior: closed(exterior),
        interiors: Seq::new(interiors.len(), |i: int| closed(interiors[i])),
    }
}

/// The views of a sequence of polygons.
pub open spec fn polygons_view(polygons: Seq<Polygon>) -> Seq<PolygonView> {
    Seq::new(polygons.len(), |i: int| polygons[i]@)
}

/// The bounding rectangle that `geo` computes for a line with these positions.
pub uninterp spec fn bounding_rect_of(coords: Seq<Coord>) -> Option<Rect>;

/// Whether both ordinates of every position are numbers.
pub open spec fn all_numbers(coords: Seq<Coord>) -> bool {
    forall|i: int|
        0 <= i < coords.len() ==> !float::is_nan((#[trigger] coords[i]).x) && !float::is_nan(
            coords[i].y,
        )
}

/// Whether a position lies within a rectangle, its sides included.
pub open spec fn encloses(rect: Rect, coord: Coord) -> bool {
    &&& float::le(rect.min.x, coord.x)
    &&& float::le(coord.x, rect.max.x)
    &&& float::le(rect.min.y, coord.y)
    &&& float::le(coord.y, rect.max.y)
}

/// Whether every position of a line lies within a rectangle.
pub open spec fn bounds(rect: Rect, coords: Seq<Coord>) -> bool {
    forall|i: int| 0 <= i < coords.len() ==> encloses(rect, #[trigger] coords[i])
}

/// Whether each of the four bounds of a rectangle is an ordinate of a
/// position of the line.
pub open spec fn touches(rect: Rect, coords: Seq<Coord>) -> bool {
    &&& exists|i: int| 0 <= i < coords.len() && (#[trigger] coords[i]).x == rect.min.x
    &&& exists|i: int| 0 <= i < coords.len() && (#[trigger] coords[i]).y == rect.min.y
    &&& exists|i: int| 0 <= i < coords.len() && (#[trigger] coords[i]).x == rect.max.x
    &&& exists|i: int| 0 <= i < coords.len() && (#[trigger] coords[i]).y == rect.max.y
}

impl View for LineString {
    type V = Seq<Coord>;

    open spec fn view(&self) -> Seq<Coord> {
        self.0@
    }
}

impl View for MultiPoint {
    type V = Seq<Coord>;

    open spec fn view(&self) -> Seq<Coord> {
        Seq::new(self.0@.len(), |i: int| self.0@[i].0)
    }
}

impl View for GeometryCollection {
    type V = Seq<GeometryView>;

    open spec fn view(&self) -> Seq<GeometryView>
        decreases self,
    {
        Seq::new(
            self.0@.len(),
            |i: int|
                if 0 <= i < self.0@.len() {
                    self.0@[i].view()
                } else {
                    GeometryView::GeometryCollection(Seq::empty())
                },
        )
    }
}

impl View for AnyGeometry {
    type V = GeometryView;

    open spec fn view(&self) -> GeometryView
        decreases self,
    {
        match self {
            AnyGeometry::Point(g) => GeometryView::Point(g.0),
            AnyGeometry::Line(g) => GeometryView::Line(*g),
            AnyGeometry::LineString(g) => GeometryView::LineString(g@),
            AnyGeometry::Polygon(g) => GeometryView::Polygon(g@),
            AnyGeometry::MultiPoint(g) => GeometryView::MultiPoint(g@),
            AnyGeometry::MultiLineString(g) => GeometryView::MultiLineString(g@),
            AnyGeometry::MultiPolygon(g) => GeometryView::MultiPolygon(g@),
            AnyGeometry::GeometryCollection(g) => GeometryView::GeometryCollection(g.view()),
            AnyGeometry::Rect(g) => GeometryView::Rect(*g),
            AnyGeometry::Triangle(g) => GeometryView::Triangle(*g),
        }
    }
}

impl View for MultiLineString {
    type V = Seq<Seq<Coord>>;

    open spec fn view(&self) -> Seq<Seq<Coord>> {
        lines_view(self.0@)
    }
}

impl View for MultiPolygon {
    type V = Seq<PolygonView>;

    open spec fn view(&self) -> Seq<PolygonView> {
        polygons_view(self.0@)
    }
}

impl View for Polygon {
    type V = PolygonView;

    closed spec fn view(&self) -> PolygonView {
        PolygonView { exterior: self.exterior@, interiors: lines_view(self.interiors@) }
    }
}

/// Calls `geo_types::Polygon::new`, which closes the exterior ring and every
/// hole: a ring that is not empty and whose first and last positions differ
/// gets its first position appended.
#[verifier::external_body]
fn close_rings(exterior: &LineString, interiors: &Vec<LineString>) -> (r: (
    LineString,
    Vec<LineString>,
))
    ensures
        r.0@ == closed(exterior@),
        lines_view(r.1@) == polygon_of(exterior@, lines_view(interiors@)).interiors,
{
    let number = |bits: u64| num_traits::FromBytes::from_ne_bytes(&bits.to_ne_bytes());
    let line = |l: &LineString| -> geo_types::LineString {
        l.0.iter().map(|c| (number(c.x), number(c.y))).collect()
    };
    let polygon = geo_types::Polygon::new(line(exterior), interiors.iter().map(line).collect());
    let ours = |l: &geo_types::LineString| {
        LineString(l.0.iter().map(|c| Coord { x: c.x.to_bits(), y: c.y.to_bits() }).collect())
    };
    (ours(polygon.exterior()), polygon.interiors().iter().map(ours).collect())
}

/// Calls `geo`'s `BoundingRect::bounding_rect` on a line with these positions.
/// The result depends on the positions alone, and there is none exactly when
/// the line is empty. Each bound of the rectangle is an ordinate of one of
/// the positions, and where every ordinate is a number, every position lies
/// within the rectangle.
#[verifier::external_body]
fn line_bounding_rect(coords: &Vec<Coord>) -> (r: Option<Rect>)
    ensures
        r == bounding_rect_of(coords@),
        r is None <==> coords@.len() == 0,
        r is Some ==> touches(r->Some_0, coords@),
        r is Some && all_numbers(coords@) ==> bounds(r->Some_0, coords@),
{
    let number = |bits: u64| num_traits::FromBytes::from_ne_bytes(&bits.to_ne_bytes());
    let line: geo_types::LineString =
        coords.iter().map(|c| (number(c.x), number(c.y))).collect();
    let corner = |c: geo_types::Coord| Coord { x: c.x.to_bits(), y: c.y.to_bits() };
    geo::BoundingRect::bounding_rect(&line).map(|r| Rect { min: corner(r.min()), max: corner(r.max()) })
}

impl LineString {
    /// A line through the given positions, in their order.
    pub fn new(coords: Vec<Coord>) -> (r: Self)
        ensures
            r@ == coords@,
    {
        LineString(coords)
    }

    /// The positions of the line.
    pub fn into_inner(self) -> (r: Vec<Coord>)
        ensures
            r@ == self@,
    {
        self.0
    }

    /// The bounding rectangle of the line, or none for an empty line. Each
    /// of its bounds is an ordinate of one of the positions, and where every
    /// ordinate is a number, every position lies within it.
    pub fn bounding_rect(&self) -> (r: Option<Rect>)
        ensures
            r == bounding_rect_of(self@),
            r is None <==> self@.len() == 0,
            r is Some ==> touches(r->Some_0, self@),
            r is Some && all_numbers(self@) ==> bounds(r->Some_0, self@),
    {
        line_bounding_rect(&self.0)
    }
}

impl Polygon {
    /// A polygon with the given exterior ring and holes, each of them closed.
    pub fn new(exterior: LineString, interiors: Vec<LineString>) -> (r: Self)
        ensures
            r@ == polygon_of(exterior@, lines_view(interiors@)),
    {
        let (exterior, interiors) = close_rings(&exterior, &interiors);
        Polygon { exterior, interiors }
    }

    /// The exterior ring.
    pub fn exterior(&self) -> (r: &LineString)
        ensures
            r@ == self@.exterior,
    {
        &self.exterior
    }

    /// The holes.
    pub fn interiors(&self) -> (r: &Vec<LineString>)
        ensures
            lines_view(r@) == self@.interiors,
    {
        &self.interiors
    }

    /// The exterior ring and the holes.
    pub fn into_inner(self) -> (r: (LineString, Vec<LineString>))
        ensures
            r.0@ == self@.exterior,
            lines_view(r.1@) == self@.interiors,
    {
        (self.exterior, self.interiors)
    }
}

impl MultiLineString {
    /// The given lines, in their order.
    pub fn new(lines: Vec<LineString>) -> (r: Self)
        ensures
            r@ == lines_view(lines@),
    {
        MultiLineString(lines)
    }
}

impl MultiPolygon {
    /// The given polygons, in their order.
    pub fn new(polygons: Vec<Polygon>) -> (r: Self)
        ensures
            r@ == polygons_view(polygons@),
    {
        MultiPolygon(polygons)
    }
}

fn clone_lines(lines: &Vec<LineString>) -> (r: Vec<LineString>)
    ensures
        lines_view(r@) == lines_view(lines@),
{
    let mut r: Vec<LineString> = Vec::new();
    let mut i: usize = 0;
    while i < lines.len()
        invariant
            i <= lines.len(),
            r@.len() == i,
            forall|k: int| 0 <= k < i ==> (#[trigger] r@[k])@ == lines@[k]@,
        decreases lines.len() - i,
    {
        r.push(lines[i].clone());
        i = i + 1;
    }
    assert(lines_view(r@) =~= lines_view(lines@));
    r
}

impl Clone for LineString {
    fn clone(&self) -> (r: Self)
        ensures
            r@ == self@,
    {
        let coords = self.0.clone();
        assert(coords@ =~= self.0@);
        LineString(coords)
    }
}

impl Clone for Polygon {
    fn clone(&self) -> (r: Self)
        ensures
            r@ == self@,
    {
        Polygon { exterior: self.exterior.clone(), interiors: clone_lines(&self.interiors) }
    }
}

impl Clone for MultiPoint {
    fn clone(&self) -> (r: Self)
        ensures
            r@ == self@,
    {
        let points = self.0.clone();
        assert(points@ =~= self.0@);
        MultiPoint(points)
    }
}

impl Clone for MultiLineString {
    fn clone(&self) -> (r: Self)
        ensures
            r@ == self@,
    {
        MultiLineString(clone_lines(&self.0))
    }
}

impl Clone for MultiPolygon {
    fn clone(&self) -> (r: Self)
        ensures
            r@ == self@,
    {
        let mut polygons: Vec<Polygon> = Vec::new();
        let mut i: usize = 0;
        while i < self.0.len()
            invariant
                i <= self.0.len(),
                polygons@.len() == i,
                forall|k: int| 0 <= k < i ==> (#[trigger] polygons@[k])@ == self.0@[k]@,
            decreases self.0.len() - i,
        {
            polygons.push(self.0[i].clone());
            i = i + 1;
        }
        assert(polygons_view(polygons@) =~= polygons_view(self.0@));
        MultiPolygon(polygons)
    }
}

impl Clone for GeometryCollection {
    #[verifier::loop_isolation(false)]
    fn clone(&self) -> (r: Self)
        ensures
            r@ == self@,
        decreases self,
    {
        let mut members: Vec<AnyGeometry> = Vec::new();
        let mut i: usize = 0;
        while i < self.0.len()
            invariant
                i <= self.0.len(),
                members@.len() == i,
                forall|k: int| 0 <= k < i ==> (#[trigger] members@[k])@ == self.0@[k]@,
            decreases self.0.len() - i,
        {
            members.push(self.0[i].clone());
            i = i + 1;
        }
        let r = GeometryCollection(members);
        assert(r@ =~= self@);
        r
    }
}

impl Clone for AnyGeometry {
    fn clone(&self) -> (r: Self)
        ensures
            r@ == self@,
        decreases self,
    {
        match self {
            AnyGeometry::Point(g) => AnyGeometry::Point(*g),
            AnyGeometry::Line(g) => AnyGeometry::Line(*g),
            AnyGeometry::LineString(g) => AnyGeometry::LineString(g.clone()),
            AnyGeometry::Polygon(g) => AnyGeometry::Polygon(g.clone()),
            AnyGeometry::MultiPoint(g) => AnyGeometry::MultiPoint(g.clone()),
            AnyGeometry::MultiLineString(g) => AnyGeometry::MultiLineString(g.clone()),
            AnyGeometry::MultiPolygon(g) => AnyGeometry::MultiPolygon(g.clone()),
            AnyGeometry::GeometryCollection(g) => AnyGeometry::GeometryCollection(g.clone()),
            AnyGeometry::Rect(g) => AnyGeometry::Rect(*g),
            AnyGeometry::Triangle(g) => AnyGeometry::Triangle(*g),
        }
    }
}

/// A ring that starts with a position that equals itself is closed once a
/// polygon has been built from it, and closing leaves a closed ring as it is.
pub proof fn lemma_closed(ring: Seq<Coord>)
    ensures
        ring.len() > 0 && coord_eq(ring.first(), ring.first()) ==> is_closed(closed(ring)),
        is_closed(ring) ==> closed(ring) == ring,
        closed(ring).len() == ring.len() || closed(ring).len() == ring.len() + 1,
        forall|i: int| 0 <= i < ring.len() ==> closed(ring)[i] == ring[i],
{
}

} // verus!
