//! The flat file model: points, and polygons stored as a plain list of rings.
//!
//! The values mirror those of the `shapefile` crate, with each number held as
//! its bit pattern. A ring carries the role that the file's reader gave it,
//! outer boundary or hole; nothing here computes it again. Which hole belongs
//! to which boundary the file does not say.
use vstd::prelude::*;

verus! {

/// A point of the plane.
#[derive(Debug, Clone, Copy, PartialEq, Eq, Structural)]
pub struct Point {
    /// The bit pattern of the first ordinate.
    pub x: u64,
    /// The bit pattern of the second ordinate.
    pub y: u64,
}

/// A point with an elevation and a measure.
#[derive(Debug, Clone, Copy, PartialEq, Eq, Structural)]
pub struct PointZ {
    /// The bit pattern of the first ordinate.
    pub x: u64,
    /// The bit pattern of the second ordinate.
    pub y: u64,
    /// The bit pattern of the elevation.
    pub z: u64,
    /// The bit pattern of the measure.
    pub m: u64,
}

/// A ring of a polygon, with its role.
#[derive(Debug, Clone, PartialEq, Eq)]
pub enum PolygonRing<P> {
    /// The outer boundary of a polygon.
    Outer(Vec<P>),
    /// A hole.
    Inner(Vec<P>),
}

/// A polygon record: its rings, in the order of the file.
#[derive(Debug, Clone, PartialEq, Eq)]
pub struct GenericPolygon<P> {
    rings: Vec<PolygonRing<P>>,
}

/// A polyline record: its parts, in the order of the file.
#[derive(Debug, Clone, PartialEq, Eq)]
pub struct GenericPolyline<P> {
    parts: Vec<Vec<P>>,
}

/// A polygon record of plain points.
pub type Polygon = GenericPolygon<Point>;

/// A polygon record of points with elevation.
pub type PolygonZ = GenericPolygon<PointZ>;

/// A polyline record of points with elevation.
pub type PolylineZ = GenericPolyline<PointZ>;

/// A point that has a place in the plane.
pub trait HasXY: Sized {
    /// The bit pattern of the first ordinate.
    spec fn spec_x(&self) -> u64;

    /// The bit pattern of the second ordinate.
    spec fn spec_y(&self) -> u64;

    /// The bit pattern of the first ordinate.
    fn x(&self) -> (r: u64)
        ensures
            r == self.spec_x(),
    ;

    /// The bit pattern of the second ordinate.
    fn y(&self) -> (r: u64)
        ensures
            r == self.spec_y(),
    ;
}

impl HasXY for Point {
    open spec fn spec_x(&self) -> u64 {
        self.x
    }

    open spec fn spec_y(&self) -> u64 {
        self.y
    }

    fn x(&self) -> (r: u64) {
        self.x
    }

    fn y(&self) -> (r: u64) {
        self.y
    }
}

impl HasXY for PointZ {
    open spec fn spec_x(&self) -> u64 {
        self.x
    }

    open spec fn spec_y(&self) -> u64 {
        self.y
    }

    fn x(&self) -> (r: u64) {
        self.x
    }

    fn y(&self) -> (r: u64) {
        self.y
    }
}

impl Point {
    /// The point with the given ordinates.
    pub fn new(x: u64, y: u64) -> (r: Self)
        ensures
            r.x == x,
            r.y == y,
    {
        Point { x, y }
    }
}

impl PointZ {
    /// The point with the given ordinates, elevation and measure.
    pub fn new(x: u64, y: u64, z: u64, m: u64) -> (r: Self)
        ensures
            r.x == x,
            r.y == y,
            r.z == z,
            r.m == m,
    {
        PointZ { x, y, z, m }
    }
}

impl<P> PolygonRing<P> {
    /// Whether the ring is an outer boundary.
    pub open spec fn is_outer(&self) -> bool {
        self is Outer
    }

    /// The points of the ring, whatever its role.
    pub open spec fn spec_points(&self) -> Seq<P> {
        match self {
            PolygonRing::Outer(points) => points@,
            PolygonRing::Inner(points) => points@,
        }
    }

    /// The points of the ring, whatever its role.
    pub fn points(&self) -> (r: &Vec<P>)
        ensures
            r@ == self.spec_points(),
    {
        match self {
            PolygonRing::Outer(points) => points,
            PolygonRing::Inner(points) => points,
        }
    }

    /// The points of the ring, whatever its role.
    pub fn into_inner(self) -> (r: Vec<P>)
        ensures
            r@ == self.spec_points(),
    {
        match self {
            PolygonRing::Outer(points) => points,
            PolygonRing::Inner(points) => points,
        }
    }
}

impl<P> View for GenericPolygon<P> {
    type V = Seq<PolygonRing<P>>;

    closed spec fn view(&self) -> Seq<PolygonRing<P>> {
        self.rings@
    }
}

impl<P> View for GenericPolyline<P> {
    type V = Seq<Vec<P>>;

    closed spec fn view(&self) -> Seq<Vec<P>> {
        self.parts@
    }
}

impl<P> GenericPolygon<P> {
    /// The record with the given rings, kept as they are: their points are
    /// neither closed nor put in another order.
    pub fn with_rings(rings: Vec<PolygonRing<P>>) -> (r: Self)
        ensures
            r@ == rings@,
    {
        GenericPolygon { rings }
    }

    /// The rings of the record.
    pub fn rings(&self) -> (r: &Vec<PolygonRing<P>>)
        ensures
            r@ == self@,
    {
        &self.rings
    }

    /// The rings of the record.
    pub fn into_inner(self) -> (r: Vec<PolygonRing<P>>)
        ensures
            r@ == self@,
    {
        self.rings
    }
}

impl<P> GenericPolyline<P> {
    /// The record with the given parts.
    pub fn with_parts(parts: Vec<Vec<P>>) -> (r: Self)
        ensures
            r@ == parts@,
    {
        GenericPolyline { parts }
    }

    /// The parts of the record.
    pub fn parts(&self) -> (r: &Vec<Vec<P>>)
        ensures
            r@ == self@,
    {
        &self.parts
    }

    /// The parts of the record.
    pub fn into_inner(self) -> (r: Vec<Vec<P>>)
        ensures
            r@ == self@,
    {
        self.parts
    }
}

} // verus!
