//! The rendering model: contours and polygons as a map display draws them.
//!
//! The values mirror those of the `galileo-types` crate, with each number held
//! as its bit pattern. A contour is closed by what it is: its last point is
//! joined to its first, and no point is repeated for that.
use crate::float;
use vstd::prelude::*;

verus! {

/// A point of the plane.
#[derive(Debug, Clone, Copy, PartialEq, Eq, Structural)]
pub struct Point2d {
    /// The bit pattern of the first ordinate.
    pub x: u64,
    /// The bit pattern of the second ordinate.
    pub y: u64,
}

/// A closed sequence of points.
#[derive(Debug, Clone, PartialEq, Eq)]
pub struct ClosedContour {
    /// The points of the contour, in order.
    pub points: Vec<Point2d>,
}

/// One outer contour and any number of inner contours.
#[derive(Debug, Clone, PartialEq, Eq)]
pub struct Polygon {
    /// The outer contour.
    pub outer_contour: ClosedContour,
    /// The inner contours.
    pub inner_contours: Vec<ClosedContour>,
}

/// Any number of polygons, in the order they were given.
#[derive(Debug, Clone, PartialEq, Eq)]
pub struct MultiPolygon {
    /// The polygons.
    pub parts: Vec<Polygon>,
}

/// An axis-aligned rectangle. One that [`Rect::new`] built is ordered: on
/// neither axis is its lower bound greater than its upper bound. One that is
/// written down with its bounds need not be.
#[derive(Debug, Clone, Copy, PartialEq, Eq, Structural)]
pub struct Rect {
    /// The bit pattern of the lower bound on the first axis.
    pub x_min: u64,
    /// The bit pattern of the lower bound on the second axis.
    pub y_min: u64,
    /// The bit pattern of the upper bound on the first axis.
    pub x_max: u64,
    /// The bit pattern of the upper bound on the second axis.
    pub y_max: u64,
}

/// What a polygon holds: its outer contour and its inner contours, in order.
pub struct PolygonView {
    pub outer_contour: Seq<Point2d>,
    pub inner_contours: Seq<Seq<Point2d>>,
}

/// The views of a sequence of contours.
pub open spec fn contours_view(contours: Seq<ClosedContour>) -> Seq<Seq<Point2d>> {
    Seq::new(contours.len(), |i: int| contours[i]@)
}

/// The views of a sequence of polygons.
pub open spec fn polygons_view(polygons: Seq<Polygon>) -> Seq<PolygonView> {
    Seq::new(polygons.len(), |i: int| polygons[i]@)
}

/// The rectangle with the given bounds, the two of an axis exchanged where the
/// lower one is greater than the upper one.
pub open spec fn ordered(x_min: u64, y_min: u64, x_max: u64, y_max: u64) -> Rect {
    Rect {
        x_min: if float::gt(x_min, x_max) { x_max } else { x_min },
        y_min: if float::gt(y_min, y_max) { y_max } else { y_min },
        x_max: if float::gt(x_min, x_max) { x_min } else { x_max },
        y_max: if float::gt(y_min, y_max) { y_min } else { y_max },
    }
}

impl View for ClosedContour {
    type V = Seq<Point2d>;

    open spec fn view(&self) -> Seq<Point2d> {
        self.points@
    }
}

impl View for Polygon {
    type V = PolygonView;

    open spec fn view(&self) -> PolygonView {
        PolygonView {
            outer_contour: self.outer_contour@,
            inner_contours: contours_view(self.inner_contours@),
        }
    }
}

impl View for MultiPolygon {
    type V = Seq<PolygonView>;

    open spec fn view(&self) -> Seq<PolygonView> {
        polygons_view(self.parts@)
    }
}

/// Calls `galileo_types::cartesian::Rect::new`, which exchanges the two bounds
/// of an axis where the lower one is greater than the upper one, and reads the
/// four bounds back.
#[verifier::external_body]
fn rect_new(x_min: u64, y_min: u64, x_max: u64, y_max: u64) -> (r: Rect)
    ensures
        r == ordered(x_min, y_min, x_max, y_max),
{
    let number = |bits: u64| num_traits::FromBytes::from_ne_bytes(&bits.to_ne_bytes());
    let rect: galileo_types::cartesian::Rect = galileo_types::cartesian::Rect::new(
        number(x_min),
        number(y_min),
        number(x_max),
        number(y_max),
    );
    Rect {
        x_min: rect.x_min().to_bits(),
        y_min: rect.y_min().to_bits(),
        x_max: rect.x_max().to_bits(),
        y_max: rect.y_max().to_bits(),
    }
}

impl Point2d {
    /// The point with the given ordinates.
    pub fn new(x: u64, y: u64) -> (r: Self)
        ensures
            r.x == x,
            r.y == y,
    {
        Point2d { x, y }
    }
}

impl ClosedContour {
    /// The contour through the given points, in their order.
    pub fn new(points: Vec<Point2d>) -> (r: Self)
        ensures
            r@ == points@,
    {
        ClosedContour { points }
    }
}

impl Polygon {
    /// The polygon with the given contours.
    pub fn new(outer_contour: ClosedContour, inner_contours: Vec<ClosedContour>) -> (r: Self)
        ensures
            r@.outer_contour == outer_contour@,
            r@.inner_contours == contours_view(inner_contours@),
    {
        Polygon { outer_contour, inner_contours }
    }
}

impl Rect {
    /// Whether on neither axis the lower bound is greater than the upper one.
    pub open spec fn is_ordered(self) -> bool {
        !float::gt(self.x_min, self.x_max) && !float::gt(self.y_min, self.y_max)
    }

    /// The rectangle with the given bounds. Where the lower bound of an axis
    /// is greater than the upper one, the two are exchanged.
    pub fn new(x_min: u64, y_min: u64, x_max: u64, y_max: u64) -> (r: Self)
        ensures
            r == ordered(x_min, y_min, x_max, y_max),
            r.is_ordered(),
    {
        rect_new(x_min, y_min, x_max, y_max)
    }

    /// The lower bound on the first axis.
    pub fn x_min(&self) -> (r: u64)
        ensures
            r == self.x_min,
    {
        self.x_min
    }

    /// The upper bound on the first axis.
    pub fn x_max(&self) -> (r: u64)
        ensures
            r == self.x_max,
    {
        self.x_max
    }

    /// The lower bound on the second axis.
    pub fn y_min(&self) -> (r: u64)
        ensures
            r == self.y_min,
    {
        self.y_min
    }

    /// The upper bound on the second axis.
    pub fn y_max(&self) -> (r: u64)
        ensures
            r == self.y_max,
    {
        self.y_max
    }
}

} // verus!
