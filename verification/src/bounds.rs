//! One bounding rectangle for many parts.
//!
//! Each part brings its own bounding rectangle, or none. The lower bounds
//! start at the largest finite number and the upper bounds at the smallest;
//! each part with a rectangle then lowers or raises them. The rectangle is
//! made of the four bounds as they are, whether or not any part had one:
//! without one its lower bounds lie above its upper bounds, and it is for the
//! caller to tell such a rectangle from one that bounds something.
use crate::float;
use crate::render::Rect;
use vstd::prelude::*;

verus! {

/// The four bounds while the parts are read.
#[derive(Debug, Clone, Copy, PartialEq, Eq, Structural)]
pub struct Extent {
    /// The bit pattern of the least lower bound so far, first axis.
    pub x_min: u64,
    /// The bit pattern of the least lower bound so far, second axis.
    pub y_min: u64,
    /// The bit pattern of the greatest upper bound so far, first axis.
    pub x_max: u64,
    /// The bit pattern of the greatest upper bound so far, second axis.
    pub y_max: u64,
}

/// The bounds before any part has been read.
pub open spec fn unbounded() -> Extent {
    Extent { x_min: float::MAX, y_min: float::MAX, x_max: float::MIN, y_max: float::MIN }
}

/// The bounds after one more part. A part without a rectangle changes
/// nothing.
pub open spec fn absorb(extent: Extent, part: Option<Rect>) -> Extent {
    match part {
        None => extent,
        Some(rect) => Extent {
            x_min: if float::lt(rect.x_min, extent.x_min) { rect.x_min } else { extent.x_min },
            y_min: if float::lt(rect.y_min, extent.y_min) { rect.y_min } else { extent.y_min },
            x_max: if float::gt(rect.x_max, extent.x_max) { rect.x_max } else { extent.x_max },
            y_max: if float::gt(rect.y_max, extent.y_max) { rect.y_max } else { extent.y_max },
        },
    }
}

/// The bounds after all the parts, read from first to last.
pub open spec fn extent_of(parts: Seq<Option<Rect>>) -> Extent
    decreases parts.len(),
{
    if parts.len() == 0 {
        unbounded()
    } else {
        absorb(extent_of(parts.drop_last()), parts.last())
    }
}

/// The rectangle with the four bounds, as they are.
pub open spec fn rect_of(extent: Extent) -> Rect {
    Rect { x_min: extent.x_min, y_min: extent.y_min, x_max: extent.x_max, y_max: extent.y_max }
}

/// The bounding rectangle of all the parts.
pub open spec fn aggregate_of(parts: Seq<Option<Rect>>) -> Rect {
    rect_of(extent_of(parts))
}

impl Extent {
    /// The bounds before any part has been read.
    pub fn new() -> (r: Self)
        ensures
            r == unbounded(),
    {
        Extent { x_min: float::MAX, y_min: float::MAX, x_max: float::MIN, y_max: float::MIN }
    }

    /// The bounds after one more part.
    pub fn absorb(self, part: Option<Rect>) -> (r: Self)
        ensures
            r == absorb(self, part),
    {
        match part {
            None => self,
            Some(rect) => {
                let mut extent = self;
                if float::less(rect.x_min(), extent.x_min) {
                    extent.x_min = rect.x_min();
                }
                if float::less(rect.y_min(), extent.y_min) {
                    extent.y_min = rect.y_min();
                }
                if float::greater(rect.x_max(), extent.x_max) {
                    extent.x_max = rect.x_max();
                }
                if float::greater(rect.y_max(), extent.y_max) {
                    extent.y_max = rect.y_max();
                }
                extent
            },
        }
    }

    /// The rectangle with the four bounds, as they are.
    pub fn rect(self) -> (r: Rect)
        ensures
            r == rect_of(self),
    {
        Rect { x_min: self.x_min, y_min: self.y_min, x_max: self.x_max, y_max: self.y_max }
    }
}

/// The bounding rectangle of all the parts, of which each brings its own
/// rectangle or none.
pub fn aggregate(parts: &Vec<Option<Rect>>) -> (r: Rect)
    ensures
        r == aggregate_of(parts@),
{
    let mut extent = Extent::new();
    let mut i: usize = 0;
    while i < parts.len()
        invariant
            i <= parts.len(),
            extent == extent_of(parts@.take(i as int)),
        decreases parts.len() - i,
    {
        assert(parts@.take(i + 1).drop_last() =~= parts@.take(i as int));
        extent = extent.absorb(parts[i]);
        i = i + 1;
    }
    assert(parts@.take(i as int) =~= parts@);
    extent.rect()
}

/// The bounds never hold a NaN, whatever the parts hold.
pub proof fn lemma_extent_is_number(parts: Seq<Option<Rect>>)
    ensures
        !float::is_nan(extent_of(parts).x_min),
        !float::is_nan(extent_of(parts).y_min),
        !float::is_nan(extent_of(parts).x_max),
        !float::is_nan(extent_of(parts).y_max),
    decreases parts.len(),
{
    if parts.len() > 0 {
        lemma_extent_is_number(parts.drop_last());
    }
}

/// The bounds lie around the rectangle of every part whose own bounds are
/// numbers.
pub proof fn lemma_extent_encloses(parts: Seq<Option<Rect>>, i: int)
    requires
        0 <= i < parts.len(),
        parts[i] is Some,
        !float::is_nan(parts[i]->Some_0.x_min),
        !float::is_nan(parts[i]->Some_0.y_min),
        !float::is_nan(parts[i]->Some_0.x_max),
        !float::is_nan(parts[i]->Some_0.y_max),
    ensures
        float::le(extent_of(parts).x_min, parts[i]->Some_0.x_min),
        float::le(extent_of(parts).y_min, parts[i]->Some_0.y_min),
        float::ge(extent_of(parts).x_max, parts[i]->Some_0.x_max),
        float::ge(extent_of(parts).y_max, parts[i]->Some_0.y_max),
    decreases parts.len(),
{
    lemma_extent_is_number(parts.drop_last());
    if i < parts.len() - 1 {
        lemma_extent_encloses(parts.drop_last(), i);
    }
}

/// The rectangle of many parts lies around the rectangle of each part: its
/// lower bounds are at most the part's lower bounds, and its upper bounds at
/// least the part's upper bounds. This holds of every part that has a
/// rectangle whose bounds are numbers.
pub proof fn lemma_aggregate_encloses(parts: Seq<Option<Rect>>, i: int)
    requires
        0 <= i < parts.len(),
        parts[i] is Some,
        !float::is_nan(parts[i]->Some_0.x_min),
        !float::is_nan(parts[i]->Some_0.y_min),
        !float::is_nan(parts[i]->Some_0.x_max),
        !float::is_nan(parts[i]->Some_0.y_max),
    ensures
        float::le(aggregate_of(parts).x_min, parts[i]->Some_0.x_min),
        float::le(aggregate_of(parts).y_min, parts[i]->Some_0.y_min),
        float::ge(aggregate_of(parts).x_max, parts[i]->Some_0.x_max),
        float::ge(aggregate_of(parts).y_max, parts[i]->Some_0.y_max),
{
    lemma_extent_is_number(parts);
    lemma_extent_encloses(parts, i);
}

/// Without a part that has a rectangle the bounds stay where they started:
/// the lower bounds of the rectangle lie above its upper bounds.
pub proof fn lemma_aggregate_of_none(parts: Seq<Option<Rect>>)
    requires
        forall|i: int| 0 <= i < parts.len() ==> parts[i] is None,
    ensures
        extent_of(parts) == unbounded(),
        aggregate_of(parts) == (Rect {
            x_min: float::MAX,
            y_min: float::MAX,
            x_max: float::MIN,
            y_max: float::MIN,
        }),
        float::gt(aggregate_of(parts).x_min, aggregate_of(parts).x_max),
        float::gt(aggregate_of(parts).y_min, aggregate_of(parts).y_max),
    decreases parts.len(),
{
    if parts.len() > 0 {
        lemma_aggregate_of_none(parts.drop_last());
    }
}

} // verus!
