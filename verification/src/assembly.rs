//! Polygons from a flat list of rings.
//!
//! A polygon record of the flat file model is a list of rings, each an outer
//! boundary or a hole, with nothing to say which hole lies in which boundary.
//! The rings are read once, from first to last. A hole goes with the boundary
//! that was read last before it. When the next boundary is read, the one
//! before it is done and becomes a polygon with the holes collected so far.
//! The boundary that is still open when the list ends becomes a polygon only
//! if none was made before it.
use crate::analytic::{lines_view, polygon_of, polygons_view, Coord, LineString, Polygon, PolygonView};
use vstd::prelude::*;

verus! {

/// A ring with its role, as the grouping reads it.
pub struct TaggedRing {
    /// Whether the ring is an outer boundary; otherwise it is a hole.
    pub outer: bool,
    /// The positions of the ring.
    pub coords: Seq<Coord>,
}

/// What is known after some rings have been read.
pub struct Progress {
    /// The boundary that was read last, while it is still open.
    pub current_outer: Option<Seq<Coord>>,
    /// The holes read since the polygon before was made.
    pub current_holes: Seq<Seq<Coord>>,
    /// The polygons made so far.
    pub result: Seq<PolygonView>,
}

/// Before any ring has been read.
pub open spec fn start() -> Progress {
    Progress { current_outer: None, current_holes: Seq::empty(), result: Seq::empty() }
}

/// Reads one ring.
pub open spec fn step(before: Progress, ring: TaggedRing) -> Progress {
    if ring.outer {
        match before.current_outer {
            Some(outer) => Progress {
                current_outer: Some(ring.coords),
                current_holes: Seq::empty(),
                result: before.result.push(polygon_of(outer, before.current_holes)),
            },
            None => Progress {
                current_outer: Some(ring.coords),
                current_holes: before.current_holes,
                result: before.result,
            },
        }
    } else {
        Progress {
            current_outer: before.current_outer,
            current_holes: before.current_holes.push(ring.coords),
            result: before.result,
        }
    }
}

/// Reads all the rings, from first to last.
pub open spec fn read(rings: Seq<TaggedRing>) -> Progress
    decreases rings.len(),
{
    if rings.len() == 0 {
        start()
    } else {
        step(read(rings.drop_last()), rings.last())
    }
}

/// The polygons once the list has ended.
pub open spec fn finish(end: Progress) -> Seq<PolygonView> {
    match end.current_outer {
        Some(outer) if end.result.len() == 0 => seq![polygon_of(outer, end.current_holes)],
        _ => end.result,
    }
}

/// The polygons that a list of rings stands for.
pub open spec fn assemble(rings: Seq<TaggedRing>) -> Seq<PolygonView> {
    finish(read(rings))
}

/// How many of the rings are outer boundaries.
pub open spec fn outer_count(rings: Seq<TaggedRing>) -> nat
    decreases rings.len(),
{
    if rings.len() == 0 {
        0
    } else if rings.last().outer {
        outer_count(rings.drop_last()) + 1
    } else {
        outer_count(rings.drop_last())
    }
}

/// How many of the rings are holes.
pub open spec fn inner_count(rings: Seq<TaggedRing>) -> nat
    decreases rings.len(),
{
    if rings.len() == 0 {
        0
    } else if rings.last().outer {
        inner_count(rings.drop_last())
    } else {
        inner_count(rings.drop_last()) + 1
    }
}

/// How many holes the polygons have, all together.
pub open spec fn hole_count(polygons: Seq<PolygonView>) -> nat
    decreases polygons.len(),
{
    if polygons.len() == 0 {
        0
    } else {
        hole_count(polygons.drop_last()) + polygons.last().interiors.len()
    }
}

/// No hole comes before the first outer boundary.
pub open spec fn well_formed(rings: Seq<TaggedRing>) -> bool {
    rings.len() == 0 || rings[0].outer
}

/// An outer boundary with the given positions.
pub open spec fn outer_ring(coords: Seq<Coord>) -> TaggedRing {
    TaggedRing { outer: true, coords }
}

/// Holes with the given positions.
pub open spec fn inner_rings(holes: Seq<Seq<Coord>>) -> Seq<TaggedRing> {
    Seq::new(holes.len(), |i: int| TaggedRing { outer: false, coords: holes[i] })
}

/// The grouping at work: what has been read so far, and what came of it.
#[derive(Debug)]
pub struct Assembler {
    current_outer: Option<LineString>,
    current_holes: Vec<LineString>,
    result: Vec<Polygon>,
}

impl View for Assembler {
    type V = Progress;

    closed spec fn view(&self) -> Progress {
        Progress {
            current_outer: match self.current_outer {
                Some(outer) => Some(outer@),
                None => None,
            },
            current_holes: lines_view(self.current_holes@),
            result: polygons_view(self.result@),
        }
    }
}

impl Assembler {
    /// A grouping that has read nothing yet.
    pub fn new() -> (r: Self)
        ensures
            r@ == start(),
    {
        let r = Assembler { current_outer: None, current_holes: Vec::new(), result: Vec::new() };
        assert(r@.current_holes =~= Seq::empty());
        assert(r@.result =~= Seq::empty());
        r
    }

    /// Reads one ring, an outer boundary if `outer` is set and a hole if not.
    pub fn push(self, outer: bool, ring: LineString) -> (r: Self)
        ensures
            r@ == step(self@, TaggedRing { outer, coords: ring@ }),
    {
        let ghost before = self@;
        let Assembler { current_outer, current_holes, result } = self;
        if outer {
            match current_outer {
                Some(pending) => {
                    let mut result = result;
                    let polygon = Polygon::new(pending, current_holes);
                    result.push(polygon);
                    let r = Assembler {
                        current_outer: Some(ring),
                        current_holes: Vec::new(),
                        result,
                    };
                    assert(r@.current_holes =~= Seq::empty());
                    assert(r@.result =~= before.result.push(
                        polygon_of(pending@, before.current_holes),
                    ));
                    r
                },
                None => Assembler { current_outer: Some(ring), current_holes, result },
            }
        } else {
            let mut current_holes = current_holes;
            current_holes.push(ring);
            let r = Assembler { current_outer, current_holes, result };
            assert(r@.current_holes =~= before.current_holes.push(ring@));
            r
        }
    }

    /// Ends the list and hands out the polygons.
    pub fn finish(self) -> (r: Vec<Polygon>)
        ensures
            polygons_view(r@) == finish(self@),
    {
        let Assembler { current_outer, current_holes, result } = self;
        let mut result = result;
        if result.len() == 0 {
            if let Some(outer) = current_outer {
                let polygon = Polygon::new(outer, current_holes);
                result.push(polygon);
                assert(polygons_view(result@) =~= seq![polygon@]);
            }
        }
        result
    }
}

/// After any rings: a boundary is open exactly if one was read, every
/// boundary but the last has become a polygon, and every hole is either in
/// a polygon or waiting for one.
pub proof fn lemma_read(rings: Seq<TaggedRing>)
    ensures
        read(rings).current_outer is Some <==> outer_count(rings) >= 1,
        outer_count(rings) >= 1 ==> read(rings).result.len() == outer_count(rings) - 1,
        outer_count(rings) == 0 ==> read(rings).result.len() == 0,
        hole_count(read(rings).result) + read(rings).current_holes.len() == inner_count(rings),
    decreases rings.len(),
{
    if rings.len() > 0 {
        let before = read(rings.drop_last());
        lemma_read(rings.drop_last());
        if rings.last().outer && before.current_outer is Some {
            let polygon = polygon_of(before.current_outer->Some_0, before.current_holes);
            assert(read(rings).result.drop_last() =~= before.result);
            assert(read(rings).result.last() == polygon);
            assert(polygon.interiors.len() == before.current_holes.len());
        }
    } else {
        assert(hole_count(read(rings).result) == 0);
    }
}

/// A list with an outer boundary at its head has at least one.
pub proof fn lemma_outer_at_head(rings: Seq<TaggedRing>)
    requires
        rings.len() > 0,
        rings[0].outer,
    ensures
        outer_count(rings) >= 1,
    decreases rings.len(),
{
    if rings.len() > 1 {
        lemma_outer_at_head(rings.drop_last());
    }
}

/// How many polygons come of a list: none without an outer boundary, one for
/// one, and with more one fewer than there are outer boundaries, since the
/// last of them is not made a polygon once others have been.
pub proof fn lemma_polygon_count(rings: Seq<TaggedRing>)
    ensures
        outer_count(rings) <= 1 ==> assemble(rings).len() == outer_count(rings),
        outer_count(rings) >= 2 ==> assemble(rings).len() == outer_count(rings) - 1,
{
    lemma_read(rings);
}

/// Of a list in which no hole comes before the first outer boundary, and
/// which has at most one outer boundary: there are as many polygons as outer
/// boundaries, and as many holes in them as the list has holes.
pub proof fn lemma_ring_count(rings: Seq<TaggedRing>)
    requires
        well_formed(rings),
        outer_count(rings) <= 1,
    ensures
        assemble(rings).len() == outer_count(rings),
        hole_count(assemble(rings)) == inner_count(rings),
{
    lemma_read(rings);
    if rings.len() > 0 {
        lemma_outer_at_head(rings);
        let end = read(rings);
        let polygon = polygon_of(end.current_outer->Some_0, end.current_holes);
        assert(hole_count(end.result) == 0);
        assert(assemble(rings) =~= seq![polygon]);
        assert(assemble(rings).drop_last() =~= Seq::<PolygonView>::empty());
        assert(hole_count(assemble(rings).drop_last()) == 0);
        assert(polygon.interiors.len() == end.current_holes.len());
    } else {
        assert(hole_count(assemble(rings)) == 0);
    }
}

/// An empty list gives no polygon.
pub proof fn lemma_empty()
    ensures
        assemble(Seq::<TaggedRing>::empty()) == Seq::<PolygonView>::empty(),
{
    assert(assemble(Seq::<TaggedRing>::empty()) =~= Seq::<PolygonView>::empty());
}

/// A list of one outer boundary gives one polygon, with that boundary closed
/// and without holes.
pub proof fn lemma_single_outer(coords: Seq<Coord>)
    ensures
        assemble(seq![outer_ring(coords)]) == seq![polygon_of(coords, Seq::empty())],
        assemble(seq![outer_ring(coords)])[0].interiors.len() == 0,
{
    let rings = seq![outer_ring(coords)];
    assert(rings.drop_last() =~= Seq::<TaggedRing>::empty());
    assert(read(rings.drop_last()) == start());
    assert(read(rings).current_holes =~= Seq::<Seq<Coord>>::empty());
}

/// A list of holes alone gives no polygon.
pub proof fn lemma_holes_alone(rings: Seq<TaggedRing>)
    requires
        forall|i: int| 0 <= i < rings.len() ==> !rings[i].outer,
    ensures
        assemble(rings) == Seq::<PolygonView>::empty(),
    decreases rings.len(),
{
    if rings.len() > 0 {
        lemma_holes_alone(rings.drop_last());
    }
    lemma_read(rings);
    lemma_no_outer(rings);
    assert(assemble(rings) =~= Seq::<PolygonView>::empty());
}

/// A list of holes alone has no outer boundary.
pub proof fn lemma_no_outer(rings: Seq<TaggedRing>)
    requires
        forall|i: int| 0 <= i < rings.len() ==> !rings[i].outer,
    ensures
        outer_count(rings) == 0,
    decreases rings.len(),
{
    if rings.len() > 0 {
        lemma_no_outer(rings.drop_last());
    }
}

/// After an outer boundary and the holes that follow it, the boundary is
/// open and exactly those holes wait for it.
pub proof fn lemma_read_boundary_and_holes(first: Seq<Coord>, holes: Seq<Seq<Coord>>)
    ensures
        read(seq![outer_ring(first)] + inner_rings(holes)) == (Progress {
            current_outer: Some(first),
            current_holes: holes,
            result: Seq::empty(),
        }),
    decreases holes.len(),
{
    let rings = seq![outer_ring(first)] + inner_rings(holes);
    if holes.len() == 0 {
        assert(rings.drop_last() =~= Seq::<TaggedRing>::empty());
        assert(read(rings.drop_last()) == start());
        assert(rings.last() == outer_ring(first));
        assert(read(rings).current_holes =~= holes);
    } else {
        lemma_read_boundary_and_holes(first, holes.drop_last());
        assert(rings.drop_last() =~= seq![outer_ring(first)] + inner_rings(holes.drop_last()));
        assert(rings.last() == TaggedRing { outer: false, coords: holes.last() });
        assert(holes.drop_last().push(holes.last()) =~= holes);
    }
}

/// A hole goes with the outer boundary that comes last before it: where a
/// list starts with an outer boundary and the holes that follow it, and goes
/// on with nothing or with another outer boundary, the first polygon is that
/// boundary with exactly those holes.
pub proof fn lemma_hole_association(
    first: Seq<Coord>,
    holes: Seq<Seq<Coord>>,
    rest: Seq<TaggedRing>,
)
    requires
        rest.len() == 0 || rest[0].outer,
    ensures
        assemble(seq![outer_ring(first)] + inner_rings(holes) + rest).len() >= 1,
        assemble(seq![outer_ring(first)] + inner_rings(holes) + rest)[0] == polygon_of(
            first,
            holes,
        ),
{
    let head = seq![outer_ring(first)] + inner_rings(holes);
    lemma_read_boundary_and_holes(first, holes);
    if rest.len() == 0 {
        assert(head + rest =~= head);
    } else {
        lemma_first_polygon_stays(head, rest);
    }
}

/// Once a polygon has been made it stays the first, whatever is read after
/// it.
proof fn lemma_first_polygon_stays(head: Seq<TaggedRing>, rest: Seq<TaggedRing>)
    requires
        read(head).current_outer is Some,
        read(head).result.len() == 0,
        rest.len() > 0,
        rest[0].outer,
    ensures
        read(head + rest).result.len() >= 1,
        read(head + rest).result[0] == polygon_of(
            read(head).current_outer->Some_0,
            read(head).current_holes,
        ),
    decreases rest.len(),
{
    assert((head + rest).drop_last() =~= head + rest.drop_last());
    assert((head + rest).last() == rest.last());
    if rest.len() == 1 {
        assert(head + rest.drop_last() =~= head);
    } else {
        lemma_first_polygon_stays(head, rest.drop_last());
    }
}

} // verus!
