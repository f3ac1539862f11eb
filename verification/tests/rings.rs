use spreadsheet::analytic::{Coord, LineString, Polygon};
use spreadsheet::assembly::Assembler;
use spreadsheet::convert::Convert;
use spreadsheet::legacy;
use spreadsheet::legacy::PolygonRing;

fn ring_points(points: &[(f64, f64)]) -> Vec<legacy::Point> {
    points.iter().map(|p| legacy::Point::new(p.0.to_bits(), p.1.to_bits())).collect()
}

fn ring_coords(points: &[(f64, f64)]) -> Vec<Coord> {
    points.iter().map(|p| Coord { x: p.0.to_bits(), y: p.1.to_bits() }).collect()
}

fn square(at: f64, side: f64) -> Vec<(f64, f64)> {
    vec![(at, at), (at, at + side), (at + side, at + side), (at + side, at), (at, at)]
}

fn polygon(exterior: &[(f64, f64)], holes: &[Vec<(f64, f64)>]) -> Polygon {
    Polygon::new(
        LineString::new(ring_coords(exterior)),
        holes.iter().map(|h| LineString::new(ring_coords(h))).collect(),
    )
}

fn assemble(rings: Vec<PolygonRing<legacy::Point>>) -> Vec<Polygon> {
    Convert::new(legacy::Polygon::with_rings(rings)).geo_polygons()
}

#[test]
fn empty_ring_list_gives_no_polygon() {
    assert_eq!(assemble(vec![]), vec![]);
}

#[test]
fn single_outer_ring_gives_one_polygon_without_holes() {
    let a = square(0.0, 10.0);
    let polygons = assemble(vec![PolygonRing::Outer(ring_points(&a))]);
    assert_eq!(polygons.len(), 1);
    assert_eq!(polygons[0].interiors().len(), 0);
    assert_eq!(polygons[0], polygon(&a, &[]));
}

#[test]
fn outer_ring_with_one_hole() {
    let outer = vec![(0.0, 0.0), (0.0, 10.0), (10.0, 10.0), (10.0, 0.0), (0.0, 0.0)];
    let inner = vec![(2.0, 2.0), (2.0, 4.0), (4.0, 4.0), (4.0, 2.0), (2.0, 2.0)];
    let polygons = assemble(vec![
        PolygonRing::Outer(ring_points(&outer)),
        PolygonRing::Inner(ring_points(&inner)),
    ]);
    assert_eq!(polygons.len(), 1);
    assert_eq!(polygons[0].exterior().0.len(), 5);
    assert_eq!(polygons[0].interiors().len(), 1);
    assert_eq!(polygons[0].interiors()[0].0.len(), 5);
    let (_, bounds) = Convert::new(polygons[0].clone()).bounded_polygon();
    let bounds = bounds.unwrap();
    assert_eq!(f64::from_bits(bounds.x_min()), 0.0);
    assert_eq!(f64::from_bits(bounds.y_min()), 0.0);
    assert_eq!(f64::from_bits(bounds.x_max()), 10.0);
    assert_eq!(f64::from_bits(bounds.y_max()), 10.0);
}

#[test]
fn ring_counts_with_one_outer_ring() {
    let a = square(0.0, 100.0);
    let holes = vec![square(1.0, 2.0), square(10.0, 2.0), square(20.0, 2.0)];
    let mut rings = vec![PolygonRing::Outer(ring_points(&a))];
    for hole in &holes {
        rings.push(PolygonRing::Inner(ring_points(hole)));
    }
    let outers = rings.iter().filter(|r| matches!(r, PolygonRing::Outer(_))).count();
    let inners = rings.iter().filter(|r| matches!(r, PolygonRing::Inner(_))).count();
    let polygons = assemble(rings);
    assert_eq!(polygons.len(), outers);
    assert_eq!(polygons.iter().map(|p| p.interiors().len()).sum::<usize>(), inners);
}

#[test]
fn holes_go_with_the_outer_ring_before_them() {
    let a = square(0.0, 10.0);
    let a1 = square(1.0, 1.0);
    let a2 = square(3.0, 1.0);
    let b = square(20.0, 5.0);
    let polygons = assemble(vec![
        PolygonRing::Outer(ring_points(&a)),
        PolygonRing::Inner(ring_points(&a1)),
        PolygonRing::Inner(ring_points(&a2)),
        PolygonRing::Outer(ring_points(&b)),
    ]);
    assert_eq!(polygons[0], polygon(&a, &[a1, a2]));
    // The boundary that is open when the list ends becomes a polygon only
    // if none was made before it.
    assert_eq!(polygons.len(), 1);
}

#[test]
fn second_outer_ring_collects_its_own_holes() {
    let a = square(0.0, 10.0);
    let a1 = square(1.0, 1.0);
    let b = square(20.0, 5.0);
    let b1 = square(21.0, 1.0);
    let c = square(40.0, 5.0);
    let polygons = assemble(vec![
        PolygonRing::Outer(ring_points(&a)),
        PolygonRing::Inner(ring_points(&a1)),
        PolygonRing::Outer(ring_points(&b)),
        PolygonRing::Inner(ring_points(&b1)),
        PolygonRing::Outer(ring_points(&c)),
    ]);
    assert_eq!(polygons, vec![polygon(&a, &[a1]), polygon(&b, &[b1])]);
}

#[test]
fn outer_rings_alone() {
    let a = square(0.0, 1.0);
    let b = square(5.0, 1.0);
    let c = square(9.0, 1.0);
    let polygons = assemble(vec![
        PolygonRing::Outer(ring_points(&a)),
        PolygonRing::Outer(ring_points(&b)),
        PolygonRing::Outer(ring_points(&c)),
    ]);
    assert_eq!(polygons, vec![polygon(&a, &[]), polygon(&b, &[])]);
}

#[test]
fn holes_alone_give_no_polygon() {
    let polygons = assemble(vec![
        PolygonRing::Inner(ring_points(&square(0.0, 1.0))),
        PolygonRing::Inner(ring_points(&square(5.0, 1.0))),
    ]);
    assert_eq!(polygons, vec![]);
}

#[test]
fn holes_before_the_first_outer_ring_wait_for_it() {
    let orphan = square(1.0, 1.0);
    let a = square(0.0, 10.0);
    let polygons = assemble(vec![
        PolygonRing::Inner(ring_points(&orphan)),
        PolygonRing::Outer(ring_points(&a)),
    ]);
    assert_eq!(polygons, vec![polygon(&a, &[orphan])]);
}

#[test]
fn rings_are_closed_when_a_polygon_is_made() {
    let open = vec![(0.0, 0.0), (0.0, 10.0), (10.0, 10.0)];
    let polygons = assemble(vec![PolygonRing::Outer(ring_points(&open))]);
    assert_eq!(
        polygons[0].exterior().0,
        ring_coords(&[(0.0, 0.0), (0.0, 10.0), (10.0, 10.0), (0.0, 0.0)])
    );
}

#[test]
fn polygon_rings_with_elevation() {
    let ring = vec![
        legacy::PointZ::new(0f64.to_bits(), 0f64.to_bits(), 5f64.to_bits(), 0),
        legacy::PointZ::new(0f64.to_bits(), 1f64.to_bits(), 5f64.to_bits(), 0),
        legacy::PointZ::new(1f64.to_bits(), 1f64.to_bits(), 5f64.to_bits(), 0),
        legacy::PointZ::new(0f64.to_bits(), 0f64.to_bits(), 5f64.to_bits(), 0),
    ];
    let polygons =
        Convert::new(legacy::PolygonZ::with_rings(vec![PolygonRing::Outer(ring)])).geo_polygons();
    assert_eq!(polygons, vec![polygon(&[(0.0, 0.0), (0.0, 1.0), (1.0, 1.0), (0.0, 0.0)], &[])]);
}

#[test]
fn ring_to_line_keeps_the_points_in_order() {
    let points = vec![(3.0, 1.0), (2.0, 5.0), (9.0, 9.0)];
    let line = Convert::new(PolygonRing::Inner(ring_points(&points))).geo_linestring();
    assert_eq!(line.into_inner(), ring_coords(&points));
    let ring = PolygonRing::Outer(vec![legacy::PointZ::new(1f64.to_bits(), 2f64.to_bits(), 0, 0)]);
    assert_eq!(ring.points().len(), 1);
    assert_eq!(Convert::new(ring).geo_linestring().into_inner(), ring_coords(&[(1.0, 2.0)]));
}

#[test]
fn assembler_step_by_step() {
    let a = square(0.0, 10.0);
    let a1 = square(1.0, 1.0);
    let assembler = Assembler::new()
        .push(true, LineString::new(ring_coords(&a)))
        .push(false, LineString::new(ring_coords(&a1)));
    assert_eq!(assembler.finish(), vec![polygon(&a, &[a1])]);
    assert_eq!(Assembler::new().finish(), vec![]);
}

#[test]
fn closing_agrees_with_geo_types() {
    let rings: Vec<Vec<(f64, f64)>> = vec![
        vec![],
        vec![(1.0, 1.0)],
        vec![(0.0, 0.0), (1.0, 0.0), (1.0, 1.0)],
        vec![(0.0, 0.0), (1.0, 0.0), (1.0, 1.0), (0.0, 0.0)],
        vec![(0.0, 0.0), (1.0, 0.0), (-0.0, 0.0)],
        vec![(f64::NAN, 0.0), (1.0, 0.0), (f64::NAN, 0.0)],
    ];
    for ring in rings {
        let ours = polygon(&ring, &[ring.clone()]);
        let theirs = geo_types::Polygon::new(
            geo_types::LineString::from(ring.clone()),
            vec![geo_types::LineString::from(ring.clone())],
        );
        let their_exterior: Vec<(u64, u64)> =
            theirs.exterior().0.iter().map(|c| (c.x.to_bits(), c.y.to_bits())).collect();
        let our_exterior: Vec<(u64, u64)> =
            ours.exterior().0.iter().map(|c| (c.x, c.y)).collect();
        assert_eq!(our_exterior, their_exterior);
        let their_hole: Vec<(u64, u64)> =
            theirs.interiors()[0].0.iter().map(|c| (c.x.to_bits(), c.y.to_bits())).collect();
        let our_hole: Vec<(u64, u64)> =
            ours.interiors()[0].0.iter().map(|c| (c.x, c.y)).collect();
        assert_eq!(our_hole, their_hole);
    }
}
