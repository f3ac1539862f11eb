use geo::BoundingRect;
use spreadsheet::analytic::{AnyGeometry, Coord, LineString, MultiLineString, MultiPolygon, Polygon, Rect};
use spreadsheet::bounds::{aggregate, Extent};
use spreadsheet::convert::Convert;
use spreadsheet::float;
use spreadsheet::legacy;
use spreadsheet::render;

fn coords(points: &[(f64, f64)]) -> Vec<Coord> {
    points.iter().map(|p| Coord { x: p.0.to_bits(), y: p.1.to_bits() }).collect()
}

fn line(points: &[(f64, f64)]) -> LineString {
    LineString::new(coords(points))
}

fn contour(points: &[(f64, f64)]) -> render::ClosedContour {
    render::ClosedContour::new(
        points.iter().map(|p| render::Point2d::new(p.0.to_bits(), p.1.to_bits())).collect(),
    )
}

fn rect(x_min: f64, y_min: f64, x_max: f64, y_max: f64) -> render::Rect {
    render::Rect::new(x_min.to_bits(), y_min.to_bits(), x_max.to_bits(), y_max.to_bits())
}

fn numbers(rect: &render::Rect) -> (f64, f64, f64, f64) {
    (
        f64::from_bits(rect.x_min()),
        f64::from_bits(rect.y_min()),
        f64::from_bits(rect.x_max()),
        f64::from_bits(rect.y_max()),
    )
}

fn square(at: f64, side: f64) -> Vec<(f64, f64)> {
    vec![(at, at), (at, at + side), (at + side, at + side), (at + side, at), (at, at)]
}

#[test]
fn contour_keeps_points_and_adds_none() {
    let points = vec![(0.0, 0.0), (0.0, 10.0), (10.0, 10.0)];
    assert_eq!(Convert::new(line(&points)).contour(), contour(&points));
    assert_eq!(Convert::new(line(&[])).contour(), contour(&[]));
    let closed = square(0.0, 1.0);
    assert_eq!(Convert::new(line(&closed)).contour().points.len(), 5);
}

#[test]
fn polygon_to_rendering_polygon() {
    let a = square(0.0, 10.0);
    let a1 = square(1.0, 1.0);
    let a2 = square(4.0, 1.0);
    let polygon = Polygon::new(line(&a), vec![line(&a1), line(&a2)]);
    let rendered = Convert::new(polygon).polygon();
    assert_eq!(rendered, render::Polygon::new(contour(&a), vec![contour(&a1), contour(&a2)]));
    let bare = Convert::new(Polygon::new(line(&a), vec![])).polygon();
    assert_eq!(bare.outer_contour, contour(&a));
    assert!(bare.inner_contours.is_empty());
}

#[test]
fn bounds_of_a_line_agree_with_geo() {
    let lines: Vec<Vec<(f64, f64)>> = vec![
        vec![(3.0, 4.0)],
        vec![(0.0, 0.0), (0.0, 10.0), (10.0, 10.0), (10.0, 0.0), (0.0, 0.0)],
        vec![(5.0, -1.0), (-7.5, 2.0), (0.0, 9.25)],
        vec![(-0.0, 0.0), (0.0, -0.0)],
    ];
    for points in lines {
        let ours = Convert::new(line(&points)).bounds().unwrap();
        let theirs = geo_types::LineString::from(points.clone()).bounding_rect().unwrap();
        assert_eq!(ours.min.x, theirs.min().x.to_bits());
        assert_eq!(ours.min.y, theirs.min().y.to_bits());
        assert_eq!(ours.max.x, theirs.max().x.to_bits());
        assert_eq!(ours.max.y, theirs.max().y.to_bits());
    }
    assert_eq!(Convert::new(line(&[])).bounds(), None);
    assert_eq!(line(&[]).bounding_rect(), None);
}

#[test]
fn bounds_touch_and_enclose_the_line() {
    let lines: Vec<Vec<(f64, f64)>> = vec![
        vec![(3.0, 4.0)],
        vec![(5.0, -1.0), (-7.5, 2.0), (0.0, 9.25), (1e300, -1e-300)],
        vec![(-0.0, 0.0), (0.0, -0.0)],
        vec![(f64::NAN, 1.0), (2.0, f64::NAN), (3.0, 4.0)],
        vec![(f64::INFINITY, 0.0), (f64::NEG_INFINITY, 1.0)],
    ];
    for points in lines {
        let bounds = Convert::new(line(&points)).bounds().unwrap();
        let xs: Vec<u64> = points.iter().map(|p| p.0.to_bits()).collect();
        let ys: Vec<u64> = points.iter().map(|p| p.1.to_bits()).collect();
        assert!(xs.contains(&bounds.min.x) && xs.contains(&bounds.max.x));
        assert!(ys.contains(&bounds.min.y) && ys.contains(&bounds.max.y));
        if points.iter().all(|p| !p.0.is_nan() && !p.1.is_nan()) {
            for p in &points {
                assert!(f64::from_bits(bounds.min.x) <= p.0 && p.0 <= f64::from_bits(bounds.max.x));
                assert!(f64::from_bits(bounds.min.y) <= p.1 && p.1 <= f64::from_bits(bounds.max.y));
            }
        }
    }
}

#[test]
fn bounds_of_a_square() {
    let bounds = Convert::new(line(&square(0.0, 10.0))).bounds().unwrap();
    assert_eq!(bounds, Rect { min: coords(&[(0.0, 0.0)])[0], max: coords(&[(10.0, 10.0)])[0] });
}

#[test]
fn rect_to_rendering_rect() {
    let bounds = Rect { min: coords(&[(1.0, 2.0)])[0], max: coords(&[(3.0, 4.0)])[0] };
    assert_eq!(numbers(&Convert::new(bounds).rect()), (1.0, 2.0, 3.0, 4.0));
}

#[test]
fn rendering_rect_orders_its_bounds_as_galileo_does() {
    let cases = [
        (1.0, 2.0, 3.0, 4.0),
        (3.0, 2.0, 1.0, 4.0),
        (1.0, 4.0, 3.0, 2.0),
        (3.0, 4.0, 1.0, 2.0),
        (0.0, 0.0, -0.0, -0.0),
        (f64::MAX, f64::MAX, f64::MIN, f64::MIN),
        (f64::NAN, 1.0, 0.0, 0.0),
    ];
    for (a, b, c, d) in cases {
        let ours = rect(a, b, c, d);
        let theirs = galileo_types::cartesian::Rect::new(a, b, c, d);
        assert_eq!(ours.x_min(), theirs.x_min().to_bits());
        assert_eq!(ours.y_min(), theirs.y_min().to_bits());
        assert_eq!(ours.x_max(), theirs.x_max().to_bits());
        assert_eq!(ours.y_max(), theirs.y_max().to_bits());
    }
    assert_eq!(numbers(&rect(3.0, 4.0, 1.0, 2.0)), (1.0, 2.0, 3.0, 4.0));
}

#[test]
fn bounded_polygon_has_the_bounds_of_its_exterior() {
    let polygon = Polygon::new(line(&square(2.0, 3.0)), vec![line(&square(2.5, 1.0))]);
    let (rendered, bounds) = Convert::new(polygon.clone()).bounded_polygon();
    assert_eq!(rendered, Convert::new(polygon).polygon());
    assert_eq!(numbers(&bounds.unwrap()), (2.0, 2.0, 5.0, 5.0));
    let (empty, none) = Convert::new(Polygon::new(line(&[]), vec![])).bounded_polygon();
    assert!(empty.outer_contour.points.is_empty());
    assert_eq!(none, None);
}

#[test]
fn multipolygon_keeps_the_order_of_its_parts() {
    let a = Polygon::new(line(&square(0.0, 1.0)), vec![]);
    let b = Polygon::new(line(&square(5.0, 2.0)), vec![line(&square(5.5, 0.5))]);
    let multi = MultiPolygon::new(vec![a.clone(), b.clone()]);
    let rendered = Convert::new(multi.clone()).multipolygon();
    assert_eq!(rendered.parts, vec![Convert::new(a).polygon(), Convert::new(b).polygon()]);
    assert_eq!(Convert::new(multi).geo_to_multipolygon(), rendered);
    assert!(Convert::new(MultiPolygon::new(vec![])).multipolygon().parts.is_empty());
}

#[test]
fn bounded_multipolygon_encloses_every_part() {
    let parts = vec![
        Polygon::new(line(&square(0.0, 1.0)), vec![]),
        Polygon::new(line(&square(-5.0, 2.0)), vec![]),
        Polygon::new(line(&[]), vec![]),
        Polygon::new(line(&square(7.0, 3.0)), vec![]),
    ];
    let (multi, bounds) = Convert::new(MultiPolygon::new(parts.clone())).bounded_multipolygon();
    assert_eq!(multi, Convert::new(MultiPolygon::new(parts.clone())).multipolygon());
    assert_eq!(numbers(&bounds), (-5.0, -5.0, 10.0, 10.0));
    for part in parts {
        if let (_, Some(own)) = Convert::new(part).bounded_polygon() {
            assert!(!float::greater(bounds.x_min(), own.x_min()));
            assert!(!float::greater(bounds.y_min(), own.y_min()));
            assert!(!float::less(bounds.x_max(), own.x_max()));
            assert!(!float::less(bounds.y_max(), own.y_max()));
        }
    }
}

#[test]
fn aggregate_without_a_rectangle_has_its_bounds_the_wrong_way_round() {
    let (_, bounds) = Convert::new(MultiPolygon::new(vec![])).bounded_multipolygon();
    assert_eq!(numbers(&bounds), (f64::MAX, f64::MAX, f64::MIN, f64::MIN));
    assert!(f64::from_bits(bounds.x_min()) > f64::from_bits(bounds.x_max()));
    assert!(f64::from_bits(bounds.y_min()) > f64::from_bits(bounds.y_max()));
    assert_eq!(numbers(&aggregate(&vec![None, None])), (f64::MAX, f64::MAX, f64::MIN, f64::MIN));
    let empty = Polygon::new(line(&[]), vec![]);
    let (_, bounds) = Convert::new(MultiPolygon::new(vec![empty])).bounded_multipolygon();
    assert_eq!(numbers(&bounds), (f64::MAX, f64::MAX, f64::MIN, f64::MIN));
}

#[test]
fn extent_starts_at_the_largest_and_the_smallest_number() {
    let extent = Extent::new();
    assert_eq!(f64::from_bits(extent.x_min), f64::MAX);
    assert_eq!(f64::from_bits(extent.y_min), f64::MAX);
    assert_eq!(f64::from_bits(extent.x_max), f64::MIN);
    assert_eq!(f64::from_bits(extent.y_max), f64::MIN);
    assert_eq!(extent.absorb(None), extent);
    let after = extent.absorb(Some(rect(1.0, 2.0, 3.0, 4.0)));
    assert_eq!(
        (
            f64::from_bits(after.x_min),
            f64::from_bits(after.y_min),
            f64::from_bits(after.x_max),
            f64::from_bits(after.y_max)
        ),
        (1.0, 2.0, 3.0, 4.0)
    );
    assert_eq!(numbers(&after.rect()), (1.0, 2.0, 3.0, 4.0));
}

#[test]
fn aggregate_takes_the_least_and_the_greatest_bounds() {
    let parts = vec![
        Some(rect(0.0, 5.0, 1.0, 6.0)),
        None,
        Some(rect(-3.0, 7.0, 0.5, 20.0)),
        Some(rect(0.25, -1.0, 9.0, 0.0)),
    ];
    assert_eq!(numbers(&aggregate(&parts)), (-3.0, -1.0, 9.0, 20.0));
}

#[test]
fn polyline_to_lines() {
    let parts = vec![
        vec![
            legacy::PointZ::new(0f64.to_bits(), 1f64.to_bits(), 9f64.to_bits(), 0),
            legacy::PointZ::new(2f64.to_bits(), 3f64.to_bits(), 9f64.to_bits(), 0),
        ],
        vec![legacy::PointZ::new(4f64.to_bits(), 5f64.to_bits(), 9f64.to_bits(), 0)],
    ];
    let expected =
        MultiLineString::new(vec![line(&[(0.0, 1.0), (2.0, 3.0)]), line(&[(4.0, 5.0)])]);
    let record = legacy::PolylineZ::with_parts(parts);
    assert_eq!(Convert::new(record.clone()).geotypes_multilinestring(), expected);
    assert_eq!(Convert::new(record.clone()).geo_multilinestring(), expected);
    assert_eq!(Convert::new(record).into_geometry(), AnyGeometry::MultiLineString(expected));
}
