use spreadsheet::analytic::{
    AnyGeometry, Coord, GeometryCollection, Line, LineString, MultiLineString, MultiPoint,
    MultiPolygon, Point, Polygon, Rect, Triangle,
};
use spreadsheet::convert::Convert;

fn coord(x: f64, y: f64) -> Coord {
    Coord { x: x.to_bits(), y: y.to_bits() }
}

fn line(points: &[(f64, f64)]) -> LineString {
    LineString::new(points.iter().map(|p| coord(p.0, p.1)).collect())
}

fn square(at: f64, side: f64) -> Vec<(f64, f64)> {
    vec![(at, at), (at, at + side), (at + side, at + side), (at + side, at), (at, at)]
}

fn value(geometry: AnyGeometry) -> geojson::Value {
    Convert::new(geometry).geojson_value()
}

#[test]
fn point_becomes_a_point() {
    let ours = value(AnyGeometry::Point(Point(coord(1.5, -2.0))));
    assert_eq!(ours, geojson::Value::Point(vec![1.5, -2.0]));
    assert_eq!(ours, geojson::Value::from(&geo_types::Point::new(1.5, -2.0)));
    assert!(matches!(ours, geojson::Value::Point(_)));
}

#[test]
fn line_becomes_a_line_string() {
    let ours = value(AnyGeometry::Line(Line { start: coord(0.0, 1.0), end: coord(2.0, 3.0) }));
    assert_eq!(ours, geojson::Value::LineString(vec![vec![0.0, 1.0], vec![2.0, 3.0]]));
    assert_eq!(ours, geojson::Value::from(&geo_types::Line::new((0.0, 1.0), (2.0, 3.0))));
    assert!(matches!(ours, geojson::Value::LineString(_)));
}

#[test]
fn line_string_becomes_a_line_string() {
    let points = vec![(0.0, 1.0), (2.0, 3.0), (4.0, 5.0)];
    let ours = value(AnyGeometry::LineString(line(&points)));
    assert_eq!(
        ours,
        geojson::Value::LineString(vec![vec![0.0, 1.0], vec![2.0, 3.0], vec![4.0, 5.0]])
    );
    assert_eq!(ours, geojson::Value::from(&geo_types::LineString::from(points)));
    assert!(matches!(ours, geojson::Value::LineString(_)));
}

#[test]
fn polygon_becomes_a_polygon() {
    let outer = square(0.0, 10.0);
    let hole = square(2.0, 2.0);
    let ours = value(AnyGeometry::Polygon(Polygon::new(line(&outer), vec![line(&hole)])));
    let theirs = geojson::Value::from(&geo_types::Polygon::new(
        geo_types::LineString::from(outer),
        vec![geo_types::LineString::from(hole)],
    ));
    assert_eq!(ours, theirs);
    assert!(matches!(ours, geojson::Value::Polygon(_)));
    match ours {
        geojson::Value::Polygon(rings) => {
            assert_eq!(rings.len(), 2);
            assert_eq!(rings[0].len(), 5);
            assert_eq!(rings[0][0], rings[0][4]);
            assert_eq!(rings[1][1], vec![2.0, 4.0]);
        }
        _ => panic!("not a polygon"),
    }
}

#[test]
fn polygon_with_open_rings_is_closed_in_the_output() {
    let open = vec![(0.0, 0.0), (0.0, 10.0), (10.0, 10.0)];
    let ours = value(AnyGeometry::Polygon(Polygon::new(line(&open), vec![])));
    assert_eq!(
        ours,
        geojson::Value::Polygon(vec![vec![
            vec![0.0, 0.0],
            vec![0.0, 10.0],
            vec![10.0, 10.0],
            vec![0.0, 0.0]
        ]])
    );
}

#[test]
fn multi_point_becomes_a_multi_point() {
    let ours = value(AnyGeometry::MultiPoint(MultiPoint(vec![
        Point(coord(1.0, 2.0)),
        Point(coord(3.0, 4.0)),
    ])));
    assert_eq!(ours, geojson::Value::MultiPoint(vec![vec![1.0, 2.0], vec![3.0, 4.0]]));
    assert_eq!(
        ours,
        geojson::Value::from(&geo_types::MultiPoint::from(vec![(1.0, 2.0), (3.0, 4.0)]))
    );
    assert!(matches!(ours, geojson::Value::MultiPoint(_)));
}

#[test]
fn multi_line_string_becomes_a_multi_line_string() {
    let a = vec![(0.0, 1.0), (2.0, 3.0)];
    let b = vec![(4.0, 5.0), (6.0, 7.0), (8.0, 9.0)];
    let ours = value(AnyGeometry::MultiLineString(MultiLineString::new(vec![line(&a), line(&b)])));
    let theirs = geojson::Value::from(&geo_types::MultiLineString::new(vec![
        geo_types::LineString::from(a),
        geo_types::LineString::from(b),
    ]));
    assert_eq!(ours, theirs);
    assert!(matches!(ours, geojson::Value::MultiLineString(_)));
}

#[test]
fn multi_polygon_becomes_a_multi_polygon() {
    let a = square(0.0, 10.0);
    let a1 = square(2.0, 2.0);
    let b = vec![(20.0, 20.0), (20.0, 30.0), (30.0, 30.0)];
    let ours = value(AnyGeometry::MultiPolygon(MultiPolygon::new(vec![
        Polygon::new(line(&a), vec![line(&a1)]),
        Polygon::new(line(&b), vec![]),
    ])));
    let theirs = geojson::Value::from(&geo_types::MultiPolygon::new(vec![
        geo_types::Polygon::new(
            geo_types::LineString::from(a),
            vec![geo_types::LineString::from(a1)],
        ),
        geo_types::Polygon::new(geo_types::LineString::from(b), vec![]),
    ]));
    assert_eq!(ours, theirs);
    assert!(matches!(ours, geojson::Value::MultiPolygon(_)));
}

#[test]
fn rect_becomes_a_polygon() {
    let ours = value(AnyGeometry::Rect(Rect { min: coord(1.0, 2.0), max: coord(3.0, 4.0) }));
    assert_eq!(ours, geojson::Value::from(&geo_types::Rect::new((1.0, 2.0), (3.0, 4.0))));
    assert_eq!(
        ours,
        geojson::Value::Polygon(vec![vec![
            vec![3.0, 2.0],
            vec![3.0, 4.0],
            vec![1.0, 4.0],
            vec![1.0, 2.0],
            vec![3.0, 2.0]
        ]])
    );
    assert!(matches!(ours, geojson::Value::Polygon(_)));
    let swapped = value(AnyGeometry::Rect(Rect { min: coord(3.0, 4.0), max: coord(1.0, 2.0) }));
    assert_eq!(swapped, ours);
}

#[test]
fn triangle_becomes_a_polygon() {
    let ours = value(AnyGeometry::Triangle(Triangle(
        coord(0.0, 0.0),
        coord(4.0, 0.0),
        coord(0.0, 3.0),
    )));
    assert_eq!(
        ours,
        geojson::Value::Polygon(vec![vec![
            vec![0.0, 0.0],
            vec![4.0, 0.0],
            vec![0.0, 3.0],
            vec![0.0, 0.0]
        ]])
    );
    assert!(matches!(ours, geojson::Value::Polygon(_)));
}

#[test]
fn collection_becomes_a_collection_of_its_members() {
    let inner = GeometryCollection(vec![AnyGeometry::Point(Point(coord(9.0, 9.0)))]);
    let ours = value(AnyGeometry::GeometryCollection(GeometryCollection(vec![
        AnyGeometry::Point(Point(coord(1.0, 2.0))),
        AnyGeometry::LineString(line(&[(0.0, 0.0), (1.0, 1.0)])),
        AnyGeometry::GeometryCollection(inner),
    ])));
    let theirs = geojson::Value::from(&geo_types::GeometryCollection::from(vec![
        geo_types::Geometry::Point(geo_types::Point::new(1.0, 2.0)),
        geo_types::Geometry::LineString(geo_types::LineString::from(vec![(0.0, 0.0), (1.0, 1.0)])),
        geo_types::Geometry::GeometryCollection(geo_types::GeometryCollection::from(vec![
            geo_types::Geometry::Point(geo_types::Point::new(9.0, 9.0)),
        ])),
    ]));
    assert_eq!(ours, theirs);
    assert!(matches!(ours, geojson::Value::GeometryCollection(_)));
    let empty = value(AnyGeometry::GeometryCollection(GeometryCollection(vec![])));
    assert_eq!(empty, geojson::Value::GeometryCollection(vec![]));
}

#[test]
fn geometry_object_has_the_value_and_nothing_else() {
    let geometry = Convert::new(AnyGeometry::Point(Point(coord(1.0, 2.0)))).geojson_geometry();
    assert_eq!(geometry.value, geojson::Value::Point(vec![1.0, 2.0]));
    assert_eq!(geometry.bbox, None);
    assert_eq!(geometry.foreign_members, None);
}

#[test]
fn feature_has_the_geometry_and_nothing_else() {
    let feature = Convert::new(AnyGeometry::Point(Point(coord(1.0, 2.0)))).geojson_feature();
    assert_eq!(feature.geometry.unwrap().value, geojson::Value::Point(vec![1.0, 2.0]));
    assert_eq!(feature.bbox, None);
    assert_eq!(feature.id, None);
    assert_eq!(feature.properties, None);
    assert_eq!(feature.foreign_members, None);
}

#[test]
fn cloning_a_geometry_keeps_what_it_holds() {
    let geometry = AnyGeometry::GeometryCollection(GeometryCollection(vec![
        AnyGeometry::Polygon(Polygon::new(line(&square(0.0, 1.0)), vec![line(&square(0.2, 0.2))])),
        AnyGeometry::MultiPoint(MultiPoint(vec![Point(coord(1.0, 2.0))])),
    ]));
    assert_eq!(geometry.clone(), geometry);
}
