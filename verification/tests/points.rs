use spreadsheet::analytic::{Coord, Point};
use spreadsheet::convert::{CartesianPoint2d, Convert};
use spreadsheet::legacy;
use spreadsheet::legacy::HasXY;
use spreadsheet::render::Point2d;

fn bits(x: f64) -> u64 {
    x.to_bits()
}

#[test]
fn convert_new_and_into_inner_hand_the_value_through() {
    let point = Point(Coord { x: bits(1.5), y: bits(-2.25) });
    assert_eq!(Convert::new(point).into_inner(), point);
    assert_eq!(Convert::new(7u8).0, 7u8);
}

#[test]
fn analytic_point_to_every_model() {
    let point = Point(Coord { x: bits(1.5), y: bits(-2.25) });
    assert_eq!(Convert::new(point).point(), Point2d { x: bits(1.5), y: bits(-2.25) });
    assert_eq!(Convert::new(point).geo_point(), point);
    assert_eq!(Convert::new(point).geo_coord(), Coord { x: bits(1.5), y: bits(-2.25) });
    assert_eq!(Convert::new(point).x(), bits(1.5));
    assert_eq!(Convert::new(point).y(), bits(-2.25));
}

#[test]
fn legacy_point_to_every_model() {
    let point = legacy::Point::new(bits(3.0), bits(4.0));
    assert_eq!(Convert::new(point).point(), Point2d { x: bits(3.0), y: bits(4.0) });
    assert_eq!(Convert::new(point).geo_point(), Point(Coord { x: bits(3.0), y: bits(4.0) }));
    assert_eq!(Convert::new(point).geo_coord(), Coord { x: bits(3.0), y: bits(4.0) });
    assert_eq!(Convert::new(point).x(), bits(3.0));
    assert_eq!(Convert::new(point).y(), bits(4.0));
}

#[test]
fn legacy_point_z_drops_the_elevation() {
    let point = legacy::PointZ::new(bits(3.0), bits(4.0), bits(99.0), bits(-1.0));
    assert_eq!(point.x(), bits(3.0));
    assert_eq!(point.y(), bits(4.0));
    assert_eq!(Convert::new(point).point(), Point2d { x: bits(3.0), y: bits(4.0) });
    assert_eq!(Convert::new(point).geo_point(), Point(Coord { x: bits(3.0), y: bits(4.0) }));
    assert_eq!(Convert::new(point).geo_coord(), Coord { x: bits(3.0), y: bits(4.0) });
    assert_eq!(Convert::new(point).geotypes_coord(), Coord { x: bits(3.0), y: bits(4.0) });
}

#[test]
fn coord_to_rendering_point() {
    let coord = Coord { x: bits(0.1), y: bits(0.2) };
    assert_eq!(Convert::new(coord).point(), Point2d::new(bits(0.1), bits(0.2)));
    assert_eq!(Convert::new(coord).x(), bits(0.1));
    assert_eq!(Convert::new(coord).y(), bits(0.2));
}

#[test]
fn round_trip_keeps_every_bit() {
    let values = [0.0, -0.0, 1.0, f64::MAX, f64::MIN_POSITIVE, 5e-324, -123.456, 1e300];
    for x in values {
        for y in values {
            let source = legacy::Point::new(bits(x), bits(y));
            let direct = Convert::new(source).geo_point();
            let again = Convert::new(Convert::new(direct).geo_point()).geo_point();
            assert_eq!(again, direct);
            let by_way = Convert::new(Convert::new(source).geo_point()).point();
            assert_eq!(by_way, Convert::new(source).point());
            let by_coord = Convert::new(Convert::new(source).geo_coord()).point();
            assert_eq!(by_coord, Convert::new(source).point());
            assert_eq!(f64::from_bits(by_way.x).to_bits(), x.to_bits());
            assert_eq!(f64::from_bits(by_way.y).to_bits(), y.to_bits());
        }
    }
}

#[test]
fn points_of_a_list_keep_their_order() {
    let points = vec![
        legacy::PointZ::new(bits(1.0), bits(2.0), bits(3.0), bits(0.0)),
        legacy::PointZ::new(bits(4.0), bits(5.0), bits(6.0), bits(0.0)),
        legacy::PointZ::new(bits(7.0), bits(8.0), bits(9.0), bits(0.0)),
    ];
    assert_eq!(
        Convert::new(points.clone()).galileo_points(),
        vec![
            Point2d { x: bits(1.0), y: bits(2.0) },
            Point2d { x: bits(4.0), y: bits(5.0) },
            Point2d { x: bits(7.0), y: bits(8.0) },
        ]
    );
    assert_eq!(
        Convert::new(points).geotypes_coords(),
        vec![
            Coord { x: bits(1.0), y: bits(2.0) },
            Coord { x: bits(4.0), y: bits(5.0) },
            Coord { x: bits(7.0), y: bits(8.0) },
        ]
    );
    assert_eq!(Convert::new(Vec::<legacy::PointZ>::new()).galileo_points(), vec![]);
}

#[test]
fn rendering_point_is_the_one_galileo_makes() {
    let point = Convert::new(Coord { x: bits(12.5), y: bits(-7.0) }).point();
    let theirs = galileo_types::cartesian::Point2d::new(12.5, -7.0);
    assert_eq!(f64::from_bits(point.x), theirs.x);
    assert_eq!(f64::from_bits(point.y), theirs.y);
}
