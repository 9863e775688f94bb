//! Reading and writing EWKB geometries, against byte strings produced by
//! PostGIS.

use postgis::ewkb::{
    hex_to_vec, AsEwkbPoint, EwkbPoint, EwkbRead, EwkbWrite, GeometryCollectionT, GeometryT,
    LineStringT, MultiLineStringT, MultiPointT, MultiPolygonT, Point, PointM, PointType, PointZ,
    PointZM, PolygonT,
};

fn b(v: f64) -> u64 {
    v.to_bits()
}

#[test]
fn test_point_write() {
    // 'POINT (10 -20)'
    let point = Point::new(b(10.0), b(-20.0), None);
    assert_eq!(
        point.as_ewkb().to_hex_ewkb(),
        "0101000000000000000000244000000000000034C0"
    );

    // 'POINT (10 -20 100)'
    let point = PointZ { x: b(10.0), y: b(-20.0), z: b(100.0), srid: None };
    assert_eq!(
        point.as_ewkb().to_hex_ewkb(),
        "0101000080000000000000244000000000000034C00000000000005940"
    );

    // 'POINTM (10 -20 1)'
    let point = PointM { x: b(10.0), y: b(-20.0), m: b(1.0), srid: None };
    assert_eq!(
        point.as_ewkb().to_hex_ewkb(),
        "0101000040000000000000244000000000000034C0000000000000F03F"
    );

    // 'POINT (10 -20 100 1)'
    let point = PointZM { x: b(10.0), y: b(-20.0), z: b(100.0), m: b(1.0), srid: None };
    assert_eq!(
        point.as_ewkb().to_hex_ewkb(),
        "01010000C0000000000000244000000000000034C00000000000005940000000000000F03F"
    );

    // 'POINT (-0 -1)'
    let point = Point::new(b(0.0), b(-1.0), None);
    assert_eq!(
        point.as_ewkb().to_hex_ewkb(),
        "01010000000000000000000000000000000000F0BF"
    );

    // 'SRID=4326;POINT (10 -20)'
    let point = Point::new(b(10.0), b(-20.0), Some(4326));
    assert_eq!(
        point.as_ewkb().to_hex_ewkb(),
        "0101000020E6100000000000000000244000000000000034C0"
    );
}

#[test]
fn test_line_write() {
    let p = |x, y| Point::new(b(x), b(y), None);
    // 'LINESTRING (10 -20, 0 -0.5)'
    let line = LineStringT::<Point> { srid: None, points: vec![p(10.0, -20.0), p(0., -0.5)] };
    assert_eq!(
        line.as_ewkb().to_hex_ewkb(),
        "010200000002000000000000000000244000000000000034C00000000000000000000000000000E0BF"
    );

    // 'SRID=4326;LINESTRING (10 -20, 0 -0.5)'
    let line = LineStringT::<Point> { srid: Some(4326), points: vec![p(10.0, -20.0), p(0., -0.5)] };
    assert_eq!(
        line.as_ewkb().to_hex_ewkb(),
        "0102000020E610000002000000000000000000244000000000000034C00000000000000000000000000000E0BF"
    );

    let p = |x, y, z| PointZ { x: b(x), y: b(y), z: b(z), srid: Some(4326) };
    // 'SRID=4326;LINESTRING (10 -20 100, 0 0.5 101)'
    let line = LineStringT::<PointZ> {
        srid: Some(4326),
        points: vec![p(10.0, -20.0, 100.0), p(0., -0.5, 101.0)],
    };
    assert_eq!(
        line.as_ewkb().to_hex_ewkb(),
        "01020000A0E610000002000000000000000000244000000000000034C000000000000059400000000000000000000000000000E0BF0000000000405940"
    );
}

#[test]
fn test_polygon_write() {
    let p = |x, y| Point::new(b(x), b(y), Some(4326));
    // SELECT 'SRID=4326;POLYGON ((0 0, 2 0, 2 2, 0 2, 0 0))'::geometry
    let line = LineStringT::<Point> {
        srid: Some(4326),
        points: vec![p(0., 0.), p(2., 0.), p(2., 2.), p(0., 2.), p(0., 0.)],
    };
    let poly = PolygonT::<Point> { srid: Some(4326), rings: vec![line] };
    assert_eq!(
        poly.as_ewkb().to_hex_ewkb(),
        "0103000020E610000001000000050000000000000000000000000000000000000000000000000000400000000000000000000000000000004000000000000000400000000000000000000000000000004000000000000000000000000000000000"
    );
}

#[test]
fn test_multipoint_write() {
    let p = |x, y, z| PointZ { x: b(x), y: b(y), z: b(z), srid: Some(4326) };
    // SELECT 'SRID=4326;MULTIPOINT ((10 -20 100), (0 -0.5 101))'::geometry
    let points = MultiPointT::<PointZ> {
        srid: Some(4326),
        points: vec![p(10.0, -20.0, 100.0), p(0., -0.5, 101.0)],
    };
    assert_eq!(
        points.as_ewkb().to_hex_ewkb(),
        "01040000A0E6100000020000000101000080000000000000244000000000000034C0000000000000594001010000800000000000000000000000000000E0BF0000000000405940"
    );
}

#[test]
fn test_multiline_write() {
    let p = |x, y| Point::new(b(x), b(y), Some(4326));
    // SELECT 'SRID=4326;MULTILINESTRING ((10 -20, 0 -0.5), (0 0, 2 0))'::geometry
    let line1 = LineStringT::<Point> { srid: Some(4326), points: vec![p(10.0, -20.0), p(0., -0.5)] };
    let line2 = LineStringT::<Point> { srid: Some(4326), points: vec![p(0., 0.), p(2., 0.)] };
    let multiline = MultiLineStringT::<Point> { srid: Some(4326), lines: vec![line1, line2] };
    assert_eq!(
        multiline.as_ewkb().to_hex_ewkb(),
        "0105000020E610000002000000010200000002000000000000000000244000000000000034C00000000000000000000000000000E0BF0102000000020000000000000000000000000000000000000000000000000000400000000000000000"
    );
}

#[test]
fn test_multipolygon_write() {
    let p = |x, y| Point::new(b(x), b(y), Some(4326));
    // SELECT 'SRID=4326;MULTIPOLYGON (((0 0, 2 0, 2 2, 0 2, 0 0)), ((10 10, -2 10, -2 -2, 10 -2, 10 10)))'::geometry
    let line = LineStringT::<Point> {
        srid: Some(4326),
        points: vec![p(0., 0.), p(2., 0.), p(2., 2.), p(0., 2.), p(0., 0.)],
    };
    let poly1 = PolygonT::<Point> { srid: Some(4326), rings: vec![line] };
    let line = LineStringT::<Point> {
        srid: Some(4326),
        points: vec![p(10., 10.), p(-2., 10.), p(-2., -2.), p(10., -2.), p(10., 10.)],
    };
    let poly2 = PolygonT::<Point> { srid: Some(4326), rings: vec![line] };
    let multipoly = MultiPolygonT::<Point> { srid: Some(4326), polygons: vec![poly1, poly2] };
    assert_eq!(
        multipoly.as_ewkb().to_hex_ewkb(),
        "0106000020E610000002000000010300000001000000050000000000000000000000000000000000000000000000000000400000000000000000000000000000004000000000000000400000000000000000000000000000004000000000000000000000000000000000010300000001000000050000000000000000002440000000000000244000000000000000C0000000000000244000000000000000C000000000000000C0000000000000244000000000000000C000000000000024400000000000002440"
    );
}

#[test]
fn test_ewkb_adapters() {
    let point = Point::new(b(10.0), b(-20.0), Some(4326));
    let ewkb = EwkbPoint { geom: &point, srid: Some(4326), point_type: PointType::Point };
    assert_eq!(
        ewkb.to_hex_ewkb(),
        "0101000020E6100000000000000000244000000000000034C0"
    );
    assert_eq!(
        point.as_ewkb().to_hex_ewkb(),
        "0101000020E6100000000000000000244000000000000034C0"
    );
}

#[test]
fn test_point_read() {
    // SELECT 'POINT(10 -20)'::geometry
    let ewkb = hex_to_vec("0101000000000000000000244000000000000034C0");
    assert_eq!(
        ewkb,
        &[1, 1, 0, 0, 0, 0, 0, 0, 0, 0, 0, 36, 64, 0, 0, 0, 0, 0, 0, 52, 192]
    );
    let mut pos = 0usize;
    let point = Point::read_ewkb(&ewkb, &mut pos).unwrap();
    assert_eq!(point.x(), b(10.0));
    assert_eq!(point.y(), b(-20.0));
    assert_eq!(point.srid, None);

    // SELECT 'POINT(10 -20 100)'::geometry
    let ewkb = hex_to_vec("0101000080000000000000244000000000000034C00000000000005940");
    let mut pos = 0usize;
    let point = PointZ::read_ewkb(&ewkb, &mut pos).unwrap();
    assert_eq!(point, PointZ { x: b(10.0), y: b(-20.0), z: b(100.0), srid: None });

    let mut pos = 0usize;
    let point = Point::read_ewkb(&ewkb, &mut pos).unwrap();
    assert_eq!(point.x(), b(10.0));
    assert_eq!(point.y(), b(-20.0));
    assert_eq!(point.srid, None);

    // SELECT 'POINTM(10 -20 1)'::geometry
    let ewkb = hex_to_vec("0101000040000000000000244000000000000034C0000000000000F03F");
    let mut pos = 0usize;
    let point = PointM::read_ewkb(&ewkb, &mut pos).unwrap();
    assert_eq!(point, PointM { x: b(10.0), y: b(-20.0), m: b(1.0), srid: None });

    // SELECT 'POINT(10 -20 100 1)'::geometry
    let ewkb =
        hex_to_vec("01010000C0000000000000244000000000000034C00000000000005940000000000000F03F");
    let mut pos = 0usize;
    let point = PointZM::read_ewkb(&ewkb, &mut pos).unwrap();
    assert_eq!(
        point,
        PointZM { x: b(10.0), y: b(-20.0), z: b(100.0), m: b(1.0), srid: None }
    );
}

#[test]
fn test_line_read() {
    let p = |x, y| Point::new(b(x), b(y), None);
    // SELECT 'LINESTRING (10 -20, 0 -0.5)'::geometry
    let ewkb = hex_to_vec(
        "010200000002000000000000000000244000000000000034C00000000000000000000000000000E0BF",
    );
    let mut pos = 0usize;
    let line = LineStringT::<Point>::read_ewkb(&ewkb, &mut pos).unwrap();
    assert_eq!(
        line,
        LineStringT::<Point> { srid: None, points: vec![p(10.0, -20.0), p(0., -0.5)] }
    );

    let p = |x, y, z| PointZ { x: b(x), y: b(y), z: b(z), srid: Some(4326) };
    // SELECT 'SRID=4326;LINESTRING (10 -20 100, 0 -0.5 101)'::geometry
    let ewkb = hex_to_vec("01020000A0E610000002000000000000000000244000000000000034C000000000000059400000000000000000000000000000E0BF0000000000405940");
    let mut pos = 0usize;
    let line = LineStringT::<PointZ>::read_ewkb(&ewkb, &mut pos).unwrap();
    assert_eq!(
        line,
        LineStringT::<PointZ> {
            srid: Some(4326),
            points: vec![p(10.0, -20.0, 100.0), p(0., -0.5, 101.0)],
        }
    );
}

#[test]
fn test_polygon_read() {
    let p = |x, y| Point::new(b(x), b(y), Some(4326));
    // SELECT 'SRID=4326;POLYGON ((0 0, 2 0, 2 2, 0 2, 0 0))'::geometry
    let ewkb = hex_to_vec("0103000020E610000001000000050000000000000000000000000000000000000000000000000000400000000000000000000000000000004000000000000000400000000000000000000000000000004000000000000000000000000000000000");
    let mut pos = 0usize;
    let poly = PolygonT::<Point>::read_ewkb(&ewkb, &mut pos).unwrap();
    let line = LineStringT::<Point> {
        srid: Some(4326),
        points: vec![p(0., 0.), p(2., 0.), p(2., 2.), p(0., 2.), p(0., 0.)],
    };
    assert_eq!(poly, PolygonT::<Point> { srid: Some(4326), rings: vec![line] });
}

#[test]
fn test_multipoint_read() {
    // PostGIS doesn't store SRID for sub-geometries
    let p = |x, y, z| PointZ { x: b(x), y: b(y), z: b(z), srid: None };
    // SELECT 'SRID=4326;MULTIPOINT ((10 -20 100), (0 -0.5 101))'::geometry
    let ewkb = hex_to_vec("01040000A0E6100000020000000101000080000000000000244000000000000034C0000000000000594001010000800000000000000000000000000000E0BF0000000000405940");
    let mut pos = 0usize;
    let points = MultiPointT::<PointZ>::read_ewkb(&ewkb, &mut pos).unwrap();
    assert_eq!(
        points,
        MultiPointT::<PointZ> {
            srid: Some(4326),
            points: vec![p(10.0, -20.0, 100.0), p(0., -0.5, 101.0)],
        }
    );
}

#[test]
fn test_multiline_read() {
    // PostGIS doesn't store SRID for sub-geometries
    let p = |x, y| Point::new(b(x), b(y), None);
    // SELECT 'SRID=4326;MULTILINESTRING ((10 -20, 0 -0.5), (0 0, 2 0))'::geometry
    let ewkb = hex_to_vec("0105000020E610000002000000010200000002000000000000000000244000000000000034C00000000000000000000000000000E0BF0102000000020000000000000000000000000000000000000000000000000000400000000000000000");
    let mut pos = 0usize;
    let poly = MultiLineStringT::<Point>::read_ewkb(&ewkb, &mut pos).unwrap();
    let line1 = LineStringT::<Point> { srid: None, points: vec![p(10.0, -20.0), p(0., -0.5)] };
    let line2 = LineStringT::<Point> { srid: None, points: vec![p(0., 0.), p(2., 0.)] };
    assert_eq!(
        poly,
        MultiLineStringT::<Point> { srid: Some(4326), lines: vec![line1, line2] }
    );
}

#[test]
fn test_multipolygon_read() {
    // PostGIS doesn't store SRID for sub-geometries
    let p = |x, y| Point::new(b(x), b(y), None);
    // SELECT 'SRID=4326;MULTIPOLYGON (((0 0, 2 0, 2 2, 0 2, 0 0)), ((10 10, -2 10, -2 -2, 10 -2, 10 10)))'::geometry
    let ewkb = hex_to_vec("0106000020E610000002000000010300000001000000050000000000000000000000000000000000000000000000000000400000000000000000000000000000004000000000000000400000000000000000000000000000004000000000000000000000000000000000010300000001000000050000000000000000002440000000000000244000000000000000C0000000000000244000000000000000C000000000000000C0000000000000244000000000000000C000000000000024400000000000002440");
    let mut pos = 0usize;
    let multipoly = MultiPolygonT::<Point>::read_ewkb(&ewkb, &mut pos).unwrap();
    let line = LineStringT::<Point> {
        srid: None,
        points: vec![p(0., 0.), p(2., 0.), p(2., 2.), p(0., 2.), p(0., 0.)],
    };
    let poly1 = PolygonT::<Point> { srid: None, rings: vec![line] };
    let line = LineStringT::<Point> {
        srid: None,
        points: vec![p(10., 10.), p(-2., 10.), p(-2., -2.), p(10., -2.), p(10., 10.)],
    };
    let poly2 = PolygonT::<Point> { srid: None, rings: vec![line] };
    assert_eq!(
        multipoly,
        MultiPolygonT::<Point> { srid: Some(4326), polygons: vec![poly1, poly2] }
    );
}

#[test]
fn test_geometrycollection_read() {
    // SELECT 'GeometryCollection(POINT (10 10),POINT (30 30),LINESTRING (15 15, 20 20))'::geometry
    let ewkb = hex_to_vec("01070000000300000001010000000000000000002440000000000000244001010000000000000000003E400000000000003E400102000000020000000000000000002E400000000000002E4000000000000034400000000000003440");
    let mut pos = 0usize;
    let geom = GeometryCollectionT::<Point>::read_ewkb(&ewkb, &mut pos).unwrap();

    // Check basic structure
    assert_eq!(geom.geometries.len(), 3);
    assert_eq!(geom.srid, None);

    // Check first point
    match &geom.geometries[0] {
        GeometryT::Point(pt) => {
            assert_eq!(pt.x(), b(10.0));
            assert_eq!(pt.y(), b(10.0));
            assert_eq!(pt.srid, None);
        },
        _ => panic!("First geometry is not a Point"),
    }

    // Check second point
    match &geom.geometries[1] {
        GeometryT::Point(pt) => {
            assert_eq!(pt.x(), b(30.0));
            assert_eq!(pt.y(), b(30.0));
            assert_eq!(pt.srid, None);
        },
        _ => panic!("Second geometry is not a Point"),
    }

    // Check linestring
    match &geom.geometries[2] {
        GeometryT::LineString(ls) => {
            assert_eq!(ls.points.len(), 2);
            assert_eq!(ls.points[0].x(), b(15.0));
            assert_eq!(ls.points[0].y(), b(15.0));
            assert_eq!(ls.points[1].x(), b(20.0));
            assert_eq!(ls.points[1].y(), b(20.0));
        },
        _ => panic!("Third geometry is not a LineString"),
    }
}

#[test]
fn test_geometry_read() {
    // SELECT 'POINT(10 -20 100 1)'::geometry
    let ewkb =
        hex_to_vec("01010000C0000000000000244000000000000034C00000000000005940000000000000F03F");
    let mut pos = 0usize;
    let geom = GeometryT::<PointZM>::read_ewkb(&ewkb, &mut pos).unwrap();
    match &geom {
        GeometryT::Point(pt) => {
            assert_eq!(
                *pt,
                PointZM { x: b(10.0), y: b(-20.0), z: b(100.0), m: b(1.0), srid: None }
            );
        },
        _ => panic!("Geometry is not a Point"),
    }
    // SELECT 'SRID=4326;LINESTRING (10 -20 100, 0 -0.5 101)'::geometry
    let ewkb = hex_to_vec("01020000A0E610000002000000000000000000244000000000000034C000000000000059400000000000000000000000000000E0BF0000000000405940");
    let mut pos = 0usize;
    let geom = GeometryT::<PointZ>::read_ewkb(&ewkb, &mut pos).unwrap();
    match &geom {
        GeometryT::LineString(ls) => {
            assert_eq!(ls.srid, Some(4326));
            assert_eq!(
                ls.points,
                vec![
                    PointZ { x: b(10.0), y: b(-20.0), z: b(100.0), srid: Some(4326) },
                    PointZ { x: b(0.0), y: b(-0.5), z: b(101.0), srid: Some(4326) },
                ]
            );
        },
        _ => panic!("Geometry is not a LineString"),
    }
    // SELECT 'SRID=4326;POLYGON ((0 0, 2 0, 2 2, 0 2, 0 0))'::geometry
    let ewkb = hex_to_vec("0103000020E610000001000000050000000000000000000000000000000000000000000000000000400000000000000000000000000000004000000000000000400000000000000000000000000000004000000000000000000000000000000000");
    let mut pos = 0usize;
    let geom = GeometryT::<Point>::read_ewkb(&ewkb, &mut pos).unwrap();

    // Check polygon structure
    match &geom {
        GeometryT::Polygon(poly) => {
            assert_eq!(poly.srid, Some(4326));
            assert_eq!(poly.rings.len(), 1);

            // Check the points in the ring
            let ring = &poly.rings[0];
            assert_eq!(ring.points.len(), 5);

            // Create expected points
            let expected_points = [
                (0.0, 0.0),
                (2.0, 0.0),
                (2.0, 2.0),
                (0.0, 2.0),
                (0.0, 0.0),
            ];

            // Verify each point in the ring
            for (i, point) in ring.points.iter().enumerate() {
                assert_eq!(point.x(), b(expected_points[i].0));
                assert_eq!(point.y(), b(expected_points[i].1));
                assert_eq!(point.srid, Some(4326));
            }
        },
        _ => panic!("Geometry is not a Polygon"),
    }
    // SELECT 'SRID=4326;MULTIPOINT ((10 -20 100), (0 -0.5 101))'::geometry
    let ewkb = hex_to_vec("01040000A0E6100000020000000101000080000000000000244000000000000034C0000000000000594001010000800000000000000000000000000000E0BF0000000000405940");
    let mut pos = 0usize;
    let geom = GeometryT::<PointZ>::read_ewkb(&ewkb, &mut pos).unwrap();
    match &geom {
        GeometryT::MultiPoint(mp) => {
            assert_eq!(mp.srid, Some(4326));
            assert_eq!(
                mp.points,
                vec![
                    PointZ { x: b(10.0), y: b(-20.0), z: b(100.0), srid: None },
                    PointZ { x: b(0.0), y: b(-0.5), z: b(101.0), srid: None },
                ]
            );
        },
        _ => panic!("Geometry is not a MultiPoint"),
    }
    // SELECT 'SRID=4326;MULTILINESTRING ((10 -20, 0 -0.5), (0 0, 2 0))'::geometry
    let ewkb = hex_to_vec("0105000020E610000002000000010200000002000000000000000000244000000000000034C00000000000000000000000000000E0BF0102000000020000000000000000000000000000000000000000000000000000400000000000000000");
    let mut pos = 0usize;
    let geom = GeometryT::<Point>::read_ewkb(&ewkb, &mut pos).unwrap();

    // Check multilinestring structure
    match &geom {
        GeometryT::MultiLineString(mls) => {
            assert_eq!(mls.srid, Some(4326));
            assert_eq!(mls.lines.len(), 2);

            // First linestring
            let line1 = &mls.lines[0];
            assert_eq!(line1.points.len(), 2);
            assert_eq!(line1.points[0].x(), b(10.0));
            assert_eq!(line1.points[0].y(), b(-20.0));
            assert_eq!(line1.points[1].x(), b(0.0));
            assert_eq!(line1.points[1].y(), b(-0.5));

            // Second linestring
            let line2 = &mls.lines[1];
            assert_eq!(line2.points.len(), 2);
            assert_eq!(line2.points[0].x(), b(0.0));
            assert_eq!(line2.points[0].y(), b(0.0));
            assert_eq!(line2.points[1].x(), b(2.0));
            assert_eq!(line2.points[1].y(), b(0.0));
        },
        _ => panic!("Geometry is not a MultiLineString"),
    };
    // SELECT 'SRID=4326;MULTIPOLYGON (((0 0, 2 0, 2 2, 0 2, 0 0)), ((10 10, -2 10, -2 -2, 10 -2, 10 10)))'::geometry
    let ewkb = hex_to_vec("0106000020E610000002000000010300000001000000050000000000000000000000000000000000000000000000000000400000000000000000000000000000004000000000000000400000000000000000000000000000004000000000000000000000000000000000010300000001000000050000000000000000002440000000000000244000000000000000C0000000000000244000000000000000C000000000000000C0000000000000244000000000000000C000000000000024400000000000002440");
    let mut pos = 0usize;
    let geom = GeometryT::<Point>::read_ewkb(&ewkb, &mut pos).unwrap();

    // Check multipolygon structure
    match &geom {
        GeometryT::MultiPolygon(mpoly) => {
            assert_eq!(mpoly.srid, Some(4326));
            assert_eq!(mpoly.polygons.len(), 2);

            // First polygon
            let poly1 = &mpoly.polygons[0];
            assert_eq!(poly1.rings.len(), 1);
            let ring1 = &poly1.rings[0];
            assert_eq!(ring1.points.len(), 5);

            // Check coordinates of first polygon
            let points1 = [
                (0.0, 0.0),
                (2.0, 0.0),
                (2.0, 2.0),
                (0.0, 2.0),
                (0.0, 0.0),
            ];

            for (i, pt) in ring1.points.iter().enumerate() {
                assert_eq!(pt.x(), b(points1[i].0));
                assert_eq!(pt.y(), b(points1[i].1));
            }

            // Second polygon
            let poly2 = &mpoly.polygons[1];
            assert_eq!(poly2.rings.len(), 1);
            let ring2 = &poly2.rings[0];
            assert_eq!(ring2.points.len(), 5);

            // Check coordinates of second polygon
            let points2 = [
                (10.0, 10.0),
                (-2.0, 10.0),
                (-2.0, -2.0),
                (10.0, -2.0),
                (10.0, 10.0),
            ];

            for (i, pt) in ring2.points.iter().enumerate() {
                assert_eq!(pt.x(), b(points2[i].0));
                assert_eq!(pt.y(), b(points2[i].1));
            }
        },
        _ => panic!("Geometry is not a MultiPolygon"),
    };
    // SELECT 'GeometryCollection(POINT (10 10),POINT (30 30),LINESTRING (15 15, 20 20))'::geometry
    let ewkb = hex_to_vec("01070000000300000001010000000000000000002440000000000000244001010000000000000000003E400000000000003E400102000000020000000000000000002E400000000000002E4000000000000034400000000000003440");
    let mut pos = 0usize;
    let geom = GeometryT::<Point>::read_ewkb(&ewkb, &mut pos).unwrap();

    // Check geometry collection structure
    match &geom {
        GeometryT::GeometryCollection(gc) => {
            assert_eq!(gc.srid, None);
            assert_eq!(gc.geometries.len(), 3);

            // First point
            match &gc.geometries[0] {
                GeometryT::Point(pt) => {
                    assert_eq!(pt.x(), b(10.0));
                    assert_eq!(pt.y(), b(10.0));
                },
                _ => panic!("First geometry is not a Point"),
            }

            // Second point
            match &gc.geometries[1] {
                GeometryT::Point(pt) => {
                    assert_eq!(pt.x(), b(30.0));
                    assert_eq!(pt.y(), b(30.0));
                },
                _ => panic!("Second geometry is not a Point"),
            }

            // LineString
            match &gc.geometries[2] {
                GeometryT::LineString(ls) => {
                    assert_eq!(ls.points.len(), 2);
                    assert_eq!(ls.points[0].x(), b(15.0));
                    assert_eq!(ls.points[0].y(), b(15.0));
                    assert_eq!(ls.points[1].x(), b(20.0));
                    assert_eq!(ls.points[1].y(), b(20.0));
                },
                _ => panic!("Third geometry is not a LineString"),
            }
        },
        _ => panic!("Geometry is not a GeometryCollection"),
    };
}

#[test]
fn test_read_error() {
    // SELECT 'LINESTRING (10 -20, 0 -0.5)'::geometry
    let ewkb = hex_to_vec(
        "010200000002000000000000000000244000000000000034C00000000000000000000000000000E0BF",
    );
    let mut pos = 0usize;
    let poly = PolygonT::<Point>::read_ewkb(&ewkb, &mut pos);
    assert!(poly.is_err()); // stream exhausted: point count misread as ring count
}

#[test]
fn test_iterators() {
    let p = |x, y| Point::new(b(x), b(y), None);
    let line = LineStringT::<Point> { srid: Some(4326), points: vec![p(10.0, -20.0), p(0., -0.5)] };
    let last_point = line.points().last().unwrap();
    assert_eq!(last_point.x(), b(0.));
    assert_eq!(last_point.y(), b(-0.5));
    assert_eq!(last_point.srid, None);
}
