//! Scenario and edge-case checks: the literal byte strings of the wire
//! format, the error taxonomy, round trips, and the flag protocol.

use postgis::error::Error;
use postgis::ewkb::{
    has_m, has_z, hex_to_vec, AsEwkbPoint, EwkbRead, EwkbWrite, GeometryCollectionT, GeometryT,
    GeometryType, LineStringT, MultiLineStringT, Point, PointM, PointZ, PointZM, PolygonT,
};

fn b(v: f64) -> u64 {
    v.to_bits()
}

#[test]
fn test_hex_scenarios() {
    // A plain 2D point at (10, -20) with no SRID.
    let point = Point::new(b(10.0), b(-20.0), None);
    assert_eq!(
        point.as_ewkb().to_hex_ewkb(),
        "0101000000000000000000244000000000000034C0"
    );
    // The same point tagged SRID=4326.
    let point = Point::new(b(10.0), b(-20.0), Some(4326));
    assert_eq!(
        point.as_ewkb().to_hex_ewkb(),
        "0101000020E6100000000000000000244000000000000034C0"
    );
    // LineString([(10,-20),(0,-0.5)], no SRID).
    let line = LineStringT::<Point> {
        srid: None,
        points: vec![Point::new(b(10.0), b(-20.0), None), Point::new(b(0.0), b(-0.5), None)],
    };
    assert_eq!(
        line.as_ewkb().to_hex_ewkb(),
        "010200000002000000000000000000244000000000000034C00000000000000000000000000000E0BF"
    );
}

#[test]
fn test_hex_to_vec_roundtrip() {
    let hex = "0101000020E6100000000000000000244000000000000034C0";
    let bytes = hex_to_vec(hex);
    let mut pos = 0usize;
    let point = Point::read_ewkb(&bytes, &mut pos).unwrap();
    assert_eq!(point.as_ewkb().to_hex_ewkb(), hex);
}

#[test]
fn test_point_empty_read() {
    // A 'POINT EMPTY' payload: both coordinates are NaN. This is a
    // successful decode, not an error.
    let ewkb = hex_to_vec("0101000000000000000000F87F000000000000F87F");
    let mut pos = 0usize;
    let point = Point::read_ewkb(&ewkb, &mut pos).unwrap();
    assert!(f64::from_bits(point.x()).is_nan());
    assert!(f64::from_bits(point.y()).is_nan());
    assert_eq!(point.srid, None);
    // NaN coordinates round-trip bit for bit.
    assert_eq!(
        point.as_ewkb().to_hex_ewkb(),
        "0101000000000000000000F87F000000000000F87F"
    );
}

#[test]
fn test_roundtrip_all_point_shapes() {
    let ewkb_of_point = |p: &Point| p.as_ewkb().to_hex_ewkb();
    let p = Point::new(b(1.5), b(-2.25), Some(-7));
    let bytes = hex_to_vec(&ewkb_of_point(&p));
    let mut pos = 0usize;
    assert_eq!(Point::read_ewkb(&bytes, &mut pos).unwrap(), p);

    let p = PointZ { x: b(1.5), y: b(-2.25), z: b(3.75), srid: None };
    let bytes = hex_to_vec(&p.as_ewkb().to_hex_ewkb());
    let mut pos = 0usize;
    assert_eq!(PointZ::read_ewkb(&bytes, &mut pos).unwrap(), p);

    let p = PointM { x: b(1.5), y: b(-2.25), m: b(8.0), srid: Some(31287) };
    let bytes = hex_to_vec(&p.as_ewkb().to_hex_ewkb());
    let mut pos = 0usize;
    assert_eq!(PointM::read_ewkb(&bytes, &mut pos).unwrap(), p);

    let p = PointZM { x: b(1.5), y: b(-2.25), z: b(3.75), m: b(8.0), srid: Some(4326) };
    let bytes = hex_to_vec(&p.as_ewkb().to_hex_ewkb());
    let mut pos = 0usize;
    assert_eq!(PointZM::read_ewkb(&bytes, &mut pos).unwrap(), p);
}

#[test]
fn test_lossy_downcast_not_roundtrip() {
    // A ZM payload decoded as a plain 2D point drops z and m.
    let zm_hex = "01010000C0000000000000244000000000000034C00000000000005940000000000000F03F";
    let ewkb = hex_to_vec(zm_hex);
    let mut pos = 0usize;
    let point = Point::read_ewkb(&ewkb, &mut pos).unwrap();
    assert_eq!(point, Point::new(b(10.0), b(-20.0), None));
    // Re-encoding that point and decoding it again as a 2D point is stable.
    let down_hex = point.as_ewkb().to_hex_ewkb();
    let bytes = hex_to_vec(&down_hex);
    let mut pos = 0usize;
    let again = Point::read_ewkb(&bytes, &mut pos).unwrap();
    assert_eq!(again, point);
    assert_eq!(again.as_ewkb().to_hex_ewkb(), down_hex);
    // But the round trip does not reproduce the original ZM payload.
    assert_ne!(down_hex, zm_hex);
}

#[test]
fn test_srid_inheritance_asymmetry() {
    // Inline container: every point of a LineString inherits its SRID.
    let ewkb = hex_to_vec("0102000020E610000002000000000000000000244000000000000034C00000000000000000000000000000E0BF");
    let mut pos = 0usize;
    let line = LineStringT::<Point>::read_ewkb(&ewkb, &mut pos).unwrap();
    assert_eq!(line.srid, Some(4326));
    for p in line.points.iter() {
        assert_eq!(p.srid, Some(4326));
    }
    // Typed-element container: the MultiLineString keeps the SRID, its
    // elements and their points decode with none.
    let ewkb = hex_to_vec("0105000020E610000001000000010200000002000000000000000000244000000000000034C00000000000000000000000000000E0BF");
    let mut pos = 0usize;
    let mls = MultiLineStringT::<Point>::read_ewkb(&ewkb, &mut pos).unwrap();
    assert_eq!(mls.srid, Some(4326));
    for l in mls.lines.iter() {
        assert_eq!(l.srid, None);
        for p in l.points.iter() {
            assert_eq!(p.srid, None);
        }
    }
}

#[test]
fn test_container_write_forces_element_srid_none() {
    // Component LineStrings carry SRIDs of their own; the encoding ignores
    // them entirely.
    let p = |x, y, srid| Point::new(b(x), b(y), srid);
    let with_srids = MultiLineStringT::<Point> {
        srid: Some(4326),
        lines: vec![LineStringT::<Point> {
            srid: Some(9999),
            points: vec![p(10.0, -20.0, Some(1)), p(0.0, -0.5, Some(2))],
        }],
    };
    let without_srids = MultiLineStringT::<Point> {
        srid: Some(4326),
        lines: vec![LineStringT::<Point> {
            srid: None,
            points: vec![p(10.0, -20.0, None), p(0.0, -0.5, None)],
        }],
    };
    // The point bodies carry no SRID either, so only coordinates matter:
    // make them equal.
    let a = MultiLineStringT::<Point> {
        srid: Some(4326),
        lines: vec![LineStringT::<Point> {
            srid: Some(9999),
            points: vec![p(10.0, -20.0, None), p(0.0, -0.5, None)],
        }],
    };
    assert_eq!(a.as_ewkb().to_hex_ewkb(), without_srids.as_ewkb().to_hex_ewkb());
    assert_eq!(
        with_srids.as_ewkb().to_hex_ewkb(),
        without_srids.as_ewkb().to_hex_ewkb()
    );
}

#[test]
fn test_type_id_flags() {
    // Flag bits are independent of the kind and of each other.
    for kind in 1u32..=7u32 {
        for &(srid_bit, z_bit, m_bit) in [
            (0u32, 0u32, 0u32),
            (0x20000000, 0, 0),
            (0, 0x80000000, 0),
            (0, 0, 0x40000000),
            (0x20000000, 0x80000000, 0),
            (0x20000000, 0, 0x40000000),
            (0, 0x80000000, 0x40000000),
            (0x20000000, 0x80000000, 0x40000000),
        ]
        .iter()
        {
            let word = kind | srid_bit | z_bit | m_bit;
            assert_eq!(word & 0xff, kind);
            assert_eq!(word & 0x20000000 == 0x20000000, srid_bit != 0);
            assert_eq!(has_z(word), z_bit != 0);
            assert_eq!(has_m(word), m_bit != 0);
        }
    }
}

#[test]
fn test_unsupported_kind_error() {
    // Kind 8 is outside 1..=7.
    let ewkb = hex_to_vec("0108000000");
    let mut pos = 0usize;
    let r = GeometryT::<Point>::read_ewkb(&ewkb, &mut pos);
    assert_eq!(r.unwrap_err(), Error::UnsupportedKind);
}

#[test]
fn test_unsupported_operation_error() {
    // The generic geometry type has no body format of its own.
    let ewkb = hex_to_vec("0101000000000000000000244000000000000034C0");
    let mut pos = 0usize;
    let r = GeometryT::<Point>::read_ewkb_body(&ewkb, &mut pos, false, 1, None);
    assert_eq!(r.unwrap_err(), Error::UnsupportedOperation);
}

#[test]
fn test_truncated_stream_error() {
    // The stream ends inside the second coordinate.
    let ewkb = hex_to_vec("010100000000000000000024400000000000");
    let mut pos = 0usize;
    let r = Point::read_ewkb(&ewkb, &mut pos);
    assert_eq!(r.unwrap_err(), Error::Read);
    // An empty stream fails on the order byte already.
    let empty: Vec<u8> = Vec::new();
    let mut pos = 0usize;
    assert_eq!(Point::read_ewkb(&empty, &mut pos).unwrap_err(), Error::Read);
}

#[test]
fn test_big_endian_read() {
    // The same point as big-endian input: order byte 0, fields reversed.
    let ewkb = hex_to_vec("00000000014024000000000000C034000000000000");
    let mut pos = 0usize;
    let point = Point::read_ewkb(&ewkb, &mut pos).unwrap();
    assert_eq!(point, Point::new(b(10.0), b(-20.0), None));
    // Writers always emit little-endian, whatever came in.
    assert_eq!(
        point.as_ewkb().to_hex_ewkb(),
        "0101000000000000000000244000000000000034C0"
    );
}

#[test]
fn test_nested_geometry_collection() {
    // A collection holding a point and an inner collection holding a point.
    let inner = "010700000001000000010100000000000000000008400000000000001040";
    let outer = format!(
        "010700000002000000010100000000000000000000400000000000000040{}",
        inner
    );
    let bytes = hex_to_vec(&outer);
    let mut pos = 0usize;
    let geom = GeometryT::<Point>::read_ewkb(&bytes, &mut pos).unwrap();
    match &geom {
        GeometryT::GeometryCollection(gc) => {
            assert_eq!(gc.geometries.len(), 2);
            match &gc.geometries[1] {
                GeometryT::GeometryCollection(gc2) => {
                    assert_eq!(gc2.geometries.len(), 1);
                    match &gc2.geometries[0] {
                        GeometryT::Point(pt) => {
                            assert_eq!(*pt, Point::new(b(3.0), b(4.0), None));
                        },
                        _ => panic!("Inner geometry is not a Point"),
                    }
                },
                _ => panic!("Second geometry is not a GeometryCollection"),
            }
        },
        _ => panic!("Geometry is not a GeometryCollection"),
    }
}

#[test]
fn test_geometry_write_via_generic() {
    let line = LineStringT::<Point> {
        srid: Some(4326),
        points: vec![Point::new(b(10.0), b(-20.0), None), Point::new(b(0.0), b(-0.5), None)],
    };
    let geom = GeometryT::LineString(line);
    assert_eq!(
        geom.as_ewkb().to_hex_ewkb(),
        "0102000020E610000002000000000000000000244000000000000034C00000000000000000000000000000E0BF"
    );
}

#[test]
fn test_polygon_as_linestring_bytes_fails() {
    // Decoding a LineString's raw bytes as a Polygon misreads the point
    // count as a ring count and runs off the end of the stream.
    let ewkb = hex_to_vec(
        "010200000002000000000000000000244000000000000034C00000000000000000000000000000E0BF",
    );
    let mut pos = 0usize;
    let r = PolygonT::<Point>::read_ewkb(&ewkb, &mut pos);
    assert_eq!(r.unwrap_err(), Error::Read);
}

#[test]
fn test_geometrycollection_write() {
    // The collection from the read test, rebuilt in memory and written back:
    // byte-identical to what PostGIS produced.
    let hex = "01070000000300000001010000000000000000002440000000000000244001010000000000000000003E400000000000003E400102000000020000000000000000002E400000000000002E4000000000000034400000000000003440";
    let gc = GeometryCollectionT::<Point> {
        srid: None,
        geometries: vec![
            GeometryT::Point(Point::new(b(10.0), b(10.0), None)),
            GeometryT::Point(Point::new(b(30.0), b(30.0), None)),
            GeometryT::LineString(LineStringT::<Point> {
                srid: None,
                points: vec![Point::new(b(15.0), b(15.0), None), Point::new(b(20.0), b(20.0), None)],
            }),
        ],
    };
    assert_eq!(gc.as_ewkb().to_hex_ewkb(), hex);
    // And the generic geometry writer agrees.
    let bytes = hex_to_vec(hex);
    let mut pos = 0usize;
    let geom = GeometryT::<Point>::read_ewkb(&bytes, &mut pos).unwrap();
    assert_eq!(geom.as_ewkb().to_hex_ewkb(), hex);
}

#[test]
fn test_as_type() {
    let geom = GeometryT::Point(Point::new(b(1.0), b(2.0), None));
    match geom.as_type() {
        GeometryType::Point(p) => assert_eq!(*p, Point::new(b(1.0), b(2.0), None)),
        _ => panic!("geometry view is not a Point"),
    }
    let geom = GeometryT::<Point>::LineString(LineStringT::<Point> {
        srid: Some(4326),
        points: vec![Point::new(b(1.0), b(2.0), Some(4326))],
    });
    match geom.as_type() {
        GeometryType::LineString(l) => assert_eq!(l.srid, Some(4326)),
        _ => panic!("geometry view is not a LineString"),
    }
}

#[test]
fn test_error_description() {
    let ewkb = hex_to_vec("0108000000");
    let mut pos = 0usize;
    let e = GeometryT::<Point>::read_ewkb(&ewkb, &mut pos).unwrap_err();
    assert_eq!(e.description(), "unsupported geometry kind");
    assert_eq!(Error::Read.description(), "error while reading");
    assert_eq!(Error::UnsupportedOperation.description(), "unsupported operation");
}
