//! The laws of the codec: what reading gives back of what writing produced,
//! and how SRIDs travel. Each law is a public proof function; its doc
//! comment states it in words.

use crate::error::Error;
use crate::ewkb::encoding::{
    i32_le_bytes, lemma_i32_le_roundtrip, lemma_u32_le_roundtrip, lemma_u64_le_roundtrip,
    spec_read_i32, spec_read_u32, spec_read_u64, u32_le_bytes, u64_le_bytes,
};
use crate::ewkb::container::{
    spec_line_body_bytes, spec_line_ewkb_bytes, spec_multipoint_body_bytes,
    spec_point_elems_bytes, spec_points_bytes, spec_read_line_body, spec_read_point_elems,
    spec_read_points, LineStringModel, LineStringT, MultiPointModel, MultiPointT,
};
use crate::ewkb::geometry::{
    spec_line_elems_bytes, spec_multiline_body_bytes, spec_multipoly_body_bytes,
    spec_polygon_body_bytes, spec_polygon_elems_bytes, spec_polygon_ewkb_bytes,
    spec_read_line_elems, spec_read_line_ewkb, spec_read_polygon_elems, spec_read_polygon_ewkb,
    spec_read_rings, spec_rings_bytes, MultiLineStringModel, MultiLineStringT, MultiPolygonModel,
    MultiPolygonT, PolygonModel, PolygonT,
};
use crate::ewkb::point::{
    spec_coords_bytes, spec_point_body_bytes, spec_point_ewkb_bytes, spec_read_point_body,
    spec_read_point_raw, Point, PointType, PointZM,
};
use crate::ewkb::{
    spec_has_m, spec_has_srid, spec_has_z, spec_header_bytes, spec_read_header, spec_type_has_m,
    spec_type_has_z, spec_wkb_type_id, EwkbRead,
};
use crate::types;
use vstd::prelude::*;

verus! {

// --- Reading back written primitive fields ---

/// Reading a little-endian 32-bit word where its bytes were written yields
/// the written value.
pub proof fn lemma_read_u32_at(s: Seq<u8>, pos: int, v: u32)
    requires
        0 <= pos,
        pos + 4 <= s.len(),
        s.subrange(pos, pos + 4) == u32_le_bytes(v),
    ensures
        spec_read_u32(s, pos, false) == Ok::<(u32, int), Error>((v, pos + 4)),
{
    let b = s.subrange(pos, pos + 4);
    assert(s[pos] == b[0] && s[pos + 1] == b[1] && s[pos + 2] == b[2] && s[pos + 3] == b[3]);
    lemma_u32_le_roundtrip(v);
}

/// Reading a little-endian 32-bit signed word where its bytes were written
/// yields the written value.
pub proof fn lemma_read_i32_at(s: Seq<u8>, pos: int, v: i32)
    requires
        0 <= pos,
        pos + 4 <= s.len(),
        s.subrange(pos, pos + 4) == i32_le_bytes(v),
    ensures
        spec_read_i32(s, pos, false) == Ok::<(i32, int), Error>((v, pos + 4)),
{
    lemma_read_u32_at(s, pos, v as u32);
    lemma_i32_le_roundtrip(v);
    assert((v as u32) as i32 == v) by (bit_vector);
}

/// Reading a little-endian 64-bit word where its bytes were written yields
/// the written value.
pub proof fn lemma_read_u64_at(s: Seq<u8>, pos: int, v: u64)
    requires
        0 <= pos,
        pos + 8 <= s.len(),
        s.subrange(pos, pos + 8) == u64_le_bytes(v),
    ensures
        spec_read_u64(s, pos, false) == Ok::<(u64, int), Error>((v, pos + 8)),
{
    let b = s.subrange(pos, pos + 8);
    assert(s[pos] == b[0] && s[pos + 1] == b[1] && s[pos + 2] == b[2] && s[pos + 3] == b[3]);
    assert(s[pos + 4] == b[4] && s[pos + 5] == b[5] && s[pos + 6] == b[6] && s[pos + 7] == b[7]);
    lemma_u64_le_roundtrip(v);
}

/// Where a byte block stands inside a stream, each of its bytes stands at
/// its offset.
pub proof fn lemma_subrange_index(s: Seq<u8>, pos: int, b: Seq<u8>)
    requires
        0 <= pos,
        pos + b.len() <= s.len(),
        s.subrange(pos, pos + b.len() as int) == b,
    ensures
        forall|j: int| pos <= j < pos + b.len() ==> #[trigger] s[j] == b[j - pos],
{
    assert forall|j: int| pos <= j < pos + b.len() implies #[trigger] s[j] == b[j - pos] by {
        assert(s.subrange(pos, pos + b.len() as int)[j - pos] == b[j - pos]);
    }
}

// --- Header bit independence ---

/// Or-ing a geometry kind into the flag word built from any point shape and
/// any SRID presence gives a type-id word that decodes back to exactly that
/// kind and those three flags: the flag bits are independent of each other
/// and of the kind.
pub proof fn lemma_type_id_roundtrip(kind: u32, t: PointType, has_srid: bool)
    requires
        1 <= kind <= 7,
    ensures
        (kind | spec_wkb_type_id(t, has_srid)) & 0xffu32 == kind,
        spec_has_srid(kind | spec_wkb_type_id(t, has_srid)) == has_srid,
        spec_has_z(kind | spec_wkb_type_id(t, has_srid)) == spec_type_has_z(t),
        spec_has_m(kind | spec_wkb_type_id(t, has_srid)) == spec_type_has_m(t),
{
    let hz = spec_type_has_z(t);
    let hm = spec_type_has_m(t);
    let f = spec_wkb_type_id(t, has_srid);
    assert((kind | f) & 0xffu32 == kind && ((kind | f) & 0x2000_0000u32 == 0x2000_0000u32)
        == has_srid && ((kind | f) & 0x8000_0000u32 == 0x8000_0000u32) == hz && ((kind | f)
        & 0x4000_0000u32 == 0x4000_0000u32) == hm) by (bit_vector)
        requires
            1 <= kind <= 7,
            f == (if has_srid {
                0x2000_0000u32
            } else {
                0u32
            }) | (if hz {
                0x8000_0000u32
            } else {
                0u32
            }) | (if hm {
                0x4000_0000u32
            } else {
                0u32
            }),
    ;
}

// --- Reading back a written header ---

/// Reading a header where the written header bytes stand (with the SRID bit
/// of the type-id word matching the SRID's presence) yields little-endian
/// order, that type-id word, and that SRID.
pub proof fn lemma_read_header_of_written(s: Seq<u8>, pos: int, type_id: u32, srid: Option<i32>)
    requires
        0 <= pos,
        pos + spec_header_bytes(type_id, srid).len() <= s.len(),
        s.subrange(pos, pos + spec_header_bytes(type_id, srid).len()) == spec_header_bytes(
            type_id,
            srid,
        ),
        spec_has_srid(type_id) == (srid is Some),
    ensures
        spec_read_header(s, pos) == Ok::<((bool, u32, Option<i32>), int), Error>(
            ((false, type_id, srid), pos + spec_header_bytes(type_id, srid).len()),
        ),
{
    let h = spec_header_bytes(type_id, srid);
    lemma_subrange_index(s, pos, h);
    assert(h[0] == 1u8);
    assert(s[pos] == h[0]);
    assert(s.subrange(pos + 1, pos + 5) =~= u32_le_bytes(type_id));
    lemma_read_u32_at(s, pos + 1, type_id);
    match srid {
        Some(sv) => {
            assert(s.subrange(pos + 5, pos + 9) =~= i32_le_bytes(sv));
            lemma_read_i32_at(s, pos + 5, sv);
        },
        None => {},
    }
}

// --- Reading back a written point body ---

/// Reading a point body where the written coordinate bytes stand (with the
/// Z and M bits of the type-id word matching the coordinates' presence)
/// yields exactly those coordinates.
pub proof fn lemma_read_point_raw_of_written(
    s: Seq<u8>,
    pos: int,
    x: u64,
    y: u64,
    z: Option<u64>,
    m: Option<u64>,
    type_id: u32,
)
    requires
        spec_has_z(type_id) == (z is Some),
        spec_has_m(type_id) == (m is Some),
        0 <= pos,
        pos + spec_coords_bytes(x, y, z, m).len() <= s.len(),
        s.subrange(pos, pos + spec_coords_bytes(x, y, z, m).len()) == spec_coords_bytes(x, y, z, m),
    ensures
        spec_read_point_raw(s, pos, false, type_id) == Ok::<
            ((u64, u64, Option<u64>, Option<u64>), int),
            Error,
        >(((x, y, z, m), pos + spec_coords_bytes(x, y, z, m).len())),
{
    lemma_subrange_index(s, pos, spec_coords_bytes(x, y, z, m));
    assert(s.subrange(pos, pos + 8) =~= u64_le_bytes(x));
    lemma_read_u64_at(s, pos, x);
    assert(s.subrange(pos + 8, pos + 16) =~= u64_le_bytes(y));
    lemma_read_u64_at(s, pos + 8, y);
    match z {
        Some(zv) => {
            assert(s.subrange(pos + 16, pos + 24) =~= u64_le_bytes(zv));
            lemma_read_u64_at(s, pos + 16, zv);
            match m {
                Some(mv) => {
                    assert(s.subrange(pos + 24, pos + 32) =~= u64_le_bytes(mv));
                    lemma_read_u64_at(s, pos + 24, mv);
                },
                None => {},
            }
        },
        None => {
            match m {
                Some(mv) => {
                    assert(s.subrange(pos + 16, pos + 24) =~= u64_le_bytes(mv));
                    lemma_read_u64_at(s, pos + 16, mv);
                },
                None => {},
            }
        },
    }
}

// --- Point round-trip ---

/// Writing any point under its own shape and SRID and reading it back as
/// the same shape reproduces it exactly, bit for bit (so IEEE-754 values,
/// NaN included, survive unchanged), whatever follows in the stream.
pub proof fn lemma_point_roundtrip<P: types::Point>(p: P, rest: Seq<u8>)
    ensures
        ({
            let bytes = spec_point_ewkb_bytes(p, P::spec_point_type(), p.spec_srid());
            crate::ewkb::container::spec_read_point_ewkb::<P>(bytes + rest, 0) == Ok::<
                (P, int),
                Error,
            >((p, bytes.len() as int))
        }),
{
    let t = P::spec_point_type();
    let srid = p.spec_srid();
    let tid = 0x01u32 | spec_wkb_type_id(t, srid is Some);
    lemma_type_id_roundtrip(1, t, srid is Some);
    P::lemma_shape(p);
    let hdr = spec_header_bytes(tid, srid);
    let body = spec_point_body_bytes(p);
    let s = (hdr + body) + rest;
    assert(s.subrange(0, hdr.len() as int) =~= hdr);
    lemma_read_header_of_written(s, 0, tid, srid);
    assert(s.subrange(hdr.len() as int, (hdr.len() + body.len()) as int) =~= body);
    lemma_read_point_raw_of_written(
        s,
        hdr.len() as int,
        p.spec_x(),
        p.spec_y(),
        p.spec_opt_z(),
        p.spec_opt_m(),
        tid,
    );
    P::lemma_ext(p);
}

// --- Lossy downcast ---

/// Decoding a ZM-flagged payload as a plain 2D point is valid and silently
/// drops the z and m coordinates; only x, y and the SRID survive. The two
/// encodings differ (the ZM payload is 16 bytes longer), so this is the
/// stated exception to the round-trip law: re-encoding the 2D point cannot
/// reproduce the ZM payload.
#[verifier::rlimit(50)]
pub proof fn lemma_lossy_downcast(p: PointZM, rest: Seq<u8>)
    ensures
        ({
            let bytes = spec_point_ewkb_bytes(p, PointType::PointZM, p.srid);
            crate::ewkb::container::spec_read_point_ewkb::<Point>(bytes + rest, 0) == Ok::<
                (Point, int),
                Error,
            >((Point { x: p.x, y: p.y, srid: p.srid }, bytes.len() as int))
        }),
        spec_point_ewkb_bytes(p, PointType::PointZM, p.srid).len() == spec_point_ewkb_bytes(
            Point { x: p.x, y: p.y, srid: p.srid },
            PointType::Point,
            p.srid,
        ).len() + 16,
{
    let t = PointType::PointZM;
    let srid = p.srid;
    let tid = 0x01u32 | spec_wkb_type_id(t, srid is Some);
    lemma_type_id_roundtrip(1, t, srid is Some);
    let hdr = spec_header_bytes(tid, srid);
    let body = spec_point_body_bytes(p);
    let s = (hdr + body) + rest;
    assert(s.subrange(0, hdr.len() as int) =~= hdr);
    lemma_read_header_of_written(s, 0, tid, srid);
    assert(s.subrange(hdr.len() as int, (hdr.len() + body.len()) as int) =~= body);
    lemma_read_point_raw_of_written(s, hdr.len() as int, p.x, p.y, Some(p.z), Some(p.m), tid);
}

// --- SRID inheritance ---

/// Every point parsed out of an inline point sequence carries the SRID the
/// sequence was read under.
pub proof fn lemma_points_inherit_srid<P: types::Point>(
    bytes: Seq<u8>,
    pos: int,
    is_be: bool,
    type_id: u32,
    srid: Option<i32>,
    n: int,
)
    ensures
        match spec_read_points::<P>(bytes, pos, is_be, type_id, srid, n) {
            Ok(vp) => forall|i: int|
                0 <= i < vp.0.len() ==> (#[trigger] vp.0[i]).spec_srid() == srid,
            Err(_) => true,
        },
    decreases n,
{
    if n > 0 {
        match spec_read_point_body::<P>(bytes, pos, is_be, type_id, srid) {
            Ok((v, p1)) => {
                match spec_read_point_raw(bytes, pos, is_be, type_id) {
                    Ok((c, _)) => {
                        P::lemma_make(c.0, c.1, c.2, c.3, srid);
                    },
                    Err(_) => {},
                }
                lemma_points_inherit_srid::<P>(bytes, p1, is_be, type_id, srid, n - 1);
                match spec_read_points::<P>(bytes, p1, is_be, type_id, srid, n - 1) {
                    Ok(vp2) => {
                        assert forall|i: int| 0 <= i < (seq![v] + vp2.0).len() implies (
                        #[trigger] (seq![v] + vp2.0)[i]).spec_srid() == srid by {
                            if i > 0 {
                                assert((seq![v] + vp2.0)[i] == vp2.0[i - 1]);
                            }
                        }
                    },
                    Err(_) => {},
                }
            },
            Err(_) => {},
        }
    }
}

/// Decoding a LineString body under an SRID yields a LineString whose own
/// SRID is that SRID and whose every point carries it too: inline
/// containers inherit the SRID downward.
pub proof fn lemma_line_srid_inheritance<P: types::Point>(
    bytes: Seq<u8>,
    pos: int,
    is_be: bool,
    type_id: u32,
    srid: Option<i32>,
)
    ensures
        match spec_read_line_body::<P>(bytes, pos, is_be, type_id, srid) {
            Ok(vp) => vp.0.srid == srid && forall|i: int|
                0 <= i < vp.0.points.len() ==> (#[trigger] vp.0.points[i]).spec_srid() == srid,
            Err(_) => true,
        },
{
    match crate::ewkb::encoding::spec_read_u32(bytes, pos, is_be) {
        Ok((n, p1)) => {
            lemma_points_inherit_srid::<P>(bytes, p1, is_be, type_id, srid, n as int);
        },
        Err(_) => {},
    }
}

// --- Typed-element containers: round trip with SRID asymmetry ---

/// The point rebuilt with a different SRID.
pub open spec fn spec_with_srid<P: types::Point>(p: P, srid: Option<i32>) -> P {
    P::make(p.spec_x(), p.spec_y(), p.spec_opt_z(), p.spec_opt_m(), srid)
}

/// The points of a sequence, each rebuilt with the given SRID.
pub open spec fn spec_set_srids<P: types::Point>(points: Seq<P>, srid: Option<i32>) -> Seq<P>
    decreases points.len(),
{
    if points.len() == 0 {
        Seq::<P>::empty()
    } else {
        seq![spec_with_srid(points[0], srid)] + spec_set_srids::<P>(points.drop_first(), srid)
    }
}

/// Reading self-describing point elements where their written encodings
/// stand yields the written points with their SRIDs erased, since a writer
/// leaves every element's SRID field empty.
#[verifier::rlimit(100)]
#[verifier::spinoff_prover]
pub proof fn lemma_read_point_elems_of_written<P: types::Point>(s: Seq<u8>, pos: int, points: Seq<
    P,
>)
    requires
        0 <= pos,
        pos + spec_point_elems_bytes::<P>(points, P::spec_point_type()).len() <= s.len(),
        s.subrange(
            pos,
            pos + spec_point_elems_bytes::<P>(points, P::spec_point_type()).len() as int,
        ) == spec_point_elems_bytes::<P>(points, P::spec_point_type()),
    ensures
        spec_read_point_elems::<P>(s, pos, points.len() as int) == Ok::<(Seq<P>, int), Error>(
            (
                spec_set_srids::<P>(points, None::<i32>),
                pos + spec_point_elems_bytes::<P>(points, P::spec_point_type()).len(),
            ),
        ),
    decreases points.len(),
{
    let t = P::spec_point_type();
    let eb = spec_point_elems_bytes::<P>(points, t);
    if points.len() == 0 {
    } else {
        let p0 = points[0];
        let e0 = spec_point_ewkb_bytes(p0, t, None::<i32>);
        let tid = 0x01u32 | spec_wkb_type_id(t, false);
        lemma_type_id_roundtrip(1, t, false);
        P::lemma_shape(p0);
        let hdr = spec_header_bytes(tid, None);
        let body = spec_point_body_bytes(p0);
        let rest_bytes = spec_point_elems_bytes::<P>(points.drop_first(), t);
        assert(eb == e0 + rest_bytes);
        lemma_subrange_index(s, pos, eb);
        assert(s.subrange(pos, pos + hdr.len() as int) =~= hdr);
        lemma_read_header_of_written(s, pos, tid, None);
        assert(s.subrange(
            pos + hdr.len() as int,
            pos + hdr.len() as int + body.len() as int,
        ) =~= body);
        lemma_read_point_raw_of_written(
            s,
            pos + hdr.len() as int,
            p0.spec_x(),
            p0.spec_y(),
            p0.spec_opt_z(),
            p0.spec_opt_m(),
            tid,
        );
        let pos1 = pos + e0.len() as int;
        assert(s.subrange(pos1, pos1 + rest_bytes.len() as int) =~= rest_bytes);
        lemma_read_point_elems_of_written::<P>(s, pos1, points.drop_first());
        assert(spec_read_point_elems::<P>(s, pos, points.len() as int) == Ok::<
            (Seq<P>, int),
            Error,
        >((spec_set_srids::<P>(points, None::<i32>), pos + eb.len())));
    }
}

/// Round trip of a MultiPoint through its encoding: the container keeps its
/// own SRID, and every element comes back with SRID `None`, whatever SRIDs
/// the in-memory elements carried. This is the SRID asymmetry of
/// typed-element containers: the wire never duplicates the SRID onto
/// elements.
#[verifier::rlimit(100)]
#[verifier::spinoff_prover]
pub proof fn lemma_multipoint_roundtrip<P: types::Point + EwkbRead>(
    points: Seq<P>,
    srid: Option<i32>,
    rest: Seq<u8>,
)
    requires
        points.len() <= 0xFFFF_FFFF,
    ensures
        ({
            let t = P::spec_point_type();
            let tid = 0x04u32 | spec_wkb_type_id(t, srid is Some);
            let bytes = spec_header_bytes(tid, srid) + spec_multipoint_body_bytes::<P>(points, t);
            MultiPointT::<P>::spec_read(bytes + rest, 0) == Ok::<(MultiPointModel<P>, int), Error>(
                (MultiPointModel { points: spec_set_srids::<P>(points, None::<i32>), srid },
                bytes.len() as int),
            )
        }),
{
    let t = P::spec_point_type();
    let tid = 0x04u32 | spec_wkb_type_id(t, srid is Some);
    lemma_type_id_roundtrip(4, t, srid is Some);
    let hdr = spec_header_bytes(tid, srid);
    let cnt = u32_le_bytes(points.len() as u32);
    let elems = spec_point_elems_bytes::<P>(points, t);
    let s = (hdr + (cnt + elems)) + rest;
    assert(s.subrange(0, hdr.len() as int) =~= hdr);
    lemma_read_header_of_written(s, 0, tid, srid);
    assert(s.subrange(hdr.len() as int, hdr.len() as int + 4) =~= cnt);
    lemma_read_u32_at(s, hdr.len() as int, points.len() as u32);
    assert((points.len() as u32) as int == points.len());
    let pos1 = hdr.len() as int + 4;
    assert(s.subrange(pos1, pos1 + elems.len() as int) =~= elems);
    lemma_read_point_elems_of_written::<P>(s, pos1, points);
}

// --- Inline containers: round trip with SRID inheritance ---

/// Reading inline point bodies where their written bytes stand (with the
/// type-id word's Z and M bits matching the shape) yields the written
/// points, every one rebuilt with the SRID the sequence is read under.
#[verifier::rlimit(100)]
#[verifier::spinoff_prover]
pub proof fn lemma_read_points_of_written<P: types::Point>(
    s: Seq<u8>,
    pos: int,
    points: Seq<P>,
    type_id: u32,
    srid: Option<i32>,
)
    requires
        spec_has_z(type_id) == spec_type_has_z(P::spec_point_type()),
        spec_has_m(type_id) == spec_type_has_m(P::spec_point_type()),
        0 <= pos,
        pos + spec_points_bytes::<P>(points).len() <= s.len(),
        s.subrange(pos, pos + spec_points_bytes::<P>(points).len() as int) == spec_points_bytes::<
            P,
        >(points),
    ensures
        spec_read_points::<P>(s, pos, false, type_id, srid, points.len() as int) == Ok::<
            (Seq<P>, int),
            Error,
        >((spec_set_srids::<P>(points, srid), pos + spec_points_bytes::<P>(points).len())),
    decreases points.len(),
{
    let pb = spec_points_bytes::<P>(points);
    if points.len() == 0 {
    } else {
        let p0 = points[0];
        let body = spec_point_body_bytes(p0);
        let rest_bytes = spec_points_bytes::<P>(points.drop_first());
        assert(pb == body + rest_bytes);
        lemma_subrange_index(s, pos, pb);
        P::lemma_shape(p0);
        assert(s.subrange(pos, pos + body.len() as int) =~= body);
        lemma_read_point_raw_of_written(
            s,
            pos,
            p0.spec_x(),
            p0.spec_y(),
            p0.spec_opt_z(),
            p0.spec_opt_m(),
            type_id,
        );
        let pos1 = pos + body.len() as int;
        assert(s.subrange(pos1, pos1 + rest_bytes.len() as int) =~= rest_bytes);
        lemma_read_points_of_written::<P>(s, pos1, points.drop_first(), type_id, srid);
        assert(spec_read_points::<P>(s, pos, false, type_id, srid, points.len() as int) == Ok::<
            (Seq<P>, int),
            Error,
        >((spec_set_srids::<P>(points, srid), pos + pb.len())));
    }
}

/// Round trip of a LineString through its encoding: the container keeps its
/// own SRID and every point comes back carrying it, whatever SRIDs the
/// in-memory points held: inline containers inherit the SRID downward.
#[verifier::rlimit(100)]
#[verifier::spinoff_prover]
pub proof fn lemma_line_roundtrip<P: types::Point + EwkbRead>(
    points: Seq<P>,
    srid: Option<i32>,
    rest: Seq<u8>,
)
    requires
        points.len() <= 0xFFFF_FFFF,
    ensures
        ({
            let t = P::spec_point_type();
            let tid = 0x02u32 | spec_wkb_type_id(t, srid is Some);
            let bytes = spec_header_bytes(tid, srid) + spec_line_body_bytes::<P>(points);
            LineStringT::<P>::spec_read(bytes + rest, 0) == Ok::<
                (LineStringModel<P>, int),
                Error,
            >((LineStringModel { points: spec_set_srids::<P>(points, srid), srid },
            bytes.len() as int))
        }),
{
    let t = P::spec_point_type();
    let tid = 0x02u32 | spec_wkb_type_id(t, srid is Some);
    lemma_type_id_roundtrip(2, t, srid is Some);
    let hdr = spec_header_bytes(tid, srid);
    let cnt = u32_le_bytes(points.len() as u32);
    let pb = spec_points_bytes::<P>(points);
    let s = (hdr + (cnt + pb)) + rest;
    assert(s.subrange(0, hdr.len() as int) =~= hdr);
    lemma_read_header_of_written(s, 0, tid, srid);
    assert(s.subrange(hdr.len() as int, hdr.len() as int + 4) =~= cnt);
    lemma_read_u32_at(s, hdr.len() as int, points.len() as u32);
    assert((points.len() as u32) as int == points.len());
    let pos1 = hdr.len() as int + 4;
    assert(s.subrange(pos1, pos1 + pb.len() as int) =~= pb);
    lemma_read_points_of_written::<P>(s, pos1, points, tid, srid);
}

/// Each ring of a polygon, rebuilt as it decodes: the polygon's SRID on the
/// ring and on each of its points.
pub open spec fn spec_set_line_srids<P: types::Point>(
    rings: Seq<LineStringModel<P>>,
    srid: Option<i32>,
) -> Seq<LineStringModel<P>>
    decreases rings.len(),
{
    if rings.len() == 0 {
        Seq::<LineStringModel<P>>::empty()
    } else {
        seq![
            LineStringModel { points: spec_set_srids::<P>(rings[0].points, srid), srid },
        ] + spec_set_line_srids::<P>(rings.drop_first(), srid)
    }
}

/// Reading inline ring bodies where their written bytes stand yields the
/// written rings, every one rebuilt with the SRID the polygon is read
/// under, on the ring and on each of its points.
#[verifier::rlimit(100)]
#[verifier::spinoff_prover]
pub proof fn lemma_read_rings_of_written<P: types::Point>(
    s: Seq<u8>,
    pos: int,
    rings: Seq<LineStringModel<P>>,
    type_id: u32,
    srid: Option<i32>,
)
    requires
        spec_has_z(type_id) == spec_type_has_z(P::spec_point_type()),
        spec_has_m(type_id) == spec_type_has_m(P::spec_point_type()),
        forall|i: int| 0 <= i < rings.len() ==> (#[trigger] rings[i]).points.len() <= 0xFFFF_FFFF,
        0 <= pos,
        pos + spec_rings_bytes::<P>(rings).len() <= s.len(),
        s.subrange(pos, pos + spec_rings_bytes::<P>(rings).len() as int) == spec_rings_bytes::<P>(
            rings,
        ),
    ensures
        spec_read_rings::<P>(s, pos, false, type_id, srid, rings.len() as int) == Ok::<
            (Seq<LineStringModel<P>>, int),
            Error,
        >((spec_set_line_srids::<P>(rings, srid), pos + spec_rings_bytes::<P>(rings).len())),
    decreases rings.len(),
{
    let rb = spec_rings_bytes::<P>(rings);
    if rings.len() == 0 {
    } else {
        let r0 = rings[0];
        let e0 = spec_line_body_bytes::<P>(r0.points);
        let cnt = u32_le_bytes(r0.points.len() as u32);
        let pb = spec_points_bytes::<P>(r0.points);
        let rest_bytes = spec_rings_bytes::<P>(rings.drop_first());
        assert(rb == (cnt + pb) + rest_bytes);
        lemma_subrange_index(s, pos, rb);
        assert(s.subrange(pos, pos + 4) =~= cnt);
        lemma_read_u32_at(s, pos, r0.points.len() as u32);
        assert((r0.points.len() as u32) as int == r0.points.len());
        assert(s.subrange(pos + 4, pos + 4 + pb.len() as int) =~= pb);
        lemma_read_points_of_written::<P>(s, pos + 4, r0.points, type_id, srid);
        let pos1 = pos + e0.len() as int;
        assert(s.subrange(pos1, pos1 + rest_bytes.len() as int) =~= rest_bytes);
        let dropped = rings.drop_first();
        assert forall|i: int|
            0 <= i < dropped.len() implies (#[trigger] dropped[i]).points.len()
            <= 0xFFFF_FFFF by {
            assert(dropped[i] == rings[i + 1]);
        }
        lemma_read_rings_of_written::<P>(s, pos1, rings.drop_first(), type_id, srid);
        assert(spec_read_rings::<P>(s, pos, false, type_id, srid, rings.len() as int) == Ok::<
            (Seq<LineStringModel<P>>, int),
            Error,
        >((spec_set_line_srids::<P>(rings, srid), pos + rb.len())));
    }
}

/// Round trip of a Polygon through its encoding: the polygon keeps its own
/// SRID and every ring and every ring point comes back carrying it: inline
/// containers inherit the SRID downward, recursively.
#[verifier::rlimit(100)]
#[verifier::spinoff_prover]
pub proof fn lemma_polygon_roundtrip<P: types::Point + EwkbRead>(
    rings: Seq<LineStringModel<P>>,
    srid: Option<i32>,
    rest: Seq<u8>,
)
    requires
        rings.len() <= 0xFFFF_FFFF,
        forall|i: int| 0 <= i < rings.len() ==> (#[trigger] rings[i]).points.len() <= 0xFFFF_FFFF,
    ensures
        ({
            let t = P::spec_point_type();
            let tid = 0x03u32 | spec_wkb_type_id(t, srid is Some);
            let bytes = spec_header_bytes(tid, srid) + spec_polygon_body_bytes::<P>(rings);
            PolygonT::<P>::spec_read(bytes + rest, 0) == Ok::<(PolygonModel<P>, int), Error>(
                (PolygonModel { rings: spec_set_line_srids::<P>(rings, srid), srid },
                bytes.len() as int),
            )
        }),
{
    let t = P::spec_point_type();
    let tid = 0x03u32 | spec_wkb_type_id(t, srid is Some);
    lemma_type_id_roundtrip(3, t, srid is Some);
    let hdr = spec_header_bytes(tid, srid);
    let cnt = u32_le_bytes(rings.len() as u32);
    let rb = spec_rings_bytes::<P>(rings);
    let s = (hdr + (cnt + rb)) + rest;
    assert(s.subrange(0, hdr.len() as int) =~= hdr);
    lemma_read_header_of_written(s, 0, tid, srid);
    assert(s.subrange(hdr.len() as int, hdr.len() as int + 4) =~= cnt);
    lemma_read_u32_at(s, hdr.len() as int, rings.len() as u32);
    assert((rings.len() as u32) as int == rings.len());
    let pos1 = hdr.len() as int + 4;
    assert(s.subrange(pos1, pos1 + rb.len() as int) =~= rb);
    lemma_read_rings_of_written::<P>(s, pos1, rings, tid, srid);
}

/// Each Polygon of a sequence, rebuilt as it decodes out of a typed-element
/// container: every SRID in it erased.
pub open spec fn spec_strip_polygons<P: types::Point>(
    polygons: Seq<PolygonModel<P>>,
) -> Seq<PolygonModel<P>>
    decreases polygons.len(),
{
    if polygons.len() == 0 {
        Seq::<PolygonModel<P>>::empty()
    } else {
        seq![
            PolygonModel {
                rings: spec_set_line_srids::<P>(polygons[0].rings, None::<i32>),
                srid: None::<i32>,
            },
        ] + spec_strip_polygons::<P>(polygons.drop_first())
    }
}

/// Reading one self-describing Polygon geometry where its written encoding
/// (with no SRID of its own) stands yields the written Polygon with every
/// SRID erased.
#[verifier::rlimit(100)]
#[verifier::spinoff_prover]
pub proof fn lemma_read_polygon_ewkb_of_written<P: types::Point>(
    s: Seq<u8>,
    pos: int,
    y: PolygonModel<P>,
)
    requires
        y.rings.len() <= 0xFFFF_FFFF,
        forall|i: int| 0 <= i < y.rings.len() ==> (#[trigger] y.rings[i]).points.len()
            <= 0xFFFF_FFFF,
        0 <= pos,
        pos + spec_polygon_ewkb_bytes::<P>(y.rings, P::spec_point_type(), None::<i32>).len()
            <= s.len(),
        s.subrange(
            pos,
            pos + spec_polygon_ewkb_bytes::<P>(y.rings, P::spec_point_type(), None::<i32>).len() as int,
        ) == spec_polygon_ewkb_bytes::<P>(y.rings, P::spec_point_type(), None::<i32>),
    ensures
        spec_read_polygon_ewkb::<P>(s, pos) == Ok::<(PolygonModel<P>, int), Error>(
            (
                PolygonModel {
                    rings: spec_set_line_srids::<P>(y.rings, None::<i32>),
                    srid: None::<i32>,
                },
                pos + spec_polygon_ewkb_bytes::<P>(
                    y.rings,
                    P::spec_point_type(),
                    None::<i32>,
                ).len(),
            ),
        ),
{
    let t = P::spec_point_type();
    let tid = 0x03u32 | spec_wkb_type_id(t, false);
    lemma_type_id_roundtrip(3, t, false);
    let hdr = spec_header_bytes(tid, None);
    let cnt = u32_le_bytes(y.rings.len() as u32);
    let rb = spec_rings_bytes::<P>(y.rings);
    let e = spec_polygon_ewkb_bytes::<P>(y.rings, t, None::<i32>);
    assert(e == hdr + (cnt + rb));
    lemma_subrange_index(s, pos, e);
    assert(s.subrange(pos, pos + hdr.len() as int) =~= hdr);
    lemma_read_header_of_written(s, pos, tid, None);
    assert(s.subrange(pos + hdr.len() as int, pos + hdr.len() as int + 4) =~= cnt);
    lemma_read_u32_at(s, pos + hdr.len() as int, y.rings.len() as u32);
    assert((y.rings.len() as u32) as int == y.rings.len());
    let pos_rings = pos + hdr.len() as int + 4;
    assert(s.subrange(pos_rings, pos_rings + rb.len() as int) =~= rb);
    lemma_read_rings_of_written::<P>(s, pos_rings, y.rings, tid, None);
}

/// Reading self-describing Polygon elements where their written encodings
/// stand yields the written Polygons with every SRID erased.
#[verifier::rlimit(100)]
#[verifier::spinoff_prover]
pub proof fn lemma_read_polygon_elems_of_written<P: types::Point>(
    s: Seq<u8>,
    pos: int,
    polygons: Seq<PolygonModel<P>>,
)
    requires
        forall|i: int| 0 <= i < polygons.len() ==> (#[trigger] polygons[i]).rings.len()
            <= 0xFFFF_FFFF,
        forall|i: int, j: int|
            0 <= i < polygons.len() && 0 <= j < polygons[i].rings.len()
                ==> (#[trigger] polygons[i].rings[j]).points.len() <= 0xFFFF_FFFF,
        0 <= pos,
        pos + spec_polygon_elems_bytes::<P>(polygons, P::spec_point_type()).len() <= s.len(),
        s.subrange(
            pos,
            pos + spec_polygon_elems_bytes::<P>(polygons, P::spec_point_type()).len() as int,
        ) == spec_polygon_elems_bytes::<P>(polygons, P::spec_point_type()),
    ensures
        spec_read_polygon_elems::<P>(s, pos, polygons.len() as int) == Ok::<
            (Seq<PolygonModel<P>>, int),
            Error,
        >((spec_strip_polygons::<P>(polygons), pos + spec_polygon_elems_bytes::<P>(
            polygons,
            P::spec_point_type(),
        ).len())),
    decreases polygons.len(),
{
    let t = P::spec_point_type();
    let eb = spec_polygon_elems_bytes::<P>(polygons, t);
    if polygons.len() == 0 {
    } else {
        let y0 = polygons[0];
        let e0 = spec_polygon_ewkb_bytes::<P>(y0.rings, t, None::<i32>);
        let rest_bytes = spec_polygon_elems_bytes::<P>(polygons.drop_first(), t);
        assert(eb == e0 + rest_bytes);
        lemma_subrange_index(s, pos, eb);
        assert(s.subrange(pos, pos + e0.len() as int) =~= e0);
        assert forall|j: int| 0 <= j < y0.rings.len() implies (#[trigger] y0.rings[j]).points.len()
            <= 0xFFFF_FFFF by {
            assert(polygons[0].rings[j] == y0.rings[j]);
        }
        lemma_read_polygon_ewkb_of_written::<P>(s, pos, y0);
        let pos1 = pos + e0.len() as int;
        assert(s.subrange(pos1, pos1 + rest_bytes.len() as int) =~= rest_bytes);
        let dropped = polygons.drop_first();
        assert forall|i: int|
            0 <= i < dropped.len() implies (#[trigger] dropped[i]).rings.len() <= 0xFFFF_FFFF by {
            assert(dropped[i] == polygons[i + 1]);
        }
        assert forall|i: int, j: int|
            0 <= i < dropped.len() && 0 <= j < dropped[i].rings.len()
                implies (#[trigger] dropped[i].rings[j]).points.len() <= 0xFFFF_FFFF by {
            assert(dropped[i] == polygons[i + 1]);
            assert(polygons[i + 1].rings[j] == dropped[i].rings[j]);
        }
        lemma_read_polygon_elems_of_written::<P>(s, pos1, polygons.drop_first());
        assert(spec_read_polygon_elems::<P>(s, pos, polygons.len() as int) == Ok::<
            (Seq<PolygonModel<P>>, int),
            Error,
        >((spec_strip_polygons::<P>(polygons), pos + eb.len())));
    }
}

/// Round trip of a MultiPolygon through its encoding: the container keeps
/// its own SRID, and every component Polygon comes back with every SRID in
/// it erased, whatever the in-memory components carried. This is the SRID
/// asymmetry of typed-element containers.
#[verifier::rlimit(100)]
#[verifier::spinoff_prover]
pub proof fn lemma_multipoly_roundtrip<P: types::Point + EwkbRead>(
    polygons: Seq<PolygonModel<P>>,
    srid: Option<i32>,
    rest: Seq<u8>,
)
    requires
        polygons.len() <= 0xFFFF_FFFF,
        forall|i: int| 0 <= i < polygons.len() ==> (#[trigger] polygons[i]).rings.len()
            <= 0xFFFF_FFFF,
        forall|i: int, j: int|
            0 <= i < polygons.len() && 0 <= j < polygons[i].rings.len()
                ==> (#[trigger] polygons[i].rings[j]).points.len() <= 0xFFFF_FFFF,
    ensures
        ({
            let t = P::spec_point_type();
            let tid = 0x06u32 | spec_wkb_type_id(t, srid is Some);
            let bytes = spec_header_bytes(tid, srid) + spec_multipoly_body_bytes::<P>(polygons, t);
            MultiPolygonT::<P>::spec_read(bytes + rest, 0) == Ok::<
                (MultiPolygonModel<P>, int),
                Error,
            >((MultiPolygonModel { polygons: spec_strip_polygons::<P>(polygons), srid },
            bytes.len() as int))
        }),
{
    let t = P::spec_point_type();
    let tid = 0x06u32 | spec_wkb_type_id(t, srid is Some);
    lemma_type_id_roundtrip(6, t, srid is Some);
    let hdr = spec_header_bytes(tid, srid);
    let cnt = u32_le_bytes(polygons.len() as u32);
    let eb = spec_polygon_elems_bytes::<P>(polygons, t);
    let s = (hdr + (cnt + eb)) + rest;
    assert(s.subrange(0, hdr.len() as int) =~= hdr);
    lemma_read_header_of_written(s, 0, tid, srid);
    assert(s.subrange(hdr.len() as int, hdr.len() as int + 4) =~= cnt);
    lemma_read_u32_at(s, hdr.len() as int, polygons.len() as u32);
    assert((polygons.len() as u32) as int == polygons.len());
    let pos1 = hdr.len() as int + 4;
    assert(s.subrange(pos1, pos1 + eb.len() as int) =~= eb);
    lemma_read_polygon_elems_of_written::<P>(s, pos1, polygons);
}


// --- Writers never give elements an SRID ---

/// The encodings of two MultiLineString element sequences agree whenever
/// the elements' points agree, whatever SRIDs the elements carry.
pub proof fn lemma_line_elems_bytes_pointwise<P: types::Point>(
    lines1: Seq<LineStringModel<P>>,
    lines2: Seq<LineStringModel<P>>,
    t: PointType,
)
    requires
        lines1.len() == lines2.len(),
        forall|i: int| 0 <= i < lines1.len() ==> (#[trigger] lines1[i]).points == lines2[i].points,
    ensures
        spec_line_elems_bytes::<P>(lines1, t) == spec_line_elems_bytes::<P>(lines2, t),
    decreases lines1.len(),
{
    if lines1.len() > 0 {
        assert(lines1[0].points == lines2[0].points);
        assert forall|i: int| 0 <= i < lines1.drop_first().len() implies (#[trigger] lines1
            .drop_first()[i]).points == lines2.drop_first()[i].points by {
            assert(lines1.drop_first()[i] == lines1[i + 1]);
            assert(lines2.drop_first()[i] == lines2[i + 1]);
        }
        lemma_line_elems_bytes_pointwise::<P>(lines1.drop_first(), lines2.drop_first(), t);
    }
}

/// Encoding a MultiLineString ignores the SRIDs its component LineStrings
/// carry: the body bytes depend only on their points, and each component is
/// written with the SRID bit of its type-id word unset.
pub proof fn lemma_container_write_forces_element_srid_none<P: types::Point>(
    lines1: Seq<LineStringModel<P>>,
    lines2: Seq<LineStringModel<P>>,
    t: PointType,
)
    requires
        lines1.len() == lines2.len(),
        forall|i: int| 0 <= i < lines1.len() ==> (#[trigger] lines1[i]).points == lines2[i].points,
    ensures
        spec_multiline_body_bytes::<P>(lines1, t) == spec_multiline_body_bytes::<P>(lines2, t),
        !spec_has_srid(0x02u32 | spec_wkb_type_id(t, false)),
{
    lemma_line_elems_bytes_pointwise::<P>(lines1, lines2, t);
    lemma_type_id_roundtrip(2, t, false);
}


/// Each LineString of a sequence, rebuilt as it decodes out of a
/// typed-element container: its own SRID erased, and its points rebuilt
/// with no SRID either.
pub open spec fn spec_strip_lines<P: types::Point>(
    lines: Seq<LineStringModel<P>>,
) -> Seq<LineStringModel<P>>
    decreases lines.len(),
{
    if lines.len() == 0 {
        Seq::<LineStringModel<P>>::empty()
    } else {
        seq![
            LineStringModel {
                points: spec_set_srids::<P>(lines[0].points, None::<i32>),
                srid: None::<i32>,
            },
        ] + spec_strip_lines::<P>(lines.drop_first())
    }
}

/// Reading one self-describing LineString geometry where its written
/// encoding (with no SRID of its own) stands yields the written LineString
/// with every SRID erased.
#[verifier::rlimit(100)]
#[verifier::spinoff_prover]
pub proof fn lemma_read_line_ewkb_of_written<P: types::Point>(
    s: Seq<u8>,
    pos: int,
    l: LineStringModel<P>,
)
    requires
        l.points.len() <= 0xFFFF_FFFF,
        0 <= pos,
        pos + spec_line_ewkb_bytes::<P>(l.points, P::spec_point_type(), None::<i32>).len()
            <= s.len(),
        s.subrange(
            pos,
            pos + spec_line_ewkb_bytes::<P>(l.points, P::spec_point_type(), None::<i32>).len() as int,
        ) == spec_line_ewkb_bytes::<P>(l.points, P::spec_point_type(), None::<i32>),
    ensures
        spec_read_line_ewkb::<P>(s, pos) == Ok::<(LineStringModel<P>, int), Error>(
            (
                LineStringModel {
                    points: spec_set_srids::<P>(l.points, None::<i32>),
                    srid: None::<i32>,
                },
                pos + spec_line_ewkb_bytes::<P>(l.points, P::spec_point_type(), None::<i32>).len(),
            ),
        ),
{
    let t = P::spec_point_type();
    let tid = 0x02u32 | spec_wkb_type_id(t, false);
    lemma_type_id_roundtrip(2, t, false);
    let hdr = spec_header_bytes(tid, None);
    let cnt = u32_le_bytes(l.points.len() as u32);
    let pb = spec_points_bytes::<P>(l.points);
    let e = spec_line_ewkb_bytes::<P>(l.points, t, None::<i32>);
    assert(e == hdr + (cnt + pb));
    lemma_subrange_index(s, pos, e);
    assert(s.subrange(pos, pos + hdr.len() as int) =~= hdr);
    lemma_read_header_of_written(s, pos, tid, None);
    assert(s.subrange(pos + hdr.len() as int, pos + hdr.len() as int + 4) =~= cnt);
    lemma_read_u32_at(s, pos + hdr.len() as int, l.points.len() as u32);
    assert((l.points.len() as u32) as int == l.points.len());
    let pos_pts = pos + hdr.len() as int + 4;
    assert(s.subrange(pos_pts, pos_pts + pb.len() as int) =~= pb);
    lemma_read_points_of_written::<P>(s, pos_pts, l.points, tid, None);
}

/// Reading self-describing LineString elements where their written
/// encodings stand yields the written LineStrings with every SRID erased,
/// since a writer leaves each element's SRID field empty and the element's
/// points inherit that absence.
#[verifier::rlimit(100)]
#[verifier::spinoff_prover]
pub proof fn lemma_read_line_elems_of_written<P: types::Point>(
    s: Seq<u8>,
    pos: int,
    lines: Seq<LineStringModel<P>>,
)
    requires
        forall|i: int| 0 <= i < lines.len() ==> (#[trigger] lines[i]).points.len() <= 0xFFFF_FFFF,
        0 <= pos,
        pos + spec_line_elems_bytes::<P>(lines, P::spec_point_type()).len() <= s.len(),
        s.subrange(
            pos,
            pos + spec_line_elems_bytes::<P>(lines, P::spec_point_type()).len() as int,
        ) == spec_line_elems_bytes::<P>(lines, P::spec_point_type()),
    ensures
        spec_read_line_elems::<P>(s, pos, lines.len() as int) == Ok::<
            (Seq<LineStringModel<P>>, int),
            Error,
        >((spec_strip_lines::<P>(lines), pos + spec_line_elems_bytes::<P>(
            lines,
            P::spec_point_type(),
        ).len())),
    decreases lines.len(),
{
    let t = P::spec_point_type();
    let eb = spec_line_elems_bytes::<P>(lines, t);
    if lines.len() == 0 {
    } else {
        let l0 = lines[0];
        let e0 = spec_line_ewkb_bytes::<P>(l0.points, t, None::<i32>);
        let rest_bytes = spec_line_elems_bytes::<P>(lines.drop_first(), t);
        assert(eb == e0 + rest_bytes);
        lemma_subrange_index(s, pos, eb);
        assert(s.subrange(pos, pos + e0.len() as int) =~= e0);
        lemma_read_line_ewkb_of_written::<P>(s, pos, l0);
        let pos1 = pos + e0.len() as int;
        assert(s.subrange(pos1, pos1 + rest_bytes.len() as int) =~= rest_bytes);
        let dropped = lines.drop_first();
        assert forall|i: int|
            0 <= i < dropped.len() implies (#[trigger] dropped[i]).points.len()
            <= 0xFFFF_FFFF by {
            assert(dropped[i] == lines[i + 1]);
        }
        lemma_read_line_elems_of_written::<P>(s, pos1, lines.drop_first());
        assert(spec_read_line_elems::<P>(s, pos, lines.len() as int) == Ok::<
            (Seq<LineStringModel<P>>, int),
            Error,
        >((spec_strip_lines::<P>(lines), pos + eb.len())));
    }
}

/// Round trip of a MultiLineString through its encoding: the container
/// keeps its own SRID, and every component LineString comes back with SRID
/// `None` on itself and on each of its points, whatever SRIDs the in-memory
/// components carried. This is the SRID asymmetry of typed-element
/// containers.
#[verifier::rlimit(100)]
#[verifier::spinoff_prover]
pub proof fn lemma_multiline_roundtrip<P: types::Point + EwkbRead>(
    lines: Seq<LineStringModel<P>>,
    srid: Option<i32>,
    rest: Seq<u8>,
)
    requires
        lines.len() <= 0xFFFF_FFFF,
        forall|i: int| 0 <= i < lines.len() ==> (#[trigger] lines[i]).points.len() <= 0xFFFF_FFFF,
    ensures
        ({
            let t = P::spec_point_type();
            let tid = 0x05u32 | spec_wkb_type_id(t, srid is Some);
            let bytes = spec_header_bytes(tid, srid) + spec_multiline_body_bytes::<P>(lines, t);
            MultiLineStringT::<P>::spec_read(bytes + rest, 0) == Ok::<
                (MultiLineStringModel<P>, int),
                Error,
            >((MultiLineStringModel { lines: spec_strip_lines::<P>(lines), srid },
            bytes.len() as int))
        }),
{
    let t = P::spec_point_type();
    let tid = 0x05u32 | spec_wkb_type_id(t, srid is Some);
    lemma_type_id_roundtrip(5, t, srid is Some);
    let hdr = spec_header_bytes(tid, srid);
    let cnt = u32_le_bytes(lines.len() as u32);
    let eb = spec_line_elems_bytes::<P>(lines, t);
    let s = (hdr + (cnt + eb)) + rest;
    assert(s.subrange(0, hdr.len() as int) =~= hdr);
    lemma_read_header_of_written(s, 0, tid, srid);
    assert(s.subrange(hdr.len() as int, hdr.len() as int + 4) =~= cnt);
    lemma_read_u32_at(s, hdr.len() as int, lines.len() as u32);
    assert((lines.len() as u32) as int == lines.len());
    let pos1 = hdr.len() as int + 4;
    assert(s.subrange(pos1, pos1 + eb.len() as int) =~= eb);
    lemma_read_line_elems_of_written::<P>(s, pos1, lines);
}


} // verus!
