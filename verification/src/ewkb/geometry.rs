//! Polygons, the Multi* containers, the generic geometry, and the geometry
//! collection.
//!
//! A Polygon is an *inline* container of rings: its body is a ring count
//! followed by raw LineString bodies (no per-ring header), every ring
//! inheriting the polygon's type-id word and SRID. MultiLineString,
//! MultiPolygon and GeometryCollection are *typed-element* containers: each
//! element is a fully self-describing geometry, and a writer always leaves
//! the elements' SRID field empty.

use crate::error::Error;
use crate::ewkb::container::{
    read_line_body, read_multipoint_body, spec_line_body_bytes, spec_line_ewkb_bytes,
    spec_multipoint_body_bytes, spec_read_line_body, spec_read_multipoint_body, EwkbLineString,
    EwkbMultiPoint, LineStringModel, LineStringT, MultiPointModel, MultiPointT,
};
use crate::ewkb::encoding::{read_u32, spec_read_u32, u32_le_bytes, write_i32_le, write_u32_le};
use crate::ewkb::point::{
    read_point_body, spec_point_ewkb_bytes, spec_read_point_body, AsEwkbPoint, EwkbPoint,
    PointType,
};
use crate::ewkb::{
    read_header, spec_header_bytes, spec_read_header, spec_wkb_type_id, wkb_flags, EwkbRead,
    EwkbWrite,
};
use crate::types;
use vstd::prelude::*;

verus! {

// --- The Polygon ---

/// The mathematical view of a Polygon: its rings and SRID.
pub struct PolygonModel<P> {
    pub rings: Seq<LineStringModel<P>>,
    pub srid: Option<i32>,
}

/// An ordered sequence of rings (ring 0 is the exterior by convention, not
/// enforced here) with its own optional SRID.
#[derive(PartialEq, Clone, Debug)]
pub struct PolygonT<P> {
    pub rings: Vec<LineStringT<P>>,
    pub srid: Option<i32>,
}

impl<P> View for PolygonT<P> {
    type V = PolygonModel<P>;

    open spec fn view(&self) -> PolygonModel<P> {
        PolygonModel {
            rings: self.rings@.map_values(|r: LineStringT<P>| r@),
            srid: self.srid,
        }
    }
}

impl<P> PolygonT<P> {
    pub fn new() -> (r: PolygonT<P>)
        ensures
            r@.rings == Seq::<LineStringModel<P>>::empty(),
            r@.srid is None,
    {
        let r = PolygonT { rings: Vec::new(), srid: None };
        proof {
            assert(r@.rings =~= Seq::<LineStringModel<P>>::empty());
        }
        r
    }

    /// The rings, borrowed in order.
    pub fn rings(&self) -> (r: &Vec<LineStringT<P>>)
        ensures
            r@.map_values(|x: LineStringT<P>| x@) == self@.rings,
    {
        &self.rings
    }
}

/// Parses `n` inline ring bodies, every one under the polygon's type-id
/// word and SRID.
pub open spec fn spec_read_rings<P: types::Point>(
    bytes: Seq<u8>,
    pos: int,
    is_be: bool,
    type_id: u32,
    srid: Option<i32>,
    n: int,
) -> Result<(Seq<LineStringModel<P>>, int), Error>
    decreases n,
{
    if n <= 0 {
        Ok((Seq::<LineStringModel<P>>::empty(), pos))
    } else {
        match spec_read_line_body::<P>(bytes, pos, is_be, type_id, srid) {
            Ok((v, p1)) => match spec_read_rings::<P>(bytes, p1, is_be, type_id, srid, n - 1) {
                Ok((rest, p2)) => Ok((seq![v] + rest, p2)),
                Err(e) => Err(e),
            },
            Err(e) => Err(e),
        }
    }
}

/// Parses a Polygon body: a ring count, then that many inline ring bodies.
pub open spec fn spec_read_polygon_body<P: types::Point>(
    bytes: Seq<u8>,
    pos: int,
    is_be: bool,
    type_id: u32,
    srid: Option<i32>,
) -> Result<(PolygonModel<P>, int), Error> {
    match spec_read_u32(bytes, pos, is_be) {
        Ok((n, p1)) => match spec_read_rings::<P>(bytes, p1, is_be, type_id, srid, n as int) {
            Ok((rings, p2)) => Ok((PolygonModel { rings, srid }, p2)),
            Err(e) => Err(e),
        },
        Err(e) => Err(e),
    }
}

/// Reads a Polygon body.
#[verifier::rlimit(50)]
pub(crate) fn read_polygon_body<P: types::Point>(
    raw: &Vec<u8>,
    pos: &mut usize,
    is_be: bool,
    type_id: u32,
    srid: Option<i32>,
) -> (r: Result<PolygonT<P>, Error>)
    requires
        *old(pos) <= raw@.len(),
    ensures
        match spec_read_polygon_body::<P>(raw@, *old(pos) as int, is_be, type_id, srid) {
            Ok(vp) => r is Ok && r->Ok_0@ == vp.0 && *final(pos) as int == vp.1,
            Err(e) => r is Err && r->Err_0 == e,
        },
        *old(pos) <= *final(pos) <= raw@.len(),
{
    let n = match read_u32(raw, pos, is_be) {
        Ok(v) => v,
        Err(e) => {
            return Err(e);
        },
    };
    let mut rings: Vec<LineStringT<P>> = Vec::new();
    let mut i: u32 = 0;
    while i < n
        invariant
            i <= n,
            *old(pos) <= *pos <= raw@.len(),
            rings@.len() == i as int,
            spec_read_u32(raw@, *old(pos) as int, is_be) matches Ok(np) && np.0 == n,
            ({
                let whole = spec_read_rings::<P>(
                    raw@,
                    spec_read_u32(raw@, *old(pos) as int, is_be)->Ok_0.1,
                    is_be,
                    type_id,
                    srid,
                    n as int,
                );
                match spec_read_rings::<P>(raw@, *pos as int, is_be, type_id, srid, (n - i) as int) {
                    Ok(vp) => whole == Ok::<(Seq<LineStringModel<P>>, int), Error>(
                        (rings@.map_values(|x: LineStringT<P>| x@) + vp.0, vp.1),
                    ),
                    Err(e) => whole == Err::<(Seq<LineStringModel<P>>, int), Error>(e),
                }
            }),
        decreases n - i,
    {
        let ghost rings_prev = rings@.map_values(|x: LineStringT<P>| x@);
        match read_line_body::<P>(raw, pos, is_be, type_id, srid) {
            Ok(ring) => {
                let ghost ring_model = ring@;
                rings.push(ring);
                proof {
                    assert(rings@.map_values(|x: LineStringT<P>| x@) =~= rings_prev.push(
                        ring_model,
                    ));
                    match spec_read_rings::<P>(
                        raw@,
                        *pos as int,
                        is_be,
                        type_id,
                        srid,
                        n - i - 1,
                    ) {
                        Ok(vp) => {
                            assert(rings_prev + (seq![ring_model] + vp.0) =~= rings_prev.push(
                                ring_model,
                            ) + vp.0);
                        },
                        Err(e) => {},
                    }
                }
            },
            Err(e) => {
                return Err(e);
            },
        }
        i = i + 1;
    }
    proof {
        assert(rings@.map_values(|x: LineStringT<P>| x@) + Seq::<LineStringModel<P>>::empty()
            =~= rings@.map_values(|x: LineStringT<P>| x@));
    }
    Ok(PolygonT { rings, srid })
}

impl<P: types::Point + EwkbRead> EwkbRead for PolygonT<P> {
    open spec fn spec_point_type() -> PointType {
        P::spec_point_type()
    }

    open spec fn spec_read(bytes: Seq<u8>, pos: int) -> Result<(PolygonModel<P>, int), Error> {
        match spec_read_header(bytes, pos) {
            Ok((h, p)) => Self::spec_read_body(bytes, p, h.0, h.1, h.2),
            Err(e) => Err(e),
        }
    }

    open spec fn spec_read_body(bytes: Seq<u8>, pos: int, is_be: bool, type_id: u32, srid: Option<
        i32,
    >) -> Result<(PolygonModel<P>, int), Error> {
        spec_read_polygon_body::<P>(bytes, pos, is_be, type_id, srid)
    }

    fn point_type() -> (t: PointType) {
        P::point_type()
    }

    fn read_ewkb(raw: &Vec<u8>, pos: &mut usize) -> (r: Result<Self, Error>) {
        let (is_be, type_id, srid) = match read_header(raw, pos) {
            Ok(h) => h,
            Err(e) => {
                return Err(e);
            },
        };
        Self::read_ewkb_body(raw, pos, is_be, type_id, srid)
    }

    fn read_ewkb_body(raw: &Vec<u8>, pos: &mut usize, is_be: bool, type_id: u32, srid: Option<
        i32,
    >) -> (r: Result<Self, Error>) {
        read_polygon_body::<P>(raw, pos, is_be, type_id, srid)
    }
}

// --- Writing a Polygon ---

/// The concatenated inline LineString bodies of a ring sequence.
pub open spec fn spec_rings_bytes<P: types::Point>(rings: Seq<LineStringModel<P>>) -> Seq<u8>
    decreases rings.len(),
{
    if rings.len() == 0 {
        Seq::<u8>::empty()
    } else {
        spec_line_body_bytes::<P>(rings[0].points) + spec_rings_bytes::<P>(rings.drop_first())
    }
}

/// Appending one ring appends its body.
pub proof fn lemma_rings_bytes_push<P: types::Point>(
    rings: Seq<LineStringModel<P>>,
    x: LineStringModel<P>,
)
    ensures
        spec_rings_bytes::<P>(rings.push(x)) == spec_rings_bytes::<P>(rings)
            + spec_line_body_bytes::<P>(x.points),
    decreases rings.len(),
{
    let s = rings.push(x);
    if rings.len() == 0 {
        assert(s[0] == x);
        assert(s.drop_first() =~= Seq::<LineStringModel<P>>::empty());
        assert(spec_rings_bytes::<P>(s) == spec_line_body_bytes::<P>(x.points)
            + spec_rings_bytes::<P>(Seq::<LineStringModel<P>>::empty()));
        assert(spec_line_body_bytes::<P>(x.points) + Seq::<u8>::empty() =~= Seq::<u8>::empty()
            + spec_line_body_bytes::<P>(x.points));
    } else {
        assert(s[0] == rings[0]);
        assert(s.drop_first() =~= rings.drop_first().push(x));
        lemma_rings_bytes_push::<P>(rings.drop_first(), x);
        assert(spec_rings_bytes::<P>(s) == spec_line_body_bytes::<P>(rings[0].points) + (
        spec_rings_bytes::<P>(rings.drop_first()) + spec_line_body_bytes::<P>(x.points)));
        assert(spec_line_body_bytes::<P>(rings[0].points) + (spec_rings_bytes::<P>(
            rings.drop_first(),
        ) + spec_line_body_bytes::<P>(x.points)) =~= (spec_line_body_bytes::<P>(rings[0].points)
            + spec_rings_bytes::<P>(rings.drop_first())) + spec_line_body_bytes::<P>(x.points));
    }
}

/// The body bytes of a Polygon: the ring count, then each ring's inline
/// LineString body.
pub open spec fn spec_polygon_body_bytes<P: types::Point>(
    rings: Seq<LineStringModel<P>>,
) -> Seq<u8> {
    u32_le_bytes(rings.len() as u32) + spec_rings_bytes::<P>(rings)
}

/// The full encoding of a Polygon written under the given shape and SRID.
pub open spec fn spec_polygon_ewkb_bytes<P: types::Point>(
    rings: Seq<LineStringModel<P>>,
    point_type: PointType,
    srid: Option<i32>,
) -> Seq<u8> {
    spec_header_bytes(0x03u32 | spec_wkb_type_id(point_type, srid is Some), srid)
        + spec_polygon_body_bytes::<P>(rings)
}

/// Borrowing write adapter for a Polygon.
pub struct EwkbPolygon<'a, P: types::Point> {
    pub geom: &'a PolygonT<P>,
    pub srid: Option<i32>,
    pub point_type: PointType,
}

impl<'a, P: types::Point> EwkbWrite for EwkbPolygon<'a, P> {
    open spec fn spec_type_id(&self) -> u32 {
        0x03u32 | spec_wkb_type_id(self.point_type, self.srid is Some)
    }

    open spec fn spec_opt_srid(&self) -> Option<i32> {
        self.srid
    }

    open spec fn spec_body_bytes(&self) -> Seq<u8> {
        spec_polygon_body_bytes::<P>(self.geom@.rings)
    }

    fn opt_srid(&self) -> (r: Option<i32>) {
        self.srid
    }

    fn type_id(&self) -> (r: u32) {
        0x03 | Self::wkb_type_id(&self.point_type, self.srid)
    }

    fn write_ewkb_body(&self, w: &mut Vec<u8>) {
        let ghost model_rings = self.geom@.rings;
        write_u32_le(w, #[verifier::truncate] (self.geom.rings.len() as u32));
        let rings = &self.geom.rings;
        let mut i: usize = 0;
        while i < rings.len()
            invariant
                i <= rings@.len(),
                model_rings == rings@.map_values(|x: LineStringT<P>| x@),
                w@ == old(w)@ + u32_le_bytes(model_rings.len() as u32) + spec_rings_bytes::<P>(
                    model_rings.take(i as int),
                ),
            decreases rings@.len() - i,
        {
            let wkb = EwkbLineString {
                geom: &rings[i],
                srid: None,
                point_type: self.point_type,
            };
            wkb.write_ewkb_body(w);
            proof {
                lemma_rings_bytes_push::<P>(model_rings.take(i as int), model_rings[i as int]);
                assert(model_rings.take(i as int).push(model_rings[i as int]) =~= model_rings.take(
                    i as int + 1,
                ));
            }
            i = i + 1;
        }
        proof {
            assert(model_rings.take(model_rings.len() as int) =~= model_rings);
            assert(w@ =~= old(w)@ + self.spec_body_bytes());
        }
    }
}

impl<P: types::Point + EwkbRead> PolygonT<P> {
    /// Borrows this Polygon for writing, under its own SRID and `P`'s shape.
    pub fn as_ewkb<'a>(&'a self) -> (r: EwkbPolygon<'a, P>)
        ensures
            r.geom == self,
            r.srid == self@.srid,
            r.point_type == P::spec_point_type(),
    {
        EwkbPolygon { geom: self, srid: self.srid, point_type: P::point_type() }
    }
}

/// OGC Polygon type
pub type Polygon = PolygonT<crate::ewkb::point::Point>;

/// OGC PolygonZ type
pub type PolygonZ = PolygonT<crate::ewkb::point::PointZ>;

/// OGC PolygonM type
pub type PolygonM = PolygonT<crate::ewkb::point::PointM>;

/// OGC PolygonZM type
pub type PolygonZM = PolygonT<crate::ewkb::point::PointZM>;

// --- The MultiLineString ---

/// The mathematical view of a MultiLineString: its lines and SRID.
pub struct MultiLineStringModel<P> {
    pub lines: Seq<LineStringModel<P>>,
    pub srid: Option<i32>,
}

/// An ordered sequence of self-describing LineStrings with its own optional
/// SRID.
#[derive(PartialEq, Clone, Debug)]
pub struct MultiLineStringT<P> {
    pub lines: Vec<LineStringT<P>>,
    pub srid: Option<i32>,
}

impl<P> View for MultiLineStringT<P> {
    type V = MultiLineStringModel<P>;

    open spec fn view(&self) -> MultiLineStringModel<P> {
        MultiLineStringModel {
            lines: self.lines@.map_values(|r: LineStringT<P>| r@),
            srid: self.srid,
        }
    }
}

impl<P> MultiLineStringT<P> {
    pub fn new() -> (r: MultiLineStringT<P>)
        ensures
            r@.lines == Seq::<LineStringModel<P>>::empty(),
            r@.srid is None,
    {
        let r = MultiLineStringT { lines: Vec::new(), srid: None };
        proof {
            assert(r@.lines =~= Seq::<LineStringModel<P>>::empty());
        }
        r
    }

    /// The lines, borrowed in order.
    pub fn lines(&self) -> (r: &Vec<LineStringT<P>>)
        ensures
            r@.map_values(|x: LineStringT<P>| x@) == self@.lines,
    {
        &self.lines
    }
}

/// Parses one fully self-describing LineString geometry: its own header,
/// then its body under its own type-id word and SRID.
pub open spec fn spec_read_line_ewkb<P: types::Point>(bytes: Seq<u8>, pos: int) -> Result<
    (LineStringModel<P>, int),
    Error,
> {
    match spec_read_header(bytes, pos) {
        Ok((h, p)) => spec_read_line_body::<P>(bytes, p, h.0, h.1, h.2),
        Err(e) => Err(e),
    }
}

/// Parses `n` self-describing LineString geometries.
pub open spec fn spec_read_line_elems<P: types::Point>(bytes: Seq<u8>, pos: int, n: int) -> Result<
    (Seq<LineStringModel<P>>, int),
    Error,
>
    decreases n,
{
    if n <= 0 {
        Ok((Seq::<LineStringModel<P>>::empty(), pos))
    } else {
        match spec_read_line_ewkb::<P>(bytes, pos) {
            Ok((v, p1)) => match spec_read_line_elems::<P>(bytes, p1, n - 1) {
                Ok((rest, p2)) => Ok((seq![v] + rest, p2)),
                Err(e) => Err(e),
            },
            Err(e) => Err(e),
        }
    }
}

/// Parses a MultiLineString body: a count, then that many self-describing
/// LineString geometries. The container's SRID stays on the container.
pub open spec fn spec_read_multiline_body<P: types::Point>(
    bytes: Seq<u8>,
    pos: int,
    is_be: bool,
    srid: Option<i32>,
) -> Result<(MultiLineStringModel<P>, int), Error> {
    match spec_read_u32(bytes, pos, is_be) {
        Ok((n, p1)) => match spec_read_line_elems::<P>(bytes, p1, n as int) {
            Ok((lines, p2)) => Ok((MultiLineStringModel { lines, srid }, p2)),
            Err(e) => Err(e),
        },
        Err(e) => Err(e),
    }
}

/// Reads one self-describing LineString geometry.
pub(crate) fn read_line_ewkb<P: types::Point>(raw: &Vec<u8>, pos: &mut usize) -> (r: Result<
    LineStringT<P>,
    Error,
>)
    requires
        *old(pos) <= raw@.len(),
    ensures
        match spec_read_line_ewkb::<P>(raw@, *old(pos) as int) {
            Ok(vp) => r is Ok && r->Ok_0@ == vp.0 && *final(pos) as int == vp.1,
            Err(e) => r is Err && r->Err_0 == e,
        },
        *old(pos) <= *final(pos) <= raw@.len(),
{
    let (is_be, type_id, srid) = match read_header(raw, pos) {
        Ok(h) => h,
        Err(e) => {
            return Err(e);
        },
    };
    read_line_body::<P>(raw, pos, is_be, type_id, srid)
}

/// Reads a MultiLineString body.
pub(crate) fn read_multiline_body<P: types::Point>(
    raw: &Vec<u8>,
    pos: &mut usize,
    is_be: bool,
    srid: Option<i32>,
) -> (r: Result<MultiLineStringT<P>, Error>)
    requires
        *old(pos) <= raw@.len(),
    ensures
        match spec_read_multiline_body::<P>(raw@, *old(pos) as int, is_be, srid) {
            Ok(vp) => r is Ok && r->Ok_0@ == vp.0 && *final(pos) as int == vp.1,
            Err(e) => r is Err && r->Err_0 == e,
        },
        *old(pos) <= *final(pos) <= raw@.len(),
{
    let n = match read_u32(raw, pos, is_be) {
        Ok(v) => v,
        Err(e) => {
            return Err(e);
        },
    };
    let mut lines: Vec<LineStringT<P>> = Vec::new();
    let mut i: u32 = 0;
    while i < n
        invariant
            i <= n,
            *old(pos) <= *pos <= raw@.len(),
            lines@.len() == i as int,
            spec_read_u32(raw@, *old(pos) as int, is_be) matches Ok(np) && np.0 == n,
            ({
                let whole = spec_read_line_elems::<P>(
                    raw@,
                    spec_read_u32(raw@, *old(pos) as int, is_be)->Ok_0.1,
                    n as int,
                );
                match spec_read_line_elems::<P>(raw@, *pos as int, (n - i) as int) {
                    Ok(vp) => whole == Ok::<(Seq<LineStringModel<P>>, int), Error>(
                        (lines@.map_values(|x: LineStringT<P>| x@) + vp.0, vp.1),
                    ),
                    Err(e) => whole == Err::<(Seq<LineStringModel<P>>, int), Error>(e),
                }
            }),
        decreases n - i,
    {
        let ghost lines_prev = lines@.map_values(|x: LineStringT<P>| x@);
        match read_line_ewkb::<P>(raw, pos) {
            Ok(line) => {
                let ghost line_model = line@;
                lines.push(line);
                proof {
                    assert(lines@.map_values(|x: LineStringT<P>| x@) =~= lines_prev.push(
                        line_model,
                    ));
                    match spec_read_line_elems::<P>(raw@, *pos as int, n - i - 1) {
                        Ok(vp) => {
                            assert(lines_prev + (seq![line_model] + vp.0) =~= lines_prev.push(
                                line_model,
                            ) + vp.0);
                        },
                        Err(e) => {},
                    }
                }
            },
            Err(e) => {
                return Err(e);
            },
        }
        i = i + 1;
    }
    proof {
        assert(lines@.map_values(|x: LineStringT<P>| x@) + Seq::<LineStringModel<P>>::empty()
            =~= lines@.map_values(|x: LineStringT<P>| x@));
    }
    Ok(MultiLineStringT { lines, srid })
}

impl<P: types::Point + EwkbRead> EwkbRead for MultiLineStringT<P> {
    open spec fn spec_point_type() -> PointType {
        P::spec_point_type()
    }

    open spec fn spec_read(bytes: Seq<u8>, pos: int) -> Result<
        (MultiLineStringModel<P>, int),
        Error,
    > {
        match spec_read_header(bytes, pos) {
            Ok((h, p)) => Self::spec_read_body(bytes, p, h.0, h.1, h.2),
            Err(e) => Err(e),
        }
    }

    open spec fn spec_read_body(bytes: Seq<u8>, pos: int, is_be: bool, type_id: u32, srid: Option<
        i32,
    >) -> Result<(MultiLineStringModel<P>, int), Error> {
        spec_read_multiline_body::<P>(bytes, pos, is_be, srid)
    }

    fn point_type() -> (t: PointType) {
        P::point_type()
    }

    fn read_ewkb(raw: &Vec<u8>, pos: &mut usize) -> (r: Result<Self, Error>) {
        let (is_be, type_id, srid) = match read_header(raw, pos) {
            Ok(h) => h,
            Err(e) => {
                return Err(e);
            },
        };
        Self::read_ewkb_body(raw, pos, is_be, type_id, srid)
    }

    fn read_ewkb_body(raw: &Vec<u8>, pos: &mut usize, is_be: bool, type_id: u32, srid: Option<
        i32,
    >) -> (r: Result<Self, Error>) {
        read_multiline_body::<P>(raw, pos, is_be, srid)
    }
}

// --- Writing a MultiLineString ---

/// The concatenated encodings of MultiLineString elements: each LineString
/// a full self-describing geometry with no SRID of its own.
pub open spec fn spec_line_elems_bytes<P: types::Point>(
    lines: Seq<LineStringModel<P>>,
    point_type: PointType,
) -> Seq<u8>
    decreases lines.len(),
{
    if lines.len() == 0 {
        Seq::<u8>::empty()
    } else {
        spec_line_ewkb_bytes::<P>(lines[0].points, point_type, None::<i32>)
            + spec_line_elems_bytes::<P>(lines.drop_first(), point_type)
    }
}

/// Appending one LineString appends its self-describing encoding.
pub proof fn lemma_line_elems_bytes_push<P: types::Point>(
    lines: Seq<LineStringModel<P>>,
    point_type: PointType,
    x: LineStringModel<P>,
)
    ensures
        spec_line_elems_bytes::<P>(lines.push(x), point_type) == spec_line_elems_bytes::<P>(
            lines,
            point_type,
        ) + spec_line_ewkb_bytes::<P>(x.points, point_type, None::<i32>),
    decreases lines.len(),
{
    let s = lines.push(x);
    if lines.len() == 0 {
        assert(s[0] == x);
        assert(s.drop_first() =~= Seq::<LineStringModel<P>>::empty());
        assert(spec_line_elems_bytes::<P>(s, point_type) == spec_line_ewkb_bytes::<P>(
            x.points,
            point_type,
            None::<i32>,
        ) + spec_line_elems_bytes::<P>(Seq::<LineStringModel<P>>::empty(), point_type));
        assert(spec_line_ewkb_bytes::<P>(x.points, point_type, None::<i32>) + Seq::<u8>::empty()
            =~= Seq::<u8>::empty() + spec_line_ewkb_bytes::<P>(x.points, point_type, None::<i32>));
    } else {
        assert(s[0] == lines[0]);
        assert(s.drop_first() =~= lines.drop_first().push(x));
        lemma_line_elems_bytes_push::<P>(lines.drop_first(), point_type, x);
        assert(spec_line_elems_bytes::<P>(s, point_type) == spec_line_ewkb_bytes::<P>(
            lines[0].points,
            point_type,
            None::<i32>,
        ) + (spec_line_elems_bytes::<P>(lines.drop_first(), point_type) + spec_line_ewkb_bytes::<
            P,
        >(x.points, point_type, None::<i32>)));
        assert(spec_line_ewkb_bytes::<P>(lines[0].points, point_type, None::<i32>) + (
        spec_line_elems_bytes::<P>(lines.drop_first(), point_type) + spec_line_ewkb_bytes::<P>(
            x.points,
            point_type,
            None::<i32>,
        )) =~= (spec_line_ewkb_bytes::<P>(lines[0].points, point_type, None::<i32>)
            + spec_line_elems_bytes::<P>(lines.drop_first(), point_type)) + spec_line_ewkb_bytes::<
            P,
        >(x.points, point_type, None::<i32>));
    }
}

/// The body bytes of a MultiLineString: the count, then each LineString as
/// a full self-describing geometry with no SRID of its own.
pub open spec fn spec_multiline_body_bytes<P: types::Point>(
    lines: Seq<LineStringModel<P>>,
    point_type: PointType,
) -> Seq<u8> {
    u32_le_bytes(lines.len() as u32) + spec_line_elems_bytes::<P>(lines, point_type)
}

/// Borrowing write adapter for a MultiLineString.
pub struct EwkbMultiLineString<'a, P: types::Point> {
    pub geom: &'a MultiLineStringT<P>,
    pub srid: Option<i32>,
    pub point_type: PointType,
}

impl<'a, P: types::Point> EwkbWrite for EwkbMultiLineString<'a, P> {
    open spec fn spec_type_id(&self) -> u32 {
        0x05u32 | spec_wkb_type_id(self.point_type, self.srid is Some)
    }

    open spec fn spec_opt_srid(&self) -> Option<i32> {
        self.srid
    }

    open spec fn spec_body_bytes(&self) -> Seq<u8> {
        spec_multiline_body_bytes::<P>(self.geom@.lines, self.point_type)
    }

    fn opt_srid(&self) -> (r: Option<i32>) {
        self.srid
    }

    fn type_id(&self) -> (r: u32) {
        0x05 | Self::wkb_type_id(&self.point_type, self.srid)
    }

    fn write_ewkb_body(&self, w: &mut Vec<u8>) {
        let ghost model_lines = self.geom@.lines;
        write_u32_le(w, #[verifier::truncate] (self.geom.lines.len() as u32));
        let lines = &self.geom.lines;
        let mut i: usize = 0;
        while i < lines.len()
            invariant
                i <= lines@.len(),
                model_lines == lines@.map_values(|x: LineStringT<P>| x@),
                w@ == old(w)@ + u32_le_bytes(model_lines.len() as u32) + spec_line_elems_bytes::<
                    P,
                >(model_lines.take(i as int), self.point_type),
            decreases lines@.len() - i,
        {
            let wkb = EwkbLineString {
                geom: &lines[i],
                srid: None,
                point_type: self.point_type,
            };
            wkb.write_ewkb(w);
            proof {
                lemma_line_elems_bytes_push::<P>(
                    model_lines.take(i as int),
                    self.point_type,
                    model_lines[i as int],
                );
                assert(model_lines.take(i as int).push(model_lines[i as int]) =~= model_lines.take(
                    i as int + 1,
                ));
            }
            i = i + 1;
        }
        proof {
            assert(model_lines.take(model_lines.len() as int) =~= model_lines);
            assert(w@ =~= old(w)@ + self.spec_body_bytes());
        }
    }
}

impl<P: types::Point + EwkbRead> MultiLineStringT<P> {
    /// Borrows this MultiLineString for writing, under its own SRID and
    /// `P`'s shape.
    pub fn as_ewkb<'a>(&'a self) -> (r: EwkbMultiLineString<'a, P>)
        ensures
            r.geom == self,
            r.srid == self@.srid,
            r.point_type == P::spec_point_type(),
    {
        EwkbMultiLineString { geom: self, srid: self.srid, point_type: P::point_type() }
    }
}

/// OGC MultiLineString type
pub type MultiLineString = MultiLineStringT<crate::ewkb::point::Point>;

/// OGC MultiLineStringZ type
pub type MultiLineStringZ = MultiLineStringT<crate::ewkb::point::PointZ>;

/// OGC MultiLineStringM type
pub type MultiLineStringM = MultiLineStringT<crate::ewkb::point::PointM>;

/// OGC MultiLineStringZM type
pub type MultiLineStringZM = MultiLineStringT<crate::ewkb::point::PointZM>;

// --- The MultiPolygon ---

/// The mathematical view of a MultiPolygon: its polygons and SRID.
pub struct MultiPolygonModel<P> {
    pub polygons: Seq<PolygonModel<P>>,
    pub srid: Option<i32>,
}

/// An ordered sequence of self-describing Polygons with its own optional
/// SRID.
#[derive(PartialEq, Clone, Debug)]
pub struct MultiPolygonT<P> {
    pub polygons: Vec<PolygonT<P>>,
    pub srid: Option<i32>,
}

impl<P> View for MultiPolygonT<P> {
    type V = MultiPolygonModel<P>;

    open spec fn view(&self) -> MultiPolygonModel<P> {
        MultiPolygonModel {
            polygons: self.polygons@.map_values(|r: PolygonT<P>| r@),
            srid: self.srid,
        }
    }
}

impl<P> MultiPolygonT<P> {
    pub fn new() -> (r: MultiPolygonT<P>)
        ensures
            r@.polygons == Seq::<PolygonModel<P>>::empty(),
            r@.srid is None,
    {
        let r = MultiPolygonT { polygons: Vec::new(), srid: None };
        proof {
            assert(r@.polygons =~= Seq::<PolygonModel<P>>::empty());
        }
        r
    }

    /// The polygons, borrowed in order.
    pub fn polygons(&self) -> (r: &Vec<PolygonT<P>>)
        ensures
            r@.map_values(|x: PolygonT<P>| x@) == self@.polygons,
    {
        &self.polygons
    }
}

/// Parses one fully self-describing Polygon geometry: its own header, then
/// its body under its own type-id word and SRID.
pub open spec fn spec_read_polygon_ewkb<P: types::Point>(bytes: Seq<u8>, pos: int) -> Result<
    (PolygonModel<P>, int),
    Error,
> {
    match spec_read_header(bytes, pos) {
        Ok((h, p)) => spec_read_polygon_body::<P>(bytes, p, h.0, h.1, h.2),
        Err(e) => Err(e),
    }
}

/// Parses `n` self-describing Polygon geometries.
pub open spec fn spec_read_polygon_elems<P: types::Point>(
    bytes: Seq<u8>,
    pos: int,
    n: int,
) -> Result<(Seq<PolygonModel<P>>, int), Error>
    decreases n,
{
    if n <= 0 {
        Ok((Seq::<PolygonModel<P>>::empty(), pos))
    } else {
        match spec_read_polygon_ewkb::<P>(bytes, pos) {
            Ok((v, p1)) => match spec_read_polygon_elems::<P>(bytes, p1, n - 1) {
                Ok((rest, p2)) => Ok((seq![v] + rest, p2)),
                Err(e) => Err(e),
            },
            Err(e) => Err(e),
        }
    }
}

/// Parses a MultiPolygon body: a count, then that many self-describing
/// Polygon geometries. The container's SRID stays on the container.
pub open spec fn spec_read_multipoly_body<P: types::Point>(
    bytes: Seq<u8>,
    pos: int,
    is_be: bool,
    srid: Option<i32>,
) -> Result<(MultiPolygonModel<P>, int), Error> {
    match spec_read_u32(bytes, pos, is_be) {
        Ok((n, p1)) => match spec_read_polygon_elems::<P>(bytes, p1, n as int) {
            Ok((polygons, p2)) => Ok((MultiPolygonModel { polygons, srid }, p2)),
            Err(e) => Err(e),
        },
        Err(e) => Err(e),
    }
}

/// Reads one self-describing Polygon geometry.
pub(crate) fn read_polygon_ewkb<P: types::Point>(raw: &Vec<u8>, pos: &mut usize) -> (r: Result<
    PolygonT<P>,
    Error,
>)
    requires
        *old(pos) <= raw@.len(),
    ensures
        match spec_read_polygon_ewkb::<P>(raw@, *old(pos) as int) {
            Ok(vp) => r is Ok && r->Ok_0@ == vp.0 && *final(pos) as int == vp.1,
            Err(e) => r is Err && r->Err_0 == e,
        },
        *old(pos) <= *final(pos) <= raw@.len(),
{
    let (is_be, type_id, srid) = match read_header(raw, pos) {
        Ok(h) => h,
        Err(e) => {
            return Err(e);
        },
    };
    read_polygon_body::<P>(raw, pos, is_be, type_id, srid)
}

/// Reads a MultiPolygon body.
pub(crate) fn read_multipoly_body<P: types::Point>(
    raw: &Vec<u8>,
    pos: &mut usize,
    is_be: bool,
    srid: Option<i32>,
) -> (r: Result<MultiPolygonT<P>, Error>)
    requires
        *old(pos) <= raw@.len(),
    ensures
        match spec_read_multipoly_body::<P>(raw@, *old(pos) as int, is_be, srid) {
            Ok(vp) => r is Ok && r->Ok_0@ == vp.0 && *final(pos) as int == vp.1,
            Err(e) => r is Err && r->Err_0 == e,
        },
        *old(pos) <= *final(pos) <= raw@.len(),
{
    let n = match read_u32(raw, pos, is_be) {
        Ok(v) => v,
        Err(e) => {
            return Err(e);
        },
    };
    let mut polygons: Vec<PolygonT<P>> = Vec::new();
    let mut i: u32 = 0;
    while i < n
        invariant
            i <= n,
            *old(pos) <= *pos <= raw@.len(),
            polygons@.len() == i as int,
            spec_read_u32(raw@, *old(pos) as int, is_be) matches Ok(np) && np.0 == n,
            ({
                let whole = spec_read_polygon_elems::<P>(
                    raw@,
                    spec_read_u32(raw@, *old(pos) as int, is_be)->Ok_0.1,
                    n as int,
                );
                match spec_read_polygon_elems::<P>(raw@, *pos as int, (n - i) as int) {
                    Ok(vp) => whole == Ok::<(Seq<PolygonModel<P>>, int), Error>(
                        (polygons@.map_values(|x: PolygonT<P>| x@) + vp.0, vp.1),
                    ),
                    Err(e) => whole == Err::<(Seq<PolygonModel<P>>, int), Error>(e),
                }
            }),
        decreases n - i,
    {
        let ghost polys_prev = polygons@.map_values(|x: PolygonT<P>| x@);
        match read_polygon_ewkb::<P>(raw, pos) {
            Ok(poly) => {
                let ghost poly_model = poly@;
                polygons.push(poly);
                proof {
                    assert(polygons@.map_values(|x: PolygonT<P>| x@) =~= polys_prev.push(
                        poly_model,
                    ));
                    match spec_read_polygon_elems::<P>(raw@, *pos as int, n - i - 1) {
                        Ok(vp) => {
                            assert(polys_prev + (seq![poly_model] + vp.0) =~= polys_prev.push(
                                poly_model,
                            ) + vp.0);
                        },
                        Err(e) => {},
                    }
                }
            },
            Err(e) => {
                return Err(e);
            },
        }
        i = i + 1;
    }
    proof {
        assert(polygons@.map_values(|x: PolygonT<P>| x@) + Seq::<PolygonModel<P>>::empty()
            =~= polygons@.map_values(|x: PolygonT<P>| x@));
    }
    Ok(MultiPolygonT { polygons, srid })
}

impl<P: types::Point + EwkbRead> EwkbRead for MultiPolygonT<P> {
    open spec fn spec_point_type() -> PointType {
        P::spec_point_type()
    }

    open spec fn spec_read(bytes: Seq<u8>, pos: int) -> Result<
        (MultiPolygonModel<P>, int),
        Error,
    > {
        match spec_read_header(bytes, pos) {
            Ok((h, p)) => Self::spec_read_body(bytes, p, h.0, h.1, h.2),
            Err(e) => Err(e),
        }
    }

    open spec fn spec_read_body(bytes: Seq<u8>, pos: int, is_be: bool, type_id: u32, srid: Option<
        i32,
    >) -> Result<(MultiPolygonModel<P>, int), Error> {
        spec_read_multipoly_body::<P>(bytes, pos, is_be, srid)
    }

    fn point_type() -> (t: PointType) {
        P::point_type()
    }

    fn read_ewkb(raw: &Vec<u8>, pos: &mut usize) -> (r: Result<Self, Error>) {
        let (is_be, type_id, srid) = match read_header(raw, pos) {
            Ok(h) => h,
            Err(e) => {
                return Err(e);
            },
        };
        Self::read_ewkb_body(raw, pos, is_be, type_id, srid)
    }

    fn read_ewkb_body(raw: &Vec<u8>, pos: &mut usize, is_be: bool, type_id: u32, srid: Option<
        i32,
    >) -> (r: Result<Self, Error>) {
        read_multipoly_body::<P>(raw, pos, is_be, srid)
    }
}

// --- Writing a MultiPolygon ---

/// The concatenated encodings of MultiPolygon elements: each Polygon a full
/// self-describing geometry with no SRID of its own.
pub open spec fn spec_polygon_elems_bytes<P: types::Point>(
    polygons: Seq<PolygonModel<P>>,
    point_type: PointType,
) -> Seq<u8>
    decreases polygons.len(),
{
    if polygons.len() == 0 {
        Seq::<u8>::empty()
    } else {
        spec_polygon_ewkb_bytes::<P>(polygons[0].rings, point_type, None::<i32>)
            + spec_polygon_elems_bytes::<P>(polygons.drop_first(), point_type)
    }
}

/// Appending one Polygon appends its self-describing encoding.
pub proof fn lemma_polygon_elems_bytes_push<P: types::Point>(
    polygons: Seq<PolygonModel<P>>,
    point_type: PointType,
    x: PolygonModel<P>,
)
    ensures
        spec_polygon_elems_bytes::<P>(polygons.push(x), point_type) == spec_polygon_elems_bytes::<
            P,
        >(polygons, point_type) + spec_polygon_ewkb_bytes::<P>(x.rings, point_type, None::<i32>),
    decreases polygons.len(),
{
    let s = polygons.push(x);
    if polygons.len() == 0 {
        assert(s[0] == x);
        assert(s.drop_first() =~= Seq::<PolygonModel<P>>::empty());
        assert(spec_polygon_elems_bytes::<P>(s, point_type) == spec_polygon_ewkb_bytes::<P>(
            x.rings,
            point_type,
            None::<i32>,
        ) + spec_polygon_elems_bytes::<P>(Seq::<PolygonModel<P>>::empty(), point_type));
        assert(spec_polygon_ewkb_bytes::<P>(x.rings, point_type, None::<i32>) + Seq::<u8>::empty()
            =~= Seq::<u8>::empty() + spec_polygon_ewkb_bytes::<P>(
            x.rings,
            point_type,
            None::<i32>,
        ));
    } else {
        assert(s[0] == polygons[0]);
        assert(s.drop_first() =~= polygons.drop_first().push(x));
        lemma_polygon_elems_bytes_push::<P>(polygons.drop_first(), point_type, x);
        assert(spec_polygon_elems_bytes::<P>(s, point_type) == spec_polygon_ewkb_bytes::<P>(
            polygons[0].rings,
            point_type,
            None::<i32>,
        ) + (spec_polygon_elems_bytes::<P>(polygons.drop_first(), point_type)
            + spec_polygon_ewkb_bytes::<P>(x.rings, point_type, None::<i32>)));
        assert(spec_polygon_ewkb_bytes::<P>(polygons[0].rings, point_type, None::<i32>) + (
        spec_polygon_elems_bytes::<P>(polygons.drop_first(), point_type)
            + spec_polygon_ewkb_bytes::<P>(x.rings, point_type, None::<i32>)) =~= (
        spec_polygon_ewkb_bytes::<P>(polygons[0].rings, point_type, None::<i32>)
            + spec_polygon_elems_bytes::<P>(polygons.drop_first(), point_type))
            + spec_polygon_ewkb_bytes::<P>(x.rings, point_type, None::<i32>));
    }
}

/// The body bytes of a MultiPolygon: the count, then each Polygon as a full
/// self-describing geometry with no SRID of its own.
pub open spec fn spec_multipoly_body_bytes<P: types::Point>(
    polygons: Seq<PolygonModel<P>>,
    point_type: PointType,
) -> Seq<u8> {
    u32_le_bytes(polygons.len() as u32) + spec_polygon_elems_bytes::<P>(polygons, point_type)
}

/// Borrowing write adapter for a MultiPolygon.
pub struct EwkbMultiPolygon<'a, P: types::Point> {
    pub geom: &'a MultiPolygonT<P>,
    pub srid: Option<i32>,
    pub point_type: PointType,
}

impl<'a, P: types::Point> EwkbWrite for EwkbMultiPolygon<'a, P> {
    open spec fn spec_type_id(&self) -> u32 {
        0x06u32 | spec_wkb_type_id(self.point_type, self.srid is Some)
    }

    open spec fn spec_opt_srid(&self) -> Option<i32> {
        self.srid
    }

    open spec fn spec_body_bytes(&self) -> Seq<u8> {
        spec_multipoly_body_bytes::<P>(self.geom@.polygons, self.point_type)
    }

    fn opt_srid(&self) -> (r: Option<i32>) {
        self.srid
    }

    fn type_id(&self) -> (r: u32) {
        0x06 | Self::wkb_type_id(&self.point_type, self.srid)
    }

    fn write_ewkb_body(&self, w: &mut Vec<u8>) {
        let ghost model_polys = self.geom@.polygons;
        write_u32_le(w, #[verifier::truncate] (self.geom.polygons.len() as u32));
        let polygons = &self.geom.polygons;
        let mut i: usize = 0;
        while i < polygons.len()
            invariant
                i <= polygons@.len(),
                model_polys == polygons@.map_values(|x: PolygonT<P>| x@),
                w@ == old(w)@ + u32_le_bytes(model_polys.len() as u32)
                    + spec_polygon_elems_bytes::<P>(model_polys.take(i as int), self.point_type),
            decreases polygons@.len() - i,
        {
            let wkb = EwkbPolygon {
                geom: &polygons[i],
                srid: None,
                point_type: self.point_type,
            };
            wkb.write_ewkb(w);
            proof {
                lemma_polygon_elems_bytes_push::<P>(
                    model_polys.take(i as int),
                    self.point_type,
                    model_polys[i as int],
                );
                assert(model_polys.take(i as int).push(model_polys[i as int]) =~= model_polys.take(
                    i as int + 1,
                ));
            }
            i = i + 1;
        }
        proof {
            assert(model_polys.take(model_polys.len() as int) =~= model_polys);
            assert(w@ =~= old(w)@ + self.spec_body_bytes());
        }
    }
}

impl<P: types::Point + EwkbRead> MultiPolygonT<P> {
    /// Borrows this MultiPolygon for writing, under its own SRID and `P`'s
    /// shape.
    pub fn as_ewkb<'a>(&'a self) -> (r: EwkbMultiPolygon<'a, P>)
        ensures
            r.geom == self,
            r.srid == self@.srid,
            r.point_type == P::spec_point_type(),
    {
        EwkbMultiPolygon { geom: self, srid: self.srid, point_type: P::point_type() }
    }
}

/// OGC MultiPolygon type
pub type MultiPolygon = MultiPolygonT<crate::ewkb::point::Point>;

/// OGC MultiPolygonZ type
pub type MultiPolygonZ = MultiPolygonT<crate::ewkb::point::PointZ>;

/// OGC MultiPolygonM type
pub type MultiPolygonM = MultiPolygonT<crate::ewkb::point::PointM>;

/// OGC MultiPolygonZM type
pub type MultiPolygonZM = MultiPolygonT<crate::ewkb::point::PointZM>;

// --- The generic geometry ---

/// The mathematical view of a generic geometry: one of the seven kinds,
/// recursively.
pub enum GeometryModel<P> {
    Point(P),
    LineString(LineStringModel<P>),
    Polygon(PolygonModel<P>),
    MultiPoint(MultiPointModel<P>),
    MultiLineString(MultiLineStringModel<P>),
    MultiPolygon(MultiPolygonModel<P>),
    GeometryCollection(GeometryCollectionModel<P>),
}

/// The mathematical view of a geometry collection: its geometries and SRID.
pub struct GeometryCollectionModel<P> {
    pub geometries: Seq<GeometryModel<P>>,
    pub srid: Option<i32>,
}

/// A tagged union over the seven OGC geometry kinds.
#[derive(Debug)]
pub enum GeometryT<P> {
    Point(P),
    LineString(LineStringT<P>),
    Polygon(PolygonT<P>),
    MultiPoint(MultiPointT<P>),
    MultiLineString(MultiLineStringT<P>),
    MultiPolygon(MultiPolygonT<P>),
    GeometryCollection(GeometryCollectionT<P>),
}

/// An ordered sequence of generic geometries with its own optional SRID.
#[derive(Debug)]
pub struct GeometryCollectionT<P> {
    pub geometries: Vec<GeometryT<P>>,
    pub srid: Option<i32>,
}

/// The view of a generic geometry.
pub open spec fn spec_geom_model<P>(g: GeometryT<P>) -> GeometryModel<P>
    decreases g,
{
    match g {
        GeometryT::Point(p) => GeometryModel::Point(p),
        GeometryT::LineString(l) => GeometryModel::LineString(l@),
        GeometryT::Polygon(y) => GeometryModel::Polygon(y@),
        GeometryT::MultiPoint(m) => GeometryModel::MultiPoint(m@),
        GeometryT::MultiLineString(m) => GeometryModel::MultiLineString(m@),
        GeometryT::MultiPolygon(m) => GeometryModel::MultiPolygon(m@),
        GeometryT::GeometryCollection(c) => GeometryModel::GeometryCollection(
            GeometryCollectionModel { geometries: spec_geoms_model(c.geometries@), srid: c.srid },
        ),
    }
}

/// The views of a sequence of generic geometries, in order.
pub open spec fn spec_geoms_model<P>(gs: Seq<GeometryT<P>>) -> Seq<GeometryModel<P>>
    decreases gs,
{
    if gs.len() == 0 {
        Seq::<GeometryModel<P>>::empty()
    } else {
        seq![spec_geom_model(gs[0])] + spec_geoms_model(gs.drop_first())
    }
}

/// The view of a sequence is the sequence of views.
pub proof fn lemma_geoms_model_props<P>(gs: Seq<GeometryT<P>>)
    ensures
        spec_geoms_model(gs).len() == gs.len(),
        forall|i: int|
            0 <= i < gs.len() ==> spec_geoms_model(gs)[i] == spec_geom_model(#[trigger] gs[i]),
    decreases gs.len(),
{
    if gs.len() > 0 {
        lemma_geoms_model_props(gs.drop_first());
        assert forall|i: int| 0 <= i < gs.len() implies spec_geoms_model(gs)[i] == spec_geom_model(
            #[trigger] gs[i],
        ) by {
            if i > 0 {
                assert(gs.drop_first()[i - 1] == gs[i]);
            }
        }
    }
}

/// Appending one geometry appends its view.
pub proof fn lemma_geoms_model_push<P>(gs: Seq<GeometryT<P>>, g: GeometryT<P>)
    ensures
        spec_geoms_model(gs.push(g)) == spec_geoms_model(gs).push(spec_geom_model(g)),
    decreases gs.len(),
{
    let s = gs.push(g);
    if gs.len() == 0 {
        assert(s[0] == g);
        assert(s.drop_first() =~= Seq::<GeometryT<P>>::empty());
        assert(spec_geoms_model(Seq::<GeometryT<P>>::empty())
            == Seq::<GeometryModel<P>>::empty());
        assert(spec_geoms_model(s) == seq![spec_geom_model(g)] + Seq::<GeometryModel<P>>::empty());
        assert(seq![spec_geom_model(g)] + Seq::<GeometryModel<P>>::empty()
            =~= spec_geoms_model(gs).push(spec_geom_model(g)));
    } else {
        assert(s[0] == gs[0]);
        assert(s.drop_first() =~= gs.drop_first().push(g));
        lemma_geoms_model_push(gs.drop_first(), g);
        assert(spec_geoms_model(s) == seq![spec_geom_model(gs[0])] + spec_geoms_model(
            gs.drop_first(),
        ).push(spec_geom_model(g)));
        assert(seq![spec_geom_model(gs[0])] + spec_geoms_model(gs.drop_first()).push(
            spec_geom_model(g),
        ) =~= (seq![spec_geom_model(gs[0])] + spec_geoms_model(gs.drop_first())).push(
            spec_geom_model(g),
        ));
    }
}

impl<P> View for GeometryT<P> {
    type V = GeometryModel<P>;

    open spec fn view(&self) -> GeometryModel<P> {
        spec_geom_model(*self)
    }
}

impl<P> View for GeometryCollectionT<P> {
    type V = GeometryCollectionModel<P>;

    open spec fn view(&self) -> GeometryCollectionModel<P> {
        GeometryCollectionModel {
            geometries: spec_geoms_model(self.geometries@),
            srid: self.srid,
        }
    }
}

impl<P> GeometryCollectionT<P> {
    pub fn new() -> (r: GeometryCollectionT<P>)
        ensures
            r@.geometries == Seq::<GeometryModel<P>>::empty(),
            r@.srid is None,
    {
        let r = GeometryCollectionT { geometries: Vec::new(), srid: None };
        proof {
            assert(r@.geometries =~= Seq::<GeometryModel<P>>::empty());
        }
        r
    }

    /// The geometries, borrowed in order.
    pub fn geometries(&self) -> (r: &Vec<GeometryT<P>>)
        ensures
            spec_geoms_model(r@) == self@.geometries,
    {
        &self.geometries
    }
}

// --- Reading a generic geometry ---

/// Parses one self-describing geometry of any kind: header, then the body
/// the kind calls for. A kind outside 1..=7 is an unsupported-kind error.
/// A GeometryCollection body parses recursively.
pub open spec fn spec_read_geom<P: types::Point>(bytes: Seq<u8>, pos: int) -> Result<
    (GeometryModel<P>, int),
    Error,
>
    decreases bytes.len() - pos, 1int, 0int,
{
    match spec_read_header(bytes, pos) {
        Ok((h, p1)) => {
            let kind = h.1 & 0xffu32;
            if kind == 1 {
                match spec_read_point_body::<P>(bytes, p1, h.0, h.1, h.2) {
                    Ok((v, p2)) => Ok((GeometryModel::Point(v), p2)),
                    Err(e) => Err(e),
                }
            } else if kind == 2 {
                match spec_read_line_body::<P>(bytes, p1, h.0, h.1, h.2) {
                    Ok((v, p2)) => Ok((GeometryModel::LineString(v), p2)),
                    Err(e) => Err(e),
                }
            } else if kind == 3 {
                match spec_read_polygon_body::<P>(bytes, p1, h.0, h.1, h.2) {
                    Ok((v, p2)) => Ok((GeometryModel::Polygon(v), p2)),
                    Err(e) => Err(e),
                }
            } else if kind == 4 {
                match spec_read_multipoint_body::<P>(bytes, p1, h.0, h.2) {
                    Ok((v, p2)) => Ok((GeometryModel::MultiPoint(v), p2)),
                    Err(e) => Err(e),
                }
            } else if kind == 5 {
                match spec_read_multiline_body::<P>(bytes, p1, h.0, h.2) {
                    Ok((v, p2)) => Ok((GeometryModel::MultiLineString(v), p2)),
                    Err(e) => Err(e),
                }
            } else if kind == 6 {
                match spec_read_multipoly_body::<P>(bytes, p1, h.0, h.2) {
                    Ok((v, p2)) => Ok((GeometryModel::MultiPolygon(v), p2)),
                    Err(e) => Err(e),
                }
            } else if kind == 7 {
                match spec_read_gc_body::<P>(bytes, p1, h.0, h.2) {
                    Ok((v, p2)) => Ok((GeometryModel::GeometryCollection(v), p2)),
                    Err(e) => Err(e),
                }
            } else {
                Err(Error::UnsupportedKind)
            }
        },
        Err(e) => Err(e),
    }
}

/// Parses a GeometryCollection body: a count, then that many
/// self-describing geometries of any kind. The collection's SRID comes from
/// its own header; elements keep whatever their own headers say.
pub open spec fn spec_read_gc_body<P: types::Point>(
    bytes: Seq<u8>,
    pos: int,
    is_be: bool,
    srid: Option<i32>,
) -> Result<(GeometryCollectionModel<P>, int), Error>
    decreases bytes.len() - pos, 0int, 0int,
{
    match spec_read_u32(bytes, pos, is_be) {
        Ok((n, p1)) => match spec_read_gc_items::<P>(bytes, p1, n as int) {
            Ok((gs, p2)) => Ok((GeometryCollectionModel { geometries: gs, srid }, p2)),
            Err(e) => Err(e),
        },
        Err(e) => Err(e),
    }
}

/// Parses `n` self-describing geometries of any kind. (A successful
/// geometry parse always lands between the old position and the end of the
/// stream, so the backstop arm that guards the recursion is never taken.)
pub open spec fn spec_read_gc_items<P: types::Point>(bytes: Seq<u8>, pos: int, n: int) -> Result<
    (Seq<GeometryModel<P>>, int),
    Error,
>
    decreases bytes.len() - pos, 2int, n,
{
    if n <= 0 {
        Ok((Seq::<GeometryModel<P>>::empty(), pos))
    } else {
        match spec_read_geom::<P>(bytes, pos) {
            Ok((g, p1)) => if p1 < pos || p1 > bytes.len() {
                Err(Error::Read)
            } else {
                match spec_read_gc_items::<P>(bytes, p1, n - 1) {
                    Ok((rest, p2)) => Ok((seq![g] + rest, p2)),
                    Err(e) => Err(e),
                }
            },
            Err(e) => Err(e),
        }
    }
}

/// Reads one self-describing geometry of any kind.
#[verifier::rlimit(50)]
pub(crate) fn read_geom<P: types::Point>(raw: &Vec<u8>, pos: &mut usize) -> (r: Result<
    GeometryT<P>,
    Error,
>)
    requires
        *old(pos) <= raw@.len(),
    ensures
        match spec_read_geom::<P>(raw@, *old(pos) as int) {
            Ok(vp) => r is Ok && r->Ok_0@ == vp.0 && *final(pos) as int == vp.1,
            Err(e) => r is Err && r->Err_0 == e,
        },
        *old(pos) <= *final(pos) <= raw@.len(),
    decreases raw@.len() - *old(pos), 1int,
{
    let (is_be, type_id, srid) = match read_header(raw, pos) {
        Ok(h) => h,
        Err(e) => {
            return Err(e);
        },
    };
    let kind = type_id & 0xff;
    if kind == 0x01 {
        match read_point_body::<P>(raw, pos, is_be, type_id, srid) {
            Ok(v) => Ok(GeometryT::Point(v)),
            Err(e) => Err(e),
        }
    } else if kind == 0x02 {
        match read_line_body::<P>(raw, pos, is_be, type_id, srid) {
            Ok(v) => Ok(GeometryT::LineString(v)),
            Err(e) => Err(e),
        }
    } else if kind == 0x03 {
        match read_polygon_body::<P>(raw, pos, is_be, type_id, srid) {
            Ok(v) => Ok(GeometryT::Polygon(v)),
            Err(e) => Err(e),
        }
    } else if kind == 0x04 {
        match read_multipoint_body::<P>(raw, pos, is_be, srid) {
            Ok(v) => Ok(GeometryT::MultiPoint(v)),
            Err(e) => Err(e),
        }
    } else if kind == 0x05 {
        match read_multiline_body::<P>(raw, pos, is_be, srid) {
            Ok(v) => Ok(GeometryT::MultiLineString(v)),
            Err(e) => Err(e),
        }
    } else if kind == 0x06 {
        match read_multipoly_body::<P>(raw, pos, is_be, srid) {
            Ok(v) => Ok(GeometryT::MultiPolygon(v)),
            Err(e) => Err(e),
        }
    } else if kind == 0x07 {
        match read_gc_body::<P>(raw, pos, is_be, srid) {
            Ok(v) => Ok(GeometryT::GeometryCollection(v)),
            Err(e) => Err(e),
        }
    } else {
        Err(Error::UnsupportedKind)
    }
}

/// Reads a GeometryCollection body.
#[verifier::rlimit(50)]
pub(crate) fn read_gc_body<P: types::Point>(
    raw: &Vec<u8>,
    pos: &mut usize,
    is_be: bool,
    srid: Option<i32>,
) -> (r: Result<GeometryCollectionT<P>, Error>)
    requires
        *old(pos) <= raw@.len(),
    ensures
        match spec_read_gc_body::<P>(raw@, *old(pos) as int, is_be, srid) {
            Ok(vp) => r is Ok && r->Ok_0@ == vp.0 && *final(pos) as int == vp.1,
            Err(e) => r is Err && r->Err_0 == e,
        },
        *old(pos) <= *final(pos) <= raw@.len(),
    decreases raw@.len() - *old(pos), 0int,
{
    let n = match read_u32(raw, pos, is_be) {
        Ok(v) => v,
        Err(e) => {
            return Err(e);
        },
    };
    let mut geometries: Vec<GeometryT<P>> = Vec::new();
    let mut i: u32 = 0;
    while i < n
        invariant
            i <= n,
            *old(pos) + 4 <= *pos <= raw@.len(),
            geometries@.len() == i as int,
            spec_read_u32(raw@, *old(pos) as int, is_be) matches Ok(np) && np.0 == n,
            ({
                let whole = spec_read_gc_items::<P>(
                    raw@,
                    spec_read_u32(raw@, *old(pos) as int, is_be)->Ok_0.1,
                    n as int,
                );
                match spec_read_gc_items::<P>(raw@, *pos as int, (n - i) as int) {
                    Ok(vp) => whole == Ok::<(Seq<GeometryModel<P>>, int), Error>(
                        (spec_geoms_model(geometries@) + vp.0, vp.1),
                    ),
                    Err(e) => whole == Err::<(Seq<GeometryModel<P>>, int), Error>(e),
                }
            }),
        decreases n - i,
    {
        let ghost geoms_prev = spec_geoms_model(geometries@);
        match read_geom::<P>(raw, pos) {
            Ok(g) => {
                let ghost g_model = g@;
                proof {
                    lemma_geoms_model_push(geometries@, g);
                }
                geometries.push(g);
                proof {
                    match spec_read_gc_items::<P>(raw@, *pos as int, n - i - 1) {
                        Ok(vp) => {
                            assert(geoms_prev + (seq![g_model] + vp.0) =~= geoms_prev.push(
                                g_model,
                            ) + vp.0);
                        },
                        Err(e) => {},
                    }
                }
            },
            Err(e) => {
                return Err(e);
            },
        }
        i = i + 1;
    }
    proof {
        assert(spec_geoms_model(geometries@) + Seq::<GeometryModel<P>>::empty()
            =~= spec_geoms_model(geometries@));
    }
    Ok(GeometryCollectionT { geometries, srid })
}

impl<P: types::Point + EwkbRead> EwkbRead for GeometryT<P> {
    open spec fn spec_point_type() -> PointType {
        P::spec_point_type()
    }

    open spec fn spec_read(bytes: Seq<u8>, pos: int) -> Result<(GeometryModel<P>, int), Error> {
        spec_read_geom::<P>(bytes, pos)
    }

    /// The generic geometry has no body format of its own; only concrete
    /// kinds do. A body-only read is an unsupported operation.
    open spec fn spec_read_body(bytes: Seq<u8>, pos: int, is_be: bool, type_id: u32, srid: Option<
        i32,
    >) -> Result<(GeometryModel<P>, int), Error> {
        Err(Error::UnsupportedOperation)
    }

    fn point_type() -> (t: PointType) {
        P::point_type()
    }

    fn read_ewkb(raw: &Vec<u8>, pos: &mut usize) -> (r: Result<Self, Error>) {
        read_geom::<P>(raw, pos)
    }

    fn read_ewkb_body(raw: &Vec<u8>, pos: &mut usize, is_be: bool, type_id: u32, srid: Option<
        i32,
    >) -> (r: Result<Self, Error>) {
        Err(Error::UnsupportedOperation)
    }
}

impl<P: types::Point + EwkbRead> EwkbRead for GeometryCollectionT<P> {
    open spec fn spec_point_type() -> PointType {
        P::spec_point_type()
    }

    open spec fn spec_read(bytes: Seq<u8>, pos: int) -> Result<
        (GeometryCollectionModel<P>, int),
        Error,
    > {
        match spec_read_header(bytes, pos) {
            Ok((h, p)) => Self::spec_read_body(bytes, p, h.0, h.1, h.2),
            Err(e) => Err(e),
        }
    }

    open spec fn spec_read_body(bytes: Seq<u8>, pos: int, is_be: bool, type_id: u32, srid: Option<
        i32,
    >) -> Result<(GeometryCollectionModel<P>, int), Error> {
        spec_read_gc_body::<P>(bytes, pos, is_be, srid)
    }

    fn point_type() -> (t: PointType) {
        P::point_type()
    }

    fn read_ewkb(raw: &Vec<u8>, pos: &mut usize) -> (r: Result<Self, Error>) {
        let (is_be, type_id, srid) = match read_header(raw, pos) {
            Ok(h) => h,
            Err(e) => {
                return Err(e);
            },
        };
        Self::read_ewkb_body(raw, pos, is_be, type_id, srid)
    }

    fn read_ewkb_body(raw: &Vec<u8>, pos: &mut usize, is_be: bool, type_id: u32, srid: Option<
        i32,
    >) -> (r: Result<Self, Error>) {
        read_gc_body::<P>(raw, pos, is_be, srid)
    }
}

// --- Borrowed view of a generic geometry ---

/// A borrowed view of a generic geometry, one variant per kind.
pub enum GeometryType<'a, P> {
    Point(&'a P),
    LineString(&'a LineStringT<P>),
    Polygon(&'a PolygonT<P>),
    MultiPoint(&'a MultiPointT<P>),
    MultiLineString(&'a MultiLineStringT<P>),
    MultiPolygon(&'a MultiPolygonT<P>),
    GeometryCollection(&'a GeometryCollectionT<P>),
}

impl<P> GeometryT<P> {
    /// This geometry as a borrowed view, for matching on its kind without
    /// taking it apart.
    pub fn as_type<'a>(&'a self) -> (r: GeometryType<'a, P>)
        ensures
            match *self {
                GeometryT::Point(p) => r matches GeometryType::Point(q) && *q == p,
                GeometryT::LineString(l) => r matches GeometryType::LineString(q) && *q == l,
                GeometryT::Polygon(y) => r matches GeometryType::Polygon(q) && *q == y,
                GeometryT::MultiPoint(m) => r matches GeometryType::MultiPoint(q) && *q == m,
                GeometryT::MultiLineString(m) => r matches GeometryType::MultiLineString(q) && *q
                    == m,
                GeometryT::MultiPolygon(m) => r matches GeometryType::MultiPolygon(q) && *q == m,
                GeometryT::GeometryCollection(c) => r matches GeometryType::GeometryCollection(q)
                    && *q == c,
            },
    {
        match self {
            GeometryT::Point(ref geom) => GeometryType::Point(geom),
            GeometryT::LineString(ref geom) => GeometryType::LineString(geom),
            GeometryT::Polygon(ref geom) => GeometryType::Polygon(geom),
            GeometryT::MultiPoint(ref geom) => GeometryType::MultiPoint(geom),
            GeometryT::MultiLineString(ref geom) => GeometryType::MultiLineString(geom),
            GeometryT::MultiPolygon(ref geom) => GeometryType::MultiPolygon(geom),
            GeometryT::GeometryCollection(ref geom) => GeometryType::GeometryCollection(geom),
        }
    }
}

// --- Writing a generic geometry ---

/// The SRID a geometry value itself carries at top level.
pub open spec fn spec_geom_srid<P: types::Point>(g: GeometryModel<P>) -> Option<i32> {
    match g {
        GeometryModel::Point(p) => p.spec_srid(),
        GeometryModel::LineString(l) => l.srid,
        GeometryModel::Polygon(y) => y.srid,
        GeometryModel::MultiPoint(m) => m.srid,
        GeometryModel::MultiLineString(m) => m.srid,
        GeometryModel::MultiPolygon(m) => m.srid,
        GeometryModel::GeometryCollection(c) => c.srid,
    }
}

/// The full encoding of a geometry of any kind, written under the given
/// shape and SRID. Collection elements are written with no SRID of their
/// own, recursively.
pub open spec fn spec_geom_ewkb_bytes<P: types::Point>(
    g: GeometryModel<P>,
    point_type: PointType,
    srid: Option<i32>,
) -> Seq<u8>
    decreases g, 0int,
{
    match g {
        GeometryModel::Point(p) => spec_point_ewkb_bytes(p, point_type, srid),
        GeometryModel::LineString(l) => spec_line_ewkb_bytes::<P>(l.points, point_type, srid),
        GeometryModel::Polygon(y) => spec_polygon_ewkb_bytes::<P>(y.rings, point_type, srid),
        GeometryModel::MultiPoint(m) => spec_header_bytes(
            0x04u32 | spec_wkb_type_id(point_type, srid is Some),
            srid,
        ) + spec_multipoint_body_bytes::<P>(m.points, point_type),
        GeometryModel::MultiLineString(m) => spec_header_bytes(
            0x05u32 | spec_wkb_type_id(point_type, srid is Some),
            srid,
        ) + spec_multiline_body_bytes::<P>(m.lines, point_type),
        GeometryModel::MultiPolygon(m) => spec_header_bytes(
            0x06u32 | spec_wkb_type_id(point_type, srid is Some),
            srid,
        ) + spec_multipoly_body_bytes::<P>(m.polygons, point_type),
        GeometryModel::GeometryCollection(c) => spec_header_bytes(
            0x07u32 | spec_wkb_type_id(point_type, srid is Some),
            srid,
        ) + spec_gc_body_bytes::<P>(c.geometries, point_type),
    }
}

/// The body bytes of a GeometryCollection: the count, then each geometry as
/// a full self-describing geometry with no SRID of its own.
pub open spec fn spec_gc_body_bytes<P: types::Point>(
    gs: Seq<GeometryModel<P>>,
    point_type: PointType,
) -> Seq<u8>
    decreases gs, 1int,
{
    u32_le_bytes(gs.len() as u32) + spec_gc_items_bytes::<P>(gs, point_type)
}

/// The concatenated encodings of collection elements, each with no SRID.
pub open spec fn spec_gc_items_bytes<P: types::Point>(
    gs: Seq<GeometryModel<P>>,
    point_type: PointType,
) -> Seq<u8>
    decreases gs, 0int,
{
    if gs.len() == 0 {
        Seq::<u8>::empty()
    } else {
        spec_geom_ewkb_bytes(gs[0], point_type, None) + spec_gc_items_bytes::<P>(
            gs.drop_first(),
            point_type,
        )
    }
}

/// Appending one geometry appends its encoding.
pub proof fn lemma_gc_items_bytes_push<P: types::Point>(
    gs: Seq<GeometryModel<P>>,
    point_type: PointType,
    x: GeometryModel<P>,
)
    ensures
        spec_gc_items_bytes::<P>(gs.push(x), point_type) == spec_gc_items_bytes::<P>(
            gs,
            point_type,
        ) + spec_geom_ewkb_bytes(x, point_type, None),
    decreases gs.len(),
{
    let s = gs.push(x);
    if gs.len() == 0 {
        assert(s[0] == x);
        assert(s.drop_first() =~= Seq::<GeometryModel<P>>::empty());
        assert(spec_gc_items_bytes::<P>(s, point_type) == spec_geom_ewkb_bytes(
            x,
            point_type,
            None,
        ) + spec_gc_items_bytes::<P>(Seq::<GeometryModel<P>>::empty(), point_type));
        assert(spec_geom_ewkb_bytes(x, point_type, None) + Seq::<u8>::empty() =~= Seq::<
            u8,
        >::empty() + spec_geom_ewkb_bytes(x, point_type, None));
    } else {
        assert(s[0] == gs[0]);
        assert(s.drop_first() =~= gs.drop_first().push(x));
        lemma_gc_items_bytes_push(gs.drop_first(), point_type, x);
        assert(spec_gc_items_bytes::<P>(s, point_type) == spec_geom_ewkb_bytes(
            gs[0],
            point_type,
            None,
        ) + (spec_gc_items_bytes::<P>(gs.drop_first(), point_type) + spec_geom_ewkb_bytes(
            x,
            point_type,
            None,
        )));
        assert(spec_geom_ewkb_bytes(gs[0], point_type, None) + (spec_gc_items_bytes::<P>(
            gs.drop_first(),
            point_type,
        ) + spec_geom_ewkb_bytes(x, point_type, None)) =~= (spec_geom_ewkb_bytes(
            gs[0],
            point_type,
            None,
        ) + spec_gc_items_bytes::<P>(gs.drop_first(), point_type)) + spec_geom_ewkb_bytes(
            x,
            point_type,
            None,
        ));
    }
}

/// Writes one geometry of any kind as a full self-describing geometry.
#[verifier::rlimit(50)]
pub(crate) fn write_geom_ewkb<P: types::Point>(
    g: &GeometryT<P>,
    point_type: PointType,
    srid: Option<i32>,
    w: &mut Vec<u8>,
)
    ensures
        final(w)@ == old(w)@ + spec_geom_ewkb_bytes(g@, point_type, srid),
    decreases g, 1int,
{
    match g {
        GeometryT::Point(p) => {
            let wkb = EwkbPoint { geom: p, srid, point_type };
            wkb.write_ewkb(w);
        },
        GeometryT::LineString(l) => {
            let wkb = EwkbLineString { geom: l, srid, point_type };
            wkb.write_ewkb(w);
        },
        GeometryT::Polygon(y) => {
            let wkb = EwkbPolygon { geom: y, srid, point_type };
            wkb.write_ewkb(w);
        },
        GeometryT::MultiPoint(m) => {
            let wkb = EwkbMultiPoint { geom: m, srid, point_type };
            wkb.write_ewkb(w);
        },
        GeometryT::MultiLineString(m) => {
            let wkb = EwkbMultiLineString { geom: m, srid, point_type };
            wkb.write_ewkb(w);
        },
        GeometryT::MultiPolygon(m) => {
            let wkb = EwkbMultiPolygon { geom: m, srid, point_type };
            wkb.write_ewkb(w);
        },
        GeometryT::GeometryCollection(gc) => {
            w.push(0x01);
            let flags = wkb_flags(&point_type, srid.is_some());
            crate::ewkb::encoding::write_u32_le(w, 0x07 | flags);
            match srid {
                Some(s) => write_i32_le(w, s),
                None => (),
            }
            write_u32_le(w, #[verifier::truncate] (gc.geometries.len() as u32));
            proof {
                lemma_geoms_model_props(gc.geometries@);
            }
            write_geom_items(&gc.geometries, point_type, w);
            proof {
                assert(w@ =~= old(w)@ + spec_geom_ewkb_bytes(g@, point_type, srid));
            }
        },
    }
}

/// Writes each geometry of a collection body, every one with no SRID of its
/// own.
pub(crate) fn write_geom_items<P: types::Point>(
    geoms: &Vec<GeometryT<P>>,
    point_type: PointType,
    w: &mut Vec<u8>,
)
    ensures
        final(w)@ == old(w)@ + spec_gc_items_bytes::<P>(spec_geoms_model(geoms@), point_type),
    decreases geoms, 0int,
{
    let ghost models = spec_geoms_model(geoms@);
    proof {
        lemma_geoms_model_props(geoms@);
    }
    let mut i: usize = 0;
    while i < geoms.len()
        invariant
            i <= geoms@.len(),
            models == spec_geoms_model(geoms@),
            models.len() == geoms@.len(),
            forall|j: int|
                0 <= j < geoms@.len() ==> models[j] == spec_geom_model(#[trigger] geoms@[j]),
            w@ == old(w)@ + spec_gc_items_bytes::<P>(models.take(i as int), point_type),
        decreases geoms@.len() - i,
    {
        write_geom_ewkb(&geoms[i], point_type, None, w);
        proof {
            lemma_gc_items_bytes_push(models.take(i as int), point_type, models[i as int]);
            assert(models.take(i as int).push(models[i as int]) =~= models.take(i as int + 1));
        }
        i = i + 1;
    }
    proof {
        assert(models.take(models.len() as int) =~= models);
    }
}

/// Borrowing write adapter for a generic geometry: one variant per kind.
pub enum EwkbGeometry<'a, P: types::Point> {
    Point(EwkbPoint<'a, P>),
    LineString(EwkbLineString<'a, P>),
    Polygon(EwkbPolygon<'a, P>),
    MultiPoint(EwkbMultiPoint<'a, P>),
    MultiLineString(EwkbMultiLineString<'a, P>),
    MultiPolygon(EwkbMultiPolygon<'a, P>),
    GeometryCollection(EwkbGeometryCollection<'a, P>),
}

/// Borrowing write adapter for a GeometryCollection.
pub struct EwkbGeometryCollection<'a, P: types::Point> {
    pub geom: &'a GeometryCollectionT<P>,
    pub srid: Option<i32>,
    pub point_type: PointType,
}

impl<'a, P: types::Point> EwkbWrite for EwkbGeometryCollection<'a, P> {
    open spec fn spec_type_id(&self) -> u32 {
        0x07u32 | spec_wkb_type_id(self.point_type, self.srid is Some)
    }

    open spec fn spec_opt_srid(&self) -> Option<i32> {
        self.srid
    }

    open spec fn spec_body_bytes(&self) -> Seq<u8> {
        spec_gc_body_bytes::<P>(self.geom@.geometries, self.point_type)
    }

    fn opt_srid(&self) -> (r: Option<i32>) {
        self.srid
    }

    fn type_id(&self) -> (r: u32) {
        0x07 | Self::wkb_type_id(&self.point_type, self.srid)
    }

    fn write_ewkb_body(&self, w: &mut Vec<u8>) {
        proof {
            lemma_geoms_model_props(self.geom.geometries@);
        }
        write_u32_le(w, #[verifier::truncate] (self.geom.geometries.len() as u32));
        write_geom_items(&self.geom.geometries, self.point_type, w);
        proof {
            assert(w@ =~= old(w)@ + self.spec_body_bytes());
        }
    }
}

impl<'a, P: types::Point> EwkbWrite for EwkbGeometry<'a, P> {
    open spec fn spec_type_id(&self) -> u32 {
        match self {
            EwkbGeometry::Point(ewkb) => ewkb.spec_type_id(),
            EwkbGeometry::LineString(ewkb) => ewkb.spec_type_id(),
            EwkbGeometry::Polygon(ewkb) => ewkb.spec_type_id(),
            EwkbGeometry::MultiPoint(ewkb) => ewkb.spec_type_id(),
            EwkbGeometry::MultiLineString(ewkb) => ewkb.spec_type_id(),
            EwkbGeometry::MultiPolygon(ewkb) => ewkb.spec_type_id(),
            EwkbGeometry::GeometryCollection(ewkb) => ewkb.spec_type_id(),
        }
    }

    open spec fn spec_opt_srid(&self) -> Option<i32> {
        match self {
            EwkbGeometry::Point(ewkb) => ewkb.spec_opt_srid(),
            EwkbGeometry::LineString(ewkb) => ewkb.spec_opt_srid(),
            EwkbGeometry::Polygon(ewkb) => ewkb.spec_opt_srid(),
            EwkbGeometry::MultiPoint(ewkb) => ewkb.spec_opt_srid(),
            EwkbGeometry::MultiLineString(ewkb) => ewkb.spec_opt_srid(),
            EwkbGeometry::MultiPolygon(ewkb) => ewkb.spec_opt_srid(),
            EwkbGeometry::GeometryCollection(ewkb) => ewkb.spec_opt_srid(),
        }
    }

    open spec fn spec_body_bytes(&self) -> Seq<u8> {
        match self {
            EwkbGeometry::Point(ewkb) => ewkb.spec_body_bytes(),
            EwkbGeometry::LineString(ewkb) => ewkb.spec_body_bytes(),
            EwkbGeometry::Polygon(ewkb) => ewkb.spec_body_bytes(),
            EwkbGeometry::MultiPoint(ewkb) => ewkb.spec_body_bytes(),
            EwkbGeometry::MultiLineString(ewkb) => ewkb.spec_body_bytes(),
            EwkbGeometry::MultiPolygon(ewkb) => ewkb.spec_body_bytes(),
            EwkbGeometry::GeometryCollection(ewkb) => ewkb.spec_body_bytes(),
        }
    }

    fn opt_srid(&self) -> (r: Option<i32>) {
        match self {
            EwkbGeometry::Point(ewkb) => ewkb.opt_srid(),
            EwkbGeometry::LineString(ewkb) => ewkb.opt_srid(),
            EwkbGeometry::Polygon(ewkb) => ewkb.opt_srid(),
            EwkbGeometry::MultiPoint(ewkb) => ewkb.opt_srid(),
            EwkbGeometry::MultiLineString(ewkb) => ewkb.opt_srid(),
            EwkbGeometry::MultiPolygon(ewkb) => ewkb.opt_srid(),
            EwkbGeometry::GeometryCollection(ewkb) => ewkb.opt_srid(),
        }
    }

    fn type_id(&self) -> (r: u32) {
        match self {
            EwkbGeometry::Point(ewkb) => ewkb.type_id(),
            EwkbGeometry::LineString(ewkb) => ewkb.type_id(),
            EwkbGeometry::Polygon(ewkb) => ewkb.type_id(),
            EwkbGeometry::MultiPoint(ewkb) => ewkb.type_id(),
            EwkbGeometry::MultiLineString(ewkb) => ewkb.type_id(),
            EwkbGeometry::MultiPolygon(ewkb) => ewkb.type_id(),
            EwkbGeometry::GeometryCollection(ewkb) => ewkb.type_id(),
        }
    }

    fn write_ewkb_body(&self, w: &mut Vec<u8>) {
        match self {
            EwkbGeometry::Point(ewkb) => ewkb.write_ewkb_body(w),
            EwkbGeometry::LineString(ewkb) => ewkb.write_ewkb_body(w),
            EwkbGeometry::Polygon(ewkb) => ewkb.write_ewkb_body(w),
            EwkbGeometry::MultiPoint(ewkb) => ewkb.write_ewkb_body(w),
            EwkbGeometry::MultiLineString(ewkb) => ewkb.write_ewkb_body(w),
            EwkbGeometry::MultiPolygon(ewkb) => ewkb.write_ewkb_body(w),
            EwkbGeometry::GeometryCollection(ewkb) => ewkb.write_ewkb_body(w),
        }
    }
}

impl<P: types::Point + EwkbRead + for <'b> AsEwkbPoint<'b>> GeometryT<P> {
    /// Borrows this geometry for writing, under its own top-level SRID and
    /// `P`'s shape.
    pub fn as_ewkb<'a>(&'a self) -> (r: EwkbGeometry<'a, P>)
        ensures
            spec_header_bytes(r.spec_type_id(), r.spec_opt_srid()) + r.spec_body_bytes()
                == spec_geom_ewkb_bytes(self@, P::spec_point_type(), spec_geom_srid(self@)),
            r.spec_opt_srid() == spec_geom_srid(self@),
    {
        match self {
            GeometryT::Point(ref geom) => EwkbGeometry::Point(geom.as_ewkb()),
            GeometryT::LineString(ref geom) => EwkbGeometry::LineString(geom.as_ewkb()),
            GeometryT::Polygon(ref geom) => EwkbGeometry::Polygon(geom.as_ewkb()),
            GeometryT::MultiPoint(ref geom) => EwkbGeometry::MultiPoint(geom.as_ewkb()),
            GeometryT::MultiLineString(ref geom) => EwkbGeometry::MultiLineString(geom.as_ewkb()),
            GeometryT::MultiPolygon(ref geom) => EwkbGeometry::MultiPolygon(geom.as_ewkb()),
            GeometryT::GeometryCollection(ref geom) => EwkbGeometry::GeometryCollection(
                geom.as_ewkb(),
            ),
        }
    }
}

impl<P: types::Point + EwkbRead> GeometryCollectionT<P> {
    /// Borrows this collection for writing, under its own SRID and `P`'s
    /// shape.
    pub fn as_ewkb<'a>(&'a self) -> (r: EwkbGeometryCollection<'a, P>)
        ensures
            r.geom == self,
            r.srid == self@.srid,
            r.point_type == P::spec_point_type(),
    {
        EwkbGeometryCollection { geom: self, srid: self.srid, point_type: P::point_type() }
    }
}

/// OGC Geometry type
pub type Geometry = GeometryT<crate::ewkb::point::Point>;

/// OGC GeometryZ type
pub type GeometryZ = GeometryT<crate::ewkb::point::PointZ>;

/// OGC GeometryM type
pub type GeometryM = GeometryT<crate::ewkb::point::PointM>;

/// OGC GeometryZM type
pub type GeometryZM = GeometryT<crate::ewkb::point::PointZM>;

/// OGC GeometryCollection type
pub type GeometryCollection = GeometryCollectionT<crate::ewkb::point::Point>;

/// OGC GeometryCollectionZ type
pub type GeometryCollectionZ = GeometryCollectionT<crate::ewkb::point::PointZ>;

/// OGC GeometryCollectionM type
pub type GeometryCollectionM = GeometryCollectionT<crate::ewkb::point::PointM>;

/// OGC GeometryCollectionZM type
pub type GeometryCollectionZM = GeometryCollectionT<crate::ewkb::point::PointZM>;

} // verus!
