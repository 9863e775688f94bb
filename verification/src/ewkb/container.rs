//! The two point containers and their codec.
//!
//! A LineString is an *inline* container: its body is a count followed by
//! raw coordinate tuples, and every point inherits the container's type-id
//! word and SRID. A MultiPoint is a *typed-element* container: its body is a
//! count followed by fully self-describing point geometries, each with its
//! own order byte and type-id word; the container's SRID is never
//! redistributed onto the elements, and a writer always leaves the elements'
//! SRID field empty.

use crate::error::Error;
use crate::ewkb::encoding::{read_u32, spec_read_u32, u32_le_bytes, write_u32_le};
use crate::ewkb::point::{
    read_point_body, spec_point_body_bytes, spec_point_ewkb_bytes, spec_read_point_body, EwkbPoint,
    PointType,
};
use crate::ewkb::{
    read_header, spec_header_bytes, spec_read_header, spec_wkb_type_id, EwkbRead, EwkbWrite,
};
use crate::types;
use vstd::prelude::*;

verus! {

// --- Reading inline point sequences ---

/// Parses `n` inline point bodies, every one under the container's type-id
/// word and SRID.
pub open spec fn spec_read_points<P: types::Point>(
    bytes: Seq<u8>,
    pos: int,
    is_be: bool,
    type_id: u32,
    srid: Option<i32>,
    n: int,
) -> Result<(Seq<P>, int), Error>
    decreases n,
{
    if n <= 0 {
        Ok((Seq::<P>::empty(), pos))
    } else {
        match spec_read_point_body::<P>(bytes, pos, is_be, type_id, srid) {
            Ok((v, p1)) => match spec_read_points::<P>(bytes, p1, is_be, type_id, srid, n - 1) {
                Ok((rest, p2)) => Ok((seq![v] + rest, p2)),
                Err(e) => Err(e),
            },
            Err(e) => Err(e),
        }
    }
}

/// Reads `n` inline point bodies.
pub(crate) fn read_points<P: types::Point>(
    raw: &Vec<u8>,
    pos: &mut usize,
    is_be: bool,
    type_id: u32,
    srid: Option<i32>,
    n: u32,
) -> (r: Result<Vec<P>, Error>)
    requires
        *old(pos) <= raw@.len(),
    ensures
        match spec_read_points::<P>(raw@, *old(pos) as int, is_be, type_id, srid, n as int) {
            Ok(vp) => r is Ok && r->Ok_0@ == vp.0 && *final(pos) as int == vp.1,
            Err(e) => r is Err && r->Err_0 == e,
        },
        *old(pos) <= *final(pos) <= raw@.len(),
{
    let mut points: Vec<P> = Vec::new();
    let mut i: u32 = 0;
    while i < n
        invariant
            i <= n,
            *old(pos) <= *pos <= raw@.len(),
            points@.len() == i as int,
            ({
                let whole = spec_read_points::<P>(
                    raw@,
                    *old(pos) as int,
                    is_be,
                    type_id,
                    srid,
                    n as int,
                );
                match spec_read_points::<P>(
                    raw@,
                    *pos as int,
                    is_be,
                    type_id,
                    srid,
                    (n - i) as int,
                ) {
                    Ok(vp) => whole == Ok::<(Seq<P>, int), Error>((points@ + vp.0, vp.1)),
                    Err(e) => whole == Err::<(Seq<P>, int), Error>(e),
                }
            }),
        decreases n - i,
    {
        let ghost points_prev = points@;
        match read_point_body::<P>(raw, pos, is_be, type_id, srid) {
            Ok(p) => {
                points.push(p);
                proof {
                    match spec_read_points::<P>(
                        raw@,
                        *pos as int,
                        is_be,
                        type_id,
                        srid,
                        n - i - 1,
                    ) {
                        Ok(vp) => {
                            assert(points_prev + (seq![p] + vp.0) =~= points@ + vp.0);
                        },
                        Err(e) => {},
                    }
                }
            },
            Err(e) => {
                return Err(e);
            },
        }
        i = i + 1;
    }
    proof {
        assert(points@ + Seq::<P>::empty() =~= points@);
    }
    Ok(points)
}

// --- The LineString ---

/// The mathematical view of a LineString: its points and SRID.
pub struct LineStringModel<P> {
    pub points: Seq<P>,
    pub srid: Option<i32>,
}

/// An ordered sequence of points with its own optional SRID.
#[derive(PartialEq, Clone, Debug)]
pub struct LineStringT<P> {
    pub points: Vec<P>,
    pub srid: Option<i32>,
}

impl<P> View for LineStringT<P> {
    type V = LineStringModel<P>;

    open spec fn view(&self) -> LineStringModel<P> {
        LineStringModel { points: self.points@, srid: self.srid }
    }
}

impl<P> LineStringT<P> {
    pub fn new() -> (r: LineStringT<P>)
        ensures
            r@.points == Seq::<P>::empty(),
            r@.srid is None,
    {
        LineStringT { points: Vec::new(), srid: None }
    }

    /// The points, borrowed in order.
    pub fn points(&self) -> (r: &Vec<P>)
        ensures
            r@ == self@.points,
    {
        &self.points
    }
}

impl<P> Default for LineStringT<P> {
    fn default() -> (r: Self)
        ensures
            r@.points == Seq::<P>::empty(),
            r@.srid is None,
    {
        LineStringT::new()
    }
}

/// Parses a LineString body: a count, then that many inline point bodies.
pub open spec fn spec_read_line_body<P: types::Point>(
    bytes: Seq<u8>,
    pos: int,
    is_be: bool,
    type_id: u32,
    srid: Option<i32>,
) -> Result<(LineStringModel<P>, int), Error> {
    match spec_read_u32(bytes, pos, is_be) {
        Ok((n, p1)) => match spec_read_points::<P>(bytes, p1, is_be, type_id, srid, n as int) {
            Ok((pts, p2)) => Ok((LineStringModel { points: pts, srid }, p2)),
            Err(e) => Err(e),
        },
        Err(e) => Err(e),
    }
}

/// Reads a LineString body.
pub(crate) fn read_line_body<P: types::Point>(
    raw: &Vec<u8>,
    pos: &mut usize,
    is_be: bool,
    type_id: u32,
    srid: Option<i32>,
) -> (r: Result<LineStringT<P>, Error>)
    requires
        *old(pos) <= raw@.len(),
    ensures
        match spec_read_line_body::<P>(raw@, *old(pos) as int, is_be, type_id, srid) {
            Ok(vp) => r is Ok && r->Ok_0@ == vp.0 && *final(pos) as int == vp.1,
            Err(e) => r is Err && r->Err_0 == e,
        },
        *old(pos) <= *final(pos) <= raw@.len(),
{
    let n = match read_u32(raw, pos, is_be) {
        Ok(v) => v,
        Err(e) => {
            return Err(e);
        },
    };
    match read_points::<P>(raw, pos, is_be, type_id, srid, n) {
        Ok(points) => Ok(LineStringT { points, srid }),
        Err(e) => Err(e),
    }
}

impl<P: types::Point + EwkbRead> EwkbRead for LineStringT<P> {
    open spec fn spec_point_type() -> PointType {
        P::spec_point_type()
    }

    open spec fn spec_read(bytes: Seq<u8>, pos: int) -> Result<(LineStringModel<P>, int), Error> {
        match spec_read_header(bytes, pos) {
            Ok((h, p)) => Self::spec_read_body(bytes, p, h.0, h.1, h.2),
            Err(e) => Err(e),
        }
    }

    open spec fn spec_read_body(bytes: Seq<u8>, pos: int, is_be: bool, type_id: u32, srid: Option<
        i32,
    >) -> Result<(LineStringModel<P>, int), Error> {
        spec_read_line_body::<P>(bytes, pos, is_be, type_id, srid)
    }

    fn point_type() -> (t: PointType) {
        P::point_type()
    }

    fn read_ewkb(raw: &Vec<u8>, pos: &mut usize) -> (r: Result<Self, Error>) {
        let (is_be, type_id, srid) = match read_header(raw, pos) {
            Ok(h) => h,
            Err(e) => {
                return Err(e);
            },
        };
        Self::read_ewkb_body(raw, pos, is_be, type_id, srid)
    }

    fn read_ewkb_body(raw: &Vec<u8>, pos: &mut usize, is_be: bool, type_id: u32, srid: Option<
        i32,
    >) -> (r: Result<Self, Error>) {
        read_line_body::<P>(raw, pos, is_be, type_id, srid)
    }
}

// --- Writing a LineString ---

/// The concatenated inline bodies of a point sequence.
pub open spec fn spec_points_bytes<P: types::Point>(points: Seq<P>) -> Seq<u8>
    decreases points.len(),
{
    if points.len() == 0 {
        Seq::<u8>::empty()
    } else {
        spec_point_body_bytes(points[0]) + spec_points_bytes::<P>(points.drop_first())
    }
}

/// Appending one point appends its body.
pub proof fn lemma_points_bytes_push<P: types::Point>(points: Seq<P>, x: P)
    ensures
        spec_points_bytes::<P>(points.push(x)) == spec_points_bytes::<P>(points)
            + spec_point_body_bytes(x),
    decreases points.len(),
{
    let s = points.push(x);
    if points.len() == 0 {
        assert(s[0] == x);
        assert(s.drop_first() =~= Seq::<P>::empty());
        assert(spec_points_bytes::<P>(s) == spec_point_body_bytes(x) + spec_points_bytes::<P>(
            Seq::<P>::empty(),
        ));
        assert(spec_point_body_bytes(x) + Seq::<u8>::empty() =~= Seq::<u8>::empty()
            + spec_point_body_bytes(x));
    } else {
        assert(s[0] == points[0]);
        assert(s.drop_first() =~= points.drop_first().push(x));
        lemma_points_bytes_push::<P>(points.drop_first(), x);
        assert(spec_points_bytes::<P>(s) == spec_point_body_bytes(points[0]) + (
        spec_points_bytes::<P>(points.drop_first()) + spec_point_body_bytes(x)));
        assert(spec_point_body_bytes(points[0]) + (spec_points_bytes::<P>(points.drop_first())
            + spec_point_body_bytes(x)) =~= (spec_point_body_bytes(points[0])
            + spec_points_bytes::<P>(points.drop_first())) + spec_point_body_bytes(x));
    }
}

/// The body bytes of a LineString: the point count, then each point's
/// inline body.
pub open spec fn spec_line_body_bytes<P: types::Point>(points: Seq<P>) -> Seq<u8> {
    u32_le_bytes(points.len() as u32) + spec_points_bytes::<P>(points)
}

/// The full encoding of a LineString written under the given shape and SRID.
pub open spec fn spec_line_ewkb_bytes<P: types::Point>(
    points: Seq<P>,
    point_type: PointType,
    srid: Option<i32>,
) -> Seq<u8> {
    spec_header_bytes(0x02u32 | spec_wkb_type_id(point_type, srid is Some), srid)
        + spec_line_body_bytes(points)
}

/// Writes the inline bodies of a point sequence.
pub(crate) fn write_points_bodies<P: types::Point>(points: &Vec<P>, w: &mut Vec<u8>)
    ensures
        final(w)@ == old(w)@ + spec_points_bytes::<P>(points@),
{
    let mut i: usize = 0;
    while i < points.len()
        invariant
            i <= points@.len(),
            w@ == old(w)@ + spec_points_bytes::<P>(points@.take(i as int)),
        decreases points@.len() - i,
    {
        crate::ewkb::point::write_point_body(&points[i], w);
        proof {
            lemma_points_bytes_push::<P>(points@.take(i as int), points@[i as int]);
            assert(points@.take(i as int).push(points@[i as int]) =~= points@.take(i as int + 1));
        }
        i = i + 1;
    }
    proof {
        assert(points@.take(points@.len() as int) =~= points@);
    }
}

/// Borrowing write adapter for a LineString.
pub struct EwkbLineString<'a, P: types::Point> {
    pub geom: &'a LineStringT<P>,
    pub srid: Option<i32>,
    pub point_type: PointType,
}

impl<'a, P: types::Point> EwkbWrite for EwkbLineString<'a, P> {
    open spec fn spec_type_id(&self) -> u32 {
        0x02u32 | spec_wkb_type_id(self.point_type, self.srid is Some)
    }

    open spec fn spec_opt_srid(&self) -> Option<i32> {
        self.srid
    }

    open spec fn spec_body_bytes(&self) -> Seq<u8> {
        spec_line_body_bytes(self.geom@.points)
    }

    fn opt_srid(&self) -> (r: Option<i32>) {
        self.srid
    }

    fn type_id(&self) -> (r: u32) {
        0x02 | Self::wkb_type_id(&self.point_type, self.srid)
    }

    fn write_ewkb_body(&self, w: &mut Vec<u8>) {
        write_u32_le(w, #[verifier::truncate] (self.geom.points.len() as u32));
        write_points_bodies(&self.geom.points, w);
        proof {
            assert(w@ =~= old(w)@ + self.spec_body_bytes());
        }
    }
}

impl<P: types::Point + EwkbRead> LineStringT<P> {
    /// Borrows this LineString for writing, under its own SRID and `P`'s
    /// shape.
    pub fn as_ewkb<'a>(&'a self) -> (r: EwkbLineString<'a, P>)
        ensures
            r.geom == self,
            r.srid == self@.srid,
            r.point_type == P::spec_point_type(),
    {
        EwkbLineString { geom: self, srid: self.srid, point_type: P::point_type() }
    }
}

/// OGC LineString type
pub type LineString = LineStringT<crate::ewkb::point::Point>;

/// OGC LineStringZ type
pub type LineStringZ = LineStringT<crate::ewkb::point::PointZ>;

/// OGC LineStringM type
pub type LineStringM = LineStringT<crate::ewkb::point::PointM>;

/// OGC LineStringZM type
pub type LineStringZM = LineStringT<crate::ewkb::point::PointZM>;

// --- Reading self-describing point elements ---

/// Parses one fully self-describing point geometry: its own header, then
/// its body under its own type-id word and SRID.
pub open spec fn spec_read_point_ewkb<P: types::Point>(bytes: Seq<u8>, pos: int) -> Result<
    (P, int),
    Error,
> {
    match spec_read_header(bytes, pos) {
        Ok((h, p)) => spec_read_point_body::<P>(bytes, p, h.0, h.1, h.2),
        Err(e) => Err(e),
    }
}

/// Parses `n` self-describing point geometries.
pub open spec fn spec_read_point_elems<P: types::Point>(bytes: Seq<u8>, pos: int, n: int) -> Result<
    (Seq<P>, int),
    Error,
>
    decreases n,
{
    if n <= 0 {
        Ok((Seq::<P>::empty(), pos))
    } else {
        match spec_read_point_ewkb::<P>(bytes, pos) {
            Ok((v, p1)) => match spec_read_point_elems::<P>(bytes, p1, n - 1) {
                Ok((rest, p2)) => Ok((seq![v] + rest, p2)),
                Err(e) => Err(e),
            },
            Err(e) => Err(e),
        }
    }
}

/// Reads one self-describing point geometry.
pub(crate) fn read_point_ewkb<P: types::Point>(raw: &Vec<u8>, pos: &mut usize) -> (r: Result<
    P,
    Error,
>)
    requires
        *old(pos) <= raw@.len(),
    ensures
        match spec_read_point_ewkb::<P>(raw@, *old(pos) as int) {
            Ok(vp) => r is Ok && r->Ok_0 == vp.0 && *final(pos) as int == vp.1,
            Err(e) => r is Err && r->Err_0 == e,
        },
        *old(pos) <= *final(pos) <= raw@.len(),
{
    let (is_be, type_id, srid) = match read_header(raw, pos) {
        Ok(h) => h,
        Err(e) => {
            return Err(e);
        },
    };
    read_point_body::<P>(raw, pos, is_be, type_id, srid)
}

// --- The MultiPoint ---

/// The mathematical view of a MultiPoint: its points and SRID.
pub struct MultiPointModel<P> {
    pub points: Seq<P>,
    pub srid: Option<i32>,
}

/// An ordered sequence of self-describing points with its own optional SRID.
#[derive(PartialEq, Clone, Debug)]
pub struct MultiPointT<P> {
    pub points: Vec<P>,
    pub srid: Option<i32>,
}

impl<P> View for MultiPointT<P> {
    type V = MultiPointModel<P>;

    open spec fn view(&self) -> MultiPointModel<P> {
        MultiPointModel { points: self.points@, srid: self.srid }
    }
}

impl<P> MultiPointT<P> {
    pub fn new() -> (r: MultiPointT<P>)
        ensures
            r@.points == Seq::<P>::empty(),
            r@.srid is None,
    {
        MultiPointT { points: Vec::new(), srid: None }
    }

    /// The points, borrowed in order.
    pub fn points(&self) -> (r: &Vec<P>)
        ensures
            r@ == self@.points,
    {
        &self.points
    }
}

impl<P> Default for MultiPointT<P> {
    fn default() -> (r: Self)
        ensures
            r@.points == Seq::<P>::empty(),
            r@.srid is None,
    {
        MultiPointT::new()
    }
}

/// Parses a MultiPoint body: a count, then that many self-describing point
/// geometries. Each element decodes under its own header; the container's
/// SRID stays on the container.
pub open spec fn spec_read_multipoint_body<P: types::Point>(
    bytes: Seq<u8>,
    pos: int,
    is_be: bool,
    srid: Option<i32>,
) -> Result<(MultiPointModel<P>, int), Error> {
    match spec_read_u32(bytes, pos, is_be) {
        Ok((n, p1)) => match spec_read_point_elems::<P>(bytes, p1, n as int) {
            Ok((pts, p2)) => Ok((MultiPointModel { points: pts, srid }, p2)),
            Err(e) => Err(e),
        },
        Err(e) => Err(e),
    }
}

/// Reads a MultiPoint body.
pub(crate) fn read_multipoint_body<P: types::Point>(
    raw: &Vec<u8>,
    pos: &mut usize,
    is_be: bool,
    srid: Option<i32>,
) -> (r: Result<MultiPointT<P>, Error>)
    requires
        *old(pos) <= raw@.len(),
    ensures
        match spec_read_multipoint_body::<P>(raw@, *old(pos) as int, is_be, srid) {
            Ok(vp) => r is Ok && r->Ok_0@ == vp.0 && *final(pos) as int == vp.1,
            Err(e) => r is Err && r->Err_0 == e,
        },
        *old(pos) <= *final(pos) <= raw@.len(),
{
    let n = match read_u32(raw, pos, is_be) {
        Ok(v) => v,
        Err(e) => {
            return Err(e);
        },
    };
    let mut points: Vec<P> = Vec::new();
    let mut i: u32 = 0;
    while i < n
        invariant
            i <= n,
            *old(pos) <= *pos <= raw@.len(),
            points@.len() == i as int,
            spec_read_u32(raw@, *old(pos) as int, is_be) matches Ok(np) && np.0 == n,
            ({
                let whole = spec_read_point_elems::<P>(
                    raw@,
                    spec_read_u32(raw@, *old(pos) as int, is_be)->Ok_0.1,
                    n as int,
                );
                match spec_read_point_elems::<P>(raw@, *pos as int, (n - i) as int) {
                    Ok(vp) => whole == Ok::<(Seq<P>, int), Error>((points@ + vp.0, vp.1)),
                    Err(e) => whole == Err::<(Seq<P>, int), Error>(e),
                }
            }),
        decreases n - i,
    {
        let ghost points_prev = points@;
        match read_point_ewkb::<P>(raw, pos) {
            Ok(p) => {
                points.push(p);
                proof {
                    match spec_read_point_elems::<P>(raw@, *pos as int, n - i - 1) {
                        Ok(vp) => {
                            assert(points_prev + (seq![p] + vp.0) =~= points@ + vp.0);
                        },
                        Err(e) => {},
                    }
                }
            },
            Err(e) => {
                return Err(e);
            },
        }
        i = i + 1;
    }
    proof {
        assert(points@ + Seq::<P>::empty() =~= points@);
    }
    Ok(MultiPointT { points, srid })
}

impl<P: types::Point + EwkbRead> EwkbRead for MultiPointT<P> {
    open spec fn spec_point_type() -> PointType {
        P::spec_point_type()
    }

    open spec fn spec_read(bytes: Seq<u8>, pos: int) -> Result<(MultiPointModel<P>, int), Error> {
        match spec_read_header(bytes, pos) {
            Ok((h, p)) => Self::spec_read_body(bytes, p, h.0, h.1, h.2),
            Err(e) => Err(e),
        }
    }

    open spec fn spec_read_body(bytes: Seq<u8>, pos: int, is_be: bool, type_id: u32, srid: Option<
        i32,
    >) -> Result<(MultiPointModel<P>, int), Error> {
        spec_read_multipoint_body::<P>(bytes, pos, is_be, srid)
    }

    fn point_type() -> (t: PointType) {
        P::point_type()
    }

    fn read_ewkb(raw: &Vec<u8>, pos: &mut usize) -> (r: Result<Self, Error>) {
        let (is_be, type_id, srid) = match read_header(raw, pos) {
            Ok(h) => h,
            Err(e) => {
                return Err(e);
            },
        };
        Self::read_ewkb_body(raw, pos, is_be, type_id, srid)
    }

    fn read_ewkb_body(raw: &Vec<u8>, pos: &mut usize, is_be: bool, type_id: u32, srid: Option<
        i32,
    >) -> (r: Result<Self, Error>) {
        read_multipoint_body::<P>(raw, pos, is_be, srid)
    }
}

// --- Writing a MultiPoint ---

/// The concatenated encodings of MultiPoint elements: each point a full
/// self-describing geometry with no SRID of its own.
pub open spec fn spec_point_elems_bytes<P: types::Point>(
    points: Seq<P>,
    point_type: PointType,
) -> Seq<u8>
    decreases points.len(),
{
    if points.len() == 0 {
        Seq::<u8>::empty()
    } else {
        spec_point_ewkb_bytes(points[0], point_type, None::<i32>) + spec_point_elems_bytes::<P>(
            points.drop_first(),
            point_type,
        )
    }
}

/// Appending one point appends its self-describing encoding.
pub proof fn lemma_point_elems_bytes_push<P: types::Point>(
    points: Seq<P>,
    point_type: PointType,
    x: P,
)
    ensures
        spec_point_elems_bytes::<P>(points.push(x), point_type) == spec_point_elems_bytes::<P>(
            points,
            point_type,
        ) + spec_point_ewkb_bytes(x, point_type, None::<i32>),
    decreases points.len(),
{
    let s = points.push(x);
    if points.len() == 0 {
        assert(s[0] == x);
        assert(s.drop_first() =~= Seq::<P>::empty());
        assert(spec_point_elems_bytes::<P>(s, point_type) == spec_point_ewkb_bytes(
            x,
            point_type,
            None::<i32>,
        ) + spec_point_elems_bytes::<P>(Seq::<P>::empty(), point_type));
        assert(spec_point_ewkb_bytes(x, point_type, None::<i32>) + Seq::<u8>::empty() =~= Seq::<
            u8,
        >::empty() + spec_point_ewkb_bytes(x, point_type, None::<i32>));
    } else {
        assert(s[0] == points[0]);
        assert(s.drop_first() =~= points.drop_first().push(x));
        lemma_point_elems_bytes_push::<P>(points.drop_first(), point_type, x);
        assert(spec_point_elems_bytes::<P>(s, point_type) == spec_point_ewkb_bytes(
            points[0],
            point_type,
            None::<i32>,
        ) + (spec_point_elems_bytes::<P>(points.drop_first(), point_type) + spec_point_ewkb_bytes(
            x,
            point_type,
            None::<i32>,
        )));
        assert(spec_point_ewkb_bytes(points[0], point_type, None::<i32>) + (
        spec_point_elems_bytes::<P>(points.drop_first(), point_type) + spec_point_ewkb_bytes(
            x,
            point_type,
            None::<i32>,
        )) =~= (spec_point_ewkb_bytes(points[0], point_type, None::<i32>)
            + spec_point_elems_bytes::<P>(points.drop_first(), point_type))
            + spec_point_ewkb_bytes(x, point_type, None::<i32>));
    }
}

/// The body bytes of a MultiPoint: the count, then each point as a full
/// self-describing geometry with no SRID of its own.
pub open spec fn spec_multipoint_body_bytes<P: types::Point>(
    points: Seq<P>,
    point_type: PointType,
) -> Seq<u8> {
    u32_le_bytes(points.len() as u32) + spec_point_elems_bytes::<P>(points, point_type)
}

/// Borrowing write adapter for a MultiPoint.
pub struct EwkbMultiPoint<'a, P: types::Point> {
    pub geom: &'a MultiPointT<P>,
    pub srid: Option<i32>,
    pub point_type: PointType,
}

impl<'a, P: types::Point> EwkbWrite for EwkbMultiPoint<'a, P> {
    open spec fn spec_type_id(&self) -> u32 {
        0x04u32 | spec_wkb_type_id(self.point_type, self.srid is Some)
    }

    open spec fn spec_opt_srid(&self) -> Option<i32> {
        self.srid
    }

    open spec fn spec_body_bytes(&self) -> Seq<u8> {
        spec_multipoint_body_bytes(self.geom@.points, self.point_type)
    }

    fn opt_srid(&self) -> (r: Option<i32>) {
        self.srid
    }

    fn type_id(&self) -> (r: u32) {
        0x04 | Self::wkb_type_id(&self.point_type, self.srid)
    }

    fn write_ewkb_body(&self, w: &mut Vec<u8>) {
        write_u32_le(w, #[verifier::truncate] (self.geom.points.len() as u32));
        let points = &self.geom.points;
        let mut i: usize = 0;
        while i < points.len()
            invariant
                i <= points@.len(),
                w@ == old(w)@ + u32_le_bytes(points@.len() as u32) + spec_point_elems_bytes::<P>(
                    points@.take(i as int),
                    self.point_type,
                ),
            decreases points@.len() - i,
        {
            let wkb = EwkbPoint { geom: &points[i], srid: None, point_type: self.point_type };
            wkb.write_ewkb(w);
            proof {
                lemma_point_elems_bytes_push::<P>(
                    points@.take(i as int),
                    self.point_type,
                    points@[i as int],
                );
                assert(points@.take(i as int).push(points@[i as int]) =~= points@.take(
                    i as int + 1,
                ));
            }
            i = i + 1;
        }
        proof {
            assert(points@.take(points@.len() as int) =~= points@);
            assert(w@ =~= old(w)@ + self.spec_body_bytes());
        }
    }
}

impl<P: types::Point + EwkbRead> MultiPointT<P> {
    /// Borrows this MultiPoint for writing, under its own SRID and `P`'s
    /// shape.
    pub fn as_ewkb<'a>(&'a self) -> (r: EwkbMultiPoint<'a, P>)
        ensures
            r.geom == self,
            r.srid == self@.srid,
            r.point_type == P::spec_point_type(),
    {
        EwkbMultiPoint { geom: self, srid: self.srid, point_type: P::point_type() }
    }
}

/// OGC MultiPoint type
pub type MultiPoint = MultiPointT<crate::ewkb::point::Point>;

/// OGC MultiPointZ type
pub type MultiPointZ = MultiPointT<crate::ewkb::point::PointZ>;

/// OGC MultiPointM type
pub type MultiPointM = MultiPointT<crate::ewkb::point::PointM>;

/// OGC MultiPointZM type
pub type MultiPointZM = MultiPointT<crate::ewkb::point::PointZM>;

} // verus!
