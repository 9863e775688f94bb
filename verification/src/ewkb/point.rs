//! The four point shapes (2D, Z, M, ZM) and their codec.
//!
//! A point body on the wire is `x`, `y`, then `z` if the type-id word flags
//! it and `m` if the type-id word flags it, each an 8-byte IEEE-754 float.
//! Reading into a shape with fewer dimensions than the wire carries silently
//! drops the unsupported components; that lossy widen-down conversion is
//! [`Point::make`]'s job and is intentional, not an error.

use crate::error::Error;
use crate::ewkb::encoding::{read_u64, spec_read_u64, u64_le_bytes, write_u64_le};
use crate::ewkb::{
    has_m, has_z, read_header, spec_has_m, spec_has_z, spec_header_bytes, spec_read_header,
    spec_wkb_type_id, EwkbRead, EwkbWrite,
};
use crate::types;
use vstd::prelude::*;

verus! {

/// The four point shapes.
#[derive(PartialEq, Eq, Structural, Clone, Copy, Debug)]
pub enum PointType {
    Point,
    PointZ,
    PointM,
    PointZM,
}

// --- Reading a point body ---

/// Parses the raw coordinates of a point body: `x`, `y`, then `z` and `m`
/// as the type-id word flags them. Yields `(x, y, z, m)` and the position
/// just past the body.
pub open spec fn spec_read_point_raw(bytes: Seq<u8>, pos: int, is_be: bool, type_id: u32) -> Result<
    ((u64, u64, Option<u64>, Option<u64>), int),
    Error,
> {
    match spec_read_u64(bytes, pos, is_be) {
        Ok((x, p1)) => match spec_read_u64(bytes, p1, is_be) {
            Ok((y, p2)) => {
                let zr = if spec_has_z(type_id) {
                    match spec_read_u64(bytes, p2, is_be) {
                        Ok((z, p3)) => Ok((Some(z), p3)),
                        Err(e) => Err(e),
                    }
                } else {
                    Ok((None::<u64>, p2))
                };
                match zr {
                    Ok((z, p3)) => {
                        let mr = if spec_has_m(type_id) {
                            match spec_read_u64(bytes, p3, is_be) {
                                Ok((m, p4)) => Ok((Some(m), p4)),
                                Err(e) => Err(e),
                            }
                        } else {
                            Ok((None::<u64>, p3))
                        };
                        match mr {
                            Ok((m, p4)) => Ok(((x, y, z, m), p4)),
                            Err(e) => Err(e),
                        }
                    },
                    Err(e) => Err(e),
                }
            },
            Err(e) => Err(e),
        },
        Err(e) => Err(e),
    }
}

/// Parses a point body and builds `P` from the coordinates, dropping what
/// `P` does not model.
pub open spec fn spec_read_point_body<P: types::Point>(
    bytes: Seq<u8>,
    pos: int,
    is_be: bool,
    type_id: u32,
    srid: Option<i32>,
) -> Result<(P, int), Error> {
    match spec_read_point_raw(bytes, pos, is_be, type_id) {
        Ok((c, p)) => Ok((P::make(c.0, c.1, c.2, c.3, srid), p)),
        Err(e) => Err(e),
    }
}

/// Reads a point body off the wire into any point shape.
pub(crate) fn read_point_body<P: types::Point>(
    raw: &Vec<u8>,
    pos: &mut usize,
    is_be: bool,
    type_id: u32,
    srid: Option<i32>,
) -> (r: Result<P, Error>)
    requires
        *old(pos) <= raw@.len(),
    ensures
        match spec_read_point_body::<P>(raw@, *old(pos) as int, is_be, type_id, srid) {
            Ok(vp) => r == Ok::<P, Error>(vp.0) && *final(pos) as int == vp.1,
            Err(e) => r == Err::<P, Error>(e),
        },
        *old(pos) <= *final(pos) <= raw@.len(),
{
    let x = match crate::ewkb::encoding::read_u64(raw, pos, is_be) {
        Ok(v) => v,
        Err(e) => {
            return Err(e);
        },
    };
    let y = match crate::ewkb::encoding::read_u64(raw, pos, is_be) {
        Ok(v) => v,
        Err(e) => {
            return Err(e);
        },
    };
    let z = if has_z(type_id) {
        match crate::ewkb::encoding::read_u64(raw, pos, is_be) {
            Ok(v) => Some(v),
            Err(e) => {
                return Err(e);
            },
        }
    } else {
        None
    };
    let m = if has_m(type_id) {
        match crate::ewkb::encoding::read_u64(raw, pos, is_be) {
            Ok(v) => Some(v),
            Err(e) => {
                return Err(e);
            },
        }
    } else {
        None
    };
    Ok(P::new_from_opt_vals(x, y, z, m, srid))
}

// --- Writing a point body ---

/// The body bytes of a point given as raw coordinates: `x`, `y`, then the
/// `z` and `m` that are present, little-endian.
pub open spec fn spec_coords_bytes(x: u64, y: u64, z: Option<u64>, m: Option<u64>) -> Seq<u8> {
    u64_le_bytes(x) + u64_le_bytes(y) + (match z {
        Some(zv) => u64_le_bytes(zv),
        None => Seq::<u8>::empty(),
    }) + (match m {
        Some(mv) => u64_le_bytes(mv),
        None => Seq::<u8>::empty(),
    })
}

/// The body bytes of a point: `x`, `y`, then the `z` and `m` the shape
/// models, little-endian.
pub open spec fn spec_point_body_bytes<P: types::Point>(p: P) -> Seq<u8> {
    spec_coords_bytes(p.spec_x(), p.spec_y(), p.spec_opt_z(), p.spec_opt_m())
}

/// The full encoding of a point written under the given shape and SRID.
pub open spec fn spec_point_ewkb_bytes<P: types::Point>(
    p: P,
    point_type: PointType,
    srid: Option<i32>,
) -> Seq<u8> {
    spec_header_bytes(0x01u32 | spec_wkb_type_id(point_type, srid is Some), srid)
        + spec_point_body_bytes(p)
}

/// Writes a point body.
pub(crate) fn write_point_body<P: types::Point>(p: &P, w: &mut Vec<u8>)
    ensures
        final(w)@ == old(w)@ + spec_point_body_bytes(*p),
{
    write_u64_le(w, p.x());
    write_u64_le(w, p.y());
    match p.opt_z() {
        Some(z) => write_u64_le(w, z),
        None => (),
    }
    match p.opt_m() {
        Some(m) => write_u64_le(w, m),
        None => (),
    }
    proof {
        assert(w@ =~= old(w)@ + spec_point_body_bytes(*p));
    }
}

// --- The write adapter ---

/// Borrowing write adapter for a point: the borrowed point, the SRID to
/// emit, and the point shape whose Z/M flags go into the type-id word.
pub struct EwkbPoint<'a, P: types::Point> {
    pub geom: &'a P,
    pub srid: Option<i32>,
    pub point_type: PointType,
}

impl<'a, P: types::Point> EwkbWrite for EwkbPoint<'a, P> {
    open spec fn spec_type_id(&self) -> u32 {
        0x01u32 | spec_wkb_type_id(self.point_type, self.srid is Some)
    }

    open spec fn spec_opt_srid(&self) -> Option<i32> {
        self.srid
    }

    open spec fn spec_body_bytes(&self) -> Seq<u8> {
        spec_point_body_bytes(*self.geom)
    }

    fn opt_srid(&self) -> (r: Option<i32>) {
        self.srid
    }

    fn type_id(&self) -> (r: u32) {
        0x01 | Self::wkb_type_id(&self.point_type, self.srid)
    }

    fn write_ewkb_body(&self, w: &mut Vec<u8>) {
        write_point_body(self.geom, w);
    }
}

/// Borrowing view of a point value, ready to write.
pub trait AsEwkbPoint<'a>: types::Point {
    fn as_ewkb(&'a self) -> (r: EwkbPoint<'a, Self>)
        ensures
            r.geom == self,
            r.srid == self.spec_srid(),
            r.point_type == Self::spec_point_type(),
    ;
}

// --- The 2D point ---

/// A 2D point: x, y, and an optional SRID. Coordinates are IEEE-754 bit
/// patterns.
#[derive(PartialEq, Clone, Copy, Debug, Default)]
pub struct Point {
    pub x: u64,
    pub y: u64,
    pub srid: Option<i32>,
}

impl Point {
    pub fn new(x: u64, y: u64, srid: Option<i32>) -> (p: Self)
        ensures
            p == (Point { x, y, srid }),
    {
        Point { x, y, srid }
    }

    pub fn new_from_opt_vals(x: u64, y: u64, z: Option<u64>, m: Option<u64>, srid: Option<
        i32,
    >) -> (p: Self)
        ensures
            p == (Point { x, y, srid }),
    {
        Point::new(x, y, srid)
    }

    pub fn x(&self) -> (r: u64)
        ensures
            r == self.x,
    {
        self.x
    }

    pub fn y(&self) -> (r: u64)
        ensures
            r == self.y,
    {
        self.y
    }
}

impl View for Point {
    type V = Point;

    open spec fn view(&self) -> Point {
        *self
    }
}

impl types::Point for Point {
    open spec fn spec_x(self) -> u64 {
        self.x
    }

    open spec fn spec_y(self) -> u64 {
        self.y
    }

    open spec fn spec_opt_z(self) -> Option<u64> {
        None
    }

    open spec fn spec_opt_m(self) -> Option<u64> {
        None
    }

    open spec fn spec_srid(self) -> Option<i32> {
        self.srid
    }

    open spec fn make(x: u64, y: u64, z: Option<u64>, m: Option<u64>, srid: Option<i32>) -> Self {
        Point { x, y, srid }
    }

    fn x(&self) -> (r: u64) {
        self.x
    }

    fn y(&self) -> (r: u64) {
        self.y
    }

    fn opt_z(&self) -> (r: Option<u64>) {
        None
    }

    fn opt_m(&self) -> (r: Option<u64>) {
        None
    }

    fn srid(&self) -> (r: Option<i32>) {
        self.srid
    }

    fn new_from_opt_vals(x: u64, y: u64, z: Option<u64>, m: Option<u64>, srid: Option<i32>) -> (p:
        Self) {
        Point::new(x, y, srid)
    }

    proof fn lemma_make(x: u64, y: u64, z: Option<u64>, m: Option<u64>, srid: Option<i32>) {
    }

    proof fn lemma_ext(p: Self) {
    }

    proof fn lemma_shape(p: Self) {
    }
}

impl EwkbRead for Point {
    open spec fn spec_point_type() -> PointType {
        PointType::Point
    }

    open spec fn spec_read(bytes: Seq<u8>, pos: int) -> Result<(Self, int), Error> {
        match spec_read_header(bytes, pos) {
            Ok((h, p)) => Self::spec_read_body(bytes, p, h.0, h.1, h.2),
            Err(e) => Err(e),
        }
    }

    open spec fn spec_read_body(bytes: Seq<u8>, pos: int, is_be: bool, type_id: u32, srid: Option<
        i32,
    >) -> Result<(Self, int), Error> {
        match spec_read_point_raw(bytes, pos, is_be, type_id) {
            Ok((c, p)) => Ok((Point { x: c.0, y: c.1, srid }, p)),
            Err(e) => Err(e),
        }
    }

    fn point_type() -> (t: PointType) {
        PointType::Point
    }

    fn read_ewkb(raw: &Vec<u8>, pos: &mut usize) -> (r: Result<Self, Error>) {
        let (is_be, type_id, srid) = match read_header(raw, pos) {
            Ok(h) => h,
            Err(e) => {
                return Err(e);
            },
        };
        Self::read_ewkb_body(raw, pos, is_be, type_id, srid)
    }

    fn read_ewkb_body(raw: &Vec<u8>, pos: &mut usize, is_be: bool, type_id: u32, srid: Option<
        i32,
    >) -> (r: Result<Self, Error>) {
        let x = match read_u64(raw, pos, is_be) {
            Ok(v) => v,
            Err(e) => {
                return Err(e);
            },
        };
        let y = match read_u64(raw, pos, is_be) {
            Ok(v) => v,
            Err(e) => {
                return Err(e);
            },
        };
        let z = if has_z(type_id) {
            match read_u64(raw, pos, is_be) {
                Ok(v) => Some(v),
                Err(e) => {
                    return Err(e);
                },
            }
        } else {
            None
        };
        let m = if has_m(type_id) {
            match read_u64(raw, pos, is_be) {
                Ok(v) => Some(v),
                Err(e) => {
                    return Err(e);
                },
            }
        } else {
            None
        };
        Ok(Point::new_from_opt_vals(x, y, z, m, srid))
    }
}

impl<'a> AsEwkbPoint<'a> for Point {
    fn as_ewkb(&'a self) -> (r: EwkbPoint<'a, Point>) {
        EwkbPoint { geom: self, srid: self.srid, point_type: PointType::Point }
    }
}

// --- The point with Z ---

/// A 3D point: x, y, z, and an optional SRID.
#[derive(PartialEq, Clone, Copy, Debug, Default)]
pub struct PointZ {
    pub x: u64,
    pub y: u64,
    pub z: u64,
    pub srid: Option<i32>,
}

impl PointZ {
    pub fn new(x: u64, y: u64, z: u64, srid: Option<i32>) -> (p: Self)
        ensures
            p == (PointZ { x, y, z, srid }),
    {
        PointZ { x, y, z, srid }
    }

    pub fn new_from_opt_vals(x: u64, y: u64, z: Option<u64>, m: Option<u64>, srid: Option<
        i32,
    >) -> (p: Self)
        ensures
            p == (PointZ {
                x,
                y,
                z: match z {
                    Some(v) => v,
                    None => 0u64,
                },
                srid,
            }),
    {
        PointZ::new(
            x,
            y,
            match z {
                Some(v) => v,
                None => 0,
            },
            srid,
        )
    }
}

impl View for PointZ {
    type V = PointZ;

    open spec fn view(&self) -> PointZ {
        *self
    }
}

impl types::Point for PointZ {
    open spec fn spec_x(self) -> u64 {
        self.x
    }

    open spec fn spec_y(self) -> u64 {
        self.y
    }

    open spec fn spec_opt_z(self) -> Option<u64> {
        Some(self.z)
    }

    open spec fn spec_opt_m(self) -> Option<u64> {
        None
    }

    open spec fn spec_srid(self) -> Option<i32> {
        self.srid
    }

    open spec fn make(x: u64, y: u64, z: Option<u64>, m: Option<u64>, srid: Option<i32>) -> Self {
        PointZ {
            x,
            y,
            z: match z {
                Some(v) => v,
                None => 0u64,
            },
            srid,
        }
    }

    fn x(&self) -> (r: u64) {
        self.x
    }

    fn y(&self) -> (r: u64) {
        self.y
    }

    fn opt_z(&self) -> (r: Option<u64>) {
        Some(self.z)
    }

    fn opt_m(&self) -> (r: Option<u64>) {
        None
    }

    fn srid(&self) -> (r: Option<i32>) {
        self.srid
    }

    fn new_from_opt_vals(x: u64, y: u64, z: Option<u64>, m: Option<u64>, srid: Option<i32>) -> (p:
        Self) {
        PointZ::new_from_opt_vals(x, y, z, m, srid)
    }

    proof fn lemma_make(x: u64, y: u64, z: Option<u64>, m: Option<u64>, srid: Option<i32>) {
    }

    proof fn lemma_ext(p: Self) {
    }

    proof fn lemma_shape(p: Self) {
    }
}

impl EwkbRead for PointZ {
    open spec fn spec_point_type() -> PointType {
        PointType::PointZ
    }

    open spec fn spec_read(bytes: Seq<u8>, pos: int) -> Result<(Self, int), Error> {
        match spec_read_header(bytes, pos) {
            Ok((h, p)) => Self::spec_read_body(bytes, p, h.0, h.1, h.2),
            Err(e) => Err(e),
        }
    }

    open spec fn spec_read_body(bytes: Seq<u8>, pos: int, is_be: bool, type_id: u32, srid: Option<
        i32,
    >) -> Result<(Self, int), Error> {
        match spec_read_point_raw(bytes, pos, is_be, type_id) {
            Ok((c, p)) => Ok((PointZ {
                x: c.0,
                y: c.1,
                z: match c.2 {
                    Some(v) => v,
                    None => 0u64,
                },
                srid,
            }, p)),
            Err(e) => Err(e),
        }
    }

    fn point_type() -> (t: PointType) {
        PointType::PointZ
    }

    fn read_ewkb(raw: &Vec<u8>, pos: &mut usize) -> (r: Result<Self, Error>) {
        let (is_be, type_id, srid) = match read_header(raw, pos) {
            Ok(h) => h,
            Err(e) => {
                return Err(e);
            },
        };
        Self::read_ewkb_body(raw, pos, is_be, type_id, srid)
    }

    fn read_ewkb_body(raw: &Vec<u8>, pos: &mut usize, is_be: bool, type_id: u32, srid: Option<
        i32,
    >) -> (r: Result<Self, Error>) {
        let x = match read_u64(raw, pos, is_be) {
            Ok(v) => v,
            Err(e) => {
                return Err(e);
            },
        };
        let y = match read_u64(raw, pos, is_be) {
            Ok(v) => v,
            Err(e) => {
                return Err(e);
            },
        };
        let z = if has_z(type_id) {
            match read_u64(raw, pos, is_be) {
                Ok(v) => Some(v),
                Err(e) => {
                    return Err(e);
                },
            }
        } else {
            None
        };
        let m = if has_m(type_id) {
            match read_u64(raw, pos, is_be) {
                Ok(v) => Some(v),
                Err(e) => {
                    return Err(e);
                },
            }
        } else {
            None
        };
        Ok(PointZ::new_from_opt_vals(x, y, z, m, srid))
    }
}

impl<'a> AsEwkbPoint<'a> for PointZ {
    fn as_ewkb(&'a self) -> (r: EwkbPoint<'a, PointZ>) {
        EwkbPoint { geom: self, srid: self.srid, point_type: PointType::PointZ }
    }
}

// --- The point with M ---

/// A measured point: x, y, m, and an optional SRID.
#[derive(PartialEq, Clone, Copy, Debug, Default)]
pub struct PointM {
    pub x: u64,
    pub y: u64,
    pub m: u64,
    pub srid: Option<i32>,
}

impl PointM {
    pub fn new(x: u64, y: u64, m: u64, srid: Option<i32>) -> (p: Self)
        ensures
            p == (PointM { x, y, m, srid }),
    {
        PointM { x, y, m, srid }
    }

    pub fn new_from_opt_vals(x: u64, y: u64, z: Option<u64>, m: Option<u64>, srid: Option<
        i32,
    >) -> (p: Self)
        ensures
            p == (PointM {
                x,
                y,
                m: match m {
                    Some(v) => v,
                    None => 0u64,
                },
                srid,
            }),
    {
        PointM::new(
            x,
            y,
            match m {
                Some(v) => v,
                None => 0,
            },
            srid,
        )
    }
}

impl View for PointM {
    type V = PointM;

    open spec fn view(&self) -> PointM {
        *self
    }
}

impl types::Point for PointM {
    open spec fn spec_x(self) -> u64 {
        self.x
    }

    open spec fn spec_y(self) -> u64 {
        self.y
    }

    open spec fn spec_opt_z(self) -> Option<u64> {
        None
    }

    open spec fn spec_opt_m(self) -> Option<u64> {
        Some(self.m)
    }

    open spec fn spec_srid(self) -> Option<i32> {
        self.srid
    }

    open spec fn make(x: u64, y: u64, z: Option<u64>, m: Option<u64>, srid: Option<i32>) -> Self {
        PointM {
            x,
            y,
            m: match m {
                Some(v) => v,
                None => 0u64,
            },
            srid,
        }
    }

    fn x(&self) -> (r: u64) {
        self.x
    }

    fn y(&self) -> (r: u64) {
        self.y
    }

    fn opt_z(&self) -> (r: Option<u64>) {
        None
    }

    fn opt_m(&self) -> (r: Option<u64>) {
        Some(self.m)
    }

    fn srid(&self) -> (r: Option<i32>) {
        self.srid
    }

    fn new_from_opt_vals(x: u64, y: u64, z: Option<u64>, m: Option<u64>, srid: Option<i32>) -> (p:
        Self) {
        PointM::new_from_opt_vals(x, y, z, m, srid)
    }

    proof fn lemma_make(x: u64, y: u64, z: Option<u64>, m: Option<u64>, srid: Option<i32>) {
    }

    proof fn lemma_ext(p: Self) {
    }

    proof fn lemma_shape(p: Self) {
    }
}

impl EwkbRead for PointM {
    open spec fn spec_point_type() -> PointType {
        PointType::PointM
    }

    open spec fn spec_read(bytes: Seq<u8>, pos: int) -> Result<(Self, int), Error> {
        match spec_read_header(bytes, pos) {
            Ok((h, p)) => Self::spec_read_body(bytes, p, h.0, h.1, h.2),
            Err(e) => Err(e),
        }
    }

    open spec fn spec_read_body(bytes: Seq<u8>, pos: int, is_be: bool, type_id: u32, srid: Option<
        i32,
    >) -> Result<(Self, int), Error> {
        match spec_read_point_raw(bytes, pos, is_be, type_id) {
            Ok((c, p)) => Ok((PointM {
                x: c.0,
                y: c.1,
                m: match c.3 {
                    Some(v) => v,
                    None => 0u64,
                },
                srid,
            }, p)),
            Err(e) => Err(e),
        }
    }

    fn point_type() -> (t: PointType) {
        PointType::PointM
    }

    fn read_ewkb(raw: &Vec<u8>, pos: &mut usize) -> (r: Result<Self, Error>) {
        let (is_be, type_id, srid) = match read_header(raw, pos) {
            Ok(h) => h,
            Err(e) => {
                return Err(e);
            },
        };
        Self::read_ewkb_body(raw, pos, is_be, type_id, srid)
    }

    fn read_ewkb_body(raw: &Vec<u8>, pos: &mut usize, is_be: bool, type_id: u32, srid: Option<
        i32,
    >) -> (r: Result<Self, Error>) {
        let x = match read_u64(raw, pos, is_be) {
            Ok(v) => v,
            Err(e) => {
                return Err(e);
            },
        };
        let y = match read_u64(raw, pos, is_be) {
            Ok(v) => v,
            Err(e) => {
                return Err(e);
            },
        };
        let z = if has_z(type_id) {
            match read_u64(raw, pos, is_be) {
                Ok(v) => Some(v),
                Err(e) => {
                    return Err(e);
                },
            }
        } else {
            None
        };
        let m = if has_m(type_id) {
            match read_u64(raw, pos, is_be) {
                Ok(v) => Some(v),
                Err(e) => {
                    return Err(e);
                },
            }
        } else {
            None
        };
        Ok(PointM::new_from_opt_vals(x, y, z, m, srid))
    }
}

impl<'a> AsEwkbPoint<'a> for PointM {
    fn as_ewkb(&'a self) -> (r: EwkbPoint<'a, PointM>) {
        EwkbPoint { geom: self, srid: self.srid, point_type: PointType::PointM }
    }
}

// --- The point with Z and M ---

/// A 3D measured point: x, y, z, m, and an optional SRID.
#[derive(PartialEq, Clone, Copy, Debug, Default)]
pub struct PointZM {
    pub x: u64,
    pub y: u64,
    pub z: u64,
    pub m: u64,
    pub srid: Option<i32>,
}

impl PointZM {
    pub fn new(x: u64, y: u64, z: u64, m: u64, srid: Option<i32>) -> (p: Self)
        ensures
            p == (PointZM { x, y, z, m, srid }),
    {
        PointZM { x, y, z, m, srid }
    }

    pub fn new_from_opt_vals(x: u64, y: u64, z: Option<u64>, m: Option<u64>, srid: Option<
        i32,
    >) -> (p: Self)
        ensures
            p == (PointZM {
                x,
                y,
                z: match z {
                    Some(v) => v,
                    None => 0u64,
                },
                m: match m {
                    Some(v) => v,
                    None => 0u64,
                },
                srid,
            }),
    {
        PointZM::new(
            x,
            y,
            match z {
                Some(v) => v,
                None => 0,
            },
            match m {
                Some(v) => v,
                None => 0,
            },
            srid,
        )
    }
}

impl View for PointZM {
    type V = PointZM;

    open spec fn view(&self) -> PointZM {
        *self
    }
}

impl types::Point for PointZM {
    open spec fn spec_x(self) -> u64 {
        self.x
    }

    open spec fn spec_y(self) -> u64 {
        self.y
    }

    open spec fn spec_opt_z(self) -> Option<u64> {
        Some(self.z)
    }

    open spec fn spec_opt_m(self) -> Option<u64> {
        Some(self.m)
    }

    open spec fn spec_srid(self) -> Option<i32> {
        self.srid
    }

    open spec fn make(x: u64, y: u64, z: Option<u64>, m: Option<u64>, srid: Option<i32>) -> Self {
        PointZM {
            x,
            y,
            z: match z {
                Some(v) => v,
                None => 0u64,
            },
            m: match m {
                Some(v) => v,
                None => 0u64,
            },
            srid,
        }
    }

    fn x(&self) -> (r: u64) {
        self.x
    }

    fn y(&self) -> (r: u64) {
        self.y
    }

    fn opt_z(&self) -> (r: Option<u64>) {
        Some(self.z)
    }

    fn opt_m(&self) -> (r: Option<u64>) {
        Some(self.m)
    }

    fn srid(&self) -> (r: Option<i32>) {
        self.srid
    }

    fn new_from_opt_vals(x: u64, y: u64, z: Option<u64>, m: Option<u64>, srid: Option<i32>) -> (p:
        Self) {
        PointZM::new_from_opt_vals(x, y, z, m, srid)
    }

    proof fn lemma_make(x: u64, y: u64, z: Option<u64>, m: Option<u64>, srid: Option<i32>) {
    }

    proof fn lemma_ext(p: Self) {
    }

    proof fn lemma_shape(p: Self) {
    }
}

impl EwkbRead for PointZM {
    open spec fn spec_point_type() -> PointType {
        PointType::PointZM
    }

    open spec fn spec_read(bytes: Seq<u8>, pos: int) -> Result<(Self, int), Error> {
        match spec_read_header(bytes, pos) {
            Ok((h, p)) => Self::spec_read_body(bytes, p, h.0, h.1, h.2),
            Err(e) => Err(e),
        }
    }

    open spec fn spec_read_body(bytes: Seq<u8>, pos: int, is_be: bool, type_id: u32, srid: Option<
        i32,
    >) -> Result<(Self, int), Error> {
        match spec_read_point_raw(bytes, pos, is_be, type_id) {
            Ok((c, p)) => Ok((PointZM {
                x: c.0,
                y: c.1,
                z: match c.2 {
                    Some(v) => v,
                    None => 0u64,
                },
                m: match c.3 {
                    Some(v) => v,
                    None => 0u64,
                },
                srid,
            }, p)),
            Err(e) => Err(e),
        }
    }

    fn point_type() -> (t: PointType) {
        PointType::PointZM
    }

    fn read_ewkb(raw: &Vec<u8>, pos: &mut usize) -> (r: Result<Self, Error>) {
        let (is_be, type_id, srid) = match read_header(raw, pos) {
            Ok(h) => h,
            Err(e) => {
                return Err(e);
            },
        };
        Self::read_ewkb_body(raw, pos, is_be, type_id, srid)
    }

    fn read_ewkb_body(raw: &Vec<u8>, pos: &mut usize, is_be: bool, type_id: u32, srid: Option<
        i32,
    >) -> (r: Result<Self, Error>) {
        let x = match read_u64(raw, pos, is_be) {
            Ok(v) => v,
            Err(e) => {
                return Err(e);
            },
        };
        let y = match read_u64(raw, pos, is_be) {
            Ok(v) => v,
            Err(e) => {
                return Err(e);
            },
        };
        let z = if has_z(type_id) {
            match read_u64(raw, pos, is_be) {
                Ok(v) => Some(v),
                Err(e) => {
                    return Err(e);
                },
            }
        } else {
            None
        };
        let m = if has_m(type_id) {
            match read_u64(raw, pos, is_be) {
                Ok(v) => Some(v),
                Err(e) => {
                    return Err(e);
                },
            }
        } else {
            None
        };
        Ok(PointZM::new_from_opt_vals(x, y, z, m, srid))
    }
}

impl<'a> AsEwkbPoint<'a> for PointZM {
    fn as_ewkb(&'a self) -> (r: EwkbPoint<'a, PointZM>) {
        EwkbPoint { geom: self, srid: self.srid, point_type: PointType::PointZM }
    }
}

} // verus!
