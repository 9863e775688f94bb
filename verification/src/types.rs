//! The point capability: what every point shape offers the generic codec.
//!
//! The four EWKB point shapes (2D, Z, M, ZM) all implement [`Point`]. A
//! coordinate is carried as the 64 bits of its IEEE-754 representation, so
//! the codec treats it as an opaque `u64` and round-trips it exactly.

use crate::ewkb::{spec_type_has_m, spec_type_has_z, EwkbRead};
use vstd::prelude::*;

verus! {

/// A point shape: accessors for the coordinate bits, a constructor from
/// optional coordinates, and the facts the generic codec needs about them.
///
/// `make` is the mathematical constructor: the value built from `x`, `y`,
/// the optional `z` and `m` (each kept only when the shape models it, and
/// defaulted to the bits of `0.0`, which are all zero, when the shape models
/// it but none was supplied), and the SRID.
pub trait Point: EwkbRead {
    /// The IEEE-754 bits of the x coordinate.
    spec fn spec_x(self) -> u64;

    /// The IEEE-754 bits of the y coordinate.
    spec fn spec_y(self) -> u64;

    /// The IEEE-754 bits of the z coordinate, on shapes that model one.
    spec fn spec_opt_z(self) -> Option<u64>;

    /// The IEEE-754 bits of the m coordinate, on shapes that model one.
    spec fn spec_opt_m(self) -> Option<u64>;

    /// The SRID carried by this value.
    spec fn spec_srid(self) -> Option<i32>;

    /// The value built from the given coordinates and SRID.
    spec fn make(x: u64, y: u64, z: Option<u64>, m: Option<u64>, srid: Option<i32>) -> Self;

    fn x(&self) -> (r: u64)
        ensures
            r == self.spec_x(),
    ;

    fn y(&self) -> (r: u64)
        ensures
            r == self.spec_y(),
    ;

    fn opt_z(&self) -> (r: Option<u64>)
        ensures
            r == self.spec_opt_z(),
    ;

    fn opt_m(&self) -> (r: Option<u64>)
        ensures
            r == self.spec_opt_m(),
    ;

    fn srid(&self) -> (r: Option<i32>)
        ensures
            r == self.spec_srid(),
    ;

    /// Builds the shape from coordinates read off the wire, dropping the
    /// components the shape does not model.
    fn new_from_opt_vals(x: u64, y: u64, z: Option<u64>, m: Option<u64>, srid: Option<i32>) -> (p:
        Self)
        ensures
            p == Self::make(x, y, z, m, srid),
    ;

    /// What `make` does to each accessor.
    proof fn lemma_make(x: u64, y: u64, z: Option<u64>, m: Option<u64>, srid: Option<i32>)
        ensures
            ({
                let p = Self::make(x, y, z, m, srid);
                &&& p.spec_x() == x
                &&& p.spec_y() == y
                &&& p.spec_opt_z() == (if spec_type_has_z(Self::spec_point_type()) {
                    Some(
                        match z {
                            Some(v) => v,
                            None => 0u64,
                        },
                    )
                } else {
                    None::<u64>
                })
                &&& p.spec_opt_m() == (if spec_type_has_m(Self::spec_point_type()) {
                    Some(
                        match m {
                            Some(v) => v,
                            None => 0u64,
                        },
                    )
                } else {
                    None::<u64>
                })
                &&& p.spec_srid() == srid
            }),
    ;

    /// A value is nothing but its accessors: rebuilding from them gives it back.
    proof fn lemma_ext(p: Self)
        ensures
            Self::make(p.spec_x(), p.spec_y(), p.spec_opt_z(), p.spec_opt_m(), p.spec_srid()) == p,
    ;

    /// A shape models z (resp. m) on every value or on none.
    proof fn lemma_shape(p: Self)
        ensures
            (p.spec_opt_z() is Some) == spec_type_has_z(Self::spec_point_type()),
            (p.spec_opt_m() is Some) == spec_type_has_m(Self::spec_point_type()),
    ;
}

} // verus!
