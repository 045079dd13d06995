//! Vector and matrix values in the form in which shader registers hold them.
//!
//! A floating-point component is carried as its IEEE 754 binary32 bit
//! pattern. The library moves these words into registers and never does
//! arithmetic on them.

use vstd::prelude::*;

verus! {

/// A vector of four floating-point components, each one 32-bit word.
#[derive(Clone, Copy, Debug, PartialEq, Eq)]
pub struct FVec4 {
    w: u32,
    z: u32,
    y: u32,
    x: u32,
}

impl FVec4 {
    pub closed spec fn spec_x(self) -> u32 {
        self.x
    }

    pub closed spec fn spec_y(self) -> u32 {
        self.y
    }

    pub closed spec fn spec_z(self) -> u32 {
        self.z
    }

    pub closed spec fn spec_w(self) -> u32 {
        self.w
    }

    /// The vector with the given component words.
    pub fn new(x: u32, y: u32, z: u32, w: u32) -> (v: FVec4)
        ensures
            v.x() == x,
            v.y() == y,
            v.z() == z,
            v.w() == w,
    {
        FVec4 { w, z, y, x }
    }

    /// The word of the `x` component.
    #[verifier::when_used_as_spec(spec_x)]
    pub fn x(self) -> (r: u32)
        ensures
            r == self.x(),
    {
        self.x
    }

    /// The word of the `y` component.
    #[verifier::when_used_as_spec(spec_y)]
    pub fn y(self) -> (r: u32)
        ensures
            r == self.y(),
    {
        self.y
    }

    /// The word of the `z` component.
    #[verifier::when_used_as_spec(spec_z)]
    pub fn z(self) -> (r: u32)
        ensures
            r == self.z(),
    {
        self.z
    }

    /// The word of the `w` component.
    #[verifier::when_used_as_spec(spec_w)]
    pub fn w(self) -> (r: u32)
        ensures
            r == self.w(),
    {
        self.w
    }
}

/// A vector of four 8-bit integer components, packed into one 32-bit
/// register word with `x` in the lowest byte and `w` in the highest.
#[derive(Clone, Copy, Debug, PartialEq, Eq)]
pub struct IVec {
    raw: u32,
}

impl IVec {
    /// The packed register word.
    pub closed spec fn spec_raw(self) -> u32 {
        self.raw
    }

    pub open spec fn spec_x(self) -> u8 {
        (self.raw() & 0xff) as u8
    }

    pub open spec fn spec_y(self) -> u8 {
        ((self.raw() >> 8) & 0xff) as u8
    }

    pub open spec fn spec_z(self) -> u8 {
        ((self.raw() >> 16) & 0xff) as u8
    }

    pub open spec fn spec_w(self) -> u8 {
        ((self.raw() >> 24) & 0xff) as u8
    }

    /// Packs four components into one register word.
    pub fn new(x: u8, y: u8, z: u8, w: u8) -> (v: IVec)
        ensures
            v.x() == x,
            v.y() == y,
            v.z() == z,
            v.w() == w,
    {
        let raw: u32 = (x as u32) | ((y as u32) << 8) | ((z as u32) << 16) | ((w as u32) << 24);
        assert((raw & 0xff) as u8 == x && ((raw >> 8) & 0xff) as u8 == y && ((raw >> 16) & 0xff) as u8
            == z && ((raw >> 24) & 0xff) as u8 == w) by (bit_vector)
            requires
                raw == (x as u32) | ((y as u32) << 8) | ((z as u32) << 16) | ((w as u32) << 24),
        ;
        IVec { raw }
    }

    /// The packed register word.
    #[verifier::when_used_as_spec(spec_raw)]
    pub fn raw(self) -> (r: u32)
        ensures
            r == self.raw(),
    {
        self.raw
    }

    /// The `x` component.
    #[verifier::when_used_as_spec(spec_x)]
    pub fn x(self) -> (r: u8)
        ensures
            r == self.x(),
    {
        (self.raw & 0xff) as u8
    }

    /// The `y` component.
    #[verifier::when_used_as_spec(spec_y)]
    pub fn y(self) -> (r: u8)
        ensures
            r == self.y(),
    {
        ((self.raw >> 8) & 0xff) as u8
    }

    /// The `z` component.
    #[verifier::when_used_as_spec(spec_z)]
    pub fn z(self) -> (r: u8)
        ensures
            r == self.z(),
    {
        ((self.raw >> 16) & 0xff) as u8
    }

    /// The `w` component.
    #[verifier::when_used_as_spec(spec_w)]
    pub fn w(self) -> (r: u8)
        ensures
            r == self.w(),
    {
        ((self.raw >> 24) & 0xff) as u8
    }
}

/// A matrix of four rows, each one [`FVec4`], kept in the order in which the
/// rows go into consecutive registers.
#[derive(Clone, Copy, Debug, PartialEq, Eq)]
pub struct Matrix4 {
    rows: [FVec4; 4],
}

impl Matrix4 {
    /// Row `k` of the matrix, for `k` from 0 to 3.
    pub closed spec fn row(self, k: int) -> FVec4 {
        self.rows[k]
    }

    /// The matrix with the given rows.
    pub fn from_rows(rows: [FVec4; 4]) -> (m: Matrix4)
        ensures
            forall|k: int| 0 <= k < 4 ==> m.row(k) == rows[k],
    {
        Matrix4 { rows }
    }

    /// The matrix with the given sixteen cells. Four cells make a row, and
    /// within a row the cells stand in the order `w`, `z`, `y`, `x`.
    pub fn from_cells_wzyx(cells: [u32; 16]) -> (m: Matrix4)
        ensures
            forall|k: int|
                0 <= k < 4 ==> {
                    &&& (#[trigger] m.row(k)).w() == cells[4 * k]
                    &&& m.row(k).z() == cells[4 * k + 1]
                    &&& m.row(k).y() == cells[4 * k + 2]
                    &&& m.row(k).x() == cells[4 * k + 3]
                },
    {
        let r0 = FVec4 { w: cells[0], z: cells[1], y: cells[2], x: cells[3] };
        let r1 = FVec4 { w: cells[4], z: cells[5], y: cells[6], x: cells[7] };
        let r2 = FVec4 { w: cells[8], z: cells[9], y: cells[10], x: cells[11] };
        let r3 = FVec4 { w: cells[12], z: cells[13], y: cells[14], x: cells[15] };
        Matrix4 { rows: [r0, r1, r2, r3] }
    }

    /// The four rows, first row first.
    pub fn rows_wzyx(self) -> (rows: [FVec4; 4])
        ensures
            forall|k: int| 0 <= k < 4 ==> rows[k] == self.row(k),
    {
        self.rows
    }
}

/// The matrix type of the uniform registers.
pub type Matrix = Matrix4;

} // verus!
