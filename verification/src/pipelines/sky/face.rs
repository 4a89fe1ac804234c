//! The six faces of a cubemap, the basis each one carries, and the exact
//! correspondence between texels and directions.

use vstd::prelude::*;
use vstd::arithmetic::div_mod::lemma_div_multiples_vanish;

verus! {

/// Number of faces, and of array layers, of every cubemap.
pub const FACE_COUNT: u32 = 6;

/// A vector of three mathematical integers.
pub struct Direction {
    pub x: int,
    pub y: int,
    pub z: int,
}

/// A vector of three machine integers.
#[derive(Copy, Clone, Debug, PartialEq, Eq, Structural)]
pub struct IVec3 {
    pub x: i64,
    pub y: i64,
    pub z: i64,
}

impl View for IVec3 {
    type V = Direction;

    open spec fn view(&self) -> Direction {
        Direction { x: self.x as int, y: self.y as int, z: self.z as int }
    }
}

impl IVec3 {
    /// The vector `(x, y, z)`.
    pub fn new(x: i64, y: i64, z: i64) -> (v: Self)
        ensures
            v.x == x,
            v.y == y,
            v.z == z,
    {
        Self { x, y, z }
    }
}

/// Scalar product.
pub open spec fn dot(a: Direction, b: Direction) -> int {
    a.x * b.x + a.y * b.y + a.z * b.z
}

/// Vector product.
pub open spec fn cross(a: Direction, b: Direction) -> Direction {
    Direction {
        x: a.y * b.z - a.z * b.y,
        y: a.z * b.x - a.x * b.z,
        z: a.x * b.y - a.y * b.x,
    }
}

/// `forward * f + right * r + up * u`.
pub open spec fn combine(
    forward: Direction,
    f: int,
    right: Direction,
    r: int,
    up: Direction,
    u: int,
) -> Direction {
    Direction {
        x: forward.x * f + right.x * r + up.x * u,
        y: forward.y * f + right.y * r + up.y * u,
        z: forward.z * f + right.z * r + up.z * u,
    }
}

/// Column (or row) of the texel that a direction falls into on a face of
/// `size` texels, where `along` is the direction's component along the
/// face's right (or up) vector and `forward` its component along the
/// face's forward vector: the texel containing `(along / forward + 1) / 2`
/// of the face's width, the far edge counted to the last texel.
pub open spec fn texel_coordinate(along: int, forward: int, size: nat) -> nat
    recommends
        forward > 0,
        -forward <= along <= forward,
        size > 0,
{
    let t = ((along + forward) * size) / (2 * forward);
    if t >= size {
        (size - 1) as nat
    } else {
        t as nat
    }
}

/// One face of a cubemap. The variants stand in array-layer order.
#[derive(Copy, Clone, Debug, PartialEq, Eq, Structural)]
pub enum CubeFace {
    PositiveX,
    NegativeX,
    PositiveY,
    NegativeY,
    PositiveZ,
    NegativeZ,
}

/// One texel of one face of a cubemap.
#[derive(Copy, Clone, Debug, PartialEq, Eq, Structural)]
pub struct Texel {
    pub face: CubeFace,
    pub x: u32,
    pub y: u32,
}

impl CubeFace {
    /// Array layer of the face.
    pub open spec fn spec_index(self) -> nat {
        match self {
            CubeFace::PositiveX => 0,
            CubeFace::NegativeX => 1,
            CubeFace::PositiveY => 2,
            CubeFace::NegativeY => 3,
            CubeFace::PositiveZ => 4,
            CubeFace::NegativeZ => 5,
        }
    }

    /// The face stored in array layer `index`, if there is one.
    pub open spec fn spec_from_index(index: nat) -> Option<CubeFace> {
        if index == 0 {
            Some(CubeFace::PositiveX)
        } else if index == 1 {
            Some(CubeFace::NegativeX)
        } else if index == 2 {
            Some(CubeFace::PositiveY)
        } else if index == 3 {
            Some(CubeFace::NegativeY)
        } else if index == 4 {
            Some(CubeFace::PositiveZ)
        } else if index == 5 {
            Some(CubeFace::NegativeZ)
        } else {
            None
        }
    }

    /// Direction through the centre of the face, in the frame in which
    /// directions are reconstructed from texels. In that frame the layer
    /// `PositiveY` looks along `(0, -1, 0)` and the layer `NegativeY` along
    /// `(0, 1, 0)`.
    pub open spec fn spec_forward(self) -> Direction {
        match self {
            CubeFace::PositiveX => Direction { x: 1, y: 0, z: 0 },
            CubeFace::NegativeX => Direction { x: -1, y: 0, z: 0 },
            CubeFace::PositiveY => Direction { x: 0, y: -1, z: 0 },
            CubeFace::NegativeY => Direction { x: 0, y: 1, z: 0 },
            CubeFace::PositiveZ => Direction { x: 0, y: 0, z: 1 },
            CubeFace::NegativeZ => Direction { x: 0, y: 0, z: -1 },
        }
    }

    /// Direction in which the rows of the face are numbered.
    pub open spec fn spec_up(self) -> Direction {
        match self {
            CubeFace::PositiveX => Direction { x: 0, y: 1, z: 0 },
            CubeFace::NegativeX => Direction { x: 0, y: 1, z: 0 },
            CubeFace::PositiveY => Direction { x: 0, y: 0, z: 1 },
            CubeFace::NegativeY => Direction { x: 0, y: 0, z: -1 },
            CubeFace::PositiveZ => Direction { x: 0, y: 1, z: 0 },
            CubeFace::NegativeZ => Direction { x: 0, y: 1, z: 0 },
        }
    }

    /// Direction in which the columns of the face are numbered.
    pub open spec fn spec_right(self) -> Direction {
        match self {
            CubeFace::PositiveX => Direction { x: 0, y: 0, z: -1 },
            CubeFace::NegativeX => Direction { x: 0, y: 0, z: 1 },
            CubeFace::PositiveY => Direction { x: 1, y: 0, z: 0 },
            CubeFace::NegativeY => Direction { x: 1, y: 0, z: 0 },
            CubeFace::PositiveZ => Direction { x: 1, y: 0, z: 0 },
            CubeFace::NegativeZ => Direction { x: -1, y: 0, z: 0 },
        }
    }

    /// Direction of the texel in column `x` and row `y` of the face, on a
    /// face of `size` by `size` texels, scaled by `size`: the face
    /// coordinates `2x / size - 1` and `2y / size - 1` along `right` and
    /// `up`, one step along `forward`.
    pub open spec fn spec_texel_direction(self, x: int, y: int, size: int) -> Direction {
        combine(self.spec_forward(), size, self.spec_right(), 2 * x - size, self.spec_up(), 2 * y - size)
    }

    /// Whether `d` points into the pyramid that the face spans from the
    /// origin, its boundary included.
    pub open spec fn covers(self, d: Direction) -> bool {
        let f = dot(self.spec_forward(), d);
        let r = dot(self.spec_right(), d);
        let u = dot(self.spec_up(), d);
        f > 0 && -f <= r <= f && -f <= u <= f
    }

    /// The first face, in layer order, that covers `d`.
    pub open spec fn spec_covering(d: Direction) -> Option<CubeFace> {
        if CubeFace::PositiveX.covers(d) {
            Some(CubeFace::PositiveX)
        } else if CubeFace::NegativeX.covers(d) {
            Some(CubeFace::NegativeX)
        } else if CubeFace::PositiveY.covers(d) {
            Some(CubeFace::PositiveY)
        } else if CubeFace::NegativeY.covers(d) {
            Some(CubeFace::NegativeY)
        } else if CubeFace::PositiveZ.covers(d) {
            Some(CubeFace::PositiveZ)
        } else if CubeFace::NegativeZ.covers(d) {
            Some(CubeFace::NegativeZ)
        } else {
            None
        }
    }

    /// The texel that a lookup along `d` reads on a cubemap whose faces
    /// are `size` by `size` texels.
    pub open spec fn spec_locate(d: Direction, size: u32) -> Option<Texel> {
        match Self::spec_covering(d) {
            Some(face) if size > 0 => {
                let f = dot(face.spec_forward(), d);
                Some(
                    Texel {
                        face,
                        x: texel_coordinate(dot(face.spec_right(), d), f, size as nat) as u32,
                        y: texel_coordinate(dot(face.spec_up(), d), f, size as nat) as u32,
                    },
                )
            },
            _ => None,
        }
    }

    /// Array layer of the face.
    pub fn index(self) -> (index: u32)
        ensures
            index == self.spec_index(),
            index < FACE_COUNT,
    {
        match self {
            CubeFace::PositiveX => 0,
            CubeFace::NegativeX => 1,
            CubeFace::PositiveY => 2,
            CubeFace::NegativeY => 3,
            CubeFace::PositiveZ => 4,
            CubeFace::NegativeZ => 5,
        }
    }

    /// The face stored in array layer `index`; `None` from `FACE_COUNT` on.
    pub fn from_index(index: u32) -> (face: Option<CubeFace>)
        ensures
            face == Self::spec_from_index(index as nat),
            face is Some <==> index < FACE_COUNT,
            face is Some ==> face->0.spec_index() == index,
    {
        match index {
            0 => Some(CubeFace::PositiveX),
            1 => Some(CubeFace::NegativeX),
            2 => Some(CubeFace::PositiveY),
            3 => Some(CubeFace::NegativeY),
            4 => Some(CubeFace::PositiveZ),
            5 => Some(CubeFace::NegativeZ),
            _ => None,
        }
    }

    /// Direction through the centre of the face, which is also where the
    /// camera that renders into the face looks.
    pub fn forward(self) -> (v: IVec3)
        ensures
            v@ == self.spec_forward(),
    {
        match self {
            CubeFace::PositiveX => IVec3 { x: 1, y: 0, z: 0 },
            CubeFace::NegativeX => IVec3 { x: -1, y: 0, z: 0 },
            CubeFace::PositiveY => IVec3 { x: 0, y: -1, z: 0 },
            CubeFace::NegativeY => IVec3 { x: 0, y: 1, z: 0 },
            CubeFace::PositiveZ => IVec3 { x: 0, y: 0, z: 1 },
            CubeFace::NegativeZ => IVec3 { x: 0, y: 0, z: -1 },
        }
    }

    /// Direction in which the rows of the face are numbered, which is also
    /// the up vector of the camera that renders into the face.
    pub fn up(self) -> (v: IVec3)
        ensures
            v@ == self.spec_up(),
    {
        match self {
            CubeFace::PositiveX => IVec3 { x: 0, y: 1, z: 0 },
            CubeFace::NegativeX => IVec3 { x: 0, y: 1, z: 0 },
            CubeFace::PositiveY => IVec3 { x: 0, y: 0, z: 1 },
            CubeFace::NegativeY => IVec3 { x: 0, y: 0, z: -1 },
            CubeFace::PositiveZ => IVec3 { x: 0, y: 1, z: 0 },
            CubeFace::NegativeZ => IVec3 { x: 0, y: 1, z: 0 },
        }
    }

    /// Direction in which the columns of the face are numbered.
    pub fn right(self) -> (v: IVec3)
        ensures
            v@ == self.spec_right(),
    {
        match self {
            CubeFace::PositiveX => IVec3 { x: 0, y: 0, z: -1 },
            CubeFace::NegativeX => IVec3 { x: 0, y: 0, z: 1 },
            CubeFace::PositiveY => IVec3 { x: 1, y: 0, z: 0 },
            CubeFace::NegativeY => IVec3 { x: 1, y: 0, z: 0 },
            CubeFace::PositiveZ => IVec3 { x: 1, y: 0, z: 0 },
            CubeFace::NegativeZ => IVec3 { x: -1, y: 0, z: 0 },
        }
    }

    /// Direction of the texel in column `x` and row `y` of the face, scaled
    /// by `size`. `None` where the texel does not lie on a face of `size`
    /// by `size` texels.
    pub fn texel_direction(self, x: u32, y: u32, size: u32) -> (direction: Option<IVec3>)
        ensures
            direction is Some <==> x < size && y < size,
            direction is Some ==> direction->0@ == self.spec_texel_direction(
                x as int,
                y as int,
                size as int,
            ),
    {
        if x >= size || y >= size {
            return None;
        }
        proof {
            lemma_texel_direction_value(self, x as int, y as int, size as int);
        }
        let f: i64 = size as i64;
        let r: i64 = 2 * (x as i64) - f;
        let u: i64 = 2 * (y as i64) - f;
        Some(
            match self {
                CubeFace::PositiveX => IVec3 { x: f, y: u, z: -r },
                CubeFace::NegativeX => IVec3 { x: -f, y: u, z: r },
                CubeFace::PositiveY => IVec3 { x: r, y: -f, z: u },
                CubeFace::NegativeY => IVec3 { x: r, y: f, z: -u },
                CubeFace::PositiveZ => IVec3 { x: r, y: u, z: f },
                CubeFace::NegativeZ => IVec3 { x: -r, y: u, z: -f },
            },
        )
    }

    /// The components of `d` along the face's forward, right and up vectors.
    fn components(self, d: IVec3) -> (c: (i128, i128, i128))
        ensures
            c.0 == dot(self.spec_forward(), d@),
            c.1 == dot(self.spec_right(), d@),
            c.2 == dot(self.spec_up(), d@),
    {
        proof {
            lemma_components(self, d@);
        }
        let x: i128 = d.x as i128;
        let y: i128 = d.y as i128;
        let z: i128 = d.z as i128;
        match self {
            CubeFace::PositiveX => (x, -z, y),
            CubeFace::NegativeX => (-x, z, y),
            CubeFace::PositiveY => (-y, x, z),
            CubeFace::NegativeY => (y, x, -z),
            CubeFace::PositiveZ => (z, x, y),
            CubeFace::NegativeZ => (-z, -x, y),
        }
    }

    /// Whether `d` points into the pyramid of the face.
    pub fn contains(self, d: IVec3) -> (inside: bool)
        ensures
            inside == self.covers(d@),
    {
        let (f, r, u) = self.components(d);
        f > 0 && -f <= r && r <= f && -f <= u && u <= f
    }

    /// The first face, in layer order, whose pyramid holds `d`: `None` for
    /// the zero vector alone.
    pub fn covering(d: IVec3) -> (face: Option<CubeFace>)
        ensures
            face == Self::spec_covering(d@),
            face is None <==> d.x == 0 && d.y == 0 && d.z == 0,
    {
        proof {
            lemma_covering_total(d@);
        }
        if CubeFace::PositiveX.contains(d) {
            Some(CubeFace::PositiveX)
        } else if CubeFace::NegativeX.contains(d) {
            Some(CubeFace::NegativeX)
        } else if CubeFace::PositiveY.contains(d) {
            Some(CubeFace::PositiveY)
        } else if CubeFace::NegativeY.contains(d) {
            Some(CubeFace::NegativeY)
        } else if CubeFace::PositiveZ.contains(d) {
            Some(CubeFace::PositiveZ)
        } else if CubeFace::NegativeZ.contains(d) {
            Some(CubeFace::NegativeZ)
        } else {
            None
        }
    }

    /// The texel that a lookup along `d` reads on a cubemap whose faces
    /// are `size` by `size` texels: `None` where `d` is the zero vector or
    /// the faces are empty.
    pub fn locate(d: IVec3, size: u32) -> (hit: Option<Texel>)
        ensures
            hit == Self::spec_locate(d@, size),
            hit is None <==> size == 0 || (d.x == 0 && d.y == 0 && d.z == 0),
            hit is Some ==> hit->0.x < size && hit->0.y < size && hit->0.face.covers(d@),
    {
        if size == 0 {
            return None;
        }
        match Self::covering(d) {
            None => None,
            Some(face) => {
                let (f, r, u) = face.components(d);
                let x: u32 = coordinate(r, f, size);
                let y: u32 = coordinate(u, f, size);
                Some(Texel { face, x, y })
            },
        }
    }
}

/// Column (or row) of the texel that a direction falls into.
fn coordinate(along: i128, forward: i128, size: u32) -> (t: u32)
    requires
        0 < forward <= 0x8000_0000_0000_0000,
        -forward <= along <= forward,
        size > 0,
    ensures
        t == texel_coordinate(along as int, forward as int, size as nat),
        t < size,
{
    let offset: i128 = along + forward;
    assert(0 <= offset * size <= 0x1_0000_0000_0000_0000 * 0x1_0000_0000) by (nonlinear_arith)
        requires
            0 <= offset <= 0x1_0000_0000_0000_0000,
            0 < size < 0x1_0000_0000,
    ;
    let scaled: i128 = offset * (size as i128);
    let t: i128 = scaled / (2 * forward);
    assert(0 <= t) by (nonlinear_arith)
        requires
            t == (scaled as int) / (2 * forward),
            0 <= scaled,
            0 < forward,
    ;
    if t >= size as i128 {
        size - 1
    } else {
        t as u32
    }
}

/// `c * v` for a coefficient `c` of a unit vector.
pub open spec fn signed(c: int, v: int) -> int {
    if c == 1 {
        v
    } else if c == -1 {
        -v
    } else {
        0
    }
}

/// Whether every component of `a` is -1, 0 or 1.
pub open spec fn small(a: Direction) -> bool {
    -1 <= a.x <= 1 && -1 <= a.y <= 1 && -1 <= a.z <= 1
}

proof fn lemma_mul_small(c: int, v: int)
    requires
        -1 <= c <= 1,
    ensures
        c * v == signed(c, v),
{
    assert(c * v == signed(c, v)) by (nonlinear_arith)
        requires
            -1 <= c <= 1,
    ;
}

proof fn lemma_dot_small(a: Direction, d: Direction)
    requires
        small(a),
    ensures
        dot(a, d) == signed(a.x, d.x) + signed(a.y, d.y) + signed(a.z, d.z),
{
    lemma_mul_small(a.x, d.x);
    lemma_mul_small(a.y, d.y);
    lemma_mul_small(a.z, d.z);
}

proof fn lemma_combine_small(
    forward: Direction,
    f: int,
    right: Direction,
    r: int,
    up: Direction,
    u: int,
)
    requires
        small(forward),
        small(right),
        small(up),
    ensures
        combine(forward, f, right, r, up, u) == (Direction {
            x: signed(forward.x, f) + signed(right.x, r) + signed(up.x, u),
            y: signed(forward.y, f) + signed(right.y, r) + signed(up.y, u),
            z: signed(forward.z, f) + signed(right.z, r) + signed(up.z, u),
        }),
{
    lemma_mul_small(forward.x, f);
    lemma_mul_small(forward.y, f);
    lemma_mul_small(forward.z, f);
    lemma_mul_small(right.x, r);
    lemma_mul_small(right.y, r);
    lemma_mul_small(right.z, r);
    lemma_mul_small(up.x, u);
    lemma_mul_small(up.y, u);
    lemma_mul_small(up.z, u);
}

/// The components of `d` along the three vectors of a face, written out.
pub proof fn lemma_components(face: CubeFace, d: Direction)
    ensures
        dot(face.spec_forward(), d) == (match face {
            CubeFace::PositiveX => d.x,
            CubeFace::NegativeX => -d.x,
            CubeFace::PositiveY => -d.y,
            CubeFace::NegativeY => d.y,
            CubeFace::PositiveZ => d.z,
            CubeFace::NegativeZ => -d.z,
        }),
        dot(face.spec_right(), d) == (match face {
            CubeFace::PositiveX => -d.z,
            CubeFace::NegativeX => d.z,
            CubeFace::PositiveY => d.x,
            CubeFace::NegativeY => d.x,
            CubeFace::PositiveZ => d.x,
            CubeFace::NegativeZ => -d.x,
        }),
        dot(face.spec_up(), d) == (match face {
            CubeFace::PositiveX => d.y,
            CubeFace::NegativeX => d.y,
            CubeFace::PositiveY => d.z,
            CubeFace::NegativeY => -d.z,
            CubeFace::PositiveZ => d.y,
            CubeFace::NegativeZ => d.y,
        }),
{
    lemma_dot_small(face.spec_forward(), d);
    lemma_dot_small(face.spec_right(), d);
    lemma_dot_small(face.spec_up(), d);
}

/// The direction reconstructed for a texel, written out.
pub proof fn lemma_texel_direction_value(face: CubeFace, x: int, y: int, size: int)
    ensures
        face.spec_texel_direction(x, y, size) == (match face {
            CubeFace::PositiveX => Direction { x: size, y: 2 * y - size, z: size - 2 * x },
            CubeFace::NegativeX => Direction { x: -size, y: 2 * y - size, z: 2 * x - size },
            CubeFace::PositiveY => Direction { x: 2 * x - size, y: -size, z: 2 * y - size },
            CubeFace::NegativeY => Direction { x: 2 * x - size, y: size, z: size - 2 * y },
            CubeFace::PositiveZ => Direction { x: 2 * x - size, y: 2 * y - size, z: size },
            CubeFace::NegativeZ => Direction { x: size - 2 * x, y: 2 * y - size, z: -size },
        }),
{
    lemma_combine_small(
        face.spec_forward(),
        size,
        face.spec_right(),
        2 * x - size,
        face.spec_up(),
        2 * y - size,
    );
}

/// The three vectors of every face have length one, stand at right angles
/// to each other, and `right` is the vector product of `up` and `forward`.
pub proof fn lemma_basis_orthonormal(face: CubeFace)
    ensures
        dot(face.spec_forward(), face.spec_forward()) == 1,
        dot(face.spec_up(), face.spec_up()) == 1,
        dot(face.spec_right(), face.spec_right()) == 1,
        dot(face.spec_forward(), face.spec_up()) == 0,
        dot(face.spec_forward(), face.spec_right()) == 0,
        dot(face.spec_up(), face.spec_right()) == 0,
        face.spec_right() == cross(face.spec_up(), face.spec_forward()),
{
    let f = face.spec_forward();
    let u = face.spec_up();
    let r = face.spec_right();
    lemma_components(face, f);
    lemma_components(face, u);
    lemma_components(face, r);
    lemma_mul_small(u.y, f.z);
    lemma_mul_small(u.z, f.y);
    lemma_mul_small(u.z, f.x);
    lemma_mul_small(u.x, f.z);
    lemma_mul_small(u.x, f.y);
    lemma_mul_small(u.y, f.x);
}

/// Layer numbers and faces correspond one to one.
pub proof fn lemma_index_round_trip(face: CubeFace, index: nat)
    ensures
        CubeFace::spec_from_index(face.spec_index()) == Some(face),
        face.spec_index() < FACE_COUNT,
        index < FACE_COUNT ==> CubeFace::spec_from_index(index) is Some
            && CubeFace::spec_from_index(index)->0.spec_index() == index,
        index >= FACE_COUNT ==> CubeFace::spec_from_index(index) is None,
{
}

/// Every direction but the zero vector is covered by a face, and the zero
/// vector by none.
pub proof fn lemma_covering_total(d: Direction)
    ensures
        CubeFace::spec_covering(d) is None <==> d.x == 0 && d.y == 0 && d.z == 0,
        CubeFace::spec_covering(d) is Some ==> CubeFace::spec_covering(d)->0.covers(d),
{
    lemma_components(CubeFace::PositiveX, d);
    lemma_components(CubeFace::NegativeX, d);
    lemma_components(CubeFace::PositiveY, d);
    lemma_components(CubeFace::NegativeY, d);
    lemma_components(CubeFace::PositiveZ, d);
    lemma_components(CubeFace::NegativeZ, d);
}

/// The direction reconstructed for a texel has that texel's face
/// coordinates: `size` along `forward`, `2x - size` along `right` and
/// `2y - size` along `up`. It is therefore covered by the texel's face,
/// and it is never the zero vector: it has a longitude and a latitude.
pub proof fn lemma_texel_direction_components(face: CubeFace, x: int, y: int, size: int)
    requires
        0 <= x < size,
        0 <= y < size,
    ensures
        dot(face.spec_forward(), face.spec_texel_direction(x, y, size)) == size,
        dot(face.spec_right(), face.spec_texel_direction(x, y, size)) == 2 * x - size,
        dot(face.spec_up(), face.spec_texel_direction(x, y, size)) == 2 * y - size,
        face.covers(face.spec_texel_direction(x, y, size)),
        face.spec_texel_direction(x, y, size).x != 0 || face.spec_texel_direction(x, y, size).y
            != 0 || face.spec_texel_direction(x, y, size).z != 0,
{
    lemma_texel_direction_value(face, x, y, size);
    lemma_components(face, face.spec_texel_direction(x, y, size));
}

/// A lookup along the direction reconstructed for a texel reads that very
/// texel, for every texel off the first row and column of its face (whose
/// directions lie on the boundary shared with a neighbouring face).
pub proof fn lemma_locate_texel_direction(face: CubeFace, x: u32, y: u32, size: u32)
    requires
        1 <= x < size,
        1 <= y < size,
    ensures
        CubeFace::spec_locate(face.spec_texel_direction(x as int, y as int, size as int), size)
            == Some(Texel { face, x, y }),
{
    let d = face.spec_texel_direction(x as int, y as int, size as int);
    lemma_texel_direction_components(face, x as int, y as int, size as int);
    lemma_texel_direction_value(face, x as int, y as int, size as int);
    lemma_components(CubeFace::PositiveX, d);
    lemma_components(CubeFace::NegativeX, d);
    lemma_components(CubeFace::PositiveY, d);
    lemma_components(CubeFace::NegativeY, d);
    lemma_components(CubeFace::PositiveZ, d);
    lemma_components(CubeFace::NegativeZ, d);
    assert(CubeFace::spec_covering(d) == Some(face));
    lemma_coordinate_of_texel(x as int, size as int);
    lemma_coordinate_of_texel(y as int, size as int);
}

/// The face coordinate `2t - size` falls into texel `t`.
proof fn lemma_coordinate_of_texel(t: int, size: int)
    requires
        0 <= t < size,
    ensures
        texel_coordinate(2 * t - size, size, size as nat) == t,
{
    assert((2 * t - size + size) * size == (2 * size) * t) by (nonlinear_arith);
    lemma_div_multiples_vanish(t, 2 * size);
}

} // verus!
