//! The shape of a uniform value.

use vstd::prelude::*;

verus! {

/// The primitive a uniform vector is made of.
#[derive(Clone, Copy, Debug, PartialEq, Eq, Structural)]
pub enum UniformPrimitiveType {
    Float,
    Int,
}

/// How the bytes of a uniform value are to be read: a vector of one to four
/// primitives, or a square matrix, which is always made of floats.
#[derive(Clone, Copy, Debug, PartialEq, Eq, Structural)]
pub enum UniformDatumType {
    Vec1(UniformPrimitiveType),
    Vec2(UniformPrimitiveType),
    Vec3(UniformPrimitiveType),
    Vec4(UniformPrimitiveType),
    Matrix2x2,
    Matrix3x3,
    Matrix4x4,
}

impl UniformDatumType {
    /// The number of primitives in one value of this shape.
    pub open spec fn components(self) -> nat {
        match self {
            UniformDatumType::Vec1(_) => 1,
            UniformDatumType::Vec2(_) => 2,
            UniformDatumType::Vec3(_) => 3,
            UniformDatumType::Vec4(_) => 4,
            UniformDatumType::Matrix2x2 => 4,
            UniformDatumType::Matrix3x3 => 9,
            UniformDatumType::Matrix4x4 => 16,
        }
    }

    /// The primitive this shape is made of; a matrix is made of floats.
    pub open spec fn primitive(self) -> UniformPrimitiveType {
        match self {
            UniformDatumType::Vec1(p) | UniformDatumType::Vec2(p) | UniformDatumType::Vec3(p)
            | UniformDatumType::Vec4(p) => p,
            _ => UniformPrimitiveType::Float,
        }
    }

    /// The number of bytes one value of this shape occupies: four for each
    /// primitive.
    pub fn datum_size(self) -> (bytes: usize)
        ensures
            bytes == 4 * self.components(),
    {
        match self {
            UniformDatumType::Vec1(_) => 4,
            UniformDatumType::Vec2(_) => 8,
            UniformDatumType::Vec3(_) => 12,
            UniformDatumType::Vec4(_) => 16,
            UniformDatumType::Matrix2x2 => 16,
            UniformDatumType::Matrix3x3 => 36,
            UniformDatumType::Matrix4x4 => 64,
        }
    }

    /// The primitive this shape is made of.
    pub fn primitive_type(self) -> (primitive: UniformPrimitiveType)
        ensures
            primitive == self.primitive(),
    {
        match self {
            UniformDatumType::Vec1(p) => p,
            UniformDatumType::Vec2(p) => p,
            UniformDatumType::Vec3(p) => p,
            UniformDatumType::Vec4(p) => p,
            _ => UniformPrimitiveType::Float,
        }
    }

    /// Whether `length` bytes are exactly `elements` values of this shape.
    pub fn holds(self, elements: usize, length: usize) -> (consistent: bool)
        ensures
            consistent == (length == elements * (4 * self.components())),
    {
        let size: usize = self.datum_size();
        assert(length == elements * size ==> (length % size == 0 && length / size == elements))
            by (nonlinear_arith)
            requires
                size > 0,
        ;
        assert((length % size == 0 && length / size == elements) ==> length == elements * size)
            by (nonlinear_arith)
            requires
                size > 0,
        ;
        length % size == 0 && length / size == elements
    }
}

} // verus!
