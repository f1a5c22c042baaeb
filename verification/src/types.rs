//! Small value types describing draw and clear parameters, and the scalar
//! wire types of vertex and index data.

use vstd::prelude::*;

verus! {

/// How a run of vertices is assembled into primitives.
#[derive(Clone, Copy, Debug, PartialEq, Eq, Structural)]
pub enum DrawingMode {
    Points,
    LineStrip,
    LineLoop,
    Lines,
    TriangleStrip,
    TriangleFan,
    Triangles,
}

impl DrawingMode {
    /// The driver's constant for this mode.
    pub open spec fn code(self) -> u32 {
        match self {
            DrawingMode::Points => 0x0000,
            DrawingMode::Lines => 0x0001,
            DrawingMode::LineLoop => 0x0002,
            DrawingMode::LineStrip => 0x0003,
            DrawingMode::Triangles => 0x0004,
            DrawingMode::TriangleStrip => 0x0005,
            DrawingMode::TriangleFan => 0x0006,
        }
    }

    /// The driver's constant for this mode.
    pub fn gl_enum(self) -> (code: u32)
        ensures
            code == self.code(),
    {
        match self {
            DrawingMode::Points => 0x0000,
            DrawingMode::Lines => 0x0001,
            DrawingMode::LineLoop => 0x0002,
            DrawingMode::LineStrip => 0x0003,
            DrawingMode::Triangles => 0x0004,
            DrawingMode::TriangleStrip => 0x0005,
            DrawingMode::TriangleFan => 0x0006,
        }
    }
}

/// The scalar wire types the driver accepts for vertex and index data.
#[derive(Clone, Copy, Debug, PartialEq, Eq, Structural)]
pub enum DataType {
    Byte,
    UnsignedByte,
    Short,
    UnsignedShort,
    Fixed,
    Float,
}

impl DataType {
    /// The driver's constant for this type.
    pub open spec fn code(self) -> u32 {
        match self {
            DataType::Byte => 0x1400,
            DataType::UnsignedByte => 0x1401,
            DataType::Short => 0x1402,
            DataType::UnsignedShort => 0x1403,
            DataType::Float => 0x1406,
            DataType::Fixed => 0x140C,
        }
    }

    /// The number of bytes one value of this type occupies.
    pub open spec fn width(self) -> nat {
        match self {
            DataType::Byte | DataType::UnsignedByte => 1,
            DataType::Short | DataType::UnsignedShort => 2,
            DataType::Fixed | DataType::Float => 4,
        }
    }

    /// The driver's constant for this type.
    pub fn gl_enum(self) -> (code: u32)
        ensures
            code == self.code(),
    {
        match self {
            DataType::Byte => 0x1400,
            DataType::UnsignedByte => 0x1401,
            DataType::Short => 0x1402,
            DataType::UnsignedShort => 0x1403,
            DataType::Float => 0x1406,
            DataType::Fixed => 0x140C,
        }
    }

    /// The number of bytes one value of this type occupies.
    pub fn size(self) -> (bytes: usize)
        ensures
            bytes == self.width(),
    {
        match self {
            DataType::Byte | DataType::UnsignedByte => 1,
            DataType::Short | DataType::UnsignedShort => 2,
            DataType::Fixed | DataType::Float => 4,
        }
    }
}

/// Mask bit of the color buffer.
pub const COLOR_BUFFER_BIT: u32 = 0x4000;

/// Mask bit of the depth buffer.
pub const DEPTH_BUFFER_BIT: u32 = 0x0100;

/// Mask bit of the stencil buffer.
pub const STENCIL_BUFFER_BIT: u32 = 0x0400;

/// A set of framebuffer attachments to clear, as a bit mask.
#[derive(Clone, Copy, Debug, PartialEq, Eq, Structural)]
pub struct BufferBits {
    bits: u32,
}

impl BufferBits {
    /// The mask this set stands for.
    pub closed spec fn mask(self) -> u32 {
        self.bits
    }

    /// Only the three buffer bits are ever set.
    pub open spec fn wf(self) -> bool {
        self.mask() & !(COLOR_BUFFER_BIT | DEPTH_BUFFER_BIT | STENCIL_BUFFER_BIT) == 0
    }

    #[verifier::type_invariant]
    spec fn valid(self) -> bool {
        self.wf()
    }

    /// The set with no buffer in it.
    pub fn empty() -> (set: BufferBits)
        ensures
            set.mask() == 0,
            set.wf(),
    {
        assert(0u32 & !(0x4000u32 | 0x0100u32 | 0x0400u32) == 0) by (bit_vector);
        BufferBits { bits: 0 }
    }

    /// The color buffer alone.
    pub fn color() -> (set: BufferBits)
        ensures
            set.mask() == COLOR_BUFFER_BIT,
            set.wf(),
    {
        assert(0x4000u32 & !(0x4000u32 | 0x0100u32 | 0x0400u32) == 0) by (bit_vector);
        BufferBits { bits: COLOR_BUFFER_BIT }
    }

    /// The depth buffer alone.
    pub fn depth() -> (set: BufferBits)
        ensures
            set.mask() == DEPTH_BUFFER_BIT,
            set.wf(),
    {
        assert(0x0100u32 & !(0x4000u32 | 0x0100u32 | 0x0400u32) == 0) by (bit_vector);
        BufferBits { bits: DEPTH_BUFFER_BIT }
    }

    /// The stencil buffer alone.
    pub fn stencil() -> (set: BufferBits)
        ensures
            set.mask() == STENCIL_BUFFER_BIT,
            set.wf(),
    {
        assert(0x0400u32 & !(0x4000u32 | 0x0100u32 | 0x0400u32) == 0) by (bit_vector);
        BufferBits { bits: STENCIL_BUFFER_BIT }
    }

    /// The set made of the known bits of `bits`, or `None` if any other bit
    /// is set.
    pub fn from_bits(bits: u32) -> (set: Option<BufferBits>)
        ensures
            set.is_some() == (bits & !(COLOR_BUFFER_BIT | DEPTH_BUFFER_BIT | STENCIL_BUFFER_BIT)
                == 0),
            set matches Some(s) ==> s.mask() == bits && s.wf(),
    {
        if bits & !(COLOR_BUFFER_BIT | DEPTH_BUFFER_BIT | STENCIL_BUFFER_BIT) == 0 {
            Some(BufferBits { bits })
        } else {
            None
        }
    }

    /// The buffers of either set.
    pub fn union(self, other: BufferBits) -> (set: BufferBits)
        ensures
            set.mask() == self.mask() | other.mask(),
            set.wf(),
    {
        proof {
            use_type_invariant(self);
            use_type_invariant(other);
        }
        let a: u32 = self.bits;
        let b: u32 = other.bits;
        assert((a & !(0x4000u32 | 0x0100u32 | 0x0400u32) == 0 && b & !(0x4000u32 | 0x0100u32
            | 0x0400u32) == 0) ==> (a | b) & !(0x4000u32 | 0x0100u32 | 0x0400u32) == 0)
            by (bit_vector);
        BufferBits { bits: a | b }
    }

    /// Whether every buffer of `other` is in this set.
    pub fn contains(self, other: BufferBits) -> (held: bool)
        ensures
            held == (self.mask() & other.mask() == other.mask()),
    {
        self.bits & other.bits == other.bits
    }

    /// The mask to hand to the driver.
    pub fn bits(self) -> (mask: u32)
        ensures
            mask == self.mask(),
            self.wf(),
    {
        proof {
            use_type_invariant(self);
        }
        self.bits
    }
}

} // verus!
