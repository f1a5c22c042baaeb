//! The driver's call surface, as plain data.
//!
//! A [`DriverCall`] names one entry point of the driver together with the
//! arguments it is to receive; a [`DriverReply`] is what came back.

use vstd::prelude::*;
use crate::error::GLError;

verus! {

/// Parameter name of the link-status query.
pub const LINK_STATUS: u32 = 0x8B82;

/// Parameter name of the info-log-length query.
pub const INFO_LOG_LENGTH: u32 = 0x8B84;

/// The driver's boolean "true", as a status query reports it.
pub const TRUE: i32 = 1;

/// The uniform upload entry points.
#[derive(Clone, Copy, Debug, PartialEq, Eq, Structural)]
pub enum UniformCall {
    Uniform1fv,
    Uniform1iv,
    Uniform2fv,
    Uniform2iv,
    Uniform3fv,
    Uniform3iv,
    Uniform4fv,
    Uniform4iv,
    UniformMatrix2fv,
    UniformMatrix3fv,
    UniformMatrix4fv,
}

impl UniformCall {
    /// Whether the entry point takes a transpose flag.
    pub open spec fn is_matrix(self) -> bool {
        self == UniformCall::UniformMatrix2fv || self == UniformCall::UniformMatrix3fv || self
            == UniformCall::UniformMatrix4fv
    }
}

/// One request to the driver.
#[derive(Debug, PartialEq, Eq)]
pub enum DriverCall {
    CreateProgram,
    DeleteProgram { program: u32 },
    AttachShader { program: u32, shader: u32 },
    LinkProgram { program: u32 },
    GetProgramiv { program: u32, pname: u32 },
    /// Fetch the info log into a buffer of `max_length` bytes.
    GetProgramInfoLog { program: u32, max_length: i32 },
    /// `name` holds the encoded name followed by one terminator byte.
    GetAttribLocation { program: u32, name: Vec<u8> },
    /// `name` holds the encoded name followed by one terminator byte.
    GetUniformLocation { program: u32, name: Vec<u8> },
    UseProgram { program: u32 },
    /// A uniform upload. `transpose` is meaningful for the matrix entry
    /// points only and is never set.
    Uniform { entry: UniformCall, location: i32, count: i32, transpose: bool, data: Vec<u8> },
    GenRenderbuffers,
    BindRenderbuffer { target: u32, renderbuffer: u32 },
    DeleteRenderbuffers { renderbuffer: u32 },
    DeleteShader { shader: u32 },
    Clear { mask: u32 },
    EnableVertexAttribArray { index: u32 },
    DrawArrays { mode: u32, first: i32, count: i32 },
}

/// What the driver handed back for one request.
#[derive(Debug, PartialEq, Eq)]
pub enum DriverReply {
    /// The entry point returns nothing.
    Nothing,
    /// A freshly allocated handle, zero on failure.
    Handle(u32),
    /// A status, length or location.
    Value(i32),
    /// The contents of a buffer the driver filled.
    Buffer(Vec<u8>),
}

impl DriverCall {
    /// Whether the driver's interface documents `error` as an outcome of
    /// this request. Any other error after the request means that the
    /// binding protocol was bypassed.
    pub open spec fn documents(self, error: GLError) -> bool {
        match self {
            DriverCall::GetProgramiv { .. } => error is InvalidEnum || error is InvalidValue
                || error is InvalidOperation,
            DriverCall::AttachShader { .. }
            | DriverCall::LinkProgram { .. }
            | DriverCall::GetProgramInfoLog { .. }
            | DriverCall::GetUniformLocation { .. }
            | DriverCall::UseProgram { .. }
            | DriverCall::Uniform { .. } => error is InvalidValue || error is InvalidOperation,
            DriverCall::GetAttribLocation { .. } => error is InvalidOperation,
            DriverCall::GenRenderbuffers => error is InvalidValue,
            DriverCall::BindRenderbuffer { .. } => error is InvalidEnum,
            _ => false,
        }
    }

    /// Whether the driver's interface documents `error` as an outcome of
    /// this request.
    pub fn is_documented(&self, error: &GLError) -> (documented: bool)
        ensures
            documented == self.documents(*error),
    {
        match self {
            DriverCall::GetProgramiv { .. } => match error {
                GLError::Message(_) => false,
                _ => true,
            },
            DriverCall::AttachShader { .. }
            | DriverCall::LinkProgram { .. }
            | DriverCall::GetProgramInfoLog { .. }
            | DriverCall::GetUniformLocation { .. }
            | DriverCall::UseProgram { .. }
            | DriverCall::Uniform { .. } => match error {
                GLError::InvalidValue | GLError::InvalidOperation => true,
                _ => false,
            },
            DriverCall::GetAttribLocation { .. } => match error {
                GLError::InvalidOperation => true,
                _ => false,
            },
            DriverCall::GenRenderbuffers => match error {
                GLError::InvalidValue => true,
                _ => false,
            },
            DriverCall::BindRenderbuffer { .. } => match error {
                GLError::InvalidEnum => true,
                _ => false,
            },
            _ => false,
        }
    }
}

} // verus!
