//! A safety layer over a stateful, handle-based graphics driver.
//!
//! The library decides *what* is sent to the driver and *what a reply means*;
//! it never talks to the driver itself. Every operation either yields a
//! [`DriverCall`] for the caller to perform, or interprets the value the
//! driver handed back. Binding state is tracked by the [`Context`], which
//! lends each target's binder out at most once at a time.

pub mod driver;
pub mod error;
pub mod types;
pub mod uniform_data;
pub mod shader;
pub mod program;
pub mod renderbuffer;
pub mod context;

pub use context::{BindTarget, Binder, Context};
pub use driver::{DriverCall, DriverReply, UniformCall};
pub use error::GLError;
pub use program::{
    InfoLogNext, InfoLogState, LinkNext, LinkState, Program, ProgramAttrib, ProgramBinder,
    ProgramBinding, ProgramUniform,
};
pub use renderbuffer::{Renderbuffer, RenderbufferBinder, RenderbufferBinding, RenderbufferTarget};
pub use shader::Shader;
pub use types::{BufferBits, DataType, DrawingMode};
pub use uniform_data::{UniformDatumType, UniformPrimitiveType};
