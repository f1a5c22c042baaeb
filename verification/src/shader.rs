//! Shader objects.

use vstd::prelude::*;
use crate::driver::DriverCall;

verus! {

/// An owned shader handle. It cannot be copied; giving it up yields the one
/// request that destroys the shader.
#[derive(Debug)]
pub struct Shader {
    gl_id: u32,
}

impl Shader {
    #[verifier::type_invariant]
    spec fn valid(self) -> bool {
        self.gl_id > 0
    }

    /// The handle the driver assigned.
    pub closed spec fn handle(self) -> u32 {
        self.gl_id
    }

    /// Wraps a handle the driver returned for a shader creation request.
    /// Zero means that the driver could not allocate one.
    pub fn from_handle(handle: u32) -> (created: Result<Shader, ()>)
        ensures
            created.is_ok() == (handle > 0),
            created matches Ok(shader) ==> shader.handle() == handle,
    {
        if handle > 0 {
            Ok(Shader { gl_id: handle })
        } else {
            Err(())
        }
    }

    /// The handle the driver assigned; never zero.
    pub fn gl_id(&self) -> (id: u32)
        ensures
            id == self.handle(),
            id > 0,
    {
        proof {
            use_type_invariant(self);
        }
        self.gl_id
    }

    /// Gives the shader up. The result is the request that destroys it.
    pub fn delete(self) -> (call: DriverCall)
        ensures
            call == (DriverCall::DeleteShader { shader: self.handle() }),
    {
        DriverCall::DeleteShader { shader: self.gl_id }
    }
}

} // verus!
