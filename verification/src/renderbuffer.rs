//! Renderbuffer objects and their one binding target.

use vstd::prelude::*;
use std::marker::PhantomData;
use crate::context::{BindTarget, Context};
use crate::driver::DriverCall;

verus! {

/// The driver's constant for the renderbuffer target.
pub const RENDERBUFFER: u32 = 0x8D41;

/// An owned renderbuffer handle. It cannot be copied; giving it up yields
/// the one request that destroys the renderbuffer.
#[derive(Debug)]
pub struct Renderbuffer {
    gl_id: u32,
}

impl Renderbuffer {
    #[verifier::type_invariant]
    spec fn valid(self) -> bool {
        self.gl_id > 0
    }

    /// The handle the driver assigned.
    pub closed spec fn handle(self) -> u32 {
        self.gl_id
    }

    /// Wraps the handle the driver returned for a generation request. Zero
    /// means that the driver could not allocate one.
    pub fn from_handle(handle: u32) -> (created: Result<Renderbuffer, ()>)
        ensures
            created.is_ok() == (handle > 0),
            created matches Ok(renderbuffer) ==> renderbuffer.handle() == handle,
    {
        if handle > 0 {
            Ok(Renderbuffer { gl_id: handle })
        } else {
            Err(())
        }
    }

    /// The handle the driver assigned; never zero.
    pub fn gl_id(&self) -> (id: u32)
        ensures
            id == self.handle(),
            id > 0,
    {
        proof {
            use_type_invariant(self);
        }
        self.gl_id
    }

    /// Gives the renderbuffer up. The result is the request that destroys
    /// it.
    pub fn delete(self) -> (call: DriverCall)
        ensures
            call == (DriverCall::DeleteRenderbuffers { renderbuffer: self.handle() }),
    {
        DriverCall::DeleteRenderbuffers { renderbuffer: self.gl_id }
    }
}

/// The targets a renderbuffer can be bound to.
#[derive(Clone, Copy, Debug, PartialEq, Eq, Structural)]
pub enum RenderbufferTarget {
    Renderbuffer,
}

impl RenderbufferTarget {
    /// The driver's constant for this target.
    pub fn gl_enum(self) -> (code: u32)
        ensures
            code == RENDERBUFFER,
    {
        match self {
            RenderbufferTarget::Renderbuffer => RENDERBUFFER,
        }
    }
}

/// The capability to bind a renderbuffer.
#[derive(Debug)]
pub struct RenderbufferBinder {
    token: (),
}

/// Evidence that a renderbuffer is bound. It borrows the renderbuffer for
/// as long as it lives, and either borrows the binder it was made with or
/// carries the binder that the context lent for it.
#[derive(Debug)]
pub struct RenderbufferBinding<'a> {
    renderbuffer: u32,
    binder: Option<RenderbufferBinder>,
    phantom: PhantomData<&'a mut Renderbuffer>,
}

impl<'a> RenderbufferBinding<'a> {
    /// The handle of the renderbuffer that is bound.
    pub closed spec fn bound(self) -> u32 {
        self.renderbuffer
    }

    /// Whether the binding carries the context's binder.
    pub closed spec fn carries_binder(self) -> bool {
        self.binder.is_some()
    }

    /// The handle of the renderbuffer that is bound.
    pub fn gl_id(&self) -> (id: u32)
        ensures
            id == self.bound(),
    {
        self.renderbuffer
    }

    /// The target the renderbuffer is bound to.
    pub fn target(&self) -> (target: RenderbufferTarget)
        ensures
            target == RenderbufferTarget::Renderbuffer,
    {
        RenderbufferTarget::Renderbuffer
    }
}

impl RenderbufferBinder {
    /// Binds `renderbuffer`. The result is the binding, which borrows this
    /// binder, and the request that tells the driver.
    pub fn bind<'a>(&'a mut self, renderbuffer: &'a mut Renderbuffer) -> (bound: (
        RenderbufferBinding<'a>,
        DriverCall,
    ))
        ensures
            bound.0.bound() == old(renderbuffer).handle(),
            !bound.0.carries_binder(),
            bound.1 == (DriverCall::BindRenderbuffer {
                target: RENDERBUFFER,
                renderbuffer: old(renderbuffer).handle(),
            }),
            final(renderbuffer).handle() == old(renderbuffer).handle(),
    {
        let id = renderbuffer.gl_id();
        let binding = RenderbufferBinding { renderbuffer: id, binder: None, phantom: PhantomData };
        let call = DriverCall::BindRenderbuffer {
            target: binding.target().gl_enum(),
            renderbuffer: id,
        };
        (binding, call)
    }
}

impl Context {
    /// The request that generates one renderbuffer. Its reply goes to
    /// [`Renderbuffer::from_handle`].
    pub fn gen_renderbuffer(&self) -> (call: DriverCall)
        ensures
            call == DriverCall::GenRenderbuffers,
    {
        DriverCall::GenRenderbuffers
    }

    /// Takes the renderbuffer binder out of its slot, if it is there.
    pub fn take_renderbuffer_binder(&mut self) -> (binder: Option<RenderbufferBinder>)
        ensures
            binder.is_some() == old(self)@.contains(BindTarget::Renderbuffer),
            final(self)@ == old(self)@.remove(BindTarget::Renderbuffer),
    {
        if self.lend(BindTarget::Renderbuffer) {
            Some(RenderbufferBinder { token: () })
        } else {
            None
        }
    }

    /// Puts the renderbuffer binder back into its slot.
    pub fn restore_renderbuffer_binder(&mut self, binder: RenderbufferBinder)
        ensures
            final(self)@ == old(self)@.insert(BindTarget::Renderbuffer),
    {
        self.restore(BindTarget::Renderbuffer);
    }

    /// Binds `renderbuffer` with the context's own binder. This fails, and
    /// nothing changes, when the binder is lent out; otherwise the slot is
    /// empty until the binding comes back through
    /// [`Context::unbind_renderbuffer`].
    pub fn bind_renderbuffer<'a>(&mut self, renderbuffer: &'a mut Renderbuffer) -> (bound: Option<
        (RenderbufferBinding<'a>, DriverCall),
    >)
        ensures
            bound.is_some() == old(self)@.contains(BindTarget::Renderbuffer),
            final(self)@ == old(self)@.remove(BindTarget::Renderbuffer),
            bound matches Some((binding, call)) ==> {
                &&& binding.bound() == old(renderbuffer).handle()
                &&& binding.carries_binder()
                &&& call == (DriverCall::BindRenderbuffer {
                    target: RENDERBUFFER,
                    renderbuffer: old(renderbuffer).handle(),
                })
            },
            final(renderbuffer).handle() == old(renderbuffer).handle(),
    {
        match self.take_renderbuffer_binder() {
            Some(binder) => {
                let id = renderbuffer.gl_id();
                let binding = RenderbufferBinding {
                    renderbuffer: id,
                    binder: Some(binder),
                    phantom: PhantomData,
                };
                let call = DriverCall::BindRenderbuffer {
                    target: binding.target().gl_enum(),
                    renderbuffer: id,
                };
                Some((binding, call))
            },
            None => None,
        }
    }

    /// Ends a binding. If it carries the context's binder, the slot is
    /// filled again; a binding made from a binder that was taken out by hand
    /// changes nothing here.
    pub fn unbind_renderbuffer<'a>(&mut self, binding: RenderbufferBinding<'a>)
        ensures
            final(self)@ == if binding.carries_binder() {
                old(self)@.insert(BindTarget::Renderbuffer)
            } else {
                old(self)@
            },
    {
        match binding.binder {
            Some(binder) => self.restore_renderbuffer_binder(binder),
            None => {},
        }
    }
}

} // verus!
