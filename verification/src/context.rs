//! The binding-state model.
//!
//! The driver keeps one "current object" per target. A [`Context`] records,
//! for every target, whether its binder is still present or has been lent
//! out. A binder can be taken only from a slot that holds one, so at most one
//! binder per target is ever in circulation, and only a binder can produce a
//! binding.

use vstd::prelude::*;
use crate::driver::DriverCall;
use crate::program::ProgramAttrib;
use crate::types::{BufferBits, DrawingMode};

verus! {

/// A binding point in the driver's global state.
#[derive(Clone, Copy, Debug, PartialEq, Eq, Structural)]
pub enum BindTarget {
    ArrayBuffer,
    ElementArrayBuffer,
    Program,
    Framebuffer,
    Renderbuffer,
    TextureUnit,
}

/// The capability to bind an object to one target.
#[derive(Debug)]
pub struct Binder {
    target: BindTarget,
}

impl Binder {
    /// The target this binder is for.
    pub closed spec fn slot(self) -> BindTarget {
        self.target
    }

    /// The target this binder is for.
    pub fn target(&self) -> (target: BindTarget)
        ensures
            target == self.slot(),
    {
        self.target
    }
}

/// The root of the binding protocol: one slot per target, each either
/// holding its binder or empty while the binder is lent out.
///
/// There is one driver state per thread, so a program makes one `Context`
/// and threads it through.
#[derive(Debug)]
pub struct Context {
    array_buffer: bool,
    element_array_buffer: bool,
    program: bool,
    framebuffer: bool,
    renderbuffer: bool,
    texture_unit: bool,
}

impl View for Context {
    type V = Set<BindTarget>;

    /// The targets whose binder is present.
    closed spec fn view(&self) -> Set<BindTarget> {
        Set::new(
            |t: BindTarget|
                match t {
                    BindTarget::ArrayBuffer => self.array_buffer,
                    BindTarget::ElementArrayBuffer => self.element_array_buffer,
                    BindTarget::Program => self.program,
                    BindTarget::Framebuffer => self.framebuffer,
                    BindTarget::Renderbuffer => self.renderbuffer,
                    BindTarget::TextureUnit => self.texture_unit,
                },
        )
    }
}

impl Context {
    /// A context in which every binder is present.
    pub fn current_context() -> (context: Context)
        ensures
            forall|t: BindTarget| context@.contains(t),
    {
        Context {
            array_buffer: true,
            element_array_buffer: true,
            program: true,
            framebuffer: true,
            renderbuffer: true,
            texture_unit: true,
        }
    }

    /// Whether the binder of `target` is present.
    pub fn is_available(&self, target: BindTarget) -> (present: bool)
        ensures
            present == self@.contains(target),
    {
        match target {
            BindTarget::ArrayBuffer => self.array_buffer,
            BindTarget::ElementArrayBuffer => self.element_array_buffer,
            BindTarget::Program => self.program,
            BindTarget::Framebuffer => self.framebuffer,
            BindTarget::Renderbuffer => self.renderbuffer,
            BindTarget::TextureUnit => self.texture_unit,
        }
    }

    fn set_slot(&mut self, target: BindTarget, present: bool)
        ensures
            final(self)@ == if present {
                old(self)@.insert(target)
            } else {
                old(self)@.remove(target)
            },
    {
        match target {
            BindTarget::ArrayBuffer => self.array_buffer = present,
            BindTarget::ElementArrayBuffer => self.element_array_buffer = present,
            BindTarget::Program => self.program = present,
            BindTarget::Framebuffer => self.framebuffer = present,
            BindTarget::Renderbuffer => self.renderbuffer = present,
            BindTarget::TextureUnit => self.texture_unit = present,
        }
        assert(final(self)@ =~= if present {
            old(self)@.insert(target)
        } else {
            old(self)@.remove(target)
        });
    }

    /// Empties the slot of `target`. Says whether a binder was there to be
    /// lent; an empty slot stays empty.
    pub(crate) fn lend(&mut self, target: BindTarget) -> (lent: bool)
        ensures
            lent == old(self)@.contains(target),
            final(self)@ == old(self)@.remove(target),
    {
        let present = self.is_available(target);
        self.set_slot(target, false);
        present
    }

    /// Fills the slot of `target` again.
    pub(crate) fn restore(&mut self, target: BindTarget)
        ensures
            final(self)@ == old(self)@.insert(target),
    {
        self.set_slot(target, true);
    }

    /// Takes the binder of `target` out of its slot, if it is there.
    pub fn take_binder(&mut self, target: BindTarget) -> (binder: Option<Binder>)
        ensures
            binder.is_some() == old(self)@.contains(target),
            binder matches Some(b) ==> b.slot() == target,
            final(self)@ == old(self)@.remove(target),
    {
        if self.lend(target) {
            Some(Binder { target })
        } else {
            None
        }
    }

    /// Puts a binder back into its slot.
    pub fn restore_binder(&mut self, binder: Binder)
        ensures
            final(self)@ == old(self)@.insert(binder.slot()),
    {
        self.restore(binder.target);
    }

    /// The request that clears the buffers of `buffers`.
    pub fn clear(&mut self, buffers: BufferBits) -> (call: DriverCall)
        ensures
            call == (DriverCall::Clear { mask: buffers.mask() }),
            *final(self) == *old(self),
    {
        DriverCall::Clear { mask: buffers.bits() }
    }

    /// The request that enables the vertex attribute array of `attrib`.
    pub fn enable_vertex_attrib_array(&self, attrib: ProgramAttrib) -> (call: DriverCall)
        ensures
            call == (DriverCall::EnableVertexAttribArray { index: attrib.gl_index }),
    {
        DriverCall::EnableVertexAttribArray { index: attrib.gl_index }
    }

    /// The request that draws `count` vertices starting at `first`. Both are
    /// passed on in the driver's signed 32-bit form.
    pub fn draw_arrays(&self, mode: DrawingMode, first: u32, count: usize) -> (call: DriverCall)
        ensures
            call == (DriverCall::DrawArrays {
                mode: mode.code(),
                first: first as i32,
                count: count as i32,
            }),
    {
        DriverCall::DrawArrays {
            mode: mode.gl_enum(),
            first: #[verifier::truncate] (first as i32),
            count: #[verifier::truncate] (count as i32),
        }
    }

    /// Once a target's binder has been taken, its slot is empty, so asking
    /// for it again yields nothing until it is restored: no two binders, and
    /// so no two bindings, of one target exist at a time. Asking again
    /// changes no slot.
    pub proof fn lemma_no_second_binder(slots: Set<BindTarget>, target: BindTarget)
        ensures
            !slots.remove(target).contains(target),
            slots.remove(target).remove(target) == slots.remove(target),
    {
        assert(slots.remove(target).remove(target) =~= slots.remove(target));
    }

    /// Taking a binder and restoring it leaves every slot as it was, and
    /// taking one target's binder leaves the other targets' slots alone.
    pub proof fn lemma_take_restore(slots: Set<BindTarget>, target: BindTarget, other: BindTarget)
        requires
            slots.contains(target),
        ensures
            slots.remove(target).insert(target) == slots,
            other != target ==> (slots.remove(target).contains(other) == slots.contains(other)),
    {
        assert(slots.remove(target).insert(target) =~= slots);
    }
}

} // verus!
