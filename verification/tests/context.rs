use glhelper::{
    BindTarget, BufferBits, Context, DataType, DrawingMode, DriverCall, GLError, ProgramAttrib,
    Renderbuffer, RenderbufferTarget,
};

const TARGETS: [BindTarget; 6] = [
    BindTarget::ArrayBuffer,
    BindTarget::ElementArrayBuffer,
    BindTarget::Program,
    BindTarget::Framebuffer,
    BindTarget::Renderbuffer,
    BindTarget::TextureUnit,
];

#[test]
fn a_fresh_context_holds_every_binder() {
    let context = Context::current_context();
    for target in TARGETS {
        assert!(context.is_available(target));
    }
}

#[test]
fn a_binder_is_lent_once() {
    for target in TARGETS {
        let mut context = Context::current_context();
        let binder = context.take_binder(target).unwrap();
        assert_eq!(binder.target(), target);
        assert!(!context.is_available(target));
        assert!(context.take_binder(target).is_none());
        assert!(context.take_binder(target).is_none());
        for other in TARGETS {
            if other != target {
                assert!(context.is_available(other));
            }
        }
        context.restore_binder(binder);
        assert!(context.is_available(target));
        assert!(context.take_binder(target).is_some());
    }
}

#[test]
fn a_second_program_binder_is_refused() {
    let mut context = Context::current_context();
    let binder = context.take_program_binder().unwrap();
    assert!(context.take_program_binder().is_none());
    assert!(context.take_binder(BindTarget::Program).is_none());
    assert!(context.is_available(BindTarget::Renderbuffer));
    context.restore_program_binder(binder);
    assert!(context.take_program_binder().is_some());
}

#[test]
fn renderbuffer_generation_wraps_the_handle() {
    let context = Context::current_context();
    assert_eq!(context.gen_renderbuffer(), DriverCall::GenRenderbuffers);
    assert_eq!(Renderbuffer::from_handle(21).unwrap().gl_id(), 21);
    assert!(Renderbuffer::from_handle(0).is_err());
    assert_eq!(
        Renderbuffer::from_handle(21).unwrap().delete(),
        DriverCall::DeleteRenderbuffers { renderbuffer: 21 }
    );
}

#[test]
fn a_second_renderbuffer_binding_is_refused_while_the_first_lives() {
    let mut context = Context::current_context();
    let mut first = Renderbuffer::from_handle(1).unwrap();
    let mut second = Renderbuffer::from_handle(2).unwrap();
    let (binding, call) = context.bind_renderbuffer(&mut first).unwrap();
    assert_eq!(call, DriverCall::BindRenderbuffer { target: 0x8D41, renderbuffer: 1 });
    assert_eq!(binding.gl_id(), 1);
    assert_eq!(binding.target(), RenderbufferTarget::Renderbuffer);
    assert!(context.bind_renderbuffer(&mut second).is_none());
    assert!(context.take_renderbuffer_binder().is_none());
    assert!(!context.is_available(BindTarget::Renderbuffer));
    context.unbind_renderbuffer(binding);
    assert!(context.is_available(BindTarget::Renderbuffer));
    let (again, call) = context.bind_renderbuffer(&mut second).unwrap();
    assert_eq!(call, DriverCall::BindRenderbuffer { target: 0x8D41, renderbuffer: 2 });
    context.unbind_renderbuffer(again);
}

#[test]
fn rebinding_the_same_renderbuffer_is_allowed_after_the_binding_ends() {
    let mut context = Context::current_context();
    let mut renderbuffer = Renderbuffer::from_handle(4).unwrap();
    let (binding, first) = context.bind_renderbuffer(&mut renderbuffer).unwrap();
    context.unbind_renderbuffer(binding);
    let (binding, second) = context.bind_renderbuffer(&mut renderbuffer).unwrap();
    assert_eq!(first, second);
    context.unbind_renderbuffer(binding);
}

#[test]
fn a_binding_made_by_hand_does_not_refill_the_slot() {
    let mut context = Context::current_context();
    let mut renderbuffer = Renderbuffer::from_handle(4).unwrap();
    let mut binder = context.take_renderbuffer_binder().unwrap();
    let (binding, call) = binder.bind(&mut renderbuffer);
    assert_eq!(call, DriverCall::BindRenderbuffer { target: 0x8D41, renderbuffer: 4 });
    context.unbind_renderbuffer(binding);
    assert!(!context.is_available(BindTarget::Renderbuffer));
    context.restore_renderbuffer_binder(binder);
    assert!(context.is_available(BindTarget::Renderbuffer));
}

#[test]
fn clear_passes_the_mask() {
    let mut context = Context::current_context();
    let both = BufferBits::color().union(BufferBits::depth());
    assert_eq!(context.clear(both), DriverCall::Clear { mask: 0x4100 });
    assert_eq!(context.clear(BufferBits::stencil()), DriverCall::Clear { mask: 0x0400 });
    assert_eq!(context.clear(BufferBits::empty()), DriverCall::Clear { mask: 0 });
}

#[test]
fn buffer_bits_behave_as_a_set() {
    let both = BufferBits::color().union(BufferBits::depth());
    assert_eq!(both.bits(), 0x4100);
    assert!(both.contains(BufferBits::color()));
    assert!(both.contains(BufferBits::empty()));
    assert!(!both.contains(BufferBits::stencil()));
    assert_eq!(BufferBits::from_bits(0x4500).map(|b| b.bits()), Some(0x4500));
    assert_eq!(BufferBits::from_bits(0x0001), None);
    assert_eq!(BufferBits::from_bits(0), Some(BufferBits::empty()));
}

#[test]
fn draw_arrays_passes_mode_first_and_count() {
    let context = Context::current_context();
    assert_eq!(
        context.draw_arrays(DrawingMode::Triangles, 3, 9),
        DriverCall::DrawArrays { mode: 4, first: 3, count: 9 }
    );
    assert_eq!(
        context.draw_arrays(DrawingMode::Points, u32::MAX, 0),
        DriverCall::DrawArrays { mode: 0, first: -1, count: 0 }
    );
}

#[test]
fn enable_vertex_attrib_array_passes_the_index() {
    let context = Context::current_context();
    assert_eq!(
        context.enable_vertex_attrib_array(ProgramAttrib { gl_index: 2 }),
        DriverCall::EnableVertexAttribArray { index: 2 }
    );
}

#[test]
fn drawing_modes_have_the_driver_constants() {
    assert_eq!(DrawingMode::Points.gl_enum(), 0);
    assert_eq!(DrawingMode::Lines.gl_enum(), 1);
    assert_eq!(DrawingMode::LineLoop.gl_enum(), 2);
    assert_eq!(DrawingMode::LineStrip.gl_enum(), 3);
    assert_eq!(DrawingMode::Triangles.gl_enum(), 4);
    assert_eq!(DrawingMode::TriangleStrip.gl_enum(), 5);
    assert_eq!(DrawingMode::TriangleFan.gl_enum(), 6);
    assert_eq!(RenderbufferTarget::Renderbuffer.gl_enum(), 0x8D41);
}

#[test]
fn data_types_have_the_driver_constants_and_sizes() {
    assert_eq!((DataType::Byte.gl_enum(), DataType::Byte.size()), (0x1400, 1));
    assert_eq!((DataType::UnsignedByte.gl_enum(), DataType::UnsignedByte.size()), (0x1401, 1));
    assert_eq!((DataType::Short.gl_enum(), DataType::Short.size()), (0x1402, 2));
    assert_eq!((DataType::UnsignedShort.gl_enum(), DataType::UnsignedShort.size()), (0x1403, 2));
    assert_eq!((DataType::Float.gl_enum(), DataType::Float.size()), (0x1406, 4));
    assert_eq!((DataType::Fixed.gl_enum(), DataType::Fixed.size()), (0x140C, 4));
}

#[test]
fn error_codes_map_to_their_variants() {
    assert!(matches!(GLError::from_code(0x0500), Some(GLError::InvalidEnum)));
    assert!(matches!(GLError::from_code(0x0501), Some(GLError::InvalidValue)));
    assert!(matches!(GLError::from_code(0x0502), Some(GLError::InvalidOperation)));
    assert!(GLError::from_code(0).is_none());
    assert!(GLError::from_code(0x0505).is_none());
    assert_eq!(GLError::InvalidEnum.message(), None);
    assert_eq!(GLError::Message(String::from("x")).message(), Some("x"));
}
