use glhelper::driver::{INFO_LOG_LENGTH, LINK_STATUS, TRUE};
use glhelper::error::{INVALID_ENUM, INVALID_OPERATION, INVALID_VALUE};
use glhelper::renderbuffer::RENDERBUFFER;
use glhelper::types::{COLOR_BUFFER_BIT, DEPTH_BUFFER_BIT, STENCIL_BUFFER_BIT};
use glhelper::{BufferBits, DataType, DrawingMode, GLError, RenderbufferTarget};

#[test]
fn query_names_agree_with_the_bindings() {
    assert_eq!(LINK_STATUS, gl::LINK_STATUS);
    assert_eq!(INFO_LOG_LENGTH, gl::INFO_LOG_LENGTH);
    assert_eq!(TRUE, i32::from(gl::TRUE));
}

#[test]
fn error_codes_agree_with_the_bindings() {
    assert_eq!(INVALID_ENUM, gl::INVALID_ENUM);
    assert_eq!(INVALID_VALUE, gl::INVALID_VALUE);
    assert_eq!(INVALID_OPERATION, gl::INVALID_OPERATION);
    assert!(GLError::from_code(gl::NO_ERROR).is_none());
    assert!(matches!(GLError::from_code(gl::INVALID_ENUM), Some(GLError::InvalidEnum)));
    assert!(matches!(GLError::from_code(gl::INVALID_VALUE), Some(GLError::InvalidValue)));
    assert!(matches!(GLError::from_code(gl::INVALID_OPERATION), Some(GLError::InvalidOperation)));
    assert!(GLError::from_code(gl::OUT_OF_MEMORY).is_none());
}

#[test]
fn targets_and_masks_agree_with_the_bindings() {
    assert_eq!(RENDERBUFFER, gl::RENDERBUFFER);
    assert_eq!(RenderbufferTarget::Renderbuffer.gl_enum(), gl::RENDERBUFFER);
    assert_eq!(COLOR_BUFFER_BIT, gl::COLOR_BUFFER_BIT);
    assert_eq!(DEPTH_BUFFER_BIT, gl::DEPTH_BUFFER_BIT);
    assert_eq!(STENCIL_BUFFER_BIT, gl::STENCIL_BUFFER_BIT);
    assert_eq!(BufferBits::color().bits(), gl::COLOR_BUFFER_BIT);
    assert_eq!(BufferBits::depth().bits(), gl::DEPTH_BUFFER_BIT);
    assert_eq!(BufferBits::stencil().bits(), gl::STENCIL_BUFFER_BIT);
}

#[test]
fn drawing_modes_agree_with_the_bindings() {
    assert_eq!(DrawingMode::Points.gl_enum(), gl::POINTS);
    assert_eq!(DrawingMode::LineStrip.gl_enum(), gl::LINE_STRIP);
    assert_eq!(DrawingMode::LineLoop.gl_enum(), gl::LINE_LOOP);
    assert_eq!(DrawingMode::Lines.gl_enum(), gl::LINES);
    assert_eq!(DrawingMode::TriangleStrip.gl_enum(), gl::TRIANGLE_STRIP);
    assert_eq!(DrawingMode::TriangleFan.gl_enum(), gl::TRIANGLE_FAN);
    assert_eq!(DrawingMode::Triangles.gl_enum(), gl::TRIANGLES);
}

#[test]
fn data_types_agree_with_the_bindings() {
    assert_eq!(DataType::Byte.gl_enum(), gl::BYTE);
    assert_eq!(DataType::UnsignedByte.gl_enum(), gl::UNSIGNED_BYTE);
    assert_eq!(DataType::Short.gl_enum(), gl::SHORT);
    assert_eq!(DataType::UnsignedShort.gl_enum(), gl::UNSIGNED_SHORT);
    assert_eq!(DataType::Fixed.gl_enum(), gl::FIXED);
    assert_eq!(DataType::Float.gl_enum(), gl::FLOAT);
}
