use glhelper::{DriverCall, GLError, UniformCall, UniformDatumType, UniformPrimitiveType};

#[test]
fn datum_sizes_are_four_bytes_per_primitive() {
    assert_eq!(UniformDatumType::Vec1(UniformPrimitiveType::Float).datum_size(), 4);
    assert_eq!(UniformDatumType::Vec2(UniformPrimitiveType::Int).datum_size(), 8);
    assert_eq!(UniformDatumType::Vec3(UniformPrimitiveType::Float).datum_size(), 12);
    assert_eq!(UniformDatumType::Vec4(UniformPrimitiveType::Int).datum_size(), 16);
    assert_eq!(UniformDatumType::Matrix2x2.datum_size(), 16);
    assert_eq!(UniformDatumType::Matrix3x3.datum_size(), 36);
    assert_eq!(UniformDatumType::Matrix4x4.datum_size(), 64);
}

#[test]
fn matrices_are_made_of_floats() {
    assert_eq!(UniformDatumType::Matrix2x2.primitive_type(), UniformPrimitiveType::Float);
    assert_eq!(UniformDatumType::Matrix3x3.primitive_type(), UniformPrimitiveType::Float);
    assert_eq!(UniformDatumType::Matrix4x4.primitive_type(), UniformPrimitiveType::Float);
    assert_eq!(
        UniformDatumType::Vec3(UniformPrimitiveType::Int).primitive_type(),
        UniformPrimitiveType::Int
    );
    assert_eq!(
        UniformDatumType::Vec1(UniformPrimitiveType::Float).primitive_type(),
        UniformPrimitiveType::Float
    );
}

#[test]
fn holds_compares_length_with_count_times_size() {
    let shape = UniformDatumType::Vec3(UniformPrimitiveType::Float);
    assert!(shape.holds(0, 0));
    assert!(shape.holds(1, 12));
    assert!(shape.holds(5, 60));
    assert!(!shape.holds(5, 61));
    assert!(!shape.holds(5, 48));
    assert!(!shape.holds(0, 12));
    assert!(!shape.holds(usize::MAX, 12));
    assert!(UniformDatumType::Matrix4x4.holds(2, 128));
    assert!(!UniformDatumType::Matrix4x4.holds(2, 64));
}

#[test]
fn documented_errors_follow_the_request() {
    let status = DriverCall::GetProgramiv { program: 1, pname: 0x8B82 };
    assert!(status.is_documented(&GLError::InvalidEnum));
    assert!(status.is_documented(&GLError::InvalidValue));
    assert!(status.is_documented(&GLError::InvalidOperation));
    assert!(!status.is_documented(&GLError::Message(String::from("x"))));

    let attach = DriverCall::AttachShader { program: 1, shader: 2 };
    assert!(!attach.is_documented(&GLError::InvalidEnum));
    assert!(attach.is_documented(&GLError::InvalidValue));
    assert!(attach.is_documented(&GLError::InvalidOperation));

    let attrib = DriverCall::GetAttribLocation { program: 1, name: vec![0x61, 0] };
    assert!(attrib.is_documented(&GLError::InvalidOperation));
    assert!(!attrib.is_documented(&GLError::InvalidValue));

    let uniform = DriverCall::GetUniformLocation { program: 1, name: vec![0x61, 0] };
    assert!(uniform.is_documented(&GLError::InvalidOperation));
    assert!(uniform.is_documented(&GLError::InvalidValue));
    assert!(!uniform.is_documented(&GLError::InvalidEnum));

    assert!(DriverCall::GenRenderbuffers.is_documented(&GLError::InvalidValue));
    assert!(!DriverCall::GenRenderbuffers.is_documented(&GLError::InvalidEnum));

    let bind = DriverCall::BindRenderbuffer { target: 0x8D41, renderbuffer: 1 };
    assert!(bind.is_documented(&GLError::InvalidEnum));
    assert!(!bind.is_documented(&GLError::InvalidOperation));

    let upload = DriverCall::Uniform {
        entry: UniformCall::Uniform1fv,
        location: 0,
        count: 1,
        transpose: false,
        data: vec![0, 0, 0, 0],
    };
    assert!(upload.is_documented(&GLError::InvalidOperation));
    assert!(upload.is_documented(&GLError::InvalidValue));
    assert!(!upload.is_documented(&GLError::InvalidEnum));

    assert!(!DriverCall::CreateProgram.is_documented(&GLError::InvalidValue));
    assert!(!DriverCall::Clear { mask: 0 }.is_documented(&GLError::InvalidValue));
}
