use llvm_safe::id;
use llvm_safe::inheritance::upcast;
use llvm_safe::llvm::{Constant, ConstantShape, Context, RawValue, Type, TypeShape, Value, ValueKind};

fn integer_parts(raw: RawValue) -> (u32, u64, bool) {
    match raw {
        RawValue::Constant(ConstantShape::Integer(bits, value, sign_extend)) => {
            (bits, value, sign_extend)
        }
        _ => panic!("not an integer constant"),
    }
}

#[test]
fn bool_constants_are_one_bit() {
    id::with(|cid| {
        let context = Context::new(cid);
        assert_eq!(integer_parts(Constant::bool(true, &context).as_raw()), (1, 1, false));
        assert_eq!(integer_parts(Constant::bool(false, &context).as_raw()), (1, 0, false));
    });
}

#[test]
fn i8_constants_are_sign_extended() {
    id::with(|cid| {
        let context = Context::new(cid);
        assert_eq!(integer_parts(Constant::i8(5, &context).as_raw()), (8, 5, false));
        assert_eq!(integer_parts(Constant::i8(0, &context).as_raw()), (8, 0, false));
        assert_eq!(
            integer_parts(Constant::i8(-1, &context).as_raw()),
            (8, 0xffff_ffff_ffff_ffff, false)
        );
        assert_eq!(
            integer_parts(Constant::i8(i8::MIN, &context).as_raw()),
            (8, 0xffff_ffff_ffff_ff80, false)
        );
        assert_eq!(integer_parts(Constant::i8(i8::MAX, &context).as_raw()), (8, 127, false));
    });
}

#[test]
fn i32_constants_are_sign_extended() {
    id::with(|cid| {
        let context = Context::new(cid);
        assert_eq!(integer_parts(Constant::i32(2, &context).as_raw()), (32, 2, false));
        assert_eq!(
            integer_parts(Constant::i32(-2, &context).as_raw()),
            (32, 0xffff_ffff_ffff_fffe, false)
        );
        assert_eq!(
            integer_parts(Constant::i32(i32::MIN, &context).as_raw()),
            (32, 0xffff_ffff_8000_0000, false)
        );
        assert_eq!(
            integer_parts(Constant::i32(i32::MAX, &context).as_raw()),
            (32, 0x7fff_ffff, false)
        );
    });
}

#[test]
fn integer_constants_keep_width_bits_and_sign_flag() {
    id::with(|cid| {
        let context = Context::new(cid);
        let i64_ty = Type::i64(&context);
        assert_eq!(
            integer_parts(Constant::integer(u64::MAX, &i64_ty, true).as_raw()),
            (64, u64::MAX, true)
        );
        let i16_ty = Type::i16(&context);
        assert_eq!(integer_parts(Constant::integer(9, &i16_ty, false).as_raw()), (16, 9, false));
    });
}

#[test]
fn double_constants_keep_their_bit_pattern() {
    id::with(|cid| {
        let context = Context::new(cid);
        let bits = 2.5f64.to_bits();
        match Constant::double(bits, &context).as_raw() {
            RawValue::Constant(ConstantShape::Real(found)) => {
                assert_eq!(found, bits);
                assert_eq!(f64::from_bits(found), 2.5);
            }
            _ => panic!("not a real constant"),
        }
    });
}

#[test]
fn null_constants_keep_their_type() {
    id::with(|cid| {
        let context = Context::new(cid);
        let i32_ty = Type::i32(&context);
        match Constant::null(&i32_ty).as_raw() {
            RawValue::Constant(ConstantShape::Null(shape)) => {
                assert!(matches!(shape, TypeShape::Integer(32)));
            }
            _ => panic!("not a null constant"),
        }
        let pointer = Type::pointer(&i32_ty, 0);
        match Constant::null_pointer(&pointer).as_raw() {
            RawValue::Constant(ConstantShape::NullPointer(shape)) => {
                let expected = TypeShape::Pointer(Box::new(TypeShape::Integer(32)), 0);
                assert!(shape.same(&expected));
            }
            _ => panic!("not a null pointer constant"),
        }
    });
}

#[test]
fn string_constants_keep_bytes_and_flag() {
    id::with(|cid| {
        let context = Context::new(cid);
        match Constant::string(b"hi\0there", false, &context).as_raw() {
            RawValue::Constant(ConstantShape::String(data, bare)) => {
                assert_eq!(data, b"hi\0there".to_vec());
                assert!(!bare);
            }
            _ => panic!("not a string constant"),
        }
        match Constant::string(b"", true, &context).as_raw() {
            RawValue::Constant(ConstantShape::String(data, bare)) => {
                assert!(data.is_empty());
                assert!(bare);
            }
            _ => panic!("not a string constant"),
        }
    });
}

#[test]
fn constants_compare_by_what_they_are() {
    let a = ConstantShape::String(vec![1, 2, 3], false);
    let b = ConstantShape::String(vec![1, 2, 3], false);
    let c = ConstantShape::String(vec![1, 2, 4], false);
    let d = ConstantShape::String(vec![1, 2], false);
    let e = ConstantShape::String(vec![1, 2, 3], true);
    assert!(a.same(&b));
    assert!(!a.same(&c));
    assert!(!a.same(&d));
    assert!(!a.same(&e));
    assert!(a.duplicate().same(&a));
    assert!(ConstantShape::Integer(8, 1, false).same(&ConstantShape::Integer(8, 1, false)));
    assert!(!ConstantShape::Integer(8, 1, false).same(&ConstantShape::Integer(16, 1, false)));
    assert!(!ConstantShape::Integer(8, 1, false).same(&ConstantShape::Integer(8, 2, false)));
    assert!(!ConstantShape::Integer(8, 1, false).same(&ConstantShape::Integer(8, 1, true)));
    assert!(!ConstantShape::Real(1).same(&ConstantShape::Real(2)));
    assert!(ConstantShape::Real(3).same(&ConstantShape::Real(3)));
    assert!(!ConstantShape::Real(1).same(&ConstantShape::Integer(64, 1, false)));
    assert!(ConstantShape::Null(TypeShape::Double).same(&ConstantShape::Null(TypeShape::Double)));
    assert!(!ConstantShape::Null(TypeShape::Double).same(&ConstantShape::Null(TypeShape::Float)));
    assert!(!ConstantShape::Null(TypeShape::Double)
        .same(&ConstantShape::NullPointer(TypeShape::Double)));
}

#[test]
fn a_constant_is_a_value_of_any_function() {
    id::with(|cid| {
        let context = Context::new(cid);
        let constant = Constant::i32(4, &context);
        let direct: Value<'_, 'static, 'static, _> = constant.as_value();
        let widened: Value<'_, 'static, 'static, Type> = upcast(&constant);
        assert_eq!(direct.kind(), ValueKind::Constant);
        assert!(direct.same(&widened));
        assert!(direct.as_raw().same(&constant.as_raw()));
    });
}
