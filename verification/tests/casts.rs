use llvm_safe::id;
use llvm_safe::inheritance::{downcast_checked, upcast};
use llvm_safe::llvm::{
    Alloca, Builder, CastOp, Constant, Context, Global, IntegerType, KindMismatch, Module, Opcode,
    Phi, PointerType, Type, Value, ValueKind,
};
use llvm_safe::opaque::Opaque;

#[test]
fn widening_keeps_the_identity_of_values() {
    id::with(|cid| {
        let context = Context::new(cid);
        id::with(|mid| {
            let mut module = Module::new(mid, "m", &context);
            let i32_ty = Type::i32(&context);
            let i32_root: Type = upcast(&i32_ty);
            let signature = Type::function(&[&i32_root, &i32_root], &i32_root, false);
            let mut builder = Builder::new(&context);
            let mut module_builder = module.builder();
            let function = module_builder.add_function("f", &signature).unwrap();
            id::with(|fid| {
                let mut function_builder = function.builder(fid);
                let mut params = function_builder.params();
                let v = params.next().unwrap();
                let w = params.next().unwrap();
                let (_, mut entry) = function_builder.append_basic_block("entry", &context);
                let mut positioned = builder.position_at_end(&mut entry);
                let loaded_v: Value<IntegerType> = positioned.trunc(&v, &i32_ty, "v");
                let loaded_w: Value<IntegerType> = positioned.trunc(&w, &i32_ty, "w");

                let wide_v: Value<Type> = upcast(&loaded_v);
                let wide_w: Value<Type> = upcast(&loaded_w);
                assert!(wide_v.same(&loaded_v));
                assert!(wide_w.same(&loaded_w));
                assert!(!wide_v.same(&wide_w));
                assert!(wide_v.as_raw().same(&loaded_v.as_raw()));
                let again: Value<Type> = upcast(&loaded_v);
                assert!(again.same(&wide_v));
            });
        });
    });
}

#[test]
fn widening_twice_is_widening_once() {
    id::with(|cid| {
        let context = Context::new(cid);
        let i8_ty = Type::i8(&context);
        let pointer: PointerType<IntegerType> = Type::pointer(&i8_ty, 0);
        let null: Constant<PointerType<IntegerType>> = Constant::null_pointer(&pointer);

        let step_one: Constant<PointerType<Type>> = upcast(&null);
        let step_two: Value<'_, 'static, 'static, PointerType<Type>> = upcast(&step_one);
        let step_three: Value<'_, 'static, 'static, Type> = upcast(&step_two);
        let at_once: Value<'_, 'static, 'static, Type> = upcast(&null);
        assert!(step_three.same(&at_once));
        assert!(step_three.as_raw().same(&null.as_raw()));

        let once: Value<'_, 'static, 'static, Type> = upcast(&at_once);
        let twice: Value<'_, 'static, 'static, Type> = upcast(&once);
        assert!(twice.same(&at_once));
        assert!(at_once.duplicate().same(&at_once));
    });
}

#[test]
fn a_phi_narrows_back_to_itself_and_to_nothing_else() {
    id::with(|cid| {
        let context = Context::new(cid);
        id::with(|mid| {
            let mut module = Module::new(mid, "m", &context);
            let void = Type::void(&context);
            let signature = Type::function(&[], &void, false);
            let i8_ty = Type::i8(&context);
            let pointer = Type::pointer(&i8_ty, 0);
            let mut builder = Builder::new(&context);
            let mut module_builder = module.builder();
            let function = module_builder.add_function("f", &signature).unwrap();
            id::with(|fid| {
                let mut function_builder = function.builder(fid);
                let (_, mut entry) = function_builder.append_basic_block("entry", &context);
                let mut positioned = builder.position_at_end(&mut entry);
                let _first = positioned.alloca(&i8_ty, "slot");
                let phi = positioned.phi(&pointer, "merged");

                let wide: Value<PointerType<IntegerType>> = upcast(&phi);
                assert_eq!(wide.kind(), ValueKind::Instruction(Opcode::Phi));
                let back = Phi::downcast_value(&wide).unwrap();
                assert!(back.as_raw().same(&phi.as_raw()));
                assert!(back.as_value().same(&phi.as_value()));

                let mismatch = KindMismatch { found: ValueKind::Instruction(Opcode::Phi) };
                assert_eq!(Alloca::<IntegerType>::downcast_value(&wide).err(), Some(mismatch));
                assert_eq!(Global::<IntegerType>::downcast_value(&wide).err(), Some(mismatch));
                assert_eq!(Constant::downcast_value(&wide).err(), Some(mismatch));
            });
        });
    });
}

#[test]
fn an_alloca_narrows_back_to_itself_and_to_nothing_else() {
    id::with(|cid| {
        let context = Context::new(cid);
        id::with(|mid| {
            let mut module = Module::new(mid, "m", &context);
            let i64_ty = Type::i64(&context);
            let i64_root: Type = upcast(&i64_ty);
            let signature = Type::function(&[&i64_root], &i64_root, false);
            let mut builder = Builder::new(&context);
            let mut module_builder = module.builder();
            let function = module_builder.add_function("f", &signature).unwrap();
            id::with(|fid| {
                let mut function_builder = function.builder(fid);
                let count = function_builder.params().next().unwrap();
                let (_, mut entry) = function_builder.append_basic_block("entry", &context);
                let mut positioned = builder.position_at_end(&mut entry);
                let single = positioned.alloca(&i64_ty, "one");
                let many = positioned.array_alloca(&i64_ty, &count, "many");

                let wide_single: Value<PointerType<IntegerType>> = upcast(&single);
                let wide_many: Value<PointerType<IntegerType>> = upcast(&many);
                assert_eq!(wide_single.kind(), ValueKind::Instruction(Opcode::Alloca));
                assert_eq!(wide_many.kind(), ValueKind::Instruction(Opcode::ArrayAlloca));
                assert!(Alloca::downcast_value(&wide_single).unwrap().as_raw().same(&single.as_raw()));
                assert!(Alloca::downcast_value(&wide_many).unwrap().as_raw().same(&many.as_raw()));
                assert!(!wide_single.same(&wide_many));

                let mismatch = KindMismatch { found: ValueKind::Instruction(Opcode::Alloca) };
                assert_eq!(Phi::downcast_value(&wide_single).err(), Some(mismatch));
                assert_eq!(Global::<IntegerType>::downcast_value(&wide_single).err(), Some(mismatch));
                assert_eq!(Constant::downcast_value(&wide_single).err(), Some(mismatch));
            });
        });
    });
}

#[test]
fn a_global_narrows_back_to_itself_and_to_nothing_else() {
    id::with(|cid| {
        let context = Context::new(cid);
        id::with(|mid| {
            let mut module = Module::new(mid, "m", &context);
            let i32_ty = Type::i32(&context);
            let mut module_builder = module.builder();
            assert!(module_builder.add_global("first", &i32_ty).is_ok());
            let global = module_builder.add_global("second", &i32_ty).unwrap();

            let wide: Value<'_, '_, 'static, PointerType<IntegerType>> = upcast(&global);
            assert_eq!(wide.kind(), ValueKind::Global);
            let back = Global::downcast_value(&wide).unwrap();
            assert!(back.as_raw().same(&global.as_raw()));
            let direct: Value<'_, '_, 'static, PointerType<IntegerType>> = global.as_value();
            assert!(direct.same(&wide));

            let mismatch = KindMismatch { found: ValueKind::Global };
            assert_eq!(Phi::downcast_value(&wide).err(), Some(mismatch));
            assert_eq!(Alloca::<IntegerType>::downcast_value(&wide).err(), Some(mismatch));
            assert_eq!(Constant::downcast_value(&wide).err(), Some(mismatch));
        });
    });
}

#[test]
fn a_constant_narrows_back_to_itself_and_to_nothing_else() {
    id::with(|cid| {
        let context = Context::new(cid);
        let i8_ty = Type::i8(&context);
        let pointer = Type::pointer(&i8_ty, 0);
        let null = Constant::null_pointer(&pointer);

        let wide: Value<'_, 'static, 'static, PointerType<IntegerType>> = upcast(&null);
        assert_eq!(wide.kind(), ValueKind::Constant);
        let back = Constant::downcast_value(&wide).unwrap();
        assert!(back.as_raw().same(&null.as_raw()));

        let mismatch = KindMismatch { found: ValueKind::Constant };
        assert_eq!(Phi::downcast_value(&wide).err(), Some(mismatch));
        assert_eq!(Alloca::<IntegerType>::downcast_value(&wide).err(), Some(mismatch));
        assert_eq!(Global::<IntegerType>::downcast_value(&wide).err(), Some(mismatch));
    });
}

#[test]
fn parameters_and_plain_instructions_narrow_to_nothing() {
    id::with(|cid| {
        let context = Context::new(cid);
        id::with(|mid| {
            let mut module = Module::new(mid, "m", &context);
            let i8_ty = Type::i8(&context);
            let pointer = Type::pointer(&i8_ty, 0);
            let pointer_root: Type = upcast(&pointer);
            let signature = Type::function(&[&pointer_root], &pointer_root, false);
            let mut builder = Builder::new(&context);
            let mut module_builder = module.builder();
            let function = module_builder.add_function("f", &signature).unwrap();
            let label = function.label();
            id::with(|fid| {
                let mut function_builder = function.builder(fid);
                let param = function_builder.params().next().unwrap();
                let (_, mut entry) = function_builder.append_basic_block("entry", &context);
                let mut positioned = builder.position_at_end(&mut entry);
                let cast: Value<PointerType<IntegerType>> =
                    positioned.bitcast(&param, &pointer, "p");

                let found = KindMismatch { found: ValueKind::Instruction(Opcode::Cast(CastOp::BitCast)) };
                assert_eq!(Phi::downcast_value(&cast).err(), Some(found));
                assert_eq!(Alloca::<IntegerType>::downcast_value(&cast).err(), Some(found));
                assert_eq!(Global::<IntegerType>::downcast_value(&cast).err(), Some(found));
                assert_eq!(Constant::downcast_value(&cast).err(), Some(found));

                let is_param = KindMismatch { found: ValueKind::Parameter };
                assert_eq!(Phi::downcast_value(&param).err(), Some(is_param));
                assert_eq!(Constant::downcast_value(&param).err(), Some(is_param));

                let callee: Value<Type> = label.as_value();
                let is_function = KindMismatch { found: ValueKind::Function };
                assert_eq!(Phi::downcast_value(&callee).err(), Some(is_function));
                assert_eq!(Constant::downcast_value(&callee).err(), Some(is_function));
            });
        });
    });
}

#[test]
fn checked_downcast_looks_at_the_kind() {
    id::with(|cid| {
        let context = Context::new(cid);
        id::with(|mid| {
            let mut module = Module::new(mid, "m", &context);
            let void = Type::void(&context);
            let signature = Type::function(&[], &void, false);
            let i8_ty = Type::i8(&context);
            let pointer = Type::pointer(&i8_ty, 0);
            let mut builder = Builder::new(&context);
            let mut module_builder = module.builder();
            let global = module_builder.add_global("g", &i8_ty).unwrap();
            let function = module_builder.add_function("f", &signature).unwrap();
            id::with(|fid| {
                let mut function_builder = function.builder(fid);
                let (_, mut entry) = function_builder.append_basic_block("entry", &context);
                let mut positioned = builder.position_at_end(&mut entry);
                let slot = positioned.alloca(&i8_ty, "slot");
                let phi = positioned.phi(&pointer, "merged");
                let null = Constant::null_pointer(&pointer);

                let wide_slot: Value<PointerType<IntegerType>> = upcast(&slot);
                let wide_phi: Value<PointerType<IntegerType>> = upcast(&phi);
                let wide_global: Value<PointerType<IntegerType>> = upcast(&global);
                let wide_null: Value<PointerType<IntegerType>> = upcast(&null);

                let slot_back: Alloca<IntegerType> = downcast_checked(&wide_slot).unwrap();
                assert!(slot_back.as_raw().same(&slot.as_raw()));
                let phi_back: Phi<PointerType<IntegerType>> = downcast_checked(&wide_phi).unwrap();
                assert!(phi_back.as_raw().same(&phi.as_raw()));
                let global_back: Global<IntegerType> = downcast_checked(&wide_global).unwrap();
                assert!(global_back.as_raw().same(&global.as_raw()));
                let null_back: Constant<PointerType<IntegerType>> =
                    downcast_checked(&wide_null).unwrap();
                assert!(null_back.as_raw().same(&null.as_raw()));

                let not_a_phi: Result<Phi<PointerType<IntegerType>>, KindMismatch> =
                    downcast_checked(&wide_slot);
                assert_eq!(
                    not_a_phi.err(),
                    Some(KindMismatch { found: ValueKind::Instruction(Opcode::Alloca) })
                );
                let not_a_slot: Result<Alloca<IntegerType>, KindMismatch> =
                    downcast_checked(&wide_global);
                assert_eq!(not_a_slot.err(), Some(KindMismatch { found: ValueKind::Global }));
                let not_a_global: Result<Global<IntegerType>, KindMismatch> =
                    downcast_checked(&wide_null);
                assert_eq!(not_a_global.err(), Some(KindMismatch { found: ValueKind::Constant }));
                let not_a_constant: Result<Constant<PointerType<IntegerType>>, KindMismatch> =
                    downcast_checked(&wide_phi);
                assert_eq!(
                    not_a_constant.err(),
                    Some(KindMismatch { found: ValueKind::Instruction(Opcode::Phi) })
                );
            });
        });
    });
}
