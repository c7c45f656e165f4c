use llvm_safe::id;
use llvm_safe::inheritance::upcast;
use llvm_safe::llvm::{Builder, Context, FunctionState, Module, RawValue, Type, Value, ValueKind};

#[test]
fn a_function_is_declared_until_its_first_block() {
    id::with(|cid| {
        let context = Context::new(cid);
        id::with(|mid| {
            let mut module = Module::new(mid, "m", &context);
            let void = Type::void(&context);
            let signature = Type::function(&[], &void, false);
            let mut module_builder = module.builder();
            let function = module_builder.add_function("f", &signature).unwrap();
            assert_eq!(function.state(), FunctionState::Declared);
            assert_eq!(function.num_blocks(), 0);
            assert_eq!(function.block_name(0), None);
            id::with(|fid| {
                let mut function_builder = function.builder(fid);
                assert_eq!(function_builder.function.state(), FunctionState::Declared);
                let (entry_label, entry) = function_builder.append_basic_block("entry", &context);
                assert_eq!(function_builder.function.state(), FunctionState::Defined);
                assert_eq!(entry_label.as_raw(), 0);
                assert_eq!(entry.as_raw(), 0);
                assert_eq!(entry.name(), "entry");
                assert_eq!(entry.len(), 0);
                let (second_label, second) = function_builder.append_basic_block("next", &context);
                assert_eq!(function_builder.function.state(), FunctionState::Defined);
                assert_eq!(second_label.as_raw(), 1);
                assert_eq!(second.label().as_raw(), 1);
                let (third_label, _third) = function_builder.append_basic_block("last", &context);
                assert_eq!(function_builder.function.state(), FunctionState::Defined);
                assert_eq!(third_label.as_raw(), 2);
            });
            assert_eq!(function.state(), FunctionState::Defined);
            assert_eq!(function.num_blocks(), 3);
            assert_eq!(function.block_name(0), Some("entry"));
            assert_eq!(function.block_name(1), Some("next"));
            assert_eq!(function.block_name(2), Some("last"));
            assert_eq!(function.block_name(3), None);
        });
    });
}

#[test]
fn parameters_come_in_order_and_then_end() {
    id::with(|cid| {
        let context = Context::new(cid);
        id::with(|mid| {
            let mut module = Module::new(mid, "m", &context);
            let double = Type::double(&context);
            let signature = Type::function(&[&double, &double, &double], &double, false);
            let mut module_builder = module.builder();
            let function = module_builder.add_function("f", &signature).unwrap();
            id::with(|fid| {
                let function_builder = function.builder(fid);
                let mut params = function_builder.params();
                for expected in 0..3 {
                    let param = params.next().unwrap();
                    assert_eq!(param.kind(), ValueKind::Parameter);
                    assert!(matches!(param.as_raw(), RawValue::Parameter(p) if p == expected));
                }
                assert!(params.next().is_none());
                assert!(params.next().is_none());
                assert_eq!(function_builder.as_raw(), 0);
            });
        });
    });
}

#[test]
fn a_function_without_parameters_has_none() {
    id::with(|cid| {
        let context = Context::new(cid);
        id::with(|mid| {
            let mut module = Module::new(mid, "m", &context);
            let void = Type::void(&context);
            let signature = Type::function(&[], &void, false);
            let mut module_builder = module.builder();
            let function = module_builder.add_function("f", &signature).unwrap();
            id::with(|fid| {
                let function_builder = function.builder(fid);
                assert!(function_builder.params().next().is_none());
            });
            assert_eq!(function.param_name(0), None);
        });
    });
}

#[test]
fn parameters_can_be_named_in_any_state() {
    id::with(|cid| {
        let context = Context::new(cid);
        id::with(|mid| {
            let mut module = Module::new(mid, "m", &context);
            let double = Type::double(&context);
            let signature = Type::function(&[&double, &double], &double, false);
            let mut module_builder = module.builder();
            let function = module_builder.add_function("f", &signature).unwrap();
            assert_eq!(function.param_name(0), Some(""));
            assert_eq!(function.param_name(1), Some(""));
            assert_eq!(function.param_name(2), None);
            id::with(|fid| {
                let mut function_builder = function.builder(fid);
                let mut params = function_builder.params();
                let x = params.next().unwrap();
                let y = params.next().unwrap();
                x.set_name(&mut function_builder, "x");
                assert_eq!(function_builder.function.state(), FunctionState::Declared);
                let _ = function_builder.append_basic_block("entry", &context);
                y.set_name(&mut function_builder, "y");
                assert_eq!(function_builder.function.num_value_names(), 0);
                assert_eq!(function_builder.function.display_name(&x.as_raw()), Some("x"));
                assert_eq!(function_builder.function.display_name(&y.as_raw()), Some("y"));
                x.set_name(&mut function_builder, "first");
                assert_eq!(function_builder.function.display_name(&x.as_raw()), Some("first"));
                x.set_name(&mut function_builder, "x");
                assert_eq!(function_builder.function.state(), FunctionState::Defined);
                assert_eq!(function_builder.function.num_blocks(), 1);
            });
            assert_eq!(function.param_name(0), Some("x"));
            assert_eq!(function.param_name(1), Some("y"));
            assert_eq!(function.name(), "f");
        });
    });
}

#[test]
fn any_value_can_be_named_in_any_state() {
    id::with(|cid| {
        let context = Context::new(cid);
        id::with(|mid| {
            let mut module = Module::new(mid, "m", &context);
            let double = Type::double(&context);
            let signature = Type::function(&[&double], &double, false);
            let mut builder = Builder::new(&context);
            let mut module_builder = module.builder();
            let global = module_builder.add_global("g", &double).unwrap();
            let function = module_builder.add_function("f", &signature).unwrap();
            let callee = function.label();
            id::with(|fid| {
                let mut function_builder = function.builder(fid);
                let x = function_builder.params().next().unwrap();
                let constant: Value<Type> = upcast(&llvm_safe::llvm::Constant::double(0, &context));
                constant.set_name(&mut function_builder, "zero");
                assert_eq!(function_builder.function.state(), FunctionState::Declared);
                assert_eq!(function_builder.function.num_value_names(), 1);

                let (_, mut entry) = function_builder.append_basic_block("entry", &context);
                let sum = builder.position_at_end(&mut entry).fadd(&x, &x, "sum");
                sum.set_name(&mut function_builder, "renamed");
                sum.set_name(&mut function_builder, "renamed again");
                let place: Value<llvm_safe::llvm::PointerType<Type>> = upcast(&global);
                place.set_name(&mut function_builder, "place");
                let called: Value<Type> = callee.as_value();
                called.set_name(&mut function_builder, "self");

                let function = &function_builder.function;
                assert_eq!(function.state(), FunctionState::Defined);
                assert_eq!(function.num_blocks(), 1);
                assert_eq!(function.param_name(0), Some(""));
                assert_eq!(function.param_name(1), None);
                assert_eq!(function.num_value_names(), 5);
                let expected = [
                    (constant.as_raw(), "zero"),
                    (sum.as_raw(), "renamed"),
                    (sum.as_raw(), "renamed again"),
                    (place.as_raw(), "place"),
                    (called.as_raw(), "self"),
                ];
                for (position, (raw, name)) in expected.iter().enumerate() {
                    let (found, found_name) = function.value_name(position).unwrap();
                    assert!(found.same(raw));
                    assert_eq!(found_name, *name);
                }
                assert!(function.value_name(5).is_none());
                assert_eq!(function.display_name(&sum.as_raw()), Some("renamed again"));
                assert_eq!(function.display_name(&constant.as_raw()), Some("zero"));
                assert_eq!(function.display_name(&place.as_raw()), Some("place"));
                assert_eq!(function.display_name(&called.as_raw()), Some("self"));
                assert_eq!(function.display_name(&x.as_raw()), Some(""));
                assert_eq!(function.display_name(&RawValue::Parameter(1)), None);
                assert_eq!(function.display_name(&RawValue::Global(7)), None);
                assert!(matches!(sum.as_raw(), RawValue::Instruction(0, 0, _)));
                assert_eq!(entry.len(), 1);
                assert_eq!(entry.instruction(0).unwrap().name(), "sum");
            });
        });
    });
}

#[test]
fn the_whole_body_is_every_block_in_order() {
    id::with(|cid| {
        let context = Context::new(cid);
        id::with(|mid| {
            let mut module = Module::new(mid, "m", &context);
            let void = Type::void(&context);
            let signature = Type::function(&[], &void, false);
            let mut module_builder = module.builder();
            let function = module_builder.add_function("f", &signature).unwrap();
            id::with(|fid| {
                let mut function_builder = function.builder(fid);
                assert!(function_builder.is_body(&[]));
                let (_, entry) = function_builder.append_basic_block("entry", &context);
                let (_, exit) = function_builder.append_basic_block("exit", &context);
                assert!(function_builder.is_body(&[&entry, &exit]));
                assert!(!function_builder.is_body(&[&exit, &entry]));
                assert!(!function_builder.is_body(&[&entry]));
                assert!(!function_builder.is_body(&[&exit]));
                assert!(!function_builder.is_body(&[]));
                assert!(!function_builder.is_body(&[&entry, &exit, &exit]));
                assert!(!function_builder.is_body(&[&entry, &entry]));
            });
        });
    });
}
