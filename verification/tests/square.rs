use llvm_safe::id;
use llvm_safe::llvm::{
    BinaryOp, Builder, Context, FunctionState, Instruction, Module, Opcode, RawValue, Type,
};

#[test]
fn square_has_one_block_of_two_instructions() {
    id::with(|context_id| {
        let context = Context::new(context_id);
        id::with(|module_id| {
            let mut module = Module::new(module_id, "mymodule", &context);
            let double = Type::double(&context);
            let signature = Type::function(&[&double], &double, false);
            let mut builder = Builder::new(&context);
            let mut module_builder = module.builder();
            let function = module_builder.add_function("square", &signature).unwrap();
            assert_eq!(function.state(), FunctionState::Declared);
            id::with(|function_id| {
                let mut function_builder = function.builder(function_id);
                let param = function_builder.params().next().unwrap();
                let (_, mut entry) = function_builder.append_basic_block("entry", &context);
                let product = {
                    let mut positioned = builder.position_at_end(&mut entry);
                    let product = positioned.mul(&param, &param, "square");
                    positioned.ret(&product);
                    product
                };
                assert_eq!(entry.len(), 2);
                assert_eq!(entry.instruction(0).unwrap().opcode(), Opcode::Binary(BinaryOp::Mul));
                assert_eq!(entry.instruction(1).unwrap().opcode(), Opcode::Ret);
                match entry.instruction(0).unwrap() {
                    Instruction::Binary { op, lhs, rhs, name } => {
                        assert_eq!(*op, BinaryOp::Mul);
                        assert!(matches!(lhs, RawValue::Parameter(0)));
                        assert!(matches!(rhs, RawValue::Parameter(0)));
                        assert_eq!(name, "square");
                    }
                    _ => panic!("not a product"),
                }
                match entry.instruction(1).unwrap() {
                    Instruction::Ret { value: Some(value) } => {
                        assert!(value.same(&product.as_raw()));
                    }
                    _ => panic!("not a return of a value"),
                }
                assert!(entry.instruction(2).is_none());
                assert_eq!(function_builder.function.num_blocks(), 1);
            });
            assert_eq!(function.state(), FunctionState::Defined);
        });
    });
}
