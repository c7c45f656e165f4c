use llvm_safe::id;
use llvm_safe::inheritance::upcast;
use llvm_safe::llvm::{
    BinaryOp, Builder, CastOp, Constant, Context, Instruction, IntegerType, LLVMIntPredicate,
    LLVMRealPredicate, Misplaced, Module, Opcode, Phi, PointerType, RawValue, Type, TypeShape,
    UnaryOp, Value, ValueKind,
};

#[test]
fn if_then_else_merges_in_a_phi() {
    id::with(|cid| {
        let context = Context::new(cid);
        id::with(|mid| {
            let mut module = Module::new(mid, "m", &context);
            let double = Type::double(&context);
            let signature = Type::function(&[&double], &double, false);
            let mut builder = Builder::new(&context);
            let mut module_builder = module.builder();
            let function = module_builder.add_function("choose", &signature).unwrap();
            id::with(|fid| {
                let mut function_builder = function.builder(fid);
                let x = function_builder.params().next().unwrap();
                let (_, mut entry) = function_builder.append_basic_block("entry", &context);
                let (then_label, mut then_block) =
                    function_builder.append_basic_block("then", &context);
                let (else_label, mut else_block) =
                    function_builder.append_basic_block("else", &context);
                let (merge_label, mut merge_block) =
                    function_builder.append_basic_block("merge", &context);
                let zero: Value<Type> = upcast(&Constant::double(0, &context));

                let mut positioned = builder.position_at_end(&mut entry);
                let cond = positioned.fcmp(LLVMRealPredicate::LLVMRealONE, &x, &zero, "ifcond");
                positioned.cond_br(&cond, &then_label, &else_label);

                positioned.position_at_end(&mut then_block);
                let then_value = positioned.fadd(&x, &x, "twice");
                positioned.br(&merge_label);
                let then_end = positioned.get_position();

                positioned.position_at_end(&mut else_block);
                let else_value = positioned.fneg(&x, "neg");
                positioned.br(&merge_label);
                let else_end = positioned.get_position();

                positioned.position_at_end(&mut merge_block);
                let phi = positioned.phi(&double, "iftmp");
                assert_eq!(phi.add_incoming_branch(positioned.block, &then_value, &then_end), Ok(()));
                assert_eq!(phi.add_incoming_branch(positioned.block, &else_value, &else_end), Ok(()));
                let merged = phi.as_value();
                positioned.ret(&merged);

                let wide: Value<Type> = upcast(&phi);
                let back = Phi::downcast_value(&wide).unwrap();
                assert!(back.as_raw().same(&phi.as_raw()));

                assert_eq!(function_builder.function.num_blocks(), 4);
                assert_eq!(entry.len(), 2);
                assert_eq!(then_block.len(), 2);
                assert_eq!(else_block.len(), 2);
                assert_eq!(merge_block.len(), 2);
                assert_eq!(then_end.as_raw(), 1);
                assert_eq!(else_end.as_raw(), 2);

                match entry.instruction(0).unwrap() {
                    Instruction::FCmp { pred, lhs, rhs, name } => {
                        assert_eq!(*pred, LLVMRealPredicate::LLVMRealONE);
                        assert!(lhs.same(&x.as_raw()));
                        assert!(rhs.same(&zero.as_raw()));
                        assert_eq!(name, "ifcond");
                    }
                    _ => panic!("not a comparison"),
                }
                match entry.instruction(1).unwrap() {
                    Instruction::CondBr { cond: found, on_true, on_false } => {
                        assert!(found.same(&cond.as_raw()));
                        assert_eq!(*on_true, 1);
                        assert_eq!(*on_false, 2);
                    }
                    _ => panic!("not a conditional branch"),
                }
                assert!(matches!(then_block.instruction(1).unwrap(), Instruction::Br { target: 3 }));
                assert!(matches!(else_block.instruction(1).unwrap(), Instruction::Br { target: 3 }));
                match merge_block.instruction(0).unwrap() {
                    Instruction::Phi { ty, incoming, name } => {
                        assert!(matches!(ty, TypeShape::Double));
                        assert_eq!(name, "iftmp");
                        assert_eq!(incoming.len(), 2);
                        assert!(incoming[0].0.same(&then_value.as_raw()));
                        assert_eq!(incoming[0].1, 1);
                        assert!(incoming[1].0.same(&else_value.as_raw()));
                        assert_eq!(incoming[1].1, 2);
                    }
                    _ => panic!("not a phi"),
                }
                match merge_block.instruction(1).unwrap() {
                    Instruction::Ret { value: Some(value) } => assert!(value.same(&phi.as_raw())),
                    _ => panic!("not a return of a value"),
                }
            });
        });
    });
}

#[test]
fn every_instruction_goes_to_the_end_of_the_current_block() {
    id::with(|cid| {
        let context = Context::new(cid);
        id::with(|mid| {
            let mut module = Module::new(mid, "m", &context);
            let i32_ty = Type::i32(&context);
            let i32_root: Type = upcast(&i32_ty);
            let signature = Type::function(&[&i32_root, &i32_root], &i32_root, false);
            let mut builder = Builder::new(&context);
            let mut module_builder = module.builder();
            let function = module_builder.add_function("f", &signature).unwrap();
            id::with(|fid| {
                let mut function_builder = function.builder(fid);
                let mut params = function_builder.params();
                let a = params.next().unwrap();
                let b = params.next().unwrap();
                let (_, first) = function_builder.append_basic_block("first", &context);
                let (_, mut second) = function_builder.append_basic_block("second", &context);
                let binary = [
                    BinaryOp::Add,
                    BinaryOp::AddNsw,
                    BinaryOp::AddNuw,
                    BinaryOp::FAdd,
                    BinaryOp::Sub,
                    BinaryOp::SubNsw,
                    BinaryOp::SubNuw,
                    BinaryOp::FSub,
                    BinaryOp::Mul,
                    BinaryOp::MulNsw,
                    BinaryOp::MulNuw,
                    BinaryOp::FMul,
                    BinaryOp::UDiv,
                    BinaryOp::UDivExact,
                    BinaryOp::SDiv,
                    BinaryOp::SDivExact,
                    BinaryOp::FDiv,
                    BinaryOp::URem,
                    BinaryOp::SRem,
                    BinaryOp::FRem,
                    BinaryOp::Shl,
                    BinaryOp::LShr,
                    BinaryOp::AShr,
                    BinaryOp::And,
                    BinaryOp::Or,
                    BinaryOp::Xor,
                ];
                let unary = [UnaryOp::Neg, UnaryOp::FNeg, UnaryOp::Not];
                {
                    let mut positioned = builder.position_at_end(&mut second);
                    let results = [
                        positioned.add(&a, &b, "r0"),
                        positioned.add_nsw(&a, &b, "r1"),
                        positioned.add_nuw(&a, &b, "r2"),
                        positioned.fadd(&a, &b, "r3"),
                        positioned.sub(&a, &b, "r4"),
                        positioned.sub_nsw(&a, &b, "r5"),
                        positioned.sub_nuw(&a, &b, "r6"),
                        positioned.fsub(&a, &b, "r7"),
                        positioned.mul(&a, &b, "r8"),
                        positioned.mul_nsw(&a, &b, "r9"),
                        positioned.mul_nuw(&a, &b, "r10"),
                        positioned.fmul(&a, &b, "r11"),
                        positioned.udiv(&a, &b, "r12"),
                        positioned.udiv_exact(&a, &b, "r13"),
                        positioned.sdiv(&a, &b, "r14"),
                        positioned.sdiv_exact(&a, &b, "r15"),
                        positioned.fdiv(&a, &b, "r16"),
                        positioned.urem(&a, &b, "r17"),
                        positioned.srem(&a, &b, "r18"),
                        positioned.frem(&a, &b, "r19"),
                        positioned.shl(&a, &b, "r20"),
                        positioned.lshr(&a, &b, "r21"),
                        positioned.ashr(&a, &b, "r22"),
                        positioned.and(&a, &b, "r23"),
                        positioned.or(&a, &b, "r24"),
                        positioned.xor(&a, &b, "r25"),
                        positioned.neg(&a, "r26"),
                        positioned.fneg(&a, "r27"),
                        positioned.not(&a, "r28"),
                        positioned.icmp(LLVMIntPredicate::LLVMIntSLT, &a, &b, "r29"),
                        positioned.fcmp(LLVMRealPredicate::LLVMRealULT, &a, &b, "r30"),
                    ];
                    for (index, value) in results.iter().enumerate() {
                        let opcode = if index < 26 {
                            Opcode::Binary(binary[index])
                        } else if index < 29 {
                            Opcode::Unary(unary[index - 26])
                        } else if index == 29 {
                            Opcode::ICmp
                        } else {
                            Opcode::FCmp
                        };
                        assert_eq!(value.kind(), ValueKind::Instruction(opcode));
                        assert!(matches!(
                            value.as_raw(),
                            RawValue::Instruction(1, position, found)
                                if position == index && found == opcode
                        ));
                    }
                }
                assert_eq!(first.len(), 0);
                assert_eq!(second.len(), 31);
                for index in 0..31 {
                    let instruction = second.instruction(index).unwrap();
                    assert_eq!(instruction.name(), format!("r{}", index));
                    match instruction {
                        Instruction::Binary { op, lhs, rhs, .. } => {
                            assert!(index < 26);
                            assert_eq!(*op, binary[index]);
                            assert!(lhs.same(&a.as_raw()));
                            assert!(rhs.same(&b.as_raw()));
                        }
                        Instruction::Unary { op, value, .. } => {
                            assert!((26..29).contains(&index));
                            assert_eq!(*op, unary[index - 26]);
                            assert!(value.same(&a.as_raw()));
                        }
                        Instruction::ICmp { pred, lhs, rhs, .. } => {
                            assert_eq!(index, 29);
                            assert_eq!(*pred, LLVMIntPredicate::LLVMIntSLT);
                            assert!(lhs.same(&a.as_raw()));
                            assert!(rhs.same(&b.as_raw()));
                        }
                        Instruction::FCmp { pred, lhs, rhs, .. } => {
                            assert_eq!(index, 30);
                            assert_eq!(*pred, LLVMRealPredicate::LLVMRealULT);
                            assert!(lhs.same(&a.as_raw()));
                            assert!(rhs.same(&b.as_raw()));
                        }
                        _ => panic!("an instruction that was not asked for"),
                    }
                }
                assert!(second.instruction(31).is_none());
                assert_eq!(second.opcode_at(8), Some(Opcode::Binary(BinaryOp::Mul)));
                assert_eq!(second.opcode_at(31), None);
            });
        });
    });
}

#[test]
fn casts_record_value_and_destination() {
    id::with(|cid| {
        let context = Context::new(cid);
        id::with(|mid| {
            let mut module = Module::new(mid, "m", &context);
            let i64_ty = Type::i64(&context);
            let i64_root: Type = upcast(&i64_ty);
            let double = Type::double(&context);
            let pointer = Type::pointer(&i64_ty, 0);
            let signature = Type::function(&[&i64_root], &i64_root, false);
            let mut builder = Builder::new(&context);
            let mut module_builder = module.builder();
            let function = module_builder.add_function("f", &signature).unwrap();
            id::with(|fid| {
                let mut function_builder = function.builder(fid);
                let x = function_builder.params().next().unwrap();
                let (_, mut entry) = function_builder.append_basic_block("entry", &context);
                {
                    let mut positioned = builder.position_at_end(&mut entry);
                    let _ = positioned.trunc(&x, &i64_ty, "c");
                    let _ = positioned.fp_trunc(&x, &double, "c");
                    let _ = positioned.zext(&x, &i64_ty, "c");
                    let _ = positioned.sext(&x, &i64_ty, "c");
                    let _ = positioned.fp_ext(&x, &double, "c");
                    let _ = positioned.fp_to_ui(&x, &i64_ty, "c");
                    let _ = positioned.fp_to_si(&x, &i64_ty, "c");
                    let _ = positioned.ui_to_fp(&x, &double, "c");
                    let _ = positioned.si_to_fp(&x, &double, "c");
                    let _ = positioned.ptr_to_int(&x, &i64_ty, "c");
                    let as_pointer: Value<PointerType<IntegerType>> =
                        positioned.int_to_ptr(&x, &pointer, "c");
                    let _ = positioned.bitcast(&x, &double, "c");
                    assert_eq!(
                        as_pointer.kind(),
                        ValueKind::Instruction(Opcode::Cast(CastOp::IntToPtr))
                    );
                }
                let integer = TypeShape::Integer(64);
                let real = TypeShape::Double;
                let address = TypeShape::Pointer(Box::new(TypeShape::Integer(64)), 0);
                let expected = [
                    (CastOp::Trunc, &integer),
                    (CastOp::FpTrunc, &real),
                    (CastOp::ZExt, &integer),
                    (CastOp::SExt, &integer),
                    (CastOp::FpExt, &real),
                    (CastOp::FpToUi, &integer),
                    (CastOp::FpToSi, &integer),
                    (CastOp::UiToFp, &real),
                    (CastOp::SiToFp, &real),
                    (CastOp::PtrToInt, &integer),
                    (CastOp::IntToPtr, &address),
                    (CastOp::BitCast, &real),
                ];
                assert_eq!(entry.len(), expected.len());
                for (index, (expected_op, expected_dest)) in expected.iter().enumerate() {
                    match entry.instruction(index).unwrap() {
                        Instruction::Cast { op, value, dest, name } => {
                            assert_eq!(op, expected_op);
                            assert!(value.same(&x.as_raw()));
                            assert!(dest.same(expected_dest));
                            assert_eq!(name, "c");
                        }
                        _ => panic!("not a cast"),
                    }
                }
            });
        });
    });
}

#[test]
fn memory_instructions_record_their_operands() {
    id::with(|cid| {
        let context = Context::new(cid);
        id::with(|mid| {
            let mut module = Module::new(mid, "m", &context);
            let i8_ty = Type::i8(&context);
            let i8_root: Type = upcast(&i8_ty);
            let i64_ty = Type::i64(&context);
            let byte_pointer = Type::pointer(&i8_root, 0);
            let pointer_root: Type = upcast(&byte_pointer);
            let i64_root: Type = upcast(&i64_ty);
            let signature = Type::function(&[&pointer_root, &i64_root], &i8_root, false);
            let callee_signature = Type::function(&[&i64_root, &i64_root], &i64_root, false);
            let mut builder = Builder::new(&context);
            let mut module_builder = module.builder();
            let callee = module_builder.add_function("callee", &callee_signature).unwrap().label();
            let function = module_builder.add_function("f", &signature).unwrap();
            id::with(|fid| {
                let mut function_builder = function.builder(fid);
                let mut params = function_builder.params();
                let raw_pointer = params.next().unwrap();
                let size = params.next().unwrap();
                let (_, mut entry) = function_builder.append_basic_block("entry", &context);
                let index: Value<IntegerType> = upcast(&Constant::integer(3, &i64_ty, false));
                let zero: Value<Type> = upcast(&Constant::i8(0, &context));
                let mut positioned = builder.position_at_end(&mut entry);

                let pointer: Value<PointerType<Type>> =
                    positioned.bitcast(&raw_pointer, &byte_pointer, "p");
                let element = positioned.get_element_ptr(&i8_root, &pointer, &[&index], "e");
                let inside =
                    positioned.get_element_ptr_in_bounds(&i8_root, &pointer, &[&index, &index], "i");
                let set = positioned.memset(&pointer, &zero, &size, 8);
                let copy = positioned.memcpy(&element, 4, &pointer, 2, &size);
                let moved = positioned.memmove(&inside, 1, &pointer, 16, &size);
                let loaded: Value<IntegerType> = positioned.load(&i8_ty, &element, "l");
                let loaded_root: Value<Type> = upcast(&loaded);
                positioned.store(&loaded_root, &inside);
                let result = positioned.call(
                    &callee_signature,
                    &callee.as_value(),
                    &[&size, &size],
                    "calltmp",
                );
                let nothing = positioned.call(&callee_signature, &callee.as_value(), &[], "");
                positioned.unreachable();
                positioned.ret_void();
                assert_eq!(element.kind(), ValueKind::Instruction(Opcode::GetElementPtr));
                assert_eq!(inside.kind(), ValueKind::Instruction(Opcode::GetElementPtrInBounds));
                assert_eq!(set.kind(), ValueKind::Instruction(Opcode::MemSet));
                assert_eq!(copy.kind(), ValueKind::Instruction(Opcode::MemCpy));
                assert_eq!(moved.kind(), ValueKind::Instruction(Opcode::MemMove));
                assert_eq!(loaded.kind(), ValueKind::Instruction(Opcode::Load));
                assert_eq!(result.kind(), ValueKind::Instruction(Opcode::Call));
                assert_eq!(nothing.kind(), ValueKind::Instruction(Opcode::Call));

                let block = &positioned.block;
                assert_eq!(block.len(), 12);
                match block.instruction(1).unwrap() {
                    Instruction::GetElementPtr { in_bounds, ty, ptr, indices, name } => {
                        assert!(!*in_bounds);
                        assert!(matches!(ty, TypeShape::Integer(8)));
                        assert!(ptr.same(&pointer.as_raw()));
                        assert_eq!(indices.len(), 1);
                        assert!(indices[0].same(&index.as_raw()));
                        assert_eq!(name, "e");
                    }
                    _ => panic!("not an address computation"),
                }
                match block.instruction(2).unwrap() {
                    Instruction::GetElementPtr { in_bounds, indices, name, .. } => {
                        assert!(*in_bounds);
                        assert_eq!(indices.len(), 2);
                        assert_eq!(name, "i");
                    }
                    _ => panic!("not an address computation"),
                }
                match block.instruction(3).unwrap() {
                    Instruction::MemSet { ptr, value, len, align } => {
                        assert!(ptr.same(&pointer.as_raw()));
                        assert!(value.same(&zero.as_raw()));
                        assert!(len.same(&size.as_raw()));
                        assert_eq!(*align, 8);
                    }
                    _ => panic!("not a memory set"),
                }
                match block.instruction(4).unwrap() {
                    Instruction::MemCpy { dest, dest_align, src, src_align, size: bytes } => {
                        assert!(dest.same(&element.as_raw()));
                        assert_eq!(*dest_align, 4);
                        assert!(src.same(&pointer.as_raw()));
                        assert_eq!(*src_align, 2);
                        assert!(bytes.same(&size.as_raw()));
                    }
                    _ => panic!("not a memory copy"),
                }
                match block.instruction(5).unwrap() {
                    Instruction::MemMove { dest, dest_align, src, src_align, size: bytes } => {
                        assert!(dest.same(&inside.as_raw()));
                        assert_eq!(*dest_align, 1);
                        assert!(src.same(&pointer.as_raw()));
                        assert_eq!(*src_align, 16);
                        assert!(bytes.same(&size.as_raw()));
                    }
                    _ => panic!("not a memory move"),
                }
                match block.instruction(6).unwrap() {
                    Instruction::Load { ty, ptr, name } => {
                        assert!(matches!(ty, TypeShape::Integer(8)));
                        assert!(ptr.same(&element.as_raw()));
                        assert_eq!(name, "l");
                    }
                    _ => panic!("not a load"),
                }
                match block.instruction(7).unwrap() {
                    Instruction::Store { value, ptr } => {
                        assert!(value.same(&loaded.as_raw()));
                        assert!(ptr.same(&inside.as_raw()));
                    }
                    _ => panic!("not a store"),
                }
                match block.instruction(8).unwrap() {
                    Instruction::Call { ty, func, args, name } => {
                        assert!(ty.same(&callee_signature.as_raw()));
                        assert!(func.same(&RawValue::Function(0)));
                        assert_eq!(args.len(), 2);
                        assert!(args[0].same(&size.as_raw()));
                        assert!(args[1].same(&size.as_raw()));
                        assert_eq!(name, "calltmp");
                    }
                    _ => panic!("not a call"),
                }
                match block.instruction(9).unwrap() {
                    Instruction::Call { args, name, .. } => {
                        assert!(args.is_empty());
                        assert_eq!(name, "");
                    }
                    _ => panic!("not a call"),
                }
                assert!(matches!(block.instruction(10).unwrap(), Instruction::Unreachable));
                assert!(matches!(block.instruction(11).unwrap(), Instruction::Ret { value: None }));
                assert_eq!(block.instruction(3).unwrap().name(), "");
                assert_eq!(block.instruction(11).unwrap().opcode(), Opcode::RetVoid);
            });
        });
    });
}

#[test]
fn an_alloca_takes_an_alignment_in_its_own_block_only() {
    id::with(|cid| {
        let context = Context::new(cid);
        id::with(|mid| {
            let mut module = Module::new(mid, "m", &context);
            let void = Type::void(&context);
            let i32_ty = Type::i32(&context);
            let i32_root: Type = upcast(&i32_ty);
            let signature = Type::function(&[&i32_root], &void, false);
            let mut builder = Builder::new(&context);
            let mut module_builder = module.builder();
            let function = module_builder.add_function("f", &signature).unwrap();
            id::with(|fid| {
                let mut function_builder = function.builder(fid);
                let count = function_builder.params().next().unwrap();
                let (_, mut entry) = function_builder.append_basic_block("entry", &context);
                let (_, mut other) = function_builder.append_basic_block("other", &context);
                let (slot, slots) = {
                    let mut positioned = builder.position_at_end(&mut entry);
                    let slot = positioned.alloca(&i32_ty, "slot");
                    let slots = positioned.array_alloca(&i32_ty, &count, "slots");
                    positioned.ret_void();
                    (slot, slots)
                };
                {
                    let mut positioned = builder.position_at_end(&mut other);
                    positioned.ret_void();
                }
                let alignment_at = |block: &llvm_safe::llvm::BasicBlock, index: usize| {
                    match block.instruction(index).unwrap() {
                        Instruction::Alloca { alignment, .. } => Some(*alignment),
                        _ => None,
                    }
                };
                assert_eq!(alignment_at(&entry, 0), Some(0));
                assert_eq!(slot.set_alignment(&mut other, 16), Err(Misplaced));
                assert_eq!(other.len(), 1);
                assert!(matches!(other.instruction(0).unwrap(), Instruction::Ret { value: None }));
                assert_eq!(slot.set_alignment(&mut entry, 16), Ok(()));
                assert_eq!(alignment_at(&entry, 0), Some(16));
                assert_eq!(alignment_at(&entry, 1), Some(0));
                assert_eq!(slots.set_alignment(&mut entry, 8), Ok(()));
                assert_eq!(alignment_at(&entry, 1), Some(8));
                assert_eq!(slot.set_alignment(&mut entry, 4), Ok(()));
                assert_eq!(alignment_at(&entry, 0), Some(4));
                assert_eq!(entry.len(), 3);
                match entry.instruction(0).unwrap() {
                    Instruction::Alloca { ty, len, name, .. } => {
                        assert!(matches!(ty, TypeShape::Integer(32)));
                        assert!(len.is_none());
                        assert_eq!(name, "slot");
                    }
                    _ => panic!("not a stack allocation"),
                }
                match entry.instruction(1).unwrap() {
                    Instruction::Alloca { len: Some(len), name, .. } => {
                        assert!(len.same(&count.as_raw()));
                        assert_eq!(name, "slots");
                    }
                    _ => panic!("not a stack allocation of an array"),
                }
            });
        });
    });
}

#[test]
fn a_phi_takes_edges_in_its_own_block_only() {
    id::with(|cid| {
        let context = Context::new(cid);
        id::with(|mid| {
            let mut module = Module::new(mid, "m", &context);
            let i32_ty = Type::i32(&context);
            let i32_root: Type = upcast(&i32_ty);
            let signature = Type::function(&[&i32_root], &i32_root, false);
            let mut builder = Builder::new(&context);
            let mut module_builder = module.builder();
            let function = module_builder.add_function("f", &signature).unwrap();
            id::with(|fid| {
                let mut function_builder = function.builder(fid);
                let x = function_builder.params().next().unwrap();
                let (entry_label, mut entry) = function_builder.append_basic_block("entry", &context);
                let (_, mut exit) = function_builder.append_basic_block("exit", &context);
                {
                    let mut positioned = builder.position_at_end(&mut entry);
                    let _ = positioned.add(&x, &x, "sum");
                }
                let phi = builder.position_at_end(&mut exit).phi(&i32_root, "phi");
                assert_eq!(phi.add_incoming_branch(&mut entry, &x, &entry_label), Err(Misplaced));
                assert!(matches!(entry.instruction(0).unwrap(), Instruction::Binary { .. }));
                assert_eq!(entry.len(), 1);
                match exit.instruction(0).unwrap() {
                    Instruction::Phi { incoming, .. } => assert!(incoming.is_empty()),
                    _ => panic!("not a phi"),
                }
                assert_eq!(phi.add_incoming_branch(&mut exit, &x, &entry_label), Ok(()));
                match exit.instruction(0).unwrap() {
                    Instruction::Phi { incoming, .. } => {
                        assert_eq!(incoming.len(), 1);
                        assert!(incoming[0].0.same(&x.as_raw()));
                        assert_eq!(incoming[0].1, 0);
                    }
                    _ => panic!("not a phi"),
                }
                assert_eq!(exit.len(), 1);
            });
        });
    });
}

#[test]
fn repositioning_keeps_what_was_inserted() {
    id::with(|cid| {
        let context = Context::new(cid);
        id::with(|mid| {
            let mut module = Module::new(mid, "m", &context);
            let void = Type::void(&context);
            let signature = Type::function(&[], &void, false);
            let mut builder = Builder::new(&context);
            let mut module_builder = module.builder();
            let function = module_builder.add_function("jumpy", &signature).unwrap();
            id::with(|fid| {
                let mut function_builder = function.builder(fid);
                let (_, mut entry) = function_builder.append_basic_block("entry", &context);
                let (exit_label, mut exit) = function_builder.append_basic_block("exit", &context);
                {
                    let mut positioned = builder.position_at_end(&mut entry);
                    assert_eq!(positioned.get_position().as_raw(), 0);
                    let jump = positioned.br(&exit_label);
                    assert_eq!(jump.kind(), ValueKind::Instruction(Opcode::Br));
                    positioned.position_at_end(&mut exit);
                    assert_eq!(positioned.get_position().as_raw(), 1);
                    positioned.ret_void();
                }
                assert_eq!(entry.len(), 1);
                assert_eq!(exit.len(), 1);
                {
                    let mut positioned = builder.position_at_end(&mut entry);
                    positioned.unreachable();
                }
                assert_eq!(entry.len(), 2);
                assert_eq!(entry.instruction(0).unwrap().opcode(), Opcode::Br);
                assert_eq!(entry.instruction(1).unwrap().opcode(), Opcode::Unreachable);
                assert_eq!(exit.len(), 1);
            });
        });
    });
}
