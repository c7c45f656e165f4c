use llvm_safe::id;
use llvm_safe::llvm::target::outcome;
use llvm_safe::llvm::{Context, FunctionPassManager, Module, Pass, Type};

#[test]
fn passes_run_in_the_order_in_which_they_were_added() {
    id::with(|cid| {
        let context = Context::new(cid);
        id::with(|mid| {
            let mut module = Module::new(mid, "m", &context);
            let mut manager = FunctionPassManager::new(&module);
            assert_eq!(manager.len(), 0);
            assert_eq!(manager.pass(0), None);
            manager.add_aggressive_dce();
            manager.add_basic_alias_analysis();
            manager.add_gvn();
            manager.add_instruction_combine();
            manager.add_mem_cpy_opt();
            manager.add_memory_to_register();
            manager.add_reassociate();
            manager.add_scalar_repl_aggregates();
            manager.add_simplify_cfg();
            let expected = [
                Pass::AggressiveDce,
                Pass::BasicAliasAnalysis,
                Pass::Gvn,
                Pass::InstructionCombine,
                Pass::MemCpyOpt,
                Pass::MemoryToRegister,
                Pass::Reassociate,
                Pass::ScalarReplAggregates,
                Pass::SimplifyCfg,
            ];
            assert_eq!(manager.len(), expected.len());
            for (position, pass) in expected.iter().enumerate() {
                assert_eq!(manager.pass(position), Some(*pass));
            }
            assert_eq!(manager.pass(expected.len()), None);

            let void = Type::void(&context);
            let signature = Type::function(&[], &void, false);
            let mut module_builder = module.builder();
            {
                let mut ready = manager.initialize(&module_builder);
                let function = module_builder.add_function("f", &signature).unwrap();
                assert_eq!(function.num_pipelines(), 0);
                assert!(function.pipeline(0).is_none());
                ready.run(function);
                ready.run(function);
                assert_eq!(function.num_pipelines(), 2);
                assert_eq!(function.pipeline(0).unwrap().as_slice(), &expected[..]);
                assert_eq!(function.pipeline(1).unwrap().as_slice(), &expected[..]);
                assert!(function.pipeline(2).is_none());
                assert_eq!(function.num_blocks(), 0);
            }
            manager.add_gvn();
            assert_eq!(manager.len(), expected.len() + 1);
        });
    });
}

#[test]
fn an_empty_pipeline_is_recorded_as_empty() {
    id::with(|cid| {
        let context = Context::new(cid);
        id::with(|mid| {
            let mut module = Module::new(mid, "m", &context);
            let mut manager = FunctionPassManager::new(&module);
            let void = Type::void(&context);
            let signature = Type::function(&[], &void, false);
            let mut module_builder = module.builder();
            let mut ready = manager.initialize(&module_builder);
            let function = module_builder.add_function("f", &signature).unwrap();
            ready.run(function);
            assert_eq!(function.num_pipelines(), 1);
            assert!(function.pipeline(0).unwrap().is_empty());
        });
    });
}

#[test]
fn a_zero_status_is_success_and_any_other_is_failure() {
    assert_eq!(outcome(0, 5, String::from("unused")), Ok(5));
    assert_eq!(outcome(1, 5, String::from("no such target")), Err(String::from("no such target")));
    assert_eq!(outcome(-1, (), String::from("failed")), Err(String::from("failed")));
    assert_eq!(outcome(i32::MAX, (), String::new()), Err(String::new()));
}

#[test]
fn an_initialized_manager_runs_the_pipeline_it_was_made_with() {
    id::with(|cid| {
        let context = Context::new(cid);
        id::with(|mid| {
            let mut module = Module::new(mid, "m", &context);
            let mut manager = FunctionPassManager::new(&module);
            manager.add_gvn();
            let void = Type::void(&context);
            let signature = Type::function(&[], &void, false);
            let mut module_builder = module.builder();
            {
                let mut ready = manager.initialize(&module_builder);
                let function = module_builder.add_function("f", &signature).unwrap();
                ready.run(function);
                assert_eq!(function.pipeline(0).unwrap().as_slice(), &[Pass::Gvn][..]);
            }
            manager.add_simplify_cfg();
            {
                let mut ready = manager.initialize(&module_builder);
                let function = module_builder.add_function("f", &signature).unwrap();
                ready.run(function);
                assert_eq!(function.num_pipelines(), 2);
                assert_eq!(function.pipeline(0).unwrap().as_slice(), &[Pass::Gvn][..]);
                assert_eq!(
                    function.pipeline(1).unwrap().as_slice(),
                    &[Pass::Gvn, Pass::SimplifyCfg][..]
                );
            }
            assert_eq!(manager.len(), 2);
        });
    });
}
