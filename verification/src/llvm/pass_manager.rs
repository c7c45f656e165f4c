//! The function pass manager.
//!
//! A pass manager collects a pipeline of optimization passes for the functions
//! of one module. Initializing it makes an initialized manager, which holds the
//! pipeline as it then is and runs it on functions. The initialized manager
//! borrows the manager it came from, so that one cannot be reached, and its
//! pipeline cannot change, until the initialized manager is given up.

use std::marker::PhantomData;
use vstd::prelude::*;
use crate::id::IdRef;
use crate::llvm::function::Function;
use crate::llvm::module::{Module, ModuleBuilder};
use crate::owned::{Disposal, DropInPlace, Owned};

verus! {

/// An optimization pass.
#[derive(Clone, Copy, Debug, PartialEq, Eq, Structural)]
pub enum Pass {
    AggressiveDce,
    BasicAliasAnalysis,
    Gvn,
    InstructionCombine,
    MemCpyOpt,
    MemoryToRegister,
    Reassociate,
    ScalarReplAggregates,
    SimplifyCfg,
}

/// A pass manager for the functions of the module `'mid`.
pub struct FunctionPassManager<'mid> {
    _module_id: IdRef<'mid>,
    passes: Vec<Pass>,
    disposals: Ghost<nat>,
}

impl<'mid> View for FunctionPassManager<'mid> {
    type V = Seq<Pass>;

    /// The pipeline: the passes in the order in which they were added.
    closed spec fn view(&self) -> Seq<Pass> {
        self.passes@
    }
}

impl<'mid> DropInPlace for FunctionPassManager<'mid> {
    closed spec fn disposals(&self) -> nat {
        self.disposals@
    }

    /// A pass manager holds nothing but its pipeline, which goes away with it:
    /// its disposal is counted and the pipeline stays.
    fn drop_in_place(&mut self, leave: Disposal)
        ensures
            final(self)@ == old(self)@,
    {
        proof {
            self.disposals@ = self.disposals@ + 1;
        }
    }
}

impl<'mid> FunctionPassManager<'mid> {
    /// Makes a pass manager with an empty pipeline for the functions of
    /// `module`.
    pub fn new<'cid, 'context>(module: &Module<'cid, 'context, 'mid>) -> (manager: Owned<
        FunctionPassManager<'mid>,
    >)
        ensures
            manager@@ == Seq::<Pass>::empty(),
            manager@.disposals() == 0,
    {
        Owned::from_raw(
            FunctionPassManager {
                _module_id: IdRef::new(),
                passes: Vec::new(),
                disposals: Ghost(0),
            },
        )
    }

    /// Adds aggressive dead code elimination to the pipeline.
    pub fn add_aggressive_dce(&mut self)
        ensures
            final(self)@ == old(self)@.push(Pass::AggressiveDce),
            final(self).disposals() == old(self).disposals(),
    {
        self.passes.push(Pass::AggressiveDce);
    }

    /// Adds basic alias analysis to the pipeline.
    pub fn add_basic_alias_analysis(&mut self)
        ensures
            final(self)@ == old(self)@.push(Pass::BasicAliasAnalysis),
            final(self).disposals() == old(self).disposals(),
    {
        self.passes.push(Pass::BasicAliasAnalysis);
    }

    /// Adds global value numbering to the pipeline.
    pub fn add_gvn(&mut self)
        ensures
            final(self)@ == old(self)@.push(Pass::Gvn),
            final(self).disposals() == old(self).disposals(),
    {
        self.passes.push(Pass::Gvn);
    }

    /// Adds instruction combining to the pipeline.
    pub fn add_instruction_combine(&mut self)
        ensures
            final(self)@ == old(self)@.push(Pass::InstructionCombine),
            final(self).disposals() == old(self).disposals(),
    {
        self.passes.push(Pass::InstructionCombine);
    }

    /// Adds the optimization of memory copies to the pipeline.
    pub fn add_mem_cpy_opt(&mut self)
        ensures
            final(self)@ == old(self)@.push(Pass::MemCpyOpt),
            final(self).disposals() == old(self).disposals(),
    {
        self.passes.push(Pass::MemCpyOpt);
    }

    /// Adds the promotion of stack slots to registers to the pipeline.
    pub fn add_memory_to_register(&mut self)
        ensures
            final(self)@ == old(self)@.push(Pass::MemoryToRegister),
            final(self).disposals() == old(self).disposals(),
    {
        self.passes.push(Pass::MemoryToRegister);
    }

    /// Adds reassociation of expressions to the pipeline.
    pub fn add_reassociate(&mut self)
        ensures
            final(self)@ == old(self)@.push(Pass::Reassociate),
            final(self).disposals() == old(self).disposals(),
    {
        self.passes.push(Pass::Reassociate);
    }

    /// Adds the scalar replacement of aggregates to the pipeline.
    pub fn add_scalar_repl_aggregates(&mut self)
        ensures
            final(self)@ == old(self)@.push(Pass::ScalarReplAggregates),
            final(self).disposals() == old(self).disposals(),
    {
        self.passes.push(Pass::ScalarReplAggregates);
    }

    /// Adds the simplification of the control flow graph to the pipeline.
    pub fn add_simplify_cfg(&mut self)
        ensures
            final(self)@ == old(self)@.push(Pass::SimplifyCfg),
            final(self).disposals() == old(self).disposals(),
    {
        self.passes.push(Pass::SimplifyCfg);
    }

    /// The number of passes in the pipeline.
    pub fn len(&self) -> (count: usize)
        ensures
            count == self@.len(),
    {
        self.passes.len()
    }

    /// The pass at `position` of the pipeline, if there is one.
    pub fn pass(&self, position: usize) -> (found: Option<Pass>)
        ensures
            match found {
                Some(pass) => position < self@.len() && pass == self@[position as int],
                None => position >= self@.len(),
            },
    {
        if position < self.passes.len() {
            Some(self.passes[position])
        } else {
            None
        }
    }

    /// A copy of the pipeline.
    fn pipeline(&self) -> (copy: Vec<Pass>)
        ensures
            copy@ == self@,
    {
        copy_passes(&self.passes)
    }

    /// Makes the manager ready to run: the initialized manager holds the
    /// pipeline as it now is. The manager itself is left as it is, and is
    /// borrowed for as long as the initialized manager lives.
    pub fn initialize<'fpm, 'cid, 'module>(
        &'fpm mut self,
        _module: &ModuleBuilder<'cid, 'mid, 'module>,
    ) -> (ready: Owned<InitializedFunctionPassManager<'mid, 'module, 'fpm>>)
        ensures
            ready@@ == old(self)@,
            ready@.disposals() == 0,
            *final(self) == *old(self),
    {
        Owned::from_raw(
            InitializedFunctionPassManager {
                pipeline: self.pipeline(),
                _manager: PhantomData,
                _module: PhantomData,
                disposals: Ghost(0),
            },
        )
    }
}

/// A pass manager that is ready to run its pipeline.
pub struct InitializedFunctionPassManager<'mid, 'module, 'fpm> {
    pipeline: Vec<Pass>,
    _manager: PhantomData<&'fpm mut FunctionPassManager<'mid>>,
    _module: PhantomData<&'module ()>,
    disposals: Ghost<nat>,
}

impl<'mid, 'module, 'fpm> View for InitializedFunctionPassManager<'mid, 'module, 'fpm> {
    type V = Seq<Pass>;

    /// The pipeline that is run: that of the manager when it was initialized.
    closed spec fn view(&self) -> Seq<Pass> {
        self.pipeline@
    }
}

impl<'mid, 'module, 'fpm> DropInPlace for InitializedFunctionPassManager<'mid, 'module, 'fpm> {
    closed spec fn disposals(&self) -> nat {
        self.disposals@
    }

    /// An initialized manager holds nothing but its pipeline: its disposal is
    /// counted and the pipeline stays.
    fn drop_in_place(&mut self, leave: Disposal)
        ensures
            final(self)@ == old(self)@,
    {
        proof {
            self.disposals@ = self.disposals@ + 1;
        }
    }
}

impl<'mid, 'module, 'fpm> InitializedFunctionPassManager<'mid, 'module, 'fpm> {
    /// A copy of the pipeline.
    fn pipeline(&self) -> (copy: Vec<Pass>)
        ensures
            copy@ == self@,
    {
        copy_passes(&self.pipeline)
    }

    /// Runs the pipeline on `function`: the run is recorded with the function,
    /// behind the runs that were recorded before. The initialized manager is
    /// left as it is.
    pub fn run<'cid>(&mut self, function: &mut Function<'cid, 'mid>)
        ensures
            final(function)@ == old(function)@.optimize(old(self)@),
            *final(self) == *old(self),
    {
        function.record_pipeline(self.pipeline());
    }
}

/// A copy of a list of passes.
fn copy_passes(passes: &Vec<Pass>) -> (copy: Vec<Pass>)
    ensures
        copy@ == passes@,
{
    let mut copy: Vec<Pass> = Vec::new();
    let mut i: usize = 0;
    while i < passes.len()
        invariant
            i <= passes.len(),
            copy@ == passes@.take(i as int),
        decreases passes.len() - i,
    {
        copy.push(passes[i]);
        i += 1;
        proof {
            assert(copy@ =~= passes@.take(i as int));
        }
    }
    proof {
        assert(passes@.take(passes.len() as int) =~= passes@);
    }
    copy
}

} // verus!
