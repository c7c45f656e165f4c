//! Functions, their builders, parameters and labels.
//!
//! A function is declared when it is added to its module and defined from the
//! moment its first block is appended. Blocks are only ever appended, so a
//! defined function stays defined and its entry block stays first.

use vstd::prelude::*;
use crate::id::{Id, IdRef};
use crate::llvm::block::{BasicBlock, BlockModel, Label};
use crate::llvm::context::Context;
use crate::llvm::pass_manager::Pass;
use crate::llvm::raw::{RawValue, ValueModel};
use crate::llvm::shape::TypeModel;
use crate::llvm::ty::{FunctionType, Type};
use crate::llvm::value::Value;
use crate::opaque::{Handle, Opaque};

verus! {

/// Whether a function has a body.
#[derive(Clone, Copy, Debug, PartialEq, Eq, Structural)]
pub enum FunctionState {
    /// No block yet: a forward or external declaration.
    Declared,
    /// At least one block.
    Defined,
}

/// A function of the module `'mid`.
pub struct Function<'cid, 'mid> {
    _context_id: IdRef<'cid>,
    _module_id: IdRef<'mid>,
    index: usize,
    name: String,
    signature: FunctionType<'cid>,
    param_names: Vec<String>,
    blocks: Vec<String>,
    pipelines: Vec<Vec<Pass>>,
    value_names: Vec<(RawValue, String)>,
}

/// The mathematical value of a [`Function`].
pub struct FunctionModel {
    /// The position of the function among the functions of its module.
    pub index: nat,
    /// The name under which the module knows the function.
    pub name: Seq<char>,
    /// The signature that the function was declared with.
    pub signature: TypeModel,
    /// The display names of the parameters; empty where none was given.
    pub param_names: Seq<Seq<char>>,
    /// The names of the blocks, in the order in which they were appended.
    pub blocks: Seq<Seq<char>>,
    /// The pass pipelines that were run on the function, in the order of the
    /// runs.
    pub pipelines: Seq<Seq<Pass>>,
    /// The display names that were given to values of the function other than
    /// its parameters, each with the value it was given to, in the order in
    /// which they were given. The last name given to a value is its name.
    pub value_names: Seq<(ValueModel, Seq<char>)>,
}

/// The number of parameters that a signature declares; 0 for a shape that is no
/// signature.
pub open spec fn arity(signature: TypeModel) -> nat {
    match signature {
        TypeModel::Function(params, _, _) => params.len(),
        _ => 0,
    }
}

/// The contents of a list of pipelines, one by one.
pub open spec fn pipeline_views(pipelines: Seq<Vec<Pass>>) -> Seq<Seq<Pass>> {
    Seq::new(pipelines.len(), |i: int| pipelines[i]@)
}

/// The contents of a list of named values, one by one.
pub open spec fn named_views(names: Seq<(RawValue, String)>) -> Seq<(ValueModel, Seq<char>)> {
    Seq::new(names.len(), |i: int| (names[i].0@, names[i].1@))
}

/// The name that was given last to `value` in a list of givings, if one was
/// given.
pub open spec fn last_given(names: Seq<(ValueModel, Seq<char>)>, value: ValueModel) -> Option<
    Seq<char>,
>
    decreases names.len(),
{
    if names.len() == 0 {
        None
    } else if names.last().0 == value {
        Some(names.last().1)
    } else {
        last_given(names.drop_last(), value)
    }
}

/// The contents of a list of strings, one by one.
pub open spec fn string_views(strings: Seq<String>) -> Seq<Seq<char>> {
    Seq::new(strings.len(), |i: int| strings[i]@)
}

impl FunctionModel {
    /// A function as its declaration leaves it: no block, no parameter named.
    pub open spec fn declared(index: nat, name: Seq<char>, signature: TypeModel) -> FunctionModel {
        FunctionModel {
            index,
            name,
            signature,
            param_names: Seq::new(arity(signature), |i: int| Seq::<char>::empty()),
            blocks: Seq::empty(),
            pipelines: Seq::empty(),
            value_names: Seq::empty(),
        }
    }

    /// Whether the function has a body.
    pub open spec fn state(self) -> FunctionState {
        if self.blocks.len() == 0 {
            FunctionState::Declared
        } else {
            FunctionState::Defined
        }
    }

    /// The function with one more block at the end of its list.
    pub open spec fn append(self, name: Seq<char>) -> FunctionModel {
        FunctionModel { blocks: self.blocks.push(name), ..self }
    }

    /// The function after blocks of the given names were appended one by one.
    pub open spec fn append_all(self, names: Seq<Seq<char>>) -> FunctionModel
        decreases names.len(),
    {
        if names.len() == 0 {
            self
        } else {
            self.append(names[0]).append_all(names.drop_first())
        }
    }

    /// The function after one more run of a pass pipeline.
    pub open spec fn optimize(self, pipeline: Seq<Pass>) -> FunctionModel {
        FunctionModel { pipelines: self.pipelines.push(pipeline), ..self }
    }

    /// The function with the parameter at `position` named.
    pub open spec fn name_param(self, position: int, name: Seq<char>) -> FunctionModel {
        FunctionModel { param_names: self.param_names.update(position, name), ..self }
    }

    /// Whether `value` is a parameter that the function has.
    pub open spec fn has_param(self, value: ValueModel) -> bool {
        value matches ValueModel::Parameter(position) && position < self.param_names.len()
    }

    /// The function with `value` given the display name `name`. The name of a
    /// parameter takes the place of the name that the parameter had; the name
    /// of any other value goes behind the names given before.
    pub open spec fn name_value(self, value: ValueModel, name: Seq<char>) -> FunctionModel {
        if self.has_param(value) {
            self.name_param(value->Parameter_0 as int, name)
        } else {
            FunctionModel { value_names: self.value_names.push((value, name)), ..self }
        }
    }

    /// The display name that `value` has with the function: for a parameter of
    /// the function the name of that parameter, empty if none was given; for
    /// any other value the name that was given to it last, if one was given.
    pub open spec fn display_name(self, value: ValueModel) -> Option<Seq<char>> {
        if self.has_param(value) {
            Some(self.param_names[value->Parameter_0 as int])
        } else {
            last_given(self.value_names, value)
        }
    }

    /// The name that is given to a value is the name that it has, and no other
    /// value has another name for it.
    pub proof fn lemma_naming_names_one_value(
        self,
        value: ValueModel,
        name: Seq<char>,
        other: ValueModel,
    )
        ensures
            self.name_value(value, name).display_name(value) == Some(name),
            other != value ==> self.name_value(value, name).display_name(other)
                == self.display_name(other),
    {
        let next = self.name_value(value, name);
        if !self.has_param(value) {
            assert(next.value_names.last() == (value, name));
            assert(next.value_names.drop_last() =~= self.value_names);
        }
    }

    /// A display name is metadata only: naming a value leaves the function in
    /// the state it was in, with the blocks, the signature, the number of
    /// parameters and the pipelines it had.
    pub proof fn lemma_naming_changes_names_only(self, value: ValueModel, name: Seq<char>)
        ensures
            self.name_value(value, name).state() == self.state(),
            self.name_value(value, name).blocks == self.blocks,
            self.name_value(value, name).signature == self.signature,
            self.name_value(value, name).index == self.index,
            self.name_value(value, name).name == self.name,
            self.name_value(value, name).pipelines == self.pipelines,
            self.name_value(value, name).param_names.len() == self.param_names.len(),
    {
    }

    /// A declared function is in the state `Declared`.
    pub proof fn lemma_starts_declared(index: nat, name: Seq<char>, signature: TypeModel)
        ensures
            Self::declared(index, name, signature).state() == FunctionState::Declared,
    {
    }

    /// One appended block defines the function, whatever its state was.
    pub proof fn lemma_append_defines(self, name: Seq<char>)
        ensures
            self.append(name).state() == FunctionState::Defined,
            self.append(name).blocks.len() == self.blocks.len() + 1,
            forall|i: int| 0 <= i < self.blocks.len() ==> self.append(name).blocks[i] == self.blocks[i],
    {
    }

    /// The state never goes back: a defined function stays defined however many
    /// blocks are appended, and the blocks it had keep their places.
    pub proof fn lemma_defined_is_permanent(self, names: Seq<Seq<char>>)
        ensures
            self.state() == FunctionState::Defined ==> self.append_all(names).state()
                == FunctionState::Defined,
            names.len() > 0 ==> self.append_all(names).state() == FunctionState::Defined,
            self.append_all(names).blocks == self.blocks + names,
        decreases names.len(),
    {
        if names.len() == 0 {
            assert(self.blocks + names =~= self.blocks);
        } else {
            self.append(names[0]).lemma_defined_is_permanent(names.drop_first());
            assert(self.blocks.push(names[0]) + names.drop_first() =~= self.blocks + names);
        }
    }
}

impl<'cid, 'mid> View for Function<'cid, 'mid> {
    type V = FunctionModel;

    closed spec fn view(&self) -> FunctionModel {
        FunctionModel {
            index: self.index as nat,
            name: self.name@,
            signature: self.signature.handle().shape(),
            param_names: string_views(self.param_names@),
            blocks: string_views(self.blocks@),
            pipelines: pipeline_views(self.pipelines@),
            value_names: named_views(self.value_names@),
        }
    }
}

/// The identity of a function, which any number of calls may name.
pub struct FunctionLabel<'cid, 'mid> {
    _context_id: IdRef<'cid>,
    _module_id: IdRef<'mid>,
    index: usize,
    signature: FunctionType<'cid>,
}

/// The mathematical value of a [`FunctionLabel`].
pub struct FunctionLabelModel {
    /// The position of the function among the functions of its module.
    pub index: nat,
    /// The signature that the function was declared with.
    pub signature: TypeModel,
}

impl<'cid, 'mid> View for FunctionLabel<'cid, 'mid> {
    type V = FunctionLabelModel;

    closed spec fn view(&self) -> FunctionLabelModel {
        FunctionLabelModel { index: self.index as nat, signature: self.signature.handle().shape() }
    }
}

impl<'cid, 'mid> Function<'cid, 'mid> {
    /// A function as its declaration leaves it.
    pub(crate) fn declared(index: usize, name: &str, signature: &FunctionType<'cid>) -> (function:
        Function<'cid, 'mid>)
        ensures
            function@ == FunctionModel::declared(index as nat, name@, signature.handle().shape()),
    {
        let count = signature.num_params();
        let mut param_names: Vec<String> = Vec::new();
        let mut i: usize = 0;
        while i < count
            invariant
                i <= count,
                param_names.len() == i,
                forall|k: int| 0 <= k < i ==> (#[trigger] param_names[k])@ == Seq::<char>::empty(),
            decreases count - i,
        {
            param_names.push(String::new());
            i += 1;
        }
        let function = Function {
            _context_id: IdRef::new(),
            _module_id: IdRef::new(),
            index,
            name: name.to_owned(),
            signature: signature.duplicate(),
            param_names,
            blocks: Vec::new(),
            pipelines: Vec::new(),
            value_names: Vec::new(),
        };
        proof {
            let model = FunctionModel::declared(index as nat, name@, signature.handle().shape());
            assert(function@.param_names =~= model.param_names);
            assert(function@.blocks =~= model.blocks);
            assert(function@.pipelines =~= model.pipelines);
            assert(function@.value_names =~= model.value_names);
        }
        function
    }

    /// The identity of the function.
    pub fn label(&self) -> (label: FunctionLabel<'cid, 'mid>)
        ensures
            label@.index == self@.index,
            label@.signature == self@.signature,
    {
        FunctionLabel {
            _context_id: IdRef::new(),
            _module_id: IdRef::new(),
            index: self.index,
            signature: self.signature.duplicate(),
        }
    }

    /// The mutable view of the function, under the fresh brand `id`. Everything
    /// made through the view carries that brand and can be used with nothing
    /// that carries another.
    pub fn builder<'fid, 'function>(&'function mut self, id: Id<'fid>) -> (builder: FunctionBuilder<
        'cid,
        'mid,
        'fid,
        'function,
    >)
        ensures
            *builder.function == *old(self),
            *final(self) == *final(builder.function),
    {
        FunctionBuilder { function: self, id }
    }

    /// Whether the function has a body.
    pub fn state(&self) -> (state: FunctionState)
        ensures
            state == self@.state(),
    {
        if self.blocks.len() == 0 {
            FunctionState::Declared
        } else {
            FunctionState::Defined
        }
    }

    /// The position of the function among the functions of its module.
    pub fn as_raw(&self) -> (index: usize)
        ensures
            index == self@.index,
    {
        self.index
    }

    /// The name under which the module knows the function.
    pub fn name(&self) -> (name: &str)
        ensures
            name@ == self@.name,
    {
        self.name.as_str()
    }

    /// Whether the module knows the function under `name`.
    pub fn is_named(&self, name: &String) -> (named: bool)
        ensures
            named == (self@.name == name@),
    {
        self.name == *name
    }

    /// The signature that the function was declared with.
    pub fn function_type(&self) -> (signature: &FunctionType<'cid>)
        ensures
            signature.handle().shape() == self@.signature,
    {
        &self.signature
    }

    /// The number of blocks appended so far.
    pub fn num_blocks(&self) -> (count: usize)
        ensures
            count == self@.blocks.len(),
    {
        self.blocks.len()
    }

    /// The name of the block at `position`, if there is one.
    pub fn block_name(&self, position: usize) -> (found: Option<&str>)
        ensures
            match found {
                Some(name) => position < self@.blocks.len() && name@ == self@.blocks[position as int],
                None => position >= self@.blocks.len(),
            },
    {
        if position < self.blocks.len() {
            Some(self.blocks[position].as_str())
        } else {
            None
        }
    }

    /// The display name of the parameter at `position`, if there is such a
    /// parameter.
    pub fn param_name(&self, position: usize) -> (found: Option<&str>)
        ensures
            match found {
                Some(name) => position < self@.param_names.len() && name@
                    == self@.param_names[position as int],
                None => position >= self@.param_names.len(),
            },
    {
        if position < self.param_names.len() {
            Some(self.param_names[position].as_str())
        } else {
            None
        }
    }

    /// The number of runs of a pass pipeline on the function.
    pub fn num_pipelines(&self) -> (count: usize)
        ensures
            count == self@.pipelines.len(),
    {
        self.pipelines.len()
    }

    /// The pipeline of the run at `position`, if there was such a run.
    pub fn pipeline(&self, position: usize) -> (found: Option<&Vec<Pass>>)
        ensures
            match found {
                Some(pipeline) => position < self@.pipelines.len() && pipeline@
                    == self@.pipelines[position as int],
                None => position >= self@.pipelines.len(),
            },
    {
        if position < self.pipelines.len() {
            Some(&self.pipelines[position])
        } else {
            None
        }
    }

    /// Records one run of `pipeline` on the function.
    pub(crate) fn record_pipeline(&mut self, pipeline: Vec<Pass>)
        ensures
            final(self)@ == old(self)@.optimize(pipeline@),
    {
        self.pipelines.push(pipeline);
        proof {
            assert(pipeline_views(self.pipelines@) =~= pipeline_views(old(self).pipelines@).push(
                pipeline@,
            ));
        }
    }

    /// The number of display names given to values other than parameters.
    pub fn num_value_names(&self) -> (count: usize)
        ensures
            count == self@.value_names.len(),
    {
        self.value_names.len()
    }

    /// The display name given at `position` in the order of the givings, with
    /// the value it was given to, if there was such a giving.
    pub fn value_name(&self, position: usize) -> (found: Option<(&RawValue, &str)>)
        ensures
            match found {
                Some((value, name)) => position < self@.value_names.len() && (value@, name@)
                    == self@.value_names[position as int],
                None => position >= self@.value_names.len(),
            },
    {
        if position < self.value_names.len() {
            let entry = &self.value_names[position];
            Some((&entry.0, entry.1.as_str()))
        } else {
            None
        }
    }

    /// The display name that `value` has with the function: for a parameter of
    /// the function the name of that parameter, empty if none was given; for
    /// any other value the name that was given to it last, if one was given.
    pub fn display_name(&self, value: &RawValue) -> (found: Option<&str>)
        ensures
            match found {
                Some(name) => self@.display_name(value@) == Some(name@),
                None => self@.display_name(value@) is None,
            },
    {
        match value {
            RawValue::Parameter(position) => {
                if *position < self.param_names.len() {
                    return Some(self.param_names[*position].as_str());
                }
            },
            _ => {},
        }
        let mut i: usize = self.value_names.len();
        proof {
            assert(self@.value_names.take(i as int) =~= self@.value_names);
        }
        while i > 0
            invariant
                i <= self.value_names.len(),
                !self@.has_param(value@),
                last_given(self@.value_names, value@) == last_given(
                    self@.value_names.take(i as int),
                    value@,
                ),
            decreases i,
        {
            proof {
                let upto = self@.value_names.take(i as int);
                assert(upto.last() == self@.value_names[i - 1]);
                assert(upto.drop_last() =~= self@.value_names.take(i - 1));
            }
            i -= 1;
            if self.value_names[i].0.same(value) {
                return Some(self.value_names[i].1.as_str());
            }
        }
        None
    }

    /// Gives `value` the display name `name`.
    fn set_value_name(&mut self, value: RawValue, name: &str)
        ensures
            final(self)@ == old(self)@.name_value(value@, name@),
    {
        match value {
            RawValue::Parameter(position) => {
                if self.set_param_name(position, name) {
                    return ;
                }
                self.push_value_name(RawValue::Parameter(position), name);
            },
            other => {
                self.push_value_name(other, name);
            },
        }
    }

    /// Records the display name `name` for `value`, behind the names recorded
    /// before.
    fn push_value_name(&mut self, value: RawValue, name: &str)
        ensures
            final(self)@ == (FunctionModel {
                value_names: old(self)@.value_names.push((value@, name@)),
                ..old(self)@
            }),
    {
        self.value_names.push((value, name.to_owned()));
        proof {
            assert(named_views(self.value_names@) =~= named_views(old(self).value_names@).push(
                (value@, name@),
            ));
        }
    }

    /// Appends a block name and says at which position it stands.
    fn append_block(&mut self, name: &str) -> (position: usize)
        ensures
            position == old(self)@.blocks.len(),
            final(self)@ == old(self)@.append(name@),
    {
        let position = self.blocks.len();
        self.blocks.push(name.to_owned());
        proof {
            assert(string_views(self.blocks@) =~= string_views(old(self).blocks@).push(name@));
        }
        position
    }

    /// Names the parameter at `position`, if there is such a parameter.
    fn set_param_name(&mut self, position: usize, name: &str) -> (named: bool)
        ensures
            named == (position < old(self)@.param_names.len()),
            named ==> final(self)@ == old(self)@.name_param(position as int, name@),
            !named ==> final(self)@ == old(self)@,
    {
        if position < self.param_names.len() {
            self.param_names[position] = name.to_owned();
            proof {
                assert(string_views(self.param_names@) =~= string_views(
                    old(self).param_names@,
                ).update(position as int, name@));
            }
            true
        } else {
            false
        }
    }
}

/// The mutable view of a function under the brand `'fid`: the function together
/// with the brand. To write the two down as a struct is to ask the function for
/// the view.
///
/// One brand stands for one function. The view keeps its brand for good: a type
/// with a destructor gives none of its fields away, so the brand cannot be
/// taken out and given to the view of another function, and there is no second
/// brand of the same lifetime to put in its place. Nor can the view be pointed
/// at another function: a module lends out one function at a time, so there is
/// no second function to point it at while the first is borrowed.
pub struct FunctionBuilder<'cid, 'mid, 'fid, 'function> {
    /// The function that is being built.
    pub function: &'function mut Function<'cid, 'mid>,
    /// The brand of this view.
    pub id: Id<'fid>,
}

impl<'cid, 'mid, 'fid, 'function> Drop for FunctionBuilder<'cid, 'mid, 'fid, 'function> {
    /// Ends the view, and the brand with it. The function is left as it is.
    fn drop(&mut self)
        ensures
            *final(self).function == *old(self).function,
            *final(final(self).function) == *final(old(self).function),
        opens_invariants none
        no_unwind
    {
    }
}

impl<'cid, 'mid, 'fid, 'function> FunctionBuilder<'cid, 'mid, 'fid, 'function> {
    /// Appends an empty block named `name` at the end of the function's block
    /// list. Hands back the block's label and the block itself, which is the
    /// only way to insert into it.
    pub fn append_basic_block(&mut self, name: &str, context: &Context<'cid>) -> (made: (
        Label<'fid>,
        BasicBlock<'cid, 'mid, 'fid>,
    ))
        ensures
            final(self).function@ == old(self).function@.append(name@),
            final(self).function@.state() == FunctionState::Defined,
            *final(final(self).function) == *final(old(self).function),
            made.0@ == old(self).function@.blocks.len(),
            made.1@ == (BlockModel {
                label: old(self).function@.blocks.len(),
                name: name@,
                instructions: Seq::empty(),
            }),
    {
        let position = self.function.append_block(name);
        (Label::new(position), BasicBlock::new(position, name))
    }

    /// Whether `blocks` is the whole body of the function: one block for each
    /// that was appended, in the order in which they were appended.
    pub fn is_body(&self, blocks: &[&BasicBlock<'cid, 'mid, 'fid>]) -> (whole: bool)
        ensures
            whole == (blocks.len() == old(self.function)@.blocks.len() && forall|i: int|
                0 <= i < blocks.len() ==> (#[trigger] blocks[i])@.label == i),
    {
        if blocks.len() != self.function.num_blocks() {
            return false;
        }
        let mut i: usize = 0;
        while i < blocks.len()
            invariant
                i <= blocks.len(),
                forall|k: int| 0 <= k < i ==> (#[trigger] blocks[k])@.label == k,
            decreases blocks.len() - i,
        {
            if blocks[i].as_raw() != i {
                return false;
            }
            i += 1;
        }
        true
    }

    /// The parameters of the function, first to last.
    pub fn params(&self) -> (params: FunctionParams<'cid, 'mid, 'fid, 'function>)
        ensures
            params@ == (0nat, arity(old(self.function)@.signature)),
    {
        FunctionParams {
            _context_id: IdRef::new(),
            _module_id: IdRef::new(),
            _function_id: IdRef::new(),
            _function: std::marker::PhantomData,
            position: 0,
            count: self.function.signature.num_params(),
        }
    }

    /// The position of the function among the functions of its module.
    pub fn as_raw(&self) -> (index: usize)
        ensures
            index == old(self.function)@.index,
    {
        self.function.index
    }
}

/// The parameters of a function that are still to come, as values of that
/// function.
pub struct FunctionParams<'cid, 'mid, 'fid, 'function> {
    _context_id: IdRef<'cid>,
    _module_id: IdRef<'mid>,
    _function_id: IdRef<'fid>,
    _function: std::marker::PhantomData<&'function Function<'cid, 'mid>>,
    position: usize,
    count: usize,
}

impl<'cid, 'mid, 'fid, 'function> View for FunctionParams<'cid, 'mid, 'fid, 'function> {
    type V = (nat, nat);

    /// The position of the next parameter, and the number of parameters.
    closed spec fn view(&self) -> (nat, nat) {
        (self.position as nat, self.count as nat)
    }
}

impl<'cid, 'mid, 'fid, 'function> FunctionParams<'cid, 'mid, 'fid, 'function> {
    /// The next parameter, or `None` when all have been handed out; after that
    /// it stays `None`.
    pub fn next(&mut self) -> (param: Option<Value<'cid, 'mid, 'fid, Type<'cid>>>)
        ensures
            match param {
                Some(value) => old(self)@.0 < old(self)@.1 && value.handle() == Handle::Value(
                    ValueModel::Parameter(old(self)@.0),
                ) && final(self)@ == (old(self)@.0 + 1, old(self)@.1),
                None => old(self)@.0 >= old(self)@.1 && final(self)@ == old(self)@,
            },
    {
        if self.position < self.count {
            let value = Value::new(RawValue::Parameter(self.position));
            self.position = self.position + 1;
            Some(value)
        } else {
            None
        }
    }
}

impl<'cid, 'mid> FunctionLabel<'cid, 'mid> {
    /// The identity of the function at position `index`, declared with
    /// `signature`.
    pub(crate) fn new(index: usize, signature: &FunctionType<'cid>) -> (label: FunctionLabel<
        'cid,
        'mid,
    >)
        ensures
            label@ == (FunctionLabelModel {
                index: index as nat,
                signature: signature.handle().shape(),
            }),
    {
        FunctionLabel {
            _context_id: IdRef::new(),
            _module_id: IdRef::new(),
            index,
            signature: signature.duplicate(),
        }
    }

    /// The number of parameters that the function declares.
    pub fn num_args(&self) -> (count: usize)
        ensures
            count == arity(self@.signature),
    {
        self.signature.num_params()
    }

    /// The signature that the function was declared with.
    pub fn function_type(&self) -> (signature: &FunctionType<'cid>)
        ensures
            signature.handle().shape() == self@.signature,
    {
        &self.signature
    }

    /// The function as a value that a call can name, in any function of its
    /// module.
    pub fn as_value<'fid>(&self) -> (value: Value<'cid, 'mid, 'fid, Type<'cid>>)
        ensures
            value.handle() == Handle::Value(ValueModel::Function(self@.index)),
    {
        Value::new(RawValue::Function(self.index))
    }

    /// The position of the function among the functions of its module.
    pub fn as_raw(&self) -> (index: usize)
        ensures
            index == self@.index,
    {
        self.index
    }
}

impl<'cid, 'mid, 'fid, Ty> Value<'cid, 'mid, 'fid, Ty> {
    /// Gives the value a display name. `function` is the function that the
    /// value belongs to; the name is recorded with it. The name of a parameter
    /// takes the place of the name that the parameter had. The name of any
    /// other value (the result of an instruction, a constant, a global, a
    /// function) goes behind the names given before, and the last name given to
    /// a value is the name it has (see [`Function::display_name`]); the name
    /// that an instruction carried when it was inserted stays in the block. The
    /// name is metadata only: the call is allowed whether the function has
    /// blocks or not and changes nothing else.
    pub fn set_name(&self, function: &mut FunctionBuilder<'cid, 'mid, 'fid, '_>, name: &str)
        ensures
            *final(final(function).function) == *final(old(function).function),
            final(function).function@ == old(function).function@.name_value(
                self.handle().value(),
                name@,
            ),
    {
        function.function.set_value_name(self.as_raw(), name);
    }
}

} // verus!
