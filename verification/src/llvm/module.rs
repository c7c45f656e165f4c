//! Modules and their symbol table.
//!
//! A module knows each of its functions and globals by name, and a name names
//! at most one of them. Declaring a function under a name that is free adds it;
//! declaring it again with the same signature finds it; anything else under a
//! taken name is a redefinition, which is refused and changes nothing.

use std::marker::PhantomData;
use vstd::prelude::*;
use crate::id::Id;
use crate::inheritance::DerivesFrom;
use crate::llvm::context::Context;
use crate::llvm::function::{Function, FunctionLabel, FunctionModel};
use crate::llvm::global::Global;
use crate::llvm::raw::{ConstantModel, ConstantShape, ValueModel};
use crate::llvm::shape::{TypeModel, TypeShape};
use crate::llvm::target::DataLayout;
use crate::llvm::ty::{FunctionType, Type};
use crate::opaque::{Handle, Misplaced, Opaque};
use crate::owned::{Disposal, DropInPlace, Owned};

verus! {

/// The failure of a declaration: the name is taken.
#[derive(Clone, Copy, Debug, PartialEq, Eq, Structural)]
pub enum RedefinitionError {
    /// The name is that of the function at this position, which cannot stand
    /// for what was declared.
    Function(usize),
    /// The name is that of the global at this position.
    Global(usize),
}

/// The mathematical value of a [`RedefinitionError`].
pub enum Conflict {
    Function(nat),
    Global(nat),
}

impl View for RedefinitionError {
    type V = Conflict;

    open spec fn view(&self) -> Conflict {
        match self {
            RedefinitionError::Function(position) => Conflict::Function(*position as nat),
            RedefinitionError::Global(position) => Conflict::Global(*position as nat),
        }
    }
}

/// A global of a module, as the symbol table records it.
pub struct GlobalEntry {
    /// The name under which the module knows the global.
    pub name: String,
    /// The type of what the global holds.
    pub ty: TypeShape,
    /// The constant that the global starts with, once one was given.
    pub initializer: Option<ConstantShape>,
}

/// The mathematical value of a [`GlobalEntry`].
pub struct GlobalModel {
    pub name: Seq<char>,
    pub ty: TypeModel,
    pub initializer: Option<ConstantModel>,
}

impl View for GlobalEntry {
    type V = GlobalModel;

    open spec fn view(&self) -> GlobalModel {
        GlobalModel {
            name: self.name@,
            ty: self.ty@,
            initializer: match self.initializer {
                Some(shape) => Some(shape@),
                None => None,
            },
        }
    }
}

/// The values of a list of functions, one by one.
pub open spec fn function_views<'cid, 'mid>(functions: Seq<Function<'cid, 'mid>>) -> Seq<
    FunctionModel,
> {
    Seq::new(functions.len(), |i: int| functions[i]@)
}

/// The values of a list of globals, one by one.
pub open spec fn global_views(globals: Seq<GlobalEntry>) -> Seq<GlobalModel> {
    Seq::new(globals.len(), |i: int| globals[i]@)
}

/// Whether `position` is the first place in `names` where `name` stands.
pub open spec fn is_first(names: Seq<Seq<char>>, name: Seq<char>, position: int) -> bool {
    &&& 0 <= position < names.len()
    &&& names[position] == name
    &&& forall|earlier: int| 0 <= earlier < position ==> names[earlier] != name
}

/// The first place in `names` where `name` stands, if it stands anywhere.
pub open spec fn first_named(names: Seq<Seq<char>>, name: Seq<char>) -> Option<nat> {
    if exists|position: int| is_first(names, name, position) {
        Some((choose|position: int| is_first(names, name, position)) as nat)
    } else {
        None
    }
}

/// A name has one first place at most.
pub proof fn lemma_first_is_unique(names: Seq<Seq<char>>, name: Seq<char>, a: int, b: int)
    requires
        is_first(names, name, a),
        is_first(names, name, b),
    ensures
        a == b,
{
    if a < b {
        assert(names[a] != name);
    } else if b < a {
        assert(names[b] != name);
    }
}

/// Where `name` stands first at `position`, that is what a search finds.
pub proof fn lemma_found(names: Seq<Seq<char>>, name: Seq<char>, position: int)
    requires
        is_first(names, name, position),
    ensures
        first_named(names, name) == Some(position as nat),
{
    let chosen = choose|p: int| is_first(names, name, p);
    lemma_first_is_unique(names, name, position, chosen);
}

/// Where `name` stands nowhere, a search finds nothing.
pub proof fn lemma_not_found(names: Seq<Seq<char>>, name: Seq<char>)
    requires
        forall|position: int| 0 <= position < names.len() ==> names[position] != name,
    ensures
        first_named(names, name) is None,
{
}

/// Where `name` stands at `position`, it has a first place.
pub proof fn lemma_has_first(names: Seq<Seq<char>>, name: Seq<char>, position: int)
    requires
        0 <= position < names.len(),
        names[position] == name,
    ensures
        exists|first: int| is_first(names, name, first),
    decreases position,
{
    if exists|earlier: int| 0 <= earlier < position && names[earlier] == name {
        let earlier = choose|earlier: int| 0 <= earlier < position && names[earlier] == name;
        lemma_has_first(names, name, earlier);
    } else {
        assert(is_first(names, name, position));
    }
}

/// Where a search finds nothing, `name` stands nowhere.
pub proof fn lemma_none_is_absent(names: Seq<Seq<char>>, name: Seq<char>)
    requires
        first_named(names, name) is None,
    ensures
        forall|position: int| 0 <= position < names.len() ==> names[position] != name,
{
    assert forall|position: int| 0 <= position < names.len() implies names[position] != name by {
        if names[position] == name {
            lemma_has_first(names, name, position);
        }
    }
}

/// The mathematical value of a symbol table.
pub struct SymbolsModel {
    /// The functions, in the order in which they were declared.
    pub functions: Seq<FunctionModel>,
    /// The globals, in the order in which they were added.
    pub globals: Seq<GlobalModel>,
}

impl SymbolsModel {
    /// The table without any symbol.
    pub open spec fn empty() -> SymbolsModel {
        SymbolsModel { functions: Seq::empty(), globals: Seq::empty() }
    }

    /// The names of the functions, in order.
    pub open spec fn function_names(self) -> Seq<Seq<char>> {
        Seq::new(self.functions.len(), |i: int| self.functions[i].name)
    }

    /// The names of the globals, in order.
    pub open spec fn global_names(self) -> Seq<Seq<char>> {
        Seq::new(self.globals.len(), |i: int| self.globals[i].name)
    }

    /// The position of the function named `name`, if there is one.
    pub open spec fn function_named(self, name: Seq<char>) -> Option<nat> {
        first_named(self.function_names(), name)
    }

    /// The position of the global named `name`, if there is one.
    pub open spec fn global_named(self, name: Seq<char>) -> Option<nat> {
        first_named(self.global_names(), name)
    }

    /// What stands in the way of a new symbol named `name`: the function of that
    /// name, else the global of that name, else nothing.
    pub open spec fn taken_by(self, name: Seq<char>) -> Option<Conflict> {
        match self.function_named(name) {
            Some(position) => Some(Conflict::Function(position)),
            None => match self.global_named(name) {
                Some(position) => Some(Conflict::Global(position)),
                None => None,
            },
        }
    }

    /// The table with one more function at the end.
    pub open spec fn with_function(self, function: FunctionModel) -> SymbolsModel {
        SymbolsModel { functions: self.functions.push(function), ..self }
    }

    /// The table with the function at `position` replaced.
    pub open spec fn with_function_at(self, position: int, function: FunctionModel) -> SymbolsModel {
        SymbolsModel { functions: self.functions.update(position, function), ..self }
    }

    /// The table with one more global at the end.
    pub open spec fn with_global(self, global: GlobalModel) -> SymbolsModel {
        SymbolsModel { globals: self.globals.push(global), ..self }
    }

    /// The table with the global at `position` replaced.
    pub open spec fn with_global_at(self, position: int, global: GlobalModel) -> SymbolsModel {
        SymbolsModel { globals: self.globals.update(position, global), ..self }
    }

    /// What declaring a function `name` of signature `signature` does: the table
    /// afterwards, and the position of the function or what refused it.
    ///
    /// A free name gets a new function at the end. The name of a function of the
    /// same signature finds that function. Any other taken name is a
    /// redefinition. In the last two cases the table stays as it is.
    pub open spec fn declare_or_get(self, name: Seq<char>, signature: TypeModel) -> (
        SymbolsModel,
        Result<nat, Conflict>,
    ) {
        match self.taken_by(name) {
            None => (
                self.with_function(
                    FunctionModel::declared(self.functions.len(), name, signature),
                ),
                Ok(self.functions.len()),
            ),
            Some(Conflict::Function(position)) => if self.functions[position as int].signature
                == signature {
                (self, Ok(position))
            } else {
                (self, Err(Conflict::Function(position)))
            },
            Some(conflict) => (self, Err(conflict)),
        }
    }

    /// Whether every name names one symbol only, and every function knows its
    /// own position.
    pub open spec fn wf(self) -> bool {
        &&& forall|i: int, j: int|
            0 <= i < j < self.functions.len() ==> self.functions[i].name != self.functions[j].name
        &&& forall|i: int, j: int|
            0 <= i < j < self.globals.len() ==> self.globals[i].name != self.globals[j].name
        &&& forall|i: int, j: int|
            0 <= i < self.functions.len() && 0 <= j < self.globals.len()
                ==> self.functions[i].name != self.globals[j].name
        &&& forall|i: int| 0 <= i < self.functions.len() ==> self.functions[i].index == i
    }
}

/// Declaring a function is idempotent, and a redefinition changes nothing.
///
/// If declaring `name` with `signature` succeeds, then declaring it again in the
/// same way finds the same function and leaves the table as it is, and
/// declaring it after that with any other signature is refused and leaves the
/// table as it is.
pub proof fn lemma_declare_twice_then_redefine(
    symbols: SymbolsModel,
    name: Seq<char>,
    signature: TypeModel,
    other: TypeModel,
)
    requires
        other != signature,
    ensures
        ({
            let (first, one) = symbols.declare_or_get(name, signature);
            let (second, two) = first.declare_or_get(name, signature);
            let (third, three) = second.declare_or_get(name, other);
            one is Ok ==> {
                &&& two == one
                &&& second == first
                &&& three is Err
                &&& third == second
                &&& first.functions[one->Ok_0 as int].name == name
                &&& first.functions[one->Ok_0 as int].signature == signature
            }
        }),
{
    let (first, one) = symbols.declare_or_get(name, signature);
    if one is Ok {
        let position = one->Ok_0 as int;
        if symbols.taken_by(name) is None {
            lemma_none_is_absent(symbols.function_names(), name);
            assert(position == symbols.functions.len());
            assert(first.function_names()[position] == name);
            assert forall|earlier: int| 0 <= earlier < position implies first.function_names()[earlier]
                != name by {
                assert(first.function_names()[earlier] == symbols.function_names()[earlier]);
            }
            assert(is_first(first.function_names(), name, position));
            lemma_found(first.function_names(), name, position);
        } else {
            lemma_found_is_first(symbols, name, position as nat);
        }
        assert(first.taken_by(name) == Some(Conflict::Function(position as nat)));
    }
}

/// A declaration keeps the names of the table apart.
pub proof fn lemma_declare_keeps_names_apart(
    symbols: SymbolsModel,
    name: Seq<char>,
    signature: TypeModel,
)
    requires
        symbols.wf(),
    ensures
        symbols.declare_or_get(name, signature).0.wf(),
{
    if symbols.taken_by(name) is None {
        lemma_none_is_absent(symbols.function_names(), name);
        lemma_none_is_absent(symbols.global_names(), name);
        let next = symbols.declare_or_get(name, signature).0;
        assert forall|i: int, j: int| 0 <= i < j < next.functions.len() implies next.functions[i].name
            != next.functions[j].name by {
            assert(symbols.function_names()[i] == symbols.functions[i].name);
        }
        assert forall|i: int, j: int|
            0 <= i < next.functions.len() && 0 <= j < next.globals.len() implies next.functions[i].name
            != next.globals[j].name by {
            assert(symbols.global_names()[j] == symbols.globals[j].name);
        }
    }
}

/// A new global under a free name keeps the names of the table apart.
pub proof fn lemma_global_keeps_names_apart(symbols: SymbolsModel, global: GlobalModel)
    requires
        symbols.wf(),
        symbols.taken_by(global.name) is None,
    ensures
        symbols.with_global(global).wf(),
{
    lemma_none_is_absent(symbols.function_names(), global.name);
    lemma_none_is_absent(symbols.global_names(), global.name);
    let next = symbols.with_global(global);
    assert forall|i: int, j: int| 0 <= i < j < next.globals.len() implies next.globals[i].name
        != next.globals[j].name by {
        assert(symbols.global_names()[i] == symbols.globals[i].name);
    }
    assert forall|i: int, j: int|
        0 <= i < next.functions.len() && 0 <= j < next.globals.len() implies next.functions[i].name
        != next.globals[j].name by {
        assert(symbols.function_names()[i] == symbols.functions[i].name);
    }
}

/// An edit of a function that keeps its name and its position keeps the names
/// of the table apart. Every operation on a function is such an edit.
pub proof fn lemma_edit_keeps_names_apart(
    symbols: SymbolsModel,
    position: int,
    function: FunctionModel,
)
    requires
        symbols.wf(),
        0 <= position < symbols.functions.len(),
        function.name == symbols.functions[position].name,
        function.index == symbols.functions[position].index,
    ensures
        symbols.with_function_at(position, function).wf(),
{
    let next = symbols.with_function_at(position, function);
    assert forall|i: int, j: int| 0 <= i < j < next.functions.len() implies next.functions[i].name
        != next.functions[j].name by {
        assert(next.functions[i].name == symbols.functions[i].name);
        assert(next.functions[j].name == symbols.functions[j].name);
    }
    assert forall|i: int, j: int|
        0 <= i < next.functions.len() && 0 <= j < next.globals.len() implies next.functions[i].name
        != next.globals[j].name by {
        assert(next.functions[i].name == symbols.functions[i].name);
    }
    assert forall|i: int| 0 <= i < next.functions.len() implies next.functions[i].index == i by {
        assert(next.functions[i].index == symbols.functions[i].index);
    }
}

/// A new initializer for a global keeps the names of the table apart.
pub proof fn lemma_initializer_keeps_names_apart(
    symbols: SymbolsModel,
    position: int,
    initializer: Option<ConstantModel>,
)
    requires
        symbols.wf(),
        0 <= position < symbols.globals.len(),
    ensures
        symbols.with_global_at(
            position,
            GlobalModel { initializer, ..symbols.globals[position] },
        ).wf(),
{
    let next = symbols.with_global_at(
        position,
        GlobalModel { initializer, ..symbols.globals[position] },
    );
    assert forall|i: int, j: int| 0 <= i < j < next.globals.len() implies next.globals[i].name
        != next.globals[j].name by {
        assert(next.globals[i].name == symbols.globals[i].name);
        assert(next.globals[j].name == symbols.globals[j].name);
    }
    assert forall|i: int, j: int|
        0 <= i < next.functions.len() && 0 <= j < next.globals.len() implies next.functions[i].name
        != next.globals[j].name by {
        assert(next.globals[j].name == symbols.globals[j].name);
    }
}

/// The symbol table of a module.
pub struct SymbolTable<'cid, 'mid> {
    functions: Vec<Function<'cid, 'mid>>,
    globals: Vec<GlobalEntry>,
}

impl<'cid, 'mid> View for SymbolTable<'cid, 'mid> {
    type V = SymbolsModel;

    closed spec fn view(&self) -> SymbolsModel {
        SymbolsModel {
            functions: function_views(self.functions@),
            globals: global_views(self.globals@),
        }
    }
}

impl<'cid, 'mid> SymbolTable<'cid, 'mid> {
    /// The position of the function named `name`, if there is one.
    pub fn find_function(&self, name: &String) -> (found: Option<usize>)
        ensures
            match found {
                Some(position) => self@.function_named(name@) == Some(position as nat) && position
                    < self@.functions.len(),
                None => self@.function_named(name@) is None,
            },
    {
        let mut i: usize = 0;
        while i < self.functions.len()
            invariant
                i <= self.functions.len(),
                forall|k: int| 0 <= k < i ==> self@.function_names()[k] != name@,
            decreases self.functions.len() - i,
        {
            if self.functions[i].is_named(name) {
                proof {
                    lemma_found(self@.function_names(), name@, i as int);
                }
                return Some(i);
            }
            i += 1;
        }
        proof {
            lemma_not_found(self@.function_names(), name@);
        }
        None
    }

    /// The position of the global named `name`, if there is one.
    pub fn find_global(&self, name: &String) -> (found: Option<usize>)
        ensures
            match found {
                Some(position) => self@.global_named(name@) == Some(position as nat) && position
                    < self@.globals.len(),
                None => self@.global_named(name@) is None,
            },
    {
        let mut i: usize = 0;
        while i < self.globals.len()
            invariant
                i <= self.globals.len(),
                forall|k: int| 0 <= k < i ==> self@.global_names()[k] != name@,
            decreases self.globals.len() - i,
        {
            if self.globals[i].name == *name {
                proof {
                    lemma_found(self@.global_names(), name@, i as int);
                }
                return Some(i);
            }
            i += 1;
        }
        proof {
            lemma_not_found(self@.global_names(), name@);
        }
        None
    }

    /// What stands in the way of a new symbol named `name`.
    pub fn taken_by(&self, name: &String) -> (taken: Option<RedefinitionError>)
        ensures
            match taken {
                Some(conflict) => self@.taken_by(name@) == Some(conflict@),
                None => self@.taken_by(name@) is None,
            },
    {
        match self.find_function(name) {
            Some(position) => Some(RedefinitionError::Function(position)),
            None => match self.find_global(name) {
                Some(position) => Some(RedefinitionError::Global(position)),
                None => None,
            },
        }
    }

    /// The number of functions.
    pub fn num_functions(&self) -> (count: usize)
        ensures
            count == self@.functions.len(),
    {
        self.functions.len()
    }

    /// The function at `position`, if there is one.
    pub fn function(&self, position: usize) -> (found: Option<&Function<'cid, 'mid>>)
        ensures
            match found {
                Some(function) => position < self@.functions.len() && function@
                    == self@.functions[position as int],
                None => position >= self@.functions.len(),
            },
    {
        if position < self.functions.len() {
            Some(&self.functions[position])
        } else {
            None
        }
    }

    /// The number of globals.
    pub fn num_globals(&self) -> (count: usize)
        ensures
            count == self@.globals.len(),
    {
        self.globals.len()
    }

    /// The global at `position`, if there is one.
    pub fn global(&self, position: usize) -> (found: Option<&GlobalEntry>)
        ensures
            match found {
                Some(global) => position < self@.globals.len() && global@
                    == self@.globals[position as int],
                None => position >= self@.globals.len(),
            },
    {
        if position < self.globals.len() {
            Some(&self.globals[position])
        } else {
            None
        }
    }
}

/// A module of the context `'cid`, under the brand `'mid`.
pub struct Module<'cid, 'context, 'mid> {
    _id: Id<'mid>,
    _context: PhantomData<&'context Context<'cid>>,
    name: String,
    target_triple: Option<String>,
    data_layout: Option<String>,
    symbols: SymbolTable<'cid, 'mid>,
    disposals: Ghost<nat>,
}

/// The mathematical value of a [`Module`].
pub struct ModuleModel {
    /// The name that the module was made with.
    pub name: Seq<char>,
    /// The target that the module is meant for, once one was given.
    pub target_triple: Option<Seq<char>>,
    /// The description of the data layout, once one was given.
    pub data_layout: Option<Seq<char>>,
    /// The symbol table.
    pub symbols: SymbolsModel,
    /// The number of times the module was disposed of.
    pub disposals: nat,
}

impl<'cid, 'context, 'mid> View for Module<'cid, 'context, 'mid> {
    type V = ModuleModel;

    closed spec fn view(&self) -> ModuleModel {
        ModuleModel {
            name: self.name@,
            target_triple: match self.target_triple {
                Some(triple) => Some(triple@),
                None => None,
            },
            data_layout: match self.data_layout {
                Some(layout) => Some(layout@),
                None => None,
            },
            symbols: self.symbols@,
            disposals: self.disposals@,
        }
    }
}

impl<'cid, 'context, 'mid> DropInPlace for Module<'cid, 'context, 'mid> {
    open spec fn disposals(&self) -> nat {
        self@.disposals
    }

    /// A module holds nothing but its own record, which goes away with it: its
    /// disposal is counted and the record stays.
    fn drop_in_place(&mut self, leave: Disposal)
        ensures
            final(self)@ == (ModuleModel { disposals: old(self)@.disposals + 1, ..old(self)@ }),
    {
        proof {
            self.disposals@ = self.disposals@ + 1;
        }
    }
}

impl<'cid, 'context, 'mid> Module<'cid, 'context, 'mid> {
    /// Makes the empty module `name` in `context`, under the brand `_id`. The
    /// brand is used up: no second module can carry it.
    pub fn new(_id: Id<'mid>, name: &str, context: &'context Context<'cid>) -> (module: Owned<
        Module<'cid, 'context, 'mid>,
    >)
        ensures
            module@@ == (ModuleModel {
                name: name@,
                target_triple: None,
                data_layout: None,
                symbols: SymbolsModel::empty(),
                disposals: 0,
            }),
    {
        let module = Module {
            _id,
            _context: PhantomData,
            name: name.to_owned(),
            target_triple: None,
            data_layout: None,
            symbols: SymbolTable { functions: Vec::new(), globals: Vec::new() },
            disposals: Ghost(0),
        };
        proof {
            assert(module.symbols@.functions =~= Seq::empty());
            assert(module.symbols@.globals =~= Seq::empty());
        }
        Owned::from_raw(module)
    }

    /// Records the data layout that the module is meant for.
    pub fn set_data_layout(&mut self, layout: &DataLayout)
        ensures
            final(self)@ == (ModuleModel { data_layout: Some(layout@), ..old(self)@ }),
    {
        self.data_layout = Some(layout.as_string());
    }

    /// Records the target that the module is meant for.
    pub fn set_target_triple(&mut self, triple: &str)
        ensures
            final(self)@ == (ModuleModel { target_triple: Some(triple@), ..old(self)@ }),
    {
        self.target_triple = Some(triple.to_owned());
    }

    /// The mutable view of the module's symbol table. While it lives, nothing
    /// else reaches the module.
    pub fn builder<'module>(&'module mut self) -> (builder: ModuleBuilder<'cid, 'mid, 'module>)
        ensures
            builder.symbols@ == old(self)@.symbols,
            final(self)@ == (ModuleModel { symbols: final(builder.symbols)@, ..old(self)@ }),
    {
        ModuleBuilder { symbols: &mut self.symbols }
    }

    /// The name that the module was made with.
    pub fn name(&self) -> (name: &str)
        ensures
            name@ == self@.name,
    {
        self.name.as_str()
    }

    /// The target that the module is meant for, once one was given.
    pub fn target_triple(&self) -> (triple: Option<&str>)
        ensures
            match triple {
                Some(text) => self@.target_triple == Some(text@),
                None => self@.target_triple is None,
            },
    {
        match &self.target_triple {
            Some(text) => Some(text.as_str()),
            None => None,
        }
    }

    /// The description of the data layout, once one was given.
    pub fn data_layout(&self) -> (layout: Option<&str>)
        ensures
            match layout {
                Some(text) => self@.data_layout == Some(text@),
                None => self@.data_layout is None,
            },
    {
        match &self.data_layout {
            Some(text) => Some(text.as_str()),
            None => None,
        }
    }

    /// The symbol table, to read.
    pub fn symbols(&self) -> (symbols: &SymbolTable<'cid, 'mid>)
        ensures
            symbols@ == self@.symbols,
    {
        &self.symbols
    }
}

/// The mutable view of a module's symbol table: no more than the table, borrowed
/// from the module.
pub struct ModuleBuilder<'cid, 'mid, 'module> {
    /// The table that is being edited.
    pub symbols: &'module mut SymbolTable<'cid, 'mid>,
}

impl<'cid, 'mid, 'module> ModuleBuilder<'cid, 'mid, 'module> {
    /// Adds a global named `name` that holds a `ty`, unless the name is taken.
    pub fn add_global<Ty: DerivesFrom<Type<'cid>>>(&mut self, name: &str, ty: &Ty) -> (outcome:
        Result<Global<'cid, 'mid, Ty>, RedefinitionError>)
        ensures
            *final(final(self).symbols) == *final(old(self).symbols),
            match outcome {
                Ok(global) => {
                    &&& old(self).symbols@.taken_by(name@) is None
                    &&& global.handle() == Handle::Value(
                        ValueModel::Global(old(self).symbols@.globals.len()),
                    )
                    &&& final(self).symbols@ == old(self).symbols@.with_global(
                        GlobalModel { name: name@, ty: ty.handle().shape(), initializer: None },
                    )
                },
                Err(conflict) => {
                    &&& old(self).symbols@.taken_by(name@) == Some(conflict@)
                    &&& final(self).symbols@ == old(self).symbols@
                },
            },
    {
        let key = name.to_owned();
        match self.symbols.taken_by(&key) {
            Some(conflict) => Err(conflict),
            None => {
                let position = self.symbols.globals.len();
                let root: Type<'cid> = ty.widen();
                let entry = GlobalEntry { name: key, ty: root.as_raw(), initializer: None };
                self.symbols.globals.push(entry);
                proof {
                    assert(self.symbols@.globals =~= old(self).symbols@.globals.push(entry@));
                    assert(self.symbols@.functions =~= old(self).symbols@.functions);
                }
                Ok(Global::new(position))
            },
        }
    }

    /// Declares the function `name` of signature `ty`, or finds it if it was
    /// declared with that signature before: a repeated declaration is no
    /// error and hands back the function as it stands. A name that is taken by
    /// a function of another signature or by a global is refused. A function
    /// that is new comes without blocks.
    pub fn add_function(&mut self, name: &str, ty: &FunctionType<'cid>) -> (outcome:
        Result<&mut Function<'cid, 'mid>, RedefinitionError>)
        ensures
            *final(final(self).symbols) == *final(old(self).symbols),
            match outcome {
                Ok(function) => {
                    let (next, result) = old(self).symbols@.declare_or_get(
                        name@,
                        ty.handle().shape(),
                    );
                    &&& result matches Ok(position)
                    &&& position < next.functions.len()
                    &&& function@ == next.functions[position as int]
                    &&& final(self).symbols@ == next.with_function_at(
                        position as int,
                        final(function)@,
                    )
                },
                Err(conflict) => {
                    &&& old(self).symbols@.declare_or_get(name@, ty.handle().shape()) == (
                        old(self).symbols@,
                        Err::<nat, Conflict>(conflict@),
                    )
                    &&& final(self).symbols@ == old(self).symbols@
                },
            },
    {
        let key = name.to_owned();
        match self.symbols.taken_by(&key) {
            None => {
                let function = self.push_function(name, ty);
                proof {
                    let before = old(self).symbols@;
                    let size = before.functions.len() as int;
                    assert forall|f: FunctionModel, g: FunctionModel|
                        #[trigger] before.with_function(f).with_function_at(size, g)
                            == before.with_function(g) by {
                        assert(before.functions.push(f).update(size, g) =~= before.functions.push(g));
                    }
                }
                Ok(function)
            },
            Some(RedefinitionError::Function(position)) => {
                proof {
                    lemma_found_is_first(old(self).symbols@, name@, position as nat);
                }
                assert(self.symbols@.functions[position as int]
                    == self.symbols.functions@[position as int]@);
                if self.symbols.functions[position].function_type().same(ty) {
                    Ok(self.function_at(position))
                } else {
                    Err(RedefinitionError::Function(position))
                }
            },
            Some(conflict) => Err(conflict),
        }
    }

    /// Appends a declared function to the table, whatever names are taken.
    fn push_function(&mut self, name: &str, ty: &FunctionType<'cid>) -> (function: &mut Function<
        'cid,
        'mid,
    >)
        ensures
            *final(final(self).symbols) == *final(old(self).symbols),
            function@ == FunctionModel::declared(
                old(self).symbols@.functions.len(),
                name@,
                ty.handle().shape(),
            ),
            final(self).symbols@ == old(self).symbols@.with_function(final(function)@),
    {
        let position = self.symbols.functions.len();
        self.symbols.functions.push(Function::declared(position, name, ty));
        proof {
            let current = self.symbols.functions@;
            assert(self.symbols@.globals =~= old(self).symbols@.globals);
            assert forall|x: Function<'cid, 'mid>|
                function_views(#[trigger] current.update(position as int, x)) == old(
                    self,
                ).symbols@.functions.push(x@) by {
                assert(function_views(current.update(position as int, x)) =~= old(
                    self,
                ).symbols@.functions.push(x@));
            }
        }
        &mut self.symbols.functions[position]
    }

    /// The function at `position`, to edit.
    fn function_at(&mut self, position: usize) -> (function: &mut Function<'cid, 'mid>)
        requires
            position < old(self).symbols@.functions.len(),
        ensures
            *final(final(self).symbols) == *final(old(self).symbols),
            function@ == old(self).symbols@.functions[position as int],
            final(self).symbols@ == old(self).symbols@.with_function_at(
                position as int,
                final(function)@,
            ),
    {
        proof {
            let current = self.symbols.functions@;
            assert forall|x: Function<'cid, 'mid>|
                function_views(#[trigger] current.update(position as int, x)) == old(
                    self,
                ).symbols@.functions.update(position as int, x@) by {
                assert(function_views(current.update(position as int, x)) =~= old(
                    self,
                ).symbols@.functions.update(position as int, x@));
            }
        }
        &mut self.symbols.functions[position]
    }

    /// The identity of the function named `name`, if the module has one.
    pub fn get_named_function(&self, name: &str) -> (found: Option<FunctionLabel<'cid, 'mid>>)
        ensures
            match found {
                Some(label) => {
                    &&& old(self.symbols)@.function_named(name@) == Some(label@.index)
                    &&& label@.index < old(self.symbols)@.functions.len()
                    &&& label@.signature == old(self.symbols)@.functions[label@.index as int].signature
                },
                None => old(self.symbols)@.function_named(name@) is None,
            },
    {
        let key = name.to_owned();
        match self.symbols.find_function(&key) {
            Some(position) => {
                let label = FunctionLabel::new(
                    position,
                    self.symbols.functions[position].function_type(),
                );
                proof {
                    assert(self.symbols@.functions[position as int]
                        == self.symbols.functions@[position as int]@);
                }
                Some(label)
            },
            None => None,
        }
    }

    /// Declares the function `name` of signature `ty`, or finds it if it was
    /// declared with that signature before. This is
    /// [`add_function`](Self::add_function) under the name that says what it
    /// does.
    pub fn declare_or_get_function(&mut self, name: &str, ty: &FunctionType<'cid>) -> (outcome:
        Result<&mut Function<'cid, 'mid>, RedefinitionError>)
        ensures
            *final(final(self).symbols) == *final(old(self).symbols),
            match outcome {
                Ok(function) => {
                    let (next, result) = old(self).symbols@.declare_or_get(
                        name@,
                        ty.handle().shape(),
                    );
                    &&& result matches Ok(position)
                    &&& position < next.functions.len()
                    &&& function@ == next.functions[position as int]
                    &&& final(self).symbols@ == next.with_function_at(
                        position as int,
                        final(function)@,
                    )
                },
                Err(conflict) => {
                    &&& old(self).symbols@.declare_or_get(name@, ty.handle().shape()) == (
                        old(self).symbols@,
                        Err::<nat, Conflict>(conflict@),
                    )
                    &&& final(self).symbols@ == old(self).symbols@
                },
            },
    {
        self.add_function(name, ty)
    }

    /// A second view of the same table, for a shorter time.
    pub fn reborrow<'a>(&'a mut self) -> (builder: ModuleBuilder<'cid, 'mid, 'a>)
        ensures
            builder.symbols@ == old(self).symbols@,
            final(self).symbols@ == final(builder.symbols)@,
            *final(final(self).symbols) == *final(old(self).symbols),
    {
        ModuleBuilder { symbols: &mut *self.symbols }
    }

    /// Gives the global at `position` the constant `value` to start with.
    pub(crate) fn set_initializer_at(&mut self, position: usize, value: ConstantShape) -> (outcome:
        Result<(), Misplaced>)
        ensures
            *final(final(self).symbols) == *final(old(self).symbols),
            match outcome {
                Ok(_) => {
                    &&& position < old(self).symbols@.globals.len()
                    &&& final(self).symbols@ == old(self).symbols@.with_global_at(
                        position as int,
                        GlobalModel {
                            initializer: Some(value@),
                            ..old(self).symbols@.globals[position as int]
                        },
                    )
                },
                Err(_) => {
                    &&& position >= old(self).symbols@.globals.len()
                    &&& final(self).symbols@ == old(self).symbols@
                },
            },
    {
        if position < self.symbols.globals.len() {
            let entry = &mut self.symbols.globals[position];
            entry.initializer = Some(value);
            proof {
                assert(self.symbols@.globals =~= old(self).symbols@.globals.update(
                    position as int,
                    GlobalModel {
                        initializer: Some(value@),
                        ..old(self).symbols@.globals[position as int]
                    },
                ));
                assert(self.symbols@.functions =~= old(self).symbols@.functions);
            }
            Ok(())
        } else {
            Err(Misplaced)
        }
    }
}

/// The function that a search by name finds is named so.
pub proof fn lemma_found_is_first(symbols: SymbolsModel, name: Seq<char>, position: nat)
    requires
        symbols.function_named(name) == Some(position),
    ensures
        position < symbols.functions.len(),
        symbols.functions[position as int].name == name,
        forall|earlier: int| 0 <= earlier < position ==> symbols.functions[earlier].name != name,
{
    let names = symbols.function_names();
    let chosen = choose|p: int| is_first(names, name, p);
    assert(is_first(names, name, chosen));
    assert forall|earlier: int| 0 <= earlier < position implies symbols.functions[earlier].name
        != name by {
        assert(names[earlier] != name);
    }
}

} // verus!
