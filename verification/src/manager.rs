//! The registry: the function table, the libraries that back loaded
//! functions, and the built-in kinds already taken in.
use vstd::prelude::*;
use crate::error::app_error::{AppError, AppErrorView, AppResult};
use crate::error::loading::{LoadingError, LoadingErrorView};
use crate::error::unloading::{UnloadingError, UnloadingErrorView};
use crate::func::{outcome_of, FunctionInstance, Outcome};
use crate::functions::logger::LogSink;
use crate::functions::{BuiltinFunction, BuiltinFunctionList};
use crate::loader::{
    check_library_path, path_verdict, ConstructorOutcome, LoadAction, LoadActionView, LoadEvent,
    PathProbe,
};
use crate::output::AppOutput;
use crate::req::{ComputeRequest, RemoveFunctionRequest};
use crate::resp::ComputeResponse;
use crate::table::{
    has_name, index_of, lemma_empty, lemma_lookup, lemma_push, lemma_remove, lemma_table_len,
    names_distinct, names_of, table_of,
};
use crate::targets::TargetComputeFunc;
use crate::text::text_eq;

verus! {

/// One notification that the registry gave to a function.
pub enum HookCall {
    /// `on_plugin_load` of the function taken in under this name.
    Load(Seq<char>),
    /// `on_plugin_unload` of the function removed from this name.
    Unload(Seq<char>),
}

/// What a registry is, as a mathematical value.
pub struct RegistryView {
    /// The function registered under each name.
    pub table: Map<Seq<char>, FunctionInstance>,
    /// The libraries kept loaded, oldest first.
    pub libraries: Seq<libloading::Library>,
    /// The built-in kinds already taken in.
    pub builtins: Set<BuiltinFunction>,
    /// Every notification given so far, oldest first.
    pub hooks: Seq<HookCall>,
}

/// Owns the compute functions of a host and routes requests to them.
pub struct ComputeFunctionManager {
    functions: Vec<FunctionInstance>,
    loaded_libraries: Vec<libloading::Library>,
    builtins: BuiltinFunctionList,
    hooks: Ghost<Seq<HookCall>>,
}

impl View for ComputeFunctionManager {
    type V = RegistryView;

    closed spec fn view(&self) -> RegistryView {
        RegistryView {
            table: table_of(self.functions@),
            libraries: self.loaded_libraries@,
            builtins: self.builtins@,
            hooks: self.hooks@,
        }
    }
}

impl RegistryView {
    /// The registry that holds nothing and has notified nobody.
    pub open spec fn empty() -> RegistryView {
        RegistryView {
            table: Map::empty(),
            libraries: Seq::empty(),
            builtins: Set::empty(),
            hooks: Seq::empty(),
        }
    }

    /// Whether a function is registered under the name.
    pub open spec fn is_loaded(self, name: Seq<char>) -> bool {
        self.table.dom().contains(name)
    }

    /// The registry with the function standing under its name. The registry
    /// takes this step only for a name that is free.
    pub open spec fn with_function(self, function: FunctionInstance) -> RegistryView {
        RegistryView { table: self.table.insert(function.spec_name(), function), ..self }
    }

    /// The registry after it notified a function.
    pub open spec fn with_hook(self, call: HookCall) -> RegistryView {
        RegistryView { hooks: self.hooks.push(call), ..self }
    }

    /// The registry after it took a library in.
    pub open spec fn with_library(self, library: libloading::Library) -> RegistryView {
        RegistryView { libraries: self.libraries.push(library), ..self }
    }

    /// The registry after a plugin was registered: it was told that it is
    /// loaded, then it became reachable under its name.
    pub open spec fn with_plugin(self, function: FunctionInstance) -> RegistryView {
        self.with_hook(HookCall::Load(function.spec_name())).with_function(function)
    }

    /// The registry after the function of the name was removed and told so.
    pub open spec fn without(self, name: Seq<char>) -> RegistryView {
        RegistryView {
            table: self.table.remove(name),
            hooks: self.hooks.push(HookCall::Unload(name)),
            ..self
        }
    }

    /// What comes of taking in a function of a built-in kind. A kind that
    /// was taken in before is not taken in again. A function whose name is
    /// taken is turned away, and the kind stays unmarked. Else the function
    /// is registered as a plugin is, and the kind is marked.
    pub open spec fn load_builtin(self, kind: BuiltinFunction, function: FunctionInstance) -> (
        RegistryView,
        Result<bool, LoadingErrorView>,
    ) {
        if self.builtins.contains(kind) {
            (self, Ok(false))
        } else if self.is_loaded(function.spec_name()) {
            (self, Err(LoadingErrorView::FunctionNameCollision(function.spec_name())))
        } else {
            (
                RegistryView {
                    builtins: self.builtins.insert(kind),
                    ..self.with_plugin(function)
                },
                Ok(true),
            )
        }
    }

    /// What comes of registering what a constructor gave: the registry
    /// afterwards, and the result reported. A missing constructor, a missing
    /// instance and a name that is taken each end the load and leave the
    /// registry as it was.
    pub open spec fn register(self, outcome: ConstructorOutcome) -> (
        RegistryView,
        Result<(), LoadingErrorView>,
    ) {
        match outcome {
            ConstructorOutcome::SymbolMissing(why) => (
                self,
                Err(LoadingErrorView::ConstructorLoadFailure(why@)),
            ),
            ConstructorOutcome::NullHandle => (self, Err(LoadingErrorView::ConstructorCallFailure)),
            ConstructorOutcome::Instance(function) => if self.is_loaded(function.spec_name()) {
                (self, Err(LoadingErrorView::FunctionNameCollision(function.spec_name())))
            } else {
                (self.with_plugin(function), Ok(()))
            },
        }
    }

    /// What comes of taking in what opening a library gave: a library that
    /// was opened is kept from then on, whatever becomes of the load.
    pub open spec fn retain(self, opened: Result<libloading::Library, String>) -> (
        RegistryView,
        Result<(), LoadingErrorView>,
    ) {
        match opened {
            Ok(library) => (self.with_library(library), Ok(())),
            Err(why) => (self, Err(LoadingErrorView::LibraryLoadFailure(why@))),
        }
    }

    /// What comes of one step of a load: the registry afterwards, and what
    /// the registry asks for next.
    pub open spec fn load_step(self, path: Seq<char>, event: LoadEvent) -> (
        RegistryView,
        LoadActionView,
    ) {
        match event {
            LoadEvent::PathProbed(probe) => match path_verdict(path, probe@) {
                None => (self, LoadActionView::OpenLibrary),
                Some(error) => (self, LoadActionView::Finish(Err(error))),
            },
            LoadEvent::LibraryOpened(opened) => match self.retain(opened) {
                (next, Ok(())) => (next, LoadActionView::Construct),
                (next, Err(error)) => (next, LoadActionView::Finish(Err(error))),
            },
            LoadEvent::Constructed(outcome) => (
                self.register(outcome).0,
                LoadActionView::Finish(self.register(outcome).1),
            ),
        }
    }

    /// What comes of an unload: the registry afterwards, and the result.
    pub open spec fn unload(self, target: Seq<char>) -> (
        RegistryView,
        Result<(), UnloadingErrorView>,
    ) {
        if self.is_loaded(target) {
            (self.without(target), Ok(()))
        } else {
            (self, Err(UnloadingErrorView::TargetNotFound(target)))
        }
    }

    /// Whether `result` is a result that dispatching `request` may have: the
    /// target's own answer if the target is registered, `TargetNotFound`
    /// otherwise.
    pub open spec fn answers(
        self,
        request: crate::req::ComputeRequestView,
        result: Result<ComputeResponse, AppErrorView>,
    ) -> bool {
        if self.is_loaded(request.target) {
            exists|outcome: Outcome|
                #![auto]
                self.table[request.target].handles(request, outcome) && result == normalized(
                    outcome,
                )
        } else {
            result == Err::<ComputeResponse, AppErrorView>(
                AppErrorView::TargetNotFound(request.target),
            )
        }
    }
}

/// What the registry reports for what a handler gave back: an answer is
/// handed on as it is, a rejection becomes a `BadRequest` error.
pub open spec fn normalized(outcome: Outcome) -> Result<ComputeResponse, AppErrorView> {
    match outcome {
        Ok(response) => Ok(response),
        Err(error) => Err(AppErrorView::BadRequest(error)),
    }
}

/// Turns what a handler gave back into what the registry reports for it.
pub fn normalize(result: Result<ComputeResponse, crate::error::bad_req::BadRequestError>) -> (reported:
    AppResult<ComputeResponse>)
    ensures
        dispatch_view(reported) == normalized(outcome_of(result)),
{
    match result {
        Ok(response) => Ok(response),
        Err(error) => Err(AppError::BadRequest(error)),
    }
}

/// The mathematical value of a dispatch result.
pub open spec fn dispatch_view(result: AppResult<ComputeResponse>) -> Result<
    ComputeResponse,
    AppErrorView,
> {
    match result {
        Ok(response) => Ok(response),
        Err(error) => Err(error@),
    }
}

/// The mathematical value of the result of a built-in load.
pub open spec fn builtin_view(result: Result<bool, LoadingError>) -> Result<
    bool,
    LoadingErrorView,
> {
    match result {
        Ok(newly) => Ok(newly),
        Err(error) => Err(error@),
    }
}

/// The mathematical value of a load result.
pub open spec fn load_view(result: Result<(), LoadingError>) -> Result<(), LoadingErrorView> {
    match result {
        Ok(()) => Ok(()),
        Err(error) => Err(error@),
    }
}

/// The mathematical value of an unload result.
pub open spec fn unload_view(result: Result<(), UnloadingError>) -> Result<(), UnloadingErrorView> {
    match result {
        Ok(()) => Ok(()),
        Err(error) => Err(error@),
    }
}

impl ComputeFunctionManager {
    /// The invariant of the registry: no two functions share a name.
    pub closed spec fn wf(&self) -> bool {
        &&& names_distinct(self.functions@)
        &&& self.builtins.wf()
    }

    /// The names of the registered functions in the order in which a
    /// teardown notifies them.
    pub closed spec fn teardown_order(&self) -> Seq<Seq<char>> {
        Seq::new(
            self.functions@.len(),
            |k: int| self.functions@[self.functions@.len() - 1 - k].spec_name(),
        )
    }

    /// A teardown notifies exactly the registered names, each once.
    pub proof fn lemma_teardown_order(&self)
        requires
            self.wf(),
        ensures
            self.teardown_order().no_duplicates(),
            self.teardown_order().to_set() == self@.table.dom(),
            self.teardown_order().len() == self@.table.dom().len(),
    {
        let entries = self.functions@;
        let order = self.teardown_order();
        let n = entries.len() as int;
        assert forall|a: int, b: int| 0 <= a < order.len() && 0 <= b < order.len() && a != b implies order[a]
            != order[b] by {
            assert(entries[n - 1 - a].spec_name() != entries[n - 1 - b].spec_name());
        }
        assert forall|name: Seq<char>| order.to_set().contains(name) <==> table_of(
            entries,
        ).dom().contains(name) by {
            if order.to_set().contains(name) {
                let k = choose|k: int| 0 <= k < order.len() && order[k] == name;
                assert(entries[n - 1 - k].spec_name() == name);
            }
            if has_name(entries, name) {
                let i = index_of(entries, name);
                assert(order[n - 1 - i] == name);
                assert(order.contains(name));
            }
        }
        assert(order.to_set() =~= table_of(entries).dom());
        order.unique_seq_to_set();
    }

    /// A new, empty registry.
    #[must_use]
    pub fn new() -> (manager: Self)
        ensures
            manager.wf(),
            manager@ == RegistryView::empty(),
    {
        proof {
            lemma_empty();
        }
        Self {
            functions: Vec::new(),
            loaded_libraries: Vec::new(),
            builtins: BuiltinFunctionList::new(),
            hooks: Ghost(Seq::empty()),
        }
    }

    /// Where the function of a name stands in the list, if it is registered.
    fn find(&self, name: &str) -> (place: Option<usize>)
        ensures
            place is Some <==> has_name(self.functions@, name@),
            place matches Some(i) ==> i < self.functions@.len() && self.functions@[i as int].spec_name()
                == name@,
    {
        let mut i: usize = 0;
        while i < self.functions.len()
            invariant
                i <= self.functions.len(),
                forall|j: int| 0 <= j < i ==> (#[trigger] self.functions@[j]).spec_name() != name@,
            decreases self.functions.len() - i,
        {
            if text_eq(self.functions[i].name(), name) {
                return Some(i);
            }
            i += 1;
        }
        None
    }

    /// Whether a function is registered under the name.
    pub fn is_loaded(&self, name: &str) -> (loaded: bool)
        ensures
            loaded == self@.is_loaded(name@),
    {
        self.find(name).is_some()
    }

    /// How many functions are registered.
    pub fn function_count(&self) -> (count: usize)
        requires
            self.wf(),
        ensures
            count == self@.table.dom().len(),
    {
        proof {
            lemma_table_len(self.functions@);
        }
        self.functions.len()
    }

    /// How many libraries are kept loaded.
    pub fn library_count(&self) -> (count: usize)
        ensures
            count == self@.libraries.len(),
    {
        self.loaded_libraries.len()
    }

    /// Whether a built-in kind was already taken in by `load_builtin_function`.
    pub fn has_builtin(&self, kind: BuiltinFunction) -> (taken: bool)
        ensures
            taken == self@.builtins.contains(kind),
    {
        self.builtins.contains(kind)
    }

    /// The library that the registry took in last.
    pub fn last_library(&self) -> (library: Option<&libloading::Library>)
        ensures
            library is Some <==> self@.libraries.len() > 0,
            library matches Some(l) ==> *l == self@.libraries.last(),
    {
        let n = self.loaded_libraries.len();
        if n == 0 {
            None
        } else {
            Some(&self.loaded_libraries[n - 1])
        }
    }

    /// Tells a function of a free name that it is loaded, then makes it
    /// reachable under its name.
    fn take_in(&mut self, instance: FunctionInstance)
        requires
            old(self).wf(),
            !old(self)@.is_loaded(instance.spec_name()),
        ensures
            final(self).wf(),
            final(self)@ == old(self)@.with_plugin(instance),
    {
        instance.on_plugin_load();
        self.hooks = Ghost(self.hooks@.push(HookCall::Load(instance.spec_name())));
        proof {
            lemma_push(self.functions@, instance);
        }
        self.functions.push(instance);
    }

    /// Registers a built-in instance as a plugin is registered: it is told
    /// that it is loaded and becomes reachable, unless its name is taken.
    /// No kind is marked.
    pub fn load_builtin_instance(&mut self, instance: FunctionInstance) -> (result: Result<
        (),
        LoadingError,
    >)
        requires
            old(self).wf(),
        ensures
            final(self).wf(),
            (final(self)@, load_view(result)) == old(self)@.register(
                ConstructorOutcome::Instance(instance),
            ),
    {
        self.register_plugin(ConstructorOutcome::Instance(instance))
    }

    /// Takes in a function of a built-in kind, made with the sink if one is
    /// given.
    fn load_builtin_with(&mut self, kind: BuiltinFunction, sink: Option<Box<dyn LogSink>>) -> (loaded:
        Result<bool, LoadingError>)
        requires
            old(self).wf(),
        ensures
            final(self).wf(),
            old(self)@.builtins.contains(kind) ==> final(self)@ == old(self)@ && builtin_view(
                loaded,
            ) == Ok::<bool, LoadingErrorView>(false),
            !old(self)@.builtins.contains(kind) && old(self)@.is_loaded(kind.spec_name())
                ==> final(self)@ == old(self)@ && builtin_view(loaded) == Err::<
                bool,
                LoadingErrorView,
            >(LoadingErrorView::FunctionNameCollision(kind.spec_name())),
            !old(self)@.builtins.contains(kind) ==> exists|function: FunctionInstance|
                #![auto]
                kind.makes(function) && (final(self)@, builtin_view(loaded)) == old(
                    self,
                )@.load_builtin(kind, function),
    {
        if self.builtins.contains(kind) {
            return Ok(false);
        }
        let func = match sink {
            Some(sink) => kind.create_with_sink(sink),
            None => kind.create(),
        };
        if self.find(func.name()).is_some() {
            let error = LoadingError::name_collision(func.name());
            assert((self@, builtin_view(Err(error))) == old(self)@.load_builtin(kind, func));
            return Err(error);
        }
        self.take_in(func);
        self.builtins.add(kind);
        assert((self@, Ok::<bool, LoadingErrorView>(true)) == old(self)@.load_builtin(kind, func));
        Ok(true)
    }

    /// Takes in a function of a built-in kind, unless the kind was taken in
    /// before. A new function is made only for a kind that is new; it is
    /// told that it is loaded and becomes reachable, unless its name is
    /// taken. Says whether the kind was new.
    pub fn load_builtin_function(&mut self, kind: BuiltinFunction) -> (loaded: Result<
        bool,
        LoadingError,
    >)
        requires
            old(self).wf(),
        ensures
            final(self).wf(),
            old(self)@.builtins.contains(kind) ==> final(self)@ == old(self)@ && builtin_view(
                loaded,
            ) == Ok::<bool, LoadingErrorView>(false),
            !old(self)@.builtins.contains(kind) && old(self)@.is_loaded(kind.spec_name())
                ==> final(self)@ == old(self)@ && builtin_view(loaded) == Err::<
                bool,
                LoadingErrorView,
            >(LoadingErrorView::FunctionNameCollision(kind.spec_name())),
            !old(self)@.builtins.contains(kind) ==> exists|function: FunctionInstance|
                #![auto]
                kind.makes(function) && (final(self)@, builtin_view(loaded)) == old(
                    self,
                )@.load_builtin(kind, function),
    {
        self.load_builtin_with(kind, None)
    }

    /// As `load_builtin_function`, with a function that hands what it
    /// writes to `sink`.
    pub fn load_builtin_function_with_sink(
        &mut self,
        kind: BuiltinFunction,
        sink: Box<dyn LogSink>,
    ) -> (loaded: Result<bool, LoadingError>)
        requires
            old(self).wf(),
        ensures
            final(self).wf(),
            old(self)@.builtins.contains(kind) ==> final(self)@ == old(self)@ && builtin_view(
                loaded,
            ) == Ok::<bool, LoadingErrorView>(false),
            !old(self)@.builtins.contains(kind) && old(self)@.is_loaded(kind.spec_name())
                ==> final(self)@ == old(self)@ && builtin_view(loaded) == Err::<
                bool,
                LoadingErrorView,
            >(LoadingErrorView::FunctionNameCollision(kind.spec_name())),
            !old(self)@.builtins.contains(kind) ==> exists|function: FunctionInstance|
                #![auto]
                kind.makes(function) && (final(self)@, builtin_view(loaded)) == old(
                    self,
                )@.load_builtin(kind, function),
    {
        self.load_builtin_with(kind, Some(sink))
    }

    /// A registry that holds the built-in logger and nothing else. The
    /// logger was told that it is loaded; its kind is not marked.
    #[must_use]
    pub fn with_logger() -> (manager: Self)
        ensures
            manager.wf(),
            exists|logger: FunctionInstance|
                #![auto]
                BuiltinFunction::Logger.makes(logger) && manager@
                    == RegistryView::empty().with_plugin(logger),
    {
        let mut manager = Self::new();
        let logger = BuiltinFunction::Logger.create();
        manager.take_in(logger);
        manager
    }

    /// A registry that holds a function of each kind in `funcs` and nothing
    /// else. Each function was told that it is loaded, in the set's order.
    /// The kinds are not marked as taken in.
    #[must_use]
    pub fn with_builtins(funcs: &BuiltinFunctionList) -> (manager: Self)
        requires
            funcs.wf(),
        ensures
            manager.wf(),
            manager@.libraries == Seq::<libloading::Library>::empty(),
            manager@.builtins == Set::<BuiltinFunction>::empty(),
            manager@.hooks == funcs.order().map_values(
                |kind: BuiltinFunction| HookCall::Load(kind.spec_name()),
            ),
            forall|name: Seq<char>| #[trigger]
                manager@.is_loaded(name) <==> exists|kind: BuiltinFunction|
                    funcs@.contains(kind) && #[trigger] kind.spec_name() == name,
            forall|kind: BuiltinFunction| #[trigger]
                funcs@.contains(kind) ==> kind.makes(manager@.table[kind.spec_name()]),
    {
        let mut manager = Self::new();
        let mut created = funcs.create_all();
        let ghost order = funcs.order();
        let ghost all = created@;
        let ghost calls = order.map_values(|kind: BuiltinFunction| HookCall::Load(kind.spec_name()));
        let ghost mut done: int = 0;
        proof {
            funcs.lemma_order();
            assert(all.skip(0) =~= all);
            assert(calls.take(0) =~= Seq::<HookCall>::empty());
        }
        while created.len() > 0
            invariant
                manager.wf(),
                manager@.libraries == Seq::<libloading::Library>::empty(),
                manager@.builtins == Set::<BuiltinFunction>::empty(),
                order == funcs.order(),
                order.no_duplicates(),
                all.len() == order.len(),
                calls == order.map_values(|kind: BuiltinFunction| HookCall::Load(kind.spec_name())),
                0 <= done <= order.len(),
                created@ == all.skip(done),
                manager@.hooks == calls.take(done),
                forall|j: int| 0 <= j < all.len() ==> (#[trigger] order[j]).makes(all[j]),
                forall|name: Seq<char>| #[trigger]
                    manager@.is_loaded(name) <==> exists|j: int|
                        0 <= j < done && (#[trigger] order[j]).spec_name() == name,
                forall|j: int|
                    0 <= j < done ==> (#[trigger] order[j]).makes(
                        manager@.table[order[j].spec_name()],
                    ),
            decreases created@.len(),
        {
            let ghost prior = manager@;
            let func = created.remove(0);
            proof {
                let kind = order[done];
                assert(func == all[done]);
                assert(kind.makes(func));
                assert(created@ =~= all.skip(done + 1));
                if prior.is_loaded(func.spec_name()) {
                    let j = choose|j: int|
                        0 <= j < done && (#[trigger] order[j]).spec_name() == func.spec_name();
                    BuiltinFunction::lemma_names_differ(order[j], kind);
                    assert(order[j] != kind);
                }
            }
            manager.take_in(func);
            proof {
                let kind = order[done];
                assert(calls.take(done + 1) =~= calls.take(done).push(calls[done]));
                assert forall|name: Seq<char>| #[trigger]
                    manager@.is_loaded(name) <==> exists|j: int|
                        0 <= j < done + 1 && (#[trigger] order[j]).spec_name() == name by {
                    if prior.is_loaded(name) {
                        let j = choose|j: int|
                            0 <= j < done && (#[trigger] order[j]).spec_name() == name;
                        assert(0 <= j < done + 1 && order[j].spec_name() == name);
                    }
                    if name == func.spec_name() {
                        assert(order[done].spec_name() == name);
                    }
                }
                assert forall|j: int| 0 <= j < done + 1 implies (#[trigger] order[j]).makes(
                    manager@.table[order[j].spec_name()],
                ) by {
                    if j != done {
                        BuiltinFunction::lemma_names_differ(order[j], kind);
                        assert(order[j] != kind);
                    }
                }
                done = done + 1;
            }
        }
        proof {
            assert(calls.take(order.len() as int) =~= calls);
            assert forall|name: Seq<char>| #[trigger]
                manager@.is_loaded(name) <==> exists|kind: BuiltinFunction|
                    funcs@.contains(kind) && #[trigger] kind.spec_name() == name by {
                if manager@.is_loaded(name) {
                    let j = choose|j: int|
                        0 <= j < order.len() && (#[trigger] order[j]).spec_name() == name;
                    assert(order.contains(order[j]));
                    assert(funcs@.contains(order[j]));
                }
                if exists|kind: BuiltinFunction|
                    funcs@.contains(kind) && #[trigger] kind.spec_name() == name {
                    let kind = choose|kind: BuiltinFunction|
                        funcs@.contains(kind) && #[trigger] kind.spec_name() == name;
                    assert(order.contains(kind));
                    let j = choose|j: int| 0 <= j < order.len() && order[j] == kind;
                    assert(order[j].spec_name() == name);
                }
            }
            assert forall|kind: BuiltinFunction| #[trigger] funcs@.contains(kind) implies kind.makes(
                manager@.table[kind.spec_name()],
            ) by {
                assert(order.contains(kind));
                let j = choose|j: int| 0 <= j < order.len() && order[j] == kind;
                assert(order[j].makes(manager@.table[order[j].spec_name()]));
            }
        }
        manager
    }

    /// Registers what a creator gives, if it gives anything, as a plugin is
    /// registered.
    pub fn init_builtin_instance<F: FnOnce() -> Option<FunctionInstance>>(
        &mut self,
        creator: F,
    ) -> (result: Result<(), LoadingError>)
        requires
            old(self).wf(),
            creator.requires(()),
        ensures
            final(self).wf(),
            exists|made: Option<FunctionInstance>|
                #![auto]
                creator.ensures((), made) && (final(self)@, load_view(result)) == match made {
                    Some(instance) => old(self)@.register(ConstructorOutcome::Instance(instance)),
                    None => (old(self)@, Ok::<(), LoadingErrorView>(())),
                },
    {
        match creator() {
            Some(inst) => self.register_plugin(ConstructorOutcome::Instance(inst)),
            None => Ok(()),
        }
    }

    /// Keeps a library that was opened, for as long as the registry lives;
    /// reports a library that could not be opened.
    pub fn retain_library(&mut self, opened: Result<libloading::Library, String>) -> (result: Result<
        (),
        LoadingError,
    >)
        requires
            old(self).wf(),
        ensures
            final(self).wf(),
            (final(self)@, load_view(result)) == old(self)@.retain(opened),
    {
        match opened {
            Ok(library) => {
                self.loaded_libraries.push(library);
                Ok(())
            },
            Err(why) => Err(LoadingError::lib_load_failure(why.as_str())),
        }
    }

    /// Registers what a library's constructor gave. A new function is told
    /// that it is loaded and then becomes reachable; a function whose name is
    /// taken is turned away, and the function that has the name stays.
    pub fn register_plugin(&mut self, outcome: ConstructorOutcome) -> (result: Result<
        (),
        LoadingError,
    >)
        requires
            old(self).wf(),
        ensures
            final(self).wf(),
            (final(self)@, load_view(result)) == old(self)@.register(outcome),
    {
        match outcome {
            ConstructorOutcome::SymbolMissing(why) => Err(
                LoadingError::ctor_load_failure(why.as_str()),
            ),
            ConstructorOutcome::NullHandle => Err(LoadingError::ctor_call_failure()),
            ConstructorOutcome::Instance(plugin) => {
                if self.find(plugin.name()).is_some() {
                    return Err(LoadingError::name_collision(plugin.name()));
                }
                self.take_in(plugin);
                Ok(())
            },
        }
    }

    /// One step of loading a function from the library at `library_path`.
    /// The host reports what it found; the registry says what to do next.
    /// A load starts with `PathProbed` and ends with `Finish`.
    pub fn load_plugin(&mut self, library_path: &str, event: LoadEvent) -> (action: LoadAction)
        requires
            old(self).wf(),
        ensures
            final(self).wf(),
            (final(self)@, action@) == old(self)@.load_step(library_path@, event),
    {
        match event {
            LoadEvent::PathProbed(probe) => match check_library_path(library_path, &probe) {
                Ok(()) => LoadAction::OpenLibrary,
                Err(error) => LoadAction::Finish(Err(error)),
            },
            LoadEvent::LibraryOpened(opened) => match self.retain_library(opened) {
                Ok(()) => LoadAction::Construct,
                Err(error) => LoadAction::Finish(Err(error)),
            },
            LoadEvent::Constructed(outcome) => LoadAction::Finish(self.register_plugin(outcome)),
        }
    }

    /// Removes the function of the target's name and tells it so. The
    /// library that backs it stays loaded.
    pub fn unload_plugin(&mut self, target: &TargetComputeFunc) -> (result: Result<
        (),
        UnloadingError,
    >)
        requires
            old(self).wf(),
        ensures
            final(self).wf(),
            (final(self)@, unload_view(result)) == old(self)@.unload(target@),
    {
        match self.find(target.name()) {
            None => Err(UnloadingError::TargetNotFound(target.clone())),
            Some(i) => {
                proof {
                    lemma_remove(self.functions@, i as int);
                }
                let plugin = self.functions.remove(i);
                plugin.on_plugin_unload();
                self.hooks = Ghost(self.hooks@.push(HookCall::Unload(plugin.spec_name())));
                Ok(())
            },
        }
    }

    /// Removes every function, telling each so, then lets go of every
    /// library. The built-in kinds taken in stay marked. Each function that
    /// was registered is told once, and nobody else is told.
    pub fn unload_all(&mut self)
        requires
            old(self).wf(),
        ensures
            final(self).wf(),
            old(self).teardown_order().no_duplicates(),
            old(self).teardown_order().to_set() == old(self)@.table.dom(),
            old(self).teardown_order().len() == old(self)@.table.dom().len(),
            final(self)@ == (RegistryView {
                table: Map::empty(),
                libraries: Seq::empty(),
                builtins: old(self)@.builtins,
                hooks: old(self)@.hooks + old(self).teardown_order().map_values(
                    |name: Seq<char>| HookCall::Unload(name),
                ),
            }),
    {
        let ghost before = self.functions@;
        let ghost order = self.teardown_order();
        proof {
            self.lemma_teardown_order();
        }
        let ghost calls = order.map_values(|name: Seq<char>| HookCall::Unload(name));
        proof {
            assert(self.functions@.take(self.functions@.len() as int) =~= self.functions@);
            assert(calls.take(0) =~= Seq::<HookCall>::empty());
            assert(self.hooks@ + Seq::<HookCall>::empty() =~= self.hooks@);
        }
        while self.functions.len() > 0
            invariant
                self.functions@.len() <= before.len(),
                self.functions@ == before.take(self.functions@.len() as int),
                self.loaded_libraries == old(self).loaded_libraries,
                self.builtins == old(self).builtins,
                self.hooks@ == old(self).hooks@ + calls.take(before.len() - self.functions@.len()),
                order.len() == before.len(),
                calls == order.map_values(|name: Seq<char>| HookCall::Unload(name)),
                forall|k: int|
                    0 <= k < order.len() ==> #[trigger] order[k] == before[before.len() - 1
                        - k].spec_name(),
            decreases self.functions@.len(),
        {
            let ghost n = self.functions@.len() as int;
            let ghost done = before.len() - n;
            if let Some(plugin) = self.functions.pop() {
                plugin.on_plugin_unload();
                self.hooks = Ghost(self.hooks@.push(HookCall::Unload(plugin.spec_name())));
                proof {
                    assert(plugin == before[n - 1]);
                    assert(self.functions@ =~= before.take(n - 1));
                    assert(calls[done] == HookCall::Unload(order[done]));
                    assert(calls.take(done + 1) =~= calls.take(done).push(calls[done]));
                    assert((old(self).hooks@ + calls.take(done)).push(calls[done]) =~= old(
                        self,
                    ).hooks@ + calls.take(done + 1));
                }
            }
        }
        self.loaded_libraries.clear();
        proof {
            lemma_empty();
            assert(self.functions@ =~= Seq::<FunctionInstance>::empty());
            assert(calls.take(before.len() as int) =~= calls);
            assert(self.loaded_libraries@ =~= Seq::<libloading::Library>::empty());
        }
    }

    /// Whether a teardown has anything to do: a function to notify or a
    /// library to let go of.
    pub fn needs_unload(&self) -> (needed: bool)
        requires
            self.wf(),
        ensures
            needed == (self@.table.dom().len() > 0 || self@.libraries.len() > 0),
    {
        proof {
            lemma_table_len(self.functions@);
        }
        let has_plugins = self.functions.len() > 0;
        let has_libs = self.loaded_libraries.len() > 0;
        has_plugins || has_libs
    }

    /// Hands a request to the function it names and gives back the
    /// function's answer; a rejection becomes a `BadRequest` error, and a
    /// request that names no registered function a `TargetNotFound` error.
    pub fn push_request(&self, request: &ComputeRequest) -> (result: AppResult<ComputeResponse>)
        requires
            self.wf(),
        ensures
            self@.answers(request@, dispatch_view(result)),
    {
        let target = request.target();
        match self.find(target.name()) {
            Some(i) => {
                proof {
                    lemma_lookup(self.functions@, i as int);
                }
                let answer = self.functions[i].receive_request(request);
                proof {
                    assert(self@.table[request@.target].handles(request@, outcome_of(answer)));
                }
                normalize(answer)
            },
            None => Err(AppError::TargetNotFound(target.clone())),
        }
    }
}

impl ComputeFunctionManager {
    /// The answer to an input that asked for a load, once the load has
    /// ended: success, or the loading error as an error of the host.
    pub fn answer_add(loaded: Result<(), LoadingError>) -> (answer: AppResult<AppOutput>)
        ensures
            match loaded {
                Ok(()) => answer matches Ok(AppOutput::AddFunctionSuccess),
                Err(error) => answer is Err && answer->Err_0@ == AppErrorView::Loading(error@),
            },
    {
        match loaded {
            Ok(()) => Ok(AppOutput::AddFunctionSuccess),
            Err(error) => Err(AppError::Loading(error)),
        }
    }

    /// Unloads the function that an input names and answers the input:
    /// success, or the unloading error as an error of the host.
    pub fn answer_remove(&mut self, request: &RemoveFunctionRequest) -> (answer: AppResult<
        AppOutput,
    >)
        requires
            old(self).wf(),
        ensures
            final(self).wf(),
            final(self)@ == old(self)@.unload(request@).0,
            match old(self)@.unload(request@).1 {
                Ok(()) => answer matches Ok(AppOutput::RemoveFunctionSuccess),
                Err(error) => answer is Err && answer->Err_0@ == AppErrorView::Unloading(error),
            },
    {
        match self.unload_plugin(request.target()) {
            Ok(()) => Ok(AppOutput::RemoveFunctionSuccess),
            Err(error) => Err(AppError::Unloading(error)),
        }
    }

    /// Dispatches the request of an input and answers the input with the
    /// function's response, or with the error of the dispatch.
    pub fn answer_execute(&self, request: &ComputeRequest) -> (answer: AppResult<AppOutput>)
        requires
            self.wf(),
        ensures
            match answer {
                Ok(output) => output matches AppOutput::ComputeResponse(response)
                    && self@.answers(request@, Ok(response)),
                Err(error) => self@.answers(request@, Err(error@)),
            },
    {
        match self.push_request(request) {
            Ok(response) => Ok(AppOutput::compute_response(response)),
            Err(error) => Err(error),
        }
    }
}

/// A new, empty registry.
pub fn default_cfm() -> (manager: ComputeFunctionManager)
    ensures
        manager.wf(),
        manager@ == RegistryView::empty(),
{
    ComputeFunctionManager::new()
}

/// A registry that holds the built-in logger and nothing else.
pub fn logger_cfm() -> (manager: ComputeFunctionManager)
    ensures
        manager.wf(),
        exists|logger: FunctionInstance|
            #![auto]
            BuiltinFunction::Logger.makes(logger) && manager@ == RegistryView::empty().with_plugin(
                logger,
            ),
{
    ComputeFunctionManager::with_logger()
}

impl Default for ComputeFunctionManager {
    fn default() -> (manager: Self)
        ensures
            manager.wf(),
            manager@ == RegistryView::empty(),
    {
        Self::new()
    }
}

} // verus!
