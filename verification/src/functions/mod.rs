//! The functions compiled into the host.
use vstd::prelude::*;
use vstd::string::StringExecFns;
use crate::func::ComputeFunction;
use crate::func::{FunctionInstance, Outcome};
use crate::req::ComputeRequestView;

pub mod logger;

pub use logger::{LogLevel, LogRecord, LogSink, Logger};

verus! {

/// The kinds of function compiled into the host.
#[derive(Debug, Copy, Clone, PartialEq, Eq, Hash, Structural)]
pub enum BuiltinFunction {
    Logger,
}

impl BuiltinFunction {
    /// The name under which a function of this kind is registered.
    pub open spec fn spec_name(self) -> Seq<char> {
        match self {
            Self::Logger => "logger"@,
        }
    }

    /// The answer that a function of this kind gives to a request.
    pub open spec fn answer(self, request: ComputeRequestView) -> Outcome {
        match self {
            Self::Logger => logger::answer_of(request),
        }
    }

    /// Whether `function` is a function of this kind: it has the kind's name
    /// and gives the kind's answers.
    pub open spec fn makes(self, function: FunctionInstance) -> bool {
        &&& function.spec_name() == self.spec_name()
        &&& forall|request: ComputeRequestView, outcome: Outcome| #[trigger]
            function.handles(request, outcome) <==> outcome == self.answer(request)
    }

    /// Two kinds of one name are one kind.
    pub proof fn lemma_names_differ(a: BuiltinFunction, b: BuiltinFunction)
        ensures
            a.spec_name() == b.spec_name() ==> a == b,
    {
    }

    /// A new function of this kind that hands what it writes to `sink`.
    pub fn create_with_sink(self, sink: Box<dyn LogSink>) -> (function: FunctionInstance)
        ensures
            self.makes(function),
    {
        match self {
            Self::Logger => {
                let logger = Logger::with_sink(sink);
                let name = String::from_str(logger.name());
                FunctionInstance { name, function: Box::new(logger) }
            },
        }
    }

    /// A new function of this kind. What it writes goes to nobody.
    pub fn create(self) -> (function: FunctionInstance)
        ensures
            self.makes(function),
    {
        match self {
            Self::Logger => {
                let logger = Logger::default();
                let name = String::from_str(logger.name());
                FunctionInstance { name, function: Box::new(logger) }
            },
        }
    }
}

/// A set of built-in kinds.
#[derive(Debug)]
pub struct BuiltinFunctionList {
    kinds: Vec<BuiltinFunction>,
}

impl View for BuiltinFunctionList {
    type V = Set<BuiltinFunction>;

    closed spec fn view(&self) -> Set<BuiltinFunction> {
        self.kinds@.to_set()
    }
}

impl BuiltinFunctionList {
    /// The invariant of the set: it lists no kind twice.
    pub closed spec fn wf(&self) -> bool {
        self.kinds@.no_duplicates()
    }

    /// The kinds of the set in the order in which they were added.
    pub closed spec fn order(&self) -> Seq<BuiltinFunction> {
        self.kinds@
    }

    /// The order of a set lists exactly its kinds, and none of them twice.
    pub proof fn lemma_order(&self)
        requires
            self.wf(),
        ensures
            self.order().no_duplicates(),
            self.order().to_set() == self@,
            self.order().len() == self@.len(),
            self@.finite(),
    {
        self.kinds@.unique_seq_to_set();
        vstd::seq_lib::seq_to_set_is_finite(self.kinds@);
    }

    /// The empty set.
    pub fn new() -> (list: Self)
        ensures
            list.wf(),
            list@ == Set::<BuiltinFunction>::empty(),
            list.order() == Seq::<BuiltinFunction>::empty(),
    {
        let list = Self { kinds: Vec::new() };
        assert(list.kinds@.to_set() =~= Set::<BuiltinFunction>::empty());
        list
    }

    /// Adds a kind. Says whether the kind was new to the set.
    pub fn add(&mut self, function: BuiltinFunction) -> (added: bool)
        requires
            old(self).wf(),
        ensures
            final(self).wf(),
            added == !old(self)@.contains(function),
            final(self)@ == old(self)@.insert(function),
            final(self).order() == if added {
                old(self).order().push(function)
            } else {
                old(self).order()
            },
    {
        if self.contains(function) {
            assert(self@.insert(function) =~= self@);
            false
        } else {
            proof {
                self.kinds@.lemma_push_to_set_commute(function);
                assert(!self.kinds@.contains(function));
            }
            self.kinds.push(function);
            true
        }
    }

    /// Adds several kinds. Says how many of them were new to the set.
    pub fn add_multiple(&mut self, functions: &[BuiltinFunction]) -> (success: usize)
        requires
            old(self).wf(),
        ensures
            final(self).wf(),
            final(self)@ == old(self)@.union(functions@.to_set()),
            success == final(self)@.len() - old(self)@.len(),
    {
        let mut success: usize = 0;
        let mut i: usize = 0;
        proof {
            self.lemma_order();
            assert(functions@.take(0).to_set() =~= Set::<BuiltinFunction>::empty());
            assert(self@.union(Set::<BuiltinFunction>::empty()) =~= self@);
        }
        while i < functions.len()
            invariant
                i <= functions.len(),
                success <= i,
                self.wf(),
                self@ == old(self)@.union(functions@.take(i as int).to_set()),
                self.order().len() == old(self).order().len() + success,
            decreases functions.len() - i,
        {
            let function = functions[i];
            proof {
                let seen = functions@.take(i as int);
                assert(functions@.take(i + 1) =~= seen.push(function));
                seen.lemma_push_to_set_commute(function);
                assert(old(self)@.union(seen.to_set()).insert(function) =~= old(self)@.union(
                    seen.push(function).to_set(),
                ));
            }
            if self.add(function) {
                success += 1;
            }
            i += 1;
        }
        proof {
            assert(functions@.take(functions.len() as int) =~= functions@);
            self.lemma_order();
        }
        success
    }

    /// Whether the set holds a kind.
    pub fn contains(&self, function: BuiltinFunction) -> (found: bool)
        ensures
            found == self@.contains(function),
    {
        let mut i: usize = 0;
        while i < self.kinds.len()
            invariant
                i <= self.kinds.len(),
                forall|j: int| 0 <= j < i ==> self.kinds@[j] != function,
            decreases self.kinds.len() - i,
        {
            if self.kinds[i] == function {
                assert(self.kinds@.contains(function));
                return true;
            }
            i += 1;
        }
        assert(!self.kinds@.contains(function));
        false
    }

    /// A new function of each kind in the set, in the set's order.
    pub fn create_all(&self) -> (functions: Vec<FunctionInstance>)
        ensures
            functions@.len() == self.order().len(),
            forall|i: int|
                0 <= i < functions@.len() ==> (#[trigger] self.order()[i]).makes(functions@[i]),
    {
        let mut functions: Vec<FunctionInstance> = Vec::new();
        let mut i: usize = 0;
        while i < self.kinds.len()
            invariant
                i <= self.kinds.len(),
                functions@.len() == i,
                forall|j: int| 0 <= j < i ==> (#[trigger] self.kinds@[j]).makes(functions@[j]),
            decreases self.kinds.len() - i,
        {
            functions.push(self.kinds[i].create());
            i += 1;
        }
        functions
    }

    /// The set of the given kinds.
    pub fn from_kinds(kinds: &[BuiltinFunction]) -> (list: Self)
        ensures
            list.wf(),
            list@ == kinds@.to_set(),
    {
        let mut list = Self::new();
        list.add_multiple(kinds);
        assert(Set::<BuiltinFunction>::empty().union(kinds@.to_set()) =~= kinds@.to_set());
        list
    }
}

impl Default for BuiltinFunctionList {
    fn default() -> (list: Self)
        ensures
            list.wf(),
            list@ == Set::<BuiltinFunction>::empty(),
    {
        Self::new()
    }
}

impl Clone for BuiltinFunctionList {
    fn clone(&self) -> (copy: Self)
        ensures
            copy@ == self@,
            copy.order() == self.order(),
            self.wf() ==> copy.wf(),
    {
        let mut kinds: Vec<BuiltinFunction> = Vec::new();
        let mut i: usize = 0;
        while i < self.kinds.len()
            invariant
                i <= self.kinds.len(),
                kinds@ == self.kinds@.take(i as int),
            decreases self.kinds.len() - i,
        {
            kinds.push(self.kinds[i]);
            proof {
                assert(self.kinds@.take(i + 1) =~= self.kinds@.take(i as int).push(
                    self.kinds@[i as int],
                ));
            }
            i += 1;
        }
        proof {
            assert(self.kinds@.take(self.kinds.len() as int) =~= self.kinds@);
        }
        Self { kinds }
    }
}

} // verus!
