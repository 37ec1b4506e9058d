//! What holds of the registry whatever it holds and whatever is asked of it.
use vstd::prelude::*;
use crate::error::app_error::AppErrorView;
use crate::error::loading::LoadingErrorView;
use crate::error::unloading::UnloadingErrorView;
use crate::func::FunctionInstance;
use crate::functions::logger::accepts;
use crate::functions::BuiltinFunction;
use crate::loader::{ConstructorOutcome, LoadEvent};
use crate::manager::{HookCall, RegistryView};
use crate::req::ComputeRequestView;
use crate::resp::ComputeResponse;
use crate::status::GenericStatusCode;

verus! {

/// Two functions of different names, registered one after the other, are
/// both reachable afterwards. Each that found its name free was taken in
/// and is the function now reached under that name.
pub proof fn lemma_two_loads_both_reachable(
    registry: RegistryView,
    a: FunctionInstance,
    b: FunctionInstance,
)
    requires
        a.spec_name() != b.spec_name(),
    ensures
        ({
            let first = registry.register(ConstructorOutcome::Instance(a));
            let second = first.0.register(ConstructorOutcome::Instance(b));
            &&& second.0.is_loaded(a.spec_name())
            &&& second.0.is_loaded(b.spec_name())
            &&& !registry.is_loaded(a.spec_name()) ==> first.1 is Ok && second.0.table[a.spec_name()]
                == a
            &&& !registry.is_loaded(b.spec_name()) ==> second.1 is Ok
                && second.0.table[b.spec_name()] == b
        }),
{
}

/// A function whose name is taken is turned away with
/// `FunctionNameCollision` of that name, and the registry stays as it was:
/// the function that has the name is still the one reached under it.
pub proof fn lemma_collision_keeps_the_first(registry: RegistryView, newcomer: FunctionInstance)
    requires
        registry.is_loaded(newcomer.spec_name()),
    ensures
        registry.register(ConstructorOutcome::Instance(newcomer)) == (
            registry,
            Err::<(), LoadingErrorView>(
                LoadingErrorView::FunctionNameCollision(newcomer.spec_name()),
            ),
        ),
{
}

/// A request that names no registered function has one possible result:
/// `TargetNotFound` of the name. No function's answer is a result of it.
pub proof fn lemma_unknown_target_not_found(
    registry: RegistryView,
    request: ComputeRequestView,
    result: Result<ComputeResponse, AppErrorView>,
)
    requires
        !registry.is_loaded(request.target),
    ensures
        registry.answers(request, result) <==> result == Err::<ComputeResponse, AppErrorView>(
            AppErrorView::TargetNotFound(request.target),
        ),
{
}

/// A request that names a registered function never results in
/// `TargetNotFound`.
pub proof fn lemma_known_target_is_reached(
    registry: RegistryView,
    request: ComputeRequestView,
    result: Result<ComputeResponse, AppErrorView>,
)
    requires
        registry.is_loaded(request.target),
        registry.answers(request, result),
    ensures
        !(result matches Err(AppErrorView::TargetNotFound(_))),
{
}

/// After an unload of a name, whether it succeeded or not, a request to
/// that name results in `TargetNotFound`.
pub proof fn lemma_unload_then_dispatch(
    registry: RegistryView,
    request: ComputeRequestView,
    result: Result<ComputeResponse, AppErrorView>,
)
    requires
        registry.unload(request.target).0.answers(request, result),
    ensures
        result == Err::<ComputeResponse, AppErrorView>(AppErrorView::TargetNotFound(request.target)),
{
}

/// An unload touches no other name: every other function stays registered
/// as it was, and no library is let go of.
pub proof fn lemma_unload_keeps_the_others(
    registry: RegistryView,
    target: Seq<char>,
    other: Seq<char>,
)
    requires
        other != target,
    ensures
        registry.unload(target).0.is_loaded(other) == registry.is_loaded(other),
        registry.is_loaded(other) ==> registry.unload(target).0.table[other] == registry.table[other],
        registry.unload(target).0.libraries == registry.libraries,
{
}

/// No step of a load lets go of a library: the libraries kept before the
/// step are kept after it, in their order, whatever the step comes to. A
/// library that was opened is kept even if its function is turned away.
pub proof fn lemma_load_keeps_libraries(registry: RegistryView, path: Seq<char>, event: LoadEvent)
    ensures
        registry.libraries.is_prefix_of(registry.load_step(path, event).0.libraries),
        event matches LoadEvent::LibraryOpened(Ok(library)) ==> registry.load_step(
            path,
            event,
        ).0.libraries == registry.libraries.push(library),
{
}

/// A load that succeeds notifies the function once, of its loading, and
/// the function was not reachable before and is reachable after. A load that
/// fails notifies nobody.
pub proof fn lemma_load_notifies_once(registry: RegistryView, outcome: ConstructorOutcome)
    ensures
        ({
            let (next, result) = registry.register(outcome);
            &&& result is Ok ==> (outcome matches ConstructorOutcome::Instance(function)
                && !registry.is_loaded(function.spec_name()) && next.is_loaded(function.spec_name())
                && next.hooks == registry.hooks.push(HookCall::Load(function.spec_name())))
            &&& result is Err ==> next == registry
        }),
{
}

/// An unload that succeeds notifies the function once, of its unloading,
/// and the function was registered before. An unload that fails notifies
/// nobody: a name that is not registered is never told that it is unloaded.
pub proof fn lemma_unload_notifies_once(registry: RegistryView, target: Seq<char>)
    ensures
        ({
            let (next, result) = registry.unload(target);
            &&& result is Ok <==> registry.is_loaded(target)
            &&& result is Ok ==> next.hooks == registry.hooks.push(HookCall::Unload(target))
            &&& result is Err ==> next == registry && result
                == Err::<(), UnloadingErrorView>(UnloadingErrorView::TargetNotFound(target))
        }),
{
}

/// A built-in load that takes a new function in notifies it once, of its
/// loading, marks its kind, and makes it reachable under a name that was
/// free. Any other built-in load changes nothing and notifies nobody.
pub proof fn lemma_builtin_load_notifies_once(
    registry: RegistryView,
    kind: BuiltinFunction,
    function: FunctionInstance,
)
    ensures
        ({
            let (next, result) = registry.load_builtin(kind, function);
            &&& result == Ok::<bool, LoadingErrorView>(true) ==> (!registry.builtins.contains(kind)
                && !registry.is_loaded(function.spec_name()) && next.is_loaded(function.spec_name())
                && next.table[function.spec_name()] == function && next.builtins.contains(kind)
                && next.hooks == registry.hooks.push(HookCall::Load(function.spec_name())))
            &&& result != Ok::<bool, LoadingErrorView>(true) ==> next == registry
        }),
{
}

/// A built-in function whose name is taken is turned away with
/// `FunctionNameCollision` of that name: the function that has the name
/// stays, nobody is notified, and the kind stays unmarked.
pub proof fn lemma_builtin_collision_keeps_the_holder(
    registry: RegistryView,
    kind: BuiltinFunction,
    function: FunctionInstance,
)
    requires
        !registry.builtins.contains(kind),
        registry.is_loaded(function.spec_name()),
    ensures
        registry.load_builtin(kind, function) == (
            registry,
            Err::<bool, LoadingErrorView>(
                LoadingErrorView::FunctionNameCollision(function.spec_name()),
            ),
        ),
{
}

/// Taking in a built-in kind a second time changes nothing and reports that
/// the kind was not new; the function of the first time is still the one
/// reached under the kind's name. This is stated of every registry in which
/// the kind is marked exactly if its name is taken.
pub proof fn lemma_builtin_twice(
    registry: RegistryView,
    kind: BuiltinFunction,
    first: FunctionInstance,
    second: FunctionInstance,
)
    requires
        kind.makes(first),
        registry.builtins.contains(kind) == registry.is_loaded(kind.spec_name()),
    ensures
        ({
            let once = registry.load_builtin(kind, first).0;
            let twice = once.load_builtin(kind, second);
            &&& twice.1 == Ok::<bool, LoadingErrorView>(false)
            &&& twice.0 == once
            &&& once.is_loaded(kind.spec_name())
            &&& !registry.builtins.contains(kind) ==> once.table[kind.spec_name()] == first
        }),
{
}

/// The built-in logger answers a payload that is a string or an object with
/// an empty success, and nothing else.
pub proof fn lemma_logger_answers(
    registry: RegistryView,
    logger: FunctionInstance,
    request: ComputeRequestView,
    result: Result<ComputeResponse, AppErrorView>,
)
    requires
        BuiltinFunction::Logger.makes(logger),
        request.target == "logger"@,
        accepts(request.data),
        registry.with_plugin(logger).answers(request, result),
    ensures
        result == Ok::<ComputeResponse, AppErrorView>(
            ComputeResponse::NoContent(GenericStatusCode::Success),
        ),
{
    let table = registry.with_plugin(logger).table;
    assert(table[request.target] == logger);
    let outcome = choose|outcome: crate::func::Outcome|
        #![auto]
        table[request.target].handles(request, outcome) && result == crate::manager::normalized(
            outcome,
        );
    assert(logger.handles(request, outcome));
}

} // verus!
