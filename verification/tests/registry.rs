use local_compute::functions::logger::LogSink;
use local_compute::manager::{default_cfm, logger_cfm};
use local_compute::{
    AppError, AppOutput, BadRequestError, BuiltinFunction, BuiltinFunctionList, ComputeFunction,
    ComputeFunctionManager, ComputeRequest, ComputeResponse, FunctionInstance, GenericStatusCode,
    LoadingError, LogLevel, RemoveFunctionRequest, TargetComputeFunc, UnloadingError,
};
use local_compute::loader::ConstructorOutcome;
use std::sync::atomic::{AtomicUsize, Ordering};
use std::sync::{Arc, Mutex, RwLock};

#[derive(Default)]
struct Counts {
    loads: AtomicUsize,
    unloads: AtomicUsize,
    requests: AtomicUsize,
}

impl Counts {
    fn seen(&self) -> (usize, usize, usize) {
        (
            self.loads.load(Ordering::SeqCst),
            self.unloads.load(Ordering::SeqCst),
            self.requests.load(Ordering::SeqCst),
        )
    }
}

/// Answers every request with a fixed number and counts what it is told.
struct Constant {
    name: &'static str,
    answer: i64,
    counts: Arc<Counts>,
}

impl ComputeFunction for Constant {
    fn name(&self) -> &'static str {
        self.name
    }

    fn on_plugin_load(&self) {
        self.counts.loads.fetch_add(1, Ordering::SeqCst);
    }

    fn on_plugin_unload(&self) {
        self.counts.unloads.fetch_add(1, Ordering::SeqCst);
    }

    fn receive_request(&self, request: &ComputeRequest) -> Result<ComputeResponse, BadRequestError> {
        self.counts.requests.fetch_add(1, Ordering::SeqCst);
        if request.data().is_null() {
            return Err(BadRequestError::new(self.name, "nothing to answer", Some(request.clone())));
        }
        Ok(ComputeResponse::json_ok(serde_json::Value::from(self.answer)))
    }
}

struct Memory {
    lines: Arc<Mutex<Vec<(LogLevel, String)>>>,
}

impl LogSink for Memory {
    fn send_log(&self, level: LogLevel, log: &str) {
        self.lines.lock().unwrap().push((level, log.to_string()));
    }
}

fn plugin(name: &'static str, answer: i64) -> (FunctionInstance, Arc<Counts>) {
    let counts = Arc::new(Counts::default());
    let function = Constant { name, answer, counts: counts.clone() };
    (FunctionInstance::new(Box::new(function)), counts)
}

fn register(manager: &mut ComputeFunctionManager, instance: FunctionInstance) -> Result<(), String> {
    manager
        .register_plugin(ConstructorOutcome::Instance(instance))
        .map_err(|error| error.to_text())
}

fn request(target: &str, data: serde_json::Value) -> ComputeRequest {
    ComputeRequest::new(TargetComputeFunc::new(target.to_string()), data)
}

fn ask(manager: &ComputeFunctionManager, target: &str) -> Result<Option<serde_json::Value>, String> {
    manager
        .push_request(&request(target, serde_json::Value::from(1)))
        .map(|response| response.data())
        .map_err(|error| error.to_text())
}

fn target(name: &str) -> TargetComputeFunc {
    TargetComputeFunc::new(name.to_string())
}

#[test]
fn a_new_registry_holds_nothing() {
    for manager in [ComputeFunctionManager::new(), default_cfm(), ComputeFunctionManager::default()] {
        assert_eq!(manager.function_count(), 0);
        assert_eq!(manager.library_count(), 0);
        assert!(!manager.has_builtin(BuiltinFunction::Logger));
        assert!(!manager.is_loaded("logger"));
        assert!(!manager.needs_unload());
        assert!(manager.last_library().is_none());
    }
}

#[test]
fn two_loads_leave_both_reachable() {
    let mut manager = ComputeFunctionManager::new();
    let (a, _) = plugin("a", 1);
    let (b, _) = plugin("b", 2);
    assert_eq!(register(&mut manager, a), Ok(()));
    assert_eq!(register(&mut manager, b), Ok(()));
    assert_eq!(manager.function_count(), 2);
    assert_eq!(ask(&manager, "a"), Ok(Some(serde_json::Value::from(1))));
    assert_eq!(ask(&manager, "b"), Ok(Some(serde_json::Value::from(2))));
}

#[test]
fn a_second_function_of_a_name_is_turned_away() {
    let mut manager = ComputeFunctionManager::new();
    let (first, first_counts) = plugin("adder", 1);
    let (second, second_counts) = plugin("adder", 2);
    assert_eq!(register(&mut manager, first), Ok(()));
    let error = manager.register_plugin(ConstructorOutcome::Instance(second)).unwrap_err();
    assert!(matches!(&error, LoadingError::FunctionNameCollision(name) if name == "adder"));
    assert_eq!(error.to_text(), "ComputeFunction name collision: adder");
    assert_eq!(manager.function_count(), 1);
    assert_eq!(ask(&manager, "adder"), Ok(Some(serde_json::Value::from(1))));
    assert_eq!(first_counts.seen(), (1, 0, 1));
    assert_eq!(second_counts.seen(), (0, 0, 0));
}

#[test]
fn an_unknown_target_is_not_found_and_nobody_is_asked() {
    let mut manager = ComputeFunctionManager::new();
    let (a, counts) = plugin("a", 1);
    register(&mut manager, a).unwrap();
    let error = manager.push_request(&request("b", serde_json::Value::from(1))).unwrap_err();
    assert!(matches!(&error, AppError::TargetNotFound(name) if name.name() == "b"));
    assert_eq!(error.as_generic_status_code(), GenericStatusCode::NotFound);
    assert_eq!(counts.seen(), (1, 0, 0));
    let empty = ComputeFunctionManager::new();
    assert!(matches!(
        empty.push_request(&request("", serde_json::Value::Null)),
        Err(AppError::TargetNotFound(_))
    ));
}

#[test]
fn names_are_compared_exactly() {
    let mut manager = ComputeFunctionManager::new();
    let (a, _) = plugin("adder", 1);
    register(&mut manager, a).unwrap();
    assert!(manager.is_loaded("adder"));
    assert!(!manager.is_loaded("Adder"));
    assert!(!manager.is_loaded("adder "));
    assert!(!manager.is_loaded("add"));
    assert!(matches!(
        manager.push_request(&request("adder/x", serde_json::Value::from(1))),
        Err(AppError::TargetNotFound(_))
    ));
}

#[test]
fn a_rejection_becomes_a_bad_request() {
    let mut manager = ComputeFunctionManager::new();
    let (a, _) = plugin("a", 1);
    register(&mut manager, a).unwrap();
    let error = manager.push_request(&request("a", serde_json::Value::Null)).unwrap_err();
    match &error {
        AppError::BadRequest(rejection) => {
            assert_eq!(rejection.sender(), "a");
            assert_eq!(rejection.message(), "nothing to answer");
            assert_eq!(rejection.request().unwrap().target().name(), "a");
        }
        other => panic!("{}", other.to_text()),
    }
    assert_eq!(error.as_generic_status_code(), GenericStatusCode::BadRequest);
}

#[test]
fn unload_then_dispatch_is_not_found() {
    let mut manager = ComputeFunctionManager::new();
    let (a, _) = plugin("a", 1);
    let (b, _) = plugin("b", 2);
    register(&mut manager, a).unwrap();
    register(&mut manager, b).unwrap();
    assert!(manager.unload_plugin(&target("a")).is_ok());
    assert!(matches!(
        manager.push_request(&request("a", serde_json::Value::from(1))),
        Err(AppError::TargetNotFound(_))
    ));
    assert_eq!(ask(&manager, "b"), Ok(Some(serde_json::Value::from(2))));
    assert_eq!(manager.function_count(), 1);
}

#[test]
fn unloading_an_unknown_target_fails() {
    let mut manager = ComputeFunctionManager::new();
    let (a, counts) = plugin("a", 1);
    register(&mut manager, a).unwrap();
    let error = manager.unload_plugin(&target("b")).unwrap_err();
    assert!(matches!(&error, UnloadingError::TargetNotFound(name) if name.name() == "b"));
    assert_eq!(error.to_text(), "Target 'b' not found in loaded functions");
    assert_eq!(manager.function_count(), 1);
    assert_eq!(counts.seen(), (1, 0, 0));
    assert!(matches!(
        manager.push_request(&request("b", serde_json::Value::from(1))),
        Err(AppError::TargetNotFound(_))
    ));
}

#[test]
fn a_function_is_told_once_of_its_load_and_once_of_its_unload() {
    let mut manager = ComputeFunctionManager::new();
    let (a, counts) = plugin("a", 1);
    assert_eq!(counts.seen(), (0, 0, 0));
    register(&mut manager, a).unwrap();
    assert_eq!(counts.seen(), (1, 0, 0));
    ask(&manager, "a").unwrap();
    ask(&manager, "a").unwrap();
    assert_eq!(counts.seen(), (1, 0, 2));
    manager.unload_plugin(&target("a")).unwrap();
    assert_eq!(counts.seen(), (1, 1, 2));
    assert!(manager.unload_plugin(&target("a")).is_err());
    manager.unload_all();
    assert_eq!(counts.seen(), (1, 1, 2));
}

#[test]
fn a_name_can_be_loaded_again_after_its_unload() {
    let mut manager = ComputeFunctionManager::new();
    let (first, first_counts) = plugin("a", 1);
    let (second, second_counts) = plugin("a", 2);
    register(&mut manager, first).unwrap();
    manager.unload_plugin(&target("a")).unwrap();
    assert_eq!(register(&mut manager, second), Ok(()));
    assert_eq!(ask(&manager, "a"), Ok(Some(serde_json::Value::from(2))));
    assert_eq!(first_counts.seen(), (1, 1, 0));
    assert_eq!(second_counts.seen(), (1, 0, 1));
}

#[test]
fn unload_all_tells_every_function_once() {
    let mut manager = ComputeFunctionManager::new();
    let mut all = Vec::new();
    for (name, answer) in [("a", 1), ("b", 2), ("c", 3)] {
        let (instance, counts) = plugin(name, answer);
        register(&mut manager, instance).unwrap();
        all.push(counts);
    }
    manager.load_builtin_function(BuiltinFunction::Logger).unwrap();
    assert!(manager.needs_unload());
    manager.unload_all();
    for counts in &all {
        assert_eq!(counts.seen(), (1, 1, 0));
    }
    assert_eq!(manager.function_count(), 0);
    assert_eq!(manager.library_count(), 0);
    assert!(!manager.needs_unload());
    assert!(manager.has_builtin(BuiltinFunction::Logger));
    manager.unload_all();
    for counts in &all {
        assert_eq!(counts.seen(), (1, 1, 0));
    }
}

#[test]
fn a_built_in_kind_is_taken_in_once() {
    let mut manager = ComputeFunctionManager::new();
    assert!(matches!(manager.load_builtin_function(BuiltinFunction::Logger), Ok(true)));
    assert!(manager.has_builtin(BuiltinFunction::Logger));
    assert!(manager.is_loaded("logger"));
    assert_eq!(manager.function_count(), 1);
    assert!(matches!(manager.load_builtin_function(BuiltinFunction::Logger), Ok(false)));
    assert!(manager.is_loaded("logger"));
    assert_eq!(manager.function_count(), 1);
    assert_eq!(manager.library_count(), 0);
}

#[test]
fn a_built_in_kind_stays_marked_after_its_unload() {
    let mut manager = ComputeFunctionManager::new();
    manager.load_builtin_function(BuiltinFunction::Logger).unwrap();
    manager.unload_plugin(&target("logger")).unwrap();
    assert!(matches!(manager.load_builtin_function(BuiltinFunction::Logger), Ok(false)));
    assert!(!manager.is_loaded("logger"));
}

#[test]
fn the_logger_answers_a_warning_with_an_empty_success() {
    let mut manager = ComputeFunctionManager::new();
    manager.load_builtin_function(BuiltinFunction::Logger).unwrap();
    let mut data = serde_json::Map::new();
    data.insert("level".to_string(), serde_json::Value::from("warn"));
    data.insert("message".to_string(), serde_json::Value::from("disk low"));
    let response = manager.push_request(&request("logger", serde_json::Value::Object(data))).unwrap();
    assert!(matches!(response, ComputeResponse::NoContent(GenericStatusCode::Success)));
    assert_eq!(response.status().to_u16(), 200);
    assert_eq!(response.data(), None);
}

#[test]
fn the_logged_warning_can_be_seen() {
    let lines = Arc::new(Mutex::new(Vec::new()));
    let mut manager = ComputeFunctionManager::new();
    let sink = Box::new(Memory { lines: lines.clone() });
    assert!(matches!(
        manager.load_builtin_function_with_sink(BuiltinFunction::Logger, sink),
        Ok(true)
    ));
    assert!(manager.has_builtin(BuiltinFunction::Logger));
    let mut data = serde_json::Map::new();
    data.insert("level".to_string(), serde_json::Value::from("warn"));
    data.insert("message".to_string(), serde_json::Value::from("disk low"));
    let response = manager.push_request(&request("logger", serde_json::Value::Object(data))).unwrap();
    assert!(matches!(response, ComputeResponse::NoContent(GenericStatusCode::Success)));
    let seen = lines.lock().unwrap();
    assert_eq!(seen.len(), 1);
    assert_eq!(seen[0].0, LogLevel::Warn);
    assert!(seen[0].1.contains("warn"));
    assert!(seen[0].1.contains("disk low"));
}

#[test]
fn a_logger_with_a_sink_is_taken_in_once() {
    let lines = Arc::new(Mutex::new(Vec::new()));
    let mut manager = ComputeFunctionManager::new();
    manager.load_builtin_function(BuiltinFunction::Logger).unwrap();
    let sink = Box::new(Memory { lines: lines.clone() });
    assert!(matches!(
        manager.load_builtin_function_with_sink(BuiltinFunction::Logger, sink),
        Ok(false)
    ));
    manager.push_request(&request("logger", serde_json::Value::from("quiet"))).unwrap();
    assert!(lines.lock().unwrap().is_empty());
    assert_eq!(manager.function_count(), 1);
}

#[test]
fn the_logger_rejects_a_number() {
    let manager = logger_cfm();
    let error = manager.push_request(&request("logger", serde_json::Value::from(7))).unwrap_err();
    match error {
        AppError::BadRequest(rejection) => {
            assert_eq!(rejection.sender(), "logger");
            assert_eq!(rejection.message(), "Data must be an object or string");
            assert_eq!(rejection.request().unwrap().data(), &serde_json::Value::from(7));
        }
        other => panic!("{}", other.to_text()),
    }
}

#[test]
fn with_logger_holds_the_logger_but_does_not_mark_it() {
    let manager = ComputeFunctionManager::with_logger();
    assert!(manager.is_loaded("logger"));
    assert_eq!(manager.function_count(), 1);
    assert!(!manager.has_builtin(BuiltinFunction::Logger));
}

#[test]
fn a_built_in_whose_name_is_taken_is_turned_away() {
    let mut manager = ComputeFunctionManager::new();
    let (holder, counts) = plugin("logger", 7);
    register(&mut manager, holder).unwrap();
    let error = manager.load_builtin_function(BuiltinFunction::Logger).unwrap_err();
    assert!(matches!(&error, LoadingError::FunctionNameCollision(name) if name == "logger"));
    assert!(!manager.has_builtin(BuiltinFunction::Logger));
    assert_eq!(manager.function_count(), 1);
    assert_eq!(ask(&manager, "logger"), Ok(Some(serde_json::Value::from(7))));
    assert_eq!(counts.seen(), (1, 0, 1));

    let mut manager = ComputeFunctionManager::with_logger();
    assert!(matches!(
        manager.load_builtin_function(BuiltinFunction::Logger),
        Err(LoadingError::FunctionNameCollision(_))
    ));
    assert_eq!(manager.function_count(), 1);

    manager.unload_plugin(&target("logger")).unwrap();
    assert!(matches!(manager.load_builtin_function(BuiltinFunction::Logger), Ok(true)));
    assert!(manager.has_builtin(BuiltinFunction::Logger));
    assert!(manager.is_loaded("logger"));
}

#[test]
fn with_builtins_holds_a_function_of_each_kind() {
    let empty = ComputeFunctionManager::with_builtins(&BuiltinFunctionList::new());
    assert_eq!(empty.function_count(), 0);
    let list = BuiltinFunctionList::from_kinds(&[BuiltinFunction::Logger]);
    let manager = ComputeFunctionManager::with_builtins(&list);
    assert_eq!(manager.function_count(), 1);
    assert!(manager.is_loaded("logger"));
    assert!(!manager.has_builtin(BuiltinFunction::Logger));
    assert_eq!(manager.library_count(), 0);
}

#[test]
fn a_built_in_instance_is_registered_as_a_plugin_is() {
    let mut manager = ComputeFunctionManager::new();
    let (first, first_counts) = plugin("a", 1);
    let (second, second_counts) = plugin("a", 2);
    assert!(manager.load_builtin_instance(first).is_ok());
    assert_eq!(first_counts.seen(), (1, 0, 0));
    let error = manager.load_builtin_instance(second).unwrap_err();
    assert!(matches!(&error, LoadingError::FunctionNameCollision(name) if name == "a"));
    assert_eq!(manager.function_count(), 1);
    assert_eq!(ask(&manager, "a"), Ok(Some(serde_json::Value::from(1))));
    assert_eq!(first_counts.seen(), (1, 0, 1));
    assert_eq!(second_counts.seen(), (0, 0, 0));
    manager.unload_all();
    assert_eq!(first_counts.seen(), (1, 1, 1));
}

#[test]
fn init_takes_in_what_the_creator_gives() {
    let mut manager = ComputeFunctionManager::new();
    assert!(manager.init_builtin_instance(|| None).is_ok());
    assert_eq!(manager.function_count(), 0);
    assert!(manager.init_builtin_instance(|| Some(BuiltinFunction::Logger.create())).is_ok());
    assert!(manager.is_loaded("logger"));
    assert!(!manager.has_builtin(BuiltinFunction::Logger));
    let (namesake, counts) = plugin("logger", 1);
    assert!(matches!(
        manager.init_builtin_instance(move || Some(namesake)),
        Err(LoadingError::FunctionNameCollision(_))
    ));
    assert_eq!(counts.seen(), (0, 0, 0));
    assert_eq!(manager.function_count(), 1);
}

#[test]
fn two_readers_dispatch_side_by_side() {
    let mut manager = ComputeFunctionManager::new();
    let (a, _) = plugin("a", 1);
    let (b, _) = plugin("b", 2);
    register(&mut manager, a).unwrap();
    register(&mut manager, b).unwrap();
    let shared = RwLock::new(manager);
    let first = shared.read().unwrap();
    let second = shared.read().unwrap();
    assert_eq!(ask(&first, "a"), Ok(Some(serde_json::Value::from(1))));
    assert_eq!(ask(&second, "b"), Ok(Some(serde_json::Value::from(2))));
    assert_eq!(ask(&first, "b"), Ok(Some(serde_json::Value::from(2))));
}

#[test]
fn inputs_are_answered_with_outputs() {
    let mut manager = ComputeFunctionManager::new();
    let (a, _) = plugin("a", 1);
    register(&mut manager, a).unwrap();

    assert!(matches!(ComputeFunctionManager::answer_add(Ok(())), Ok(AppOutput::AddFunctionSuccess)));
    assert!(matches!(
        ComputeFunctionManager::answer_add(Err(LoadingError::ctor_call_failure())),
        Err(AppError::Loading(LoadingError::ConstructorCallFailure))
    ));

    let answer = manager.answer_execute(&request("a", serde_json::Value::from(1))).unwrap();
    assert_eq!(answer.data(), Some(serde_json::Value::from(1)));
    assert_eq!(answer.status(), hyper::StatusCode::OK);
    assert!(matches!(
        manager.answer_execute(&request("b", serde_json::Value::from(1))),
        Err(AppError::TargetNotFound(_))
    ));

    let remove = RemoveFunctionRequest::new(target("a"));
    assert!(matches!(manager.answer_remove(&remove), Ok(AppOutput::RemoveFunctionSuccess)));
    assert!(matches!(
        manager.answer_remove(&remove),
        Err(AppError::Unloading(UnloadingError::TargetNotFound(_)))
    ));
    assert_eq!(manager.function_count(), 0);
}
