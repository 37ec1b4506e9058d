//! A registry of named compute functions that can grow while the process runs.
pub mod dynamic_libs;
pub mod error;
pub mod func;
pub mod functions;
pub mod hashing;
pub mod input;
pub mod json;
pub mod laws;
pub mod loader;
pub mod manager;
pub mod output;
pub mod req;
pub mod resp;
pub mod server;
pub mod status;
pub mod table;
pub mod targets;
pub mod text;

pub use error::{AppError, AppResult, BadInputError, BadRequestError, LoadingError, UnloadingError};
pub use func::{ComputeFunction, FunctionInstance};
pub use functions::{BuiltinFunction, BuiltinFunctionList, LogLevel, Logger};
pub use input::AppInput;
pub use manager::ComputeFunctionManager;
pub use output::AppOutput;
pub use req::{AddFunctionRequest, ComputeRequest, RemoveFunctionRequest};
pub use resp::{ComputeJsonResponse, ComputeResponse};
pub use status::GenericStatusCode;
pub use targets::TargetComputeFunc;
