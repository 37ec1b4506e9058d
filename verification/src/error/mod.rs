//! The failures the registry and its functions report.
pub mod app_error;
pub mod bad_input;
pub mod bad_req;
pub mod loading;
pub mod unloading;

pub use app_error::{AppError, AppErrorView, AppResult};
pub use bad_input::{BadInputError, BadInputErrorView};
pub use bad_req::{BadRequestError, BadRequestErrorView};
pub use loading::{LoadingError, LoadingErrorView};
pub use unloading::{UnloadingError, UnloadingErrorView};
