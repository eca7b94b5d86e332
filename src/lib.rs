//! Classification of failed build-backend output into an actionable error.
//!
//! The last lines of a backend's stderr are matched against known failure
//! signatures (a missing header, a missing shared library, a missing build
//! dependency); the most recent match becomes the cause chained to the error.

pub mod error;
pub mod laws;
pub mod signature;
pub mod text;

pub use error::{
    find_missing_library, BuildOutput, Error, MissingHeaderCause, PythonRunnerOutput, TAIL_WINDOW,
};
pub use signature::{
    MissingLibrary, LD_NOT_FOUND_RE, MISSING_HEADER_RE_CLANG, MISSING_HEADER_RE_GCC,
    MISSING_HEADER_RE_MSVC, TORCH_NOT_FOUND_RE, WHEEL_NOT_FOUND_RE,
};
