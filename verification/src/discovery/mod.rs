//! Discovery of repositories on disk and their registration.
pub mod paths;
pub mod scanner;
pub mod sync;
