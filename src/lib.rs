pub mod args;
pub mod validate;

pub use args::{Args, IsDefault};
pub use validate::{validate_args, ConflictingMode};
