pub mod keys;
pub mod text;
pub mod pattern;
pub mod path;
pub mod error;
pub mod selection;
pub mod substitute;
pub mod internal;
pub mod verb;
pub mod registry;
pub mod dispatch;
pub mod builtin;
pub mod laws;

pub use crate::builtin::builtin_verbs;
