//! Turns plain structure declarations into reactive stores: each field becomes
//! an observable cell, with accessors and constructors generated around it.
//!
//! Two tagging passes, [`resource`] and [`props`], mark fields by renaming them
//! with a reserved prefix; the consuming pass, [`store`], reads the marks and
//! generates the store.
pub mod model;
pub mod text;
pub mod args;
pub mod tagging;
pub mod store;
pub mod emit;
pub mod laws;

pub use args::{parse_args, wants_default};
pub use emit::declaration_text;
pub use model::{Declaration, Field, MacroError, Role};
pub use store::{classify, modx, plan, store, Cell, Expansion};
pub use tagging::{props, resource, PROPS_MARKER, RESOURCE_MARKER};
