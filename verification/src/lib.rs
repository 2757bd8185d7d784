//! The call protocol of safe bindings to the Nix evaluator and store.
//!
//! The bindings own native objects: a context, a store, store paths, an
//! evaluator state and its builder, values. This crate holds what they
//! decide: which native call comes next, what a reply means, what is freed
//! and when. It makes no native call itself. Each operation is a small
//! machine (see `native`) that a driver runs against the native layer.
//!
//! What is proved of the operations:
//! - each does, reply by reply, what its `next` says (the contract of its
//!   `resume`);
//! - whatever the native layer replies, each makes only calls on live
//!   objects, frees nothing twice, and leaves no object behind but the one
//!   it hands to its caller (see `ledger`, and the laws beside each
//!   operation);
//! - what each makes stands under live objects, and a whole session can be
//!   torn down so that nothing is left (see `ownership` and `session`).
pub mod context;
pub mod error;
pub mod eval;
pub mod handle;
pub mod ledger;
pub mod lix;
pub mod native;
pub mod ownership;
pub mod render;
pub mod session;
pub mod store;
pub mod text;
pub mod value;

pub use context::Context;
pub use error::Error;
pub use eval::{EvalState, EvalStateBuilder};
pub use handle::Handle;
pub use native::{Call, Reply, Step};
pub use store::{Store, StorePath};
pub use value::{Value, ValueType};
