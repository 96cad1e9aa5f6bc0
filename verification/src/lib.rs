//! A compile-and-evaluate boundary for small scripting expressions.
//!
//! A host process hands this library expression text and an optional JSON
//! context; the library compiles the text with the Rhai engine, evaluates it,
//! and hands back a tagged result envelope whose strings the host frees with
//! an allocator it registered itself.

use vstd::prelude::*;

mod allocator;
mod engine;
mod eval;

pub use allocator::Allocator;
pub use allocator::AllocatorPair;
pub use allocator::cstring_image;
pub use allocator::init_memory_allocation;
pub use allocator::lemma_first_registration_wins;
pub use engine::CompiledAst;
pub use eval::CONTEXT_VARIABLE;
pub use eval::FatalError;
pub use eval::ResultCString;
pub use eval::ResultCompiledAst;
pub use eval::compile_ast;
pub use eval::eval_ast;
pub use eval::free_ast;
pub use eval::perform_eval;

verus! {

} // verus!
