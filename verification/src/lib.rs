//! The language-neutral side of Comline code generation: the registry that
//! maps a `(language, version)` pair to a code generator, the built-in
//! generator table, the schema IR the generators consume, and the
//! conformance corpus every generator is run against.

mod text;

pub mod code_gen;
pub mod codegen;
pub mod codegen_rust;
pub mod conformance;
pub mod ir;
