//! A code-generation engine for algebraic data types.
//!
//! Given the description of an enumeration (its name, generic parameters,
//! where-clause and variants), the engine renders the text of derived
//! methods: `variant_name`, `variant_index_arity`, the `is_*` predicates and
//! the `as_*` accessors. Given one identifier, it renders a submodule that
//! defines a numeric handle type and a generator of fresh handles.
//!
//! Every rendering function states the text it returns, or the failure it
//! reports, as a specification over sequences of characters, and its code
//! is proved against that specification. What the emitted methods give for
//! an instance, and what the emitted handle type does, is stated and proved
//! over small models of a match and of the handle.

pub mod arms;
pub mod ast;
pub mod derive;
pub mod diagnostics;
pub mod generics;
pub mod handle;
pub mod index_type;
pub mod names;
pub mod patterns;
pub mod printer;
pub mod remove_drop_never;
pub mod text;
pub mod toolchain;
