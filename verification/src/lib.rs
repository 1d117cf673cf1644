//! Core of a mutation-testing engine: a catalog of mutation operators that
//! instrument expressions, a registry that assigns each mutation site a unique
//! identifier, and a runtime configuration that activates at most one mutation
//! per process execution.

pub mod coverage;
pub mod expr;
pub mod mutation;
pub mod mutator_binop_num;
pub mod mutator_unop_not;
pub mod optimistic_types;
pub mod runtime_config;
pub mod selftest_binop_num;
pub mod transform_context;
pub mod transform_info;

pub use runtime_config::MutagenRuntimeConfig;
