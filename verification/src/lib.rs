//! A verified builder for TPDE modules: the intermediate representation
//! that the TPDE code generation backend hands to its native compiler.
pub mod ffi;
pub mod ir;
pub mod laws;
pub mod types;
pub mod symbols;
pub mod context;
pub mod builder;
pub mod common;
pub mod consts;
pub mod allocator;
pub mod backend;
pub mod dump;
pub mod semantics;
