//! A compiler for lavish service definitions: schema and rules parsing,
//! semantic checks, name resolution and Rust code generation helpers.
pub mod ast;
pub mod grammar;
pub mod parser;
pub mod checker;
pub mod output;
pub mod anchored;
pub mod common;
pub mod lang;
pub mod naming;
pub mod types;
pub mod codegen;
pub mod outline;
pub mod rpc;
pub mod diag;
pub mod ir;
pub mod client;
pub mod module;
pub mod member;
pub mod merged;
pub mod symbols;
pub mod protocol;
