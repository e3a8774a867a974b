//! In-process backtrace capture, verified.
//!
//! The library reconstructs a call stack by following the chain of saved
//! frame pointers, discovers the running image's load address by scanning
//! page heads for the executable format's magic signature, resolves each
//! captured instruction pointer to a function name through a symbol table,
//! and renders the result as text.
//!
//! Raw registers and raw process memory cannot be read from verified code,
//! so the walking and scanning logic here operates on explicit snapshots of
//! memory ([`memory::StackMemory`], [`memory::ImageMemory`]); an embedding
//! program performs the actual reads and either mirrors the verified loops
//! step by step or hands a snapshot in.

pub mod frame;
pub mod locate;
pub mod memory;
pub mod render;
pub mod resolve;
pub mod trace;
pub mod walker;
