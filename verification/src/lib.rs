//! An interpreter core for a stack-based, class-file-oriented virtual machine.
//!
//! The crate decodes class files from bytes, keeps a registry of loaded
//! classes, models values, heap objects and frames, and executes bytecode one
//! instruction at a time.  Every function is verified against the contract
//! written in its header.
pub mod bytes;
pub mod class_reader;

pub mod arith;
pub mod error;
pub mod format;
pub mod laws;
pub mod reader;
pub mod text;
pub mod vm;
pub mod writer;
