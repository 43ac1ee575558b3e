//! A small ahead-of-time compiler that lowers a minimal, statically typed,
//! C-like language into textual x86 assembly.
//!
//! The crate covers the lowering pipeline from an already-parsed abstract
//! syntax tree to an assembly-instruction stream: scoped symbol resolution,
//! stack-frame layout, expression and statement code generation, a fixed
//! two-register calling convention, and a small assembly intermediate
//! representation with deterministic text rendering.
//!
//! The parser that produces the [`ast::Program`] tree, and the driver that
//! prints the emitted text, are external collaborators and live outside this
//! crate.
//!
//! Two design decisions are fixed here and applied throughout. Slot width:
//! every storable type occupies a four-byte slot and its operands carry the
//! four-byte width qualifier; pointer values pass through the 64-bit
//! accumulator but are never stored in a slot. Call-site resolution: a call
//! is emitted by name and deferred entirely to link-time resolution — the
//! symbol table records signatures as bodies are processed, but call sites
//! do not consult it; [`output::undefined_called_names`] lists what the
//! driver must declare to the assembler.

use vstd::prelude::*;

pub mod assembly;
pub mod ast;
pub mod compiler;
pub mod decimal;
pub mod machine;
pub mod output;
pub mod platform;
pub mod symbol_table;
