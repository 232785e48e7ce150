//! Capture of a native call stack as an ordered sequence of frames, and
//! resolution of a frame or a raw address to the symbol that owns it.
//!
//! The stack is handed in as the register contexts read from it, most recent
//! first, and the symbol table as a plain list of address ranges, so that the
//! walking and resolution rules are stated and proved independently of the
//! platform that produced them.

pub mod backtrace;
pub mod symbolize;
pub mod table;
pub mod types;

pub use crate::backtrace::trace;
pub use crate::backtrace::Frame;
pub use crate::backtrace::RegisterContext;
pub use crate::symbolize::adjust_ip;
pub use crate::symbolize::clear_symbol_cache;
pub use crate::symbolize::lookup;
pub use crate::symbolize::resolve;
pub use crate::symbolize::ResolveWhat;
pub use crate::symbolize::Symbol;
pub use crate::table::SymbolEntry;
pub use crate::table::SymbolTable;
pub use crate::types::BytesOrWideString;
pub use crate::types::PathConvention;
pub use crate::types::PathRepr;
