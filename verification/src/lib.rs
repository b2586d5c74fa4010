//! Static extraction of internationalization message keys.
//!
//! The library walks an already-parsed syntax tree of one module, discovers
//! which local bindings were imported from the `next-globe-gen` module under
//! one of the recognized translator-factory names, resolves the namespace
//! each translator variable was bound with, and collects one record for
//! every call of a tracked translator whose key argument is statically
//! known.  The walk is total: every tree shape that carries no extractable
//! information is passed over silently.

pub mod ast;
pub mod extractor;
pub mod laws;
pub mod maps;
pub mod model;
pub mod similar;

pub use extractor::ExtractedKey;
pub use extractor::KeyExtractorVisitor;
