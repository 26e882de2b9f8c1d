//! Construction of Windows import libraries: COFF short-import members, the
//! descriptor/null-thunk/null-descriptor bookkeeping members, the archive
//! builder around them, and the symbol extractor that feeds the archive's
//! global symbol index.

pub mod bytes;
pub mod types;
pub mod short_import;
pub mod coff_obj;
pub mod descriptors;
pub mod extract;
pub mod builder;
pub mod target;
