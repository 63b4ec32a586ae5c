//! A decoded WebAssembly module and the facts a host needs from it: its data
//! segments, how many globals it declares and imports, and the step that
//! exports every mutable global it declares.

pub mod blob;
pub mod codec;
pub mod exposure;
pub mod model;
pub mod naming;

pub use blob::RuntimeBlob;
pub use model::{Export, ExportTarget};
