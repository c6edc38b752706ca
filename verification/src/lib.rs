//! Verified transport of generated tokens across a flat C-style inference
//! ABI: an engine handle with a checked lifecycle, a callback registry that
//! maps a boundary-stable identity to an active token consumer, the dispatch
//! step behind the one trampoline handed to the native side, and the
//! streaming generation protocol with early cancellation.

pub mod errors;
pub mod handle;
pub mod options;
pub mod registry;
pub mod session;
pub mod sink;

pub use errors::CreationError;
pub use errors::EncodingError;
pub use handle::LlamaCppSimple;
pub use options::LlamaOptions;
pub use options::contains_nul_byte;
pub use registry::CallbackRegistry;
pub use session::deliver_tokens;
pub use session::generate;
pub use sink::TokenRecorder;
pub use sink::TokenSink;
