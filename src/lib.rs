//! Engine-independent core of an embedded web view: the lifecycle of the
//! native engine, the scripts injected into every document, the message
//! bridge between page scripts and the host, and the custom-protocol
//! rewriting that lets the host serve non-standard URL schemes.
pub mod bridge;
pub mod engine;
pub mod protocol;
pub mod scripts;
pub mod setup;
pub mod text;
