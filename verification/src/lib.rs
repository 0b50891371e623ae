//! A bridge for delegating long-running work to out-of-process workers
//! over newline-delimited JSON, with deadline supervision and bounded
//! cleanup.
//!
//! One call feeds a worker a single framed request ([`request`]), reads
//! its output line by line, classifies each line as a progress update, a
//! terminal response or noise ([`json`], [`wire`]), forwards progress to
//! a UI sink without blocking, and guarantees that exactly one outcome
//! comes back and that the worker is never left running ([`bridge`]).
//! Those guarantees are stated and proved over whole runs in [`laws`].
//! One-shot script calls and the reading of their answers live in
//! [`script`]; the inference-server address and model bookkeeping in
//! [`ollama`]; the application settings and their update rule in
//! [`settings`].

pub mod bridge;
pub mod bytes;
pub mod json;
pub mod laws;
pub mod ollama;
pub mod request;
pub mod script;
pub mod settings;
pub mod wire;
