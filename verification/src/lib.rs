//! Waveform editing: a sample buffer model, the formula language that rewrites
//! selected samples, and the pieces of the editor's interaction logic that
//! work on plain values.
pub mod ast;
pub mod resolve;
pub mod page;
pub mod sources;
pub mod effects;
pub mod drawer;
pub mod formula;
pub mod spectrum;
pub mod wav_writer;
pub mod session;
