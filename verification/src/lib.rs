//! Binary-format ingestion for a speech-model pipeline.
//!
//! Two independent subsystems share this crate: a WAV decoder that
//! normalizes PCM and float encodings into mono 32-bit-float samples
//! (held here as IEEE-754 bit patterns), and a tensor-archive reader
//! that indexes a memory-mapped safetensors file without copying the
//! tensor payloads.

pub mod audio;
pub mod error;
pub mod hf;
pub mod import;
pub mod tensors;
pub mod wav;
