//! Hardware video encoding: which configurations a machine supports, and
//! the life of one encoder.
//!
//! The native backends are reached only by the application. This library
//! decides: it says which native call is to be made next and with which
//! arguments, and what follows from the value that the call gave back.
//!
//! - [`common`]: the backends, the formats, and how a backend describes an
//!   adapter.
//! - [`vram`]: the configuration of an encoder.
//! - [`vram::inner`]: the native functions of a backend, by name.
//! - [`vram::nv`]: the first hardware backend.
//! - [`vram::probe`]: one batch of probes and what its reports say.
//! - [`vram::search`]: the rounds of probing that find what works.
//! - [`vram::encode`]: the encoder.
//! - [`vram::text`]: numbers as text.

pub mod common;
pub mod vram;
