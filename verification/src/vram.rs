//! Encoding on a graphics adapter: the configuration of an encoder, the
//! encoder itself, and the search for the configurations a machine supports.

use crate::common::{DataFormat, Driver};
use vstd::prelude::*;

pub mod encode;
pub mod inner;
pub mod nv;
pub mod probe;
pub mod search;
pub mod text;

verus! {

/// The most adapters one probe may report. The buffer handed to a backend's
/// test function has room for this many descriptors.
pub const MAX_ADAPTERS: usize = 16;

/// The adapter identity of a feature context that no probe has resolved yet.
pub const UNRESOLVED_LUID: i64 = 0;

/// One combination of backend, interface variant, format and adapter.
#[derive(Clone, Copy, Debug, PartialEq, Eq, Hash)]
pub struct FeatureContext {
    pub driver: Driver,
    pub api: i32,
    pub data_format: DataFormat,
    pub luid: i64,
}

/// The parameters of an encoder that are not tied to the hardware.
///
/// `device` is a native device handle that the caller owns and keeps alive;
/// `luid` is a hint only: the adapter an encoder is built on is the one of
/// its feature context.
#[derive(Clone, Copy, Debug, PartialEq, Eq, Hash)]
pub struct DynamicContext {
    pub device: Option<usize>,
    pub width: i32,
    pub height: i32,
    pub kbitrate: i32,
    pub framerate: i32,
    pub gop: i32,
    pub luid: Option<i64>,
}

/// Everything needed to build an encoder.
#[derive(Clone, Copy, Debug, PartialEq, Eq, Hash)]
pub struct EncodeContext {
    pub f: FeatureContext,
    pub d: DynamicContext,
}

impl FeatureContext {
    /// Whether a probe has tied this context to one adapter.
    pub open spec fn spec_is_resolved(&self) -> bool {
        self.luid != UNRESOLVED_LUID
    }

    /// Whether a probe has tied this context to one adapter.
    #[verifier::when_used_as_spec(spec_is_resolved)]
    pub fn is_resolved(&self) -> (r: bool)
        ensures
            r == self.spec_is_resolved(),
    {
        self.luid != UNRESOLVED_LUID
    }
}

impl DynamicContext {
    /// Whether both dimensions are even.
    pub open spec fn spec_has_even_size(&self) -> bool {
        self.width % 2 == 0 && self.height % 2 == 0
    }

    /// Whether both dimensions are even.
    #[verifier::when_used_as_spec(spec_has_even_size)]
    pub fn has_even_size(&self) -> (r: bool)
        ensures
            r == self.spec_has_even_size(),
    {
        self.width % 2 == 0 && self.height % 2 == 0
    }
}

} // verus!
