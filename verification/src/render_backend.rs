//! The ways of putting a border on the screen.

use vstd::prelude::*;

verus! {

/// Which renderer the configuration asks for.
#[derive(Debug, Clone, Copy, PartialEq, Eq, Structural)]
pub enum RenderBackendConfig {
    V2,
    Legacy,
}

impl Default for RenderBackendConfig {
    fn default() -> (backend: Self)
        ensures
            backend == RenderBackendConfig::V2,
    {
        RenderBackendConfig::V2
    }
}

/// Which renderer a border holds at the moment.
#[derive(Debug, Clone, Copy, PartialEq, Eq, Structural)]
pub enum RenderBackend {
    Absent,
    V2,
    Legacy,
}

impl RenderBackend {
    /// Only the V2 renderer can draw effects.
    pub fn supports_effects(self) -> (supported: bool)
        ensures
            supported == (self == RenderBackend::V2),
    {
        matches!(self, RenderBackend::V2)
    }
}

} // verus!
