//! Visual effects as the configuration writes them.

use vstd::prelude::*;

verus! {

/// Configured effects, kept as their JSON text.
#[derive(Debug, PartialEq, Eq)]
pub struct EffectsConfig {
    pub text: String,
}

impl Default for EffectsConfig {
    /// No effects.
    fn default() -> (effects: Self)
        ensures
            effects.text@ == "null"@,
    {
        EffectsConfig { text: "null".to_owned() }
    }
}

impl Clone for EffectsConfig {
    fn clone(&self) -> (copy: Self)
        ensures
            copy == *self,
    {
        EffectsConfig { text: self.text.clone() }
    }
}

} // verus!
