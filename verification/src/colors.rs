//! Border colors as the configuration writes them.

use vstd::prelude::*;

verus! {

/// A configured color, kept as its JSON text. Theme-aware colors stand apart because their meaning
/// changes with the system theme.
#[derive(Debug, PartialEq, Eq)]
pub enum ColorBrushConfig {
    Plain(String),
    ThemeAware(String),
}

impl Default for ColorBrushConfig {
    /// The accent color of the system.
    fn default() -> (color: Self)
        ensures
            color.is_default(),
    {
        ColorBrushConfig::Plain("\"accent\"".to_owned())
    }
}

impl ColorBrushConfig {
    pub open spec fn is_default(self) -> bool {
        self matches ColorBrushConfig::Plain(text) && text@ == "\"accent\""@
    }

    pub open spec fn text(self) -> String {
        match self {
            ColorBrushConfig::Plain(text) => text,
            ColorBrushConfig::ThemeAware(text) => text,
        }
    }

    /// The color as it is written down.
    pub fn to_text(&self) -> (text: String)
        ensures
            text == self.text(),
    {
        match self {
            ColorBrushConfig::Plain(text) => text.clone(),
            ColorBrushConfig::ThemeAware(text) => text.clone(),
        }
    }
}

impl Clone for ColorBrushConfig {
    fn clone(&self) -> (copy: Self)
        ensures
            copy == *self,
    {
        match self {
            ColorBrushConfig::Plain(text) => ColorBrushConfig::Plain(text.clone()),
            ColorBrushConfig::ThemeAware(text) => ColorBrushConfig::ThemeAware(text.clone()),
        }
    }
}

} // verus!
