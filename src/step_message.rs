//! The messages that the tour's panels react to.
use vstd::prelude::*;

verus! {

/// A change reported by one of the tour's widgets.
#[derive(Debug, Clone)]
pub enum StepMessage {
    SliderChanged(u8),
    SpacingChanged(u16),
    TextSizeChanged(u16),
    ImageWidthChanged(u16),
    InputChanged(String),
    ToggleSecureInput(bool),
    DebugToggled(bool),
}

} // verus!
