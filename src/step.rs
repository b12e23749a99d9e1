//! One panel of the tour and the state it keeps between renders.
use vstd::prelude::*;

use crate::step_message::StepMessage;

verus! {

/// A panel of the tour. Only the text-input panel holds state of its own:
/// the text typed so far and whether it is shown masked.
pub enum Step {
    TextInput { value: String, is_secure: bool },
    Debugger,
    End,
}

impl Step {
    /// The panel after it has handled `msg`. The text-input panel takes new
    /// text and the masking switch; every other message, and every message
    /// to another panel, changes nothing.
    pub open spec fn updated(self, msg: StepMessage) -> Step {
        match (self, msg) {
            (Step::TextInput { is_secure, .. }, StepMessage::InputChanged(v)) => Step::TextInput {
                value: v,
                is_secure,
            },
            (Step::TextInput { value, .. }, StepMessage::ToggleSecureInput(t)) => Step::TextInput {
                value,
                is_secure: t,
            },
            _ => self,
        }
    }

    /// Whether the tour may move on from this panel: from the text-input
    /// panel once something has been typed, always from the debugger panel,
    /// never from the last one.
    pub open spec fn may_continue(self) -> bool {
        match self {
            Step::TextInput { value, .. } => value@.len() > 0,
            Step::Debugger => true,
            Step::End => false,
        }
    }

    /// Handles a widget message. `debug` is handed through for panels that
    /// switch the layout debugger; none of the present ones does.
    pub fn update(&mut self, msg: StepMessage, debug: &mut bool)
        ensures
            *final(self) == old(self).updated(msg),
            *final(debug) == *old(debug),
    {
        match msg {
            StepMessage::InputChanged(new_value) => {
                if let Step::TextInput { value, .. } = self {
                    *value = new_value;
                }
            },
            StepMessage::ToggleSecureInput(toggle) => {
                if let Step::TextInput { is_secure, .. } = self {
                    *is_secure = toggle;
                }
            },
            _ => {},
        }
    }

    /// The title of this panel, the same for every panel.
    pub fn title(&self) -> (r: &str)
        ensures
            r@ == "FACK"@,
    {
        "FACK"
    }

    pub fn can_continue(&self) -> (r: bool)
        ensures
            r == self.may_continue(),
    {
        match self {
            Step::TextInput { value, .. } => !value.as_str().is_empty(),
            Step::Debugger => true,
            Step::End => false,
        }
    }
}

} // verus!
