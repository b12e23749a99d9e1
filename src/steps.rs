//! The tour as a sequence of panels with one of them on display.
use vstd::prelude::*;

use crate::step::Step;
use crate::step_message::StepMessage;

verus! {

/// The tour's panels in order, and the position of the one on display.
pub struct Steps {
    steps: Vec<Step>,
    current: usize,
}

impl Steps {
    /// The panels, in order.
    pub closed spec fn panels(&self) -> Seq<Step> {
        self.steps@
    }

    /// The position of the panel on display.
    pub closed spec fn position(&self) -> nat {
        self.current as nat
    }

    /// There is a panel on display.
    pub open spec fn wf(&self) -> bool {
        self.position() < self.panels().len()
    }

    /// The panel on display.
    pub open spec fn shown(&self) -> Step {
        self.panels()[self.position() as int]
    }

    pub open spec fn may_go_back(&self) -> bool {
        self.position() > 0
    }

    pub open spec fn may_advance(&self) -> bool {
        self.position() + 1 < self.panels().len() && self.shown().may_continue()
    }

    /// The tour from its first panel: an empty text input, the debugger, the end.
    pub fn new() -> (r: Steps)
        ensures
            r.wf(),
            r.position() == 0,
            r.panels().len() == 3,
            r.panels()[0] matches Step::TextInput { value, is_secure } && value@.len() == 0
                && !is_secure,
            r.panels()[1] == Step::Debugger,
            r.panels()[2] == Step::End,
    {
        let steps = vec![
            Step::TextInput { value: String::new(), is_secure: false },
            Step::Debugger,
            Step::End,
        ];
        Steps { steps, current: 0 }
    }
    /// Hands a widget message to the panel on display.
    pub fn update(&mut self, msg: StepMessage, debug: &mut bool)
        requires
            old(self).wf(),
        ensures
            final(self).wf(),
            final(self).position() == old(self).position(),
            final(self).panels() == old(self).panels().update(
                old(self).position() as int,
                old(self).shown().updated(msg),
            ),
            *final(debug) == *old(debug),
    {
        let mut step = self.steps.remove(self.current);
        step.update(msg, debug);
        self.steps.insert(self.current, step);
        assert(self.panels() =~= old(self).panels().update(
            old(self).position() as int,
            old(self).shown().updated(msg),
        ));
    }

    /// Moves to the next panel when the one on display allows it.
    pub fn advance(&mut self)
        requires
            old(self).wf(),
        ensures
            final(self).wf(),
            final(self).panels() == old(self).panels(),
            final(self).position() == if old(self).may_advance() {
                old(self).position() + 1
            } else {
                old(self).position()
            },
    {
        if self.can_continue() {
            assert(self.current < self.steps.len());
            self.current += 1;
        }
    }

    /// Moves to the previous panel, if there is one.
    pub fn go_back(&mut self)
        requires
            old(self).wf(),
        ensures
            final(self).wf(),
            final(self).panels() == old(self).panels(),
            final(self).position() == if old(self).may_go_back() {
                (old(self).position() - 1) as nat
            } else {
                old(self).position()
            },
    {
        if self.has_previous() {
            self.current -= 1;
        }
    }

    pub fn has_previous(&self) -> (r: bool)
        ensures
            r == self.may_go_back(),
    {
        self.current > 0
    }

    /// Whether a next panel exists and the one on display allows moving on.
    pub fn can_continue(&self) -> (r: bool)
        requires
            self.wf(),
        ensures
            r == self.may_advance(),
    {
        self.current < self.steps.len() - 1 && self.steps[self.current].can_continue()
    }

    /// The title of the panel on display.
    pub fn title(&self) -> (r: &str)
        requires
            self.wf(),
        ensures
            r@ == "FACK"@,
    {
        self.steps[self.current].title()
    }

    /// The panel on display.
    pub fn current_step(&self) -> (r: &Step)
        requires
            self.wf(),
        ensures
            *r == self.shown(),
    {
        &self.steps[self.current]
    }
}

} // verus!
