//! A browser-style navigation history, and the step sequence of a small
//! guided tour, with their behaviour stated and proved.
pub mod history;
pub mod step;
pub mod step_message;
pub mod steps;
