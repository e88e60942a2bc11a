use crate::panes::{Info, Warning};
use crate::types::{Formattable, Url};
use vstd::prelude::*;

verus! {

/// The method of a recipe: its steps, in order.
#[derive(Clone, Debug, PartialEq, Eq, Default)]
pub struct Method {
    pub steps: Vec<Step>,
}

impl Method {
    /// A method with no steps.
    pub fn new() -> (r: Method)
        ensures
            r.steps@ == Seq::<Step>::empty(),
    {
        Method { steps: Vec::new() }
    }

    /// The method with `step` appended.
    pub fn add_step(self, step: Step) -> (r: Method)
        ensures
            r.steps@ == self.steps@.push(step),
    {
        let mut steps = self.steps;
        steps.push(step);
        Method { steps }
    }
}

/// One step of a method: a title and its sub-steps, in order.
#[derive(Clone, Debug, PartialEq, Eq)]
pub struct Step {
    pub title: String,
    pub substeps: Vec<SubStep>,
}

impl Step {
    /// A step with a title and no sub-steps.
    pub fn new(title: String) -> (r: Step)
        ensures
            r.title == title,
            r.substeps@ == Seq::<SubStep>::empty(),
    {
        Step { title, substeps: Vec::new() }
    }

    /// A step with a title and sub-steps.
    pub fn new_with_substeps(title: String, substeps: Vec<SubStep>) -> (r: Step)
        ensures
            r.title == title,
            r.substeps == substeps,
    {
        Step { title, substeps }
    }

    /// The step with `substep` appended.
    pub fn add_substep(self, substep: SubStep) -> (r: Step)
        ensures
            r.title == self.title,
            r.substeps@ == self.substeps@.push(substep),
    {
        let mut substeps = self.substeps;
        substeps.push(substep);
        Step { title: self.title, substeps }
    }
}

/// A paragraph of a step, with an optional image and any warnings and
/// information that go with it.
#[derive(Clone, Debug, PartialEq, Eq)]
pub struct SubStep {
    pub content: Formattable,
    pub image: Option<Url>,
    pub warnings: Vec<Warning>,
    pub infos: Vec<Info>,
}

} // verus!
