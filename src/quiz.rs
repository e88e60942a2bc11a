use crate::types::{Formattable, Url};
use vstd::prelude::*;

verus! {

/// The quiz at the end of a recipe.
#[derive(Clone, Debug, PartialEq, Eq)]
pub struct Quiz {
    /// The questions, in order.
    pub questions: Vec<Question>,
    /// The reward for answering every question correctly.
    pub all_correct_reward: u16,
}

impl Quiz {
    /// A quiz with no questions.
    pub fn new(all_correct_reward: u16) -> (r: Quiz)
        ensures
            r.questions@ == Seq::<Question>::empty(),
            r.all_correct_reward == all_correct_reward,
    {
        Quiz { questions: Vec::new(), all_correct_reward }
    }

    /// The quiz with `question` appended.
    pub fn add_question(self, question: Question) -> (r: Quiz)
        ensures
            r.questions@ == self.questions@.push(question),
            r.all_correct_reward == self.all_correct_reward,
    {
        let mut questions = self.questions;
        questions.push(question);
        Quiz { questions, all_correct_reward: self.all_correct_reward }
    }
}

/// One question of a quiz.
#[derive(Clone, Debug, PartialEq, Eq)]
pub struct Question {
    pub question: Formattable,
    pub description: Option<Formattable>,
    pub image: Option<Url>,
    /// The correct answers; at most 400 characters each, by convention.
    pub correct_answers: Vec<Formattable>,
    /// The wrong answers; at most 400 characters each, by convention.
    pub wrong_answers: Vec<Formattable>,
    /// The reward for a correct answer.
    pub reward: u16,
}

} // verus!
