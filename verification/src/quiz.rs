//! The quiz definition schema and its validity invariant.

use vstd::prelude::*;

verus! {

/// Schema for a quiz definition fetched from an external document.
pub struct Quiz {
    /// Question to be displayed to participants.
    pub question: String,
    /// Possible answers to select from.
    pub choices: Vec<String>,
    /// Index of the selection with the correct answer.
    pub answer: u8,
    /// How long to wait before expiring the poll (in seconds).
    pub timeout: u8,
}

impl Quiz {
    /// A definition is well formed when its choice list fits an 8-bit
    /// index (at most 256 entries) and its correct index points into it.
    pub open spec fn is_valid(&self) -> bool {
        self.choices@.len() <= 256 && (self.answer as int) < self.choices@.len()
    }

    /// Checks the definition's invariant: `choices` must fit an 8-bit
    /// index and `answer` must index it.
    pub fn validate(&self) -> (ok: bool)
        ensures
            ok == self.is_valid(),
    {
        self.choices.len() <= 256 && (self.answer as usize) < self.choices.len()
    }

    /// The text of the correct choice; `None` exactly when the definition
    /// is malformed.
    pub fn correct_text(&self) -> (r: Option<&String>)
        ensures
            match r {
                Some(t) => self.is_valid() && t@ == self.choices@[self.answer as int]@,
                None => !self.is_valid(),
            },
    {
        if self.choices.len() <= 256 && (self.answer as usize) < self.choices.len() {
            Some(&self.choices[self.answer as usize])
        } else {
            None
        }
    }
}

/// A stored quiz together with the identity of its creator.
pub struct Submission {
    /// Identifier of the participant that created this quiz; never zero.
    pub id: u64,
    /// The actual quiz information.
    pub quiz: Quiz,
}

impl Submission {
    /// A submission is well formed when its creator id is a real identity
    /// and its quiz definition is valid.
    pub open spec fn is_valid(&self) -> bool {
        self.id != 0 && self.quiz.is_valid()
    }
}

} // verus!
