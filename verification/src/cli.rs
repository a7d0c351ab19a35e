//! What the command line asks for, and what it means where it asks for
//! nothing.

use vstd::prelude::*;

verus! {

/// How a verb exercise is drawn.
#[derive(Clone, Copy, Debug, PartialEq, Eq, Structural)]
pub struct VerbExerciseOptions {
    /// Ask for irregular verbs (or, if false, for regular ones).
    pub irregular: bool,
    /// Prefer frequent words. Accepted; the draw does not use it yet.
    pub freq_bias: bool,
    /// How many verbs to ask for at most.
    pub word_amount: i32,
}

/// The kinds of exercise.
#[derive(Clone, Copy, Debug, PartialEq, Eq, Structural)]
pub enum ExerciseType {
    Verb { options: VerbExerciseOptions },
}

/// What the tool is asked to do.
#[derive(Clone, Debug, PartialEq, Eq)]
pub enum Operation {
    /// Run an exercise.
    Exercise(ExerciseType),
    /// Insert or replace records: from a JSON file, from inline text, or,
    /// with no payload, from prompts.
    Upsert { payload: Option<String> },
}

/// The parsed command line.
#[derive(Clone, Debug, PartialEq, Eq)]
pub struct Cli {
    pub operation: Option<Operation>,
    /// Accepted and reserved.
    pub verbose: bool,
    /// Accepted and reserved.
    pub debug: bool,
}

/// What a command line without a subcommand asks for: ten irregular verbs,
/// frequent ones preferred.
pub open spec fn default_operation() -> Operation {
    Operation::Exercise(
        ExerciseType::Verb {
            options: VerbExerciseOptions { irregular: true, freq_bias: true, word_amount: 10 },
        },
    )
}

impl Default for Operation {
    fn default() -> (operation: Self)
        ensures
            operation == default_operation(),
    {
        Operation::Exercise(
            ExerciseType::Verb {
                options: VerbExerciseOptions { irregular: true, freq_bias: true, word_amount: 10 },
            },
        )
    }
}

impl Cli {
    /// The operation to run: the one given, or the default where none was.
    pub fn into_operation(self) -> (operation: Operation)
        ensures
            operation == match self.operation {
                Some(given) => given,
                None => default_operation(),
            },
    {
        match self.operation {
            Some(given) => given,
            None => Operation::default(),
        }
    }
}

} // verus!
