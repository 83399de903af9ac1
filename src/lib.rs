//! Trainer for Ohm's law, the power equation and their combination.
//!
//! The library builds practice exercises with random values, solves them
//! with a derivation in three lines, and grades submitted answers.
//!
//! Every quantity handed to the library is a fixed-point number: an `i32`
//! that counts thousandths of the unit (`12000` is 12 V when it is a
//! voltage). Answers are kept exact, as a quotient or the square root of a
//! quotient, so that solving and grading involve no rounding.

use vstd::prelude::*;

pub mod answer;
pub mod builder;
pub mod equations;
pub mod text;

use crate::equations::{EquationExerciseSolution, EquationVariable};

verus! {

/// Errors that the trainer returns.
#[derive(Debug, Clone)]
pub enum TrainerError {
    /// A range was configured with its minimum above its maximum.
    MinLargerThanMax,
    /// A variable that the formula needs is not among the given ones.
    MissingVariable(EquationVariable),
    /// The recomputed solution differs from the answer that the exercise
    /// carries.
    EquationResolveError(EquationExerciseSolution),
}

} // verus!
