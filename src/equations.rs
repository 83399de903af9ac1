//! Exercises on Ohm's law, the power equation and their combination, and
//! how they are solved and graded.

use vstd::prelude::*;

use crate::answer::EquationAnswer;
use crate::text::{milli_text, push_milli};
use crate::TrainerError;

pub use crate::builder::EquationExerciseBuilder;

verus! {

/// Which family of formulas an exercise is about.
#[derive(Clone, Copy, Debug, Default, PartialEq, Eq, Structural)]
pub enum EquationExerciseType {
    /// Ohm's law, `U = R * I`.
    #[default]
    OhmsLaw,
    /// The power equation, `P = U * I`.
    Power,
    /// Ohm's law substituted into the power equation.
    Combined,
}

/// A physical quantity of a circuit.
#[derive(Clone, Copy, Debug, Default, PartialEq, Eq, Structural)]
pub enum EquationVariable {
    /// Voltage `U`, in volts.
    Voltage,
    /// Current `I`, in amperes.
    Current,
    /// Resistance `R`, in ohms.
    #[default]
    Resistance,
    /// Power `P`, in watts.
    Power,
}

/// The unit of a solved answer.
#[derive(Clone, Copy, Debug, PartialEq, Eq, Structural)]
pub enum EquationUnit {
    /// Volts.
    Volt,
    /// Amperes.
    Ampere,
    /// Ohms.
    Ohm,
    /// Watts.
    Watt,
}

/// Precision, in thousandths, that `check_answer` uses when none is given.
pub const DEFAULT_PRECISION: i32 = 100;

impl EquationVariable {
    /// The unit in which the quantity is measured.
    pub open spec fn spec_unit(self) -> EquationUnit {
        match self {
            EquationVariable::Voltage => EquationUnit::Volt,
            EquationVariable::Current => EquationUnit::Ampere,
            EquationVariable::Resistance => EquationUnit::Ohm,
            EquationVariable::Power => EquationUnit::Watt,
        }
    }

    /// The unit in which the quantity is measured.
    pub fn unit(self) -> (r: EquationUnit)
        ensures
            r == self.spec_unit(),
    {
        match self {
            EquationVariable::Voltage => EquationUnit::Volt,
            EquationVariable::Current => EquationUnit::Ampere,
            EquationVariable::Resistance => EquationUnit::Ohm,
            EquationVariable::Power => EquationUnit::Watt,
        }
    }

    /// How a line that states the quantity begins.
    pub open spec fn spec_line_start(self) -> Seq<char> {
        match self {
            EquationVariable::Voltage => "U = "@,
            EquationVariable::Current => "I = "@,
            EquationVariable::Resistance => "R = "@,
            EquationVariable::Power => "P = "@,
        }
    }

    fn line_start(self) -> (r: &'static str)
        ensures
            r@ == self.spec_line_start(),
    {
        match self {
            EquationVariable::Voltage => "U = ",
            EquationVariable::Current => "I = ",
            EquationVariable::Resistance => "R = ",
            EquationVariable::Power => "P = ",
        }
    }
}

/// One of the closed-form formulas, named by its family and the quantity it
/// solves for.
#[derive(Clone, Copy, Debug, PartialEq, Eq, Structural)]
pub enum Formula {
    /// `U = R * I`.
    OhmsLawVoltage,
    /// `I = U / R`.
    OhmsLawCurrent,
    /// `R = U / I`.
    OhmsLawResistance,
    /// `P = U * I`.
    PowerPower,
    /// `U = P / I`.
    PowerVoltage,
    /// `I = P / U`.
    PowerCurrent,
    /// `P = U^2 / R`.
    CombinedPower,
    /// `I = √(P / R)`.
    CombinedCurrent,
    /// `U = √(P * R)`.
    CombinedVoltage,
    /// `R = U^2 / P`.
    CombinedResistance,
}

/// The formula that solves for `missing` in the family `t`, if there is one.
pub open spec fn formula_for(t: EquationExerciseType, missing: EquationVariable) -> Option<Formula> {
    match (t, missing) {
        (EquationExerciseType::OhmsLaw, EquationVariable::Voltage) => Some(Formula::OhmsLawVoltage),
        (EquationExerciseType::OhmsLaw, EquationVariable::Current) => Some(Formula::OhmsLawCurrent),
        (EquationExerciseType::OhmsLaw, EquationVariable::Resistance) => Some(
            Formula::OhmsLawResistance,
        ),
        (EquationExerciseType::Power, EquationVariable::Power) => Some(Formula::PowerPower),
        (EquationExerciseType::Power, EquationVariable::Voltage) => Some(Formula::PowerVoltage),
        (EquationExerciseType::Power, EquationVariable::Current) => Some(Formula::PowerCurrent),
        (EquationExerciseType::Combined, EquationVariable::Power) => Some(Formula::CombinedPower),
        (EquationExerciseType::Combined, EquationVariable::Current) => Some(
            Formula::CombinedCurrent,
        ),
        (EquationExerciseType::Combined, EquationVariable::Voltage) => Some(
            Formula::CombinedVoltage,
        ),
        (EquationExerciseType::Combined, EquationVariable::Resistance) => Some(
            Formula::CombinedResistance,
        ),
        _ => None,
    }
}

impl EquationExerciseType {
    /// Whether the family has a formula that solves for `missing`.
    pub fn solves_for(self, missing: EquationVariable) -> (r: bool)
        ensures
            r == formula_for(self, missing) is Some,
    {
        Formula::select(self, missing).is_some()
    }
}

impl Formula {
    /// The formula that solves for `missing` in the family `t`, if there is
    /// one.
    pub fn select(t: EquationExerciseType, missing: EquationVariable) -> (r: Option<Formula>)
        ensures
            r == formula_for(t, missing),
    {
        match (t, missing) {
            (EquationExerciseType::OhmsLaw, EquationVariable::Voltage) => Some(
                Formula::OhmsLawVoltage,
            ),
            (EquationExerciseType::OhmsLaw, EquationVariable::Current) => Some(
                Formula::OhmsLawCurrent,
            ),
            (EquationExerciseType::OhmsLaw, EquationVariable::Resistance) => Some(
                Formula::OhmsLawResistance,
            ),
            (EquationExerciseType::Power, EquationVariable::Power) => Some(Formula::PowerPower),
            (EquationExerciseType::Power, EquationVariable::Voltage) => Some(
                Formula::PowerVoltage,
            ),
            (EquationExerciseType::Power, EquationVariable::Current) => Some(
                Formula::PowerCurrent,
            ),
            (EquationExerciseType::Combined, EquationVariable::Power) => Some(
                Formula::CombinedPower,
            ),
            (EquationExerciseType::Combined, EquationVariable::Current) => Some(
                Formula::CombinedCurrent,
            ),
            (EquationExerciseType::Combined, EquationVariable::Voltage) => Some(
                Formula::CombinedVoltage,
            ),
            (EquationExerciseType::Combined, EquationVariable::Resistance) => Some(
                Formula::CombinedResistance,
            ),
            _ => None,
        }
    }

    /// The quantity that the formula solves for.
    pub open spec fn spec_solved(self) -> EquationVariable {
        match self {
            Formula::OhmsLawVoltage | Formula::PowerVoltage | Formula::CombinedVoltage => {
                EquationVariable::Voltage
            },
            Formula::OhmsLawCurrent | Formula::PowerCurrent | Formula::CombinedCurrent => {
                EquationVariable::Current
            },
            Formula::OhmsLawResistance | Formula::CombinedResistance => {
                EquationVariable::Resistance
            },
            Formula::PowerPower | Formula::CombinedPower => EquationVariable::Power,
        }
    }

    /// The quantity that the formula solves for.
    pub fn solved(self) -> (r: EquationVariable)
        ensures
            r == self.spec_solved(),
    {
        match self {
            Formula::OhmsLawVoltage | Formula::PowerVoltage | Formula::CombinedVoltage => {
                EquationVariable::Voltage
            },
            Formula::OhmsLawCurrent | Formula::PowerCurrent | Formula::CombinedCurrent => {
                EquationVariable::Current
            },
            Formula::OhmsLawResistance | Formula::CombinedResistance => {
                EquationVariable::Resistance
            },
            Formula::PowerPower | Formula::CombinedPower => EquationVariable::Power,
        }
    }

    /// The two known quantities, in the order in which they are looked up,
    /// listed and substituted.
    pub open spec fn spec_inputs(self) -> (EquationVariable, EquationVariable) {
        match self {
            Formula::OhmsLawVoltage => (EquationVariable::Resistance, EquationVariable::Current),
            Formula::OhmsLawCurrent => (EquationVariable::Voltage, EquationVariable::Resistance),
            Formula::OhmsLawResistance => (EquationVariable::Voltage, EquationVariable::Current),
            Formula::PowerPower => (EquationVariable::Voltage, EquationVariable::Current),
            Formula::PowerVoltage => (EquationVariable::Power, EquationVariable::Current),
            Formula::PowerCurrent => (EquationVariable::Power, EquationVariable::Voltage),
            Formula::CombinedPower => (EquationVariable::Voltage, EquationVariable::Resistance),
            Formula::CombinedCurrent => (EquationVariable::Power, EquationVariable::Resistance),
            Formula::CombinedVoltage => (EquationVariable::Power, EquationVariable::Resistance),
            Formula::CombinedResistance => (EquationVariable::Power, EquationVariable::Voltage),
        }
    }

    /// The two known quantities, in the order in which they are looked up,
    /// listed and substituted.
    pub fn inputs(self) -> (r: (EquationVariable, EquationVariable))
        ensures
            r == self.spec_inputs(),
    {
        match self {
            Formula::OhmsLawVoltage => (EquationVariable::Resistance, EquationVariable::Current),
            Formula::OhmsLawCurrent => (EquationVariable::Voltage, EquationVariable::Resistance),
            Formula::OhmsLawResistance => (EquationVariable::Voltage, EquationVariable::Current),
            Formula::PowerPower => (EquationVariable::Voltage, EquationVariable::Current),
            Formula::PowerVoltage => (EquationVariable::Power, EquationVariable::Current),
            Formula::PowerCurrent => (EquationVariable::Power, EquationVariable::Voltage),
            Formula::CombinedPower => (EquationVariable::Voltage, EquationVariable::Resistance),
            Formula::CombinedCurrent => (EquationVariable::Power, EquationVariable::Resistance),
            Formula::CombinedVoltage => (EquationVariable::Power, EquationVariable::Resistance),
            Formula::CombinedResistance => (EquationVariable::Power, EquationVariable::Voltage),
        }
    }

    /// The exact answer for the known values `a` and `b` (of the first and
    /// the second input, in thousandths of their units).
    ///
    /// The inputs count thousandths, so in whole units a product of the two
    /// is `a * b / 1000000`, a quotient `a / b`, and a square over the other
    /// input `a * a / (1000 * b)`.
    pub open spec fn spec_evaluate(self, a: i32, b: i32) -> EquationAnswer {
        let (x, y) = (a as i64, b as i64);
        match self {
            Formula::OhmsLawVoltage => EquationAnswer::Quotient { num: (x * y) as i64, den: 1000000 },
            Formula::OhmsLawCurrent => EquationAnswer::Quotient { num: x, den: y },
            Formula::OhmsLawResistance => EquationAnswer::Quotient { num: x, den: y },
            Formula::PowerPower => EquationAnswer::Quotient { num: (x * y) as i64, den: 1000000 },
            Formula::PowerVoltage => EquationAnswer::Quotient { num: x, den: y },
            Formula::PowerCurrent => EquationAnswer::Quotient { num: x, den: y },
            Formula::CombinedPower => EquationAnswer::Quotient { num: (x * x) as i64, den: (1000 * y) as i64 },
            Formula::CombinedCurrent => EquationAnswer::Root { num: x, den: y },
            Formula::CombinedVoltage => EquationAnswer::Root { num: (x * y) as i64, den: 1000000 },
            Formula::CombinedResistance => EquationAnswer::Quotient { num: (y * y) as i64, den: (1000 * x) as i64 },
        }
    }

    /// The exact answer for the known values `a` and `b` (of the first and
    /// the second input).
    pub fn evaluate(self, a: i32, b: i32) -> (r: EquationAnswer)
        ensures
            r == self.spec_evaluate(a, b),
    {
        let (x, y) = (a as i64, b as i64);
        assert(-0x4000_0000_0000_0000 <= x * y <= 0x4000_0000_0000_0000) by (nonlinear_arith)
            requires
                -0x8000_0000 <= x <= 0x8000_0000,
                -0x8000_0000 <= y <= 0x8000_0000,
        ;
        assert(0 <= x * x <= 0x4000_0000_0000_0000 && 0 <= y * y <= 0x4000_0000_0000_0000)
            by (nonlinear_arith)
            requires
                -0x8000_0000 <= x <= 0x8000_0000,
                -0x8000_0000 <= y <= 0x8000_0000,
        ;
        match self {
            Formula::OhmsLawVoltage => EquationAnswer::Quotient { num: x * y, den: 1000000 },
            Formula::OhmsLawCurrent => EquationAnswer::Quotient { num: x, den: y },
            Formula::OhmsLawResistance => EquationAnswer::Quotient { num: x, den: y },
            Formula::PowerPower => EquationAnswer::Quotient { num: x * y, den: 1000000 },
            Formula::PowerVoltage => EquationAnswer::Quotient { num: x, den: y },
            Formula::PowerCurrent => EquationAnswer::Quotient { num: x, den: y },
            Formula::CombinedPower => EquationAnswer::Quotient { num: x * x, den: 1000 * y },
            Formula::CombinedCurrent => EquationAnswer::Root { num: x, den: y },
            Formula::CombinedVoltage => EquationAnswer::Root { num: x * y, den: 1000000 },
            Formula::CombinedResistance => EquationAnswer::Quotient { num: y * y, den: 1000 * x },
        }
    }

    /// The formula as it is written.
    pub open spec fn spec_statement(self) -> Seq<char> {
        match self {
            Formula::OhmsLawVoltage => "U = R * I"@,
            Formula::OhmsLawCurrent => "I = U / R"@,
            Formula::OhmsLawResistance => "R = U / I"@,
            Formula::PowerPower => "P = U * I"@,
            Formula::PowerVoltage => "U = P / I"@,
            Formula::PowerCurrent => "I = P / U"@,
            Formula::CombinedPower => "P = U^2 / R"@,
            Formula::CombinedCurrent => "I = √(P / R)"@,
            Formula::CombinedVoltage => "U = √(P * R)"@,
            Formula::CombinedResistance => "R = U^2 / P"@,
        }
    }

    fn statement(self) -> (r: &'static str)
        ensures
            r@ == self.spec_statement(),
    {
        match self {
            Formula::OhmsLawVoltage => "U = R * I",
            Formula::OhmsLawCurrent => "I = U / R",
            Formula::OhmsLawResistance => "R = U / I",
            Formula::PowerPower => "P = U * I",
            Formula::PowerVoltage => "U = P / I",
            Formula::PowerCurrent => "I = P / U",
            Formula::CombinedPower => "P = U^2 / R",
            Formula::CombinedCurrent => "I = √(P / R)",
            Formula::CombinedVoltage => "U = √(P * R)",
            Formula::CombinedResistance => "R = U^2 / P",
        }
    }

    /// The text around the two values in the substituted formula: before
    /// the first, between them, and after the second.
    pub open spec fn spec_frame(self) -> (Seq<char>, Seq<char>, Seq<char>) {
        match self {
            Formula::OhmsLawVoltage => ("U = "@, "Ω * "@, "A"@),
            Formula::OhmsLawCurrent => ("I = "@, "V / "@, "Ω"@),
            Formula::OhmsLawResistance => ("R = "@, "V / "@, "A"@),
            Formula::PowerPower => ("P = "@, "V * "@, "A"@),
            Formula::PowerVoltage => ("U = "@, "W / "@, "A"@),
            Formula::PowerCurrent => ("I = "@, "W / "@, "V"@),
            Formula::CombinedPower => ("P = "@, "V^2 / "@, "Ω"@),
            Formula::CombinedCurrent => ("I = √("@, "W / "@, "Ω)"@),
            Formula::CombinedVoltage => ("U = √("@, "W * "@, "Ω)"@),
            Formula::CombinedResistance => ("R = "@, "V^2 / "@, "W"@),
        }
    }

    fn frame(self) -> (r: (&'static str, &'static str, &'static str))
        ensures
            (r.0@, r.1@, r.2@) == self.spec_frame(),
    {
        match self {
            Formula::OhmsLawVoltage => ("U = ", "Ω * ", "A"),
            Formula::OhmsLawCurrent => ("I = ", "V / ", "Ω"),
            Formula::OhmsLawResistance => ("R = ", "V / ", "A"),
            Formula::PowerPower => ("P = ", "V * ", "A"),
            Formula::PowerVoltage => ("U = ", "W / ", "A"),
            Formula::PowerCurrent => ("I = ", "W / ", "V"),
            Formula::CombinedPower => ("P = ", "V^2 / ", "Ω"),
            Formula::CombinedCurrent => ("I = √(", "W / ", "Ω)"),
            Formula::CombinedVoltage => ("U = √(", "W * ", "Ω)"),
            Formula::CombinedResistance => ("R = ", "V^2 / ", "W"),
        }
    }

    /// The three lines of the derivation: the formula, the formula with the
    /// values in it, and the answer.
    pub open spec fn derivation(self, a: i32, b: i32) -> Seq<Seq<char>> {
        let (head, middle, tail) = self.spec_frame();
        seq![
            self.spec_statement(),
            head + milli_text(a as int) + middle + milli_text(b as int) + tail,
            self.spec_solved().spec_line_start() + self.spec_evaluate(a, b).text(),
        ]
    }
}


/// The solution of an exercise and the work that leads to it.
#[derive(Clone, Debug, PartialEq)]
pub struct EquationExerciseSolution {
    /// The formula, the formula with the known values in it, and the answer.
    pub steps: Vec<String>,
    /// The exact answer.
    pub answer: EquationAnswer,
    /// The unit of the answer.
    pub unit: EquationUnit,
}

/// An exercise: the quantity to find and the two that are known.
#[derive(Clone, Debug, Default, PartialEq)]
pub struct EquationExercise {
    /// The family of formulas.
    pub exercise_type: EquationExerciseType,
    /// The quantity to solve for.
    pub missing_variable: EquationVariable,
    /// The known quantities with their values, in thousandths of their units.
    pub given_variables: Vec<(EquationVariable, i32)>,
    /// The answer that the exercise was made with; never shown to the one
    /// who solves it.
    pub correct_answer: Option<EquationAnswer>,
}

/// One value of each quantity, in thousandths of its unit.
#[derive(Clone, Copy, Debug, PartialEq, Eq, Structural)]
pub struct Measurements {
    /// Voltage.
    pub voltage: i32,
    /// Current.
    pub current: i32,
    /// Resistance.
    pub resistance: i32,
    /// Power.
    pub power: i32,
}

impl Measurements {
    /// The value of the quantity `v`.
    pub open spec fn spec_get(self, v: EquationVariable) -> i32 {
        match v {
            EquationVariable::Voltage => self.voltage,
            EquationVariable::Current => self.current,
            EquationVariable::Resistance => self.resistance,
            EquationVariable::Power => self.power,
        }
    }

    /// The value of the quantity `v`.
    pub fn get(&self, v: EquationVariable) -> (r: i32)
        ensures
            r == self.spec_get(v),
    {
        match v {
            EquationVariable::Voltage => self.voltage,
            EquationVariable::Current => self.current,
            EquationVariable::Resistance => self.resistance,
            EquationVariable::Power => self.power,
        }
    }
}

/// The value of the first entry of `g`, from position `i` on, that is
/// tagged `v`.
pub open spec fn value_from(g: Seq<(EquationVariable, i32)>, v: EquationVariable, i: int) -> Option<
    i32,
>
    decreases g.len() - i,
{
    if i < 0 || i >= g.len() {
        None
    } else if g[i].0 == v {
        Some(g[i].1)
    } else {
        value_from(g, v, i + 1)
    }
}

/// The value of the first entry of `g` that is tagged `v`.
pub open spec fn given_value(g: Seq<(EquationVariable, i32)>, v: EquationVariable) -> Option<i32> {
    value_from(g, v, 0)
}

/// What solving `e` works with: the formula and the values of its two
/// inputs, or the first input that `e` does not give. `None` where the
/// family has no formula for the missing quantity.
pub open spec fn worked(e: EquationExercise) -> Option<Result<(Formula, i32, i32), EquationVariable>> {
    match formula_for(e.exercise_type, e.missing_variable) {
        None => None,
        Some(f) => {
            let (x, y) = f.spec_inputs();
            let g = e.given_variables@;
            Some(
                match (given_value(g, x), given_value(g, y)) {
                    (None, _) => Err(x),
                    (Some(_), None) => Err(y),
                    (Some(a), Some(b)) => Ok((f, a, b)),
                },
            )
        },
    }
}

/// `s` is the solution by `f` of the inputs `a` and `b`.
pub open spec fn describes(s: EquationExerciseSolution, f: Formula, a: i32, b: i32) -> bool {
    &&& s.answer == f.spec_evaluate(a, b)
    &&& s.unit == f.spec_solved().spec_unit()
    &&& s.steps@.map_values(|line: String| line@) == f.derivation(a, b)
}

/// `r` is what solving `e` returns: `MissingVariable` with the first input
/// that `e` does not give; else the solution by the formula of `e`, as an
/// `EquationResolveError` where `e` carries an answer whose value differs
/// from it (an answer that is not a number differs from every answer).
pub open spec fn solves(e: EquationExercise, r: Result<EquationExerciseSolution, TrainerError>) -> bool {
    match worked(e) {
        None => false,
        Some(Err(v)) => r matches Err(TrainerError::MissingVariable(w)) && w == v,
        Some(Ok((f, a, b))) => {
            if e.correct_answer matches Some(c) && !c.same_value(f.spec_evaluate(a, b)) {
                r matches Err(TrainerError::EquationResolveError(s)) && describes(s, f, a, b)
            } else {
                r matches Ok(s) && describes(s, f, a, b)
            }
        },
    }
}

/// What a solution holds, with each step as its text.
pub open spec fn solution_view(s: EquationExerciseSolution) -> (
    EquationAnswer,
    EquationUnit,
    Seq<Seq<char>>,
) {
    (s.answer, s.unit, s.steps@.map_values(|line: String| line@))
}

/// Solving is a function of the exercise: two results of solving one
/// exercise agree, in the answer, the unit and the text of every step, or
/// in the error.
pub proof fn lemma_solve_deterministic(
    e: EquationExercise,
    r1: Result<EquationExerciseSolution, TrainerError>,
    r2: Result<EquationExerciseSolution, TrainerError>,
)
    requires
        solves(e, r1),
        solves(e, r2),
    ensures
        r1 is Ok <==> r2 is Ok,
        r1 matches Ok(s1) ==> r2 matches Ok(s2) && solution_view(s1) == solution_view(s2),
        r1 matches Err(TrainerError::MissingVariable(v1)) ==> r2 matches Err(
            TrainerError::MissingVariable(v2),
        ) && v1 == v2,
        r1 matches Err(TrainerError::EquationResolveError(s1)) ==> r2 matches Err(
            TrainerError::EquationResolveError(s2),
        ) && solution_view(s1) == solution_view(s2),
{
}

/// The exercise as it travels to a client and back keeps its family, its
/// missing quantity and its given values, and loses the answer it was made
/// with. Such a copy solves to the same solution as the exercise itself
/// wherever that solves, and is never refused for a differing answer.
pub proof fn lemma_solve_ignores_hidden_answer(
    e: EquationExercise,
    copy: EquationExercise,
    r: Result<EquationExerciseSolution, TrainerError>,
    rc: Result<EquationExerciseSolution, TrainerError>,
)
    requires
        copy.exercise_type == e.exercise_type,
        copy.missing_variable == e.missing_variable,
        copy.given_variables@ == e.given_variables@,
        copy.correct_answer is None,
        solves(e, r),
        solves(copy, rc),
    ensures
        worked(copy) == worked(e),
        !(rc matches Err(TrainerError::EquationResolveError(_))),
        r matches Ok(s) ==> rc matches Ok(sc) && solution_view(sc) == solution_view(s),
{
}

impl EquationExercise {
    /// A builder with the default settings.
    pub fn new() -> (r: EquationExerciseBuilder)
        ensures
            r.is_default(),
    {
        EquationExerciseBuilder::new()
    }

    /// The value given for `v`: that of the first entry tagged `v`.
    pub fn given(&self, v: EquationVariable) -> (r: Option<i32>)
        ensures
            r == given_value(self.given_variables@, v),
    {
        let g = &self.given_variables;
        let mut i: usize = 0;
        while i < g.len()
            invariant
                i <= g@.len(),
                g@ == self.given_variables@,
                value_from(g@, v, 0) == value_from(g@, v, i as int),
            decreases g@.len() - i,
        {
            if g[i].0 == v {
                assert(value_from(g@, v, i as int) == Some(g@[i as int].1));
                return Some(g[i].1);
            }
            i = i + 1;
        }
        None
    }

    /// Grades `user_answer` against the answer the exercise was made with:
    /// whether it lies closer to it than `precision` (by default
    /// `DEFAULT_PRECISION`), both in thousandths of the unit. `None` where
    /// the exercise carries no answer.
    pub fn check_answer(&self, user_answer: i32, precision: Option<i32>) -> (r: Option<bool>)
        ensures
            r == match self.correct_answer {
                None => None,
                Some(c) => Some(
                    c.within(
                        user_answer as int,
                        match precision {
                            Some(p) => p as int,
                            None => DEFAULT_PRECISION as int,
                        },
                    ),
                ),
            },
    {
        match self.correct_answer {
            None => None,
            Some(c) => {
                let p = match precision {
                    Some(p) => p,
                    None => DEFAULT_PRECISION,
                };
                Some(c.is_within(user_answer, p))
            },
        }
    }

    /// Solves the exercise: picks the formula for its family and missing
    /// quantity, looks up the two inputs, and works out the answer with the
    /// steps that lead to it.
    ///
    /// Fails with `MissingVariable` naming the first input not given, and
    /// with `EquationResolveError` where the exercise carries an answer
    /// whose value differs from the one worked out.
    pub fn solve(&self) -> (r: Result<EquationExerciseSolution, TrainerError>)
        requires
            formula_for(self.exercise_type, self.missing_variable) is Some,
        ensures
            solves(*self, r),
    {
        let f = Formula::select(self.exercise_type, self.missing_variable).unwrap();
        let (x, y) = f.inputs();
        let a = match self.given(x) {
            Some(a) => a,
            None => return Err(TrainerError::MissingVariable(x)),
        };
        let b = match self.given(y) {
            Some(b) => b,
            None => return Err(TrainerError::MissingVariable(y)),
        };
        let answer = f.evaluate(a, b);
        let mut steps: Vec<String> = Vec::new();
        steps.push(String::from_str(f.statement()));
        let (head, middle, tail) = f.frame();
        let mut line = String::from_str(head);
        push_milli(&mut line, a as i128);
        line.append(middle);
        push_milli(&mut line, b as i128);
        line.append(tail);
        steps.push(line);
        let mut last = String::from_str(f.solved().line_start());
        let answer_text = answer.to_text();
        last.append(answer_text.as_str());
        steps.push(last);
        let solution = EquationExerciseSolution { steps, answer, unit: f.solved().unit() };
        proof {
            assert(solution.steps@.map_values(|line: String| line@) =~= f.derivation(a, b));
        }
        match self.correct_answer {
            Some(c) => {
                if !c.has_same_value(&answer) {
                    return Err(TrainerError::EquationResolveError(solution));
                }
            },
            None => {},
        }
        Ok(solution)
    }

    /// The exercise of family `t` that asks for `missing`, with the inputs
    /// of its formula taken from `values`, and the answer it was made with.
    pub fn assemble(t: EquationExerciseType, missing: EquationVariable, values: &Measurements) -> (r:
        EquationExercise)
        requires
            formula_for(t, missing) is Some,
        ensures
            r.exercise_type == t,
            r.missing_variable == missing,
            ({
                let f = formula_for(t, missing)->0;
                let (x, y) = f.spec_inputs();
                &&& r.given_variables@ == seq![(x, values.spec_get(x)), (y, values.spec_get(y))]
                &&& r.correct_answer == Some(f.spec_evaluate(values.spec_get(x), values.spec_get(y)))
            }),
    {
        let f = Formula::select(t, missing).unwrap();
        let (x, y) = f.inputs();
        let a = values.get(x);
        let b = values.get(y);
        let mut given_variables: Vec<(EquationVariable, i32)> = Vec::new();
        given_variables.push((x, a));
        given_variables.push((y, b));
        proof {
            assert(given_variables@ =~= seq![(x, a), (y, b)]);
        }
        EquationExercise {
            exercise_type: t,
            missing_variable: missing,
            given_variables,
            correct_answer: Some(f.evaluate(a, b)),
        }
    }
}

} // verus!
