//! Building exercises from random values within configured ranges.

use vstd::prelude::*;

use rand::rngs::ThreadRng;
use rand::seq::SliceRandom;
use rand::Rng;

use crate::equations::{
    formula_for, EquationExercise, EquationExerciseType, EquationVariable, Measurements,
};
use crate::TrainerError;
use vstd::arithmetic::div_mod::{lemma_fundamental_div_mod, lemma_mod_bound};

verus! {

#[verifier::external_type_specification]
#[verifier::external_body]
pub struct ExThreadRng(ThreadRng);

/// Relies on rand::thread_rng: a handle to the generator of this thread.
pub assume_specification[ rand::thread_rng ]() -> ThreadRng;

/// Relies on rand::Rng::gen_range over an inclusive range of integers: it
/// returns a value of the range, and panics only where the range is empty.
#[verifier::external_body]
fn draw_between(rng: &mut ThreadRng, lo: i32, hi: i32) -> (r: i32)
    requires
        lo <= hi,
    ensures
        lo <= r <= hi,
{
    rng.gen_range(lo..=hi)
}

/// Relies on rand::seq::SliceRandom::choose: one of the items of a slice,
/// `None` only where the slice is empty.
#[verifier::external_body]
fn choose_from<T: Copy>(rng: &mut ThreadRng, items: &[T]) -> (r: T)
    requires
        items@.len() > 0,
    ensures
        items@.contains(r),
{
    *items.choose(rng).unwrap()
}

/// To what the sampled values are rounded.
#[derive(Clone, Copy, Debug, PartialEq, Eq, Structural)]
pub enum Rounding {
    /// Whole units.
    WholeUnits,
    /// Hundredths of a unit.
    Hundredths,
}

impl Rounding {
    /// The rounding step, in thousandths of a unit.
    pub open spec fn spec_step(self) -> int {
        match self {
            Rounding::WholeUnits => 1000,
            Rounding::Hundredths => 10,
        }
    }

    /// The rounding step, in thousandths of a unit.
    pub fn step(self) -> (r: i32)
        ensures
            r == self.spec_step(),
    {
        match self {
            Rounding::WholeUnits => 1000,
            Rounding::Hundredths => 10,
        }
    }
}

/// The least `k` with `lo <= k * step`, for `step > 0`.
pub open spec fn first_multiple(lo: int, step: int) -> int {
    -((-lo) / step)
}

/// The greatest `k` with `k * step <= hi`, for `step > 0`.
pub open spec fn last_multiple(hi: int, step: int) -> int {
    hi / step
}

/// `v` is a value that a range `(lo, hi)` may give under `rounding`: it lies
/// in the range, and is a multiple of the step wherever the range holds one.
pub open spec fn fits(v: int, range: (i32, i32), rounding: Rounding) -> bool {
    let step = rounding.spec_step();
    &&& range.0 <= v <= range.1
    &&& first_multiple(range.0 as int, step) <= last_multiple(range.1 as int, step) ==> v % step
        == 0
}

/// The settings from which exercises are built. Ranges are `(min, max)`,
/// in thousandths of the unit.
#[derive(Clone, Copy, Debug, PartialEq, Eq)]
pub struct ExerciseSettings {
    /// The family of the exercises.
    pub exercise_type: EquationExerciseType,
    /// Range of voltages.
    pub voltage_range: (i32, i32),
    /// Range of currents.
    pub current_range: (i32, i32),
    /// Range of resistances.
    pub resistance_range: (i32, i32),
    /// Range of powers.
    pub power_range: (i32, i32),
    /// To what sampled values are rounded.
    pub rounding: Rounding,
}

impl ExerciseSettings {
    /// Each range has its minimum at most its maximum.
    pub open spec fn valid(self) -> bool {
        &&& self.voltage_range.0 <= self.voltage_range.1
        &&& self.current_range.0 <= self.current_range.1
        &&& self.resistance_range.0 <= self.resistance_range.1
        &&& self.power_range.0 <= self.power_range.1
    }

    /// The range of the quantity `v`.
    pub open spec fn range_of(self, v: EquationVariable) -> (i32, i32) {
        match v {
            EquationVariable::Voltage => self.voltage_range,
            EquationVariable::Current => self.current_range,
            EquationVariable::Resistance => self.resistance_range,
            EquationVariable::Power => self.power_range,
        }
    }

    /// The settings of a new builder: voltage 1 to 240 V, current 0.1 to
    /// 10 A, resistance 1 to 1000 Ω, power 1 to 2400 W, Ohm's law, values
    /// rounded to whole units.
    pub open spec fn default_settings() -> ExerciseSettings {
        ExerciseSettings {
            exercise_type: EquationExerciseType::OhmsLaw,
            voltage_range: (1000, 240000),
            current_range: (100, 10000),
            resistance_range: (1000, 1000000),
            power_range: (1000, 2400000),
            rounding: Rounding::WholeUnits,
        }
    }
}

/// The quantities that a built exercise of family `t` may ask for. Of the
/// combined family only three are asked: power from voltage and resistance,
/// current from power and resistance, resistance from power and voltage.
pub open spec fn asked_in(t: EquationExerciseType, m: EquationVariable) -> bool {
    match t {
        EquationExerciseType::OhmsLaw => m != EquationVariable::Power,
        EquationExerciseType::Power => m != EquationVariable::Resistance,
        EquationExerciseType::Combined => m != EquationVariable::Voltage,
    }
}

fn asked_candidates(t: EquationExerciseType) -> (r: Vec<EquationVariable>)
    ensures
        r@.len() == 3,
        forall|m: EquationVariable| r@.contains(m) <==> asked_in(t, m),
{
    let r = match t {
        EquationExerciseType::OhmsLaw => vec![
            EquationVariable::Voltage,
            EquationVariable::Current,
            EquationVariable::Resistance,
        ],
        EquationExerciseType::Power => vec![
            EquationVariable::Power,
            EquationVariable::Voltage,
            EquationVariable::Current,
        ],
        EquationExerciseType::Combined => vec![
            EquationVariable::Power,
            EquationVariable::Current,
            EquationVariable::Resistance,
        ],
    };
    assert forall|m: EquationVariable| r@.contains(m) <==> asked_in(t, m) by {
        if asked_in(t, m) {
            if r@[0] == m {
                assert(r@.contains(m));
            } else if r@[1] == m {
                assert(r@.contains(m));
            } else {
                assert(r@[2] == m);
                assert(r@.contains(m));
            }
        }
    }
    r
}

/// `e` is an exercise that `s` may give: of the family of `s`, asking for a
/// quantity that the family asks, with the two inputs of its formula in
/// order, each a value that its range gives, and the answer it was made
/// with.
pub open spec fn built_from(e: EquationExercise, s: ExerciseSettings) -> bool {
    &&& e.exercise_type == s.exercise_type
    &&& asked_in(e.exercise_type, e.missing_variable)
    &&& formula_for(e.exercise_type, e.missing_variable) matches Some(f) && {
        let (x, y) = f.spec_inputs();
        let g = e.given_variables@;
        &&& g.len() == 2
        &&& g[0].0 == x
        &&& g[1].0 == y
        &&& fits(g[0].1 as int, s.range_of(x), s.rounding)
        &&& fits(g[1].1 as int, s.range_of(y), s.rounding)
        &&& e.correct_answer == Some(f.spec_evaluate(g[0].1, g[1].1))
    }
}

/// `a / d` rounded down.
fn floor_div(a: i64, d: i64) -> (r: i64)
    requires
        d > 0,
        -0x1_0000_0000 <= a <= 0x1_0000_0000,
    ensures
        r == a / d,
        a >= 0 ==> 0 <= r <= a,
        a < 0 ==> a <= r < 0,
{
    proof {
        lemma_fundamental_div_mod(a as int, d as int);
        lemma_mod_bound(a as int, d as int);
        let q = a / d;
        let m = a % d;
        assert(a >= 0 ==> 0 <= q <= a) by (nonlinear_arith)
            requires
                a == d * q + m,
                0 <= m < d,
        ;
        assert(a < 0 ==> a <= q < 0) by (nonlinear_arith)
            requires
                a == d * q + m,
                0 <= m < d,
        ;
    }
    a.checked_div_euclid(d).unwrap()
}

/// Samples a value of `range` under `rounding`.
fn sample(rng: &mut ThreadRng, range: (i32, i32), rounding: Rounding) -> (v: i32)
    requires
        range.0 <= range.1,
    ensures
        fits(v as int, range, rounding),
{
    let (lo, hi) = range;
    let step = rounding.step();
    let first_k: i32 = (-floor_div(-(lo as i64), step as i64)) as i32;
    let last_k: i32 = floor_div(hi as i64, step as i64) as i32;
    if first_k <= last_k {
        let k = draw_between(rng, first_k, last_k);
        assert(lo <= k * step <= hi) by (nonlinear_arith)
            requires
                first_k <= k <= last_k,
                step > 0,
                first_k == -((-(lo as int)) / (step as int)),
                last_k == (hi as int) / (step as int),
        ;
        k * step
    } else {
        draw_between(rng, lo, hi)
    }
}

/// Builds an exercise from `settings`, drawing from `rng`: samples a value
/// of each quantity within its range, picks at random a quantity that the
/// family asks for, and gives the two inputs of its formula with the answer.
fn build_from(settings: ExerciseSettings, rng: &mut ThreadRng) -> (r: EquationExercise)
    requires
        settings.valid(),
    ensures
        built_from(r, settings),
{
    let values = Measurements {
        voltage: sample(rng, settings.voltage_range, settings.rounding),
        current: sample(rng, settings.current_range, settings.rounding),
        resistance: sample(rng, settings.resistance_range, settings.rounding),
        power: sample(rng, settings.power_range, settings.rounding),
    };
    let candidates = asked_candidates(settings.exercise_type);
    let missing = choose_from(rng, candidates.as_slice());
    assert(asked_in(settings.exercise_type, missing));
    assert(formula_for(settings.exercise_type, missing) is Some);
    let r = EquationExercise::assemble(settings.exercise_type, missing, &values);
    proof {
        let (x, y) = formula_for(settings.exercise_type, missing)->0.spec_inputs();
        assert forall|v: EquationVariable|
            fits(#[trigger] values.spec_get(v) as int, settings.range_of(v), settings.rounding) by {
            match v {
                EquationVariable::Voltage => {},
                EquationVariable::Current => {},
                EquationVariable::Resistance => {},
                EquationVariable::Power => {},
            }
        }
        assert(r.given_variables@[0] == (x, values.spec_get(x)));
        assert(r.given_variables@[1] == (y, values.spec_get(y)));
    }
    r
}

/// Builds exercises with random values from its settings.
#[derive(Debug)]
pub struct EquationExerciseBuilder {
    settings: ExerciseSettings,
    rng: ThreadRng,
}

impl View for EquationExerciseBuilder {
    type V = ExerciseSettings;

    closed spec fn view(&self) -> ExerciseSettings {
        self.settings
    }
}

impl EquationExerciseBuilder {
    #[verifier::type_invariant]
    spec fn inv(&self) -> bool {
        self.settings.valid()
    }

    /// Whether the builder has the settings of a new one.
    pub open spec fn is_default(&self) -> bool {
        self@ == ExerciseSettings::default_settings()
    }

    /// A builder with the default settings.
    pub fn new() -> (r: EquationExerciseBuilder)
        ensures
            r.is_default(),
    {
        EquationExerciseBuilder {
            settings: ExerciseSettings {
                exercise_type: EquationExerciseType::OhmsLaw,
                voltage_range: (1000, 240000),
                current_range: (100, 10000),
                resistance_range: (1000, 1000000),
                power_range: (1000, 2400000),
                rounding: Rounding::WholeUnits,
            },
            rng: rand::thread_rng(),
        }
    }

    /// The current settings.
    pub fn settings(&self) -> (r: ExerciseSettings)
        ensures
            r == self@,
            r.valid(),
    {
        proof {
            use_type_invariant(self);
        }
        self.settings
    }

    /// Sets the range of voltages; fails where `min > max`.
    pub fn set_voltage_range(self, min: i32, max: i32) -> (r: Result<Self, TrainerError>)
        ensures
            min > max <==> r is Err,
            r matches Err(e) ==> e is MinLargerThanMax,
            r matches Ok(b) ==> b@ == (ExerciseSettings { voltage_range: (min, max), ..self@ }),
    {
        if min > max {
            return Err(TrainerError::MinLargerThanMax);
        }
        proof {
            use_type_invariant(&self);
        }
        let EquationExerciseBuilder { settings, rng } = self;
        Ok(EquationExerciseBuilder {
            settings: ExerciseSettings { voltage_range: (min, max), ..settings },
            rng,
        })
    }

    /// Sets the range of currents; fails where `min > max`.
    pub fn set_current_range(self, min: i32, max: i32) -> (r: Result<Self, TrainerError>)
        ensures
            min > max <==> r is Err,
            r matches Err(e) ==> e is MinLargerThanMax,
            r matches Ok(b) ==> b@ == (ExerciseSettings { current_range: (min, max), ..self@ }),
    {
        if min > max {
            return Err(TrainerError::MinLargerThanMax);
        }
        proof {
            use_type_invariant(&self);
        }
        let EquationExerciseBuilder { settings, rng } = self;
        Ok(EquationExerciseBuilder {
            settings: ExerciseSettings { current_range: (min, max), ..settings },
            rng,
        })
    }

    /// Sets the range of resistances; fails where `min > max`.
    pub fn set_resistance_range(self, min: i32, max: i32) -> (r: Result<Self, TrainerError>)
        ensures
            min > max <==> r is Err,
            r matches Err(e) ==> e is MinLargerThanMax,
            r matches Ok(b) ==> b@ == (ExerciseSettings { resistance_range: (min, max), ..self@ }),
    {
        if min > max {
            return Err(TrainerError::MinLargerThanMax);
        }
        proof {
            use_type_invariant(&self);
        }
        let EquationExerciseBuilder { settings, rng } = self;
        Ok(EquationExerciseBuilder {
            settings: ExerciseSettings { resistance_range: (min, max), ..settings },
            rng,
        })
    }

    /// Sets the range of powers; fails where `min > max`.
    pub fn set_power_range(self, min: i32, max: i32) -> (r: Result<Self, TrainerError>)
        ensures
            min > max <==> r is Err,
            r matches Err(e) ==> e is MinLargerThanMax,
            r matches Ok(b) ==> b@ == (ExerciseSettings { power_range: (min, max), ..self@ }),
    {
        if min > max {
            return Err(TrainerError::MinLargerThanMax);
        }
        proof {
            use_type_invariant(&self);
        }
        let EquationExerciseBuilder { settings, rng } = self;
        Ok(EquationExerciseBuilder {
            settings: ExerciseSettings { power_range: (min, max), ..settings },
            rng,
        })
    }

    /// Sets the family of the exercises.
    pub fn set_type(self, new_type: EquationExerciseType) -> (r: Self)
        ensures
            r@ == (ExerciseSettings { exercise_type: new_type, ..self@ }),
    {
        proof {
            use_type_invariant(&self);
        }
        let EquationExerciseBuilder { settings, rng } = self;
        EquationExerciseBuilder { settings: ExerciseSettings { exercise_type: new_type, ..settings }, rng }
    }

    /// Sets to what sampled values are rounded.
    pub fn set_rounding(self, rounding: Rounding) -> (r: Self)
        ensures
            r@ == (ExerciseSettings { rounding, ..self@ }),
    {
        proof {
            use_type_invariant(&self);
        }
        let EquationExerciseBuilder { settings, rng } = self;
        EquationExerciseBuilder { settings: ExerciseSettings { rounding, ..settings }, rng }
    }

    /// Builds an exercise: samples a value of each quantity within its
    /// range, picks at random a quantity that the family asks for, and
    /// gives the two inputs of its formula with the answer. The builder
    /// keeps its settings and can build again.
    pub fn build(&mut self) -> (r: EquationExercise)
        ensures
            final(self)@ == old(self)@,
            built_from(r, old(self)@),
    {
        proof {
            use_type_invariant(&*self);
        }
        let settings = self.settings;
        let mut rng = rand::thread_rng();
        std::mem::swap(&mut rng, &mut self.rng);
        let r = build_from(settings, &mut rng);
        std::mem::swap(&mut rng, &mut self.rng);
        r
    }

    /// Picks a family at random, sets it, and builds an exercise of it.
    pub fn build_with_random_exercisetype(&mut self) -> (r: EquationExercise)
        ensures
            r.exercise_type == EquationExerciseType::OhmsLaw || r.exercise_type
                == EquationExerciseType::Power || r.exercise_type == EquationExerciseType::Combined,
            final(self)@ == (ExerciseSettings { exercise_type: r.exercise_type, ..old(self)@ }),
            built_from(r, final(self)@),
    {
        proof {
            use_type_invariant(&*self);
        }
        let settings = self.settings;
        let mut rng = rand::thread_rng();
        std::mem::swap(&mut rng, &mut self.rng);
        let types = vec![
            EquationExerciseType::OhmsLaw,
            EquationExerciseType::Power,
            EquationExerciseType::Combined,
        ];
        let t = choose_from(&mut rng, types.as_slice());
        let chosen = ExerciseSettings { exercise_type: t, ..settings };
        let r = build_from(chosen, &mut rng);
        std::mem::swap(&mut rng, &mut self.rng);
        self.settings = chosen;
        r
    }
}

impl Default for EquationExerciseBuilder {
    fn default() -> (r: EquationExerciseBuilder)
        ensures
            r.is_default(),
    {
        EquationExerciseBuilder::new()
    }
}

} // verus!
