use puimuri_trainer::builder::Rounding;
use puimuri_trainer::equations::{
    EquationExercise, EquationExerciseBuilder, EquationExerciseType, EquationVariable,
};
use puimuri_trainer::TrainerError;

fn range_of(v: EquationVariable) -> (i32, i32) {
    match v {
        EquationVariable::Voltage => (10000, 20000),
        EquationVariable::Current => (1500, 5500),
        EquationVariable::Resistance => (5000, 15000),
        EquationVariable::Power => (50000, 100000),
    }
}

fn configured(t: EquationExerciseType) -> EquationExerciseBuilder {
    EquationExerciseBuilder::new()
        .set_voltage_range(10000, 20000)
        .unwrap()
        .set_current_range(1500, 5500)
        .unwrap()
        .set_resistance_range(5000, 15000)
        .unwrap()
        .set_power_range(50000, 100000)
        .unwrap()
        .set_type(t)
}

fn expected_inputs(e: &EquationExercise) -> (EquationVariable, EquationVariable) {
    let (voltage, current, resistance, power) = (
        EquationVariable::Voltage,
        EquationVariable::Current,
        EquationVariable::Resistance,
        EquationVariable::Power,
    );
    match (e.exercise_type, e.missing_variable) {
        (EquationExerciseType::OhmsLaw, EquationVariable::Voltage) => (resistance, current),
        (EquationExerciseType::OhmsLaw, EquationVariable::Current) => (voltage, resistance),
        (EquationExerciseType::OhmsLaw, EquationVariable::Resistance) => (voltage, current),
        (EquationExerciseType::Power, EquationVariable::Power) => (voltage, current),
        (EquationExerciseType::Power, EquationVariable::Voltage) => (power, current),
        (EquationExerciseType::Power, EquationVariable::Current) => (power, voltage),
        (EquationExerciseType::Combined, EquationVariable::Power) => (voltage, resistance),
        (EquationExerciseType::Combined, EquationVariable::Current) => (power, resistance),
        (EquationExerciseType::Combined, EquationVariable::Resistance) => (power, voltage),
        other => panic!("not a built combination: {:?}", other),
    }
}

#[test]
fn built_values_lie_in_their_ranges() {
    for t in [
        EquationExerciseType::OhmsLaw,
        EquationExerciseType::Power,
        EquationExerciseType::Combined,
    ] {
        for _ in 0..200 {
            let e = configured(t).build();
            assert_eq!(e.exercise_type, t);
            let (x, y) = expected_inputs(&e);
            assert_eq!(e.given_variables.len(), 2);
            assert_eq!(e.given_variables[0].0, x);
            assert_eq!(e.given_variables[1].0, y);
            for &(v, value) in &e.given_variables {
                let (lo, hi) = range_of(v);
                assert!(lo <= value && value <= hi);
                assert_eq!(value % 1000, 0);
            }
            let s = e.solve().unwrap();
            assert_eq!(Some(s.answer), e.correct_answer);
        }
    }
}

#[test]
fn each_asked_quantity_comes_up() {
    let mut seen = Vec::new();
    for _ in 0..300 {
        let e = configured(EquationExerciseType::Combined).build();
        assert_ne!(e.missing_variable, EquationVariable::Voltage);
        if !seen.contains(&e.missing_variable) {
            seen.push(e.missing_variable);
        }
    }
    assert_eq!(seen.len(), 3);
}

#[test]
fn hundredths_rounding_and_ranges_without_whole_units() {
    let b = EquationExerciseBuilder::new()
        .set_current_range(120, 180)
        .unwrap()
        .set_voltage_range(2500, 2500)
        .unwrap()
        .set_rounding(Rounding::Hundredths);
    let e = b.set_type(EquationExerciseType::OhmsLaw).build();
    for &(v, value) in &e.given_variables {
        if v == EquationVariable::Current {
            assert!((120..=180).contains(&value));
            assert_eq!(value % 10, 0);
        }
        if v == EquationVariable::Voltage {
            assert_eq!(value, 2500);
        }
    }
    let whole = EquationExerciseBuilder::new()
        .set_current_range(120, 180)
        .unwrap()
        .set_type(EquationExerciseType::Power)
        .build();
    for &(v, value) in &whole.given_variables {
        if v == EquationVariable::Current {
            assert!((120..=180).contains(&value));
        }
    }
}

#[test]
fn equal_bounds_are_accepted() {
    let b = EquationExerciseBuilder::new()
        .set_voltage_range(5000, 5000)
        .unwrap()
        .set_current_range(2000, 2000)
        .unwrap()
        .set_resistance_range(3000, 3000)
        .unwrap()
        .set_power_range(7000, 7000)
        .unwrap();
    let s = b.settings();
    assert_eq!(s.voltage_range, (5000, 5000));
    assert_eq!(s.power_range, (7000, 7000));
    let e = b.set_type(EquationExerciseType::Power).build();
    for &(v, value) in &e.given_variables {
        let expected = match v {
            EquationVariable::Voltage => 5000,
            EquationVariable::Current => 2000,
            EquationVariable::Resistance => 3000,
            EquationVariable::Power => 7000,
        };
        assert_eq!(value, expected);
    }
}

#[test]
fn min_above_max_is_refused() {
    assert!(matches!(
        EquationExerciseBuilder::new().set_voltage_range(2, 1),
        Err(TrainerError::MinLargerThanMax)
    ));
    assert!(EquationExerciseBuilder::new().set_current_range(-5, -5).is_ok());
}

#[test]
fn default_settings() {
    let s = EquationExercise::new().settings();
    assert_eq!(s.exercise_type, EquationExerciseType::OhmsLaw);
    assert_eq!(s.voltage_range, (1000, 240000));
    assert_eq!(s.current_range, (100, 10000));
    assert_eq!(s.resistance_range, (1000, 1000000));
    assert_eq!(s.power_range, (1000, 2400000));
    assert_eq!(s.rounding, Rounding::WholeUnits);
}

#[test]
fn random_family_gives_a_valid_exercise() {
    let mut types = Vec::new();
    for _ in 0..200 {
        let e = configured(EquationExerciseType::OhmsLaw).build_with_random_exercisetype();
        let (x, y) = expected_inputs(&e);
        assert_eq!(e.given_variables[0].0, x);
        assert_eq!(e.given_variables[1].0, y);
        assert!(e.solve().is_ok());
        if !types.contains(&e.exercise_type) {
            types.push(e.exercise_type);
        }
    }
    assert_eq!(types.len(), 3);
}

#[test]
fn builder_keeps_its_settings_and_builds_again() {
    let mut b = configured(EquationExerciseType::Power);
    let before = b.settings();
    let first = b.build();
    let second = b.build();
    assert_eq!(b.settings(), before);
    assert_eq!(first.exercise_type, EquationExerciseType::Power);
    assert_eq!(second.exercise_type, EquationExerciseType::Power);
    let e = b.build_with_random_exercisetype();
    let after = b.settings();
    assert_eq!(after.exercise_type, e.exercise_type);
    assert_eq!(after.voltage_range, before.voltage_range);
    assert_eq!(after.power_range, before.power_range);
}
