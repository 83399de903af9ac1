use puimuri_trainer::answer::EquationAnswer;
use puimuri_trainer::equations::{
    EquationExercise, EquationExerciseBuilder, EquationExerciseType, EquationUnit,
    EquationVariable,
};

fn value(exercise: &EquationExercise, v: EquationVariable) -> f64 {
    exercise.given(v).unwrap() as f64 / 1000.0
}

fn approx(answer: &EquationAnswer) -> f64 {
    answer.approx_milli().unwrap() as f64 / 1000.0
}

fn assert_close(a: f64, b: f64) {
    assert!((a - b).abs() <= 0.01, "{} is not close to {}", a, b);
}

#[test]
fn test_ohms_law_voltage() {
    let exercise = EquationExerciseBuilder::new()
        .set_type(EquationExerciseType::OhmsLaw)
        .build();

    if exercise.missing_variable == EquationVariable::Voltage {
        let solution = exercise.solve().unwrap();
        let resistance = value(&exercise, EquationVariable::Resistance);
        let current = value(&exercise, EquationVariable::Current);
        assert_close(approx(&solution.answer), resistance * current);
        assert_eq!(solution.unit, EquationUnit::Volt);
    }
}

#[test]
fn test_ohms_law_current() {
    let exercise = EquationExerciseBuilder::new()
        .set_type(EquationExerciseType::OhmsLaw)
        .build();

    if exercise.missing_variable == EquationVariable::Current {
        let solution = exercise.solve().unwrap();
        let voltage = value(&exercise, EquationVariable::Voltage);
        let resistance = value(&exercise, EquationVariable::Resistance);
        assert_close(approx(&solution.answer), voltage / resistance);
        assert_eq!(solution.unit, EquationUnit::Ampere);
    }
}

#[test]
fn test_ohms_law_resistance() {
    let exercise = EquationExerciseBuilder::new()
        .set_type(EquationExerciseType::OhmsLaw)
        .build();

    if exercise.missing_variable == EquationVariable::Resistance {
        let solution = exercise.solve().unwrap();
        let voltage = value(&exercise, EquationVariable::Voltage);
        let current = value(&exercise, EquationVariable::Current);
        assert_close(approx(&solution.answer), voltage / current);
        assert_eq!(solution.unit, EquationUnit::Ohm);
    }
}

#[test]
fn test_power_power() {
    let exercise = EquationExerciseBuilder::new()
        .set_type(EquationExerciseType::Power)
        .build();

    if exercise.missing_variable == EquationVariable::Power {
        let solution = exercise.solve().unwrap();
        let voltage = value(&exercise, EquationVariable::Voltage);
        let current = value(&exercise, EquationVariable::Current);
        assert_close(approx(&solution.answer), voltage * current);
        assert_eq!(solution.unit, EquationUnit::Watt);
    }
}

#[test]
fn test_power_voltage() {
    let exercise = EquationExerciseBuilder::new()
        .set_type(EquationExerciseType::Power)
        .build();

    if exercise.missing_variable == EquationVariable::Voltage {
        let solution = exercise.solve().unwrap();
        let power = value(&exercise, EquationVariable::Power);
        let current = value(&exercise, EquationVariable::Current);
        assert_close(approx(&solution.answer), power / current);
        assert_eq!(solution.unit, EquationUnit::Volt);
    }
}

#[test]
fn test_power_current() {
    let exercise = EquationExerciseBuilder::new()
        .set_type(EquationExerciseType::Power)
        .build();

    if exercise.missing_variable == EquationVariable::Current {
        let solution = exercise.solve().unwrap();
        let power = value(&exercise, EquationVariable::Power);
        let voltage = value(&exercise, EquationVariable::Voltage);
        assert_close(approx(&solution.answer), power / voltage);
        assert_eq!(solution.unit, EquationUnit::Ampere);
    }
}

#[test]
fn test_combined_power() {
    let exercise = EquationExerciseBuilder::new()
        .set_type(EquationExerciseType::Combined)
        .build();

    if exercise.missing_variable == EquationVariable::Power {
        let solution = exercise.solve().unwrap();
        let voltage = value(&exercise, EquationVariable::Voltage);
        let resistance = value(&exercise, EquationVariable::Resistance);
        assert_close(approx(&solution.answer), (voltage * voltage) / resistance);
        assert_eq!(solution.unit, EquationUnit::Watt);
    }
}

#[test]
fn test_combined_current() {
    let exercise = EquationExerciseBuilder::new()
        .set_type(EquationExerciseType::Combined)
        .build();

    if exercise.missing_variable == EquationVariable::Current {
        let solution = exercise.solve().unwrap();
        let power = value(&exercise, EquationVariable::Power);
        let resistance = value(&exercise, EquationVariable::Resistance);
        assert_close(approx(&solution.answer), (power / resistance).sqrt());
        assert_eq!(solution.unit, EquationUnit::Ampere);
    }
}

#[test]
fn test_combined_voltage() {
    let exercise = EquationExerciseBuilder::new()
        .set_type(EquationExerciseType::Combined)
        .build();

    if exercise.missing_variable == EquationVariable::Voltage {
        let solution = exercise.solve().unwrap();
        let power = value(&exercise, EquationVariable::Power);
        let resistance = value(&exercise, EquationVariable::Resistance);
        assert_close(approx(&solution.answer), (power * resistance).sqrt());
        assert_eq!(solution.unit, EquationUnit::Volt);
    }
}

#[test]
fn test_combined_resistance() {
    let exercise = EquationExerciseBuilder::new()
        .set_type(EquationExerciseType::Combined)
        .build();

    if exercise.missing_variable == EquationVariable::Resistance {
        let solution = exercise.solve().unwrap();
        let power = value(&exercise, EquationVariable::Power);
        let voltage = value(&exercise, EquationVariable::Voltage);
        assert_close(approx(&solution.answer), (voltage * voltage) / power);
        assert_eq!(solution.unit, EquationUnit::Ohm);
    }
}

fn twelve_volts_two_amperes() -> EquationExercise {
    EquationExercise {
        exercise_type: EquationExerciseType::OhmsLaw,
        missing_variable: EquationVariable::Resistance,
        given_variables: vec![
            (EquationVariable::Voltage, 12000),
            (EquationVariable::Current, 2000),
        ],
        correct_answer: Some(EquationAnswer::Quotient { num: 6, den: 1 }),
    }
}

#[test]
fn test_check_answer_correct() {
    let exercise = twelve_volts_two_amperes();
    assert_eq!(exercise.check_answer(6000, None), Some(true));
}

#[test]
fn test_check_answer_incorrect() {
    let exercise = twelve_volts_two_amperes();
    assert_eq!(exercise.check_answer(5000, None), Some(false));
}

#[test]
fn test_check_answer_precision() {
    let exercise = twelve_volts_two_amperes();
    assert_eq!(exercise.check_answer(6050, Some(100)), Some(true));
    assert_eq!(exercise.check_answer(6150, Some(100)), Some(false));
}

#[test]
fn test_build_exercise() {
    let exercise = EquationExerciseBuilder::new()
        .set_voltage_range(10000, 20000)
        .unwrap()
        .set_current_range(1000, 5000)
        .unwrap()
        .set_resistance_range(5000, 15000)
        .unwrap()
        .set_power_range(50000, 100000)
        .unwrap()
        .set_type(EquationExerciseType::OhmsLaw)
        .build();

    assert!(exercise.exercise_type == EquationExerciseType::OhmsLaw);

    for &(variable, value) in &exercise.given_variables {
        match variable {
            EquationVariable::Voltage => assert!(value >= 10000 && value <= 20000),
            EquationVariable::Current => assert!(value >= 1000 && value <= 5000),
            EquationVariable::Resistance => assert!(value >= 5000 && value <= 15000),
            EquationVariable::Power => assert!(value >= 50000 && value <= 100000),
        }
    }
}

#[test]
fn test_build_exercise_random_type() {
    let exercise = EquationExerciseBuilder::new().build_with_random_exercisetype();
    assert!(
        exercise.exercise_type == EquationExerciseType::OhmsLaw
            || exercise.exercise_type == EquationExerciseType::Power
            || exercise.exercise_type == EquationExerciseType::Combined
    );
}

#[test]
fn test_set_invalid_ranges() {
    assert!(EquationExerciseBuilder::new()
        .set_voltage_range(20000, 10000)
        .is_err());
    assert!(EquationExerciseBuilder::new()
        .set_current_range(5000, 1000)
        .is_err());
    assert!(EquationExerciseBuilder::new()
        .set_resistance_range(15000, 5000)
        .is_err());
    assert!(EquationExerciseBuilder::new()
        .set_power_range(100000, 50000)
        .is_err());
}
