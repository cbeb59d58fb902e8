use fsmall::{Mealy, StepError};

#[derive(Copy, Clone, Eq, PartialEq, Debug)]
enum TestInput {
    A,
    B,
}

#[derive(Copy, Clone, Eq, PartialEq, Debug)]
enum TestOutput {
    X,
    Y,
}

const MEALY_TRANS: [(u8, TestInput, u8); 2] = [(0, TestInput::A, 1), (1, TestInput::B, 0)];

const MEALY_OUTS: [(u8, TestInput, TestOutput); 2] = [
    (0, TestInput::A, TestOutput::X),
    (1, TestInput::B, TestOutput::Y),
];

#[test]
fn mealy_valid_transition() {
    let mut fsm = Mealy::new(0, &MEALY_TRANS, &MEALY_OUTS);
    assert_eq!(fsm.step(TestInput::A), Ok(TestOutput::X));
    assert_eq!(fsm.current_state(), 1);
}

#[test]
fn mealy_invalid_transition() {
    let mut fsm = Mealy::new(0, &MEALY_TRANS, &MEALY_OUTS);
    assert_eq!(fsm.step(TestInput::B), Err(StepError::NoTransition));
    assert_eq!(fsm.current_state(), 0);
}

#[test]
fn mealy_reset() {
    let mut fsm = Mealy::new(0, &MEALY_TRANS, &MEALY_OUTS);
    fsm.step(TestInput::A).unwrap();
    assert_eq!(fsm.current_state(), 1);
    fsm.reset(0);
    assert_eq!(fsm.current_state(), 0);
}

#[test]
fn mealy_round_trip() {
    let mut fsm = Mealy::new(0, &MEALY_TRANS, &MEALY_OUTS);
    assert_eq!(fsm.step(TestInput::A), Ok(TestOutput::X));
    assert_eq!(fsm.current_state(), 1);
    assert_eq!(fsm.step(TestInput::B), Ok(TestOutput::Y));
    assert_eq!(fsm.current_state(), 0);
}

const TRANS_ONLY: [(u8, TestInput, u8); 2] = [(0, TestInput::A, 1), (0, TestInput::B, 3)];

const OUTS_PARTIAL: [(u8, TestInput, TestOutput); 1] = [(0, TestInput::A, TestOutput::X)];

#[test]
fn mealy_missing_output_commits_nothing() {
    let mut fsm = Mealy::new(0, &TRANS_ONLY, &OUTS_PARTIAL);
    assert_eq!(fsm.step(TestInput::B), Err(StepError::NoOutput));
    assert_eq!(fsm.current_state(), 0);
    assert_eq!(fsm.step(TestInput::A), Ok(TestOutput::X));
    assert_eq!(fsm.current_state(), 1);
}

#[test]
fn mealy_output_keyed_on_state_before_step() {
    // The output table has an entry for the destination state only, so the
    // lookup against the state before the step finds nothing.
    const TRANS: [(u8, TestInput, u8); 1] = [(0, TestInput::A, 1)];
    const OUTS: [(u8, TestInput, TestOutput); 1] = [(1, TestInput::A, TestOutput::Y)];
    let mut fsm = Mealy::new(0, &TRANS, &OUTS);
    assert_eq!(fsm.step(TestInput::A), Err(StepError::NoOutput));
    assert_eq!(fsm.current_state(), 0);
}

#[test]
fn mealy_first_match_wins() {
    const TRANS: [(u8, TestInput, u8); 2] = [(0, TestInput::A, 4), (0, TestInput::A, 9)];
    const OUTS: [(u8, TestInput, TestOutput); 2] = [
        (0, TestInput::A, TestOutput::Y),
        (0, TestInput::A, TestOutput::X),
    ];
    let mut fsm = Mealy::new(0, &TRANS, &OUTS);
    assert_eq!(fsm.step(TestInput::A), Ok(TestOutput::Y));
    assert_eq!(fsm.current_state(), 4);
}

#[test]
fn mealy_reset_after_failure_and_to_unknown_state() {
    let mut fsm = Mealy::new(0, &MEALY_TRANS, &MEALY_OUTS);
    assert_eq!(fsm.step(TestInput::B), Err(StepError::NoTransition));
    fsm.reset(255);
    assert_eq!(fsm.current_state(), 255);
    assert_eq!(fsm.step(TestInput::A), Err(StepError::NoTransition));
    assert_eq!(fsm.current_state(), 255);
}

#[test]
fn mealy_empty_tables() {
    const TRANS: [(u8, TestInput, u8); 0] = [];
    const OUTS: [(u8, TestInput, TestOutput); 0] = [];
    let mut fsm = Mealy::new(7, &TRANS, &OUTS);
    assert_eq!(fsm.step(TestInput::A), Err(StepError::NoTransition));
    assert_eq!(fsm.current_state(), 7);
}
