use gaslighter::fault::{Fault, FaultKind};
use gaslighter::session::{debug_transaction, prompt, Input, Phase, Session};
use gaslighter::vector::{InitialState, TestVector};

/// PUSH1 1, PUSH1 2, ADD, STOP
const ADD_AND_STOP: [u8; 6] = [0x60, 0x01, 0x60, 0x02, 0x01, 0x00];

fn state(code: &[u8]) -> InitialState {
    InitialState {
        address: vec![0x0f; 20],
        caller: vec![0xca; 20],
        origin: vec![0xca; 20],
        code: code.to_vec(),
        data: vec![],
        gas: vec![0x01, 0x86, 0xa0],
        gas_price: vec![1],
        value: vec![],
        coinbase: vec![0xc0; 20],
        timestamp: 1,
        number: vec![0],
        difficulty: vec![1, 0],
        gas_limit: vec![0x0f, 0x42, 0x40],
    }
}

fn vector(initial_state: InitialState) -> TestVector {
    TestVector { initial_state, expected_output: None }
}

fn line(text: &str) -> Input {
    Input::Line(text.to_string())
}

fn lines(text: &[&str]) -> Vec<String> {
    text.iter().map(|s| s.to_string()).collect()
}

#[test]
fn prompt_is_two_angles_and_a_space() {
    assert_eq!(prompt(), ">> ");
}

#[test]
fn session_starts_ready() {
    let s = Session::open(&state(&ADD_AND_STOP), 10).unwrap();
    assert_eq!(s.phase(), Phase::Ready);
    let s = Session::open(&state(&[]), 10).unwrap();
    assert_eq!(s.phase(), Phase::Ready);
}

#[test]
fn session_on_a_malformed_state_does_not_open() {
    let mut bad = state(&ADD_AND_STOP);
    bad.coinbase = vec![];
    match Session::open(&bad, 10) {
        Err(f) => assert_eq!(f, Fault { kind: FaultKind::Construction, detail: "coinbase".to_string() }),
        Ok(_) => panic!("a session opened on a state without a beneficiary"),
    }
    assert_eq!(
        debug_transaction(&vector(bad), &vec![line("step")], 10),
        Err(Fault { kind: FaultKind::Construction, detail: "coinbase".to_string() })
    );
}

#[test]
fn lines_are_commands() {
    let mut s = Session::open(&state(&ADD_AND_STOP), 10).unwrap();
    assert_eq!(s.handle(&line("step")), lines(&["Running Some(PUSH(1)) ... Ok(())."]));
    assert_eq!(s.handle(&line("print stack")), lines(&["0: 1"]));
    assert_eq!(s.handle(&line("gas")), lines(&["0x3"]));
    assert_eq!(s.handle(&line("out")), lines(&["[]"]));
    assert_eq!(s.handle(&line("help")), lines(&["Unknown command."]));
    assert_eq!(s.phase(), Phase::Ready);
    assert_eq!(s.handle(&line("fire")), lines(&["Ok(())"]));
    assert_eq!(s.phase(), Phase::Stopped);
    assert_eq!(s.handle(&line("step")), lines(&["Stopped"]));
    assert_eq!(s.handle(&line("fire debug")), Vec::<String>::new());
    assert_eq!(s.phase(), Phase::Stopped);
}

#[test]
fn interrupt_ends_the_session() {
    let mut s = Session::open(&state(&ADD_AND_STOP), 10).unwrap();
    assert_eq!(s.handle(&Input::Interrupted), lines(&["CTRL-C"]));
    assert_eq!(s.phase(), Phase::Terminated);
}

#[test]
fn end_of_input_ends_the_session() {
    let mut s = Session::open(&state(&ADD_AND_STOP), 10).unwrap();
    s.handle(&line("fire"));
    assert_eq!(s.handle(&Input::Eof), lines(&["CTRL-D"]));
    assert_eq!(s.phase(), Phase::Terminated);
}

#[test]
fn failure_to_read_ends_the_session() {
    let mut s = Session::open(&state(&ADD_AND_STOP), 10).unwrap();
    assert_eq!(s.handle(&Input::Failed("Io(broken pipe)".to_string())), lines(&["Error: Io(broken pipe)"]));
    assert_eq!(s.phase(), Phase::Terminated);
}

#[test]
fn session_that_has_ended_takes_nothing_more() {
    let mut s = Session::open(&state(&ADD_AND_STOP), 10).unwrap();
    s.handle(&Input::Eof);
    for input in [line("step"), line("fire"), Input::Interrupted, Input::Eof, Input::Failed("x".to_string())] {
        assert_eq!(s.handle(&input), Vec::<String>::new());
        assert_eq!(s.phase(), Phase::Terminated);
    }
}

#[test]
fn no_command_ends_the_session() {
    let mut s = Session::open(&state(&ADD_AND_STOP), 10).unwrap();
    for text in ["step", "fire", "fire debug", "gas", "out", "print stack", "exit", "quit", "CTRL-C", ""] {
        s.handle(&line(text));
        assert!(s.phase() != Phase::Terminated);
    }
}

#[test]
fn whole_session_is_transcribed() {
    let inputs = vec![
        line("step"),
        line("step"),
        line("print stack"),
        line("what"),
        line("fire debug"),
        line("step"),
        Input::Interrupted,
        line("step"),
        Input::Eof,
    ];
    assert_eq!(
        debug_transaction(&vector(state(&ADD_AND_STOP)), &inputs, 100),
        Ok(lines(&[
            "Running Some(PUSH(1)) ... Ok(()).",
            "Running Some(PUSH(1)) ... Ok(()).",
            "0: 2",
            "1: 1",
            "Unknown command.",
            "Running Some(ADD) ...",
            "Cost: 3",
            "0: 2",
            "1: 1",
            "Result: Ok(())",
            "",
            "Running Some(STOP) ...",
            "Cost: 0",
            "0: 3",
            "Result: Ok(())",
            "",
            "Stopped",
            "CTRL-C",
        ]))
    );
}

#[test]
fn session_without_input_prints_nothing() {
    assert_eq!(debug_transaction(&vector(state(&ADD_AND_STOP)), &vec![], 100), Ok(vec![]));
}

#[test]
fn session_that_is_not_ended_is_transcribed_to_its_last_input() {
    let inputs = vec![line("gas"), line("out")];
    assert_eq!(debug_transaction(&vector(state(&ADD_AND_STOP)), &inputs, 100), Ok(lines(&["0x3", "[]"])));
}
