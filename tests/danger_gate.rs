use nexsh::gate::{gate_after_first, gate_after_second, gate_open, should_execute, GateStep};

#[test]
fn safe_command_runs_without_question() {
    assert_eq!(gate_open(false), GateStep::Run);
    assert!(should_execute(false, "n", "n"));
}

#[test]
fn dangerous_command_asks_first() {
    assert_eq!(gate_open(true), GateStep::AskFirst);
}

#[test]
fn first_no_skips_without_second_question() {
    assert_eq!(gate_after_first("n"), GateStep::Skip);
    assert_eq!(gate_after_first(" N "), GateStep::Skip);
    assert!(!should_execute(true, "n", "y"));
}

#[test]
fn other_first_answer_asks_second() {
    assert_eq!(gate_after_first("y"), GateStep::AskSecond);
    assert_eq!(gate_after_first(""), GateStep::AskSecond);
    assert_eq!(gate_after_first("no"), GateStep::AskSecond);
}

#[test]
fn second_yes_runs_anything_else_skips() {
    assert_eq!(gate_after_second("y"), GateStep::Run);
    assert_eq!(gate_after_second("Y\n"), GateStep::Run);
    assert_eq!(gate_after_second("yes"), GateStep::Skip);
    assert_eq!(gate_after_second(""), GateStep::Skip);
    assert_eq!(gate_after_second("n"), GateStep::Skip);
    assert!(should_execute(true, "", "Y"));
    assert!(!should_execute(true, "y", "yes"));
}
