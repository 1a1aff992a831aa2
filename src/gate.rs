//! The confirmation protocol that guards commands flagged as dangerous.
//!
//! A safe command runs at once. A dangerous one needs two answers: a first
//! "n" stops it without a second question; any other first answer leads to a
//! second question that names the danger, and only "y" there lets it run.
use crate::text::{same_text, trim, trimmed};
use vstd::prelude::*;

verus! {

/// What the confirmation protocol asks for next, or what it has decided.
#[derive(Clone, Copy, Debug, PartialEq, Eq, Structural)]
pub enum GateStep {
    /// Ask whether to execute.
    AskFirst,
    /// Ask whether to execute a potentially dangerous command.
    AskSecond,
    /// Run the command.
    Run,
    /// Do not run the command.
    Skip,
}

/// A first answer that refuses: "n" in either case, whitespace aside.
pub open spec fn declines(answer: Seq<char>) -> bool {
    trimmed(answer) == "n"@ || trimmed(answer) == "N"@
}

/// A second answer that accepts: "y" in either case, whitespace aside.
pub open spec fn confirms(answer: Seq<char>) -> bool {
    trimmed(answer) == "y"@ || trimmed(answer) == "Y"@
}

/// Whether the whole protocol runs a command, given the answers it gets.
pub open spec fn gate_allows(dangerous: bool, first: Seq<char>, second: Seq<char>) -> bool {
    !dangerous || (!declines(first) && confirms(second))
}

/// The first step for a command flagged `dangerous`.
pub open spec fn open_step(dangerous: bool) -> GateStep {
    if dangerous {
        GateStep::AskFirst
    } else {
        GateStep::Run
    }
}

/// The step after the first answer.
pub open spec fn first_step(answer: Seq<char>) -> GateStep {
    if declines(answer) {
        GateStep::Skip
    } else {
        GateStep::AskSecond
    }
}

/// The step after the second answer.
pub open spec fn second_step(answer: Seq<char>) -> GateStep {
    if confirms(answer) {
        GateStep::Run
    } else {
        GateStep::Skip
    }
}

/// The protocol's first step: a safe command runs without a question.
pub fn gate_open(dangerous: bool) -> (r: GateStep)
    ensures
        r == open_step(dangerous),
{
    if dangerous {
        GateStep::AskFirst
    } else {
        GateStep::Run
    }
}

/// The step after the first answer: a refusal ends the protocol.
pub fn gate_after_first(answer: &str) -> (r: GateStep)
    ensures
        r == first_step(answer@),
{
    let a = trim(answer);
    if same_text(a, "n") || same_text(a, "N") {
        GateStep::Skip
    } else {
        GateStep::AskSecond
    }
}

/// The step after the second answer: only an explicit "y" runs.
pub fn gate_after_second(answer: &str) -> (r: GateStep)
    ensures
        r == second_step(answer@),
{
    let a = trim(answer);
    if same_text(a, "y") || same_text(a, "Y") {
        GateStep::Run
    } else {
        GateStep::Skip
    }
}

/// Following the steps: a safe command runs without a question; after a
/// first "n" the command is skipped and no second question comes; after any
/// other first answer the second question comes, and the command runs
/// exactly when the second answer is "y" in either case. The command runs
/// exactly when `gate_allows` holds.
pub proof fn lemma_gate_protocol(dangerous: bool, first: Seq<char>, second: Seq<char>)
    ensures
        !dangerous ==> open_step(dangerous) == GateStep::Run,
        dangerous ==> open_step(dangerous) == GateStep::AskFirst,
        declines(first) ==> first_step(first) == GateStep::Skip,
        !declines(first) ==> first_step(first) == GateStep::AskSecond,
        second_step(second) == GateStep::Run <==> trimmed(second) == "y"@ || trimmed(second)
            == "Y"@,
        gate_allows(dangerous, first, second) <==> (open_step(dangerous) == GateStep::Run || (
        first_step(first) == GateStep::AskSecond && second_step(second) == GateStep::Run)),
{
}

/// The whole protocol at once, for callers that hold both answers.
pub fn should_execute(dangerous: bool, first: &str, second: &str) -> (r: bool)
    ensures
        r == gate_allows(dangerous, first@, second@),
{
    match gate_open(dangerous) {
        GateStep::Run => true,
        _ => match gate_after_first(first) {
            GateStep::Skip => false,
            _ => gate_after_second(second) == GateStep::Run,
        },
    }
}

} // verus!
