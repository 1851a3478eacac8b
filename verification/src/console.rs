//! The commands of the step-debugging console: what each does to the machine
//! and what it prints.

use vstd::prelude::*;
use vstd::string::StringExecFns;
use crate::fault::{Fault, FaultView};
use crate::machine::{
    gas_spent, machine_gas, machine_opcode, machine_out, machine_stack, running, Machine,
};
use crate::run::{
    after_steps, lemma_run_to_stop, run_for, run_outcome, step_outcome, stepped, steps_taken,
    stops_after, unfinished_fault,
};
use crate::text::{
    be_value, decimal, decimal_text, gas_numeral, gas_text, hex, hex_text, list, prefixed_hex_text,
    push_line, push_lines, same_text, spent,
};

verus! {

/// A command of the console.
#[derive(Clone, Copy, Debug, PartialEq, Eq, Structural)]
pub enum Command {
    /// Execute one instruction, unless the machine has stopped.
    Step,
    /// Run the machine until it has stopped or a step comes to a fault.
    Fire,
    /// Run the machine instruction by instruction, and trace each.
    FireDebug,
    /// Show what the next instruction costs, without executing it.
    Gas,
    /// Show the machine's out value.
    Out,
    /// Show the stack.
    PrintStack,
    /// Anything else.
    Unknown,
}

/// The command that a line stands for: the line is one of six words, to the
/// letter, or it is unknown.
pub open spec fn command_of(line: Seq<char>) -> Command {
    if line == "step"@ {
        Command::Step
    } else if line == "fire"@ {
        Command::Fire
    } else if line == "fire debug"@ {
        Command::FireDebug
    } else if line == "gas"@ {
        Command::Gas
    } else if line == "out"@ {
        Command::Out
    } else if line == "print stack"@ {
        Command::PrintStack
    } else {
        Command::Unknown
    }
}

/// The six words of the console, letter by letter.
pub proof fn lemma_command_words()
    ensures
        "step"@ == seq!['s', 't', 'e', 'p'],
        "fire"@ == seq!['f', 'i', 'r', 'e'],
        "fire debug"@ == seq!['f', 'i', 'r', 'e', ' ', 'd', 'e', 'b', 'u', 'g'],
        "gas"@ == seq!['g', 'a', 's'],
        "out"@ == seq!['o', 'u', 't'],
        "print stack"@ == seq!['p', 'r', 'i', 'n', 't', ' ', 's', 't', 'a', 'c', 'k'],
{
    reveal_strlit("step");
    reveal_strlit("fire");
    reveal_strlit("fire debug");
    reveal_strlit("gas");
    reveal_strlit("out");
    reveal_strlit("print stack");
    assert("step"@ =~= seq!['s', 't', 'e', 'p']);
    assert("fire"@ =~= seq!['f', 'i', 'r', 'e']);
    assert("fire debug"@ =~= seq!['f', 'i', 'r', 'e', ' ', 'd', 'e', 'b', 'u', 'g']);
    assert("gas"@ =~= seq!['g', 'a', 's']);
    assert("out"@ =~= seq!['o', 'u', 't']);
    assert("print stack"@ =~= seq!['p', 'r', 'i', 'n', 't', ' ', 's', 't', 'a', 'c', 'k']);
}

/// Reads a command from a line.
pub fn parse_command(line: &str) -> (c: Command)
    ensures
        c == command_of(line@),
{
    if same_text(line, "step") {
        Command::Step
    } else if same_text(line, "fire") {
        Command::Fire
    } else if same_text(line, "fire debug") {
        Command::FireDebug
    } else if same_text(line, "gas") {
        Command::Gas
    } else if same_text(line, "out") {
        Command::Out
    } else if same_text(line, "print stack") {
        Command::PrintStack
    } else {
        Command::Unknown
    }
}

/// How a result is written: as Rust writes a `Result` for debugging, the
/// fault in the interpreter's words.
pub open spec fn result_text(o: Option<FaultView>) -> Seq<char> {
    match o {
        None => "Ok(())"@,
        Some(f) => "Err("@ + f.detail + ")"@,
    }
}

/// The line for one item of the stack: its index from the top, from 0, in
/// decimal, a colon and a space, and the item in hexadecimal.
pub open spec fn stack_entry(i: nat, item: Seq<u8>) -> Seq<char> {
    decimal(i) + ": "@ + hex(be_value(item))
}

/// The stack, one line for each item from the top down.
pub open spec fn stack_dump(stack: Seq<Seq<u8>>) -> Seq<Seq<char>> {
    Seq::new(stack.len(), |i: int| stack_entry(i as nat, stack[i]))
}

/// The gas that the next step takes from machine `m`: what the machine has
/// available before the step, less what it has available after. A step
/// that makes the machine exit on an error takes all the gas that was left,
/// so that is its cost; a step that is not made, or that only asks for
/// data, costs nothing.
pub open spec fn step_cost(m: Machine) -> nat {
    spent(be_value(machine_gas(m)), be_value(machine_gas(stepped(m))))
}

/// The line that the command `step` prints of an instruction and of what
/// its execution came to.
pub open spec fn step_report(opcode: Seq<char>, result: Option<FaultView>) -> Seq<char> {
    "Running "@ + opcode + " ... "@ + result_text(result) + "."@
}

/// The line that the command `gas` prints of a step: its cost in
/// hexadecimal, or the fault that it comes to.
pub open spec fn cost_report_of(result: Option<FaultView>, cost: nat) -> Seq<char> {
    if result is Some {
        result_text(result)
    } else {
        "0x"@ + hex(cost)
    }
}

/// What one round of a trace prints: the instruction that is next, what it
/// costs, the stack before it, what the step came to, and an empty line.
pub open spec fn round_of(
    opcode: Seq<char>,
    cost: nat,
    stack: Seq<Seq<char>>,
    result: Option<FaultView>,
) -> Seq<Seq<char>> {
    seq!["Running "@ + opcode + " ..."@, "Cost: "@ + gas_numeral(cost)] + stack + seq![
        "Result: "@ + result_text(result),
        Seq::<char>::empty(),
    ]
}

/// What one round of a trace prints of machine `m`.
pub open spec fn round_lines(m: Machine) -> Seq<Seq<char>> {
    round_of(machine_opcode(m), step_cost(m), stack_dump(machine_stack(m)), step_outcome(m))
}

/// What exactly `n` rounds print from machine `m`, one guarded step after
/// the other.
pub open spec fn rounds(m: Machine, n: nat) -> Seq<Seq<char>>
    decreases n,
{
    if n == 0 {
        Seq::empty()
    } else {
        round_lines(m) + rounds(stepped(m), (n - 1) as nat)
    }
}

/// What a trace of at most `k` rounds prints from machine `m`. The trace
/// goes on while the machine has instructions left, and ends with the round
/// whose step comes to a fault.
pub open spec fn trace_lines(m: Machine, k: nat) -> Seq<Seq<char>>
    decreases k,
{
    if k == 0 || !running(m) {
        Seq::empty()
    } else if step_outcome(m) is Some {
        round_lines(m)
    } else {
        round_lines(m) + trace_lines(stepped(m), (k - 1) as nat)
    }
}

/// What the command `gas` prints on machine `m`: the cost of the next
/// instruction in hexadecimal, or what stands in the way of the query: the
/// machine has stopped, or the instruction faults.
pub open spec fn cost_report(m: Machine) -> Seq<char> {
    if !running(m) {
        "Stopped"@
    } else {
        cost_report_of(step_outcome(m), step_cost(m))
    }
}

/// What a command prints on machine `m`, where a run or a trace is given at
/// most `limit` rounds.
pub open spec fn command_lines(m: Machine, c: Command, limit: nat) -> Seq<Seq<char>> {
    match c {
        Command::Step => if running(m) {
            seq![step_report(machine_opcode(m), step_outcome(m))]
        } else {
            seq!["Stopped"@]
        },
        Command::Fire => seq![result_text(run_outcome(m, limit))],
        Command::FireDebug => trace_lines(m, limit),
        Command::Gas => seq![cost_report(m)],
        Command::Out => seq![list(machine_out(m))],
        Command::PrintStack => stack_dump(machine_stack(m)),
        Command::Unknown => seq!["Unknown command."@],
    }
}

/// The machine that a command leaves of `m`. Only stepping and running
/// change a machine, and a machine that has stopped is not stepped. A run
/// and a trace make the same steps.
pub open spec fn command_machine(m: Machine, c: Command, limit: nat) -> Machine {
    match c {
        Command::Step => if running(m) {
            stepped(m)
        } else {
            m
        },
        Command::Fire => run_for(m, limit),
        Command::FireDebug => run_for(m, limit),
        _ => m,
    }
}

/// A step on a machine that has stopped changes nothing and reports that
/// the machine has stopped.
pub proof fn lemma_step_when_stopped(m: Machine, limit: nat)
    requires
        !running(m),
    ensures
        command_machine(m, Command::Step, limit) == m,
        command_lines(m, Command::Step, limit) == seq!["Stopped"@],
{
}

/// A machine that has stopped stays as it is, whatever command it is
/// given: what it shows is a snapshot.
pub proof fn lemma_stopped_is_final(m: Machine, c: Command, limit: nat)
    requires
        !running(m),
    ensures
        command_machine(m, c, limit) == m,
{
}

/// A trace prints one round for each step that it makes, and nothing else.
pub proof fn lemma_trace_is_rounds(m: Machine, k: nat)
    ensures
        trace_lines(m, k) == rounds(m, steps_taken(m, k)),
    decreases k,
{
    if k == 0 || !running(m) {
    } else if step_outcome(m) is Some {
        assert(rounds(stepped(m), 0) =~= Seq::<Seq<char>>::empty());
        assert(rounds(m, 1) =~= round_lines(m));
    } else {
        lemma_trace_is_rounds(stepped(m), (k - 1) as nat);
    }
}

/// The last round of a trace reports what the run comes to. Where the run
/// is unfinished, the last step went through, and the round says so.
pub proof fn lemma_trace_reports_run(m: Machine, k: nat)
    requires
        running(m),
        k > 0,
    ensures
        trace_lines(m, k).len() >= 4,
        trace_lines(m, k)[trace_lines(m, k).len() - 2] == "Result: "@ + result_text(
            if run_outcome(m, k) == Some(unfinished_fault()) {
                None
            } else {
                run_outcome(m, k)
            },
        ),
        trace_lines(m, k).last() == Seq::<char>::empty(),
    decreases k,
{
    let next = stepped(m);
    let round = round_lines(m);
    assert(round.len() >= 4);
    assert(round[round.len() - 2] == "Result: "@ + result_text(step_outcome(m)));
    assert(round.last() == Seq::<char>::empty());
    if step_outcome(m) is Some {
        assert(step_outcome(m) != Some(unfinished_fault()));
    } else if running(next) && k > 1 {
        lemma_trace_reports_run(next, (k - 1) as nat);
        let rest = trace_lines(next, (k - 1) as nat);
        assert(trace_lines(m, k) == round + rest);
        assert((round + rest)[(round + rest).len() - 2] == rest[rest.len() - 2]);
        assert((round + rest).last() == rest.last());
    } else {
        assert(trace_lines(next, (k - 1) as nat) =~= Seq::<Seq<char>>::empty());
        assert(trace_lines(m, k) =~= round);
    }
}

/// The command `fire debug` ends as the command `fire` does, whatever the
/// machine and the rounds that are given: it leaves the same machine, and
/// the last result that it reports, if it reports any, is the result that
/// `fire` reports, unless the rounds were used up.
pub proof fn lemma_fire_debug_as_fire(m: Machine, limit: nat)
    ensures
        command_machine(m, Command::FireDebug, limit) == command_machine(m, Command::Fire, limit),
        running(m) && limit > 0 && run_outcome(m, limit) != Some(unfinished_fault()) ==> ({
            let trace = command_lines(m, Command::FireDebug, limit);
            trace.len() >= 4 && trace[trace.len() - 2] == "Result: "@ + command_lines(
                m,
                Command::Fire,
                limit,
            )[0]
        }),
        !running(m) || limit == 0 ==> command_lines(m, Command::FireDebug, limit).len() == 0,
{
    if running(m) && limit > 0 {
        lemma_trace_reports_run(m, limit);
    }
}

/// On a machine that stops of itself after exactly `n` steps, and with
/// rounds enough, the command `fire debug` prints exactly `n` rounds, makes
/// exactly `n` steps, and leaves the machine stopped.
pub proof fn lemma_trace_to_stop(m: Machine, n: nat, limit: nat)
    requires
        stops_after(m, n),
        n <= limit,
    ensures
        command_lines(m, Command::FireDebug, limit) == rounds(m, n),
        steps_taken(m, limit) == n,
        command_machine(m, Command::FireDebug, limit) == after_steps(m, n),
        !running(command_machine(m, Command::FireDebug, limit)),
{
    lemma_run_to_stop(m, n, limit);
    lemma_trace_is_rounds(m, limit);
}

/// Renders a result as [`result_text`] says.
pub fn result_string(r: &Result<(), Fault>) -> (s: String)
    ensures
        s@ == result_text(
            match *r {
                Ok(_) => None,
                Err(fault) => Some(fault@),
            },
        ),
{
    match r {
        Ok(_) => String::from_str("Ok(())"),
        Err(fault) => {
            let mut s = String::from_str("Err(");
            s.append(fault.detail.as_str());
            s.append(")");
            s
        },
    }
}

/// Renders the line for item `i` of the stack.
pub fn stack_line(i: u64, item: &Vec<u8>) -> (s: String)
    ensures
        s@ == stack_entry(i as nat, item@),
{
    let mut line = decimal_text(i);
    line.append(": ");
    let digits = hex_text(item);
    line.append(digits.as_str());
    line
}

/// Renders the line that the command `step` prints, from the `Debug` form
/// of the opcode and what the step came to.
pub fn step_line(opcode: &str, result: &Result<(), Fault>) -> (s: String)
    ensures
        s@ == step_report(
            opcode@,
            match *result {
                Ok(_) => None,
                Err(fault) => Some(fault@),
            },
        ),
{
    let mut line = String::from_str("Running ");
    line.append(opcode);
    line.append(" ... ");
    let outcome = result_string(result);
    line.append(outcome.as_str());
    line.append(".");
    line
}

/// Renders the line that the command `gas` prints, from what the step came
/// to and the gas that it took, in big-endian bytes.
pub fn cost_text(result: &Result<(), Fault>, cost: &Vec<u8>) -> (s: String)
    ensures
        s@ == cost_report_of(
            match *result {
                Ok(_) => None,
                Err(fault) => Some(fault@),
            },
            be_value(cost@),
        ),
{
    match result {
        Err(_) => result_string(result),
        Ok(_) => prefixed_hex_text(cost),
    }
}

/// Renders one round of a trace, from the `Debug` form of the opcode, the
/// gas that the step took, in big-endian bytes, the lines of the stack
/// before the step, and what the step came to.
pub fn round_text(opcode: &str, cost: &Vec<u8>, stack: Vec<String>, result: &Result<(), Fault>) -> (lines:
    Vec<String>)
    ensures
        lines.deep_view() == round_of(
            opcode@,
            be_value(cost@),
            stack.deep_view(),
            match *result {
                Ok(_) => None,
                Err(fault) => Some(fault@),
            },
        ),
{
    let mut lines: Vec<String> = Vec::new();
    let mut running_line = String::from_str("Running ");
    running_line.append(opcode);
    running_line.append(" ...");
    let mut cost_line = String::from_str("Cost: ");
    let amount = gas_text(cost);
    cost_line.append(amount.as_str());
    let mut result_line = String::from_str("Result: ");
    let outcome = result_string(result);
    result_line.append(outcome.as_str());
    let ghost shown = stack.deep_view();
    push_line(&mut lines, running_line);
    push_line(&mut lines, cost_line);
    push_lines(&mut lines, stack);
    push_line(&mut lines, result_line);
    push_line(&mut lines, String::new());
    assert(lines.deep_view() =~= seq![
        "Running "@ + opcode@ + " ..."@,
        "Cost: "@ + gas_numeral(be_value(cost@)),
    ] + shown + seq![
        "Result: "@ + result_text(
            match *result {
                Ok(_) => None,
                Err(fault) => Some(fault@),
            },
        ),
        Seq::<char>::empty(),
    ]);
    lines
}

impl Machine {
    /// The lines that show the stack, from the top down.
    pub fn stack_lines(&self) -> (lines: Vec<String>)
        ensures
            lines.deep_view() == stack_dump(machine_stack(*self)),
    {
        let mut lines: Vec<String> = Vec::new();
        let n = self.stack_len();
        let mut i: usize = 0;
        while i < n
            invariant
                i <= n,
                n == machine_stack(*self).len(),
                lines.deep_view() == stack_dump(machine_stack(*self)).take(i as int),
            decreases n - i,
        {
            let item = self.stack_peek(i);
            push_line(&mut lines, stack_line(i as u64, &item));
            assert(lines.deep_view() =~= stack_dump(machine_stack(*self)).take(i + 1));
            i += 1;
        }
        assert(lines.deep_view() =~= stack_dump(machine_stack(*self)));
        lines
    }

    /// Runs the machine instruction by instruction for at most `limit`
    /// rounds, and returns the trace. A round shows the instruction that is
    /// next, what it costs and the stack before it, and what the step came
    /// to. The trace ends when the machine has stopped, or with the round
    /// whose step comes to a fault. It makes the steps that a run of the
    /// same limit makes.
    pub fn trace(&mut self, limit: u64) -> (lines: Vec<String>)
        ensures
            lines.deep_view() == trace_lines(*old(self), limit as nat),
            *final(self) == run_for(*old(self), limit as nat),
    {
        let mut lines: Vec<String> = Vec::new();
        let mut left: u64 = limit;
        let ghost start = *self;
        assert(lines.deep_view() =~= Seq::<Seq<char>>::empty());
        while left > 0 && !self.stopped()
            invariant
                trace_lines(start, limit as nat) == lines.deep_view() + trace_lines(
                    *self,
                    left as nat,
                ),
                run_for(start, limit as nat) == run_for(*self, left as nat),
            decreases left,
        {
            let ghost shown = lines.deep_view();
            let ghost before = *self;
            let opcode = self.next_opcode();
            let gas_before = self.available_gas();
            let stack = self.stack_lines();
            let result = self.advance();
            let gas_after = self.available_gas();
            let cost = gas_spent(&gas_before, &gas_after);
            let round = round_text(opcode.as_str(), &cost, stack, &result);
            push_lines(&mut lines, round);
            assert(lines.deep_view() =~= shown + round_lines(before));
            if result.is_err() {
                left = 0;
            } else {
                left = left - 1;
            }
        }
        lines
    }

    /// What the command `gas` prints of this machine. The interpreter tells
    /// the cost of an instruction only by executing it, so the machine is
    /// stepped and used up: the caller hands in a machine that it can spare.
    pub fn cost_line(self) -> (line: String)
        ensures
            line@ == cost_report(self),
    {
        let mut machine = self;
        if machine.stopped() {
            return String::from_str("Stopped");
        }
        let gas_before = machine.available_gas();
        let result = machine.advance();
        let gas_after = machine.available_gas();
        let cost = gas_spent(&gas_before, &gas_after);
        cost_text(&result, &cost)
    }
}

} // verus!
