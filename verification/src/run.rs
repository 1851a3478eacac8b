//! Running a machine: construction, guarded steps, and runs of a limited
//! number of steps, with what they come to.

use vstd::prelude::*;
use vstd::string::StringExecFns;
use crate::fault::{Fault, FaultKind, FaultView, Status, StatusView};
use crate::machine::{
    hazard_of, hazardous, machine_new, machine_status, machine_step, running, Machine,
};
use crate::text::{exact_value, same_text};
use crate::vector::{InitialState, InitialStateView};

verus! {

/// The construction fault that an initial state gives rise to, if any.
pub open spec fn construction_fault(s: InitialStateView) -> Option<FaultView> {
    match s.malformed_field() {
        Some(field) => Some(FaultView { kind: FaultKind::Construction, detail: field }),
        None => None,
    }
}

/// What an operation came to, from the status that it left and the data
/// request that it returned: the request is a fault, and so is an exit on an
/// error.
pub open spec fn fault_in(status: StatusView, request: Option<Seq<char>>) -> Option<FaultView> {
    match request {
        Some(detail) => Some(FaultView { kind: FaultKind::DataRequired, detail }),
        None => match status {
            StatusView::ExitedErr(detail) => Some(FaultView { kind: FaultKind::OnChain, detail }),
            StatusView::ExitedNotSupported(detail) => Some(
                FaultView { kind: FaultKind::NotSupported, detail },
            ),
            _ => None,
        },
    }
}

/// What an operation came to, from the data request that it returned and the
/// machine that it left.
pub open spec fn outcome(m: Machine, request: Option<Seq<char>>) -> Option<FaultView> {
    fault_in(machine_status(m), request)
}

/// The fault that stands for a step which the library keeps from the
/// interpreter.
pub open spec fn hazard_fault() -> FaultView {
    FaultView { kind: FaultKind::NotSupported, detail: "CallDataIndexNotSupported"@ }
}

/// The fault that stands for a run which was not given rounds enough.
pub open spec fn unfinished_fault() -> FaultView {
    FaultView { kind: FaultKind::Unfinished, detail: "Unfinished"@ }
}

/// The machine that a guarded step leaves of `m`: a hazardous step is not
/// made, and leaves the machine as it is.
pub open spec fn stepped(m: Machine) -> Machine {
    if hazardous(m) {
        m
    } else {
        machine_step(m).0
    }
}

/// What a guarded step of `m` comes to.
pub open spec fn step_outcome(m: Machine) -> Option<FaultView> {
    if hazardous(m) {
        Some(hazard_fault())
    } else {
        outcome(machine_step(m).0, machine_step(m).1)
    }
}

/// The machine after `n` guarded steps.
pub open spec fn after_steps(m: Machine, n: nat) -> Machine
    decreases n,
{
    if n == 0 {
        m
    } else {
        after_steps(stepped(m), (n - 1) as nat)
    }
}

/// The machine that a run of at most `k` steps leaves of `m`. The run goes
/// on while the machine has instructions left, and ends with the first step
/// that comes to a fault.
pub open spec fn run_for(m: Machine, k: nat) -> Machine
    decreases k,
{
    if k == 0 || !running(m) {
        m
    } else if step_outcome(m) is Some {
        stepped(m)
    } else {
        run_for(stepped(m), (k - 1) as nat)
    }
}

/// The number of steps that a run of at most `k` steps makes from `m`.
pub open spec fn steps_taken(m: Machine, k: nat) -> nat
    decreases k,
{
    if k == 0 || !running(m) {
        0
    } else if step_outcome(m) is Some {
        1
    } else {
        1 + steps_taken(stepped(m), (k - 1) as nat)
    }
}

/// What a run of at most `k` steps from `m` comes to: the fault of its last
/// step, or the fault in the status of a machine that had stopped before,
/// or that the run is unfinished, where the machine is still running after
/// `k` steps without a fault.
pub open spec fn run_outcome(m: Machine, k: nat) -> Option<FaultView>
    decreases k,
{
    if !running(m) {
        outcome(m, None)
    } else if k == 0 {
        Some(unfinished_fault())
    } else if step_outcome(m) is Some {
        step_outcome(m)
    } else {
        run_outcome(stepped(m), (k - 1) as nat)
    }
}

/// A run from `m` stops of itself after exactly `n` steps: each of them is
/// made on a running machine and goes through, and the last leaves the
/// machine stopped.
pub open spec fn stops_after(m: Machine, n: nat) -> bool
    decreases n,
{
    if n == 0 {
        !running(m)
    } else {
        &&& running(m)
        &&& !hazardous(m)
        &&& machine_step(m).1 is None
        &&& stops_after(stepped(m), (n - 1) as nat)
    }
}

/// A `Result` says what `o` says.
pub open spec fn shows(r: Result<(), Fault>, o: Option<FaultView>) -> bool {
    match r {
        Ok(_) => o is None,
        Err(fault) => o == Some(fault@),
    }
}

/// A run takes exactly the steps that it takes: it leaves the machine that
/// as many guarded steps leave, and never more steps than it was given.
pub proof fn lemma_run_is_steps(m: Machine, k: nat)
    ensures
        steps_taken(m, k) <= k,
        run_for(m, k) == after_steps(m, steps_taken(m, k)),
    decreases k,
{
    if k == 0 || !running(m) {
    } else if step_outcome(m) is Some {
        assert(after_steps(stepped(m), 0) == stepped(m));
    } else {
        lemma_run_is_steps(stepped(m), (k - 1) as nat);
    }
}

/// A run ends in one of three ways: the machine has stopped, or the last
/// step came to a fault, or the run is unfinished.
pub proof fn lemma_run_ends(m: Machine, k: nat)
    ensures
        !running(run_for(m, k)) || run_outcome(m, k) is Some,
        run_outcome(m, k) == Some(unfinished_fault()) ==> running(run_for(m, k)) && steps_taken(
            m,
            k,
        ) == k,
    decreases k,
{
    if k == 0 || !running(m) {
    } else if step_outcome(m) is Some {
    } else {
        lemma_run_ends(stepped(m), (k - 1) as nat);
    }
}

/// A run that is given at least the steps after which the machine stops of
/// itself takes exactly those steps, leaves the machine stopped, and comes
/// to what the status of that machine says.
pub proof fn lemma_run_to_stop(m: Machine, n: nat, k: nat)
    requires
        stops_after(m, n),
        n <= k,
    ensures
        steps_taken(m, k) == n,
        run_for(m, k) == after_steps(m, n),
        !running(run_for(m, k)),
        run_outcome(m, k) == outcome(run_for(m, k), None),
    decreases n,
{
    if n > 0 {
        let next = stepped(m);
        assert(after_steps(m, n) == after_steps(next, (n - 1) as nat));
        if step_outcome(m) is Some {
            // the step left the machine on an error, so the run stops here
            assert(!running(next));
            lemma_stopped_stays(next, (n - 1) as nat);
            assert(after_steps(next, 0) == next);
        } else {
            lemma_run_to_stop(next, (n - 1) as nat, (k - 1) as nat);
        }
    }
}

/// A machine that has stopped stops of itself after no step only.
pub proof fn lemma_stopped_stays(m: Machine, n: nat)
    requires
        !running(m),
        stops_after(m, n),
    ensures
        n == 0,
{
}

/// A run from a machine that has stopped makes no step.
pub proof fn lemma_run_when_stopped(m: Machine, k: nat)
    requires
        !running(m),
    ensures
        run_for(m, k) == m,
        steps_taken(m, k) == 0,
        run_outcome(m, k) == outcome(m, None),
{
}

/// Renders what an operation came to, from the status that the machine
/// reported after it and the data request that it returned.
pub fn fault_of(status: Status, request: Result<(), String>) -> (r: Result<(), Fault>)
    ensures
        shows(
            r,
            fault_in(
                status@,
                match request {
                    Ok(_) => None,
                    Err(detail) => Some(detail@),
                },
            ),
        ),
{
    match request {
        Err(detail) => Err(Fault { kind: FaultKind::DataRequired, detail }),
        Ok(_) => match status {
            Status::ExitedErr(detail) => Err(Fault { kind: FaultKind::OnChain, detail }),
            Status::ExitedNotSupported(detail) => Err(
                Fault { kind: FaultKind::NotSupported, detail },
            ),
            _ => Ok(()),
        },
    }
}

/// Whether an instruction is one that the interpreter cannot be trusted
/// with, from the `Debug` form of its opcode and the top of the stack.
pub fn is_hazard(opcode: &str, top: &Vec<u8>) -> (b: bool)
    ensures
        b == hazard_of(opcode@, top@),
{
    if !same_text(opcode, "Some(CALLDATALOAD)") {
        return false;
    }
    match exact_value(top) {
        Some(index) => {
            let bound: u64 = usize::MAX as u64;
            index <= bound && index > bound - 31
        },
        None => false,
    }
}

/// The fault that is reported of a hazardous step.
pub fn hazard() -> (fault: Fault)
    ensures
        fault@ == hazard_fault(),
{
    Fault { kind: FaultKind::NotSupported, detail: String::from_str("CallDataIndexNotSupported") }
}

/// The fault that is reported of an unfinished run.
pub fn unfinished() -> (fault: Fault)
    ensures
        fault@ == unfinished_fault(),
{
    Fault { kind: FaultKind::Unfinished, detail: String::from_str("Unfinished") }
}

impl Machine {
    /// Builds the machine for an initial state, or says which field of the
    /// state is malformed.
    pub fn create(s: &InitialState) -> (r: Result<Machine, Fault>)
        ensures
            match r {
                Ok(m) => s@.well_formed() && m == machine_new(s@),
                Err(fault) => construction_fault(s@) == Some(fault@),
            },
    {
        match s.check() {
            Ok(_) => Ok(Machine::build(s.copy())),
            Err(fault) => Err(fault),
        }
    }

    /// Whether the machine has no more instructions to execute.
    pub fn stopped(&self) -> (b: bool)
        ensures
            b == !running(*self),
    {
        match self.status() {
            Status::Running => false,
            _ => true,
        }
    }

    /// Whether the next step is one that the interpreter cannot be trusted
    /// with.
    pub fn at_hazard(&self) -> (b: bool)
        ensures
            b == hazardous(*self),
    {
        if self.stack_len() == 0 {
            return false;
        }
        let opcode = self.next_opcode();
        let top = self.stack_peek(0);
        is_hazard(opcode.as_str(), &top)
    }

    /// Executes one instruction, and says what the step came to: a fault
    /// where it asked for data or made the machine exit on an error. A
    /// hazardous instruction is not executed: the machine stays as it is,
    /// and the step comes to a fault that says so.
    pub fn advance(&mut self) -> (r: Result<(), Fault>)
        ensures
            *final(self) == stepped(*old(self)),
            shows(r, step_outcome(*old(self))),
    {
        if self.at_hazard() {
            return Err(hazard());
        }
        let request = self.step();
        fault_of(self.status(), request)
    }

    /// Runs the machine for at most `limit` steps: while it has instructions
    /// left, and until a step comes to a fault. Says what the run came to:
    /// the fault of its last step, or that it is unfinished where the
    /// machine is still running after `limit` steps.
    pub fn run(&mut self, limit: u64) -> (r: Result<(), Fault>)
        ensures
            *final(self) == run_for(*old(self), limit as nat),
            shows(r, run_outcome(*old(self), limit as nat)),
    {
        let mut left: u64 = limit;
        let ghost start = *self;
        loop
            invariant
                start == *old(self),
                run_for(start, limit as nat) == run_for(*self, left as nat),
                run_outcome(start, limit as nat) == run_outcome(*self, left as nat),
            decreases left,
        {
            if self.stopped() {
                return fault_of(self.status(), Ok(()));
            }
            if left == 0 {
                return Err(unfinished());
            }
            let result = self.advance();
            if result.is_err() {
                return result;
            }
            left = left - 1;
        }
    }
}

} // verus!
