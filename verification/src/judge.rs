//! The judgment of one test vector.

use vstd::prelude::*;
use vstd::string::StringExecFns;
use crate::fault::{Fault, FaultKind, FaultView};
use crate::machine::{machine_new, machine_out, Machine};
use crate::run::{construction_fault, run_for, run_outcome};
use crate::text::same_bytes;
use crate::vector::{TestVector, TestVectorView};

verus! {

/// How a test vector fared.
#[derive(Clone, Debug, PartialEq, Eq)]
pub enum Verdict {
    /// The run did what the vector expects.
    Pass,
    /// The run completed, and the vector expects another output, or a fault.
    FailNoMatch,
    /// The vector could not be judged, because its machine could not be
    /// built or its run was unfinished; or it expects an output, and the run
    /// faulted.
    FailError(Fault),
}

/// The mathematical value of a [`Verdict`].
pub enum VerdictView {
    Pass,
    FailNoMatch,
    FailError(FaultView),
}

impl View for Verdict {
    type V = VerdictView;

    open spec fn view(&self) -> VerdictView {
        match *self {
            Verdict::Pass => VerdictView::Pass,
            Verdict::FailNoMatch => VerdictView::FailNoMatch,
            Verdict::FailError(fault) => VerdictView::FailError(fault@),
        }
    }
}

/// The rounds that `judge` gives a run.
pub const RUN_LIMIT: u64 = 0xffff_ffff_ffff_ffff;

/// The verdict on a run. An unfinished run cannot be judged, and is reported
/// as the failure. With an expected output, the run must complete and
/// return exactly that output: a fault is reported as the failure. With
/// none, the run must fault.
pub open spec fn verdict_for(
    expected: Option<Seq<u8>>,
    fault: Option<FaultView>,
    out: Seq<u8>,
) -> VerdictView {
    match fault {
        Some(f) => if f.kind == FaultKind::Unfinished || expected is Some {
            VerdictView::FailError(f)
        } else {
            VerdictView::Pass
        },
        None => if expected == Some(out) {
            VerdictView::Pass
        } else {
            VerdictView::FailNoMatch
        },
    }
}

/// The verdict on a vector whose run is given `limit` rounds: a construction
/// fault fails it, whatever it expects; otherwise its machine is run and the
/// run is judged against the out value that the machine is left with.
pub open spec fn judgment(v: TestVectorView, limit: nat) -> VerdictView {
    match construction_fault(v.initial_state) {
        Some(f) => VerdictView::FailError(f),
        None => {
            let m = machine_new(v.initial_state);
            verdict_for(v.expected_output, run_outcome(m, limit), machine_out(run_for(m, limit)))
        },
    }
}

/// The run of a vector's machine came to a fault of its own: it asked for
/// data, exited on an error, or met an instruction that is not supported.
pub open spec fn run_faults(v: TestVectorView, limit: nat) -> bool {
    run_outcome(machine_new(v.initial_state), limit) matches Some(f) && f.kind
        != FaultKind::Unfinished
}

/// The line that reports a verdict. A run that completed where a fault was
/// expected is told apart from one that returned the wrong output.
pub open spec fn verdict_line(v: VerdictView, expects_output: bool) -> Seq<char> {
    match v {
        VerdictView::Pass => "OK"@,
        VerdictView::FailNoMatch => if expects_output {
            "Failed (result not match)"@
        } else {
            "Failed"@
        },
        VerdictView::FailError(f) => if f.kind == FaultKind::Construction {
            "Failed (cannot construct: "@ + f.detail + ")"@
        } else {
            "Failed "@ + f.detail
        },
    }
}

/// The progress line of a test, printed before its run; when debugging, the
/// line ends there.
pub open spec fn progress_line(name: Seq<char>, debug: bool) -> Seq<char> {
    "Testing "@ + name + " ... "@ + if debug {
        "\n"@
    } else {
        Seq::<char>::empty()
    }
}

/// What a test prints: its progress, then its verdict and the end of the
/// line.
pub open spec fn report_text(name: Seq<char>, debug: bool, v: VerdictView, expects_output: bool) -> Seq<
    char,
> {
    progress_line(name, debug) + verdict_line(v, expects_output) + "\n"@
}

/// A verdict passes only in two ways: the output expected was returned by a
/// run without fault, or a fault was expected and came.
pub proof fn lemma_pass(expected: Option<Seq<u8>>, fault: Option<FaultView>, out: Seq<u8>)
    ensures
        verdict_for(expected, fault, out) is Pass <==> match expected {
            Some(bytes) => fault is None && out == bytes,
            None => fault matches Some(f) && f.kind != FaultKind::Unfinished,
        },
{
}

/// A vector that expects an output never passes where its machine cannot be
/// built or the run of its machine faults.
pub proof fn lemma_fault_never_passes(v: TestVectorView, limit: nat)
    requires
        v.expected_output is Some,
        construction_fault(v.initial_state) is Some || run_faults(v, limit),
    ensures
        !(judgment(v, limit) is Pass),
{
}

/// A vector that expects no output passes exactly where the run of its
/// machine faults: never on a run that completed without fault.
pub proof fn lemma_fault_expected(v: TestVectorView, limit: nat)
    requires
        v.expected_output is None,
    ensures
        judgment(v, limit) is Pass <==> v.initial_state.well_formed() && run_faults(v, limit),
{
}

/// Judging a vector again changes nothing: two verdicts that `judge` may
/// return on vectors of the same value are the same.
pub proof fn lemma_judge_again(a: TestVector, b: TestVector, first: Verdict, second: Verdict)
    requires
        a@ == b@,
        first@ == judgment(a@, RUN_LIMIT as nat),
        second@ == judgment(b@, RUN_LIMIT as nat),
    ensures
        first@ == second@,
{
}

/// Judges a run that has been made: `result` is what it came to and `out`
/// the out value that it left.
pub fn decide(expected: &Option<Vec<u8>>, result: Result<(), Fault>, out: &Vec<u8>) -> (v: Verdict)
    ensures
        v@ == verdict_for(
            match *expected {
                Some(bytes) => Some(bytes@),
                None => None,
            },
            match result {
                Ok(_) => None,
                Err(fault) => Some(fault@),
            },
            out@,
        ),
{
    match result {
        Err(fault) => {
            let unfinished = match fault.kind {
                FaultKind::Unfinished => true,
                _ => false,
            };
            if unfinished || expected.is_some() {
                Verdict::FailError(fault)
            } else {
                Verdict::Pass
            }
        },
        Ok(_) => match expected {
            Some(bytes) => if same_bytes(out, bytes) {
                Verdict::Pass
            } else {
                Verdict::FailNoMatch
            },
            None => Verdict::FailNoMatch,
        },
    }
}

/// Judges a test vector whose run is given at most `limit` steps: builds its
/// machine, runs it, and compares the out value with the output expected.
pub fn judge_within(vector: &TestVector, limit: u64) -> (v: Verdict)
    ensures
        v@ == judgment(vector@, limit as nat),
        vector@.expected_output is Some && (construction_fault(vector@.initial_state) is Some
            || run_faults(vector@, limit as nat)) ==> !(v@ is Pass),
        vector@.expected_output is None ==> (v@ is Pass <==> vector@.initial_state.well_formed()
            && run_faults(vector@, limit as nat)),
{
    match Machine::create(&vector.initial_state) {
        Err(fault) => Verdict::FailError(fault),
        Ok(mut machine) => {
            let result = machine.run(limit);
            let out = machine.out();
            decide(&vector.expected_output, result, &out)
        },
    }
}

/// Judges a test vector: builds its machine, runs it until it has stopped
/// or faulted, and compares the out value with the output expected. The run
/// is given [`RUN_LIMIT`] steps, more than any machine makes in a lifetime.
pub fn judge(vector: &TestVector) -> (v: Verdict)
    ensures
        v@ == judgment(vector@, RUN_LIMIT as nat),
        vector@.expected_output is Some && (construction_fault(vector@.initial_state) is Some
            || run_faults(vector@, RUN_LIMIT as nat)) ==> !(v@ is Pass),
        vector@.expected_output is None ==> (v@ is Pass <==> vector@.initial_state.well_formed()
            && run_faults(vector@, RUN_LIMIT as nat)),
{
    judge_within(vector, RUN_LIMIT)
}

/// The report of one test.
#[derive(Clone, Debug, PartialEq, Eq)]
pub struct Report {
    pub verdict: Verdict,
    /// What the test prints, progress and verdict.
    pub text: String,
}

/// Renders the line that reports a verdict.
pub fn verdict_text(v: &Verdict, expects_output: bool) -> (s: String)
    ensures
        s@ == verdict_line(v@, expects_output),
{
    match v {
        Verdict::Pass => String::from_str("OK"),
        Verdict::FailNoMatch => if expects_output {
            String::from_str("Failed (result not match)")
        } else {
            String::from_str("Failed")
        },
        Verdict::FailError(fault) => {
            if let FaultKind::Construction = fault.kind {
                let mut s = String::from_str("Failed (cannot construct: ");
                s.append(fault.detail.as_str());
                s.append(")");
                s
            } else {
                let mut s = String::from_str("Failed ");
                s.append(fault.detail.as_str());
                s
            }
        },
    }
}

/// Renders the progress line of a test.
pub fn progress_text(name: &str, debug: bool) -> (s: String)
    ensures
        s@ == progress_line(name@, debug),
{
    let mut s = String::from_str("Testing ");
    s.append(name);
    s.append(" ... ");
    if debug {
        s.append("\n");
    }
    s
}

/// Tests one vector under a name: judges it, and writes what is to be
/// printed of the test.
pub fn test_transaction(name: &str, vector: &TestVector, debug: bool) -> (r: Report)
    ensures
        r.verdict@ == judgment(vector@, RUN_LIMIT as nat),
        r.text@ == report_text(name@, debug, r.verdict@, vector@.expected_output is Some),
{
    let expects_output = vector.expected_output.is_some();
    let mut text = progress_text(name, debug);
    let verdict = judge(vector);
    let line = verdict_text(&verdict, expects_output);
    text.append(line.as_str());
    text.append("\n");
    Report { verdict, text }
}

} // verus!
