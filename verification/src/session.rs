//! A console session: one machine, and the inputs that reach it until the
//! operator ends the session.

use vstd::pervasive::unreached;
use vstd::prelude::*;
use vstd::string::StringExecFns;
use crate::console::{
    command_lines, command_machine, command_of, parse_command, result_string, step_line, Command,
};
use crate::fault::Fault;
use crate::machine::{machine_new, running, Machine};
use crate::run::construction_fault;
use crate::text::{list_text, push_line, push_lines};
use crate::vector::{InitialState, TestVector};

verus! {

/// What reading one line from the operator gave.
#[derive(Clone, Debug, PartialEq, Eq)]
pub enum Input {
    /// A line of text.
    Line(String),
    /// The operator interrupted the session.
    Interrupted,
    /// The input has ended.
    Eof,
    /// Reading failed; the words say how.
    Failed(String),
}

/// The mathematical value of an [`Input`].
pub enum InputView {
    Line(Seq<char>),
    Interrupted,
    Eof,
    Failed(Seq<char>),
}

impl View for Input {
    type V = InputView;

    open spec fn view(&self) -> InputView {
        match *self {
            Input::Line(text) => InputView::Line(text@),
            Input::Interrupted => InputView::Interrupted,
            Input::Eof => InputView::Eof,
            Input::Failed(text) => InputView::Failed(text@),
        }
    }
}

/// Where a session stands.
#[derive(Clone, Copy, Debug, PartialEq, Eq, Structural)]
pub enum Phase {
    /// The machine has instructions left, and the session takes commands.
    Ready,
    /// The machine has stopped; the session still takes commands.
    Stopped,
    /// The operator has ended the session.
    Terminated,
}

/// The state of a session, as a value: its machine, whether the operator
/// has ended it, and the rounds that it gives a run or a trace.
pub struct SessionView {
    pub machine: Machine,
    pub ended: bool,
    pub round_limit: nat,
}

impl SessionView {
    /// Where the session stands. Only the end of the session is a state of
    /// its own; whether it is ready or stopped is read off the machine.
    pub open spec fn phase(self) -> Phase {
        if self.ended {
            Phase::Terminated
        } else if running(self.machine) {
            Phase::Ready
        } else {
            Phase::Stopped
        }
    }

    /// The session after a command.
    pub open spec fn after_command(self, command: Command) -> SessionView {
        SessionView { machine: command_machine(self.machine, command, self.round_limit), ..self }
    }

    /// What the session prints on an input. A line is a command. An
    /// interrupt, the end of the input and a failure to read each print one
    /// line that tells them apart. A session that has ended prints nothing.
    pub open spec fn lines_on(self, input: InputView) -> Seq<Seq<char>> {
        if self.ended {
            Seq::empty()
        } else {
            match input {
                InputView::Line(text) => command_lines(
                    self.machine,
                    command_of(text),
                    self.round_limit,
                ),
                InputView::Interrupted => seq!["CTRL-C"@],
                InputView::Eof => seq!["CTRL-D"@],
                InputView::Failed(text) => seq!["Error: "@ + text],
            }
        }
    }

    /// The session after an input. A line is a command and never ends the
    /// session; anything else ends it and leaves the machine as it is.
    pub open spec fn after(self, input: InputView) -> SessionView {
        if self.ended {
            self
        } else {
            match input {
                InputView::Line(text) => self.after_command(command_of(text)),
                _ => SessionView { ended: true, ..self },
            }
        }
    }

    /// What the session prints on a row of inputs, one after the other.
    pub open spec fn transcript(self, inputs: Seq<InputView>) -> Seq<Seq<char>>
        decreases inputs.len(),
    {
        if inputs.len() == 0 {
            Seq::empty()
        } else {
            self.lines_on(inputs.first()) + self.after(inputs.first()).transcript(
                inputs.drop_first(),
            )
        }
    }
}

/// The session that starts on a machine.
pub open spec fn session_on(machine: Machine, round_limit: nat) -> SessionView {
    SessionView { machine, ended: false, round_limit }
}

/// The machine that a row of commands leaves of `m`, one after the other.
pub open spec fn replayed(m: Machine, commands: Seq<Command>, limit: nat) -> Machine
    decreases commands.len(),
{
    if commands.len() == 0 {
        m
    } else {
        command_machine(replayed(m, commands.drop_last(), limit), commands.last(), limit)
    }
}

/// A command never ends a session: after a line, the session has ended only
/// if it had before.
pub proof fn lemma_lines_never_terminate(s: SessionView, text: Seq<char>)
    ensures
        s.after(InputView::Line(text)).ended == s.ended,
        s.after(InputView::Line(text)).phase() is Terminated <==> s.phase() is Terminated,
{
}

/// An interrupt, the end of the input and a failure to read end a session,
/// and leave its machine as it is.
pub proof fn lemma_signals_terminate(s: SessionView, input: InputView)
    requires
        !(input is Line),
    ensures
        s.after(input).phase() is Terminated,
        s.after(input).machine == s.machine,
{
}

/// A step in a session whose machine has stopped leaves the session as it
/// is and prints that the machine has stopped.
pub proof fn lemma_step_in_stopped_session(s: SessionView)
    requires
        s.phase() is Stopped,
    ensures
        s.after(InputView::Line("step"@)) == s,
        s.lines_on(InputView::Line("step"@)) == seq!["Stopped"@],
{
}

/// A session is left the same by the command `fire debug` as by the command
/// `fire`: whatever command comes next prints the same after either.
pub proof fn lemma_sessions_end_alike(s: SessionView, next: Command)
    ensures
        s.after_command(Command::FireDebug) == s.after_command(Command::Fire),
        command_lines(s.after_command(Command::FireDebug).machine, next, s.round_limit)
            == command_lines(s.after_command(Command::Fire).machine, next, s.round_limit),
{
}

/// A session that has ended prints nothing more, whatever it is given.
pub proof fn lemma_ended_is_silent(s: SessionView, inputs: Seq<InputView>)
    requires
        s.ended,
    ensures
        s.transcript(inputs) == Seq::<Seq<char>>::empty(),
    decreases inputs.len(),
{
    if inputs.len() > 0 {
        lemma_ended_is_silent(s, inputs.drop_first());
    }
}

/// A console session on one machine. Besides the machine the session keeps
/// the state that the machine started from and the commands that have
/// changed it since: from them it can bring a second machine to the same
/// point, and ask that one what the first is not to be asked.
pub struct Session {
    machine: Machine,
    origin: InitialState,
    changes: Vec<Command>,
    round_limit: u64,
    ended: bool,
}

impl View for Session {
    type V = SessionView;

    closed spec fn view(&self) -> SessionView {
        SessionView {
            machine: self.machine,
            ended: self.ended,
            round_limit: self.round_limit as nat,
        }
    }
}

/// The prompt that the console shows before it reads a line.
pub fn prompt() -> (s: &'static str)
    ensures
        s@ == ">> "@,
{
    ">> "
}

impl Session {
    /// The session's record is true: its machine is the one that the
    /// recorded commands leave of the machine for the recorded state.
    pub closed spec fn well_formed(&self) -> bool {
        &&& self.origin@.well_formed()
        &&& self.machine == replayed(
            machine_new(self.origin@),
            self.changes@,
            self.round_limit as nat,
        )
    }

    /// Starts a session on the machine for an initial state. A run or a
    /// trace in this session is given at most `round_limit` rounds.
    pub fn open(state: &InitialState, round_limit: u64) -> (r: Result<Session, Fault>)
        ensures
            match r {
                Ok(session) => state@.well_formed() && session.well_formed() && session@
                    == session_on(machine_new(state@), round_limit as nat),
                Err(fault) => construction_fault(state@) == Some(fault@),
            },
    {
        match Machine::create(state) {
            Ok(machine) => Ok(
                Session {
                    machine,
                    origin: state.copy(),
                    changes: Vec::new(),
                    round_limit,
                    ended: false,
                },
            ),
            Err(fault) => Err(fault),
        }
    }

    /// Where the session stands.
    pub fn phase(&self) -> (p: Phase)
        ensures
            p == self@.phase(),
    {
        if self.ended {
            Phase::Terminated
        } else if self.machine.stopped() {
            Phase::Stopped
        } else {
            Phase::Ready
        }
    }

    /// A second machine at the point where the session's machine is, made by
    /// carrying out the recorded commands on a new machine.
    fn twin(&self) -> (m: Machine)
        requires
            self.well_formed(),
        ensures
            m == self@.machine,
    {
        let mut twin = match Machine::create(&self.origin) {
            Ok(machine) => machine,
            Err(_) => unreached(),
        };
        let ghost start = twin;
        let mut i: usize = 0;
        while i < self.changes.len()
            invariant
                i <= self.changes.len(),
                twin == replayed(start, self.changes@.take(i as int), self.round_limit as nat),
            decreases self.changes.len() - i,
        {
            assert(self.changes@.take(i + 1).drop_last() =~= self.changes@.take(i as int));
            match self.changes[i] {
                Command::Step => {
                    if !twin.stopped() {
                        let _ = twin.advance();
                    }
                },
                Command::Fire => {
                    let _ = twin.run(self.round_limit);
                },
                Command::FireDebug => {
                    let _ = twin.trace(self.round_limit);
                },
                _ => {},
            }
            i += 1;
        }
        assert(self.changes@.take(i as int) =~= self.changes@);
        twin
    }

    /// Carries out one command on the session's machine, and returns what it
    /// prints.
    pub fn execute(&mut self, command: Command) -> (lines: Vec<String>)
        requires
            old(self).well_formed(),
        ensures
            final(self).well_formed(),
            lines.deep_view() == command_lines(old(self)@.machine, command, old(self)@.round_limit),
            final(self)@ == old(self)@.after_command(command),
            command == Command::Step && !running(old(self)@.machine) ==> final(self)@ == old(self)@
                && lines.deep_view() == seq!["Stopped"@],
    {
        let mut lines: Vec<String> = Vec::new();
        let ghost changes = self.changes@;
        match command {
            Command::Step => {
                if self.machine.stopped() {
                    push_line(&mut lines, String::from_str("Stopped"));
                } else {
                    let opcode = self.machine.next_opcode();
                    let result = self.machine.advance();
                    push_line(&mut lines, step_line(opcode.as_str(), &result));
                    self.changes.push(command);
                    assert(self.changes@.drop_last() =~= changes);
                }
            },
            Command::Fire => {
                let result = self.machine.run(self.round_limit);
                push_line(&mut lines, result_string(&result));
                self.changes.push(command);
                assert(self.changes@.drop_last() =~= changes);
            },
            Command::FireDebug => {
                let trace = self.machine.trace(self.round_limit);
                push_lines(&mut lines, trace);
                self.changes.push(command);
                assert(self.changes@.drop_last() =~= changes);
            },
            Command::Gas => {
                if self.machine.stopped() {
                    push_line(&mut lines, String::from_str("Stopped"));
                } else {
                    let twin = self.twin();
                    push_line(&mut lines, twin.cost_line());
                }
            },
            Command::Out => {
                let out = self.machine.out();
                push_line(&mut lines, list_text(&out));
            },
            Command::PrintStack => {
                let stack = self.machine.stack_lines();
                push_lines(&mut lines, stack);
            },
            Command::Unknown => {
                push_line(&mut lines, String::from_str("Unknown command."));
            },
        }
        assert(lines.deep_view() =~= command_lines(
            old(self)@.machine,
            command,
            old(self)@.round_limit,
        ));
        lines
    }

    /// Takes one input from the operator, and returns what the session
    /// prints on it.
    pub fn handle(&mut self, input: &Input) -> (lines: Vec<String>)
        requires
            old(self).well_formed(),
        ensures
            final(self).well_formed(),
            lines.deep_view() == old(self)@.lines_on(input@),
            final(self)@ == old(self)@.after(input@),
    {
        let mut lines: Vec<String> = Vec::new();
        if self.ended {
            return lines;
        }
        match input {
            Input::Line(text) => {
                let command = parse_command(text.as_str());
                return self.execute(command);
            },
            Input::Interrupted => {
                push_line(&mut lines, String::from_str("CTRL-C"));
            },
            Input::Eof => {
                push_line(&mut lines, String::from_str("CTRL-D"));
            },
            Input::Failed(text) => {
                let mut line = String::from_str("Error: ");
                line.append(text.as_str());
                push_line(&mut lines, line);
            },
        }
        self.ended = true;
        lines
    }
}

/// The row of the values of a row of inputs.
pub open spec fn input_views(inputs: Seq<Input>) -> Seq<InputView> {
    Seq::new(inputs.len(), |i: int| inputs[i]@)
}

/// Runs a whole console session on the machine of a test vector: takes
/// the inputs one after the other until the operator ends the session, and
/// returns everything that the session prints.
pub fn debug_transaction(vector: &TestVector, inputs: &Vec<Input>, round_limit: u64) -> (r: Result<
    Vec<String>,
    Fault,
>)
    ensures
        match r {
            Ok(lines) => vector@.initial_state.well_formed() && lines.deep_view() == session_on(
                machine_new(vector@.initial_state),
                round_limit as nat,
            ).transcript(input_views(inputs@)),
            Err(fault) => construction_fault(vector@.initial_state) == Some(fault@),
        },
{
    let mut session = match Session::open(&vector.initial_state, round_limit) {
        Ok(session) => session,
        Err(fault) => {
            return Err(fault);
        },
    };
    let ghost start = session@;
    let ghost all = input_views(inputs@);
    let mut lines: Vec<String> = Vec::new();
    let mut i: usize = 0;
    assert(all.skip(0) =~= all);
    while i < inputs.len() && !session.ended
        invariant
            i <= inputs.len(),
            session.well_formed(),
            all == input_views(inputs@),
            start.transcript(all) == lines.deep_view() + session@.transcript(all.skip(i as int)),
        decreases inputs.len() - i,
    {
        assert(all.skip(i as int).drop_first() =~= all.skip(i + 1));
        let more = session.handle(&inputs[i]);
        push_lines(&mut lines, more);
        i += 1;
    }
    proof {
        if session.ended {
            lemma_ended_is_silent(session@, all.skip(i as int));
        }
    }
    Ok(lines)
}

} // verus!
