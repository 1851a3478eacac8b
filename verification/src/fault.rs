//! Faults and machine status, as plain values.

use vstd::prelude::*;

verus! {

/// Where a fault arose.
#[derive(Clone, Copy, Debug, PartialEq, Eq, Structural)]
pub enum FaultKind {
    /// The initial state could not be turned into a machine.
    Construction,
    /// The machine asked for account or block data that it had not been given.
    DataRequired,
    /// The machine exited with an error that belongs on chain.
    OnChain,
    /// The machine exited because it does not support an operation, or the
    /// library kept an instruction from it that it cannot be trusted with.
    NotSupported,
    /// The run was still going when the rounds that it was given were used
    /// up.
    Unfinished,
}

/// A fault raised while building or running a machine.
#[derive(Clone, Debug, PartialEq, Eq)]
pub struct Fault {
    pub kind: FaultKind,
    /// The interpreter's own words for the fault, or the name of the
    /// malformed field for a construction fault.
    pub detail: String,
}

/// The mathematical value of a [`Fault`].
pub struct FaultView {
    pub kind: FaultKind,
    pub detail: Seq<char>,
}

impl View for Fault {
    type V = FaultView;

    open spec fn view(&self) -> FaultView {
        FaultView { kind: self.kind, detail: self.detail@ }
    }
}

impl Fault {
    /// Whether the fault is a request for data that the machine lacks.
    pub fn is_request(&self) -> (b: bool)
        ensures
            b == (self.kind == FaultKind::DataRequired),
    {
        match self.kind {
            FaultKind::DataRequired => true,
            _ => false,
        }
    }
}

/// What a machine reports of itself between two instructions.
#[derive(Clone, Debug, PartialEq, Eq)]
pub enum Status {
    /// Instructions remain to be executed.
    Running,
    /// The machine has stopped without an error.
    ExitedOk,
    /// The machine has stopped on an on-chain error.
    ExitedErr(String),
    /// The machine has stopped on an operation that it does not support.
    ExitedNotSupported(String),
}

/// The mathematical value of a [`Status`].
pub enum StatusView {
    Running,
    ExitedOk,
    ExitedErr(Seq<char>),
    ExitedNotSupported(Seq<char>),
}

impl View for Status {
    type V = StatusView;

    open spec fn view(&self) -> StatusView {
        match *self {
            Status::Running => StatusView::Running,
            Status::ExitedOk => StatusView::ExitedOk,
            Status::ExitedErr(e) => StatusView::ExitedErr(e@),
            Status::ExitedNotSupported(e) => StatusView::ExitedNotSupported(e@),
        }
    }
}

} // verus!
