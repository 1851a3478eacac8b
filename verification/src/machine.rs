//! The interpreter behind contracts.
//!
//! Verus does not read SputnikVM. This module holds one machine of it in an
//! opaque struct, names what each of its operations yields, and states in
//! the contract of one small wrapper per operation how the operation relates
//! to those names. Nothing in this file is proved; everything outside it is
//! proved from these contracts.
//!
//! The wrappers take it that the interpreter does not panic on a machine
//! that they admit. It is written not to: it checks an instruction before
//! it executes it, and reports what it finds as the machine's status or as a
//! request for data. Two of its sums have no check:
//!
//! - `CALLDATALOAD` adds up to 31 to its index as a `usize`, which overflows
//!   on an index within 31 of `usize::MAX`; three units of gas pay for the
//!   instruction. Such a step is a [`hazardous`] one, and [`Machine::step`]
//!   leaves it out. The interpreter's own run loop, `VM::fire`, has no way
//!   around it, so the library does not call it: it makes a run of single
//!   steps.
//! - Memory reads and checks add up to 32 to the index as a 256-bit number,
//!   after the memory up to the index has been charged for. The sum
//!   overflows from index 2^256 - 32 on, and the charge for that much memory
//!   is above 2^252 gas. A machine is made only by [`Machine::build`], from
//!   a state whose gas is below 2^248.
//!
//! A step may still use up the memory of the process, where the gas pays for
//! reading or writing far more memory than there is.

use bigint::{H160, U256};
use sputnikvm::{Context, HeaderParams, SeqContextVM, VMStatus, VMTestPatch, VM};
use vstd::prelude::*;
use crate::fault::{Status, StatusView};
use crate::text::{be_value, spent};
use crate::vector::{InitialState, InitialStateView};

verus! {

/// A SputnikVM machine for one execution context, under the rules that the
/// interpreter keeps for conformance tests.
#[verifier::external_body]
pub struct Machine {
    vm: SeqContextVM<VMTestPatch>,
}

/// The machine that `ContextVM::new` builds from an initial state.
pub uninterp spec fn machine_new(s: InitialStateView) -> Machine;

/// What `VM::status` reports of a machine.
pub uninterp spec fn machine_status(m: Machine) -> StatusView;

/// The `Debug` form of what `VM::peek_opcode` reports of a machine.
pub uninterp spec fn machine_opcode(m: Machine) -> Seq<char>;

/// What one call of `VM::step` does to a machine: the machine that it
/// leaves, and the `Debug` form of the data request that it returns, if any.
pub uninterp spec fn machine_step(m: Machine) -> (Machine, Option<Seq<char>>);

/// The stack of the machine's current runtime from the top down, each item
/// as 32 big-endian bytes.
pub uninterp spec fn machine_stack(m: Machine) -> Seq<Seq<u8>>;

/// The machine's out value.
pub uninterp spec fn machine_out(m: Machine) -> Seq<u8>;

/// The gas still available to the machine, as 32 big-endian bytes.
pub uninterp spec fn machine_gas(m: Machine) -> Seq<u8>;

/// The machine has instructions left to execute.
pub open spec fn running(m: Machine) -> bool {
    machine_status(m) is Running
}

/// The `Debug` form of the opcode whose execution may overflow.
pub open spec fn hazard_opcode() -> Seq<char> {
    "Some(CALLDATALOAD)"@
}

/// The instruction is one that the interpreter cannot be trusted with:
/// `CALLDATALOAD` with an index, the top of the stack, within 31 of
/// `usize::MAX`. Whether the machine has the gas for the instruction is not
/// asked.
pub open spec fn hazard_of(opcode: Seq<char>, top: Seq<u8>) -> bool {
    opcode == hazard_opcode() && usize::MAX - 31 < be_value(top) <= usize::MAX
}

/// The next step of the machine is one that the interpreter cannot be
/// trusted with.
pub open spec fn hazardous(m: Machine) -> bool {
    machine_stack(m).len() > 0 && hazard_of(machine_opcode(m), machine_stack(m)[0])
}

/// Calls `U256::saturating_sub` on the numbers that two strings of at most
/// 32 bytes denote, most significant byte first, and writes the result out
/// with `U256::to_big_endian`. The contract says what the subtraction is
/// documented to be: it saturates at zero. Longer strings make the
/// conversion panic, so they are left out.
#[verifier::external_body]
pub(crate) fn gas_spent(before: &Vec<u8>, after: &Vec<u8>) -> (w: Vec<u8>)
    requires
        before@.len() <= 32,
        after@.len() <= 32,
    ensures
        w@.len() == 32,
        be_value(w@) == spent(be_value(before@), be_value(after@)),
{
    let left = U256::from(before.as_slice()).saturating_sub(U256::from(after.as_slice()));
    let mut bytes = vec![0u8; 32];
    left.to_big_endian(&mut bytes);
    bytes
}

impl Machine {
    /// Builds a machine with `ContextVM::new`, from a `Context` and
    /// `HeaderParams` filled field by field from `s`. The apparent value is
    /// the value, and the call is neither a system call nor static. The
    /// contract claims that equal states give equal machines. Quantities of
    /// more than 32 bytes make the conversion panic, so they are left out,
    /// and so is gas from 2^248 on, which the interpreter is not to be
    /// trusted with.
    #[verifier::external_body]
    pub(crate) fn build(s: InitialState) -> (m: Machine)
        requires
            s@.well_formed(),
        ensures
            m == machine_new(s@),
    {
        Machine { vm: SeqContextVM::new(
            Context {
                address: H160::from_slice(&s.address), caller: H160::from_slice(&s.caller),
                origin: H160::from_slice(&s.origin), code: s.code.into(),
                data: s.data.into(), gas_limit: s.gas.as_slice().into(),
                gas_price: s.gas_price.as_slice().into(), value: s.value.as_slice().into(),
                apprent_value: s.value.as_slice().into(), is_system: false, is_static: false,
            },
            HeaderParams {
                beneficiary: H160::from_slice(&s.coinbase), timestamp: s.timestamp,
                number: s.number.as_slice().into(), difficulty: s.difficulty.as_slice().into(),
                gas_limit: s.gas_limit.as_slice().into(),
            },
        ) }
    }

    /// Calls `VM::status` and hands the result on, an error in its `Debug`
    /// form. The contract claims only that the result is
    /// [`machine_status`] of the machine.
    #[verifier::external_body]
    pub(crate) fn status(&self) -> (s: Status)
        ensures
            s@ == machine_status(*self),
    {
        match self.vm.status() {
            VMStatus::Running => Status::Running,
            VMStatus::ExitedOk => Status::ExitedOk,
            VMStatus::ExitedErr(e) => Status::ExitedErr(format!("{:?}", e)),
            VMStatus::ExitedNotSupported(e) => Status::ExitedNotSupported(format!("{:?}", e)),
        }
    }

    /// Calls `VM::peek_opcode` and hands on the `Debug` form of what it
    /// returns: `Some` and the opcode while the current runtime is running,
    /// `None` otherwise. The contract claims only that the result is
    /// [`machine_opcode`] of the machine.
    #[verifier::external_body]
    pub(crate) fn next_opcode(&self) -> (s: String)
        ensures
            s@ == machine_opcode(*self),
    {
        format!("{:?}", self.vm.peek_opcode())
    }

    /// Calls `VM::step` and hands the result on, a data request in its
    /// `Debug` form. The contract claims only that the machine left and the
    /// request are [`machine_step`] of the machine before. A hazardous step
    /// may panic, so it is left out.
    #[verifier::external_body]
    pub(crate) fn step(&mut self) -> (r: Result<(), String>)
        requires
            !hazardous(*old(self)),
        ensures
            *final(self) == machine_step(*old(self)).0,
            match r {
                Ok(_) => machine_step(*old(self)).1 is None,
                Err(e) => machine_step(*old(self)).1 == Some(e@),
            },
    {
        self.vm.step().map_err(|e| format!("{:?}", e))
    }

    /// Calls `Stack::len` on the stack of the current runtime. The contract
    /// claims that this is the length of [`machine_stack`].
    #[verifier::external_body]
    pub(crate) fn stack_len(&self) -> (n: usize)
        ensures
            n == machine_stack(*self).len(),
    {
        self.vm.current_state().stack.len()
    }

    /// Calls `Stack::peek` on the stack of the current runtime, where index
    /// 0 is the top, and writes the item out with `U256::to_big_endian`. The
    /// contract claims that this is item `i` of [`machine_stack`], of 32
    /// bytes. `Stack::peek` fails at or beyond the stack's length, so such
    /// an index is left out.
    #[verifier::external_body]
    pub(crate) fn stack_peek(&self, i: usize) -> (w: Vec<u8>)
        requires
            i < machine_stack(*self).len(),
        ensures
            w@ == machine_stack(*self)[i as int],
            w@.len() == 32,
    {
        let word: U256 = self.vm.current_state().stack.peek(i).unwrap().into();
        let mut bytes = vec![0u8; 32];
        word.to_big_endian(&mut bytes);
        bytes
    }

    /// Calls `VM::out` and copies the bytes. The contract claims only that
    /// they are [`machine_out`] of the machine.
    #[verifier::external_body]
    pub(crate) fn out(&self) -> (bytes: Vec<u8>)
        ensures
            bytes@ == machine_out(*self),
    {
        self.vm.out().to_vec()
    }

    /// Calls `VM::available_gas` and writes the result out with
    /// `U256::to_big_endian`. The contract claims that these 32 bytes are
    /// [`machine_gas`] of the machine.
    #[verifier::external_body]
    pub(crate) fn available_gas(&self) -> (w: Vec<u8>)
        ensures
            w@ == machine_gas(*self),
            w@.len() == 32,
    {
        let gas: U256 = self.vm.available_gas().into();
        let mut bytes = vec![0u8; 32];
        gas.to_big_endian(&mut bytes);
        bytes
    }
}

} // verus!
