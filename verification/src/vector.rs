//! Test vectors: an initial machine state and the output that is expected
//! of it.

use vstd::prelude::*;
use vstd::string::StringExecFns;
use crate::fault::{Fault, FaultKind};

verus! {

/// The state from which a machine starts, as plain values. Addresses are 20
/// bytes; quantities are big-endian numbers of at most 32 bytes, and the gas
/// is a number of at most 31.
///
/// The state holds the execution context and the block header, and no
/// accounts: the machine starts without any, and a run that needs one ends
/// with a request for data.
#[derive(Clone, Debug, PartialEq, Eq)]
pub struct InitialState {
    /// Address of the account whose code runs.
    pub address: Vec<u8>,
    /// Address that called it.
    pub caller: Vec<u8>,
    /// Address that the transaction came from.
    pub origin: Vec<u8>,
    /// The code to run.
    pub code: Vec<u8>,
    /// The input data of the call.
    pub data: Vec<u8>,
    /// Gas that the run may use, below 2^248. The interpreter adds 32 to a
    /// memory index without a check of its own, after it has charged for the
    /// memory up to the index. The sum overflows from index 2^256 - 32 on,
    /// and the charge for that much memory is above 2^252 gas: a run with
    /// less gas never gets that far.
    pub gas: Vec<u8>,
    /// Price of gas.
    pub gas_price: Vec<u8>,
    /// Value passed with the call.
    pub value: Vec<u8>,
    /// Address of the block's beneficiary.
    pub coinbase: Vec<u8>,
    /// Time stamp of the block.
    pub timestamp: u64,
    /// Number of the block.
    pub number: Vec<u8>,
    /// Difficulty of the block.
    pub difficulty: Vec<u8>,
    /// Gas limit of the block.
    pub gas_limit: Vec<u8>,
}

/// The mathematical value of an [`InitialState`].
pub struct InitialStateView {
    pub address: Seq<u8>,
    pub caller: Seq<u8>,
    pub origin: Seq<u8>,
    pub code: Seq<u8>,
    pub data: Seq<u8>,
    pub gas: Seq<u8>,
    pub gas_price: Seq<u8>,
    pub value: Seq<u8>,
    pub coinbase: Seq<u8>,
    pub timestamp: u64,
    pub number: Seq<u8>,
    pub difficulty: Seq<u8>,
    pub gas_limit: Seq<u8>,
}

impl View for InitialState {
    type V = InitialStateView;

    open spec fn view(&self) -> InitialStateView {
        InitialStateView {
            address: self.address@,
            caller: self.caller@,
            origin: self.origin@,
            code: self.code@,
            data: self.data@,
            gas: self.gas@,
            gas_price: self.gas_price@,
            value: self.value@,
            coinbase: self.coinbase@,
            timestamp: self.timestamp,
            number: self.number@,
            difficulty: self.difficulty@,
            gas_limit: self.gas_limit@,
        }
    }
}

/// Length of an address in bytes.
pub const ADDRESS_BYTES: usize = 20;

/// Greatest length of a quantity in bytes.
pub const QUANTITY_BYTES: usize = 32;

/// Greatest number of bytes that the gas may take.
pub const GAS_BYTES: usize = 31;

/// The number that `bytes` denotes takes at most `width` bytes: every byte
/// before the last `width` is zero.
pub open spec fn fits(bytes: Seq<u8>, width: int) -> bool {
    forall|i: int| 0 <= i < bytes.len() - width ==> bytes[i] == 0
}

/// Whether the number that `bytes` denotes takes at most `width` bytes.
pub fn fits_in(bytes: &Vec<u8>, width: usize) -> (r: bool)
    ensures
        r == fits(bytes@, width as int),
{
    if bytes.len() <= width {
        return true;
    }
    let extra: usize = bytes.len() - width;
    let mut i: usize = 0;
    while i < extra
        invariant
            i <= extra,
            extra == bytes.len() - width,
            forall|j: int| 0 <= j < i ==> bytes@[j] == 0,
        decreases extra - i,
    {
        if bytes[i] != 0 {
            return false;
        }
        i += 1;
    }
    true
}

impl InitialStateView {
    /// The name of the first field, in the order of checking, that is not of
    /// the length its kind asks for.
    pub open spec fn malformed_field(self) -> Option<Seq<char>> {
        if self.address.len() != ADDRESS_BYTES {
            Some("address"@)
        } else if self.caller.len() != ADDRESS_BYTES {
            Some("caller"@)
        } else if self.origin.len() != ADDRESS_BYTES {
            Some("origin"@)
        } else if self.coinbase.len() != ADDRESS_BYTES {
            Some("coinbase"@)
        } else if self.gas.len() > QUANTITY_BYTES || !fits(self.gas, GAS_BYTES as int) {
            Some("gas"@)
        } else if self.gas_price.len() > QUANTITY_BYTES {
            Some("gas price"@)
        } else if self.value.len() > QUANTITY_BYTES {
            Some("value"@)
        } else if self.number.len() > QUANTITY_BYTES {
            Some("number"@)
        } else if self.difficulty.len() > QUANTITY_BYTES {
            Some("difficulty"@)
        } else if self.gas_limit.len() > QUANTITY_BYTES {
            Some("gas limit"@)
        } else {
            None
        }
    }

    /// Every address has 20 bytes and every quantity at most 32, and the
    /// gas is a number of at most 31 bytes.
    pub open spec fn well_formed(self) -> bool {
        self.malformed_field() is None
    }
}

impl InitialState {
    /// A copy of the state.
    pub fn copy(&self) -> (r: InitialState)
        ensures
            r@ == self@,
    {
        InitialState {
            address: self.address.clone(),
            caller: self.caller.clone(),
            origin: self.origin.clone(),
            code: self.code.clone(),
            data: self.data.clone(),
            gas: self.gas.clone(),
            gas_price: self.gas_price.clone(),
            value: self.value.clone(),
            coinbase: self.coinbase.clone(),
            timestamp: self.timestamp,
            number: self.number.clone(),
            difficulty: self.difficulty.clone(),
            gas_limit: self.gas_limit.clone(),
        }
    }

    /// Checks the lengths of the fields, and names the first that is wrong
    /// in a construction fault.
    pub fn check(&self) -> (r: Result<(), Fault>)
        ensures
            match r {
                Ok(_) => self@.well_formed(),
                Err(fault) => fault.kind == FaultKind::Construction
                    && self@.malformed_field() == Some(fault.detail@),
            },
    {
        let name: Option<&'static str> = if self.address.len() != ADDRESS_BYTES {
            Some("address")
        } else if self.caller.len() != ADDRESS_BYTES {
            Some("caller")
        } else if self.origin.len() != ADDRESS_BYTES {
            Some("origin")
        } else if self.coinbase.len() != ADDRESS_BYTES {
            Some("coinbase")
        } else if self.gas.len() > QUANTITY_BYTES || !fits_in(&self.gas, GAS_BYTES) {
            Some("gas")
        } else if self.gas_price.len() > QUANTITY_BYTES {
            Some("gas price")
        } else if self.value.len() > QUANTITY_BYTES {
            Some("value")
        } else if self.number.len() > QUANTITY_BYTES {
            Some("number")
        } else if self.difficulty.len() > QUANTITY_BYTES {
            Some("difficulty")
        } else if self.gas_limit.len() > QUANTITY_BYTES {
            Some("gas limit")
        } else {
            None
        };
        match name {
            None => Ok(()),
            Some(field) => Err(Fault { kind: FaultKind::Construction, detail: String::from_str(field) }),
        }
    }
}

/// A test vector: where the machine starts, and what it must return. A
/// vector without an expected output is one whose run must fault.
#[derive(Clone, Debug, PartialEq, Eq)]
pub struct TestVector {
    pub initial_state: InitialState,
    pub expected_output: Option<Vec<u8>>,
}

/// The mathematical value of a [`TestVector`].
pub struct TestVectorView {
    pub initial_state: InitialStateView,
    pub expected_output: Option<Seq<u8>>,
}

impl View for TestVector {
    type V = TestVectorView;

    open spec fn view(&self) -> TestVectorView {
        TestVectorView {
            initial_state: self.initial_state@,
            expected_output: match self.expected_output {
                Some(bytes) => Some(bytes@),
                None => None,
            },
        }
    }
}

} // verus!
