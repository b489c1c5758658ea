//! The mathematical model of a framed transaction.
//!
//! A transaction follows a fixed [`plan`]: chip-select low, the transfers of
//! its shape, chip-select high.  The operations are performed one at a time, in
//! that order, each only after the one before it has succeeded.  The first
//! failure ends the transaction at once: nothing further is performed.  In
//! particular a failed transfer leaves the select line asserted, because the
//! operation that would drive it high is never reached.  Whoever shares the bus
//! must release the line before another device is addressed.

use vstd::prelude::*;
use crate::error::{Error, SPIError};

verus! {

/// Number of bytes in a block of raw pressure, temperature and humidity samples.
pub const BME280_P_T_H_DATA_LEN: usize = 8;

/// Number of bytes in the pressure and temperature calibration block.
pub const BME280_P_T_CALIB_DATA_LEN: usize = 26;

/// Number of bytes in the humidity calibration block.
pub const BME280_H_CALIB_DATA_LEN: usize = 7;

/// What a transaction does on the bus.
#[derive(Clone, Copy, Debug, PartialEq, Eq)]
pub enum Shape {
    /// Send the register address, then clock in `len` bytes.
    Read { register: u8, len: usize },
    /// Send the register address, marked for writing, and the payload in one
    /// transfer.
    Write { register: u8, payload: u8 },
}

/// One operation on the chip-select pin or on the bus.
pub enum Operation {
    /// Drive the chip-select pin low: the device starts listening.
    SelectLow,
    /// Clock these bytes out while clocking as many in.
    Transfer(Seq<u8>),
    /// Drive the chip-select pin high: the device stops listening.
    SelectHigh,
}

/// What the pin or the bus reported of one operation.
pub enum Outcome<SPIE, PinE> {
    /// The pin was driven, or its driver failed.
    Pin(Result<(), PinE>),
    /// The bytes that were clocked in, or the failure of the bus.
    Transfer(Result<Seq<u8>, SPIE>),
}

/// The bytes clocked out in the data phase of a read: the device ignores them.
pub open spec fn blank(len: nat) -> Seq<u8> {
    Seq::new(len, |i: int| 0u8)
}

/// The register address as sent in a write: its top bit cleared.
pub open spec fn write_address(register: u8) -> u8 {
    register & 0x7f
}

/// The operations of a transaction, in the order in which they are performed.
pub open spec fn plan(shape: Shape) -> Seq<Operation> {
    match shape {
        Shape::Read { register, len } => seq![
            Operation::SelectLow,
            Operation::Transfer(seq![register]),
            Operation::Transfer(blank(len as nat)),
            Operation::SelectHigh,
        ],
        Shape::Write { register, payload } => seq![
            Operation::SelectLow,
            Operation::Transfer(seq![write_address(register), payload]),
            Operation::SelectHigh,
        ],
    }
}

/// Whether the bytes clocked in by the operation at `index` are the result of
/// the transaction: the data phase of a read.
pub open spec fn captures(shape: Shape, index: nat) -> bool {
    shape is Read && index == 2
}

impl<SPIE, PinE> Outcome<SPIE, PinE> {
    /// Whether this outcome can be what `operation` led to: a pin outcome for a
    /// pin operation, and for a transfer a failure or as many bytes as were
    /// clocked out.
    pub open spec fn answers(self, operation: Operation) -> bool {
        match (operation, self) {
            (Operation::SelectLow, Outcome::Pin(_)) => true,
            (Operation::SelectHigh, Outcome::Pin(_)) => true,
            (Operation::Transfer(sent), Outcome::Transfer(Ok(received))) => received.len()
                == sent.len(),
            (Operation::Transfer(_), Outcome::Transfer(Err(_))) => true,
            _ => false,
        }
    }

    /// The failure that this outcome reports, if any, tagged by its source.
    pub open spec fn failure(self) -> Option<SPIError<SPIE, PinE>> {
        match self {
            Outcome::Pin(Err(e)) => Some(SPIError::Pin(e)),
            Outcome::Transfer(Err(e)) => Some(SPIError::SPI(e)),
            _ => None,
        }
    }

    /// The bytes clocked in; none for a pin operation or a failure.
    pub open spec fn received(self) -> Seq<u8> {
        match self {
            Outcome::Transfer(Ok(bytes)) => bytes,
            _ => Seq::empty(),
        }
    }
}

/// A transaction in flight: the operations before `done` have succeeded, the
/// one at `done` is pending.
pub struct TransactionView {
    pub shape: Shape,
    pub done: nat,
    pub data: Seq<u8>,
}

/// Where a transaction stands after an outcome.
pub enum ProgressView<SPIE, PinE> {
    /// Another operation is pending.
    Pending(TransactionView),
    /// The transaction is over, with the bytes read or the first failure.
    Finished(Result<Seq<u8>, Error<SPIError<SPIE, PinE>>>),
}

impl TransactionView {
    /// A transaction of which nothing has been performed yet.
    pub open spec fn start(shape: Shape) -> TransactionView {
        TransactionView { shape, done: 0, data: Seq::empty() }
    }

    /// Whether an operation is pending.
    pub open spec fn in_flight(self) -> bool {
        self.done < plan(self.shape).len()
    }

    /// The pending operation.
    pub open spec fn pending(self) -> Operation
        recommends
            self.in_flight(),
    {
        plan(self.shape)[self.done as int]
    }

    /// Whether `outcome` can be what the pending operation led to.
    pub open spec fn accepts<SPIE, PinE>(self, outcome: Outcome<SPIE, PinE>) -> bool {
        self.in_flight() && outcome.answers(self.pending())
    }

    /// The transaction after the pending operation led to `outcome`; `None` if
    /// `outcome` does not answer the pending operation.
    ///
    /// A failure ends the transaction with that failure.  A success moves on
    /// to the next operation of the plan, or ends the transaction with the
    /// bytes of the data phase when the plan is exhausted.
    pub open spec fn step<SPIE, PinE>(self, outcome: Outcome<SPIE, PinE>) -> Option<
        ProgressView<SPIE, PinE>,
    > {
        if !self.accepts(outcome) {
            None
        } else if let Some(e) = outcome.failure() {
            Some(ProgressView::Finished(Err(Error::Bus(e))))
        } else {
            let data = if captures(self.shape, self.done) {
                outcome.received()
            } else {
                self.data
            };
            if self.done + 1 == plan(self.shape).len() {
                Some(ProgressView::Finished(Ok(data)))
            } else {
                Some(
                    ProgressView::Pending(
                        TransactionView { shape: self.shape, done: self.done + 1, data },
                    ),
                )
            }
        }
    }
}

/// What a run of a transaction amounts to: the operations performed, in order,
/// and the result if the transaction came to its end.
pub struct Trace<SPIE, PinE> {
    pub operations: Seq<Operation>,
    pub result: Option<Result<Seq<u8>, Error<SPIError<SPIE, PinE>>>>,
}

/// Runs `transaction` against the outcomes that the pin and the bus report, one
/// for each operation performed.
///
/// The run stops when the transaction is over, when the outcomes are used up,
/// or at an outcome that does not answer the pending operation.  Outcomes after
/// that are never looked at: their operations are not performed.
pub open spec fn run<SPIE, PinE>(
    transaction: TransactionView,
    outcomes: Seq<Outcome<SPIE, PinE>>,
) -> Trace<SPIE, PinE>
    decreases outcomes.len(),
{
    if outcomes.len() == 0 {
        Trace { operations: Seq::empty(), result: None }
    } else {
        match transaction.step(outcomes[0]) {
            None => Trace { operations: Seq::empty(), result: None },
            Some(ProgressView::Finished(result)) => Trace {
                operations: seq![transaction.pending()],
                result: Some(result),
            },
            Some(ProgressView::Pending(next)) => {
                let rest = run(next, outcomes.drop_first());
                Trace {
                    operations: seq![transaction.pending()] + rest.operations,
                    result: rest.result,
                }
            },
        }
    }
}

} // verus!
