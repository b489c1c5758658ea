//! Framed transactions, one operation at a time.
//!
//! A [`Transaction`] never drives the pin or the bus.  It names the operation
//! that is due ([`Transaction::request`]), takes what the hardware reported of
//! it ([`Transaction::advance`]), and either names the next one or ends with
//! the result.  Its owner performs the operations in between.

use vstd::prelude::*;
use crate::error::{Error, SPIError};
use crate::protocol::{
    blank, captures, plan, write_address, Operation, Outcome, ProgressView, Shape,
    TransactionView, BME280_H_CALIB_DATA_LEN, BME280_P_T_CALIB_DATA_LEN, BME280_P_T_H_DATA_LEN,
};

verus! {

/// An operation that the owner of the pin and the bus is asked to perform.
#[derive(Debug, PartialEq, Eq)]
pub enum Request {
    /// Drive the chip-select pin low.
    SelectLow,
    /// Clock these bytes out; the bytes clocked in replace them.
    Transfer(Vec<u8>),
    /// Drive the chip-select pin high.
    SelectHigh,
}

impl View for Request {
    type V = Operation;

    open spec fn view(&self) -> Operation {
        match self {
            Request::SelectLow => Operation::SelectLow,
            Request::Transfer(frame) => Operation::Transfer(frame@),
            Request::SelectHigh => Operation::SelectHigh,
        }
    }
}

/// What the hardware reported of the operation last asked for.
#[derive(Debug, PartialEq, Eq)]
pub enum Reply<SPIE, PinE> {
    /// The outcome of driving the chip-select pin.
    Pin(Result<(), PinE>),
    /// The outcome of a transfer: the buffer as the bus left it, or the
    /// failure of the bus.
    Transfer(Result<Vec<u8>, SPIE>),
}

impl<SPIE, PinE> View for Reply<SPIE, PinE> {
    type V = Outcome<SPIE, PinE>;

    open spec fn view(&self) -> Outcome<SPIE, PinE> {
        match self {
            Reply::Pin(outcome) => Outcome::Pin(*outcome),
            Reply::Transfer(Ok(received)) => Outcome::Transfer(Ok(received@)),
            Reply::Transfer(Err(e)) => Outcome::Transfer(Err(*e)),
        }
    }
}

/// A framed transaction in flight.
#[derive(Debug)]
pub struct Transaction {
    shape: Shape,
    done: usize,
    data: Vec<u8>,
}

impl View for Transaction {
    type V = TransactionView;

    closed spec fn view(&self) -> TransactionView {
        TransactionView { shape: self.shape, done: self.done as nat, data: self.data@ }
    }
}

/// Where a transaction stands after a reply.
#[derive(Debug)]
pub enum Progress<SPIE, PinE> {
    /// Another operation is due: ask the transaction for it.
    Pending(Transaction),
    /// The transaction is over, with the bytes read (none for a write) or the
    /// first failure.
    Finished(Result<Vec<u8>, Error<SPIError<SPIE, PinE>>>),
}

impl<SPIE, PinE> View for Progress<SPIE, PinE> {
    type V = ProgressView<SPIE, PinE>;

    open spec fn view(&self) -> ProgressView<SPIE, PinE> {
        match self {
            Progress::Pending(transaction) => ProgressView::Pending(transaction@),
            Progress::Finished(Ok(data)) => ProgressView::Finished(Ok(data@)),
            Progress::Finished(Err(e)) => ProgressView::Finished(Err(*e)),
        }
    }
}

/// The buffer for the data phase of a read: `len` bytes that the device
/// ignores.
fn blank_frame(len: usize) -> (frame: Vec<u8>)
    ensures
        frame@ == blank(len as nat),
{
    let mut frame: Vec<u8> = Vec::new();
    while frame.len() < len
        invariant
            frame@.len() <= len,
            forall|i: int| 0 <= i < frame@.len() ==> frame@[i] == 0u8,
        decreases len - frame@.len(),
    {
        frame.push(0u8);
    }
    assert(frame@ =~= blank(len as nat));
    frame
}

/// The buffer for a write: the register address with its top bit cleared, then
/// the payload.
fn write_frame(register: u8, payload: u8) -> (frame: Vec<u8>)
    ensures
        frame@ == seq![write_address(register), payload],
{
    let mut frame: Vec<u8> = Vec::new();
    frame.push(register & 0x7f);
    frame.push(payload);
    assert(frame@ =~= seq![write_address(register), payload]);
    frame
}

/// The buffer for the address phase of a read: the register address as it is.
fn address_frame(register: u8) -> (frame: Vec<u8>)
    ensures
        frame@ == seq![register],
{
    let mut frame: Vec<u8> = Vec::new();
    frame.push(register);
    assert(frame@ =~= seq![register]);
    frame
}

impl Transaction {
    #[verifier::type_invariant]
    spec fn in_flight(self) -> bool {
        self.done < plan(self.shape).len()
    }

    /// Starts a read of `len` bytes from `register` on.
    ///
    /// The address goes out in a transfer of its own, as it is; the data phase
    /// follows in a second transfer of `len` bytes.
    pub fn read_any_register(register: u8, len: usize) -> (transaction: Transaction)
        ensures
            transaction@ == TransactionView::start(Shape::Read { register, len }),
    {
        Transaction { shape: Shape::Read { register, len }, done: 0, data: Vec::new() }
    }

    /// Starts a read of the single byte in `register`.
    pub fn read_register(register: u8) -> (transaction: Transaction)
        ensures
            transaction@ == TransactionView::start(Shape::Read { register, len: 1 }),
    {
        Transaction::read_any_register(register, 1)
    }

    /// Starts a read of the block of raw samples from `register` on.
    pub fn read_data(register: u8) -> (transaction: Transaction)
        ensures
            transaction@ == TransactionView::start(
                Shape::Read { register, len: BME280_P_T_H_DATA_LEN },
            ),
    {
        Transaction::read_any_register(register, BME280_P_T_H_DATA_LEN)
    }

    /// Starts a read of the pressure and temperature calibration block from
    /// `register` on.
    pub fn read_pt_calib_data(register: u8) -> (transaction: Transaction)
        ensures
            transaction@ == TransactionView::start(
                Shape::Read { register, len: BME280_P_T_CALIB_DATA_LEN },
            ),
    {
        Transaction::read_any_register(register, BME280_P_T_CALIB_DATA_LEN)
    }

    /// Starts a read of the humidity calibration block from `register` on.
    pub fn read_h_calib_data(register: u8) -> (transaction: Transaction)
        ensures
            transaction@ == TransactionView::start(
                Shape::Read { register, len: BME280_H_CALIB_DATA_LEN },
            ),
    {
        Transaction::read_any_register(register, BME280_H_CALIB_DATA_LEN)
    }

    /// Starts a write of `payload` to `register`.
    ///
    /// Address and payload go out in one transfer of two bytes; the top bit of
    /// the address is cleared, which marks the access as a write.
    pub fn write_register(register: u8, payload: u8) -> (transaction: Transaction)
        ensures
            transaction@ == TransactionView::start(Shape::Write { register, payload }),
    {
        Transaction { shape: Shape::Write { register, payload }, done: 0, data: Vec::new() }
    }

    /// The operation that is due.
    pub fn request(&self) -> (request: Request)
        ensures
            self@.in_flight(),
            request@ == self@.pending(),
    {
        proof {
            use_type_invariant(self);
        }
        match self.shape {
            Shape::Read { register, len } => {
                if self.done == 0 {
                    Request::SelectLow
                } else if self.done == 1 {
                    Request::Transfer(address_frame(register))
                } else if self.done == 2 {
                    Request::Transfer(blank_frame(len))
                } else {
                    Request::SelectHigh
                }
            },
            Shape::Write { register, payload } => {
                if self.done == 0 {
                    Request::SelectLow
                } else if self.done == 1 {
                    Request::Transfer(write_frame(register, payload))
                } else {
                    Request::SelectHigh
                }
            },
        }
    }

    /// The number of bytes of the transfer that is due; `None` if the pin is to
    /// be driven.
    fn transfer_len(&self) -> (len: Option<usize>)
        ensures
            self@.in_flight(),
            match len {
                Some(n) => self@.pending() matches Operation::Transfer(sent) && sent.len() == n,
                None => !(self@.pending() is Transfer),
            },
    {
        proof {
            use_type_invariant(self);
        }
        match self.shape {
            Shape::Read { register, len } => {
                if self.done == 1 {
                    Some(1)
                } else if self.done == 2 {
                    Some(len)
                } else {
                    None
                }
            },
            Shape::Write { register, payload } => {
                if self.done == 1 {
                    Some(2)
                } else {
                    None
                }
            },
        }
    }

    /// Moves past the operation that is due, which succeeded and clocked in
    /// `received` (nothing, for a pin operation).
    fn proceed<SPIE, PinE>(self, received: Vec<u8>) -> (progress: Progress<SPIE, PinE>)
        ensures
            progress@ == (if self@.done + 1 == plan(self@.shape).len() {
                ProgressView::<SPIE, PinE>::Finished(
                    Ok(if captures(self@.shape, self@.done) { received@ } else { self@.data }),
                )
            } else {
                ProgressView::<SPIE, PinE>::Pending(
                    TransactionView {
                        shape: self@.shape,
                        done: self@.done + 1,
                        data: if captures(self@.shape, self@.done) {
                            received@
                        } else {
                            self@.data
                        },
                    },
                )
            }),
    {
        proof {
            use_type_invariant(&self);
        }
        let Transaction { shape, done, data } = self;
        let (last, capturing): (usize, bool) = match shape {
            Shape::Read { register, len } => (3, done == 2),
            Shape::Write { register, payload } => (2, false),
        };
        let data = if capturing { received } else { data };
        if done == last {
            Progress::Finished(Ok(data))
        } else {
            Progress::Pending(Transaction { shape, done: done + 1, data })
        }
    }

    /// Takes what the hardware reported of the operation that was due.
    ///
    /// Returns `None` if `reply` cannot be the outcome of that operation: a pin
    /// outcome for a transfer, a transfer outcome for a pin operation, or a
    /// buffer whose length is not that of the buffer handed out.  Otherwise a
    /// failure ends the transaction at once with that failure, tagged by its
    /// source; a success leads to the next operation, or to the end of the
    /// transaction with the bytes of the data phase.
    ///
    /// After a failed transfer no request to drive chip-select high follows:
    /// the select line stays asserted.
    pub fn advance<SPIE, PinE>(self, reply: Reply<SPIE, PinE>) -> (progress: Option<
        Progress<SPIE, PinE>,
    >)
        ensures
            match progress {
                Some(p) => self@.step(reply@) == Some(p@),
                None => self@.step(reply@) is None,
            },
    {
        let due = self.transfer_len();
        match reply {
            Reply::Pin(outcome) => {
                if due.is_some() {
                    None
                } else {
                    match outcome {
                        Ok(()) => Some(self.proceed(Vec::new())),
                        Err(e) => Some(Progress::Finished(Err(Error::Bus(SPIError::Pin(e))))),
                    }
                }
            },
            Reply::Transfer(outcome) => {
                match due {
                    None => None,
                    Some(len) => {
                        match outcome {
                            Ok(received) => {
                                if received.len() == len {
                                    Some(self.proceed(received))
                                } else {
                                    None
                                }
                            },
                            Err(e) => Some(Progress::Finished(Err(Error::Bus(SPIError::SPI(e))))),
                        }
                    },
                }
            },
        }
    }
}

} // verus!
