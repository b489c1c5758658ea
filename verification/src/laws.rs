//! What holds of every framed transaction, whatever the hardware reports.

use vstd::prelude::*;
use crate::error::{Error, SPIError};
use crate::protocol::{
    blank, plan, run, write_address, Operation, Outcome, Shape, Trace, TransactionView,
};

verus! {

/// When every operation succeeds, a read drives chip-select low, transfers the
/// one-byte address, transfers a buffer of `len` bytes, drives chip-select
/// high, in that order and nothing else, and yields the bytes clocked in
/// during the data phase.
pub proof fn lemma_read_completes<SPIE, PinE>(
    register: u8,
    len: usize,
    echo: Seq<u8>,
    data: Seq<u8>,
    rest: Seq<Outcome<SPIE, PinE>>,
)
    requires
        echo.len() == 1,
        data.len() == len,
    ensures
        run(
            TransactionView::start(Shape::Read { register, len }),
            seq![
                Outcome::Pin(Ok(())),
                Outcome::Transfer(Ok(echo)),
                Outcome::Transfer(Ok(data)),
                Outcome::Pin(Ok(())),
            ] + rest,
        ) == (Trace::<SPIE, PinE> {
            operations: seq![
                Operation::SelectLow,
                Operation::Transfer(seq![register]),
                Operation::Transfer(blank(len as nat)),
                Operation::SelectHigh,
            ],
            result: Some(Ok(data)),
        }),
{
    let shape = Shape::Read { register, len };
    let outcomes = seq![
        Outcome::<SPIE, PinE>::Pin(Ok(())),
        Outcome::Transfer(Ok(echo)),
        Outcome::Transfer(Ok(data)),
        Outcome::Pin(Ok(())),
    ] + rest;
    reveal_with_fuel(run, 5);
    let t0 = TransactionView::start(shape);
    let tr = run(t0, outcomes);
    assert(tr.operations =~= seq![
        Operation::SelectLow,
        Operation::Transfer(seq![register]),
        Operation::Transfer(blank(len as nat)),
        Operation::SelectHigh,
    ]);
}

/// When every operation succeeds, a write drives chip-select low, transfers
/// one buffer of two bytes, the address with its top bit cleared and then the
/// payload, drives chip-select high, in that order and nothing else.
pub proof fn lemma_write_completes<SPIE, PinE>(
    register: u8,
    payload: u8,
    echo: Seq<u8>,
    rest: Seq<Outcome<SPIE, PinE>>,
)
    requires
        echo.len() == 2,
    ensures
        run(
            TransactionView::start(Shape::Write { register, payload }),
            seq![Outcome::Pin(Ok(())), Outcome::Transfer(Ok(echo)), Outcome::Pin(Ok(()))] + rest,
        ) == (Trace::<SPIE, PinE> {
            operations: seq![
                Operation::SelectLow,
                Operation::Transfer(seq![write_address(register), payload]),
                Operation::SelectHigh,
            ],
            result: Some(Ok(Seq::empty())),
        }),
{
    let outcomes = seq![
        Outcome::<SPIE, PinE>::Pin(Ok(())),
        Outcome::Transfer(Ok(echo)),
        Outcome::Pin(Ok(())),
    ] + rest;
    reveal_with_fuel(run, 4);
    let tr = run(TransactionView::start(Shape::Write { register, payload }), outcomes);
    assert(tr.operations =~= seq![
        Operation::SelectLow,
        Operation::Transfer(seq![write_address(register), payload]),
        Operation::SelectHigh,
    ]);
}

/// The address byte of a write is the register address without its top bit,
/// whether or not the bit was set: the low seven bits are kept, and two
/// addresses that differ in the top bit only are sent alike.
pub proof fn lemma_write_address_clears_top_bit(register: u8)
    ensures
        write_address(register) < 0x80,
        write_address(register) == register % 0x80,
        write_address(register | 0x80) == write_address(register),
{
    assert(register & 0x7f < 0x80) by (bit_vector);
    assert(register & 0x7f == register % 0x80) by (bit_vector);
    assert((register | 0x80) & 0x7f == register & 0x7f) by (bit_vector);
}

/// If driving chip-select low fails, nothing else is performed, no transfer in
/// particular, and the transaction ends with the pin's error.
pub proof fn lemma_select_failure<SPIE, PinE>(
    shape: Shape,
    e: PinE,
    rest: Seq<Outcome<SPIE, PinE>>,
)
    ensures
        run(TransactionView::start(shape), seq![Outcome::Pin(Err(e))] + rest) == (Trace::<
            SPIE,
            PinE,
        > { operations: seq![Operation::SelectLow], result: Some(Err(Error::Bus(SPIError::Pin(e)))) }),
{
    reveal_with_fuel(run, 2);
}

/// If the address transfer of a read fails, the transaction ends with the
/// error of the bus; neither the data transfer nor the drive of chip-select
/// high is performed.
pub proof fn lemma_address_failure<SPIE, PinE>(
    register: u8,
    len: usize,
    e: SPIE,
    rest: Seq<Outcome<SPIE, PinE>>,
)
    ensures
        run(
            TransactionView::start(Shape::Read { register, len }),
            seq![Outcome::Pin(Ok(())), Outcome::Transfer(Err(e))] + rest,
        ) == (Trace::<SPIE, PinE> {
            operations: seq![Operation::SelectLow, Operation::Transfer(seq![register])],
            result: Some(Err(Error::Bus(SPIError::SPI(e)))),
        }),
{
    let outcomes = seq![Outcome::<SPIE, PinE>::Pin(Ok(())), Outcome::Transfer(Err(e))] + rest;
    reveal_with_fuel(run, 3);
    let tr = run(TransactionView::start(Shape::Read { register, len }), outcomes);
    assert(tr.operations =~= seq![Operation::SelectLow, Operation::Transfer(seq![register])]);
}

/// If the data transfer of a read fails, the transaction ends with the error
/// of the bus; the drive of chip-select high is not performed.
pub proof fn lemma_data_failure<SPIE, PinE>(
    register: u8,
    len: usize,
    echo: Seq<u8>,
    e: SPIE,
    rest: Seq<Outcome<SPIE, PinE>>,
)
    requires
        echo.len() == 1,
    ensures
        run(
            TransactionView::start(Shape::Read { register, len }),
            seq![Outcome::Pin(Ok(())), Outcome::Transfer(Ok(echo)), Outcome::Transfer(Err(e))]
                + rest,
        ) == (Trace::<SPIE, PinE> {
            operations: seq![
                Operation::SelectLow,
                Operation::Transfer(seq![register]),
                Operation::Transfer(blank(len as nat)),
            ],
            result: Some(Err(Error::Bus(SPIError::SPI(e)))),
        }),
{
    let outcomes = seq![
        Outcome::<SPIE, PinE>::Pin(Ok(())),
        Outcome::Transfer(Ok(echo)),
        Outcome::Transfer(Err(e)),
    ] + rest;
    reveal_with_fuel(run, 4);
    let tr = run(TransactionView::start(Shape::Read { register, len }), outcomes);
    assert(tr.operations =~= seq![
        Operation::SelectLow,
        Operation::Transfer(seq![register]),
        Operation::Transfer(blank(len as nat)),
    ]);
}

/// If the transfer of a write fails, the transaction ends with the error of
/// the bus; the drive of chip-select high is not performed.
pub proof fn lemma_write_failure<SPIE, PinE>(
    register: u8,
    payload: u8,
    e: SPIE,
    rest: Seq<Outcome<SPIE, PinE>>,
)
    ensures
        run(
            TransactionView::start(Shape::Write { register, payload }),
            seq![Outcome::Pin(Ok(())), Outcome::Transfer(Err(e))] + rest,
        ) == (Trace::<SPIE, PinE> {
            operations: seq![
                Operation::SelectLow,
                Operation::Transfer(seq![write_address(register), payload]),
            ],
            result: Some(Err(Error::Bus(SPIError::SPI(e)))),
        }),
{
    let outcomes = seq![Outcome::<SPIE, PinE>::Pin(Ok(())), Outcome::Transfer(Err(e))] + rest;
    reveal_with_fuel(run, 3);
    let tr = run(TransactionView::start(Shape::Write { register, payload }), outcomes);
    assert(tr.operations =~= seq![
        Operation::SelectLow,
        Operation::Transfer(seq![write_address(register), payload]),
    ]);
}

/// If driving chip-select high fails at the end of a read, the transaction
/// ends with the pin's error: the bytes clocked in before are not handed out.
pub proof fn lemma_read_release_failure<SPIE, PinE>(
    register: u8,
    len: usize,
    echo: Seq<u8>,
    data: Seq<u8>,
    e: PinE,
    rest: Seq<Outcome<SPIE, PinE>>,
)
    requires
        echo.len() == 1,
        data.len() == len,
    ensures
        run(
            TransactionView::start(Shape::Read { register, len }),
            seq![
                Outcome::Pin(Ok(())),
                Outcome::Transfer(Ok(echo)),
                Outcome::Transfer(Ok(data)),
                Outcome::Pin(Err(e)),
            ] + rest,
        ) == (Trace::<SPIE, PinE> {
            operations: plan(Shape::Read { register, len }),
            result: Some(Err(Error::Bus(SPIError::Pin(e)))),
        }),
{
    let outcomes = seq![
        Outcome::<SPIE, PinE>::Pin(Ok(())),
        Outcome::Transfer(Ok(echo)),
        Outcome::Transfer(Ok(data)),
        Outcome::Pin(Err(e)),
    ] + rest;
    reveal_with_fuel(run, 5);
    let tr = run(TransactionView::start(Shape::Read { register, len }), outcomes);
    assert(tr.operations =~= plan(Shape::Read { register, len }));
}

/// If driving chip-select high fails at the end of a write, the transaction
/// ends with the pin's error.
pub proof fn lemma_write_release_failure<SPIE, PinE>(
    register: u8,
    payload: u8,
    echo: Seq<u8>,
    e: PinE,
    rest: Seq<Outcome<SPIE, PinE>>,
)
    requires
        echo.len() == 2,
    ensures
        run(
            TransactionView::start(Shape::Write { register, payload }),
            seq![Outcome::Pin(Ok(())), Outcome::Transfer(Ok(echo)), Outcome::Pin(Err(e))] + rest,
        ) == (Trace::<SPIE, PinE> {
            operations: plan(Shape::Write { register, payload }),
            result: Some(Err(Error::Bus(SPIError::Pin(e)))),
        }),
{
    let outcomes = seq![
        Outcome::<SPIE, PinE>::Pin(Ok(())),
        Outcome::Transfer(Ok(echo)),
        Outcome::Pin(Err(e)),
    ] + rest;
    reveal_with_fuel(run, 4);
    let tr = run(TransactionView::start(Shape::Write { register, payload }), outcomes);
    assert(tr.operations =~= plan(Shape::Write { register, payload }));
}

/// The run of a transaction from anywhere in its plan: what is performed is
/// the stretch of the plan from the pending operation on, every outcome but
/// the last looked at is a success, and the result tells how the stretch ended.
proof fn lemma_run_from<SPIE, PinE>(t: TransactionView, outcomes: Seq<Outcome<SPIE, PinE>>)
    requires
        t.in_flight(),
    ensures
        ({
            let trace = run(t, outcomes);
            let n = trace.operations.len();
            let steps = plan(t.shape);
            &&& n <= outcomes.len()
            &&& t.done + n <= steps.len()
            &&& trace.operations == steps.subrange(t.done as int, (t.done + n) as int)
            &&& forall|i: int| 0 <= i < n - 1 ==> (#[trigger] outcomes[i]).failure() is None
            &&& match trace.result {
                None => true,
                Some(Ok(data)) => {
                    &&& t.done + n == steps.len()
                    &&& outcomes[n - 1].failure() is None
                    &&& data == (match t.shape {
                        Shape::Read { register, len } if t.done <= 2 => outcomes[2
                            - t.done].received(),
                        _ => t.data,
                    })
                    &&& t.shape matches Shape::Read { register, len } ==> t.done <= 2
                        ==> data.len() == len
                },
                Some(Err(e)) => {
                    &&& n >= 1
                    &&& outcomes[n - 1].failure() matches Some(f) && e == Error::Bus(f)
                },
            }
        }),
    decreases outcomes.len(),
{
    let steps = plan(t.shape);
    if outcomes.len() > 0 {
        match t.step(outcomes[0]) {
            Some(crate::protocol::ProgressView::Pending(next)) => {
                let rest = outcomes.drop_first();
                lemma_run_from(next, rest);
                let tail = run(next, rest);
                let trace = run(t, outcomes);
                let n = trace.operations.len();
                assert(trace.operations =~= steps.subrange(t.done as int, (t.done + n) as int));
                assert forall|i: int| 0 <= i < n - 1 implies (#[trigger] outcomes[i]).failure()
                    is None by {
                    if i > 0 {
                        assert(outcomes[i] == rest[i - 1]);
                    }
                }
                assert(n >= 2 ==> outcomes[n - 1] == rest[n - 2]);
                if t.shape is Read && t.done < 2 && tail.result is Some {
                    if tail.result->0 is Ok {
                        assert(outcomes[2 - t.done] == rest[2 - next.done]);
                    }
                }
            },
            Some(crate::protocol::ProgressView::Finished(_)) => {
                let trace = run(t, outcomes);
                assert(trace.operations =~= steps.subrange(t.done as int, t.done + 1 as int));
            },
            None => {
                assert(run(t, outcomes).operations =~= steps.subrange(
                    t.done as int,
                    t.done as int,
                ));
            },
        }
    } else {
        assert(run(t, outcomes).operations =~= steps.subrange(t.done as int, t.done as int));
    }
}

/// Whatever the pin and the bus report, the operations performed are an
/// initial part of the plan: they come in its order, none is skipped or
/// repeated, and nothing else is ever performed.
pub proof fn lemma_operations_follow_plan<SPIE, PinE>(
    shape: Shape,
    outcomes: Seq<Outcome<SPIE, PinE>>,
)
    ensures
        run(TransactionView::start(shape), outcomes).operations.is_prefix_of(plan(shape)),
{
    lemma_run_from(TransactionView::start(shape), outcomes);
}

/// A transaction succeeds only by performing its whole plan, chip-select high
/// last, with every outcome a success.  A read then yields the bytes clocked
/// in during its data phase, as many as were asked for; a write yields none.
pub proof fn lemma_success_performs_plan<SPIE, PinE>(
    shape: Shape,
    outcomes: Seq<Outcome<SPIE, PinE>>,
    data: Seq<u8>,
)
    requires
        run(TransactionView::start(shape), outcomes).result == Some(
            Ok::<Seq<u8>, Error<SPIError<SPIE, PinE>>>(data),
        ),
    ensures
        run(TransactionView::start(shape), outcomes).operations == plan(shape),
        plan(shape).last() == Operation::SelectHigh,
        plan(shape).len() <= outcomes.len(),
        forall|i: int| 0 <= i < plan(shape).len() ==> (#[trigger] outcomes[i]).failure() is None,
        match shape {
            Shape::Read { register, len } => data == outcomes[2].received() && data.len() == len,
            Shape::Write { register, payload } => data == Seq::<u8>::empty(),
        },
{
    lemma_run_from(TransactionView::start(shape), outcomes);
    let trace = run(TransactionView::start(shape), outcomes);
    assert(trace.operations =~= plan(shape));
}

/// A transaction fails only with the first failure that the pin or the bus
/// reports, handed on as it is and tagged by its source: every outcome before
/// it is a success, and the operation that failed is the last one performed.
pub proof fn lemma_first_failure_is_reported<SPIE, PinE>(
    shape: Shape,
    outcomes: Seq<Outcome<SPIE, PinE>>,
    e: Error<SPIError<SPIE, PinE>>,
)
    requires
        run(TransactionView::start(shape), outcomes).result == Some(
            Err::<Seq<u8>, Error<SPIError<SPIE, PinE>>>(e),
        ),
    ensures
        ({
            let n = run(TransactionView::start(shape), outcomes).operations.len();
            &&& 1 <= n <= plan(shape).len()
            &&& n <= outcomes.len()
            &&& forall|i: int| 0 <= i < n - 1 ==> (#[trigger] outcomes[i]).failure() is None
            &&& outcomes[n - 1].failure() matches Some(f) && e == Error::Bus(f)
        }),
{
    lemma_run_from(TransactionView::start(shape), outcomes);
}

/// A transaction that fails with an error of the bus has driven chip-select
/// low and has not driven it high: the select line is left asserted.
pub proof fn lemma_transfer_failure_leaves_selected<SPIE, PinE>(
    shape: Shape,
    outcomes: Seq<Outcome<SPIE, PinE>>,
    e: SPIE,
)
    requires
        run(TransactionView::start(shape), outcomes).result == Some(
            Err::<Seq<u8>, Error<SPIError<SPIE, PinE>>>(Error::Bus(SPIError::SPI(e))),
        ),
    ensures
        run(TransactionView::start(shape), outcomes).operations[0] == Operation::SelectLow,
        !run(TransactionView::start(shape), outcomes).operations.contains(Operation::SelectHigh),
{
    let start = TransactionView::start(shape);
    lemma_run_from(start, outcomes);
    let trace = run(start, outcomes);
    let n = trace.operations.len();
    lemma_failure_answers(start, outcomes);
    assert(plan(shape)[n - 1] is Transfer);
    assert forall|i: int| 0 <= i < n implies trace.operations[i] != Operation::SelectHigh by {
        assert(trace.operations[i] == plan(shape)[i]);
    }
}

/// The outcome that ends a run answers the operation performed last.
proof fn lemma_failure_answers<SPIE, PinE>(t: TransactionView, outcomes: Seq<Outcome<SPIE, PinE>>)
    requires
        t.in_flight(),
        run(t, outcomes).result is Some,
    ensures
        ({
            let n = run(t, outcomes).operations.len();
            &&& n >= 1
            &&& t.done + n <= plan(t.shape).len()
            &&& n <= outcomes.len()
            &&& outcomes[n - 1].answers(plan(t.shape)[t.done + n - 1])
        }),
    decreases outcomes.len(),
{
    if outcomes.len() > 0 {
        match t.step(outcomes[0]) {
            Some(crate::protocol::ProgressView::Pending(next)) => {
                let rest = outcomes.drop_first();
                lemma_failure_answers(next, rest);
                let n = run(t, outcomes).operations.len();
                assert(outcomes[n - 1] == rest[n - 2]);
            },
            _ => {},
        }
    }
}

} // verus!
