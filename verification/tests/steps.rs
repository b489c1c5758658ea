//! Single steps of a transaction: what is asked for, and what each reply
//! leads to.

use bme280::{Error, Progress, Reply, Request, SPIError, Transaction};

type Step = Option<Progress<&'static str, &'static str>>;

fn pending(step: Step) -> Transaction {
    match step {
        Some(Progress::Pending(transaction)) => transaction,
        other => panic!("expected a pending transaction, got {:?}", other),
    }
}

fn finished(step: Step) -> Result<Vec<u8>, Error<SPIError<&'static str, &'static str>>> {
    match step {
        Some(Progress::Finished(result)) => result,
        other => panic!("expected a finished transaction, got {:?}", other),
    }
}

#[test]
fn a_read_asks_for_its_four_operations_in_order() {
    let transaction = Transaction::read_data(0xF7);
    assert_eq!(transaction.request(), Request::SelectLow);
    let transaction = pending(transaction.advance(Reply::Pin(Ok(()))));
    assert_eq!(transaction.request(), Request::Transfer(vec![0xF7]));
    let transaction = pending(transaction.advance(Reply::Transfer(Ok(vec![0xFF]))));
    assert_eq!(transaction.request(), Request::Transfer(vec![0; 8]));
    let block = vec![1, 2, 3, 4, 5, 6, 7, 8];
    let transaction = pending(transaction.advance(Reply::Transfer(Ok(block.clone()))));
    assert_eq!(transaction.request(), Request::SelectHigh);
    assert_eq!(finished(transaction.advance(Reply::Pin(Ok(())))), Ok(block));
}

#[test]
fn a_write_asks_for_its_three_operations_in_order() {
    let transaction = Transaction::write_register(0xF4, 0x3C);
    assert_eq!(transaction.request(), Request::SelectLow);
    let transaction = pending(transaction.advance(Reply::Pin(Ok(()))));
    assert_eq!(transaction.request(), Request::Transfer(vec![0x74, 0x3C]));
    let transaction = pending(transaction.advance(Reply::Transfer(Ok(vec![0xAA, 0xBB]))));
    assert_eq!(transaction.request(), Request::SelectHigh);
    assert_eq!(finished(transaction.advance(Reply::Pin(Ok(())))), Ok(vec![]));
}

#[test]
fn asking_twice_gives_the_same_request() {
    let transaction = Transaction::read_register(0x88);
    assert_eq!(transaction.request(), transaction.request());
    let transaction = pending(transaction.advance(Reply::Pin(Ok(()))));
    assert_eq!(transaction.request(), Request::Transfer(vec![0x88]));
    assert_eq!(transaction.request(), Request::Transfer(vec![0x88]));
}

#[test]
fn the_echo_of_the_address_phase_is_ignored() {
    let transaction = Transaction::read_register(0x88);
    let transaction = pending(transaction.advance(Reply::Pin(Ok(()))));
    let transaction = pending(transaction.advance(Reply::Transfer(Ok(vec![0x99]))));
    let transaction = pending(transaction.advance(Reply::Transfer(Ok(vec![0xAB]))));
    assert_eq!(finished(transaction.advance(Reply::Pin(Ok(())))), Ok(vec![0xAB]));
}

#[test]
fn the_echo_of_a_write_is_ignored() {
    let transaction = Transaction::write_register(0xE0, 0xB6);
    let transaction = pending(transaction.advance(Reply::Pin(Ok(()))));
    assert_eq!(transaction.request(), Request::Transfer(vec![0x60, 0xB6]));
    let transaction = pending(transaction.advance(Reply::Transfer(Ok(vec![0x12, 0x34]))));
    assert_eq!(finished(transaction.advance(Reply::Pin(Ok(())))), Ok(vec![]));
}

#[test]
fn a_pin_failure_at_select_ends_the_transaction() {
    let transaction = Transaction::read_pt_calib_data(0x88);
    let result = finished(transaction.advance(Reply::Pin(Err("stuck"))));
    assert_eq!(result, Err(Error::Bus(SPIError::Pin("stuck"))));
}

#[test]
fn a_bus_failure_in_the_address_phase_ends_the_transaction() {
    let transaction = Transaction::read_h_calib_data(0xE1);
    let transaction = pending(transaction.advance(Reply::Pin(Ok(()))));
    let result = finished(transaction.advance(Reply::Transfer(Err("overrun"))));
    assert_eq!(result, Err(Error::Bus(SPIError::SPI("overrun"))));
}

#[test]
fn a_bus_failure_in_the_data_phase_ends_the_transaction() {
    let transaction = Transaction::read_register(0xD0);
    let transaction = pending(transaction.advance(Reply::Pin(Ok(()))));
    let transaction = pending(transaction.advance(Reply::Transfer(Ok(vec![0]))));
    let result = finished(transaction.advance(Reply::Transfer(Err("mode fault"))));
    assert_eq!(result, Err(Error::Bus(SPIError::SPI("mode fault"))));
}

#[test]
fn a_bus_failure_in_a_write_ends_the_transaction() {
    let transaction = Transaction::write_register(0xF5, 0xA0);
    let transaction = pending(transaction.advance(Reply::Pin(Ok(()))));
    let result = finished(transaction.advance(Reply::Transfer(Err("crc"))));
    assert_eq!(result, Err(Error::Bus(SPIError::SPI("crc"))));
}

#[test]
fn a_pin_failure_at_release_ends_the_transaction_without_data() {
    let transaction = Transaction::read_register(0xD0);
    let transaction = pending(transaction.advance(Reply::Pin(Ok(()))));
    let transaction = pending(transaction.advance(Reply::Transfer(Ok(vec![0]))));
    let transaction = pending(transaction.advance(Reply::Transfer(Ok(vec![0x60]))));
    let result = finished(transaction.advance(Reply::Pin(Err("stuck"))));
    assert_eq!(result, Err(Error::Bus(SPIError::Pin("stuck"))));
}

#[test]
fn a_transfer_reply_does_not_answer_a_pin_request() {
    let transaction = Transaction::read_register(0x88);
    let step: Step = transaction.advance(Reply::Transfer(Ok(vec![0])));
    assert!(step.is_none());
    let transaction = Transaction::write_register(0x88, 0);
    let step: Step = transaction.advance(Reply::Transfer(Err("overrun")));
    assert!(step.is_none());
}

#[test]
fn a_pin_reply_does_not_answer_a_transfer_request() {
    let transaction = Transaction::read_register(0x88);
    let transaction = pending(transaction.advance(Reply::Pin(Ok(()))));
    let step: Step = transaction.advance(Reply::Pin(Ok(())));
    assert!(step.is_none());
    let transaction = Transaction::write_register(0x88, 0);
    let transaction = pending(transaction.advance(Reply::Pin(Ok(()))));
    let step: Step = transaction.advance(Reply::Pin(Err("stuck")));
    assert!(step.is_none());
}

#[test]
fn a_buffer_of_another_length_does_not_answer_a_transfer_request() {
    let transaction = Transaction::read_data(0xF7);
    let transaction = pending(transaction.advance(Reply::Pin(Ok(()))));
    let step: Step = transaction.advance(Reply::Transfer(Ok(vec![0, 0])));
    assert!(step.is_none());

    let transaction = Transaction::read_data(0xF7);
    let transaction = pending(transaction.advance(Reply::Pin(Ok(()))));
    let transaction = pending(transaction.advance(Reply::Transfer(Ok(vec![0]))));
    let step: Step = transaction.advance(Reply::Transfer(Ok(vec![0; 7])));
    assert!(step.is_none());

    let transaction = Transaction::write_register(0xF4, 0x3C);
    let transaction = pending(transaction.advance(Reply::Pin(Ok(()))));
    let step: Step = transaction.advance(Reply::Transfer(Ok(vec![0; 3])));
    assert!(step.is_none());
}

#[test]
fn a_read_of_no_bytes_still_runs_its_data_phase() {
    let transaction = Transaction::read_any_register(0x88, 0);
    let transaction = pending(transaction.advance(Reply::Pin(Ok(()))));
    let transaction = pending(transaction.advance(Reply::Transfer(Ok(vec![0]))));
    assert_eq!(transaction.request(), Request::Transfer(vec![]));
    let transaction = pending(transaction.advance(Reply::Transfer(Ok(vec![]))));
    assert_eq!(transaction.request(), Request::SelectHigh);
    assert_eq!(finished(transaction.advance(Reply::Pin(Ok(())))), Ok(vec![]));
}
