//! Construction and destruction of the adapter, and the lending of its
//! handles.

use bme280::{Error, SPIError, BME280};

type Built = Result<BME280<&'static str, u32, bool>, Error<SPIError<u8, i16>>>;

#[test]
fn new_succeeds_when_the_pin_was_driven_high() {
    let adapter: Built = BME280::new("bus", 7, true, Ok(()));
    assert!(adapter.is_ok());
}

#[test]
fn new_fails_with_the_error_of_the_pin() {
    let adapter: Built = BME280::new("bus", 7, true, Err(-3));
    match adapter {
        Err(e) => assert_eq!(e, Error::Bus(SPIError::Pin(-3))),
        Ok(_) => panic!("construction succeeded without a deselected device"),
    }
}

#[test]
fn destroy_hands_back_the_three_handles() {
    let adapter: Built = BME280::new("bus", 7, true, Ok(()));
    let adapter = adapter.unwrap();
    assert_eq!(adapter.destroy(), ("bus", 7, true));
}

#[test]
fn destroy_hands_back_handles_that_cannot_be_copied() {
    let bus = vec![1u8, 2, 3];
    let pin = String::from("cs");
    let delay = Box::new(5u64);
    let adapter: Result<BME280<Vec<u8>, String, Box<u64>>, Error<SPIError<u8, u8>>> =
        BME280::new(bus, pin, delay, Ok(()));
    let (bus, pin, delay) = adapter.unwrap().destroy();
    assert_eq!(bus, vec![1u8, 2, 3]);
    assert_eq!(pin, "cs");
    assert_eq!(*delay, 5);
}

#[test]
fn lent_handles_keep_what_was_done_to_them() {
    let adapter: Built = BME280::new("bus", 7, true, Ok(()));
    let mut adapter = adapter.unwrap();
    assert_eq!(*adapter.spi_mut(), "bus");
    assert_eq!(*adapter.cs_mut(), 7);
    assert_eq!(*adapter.delay_mut(), true);
    *adapter.cs_mut() = 8;
    *adapter.spi_mut() = "other bus";
    *adapter.delay_mut() = false;
    assert_eq!(adapter.destroy(), ("other bus", 8, false));
}

#[test]
fn errors_seen_before_do_not_change_what_destroy_returns() {
    let adapter: Built = BME280::new("bus", 7, true, Ok(()));
    let adapter = adapter.unwrap();
    let failed = bme280::Transaction::read_register(0xD0)
        .advance::<u8, i16>(bme280::Reply::Pin(Err(-1)));
    assert!(matches!(
        failed,
        Some(bme280::Progress::Finished(Err(Error::Bus(SPIError::Pin(-1)))))
    ));
    assert_eq!(adapter.destroy(), ("bus", 7, true));
}
