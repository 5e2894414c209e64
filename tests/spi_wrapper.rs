use sx1261::spi_wrapper::{IoError, Level, PinError, PinMode, PinRegistry, SpiWrapper, TransactError};

fn line(pin: u32) -> SpiWrapper {
    SpiWrapper::new(&mut PinRegistry::new(), pin).unwrap()
}

#[test]
fn test_initialize() {
    let mut registry = PinRegistry::new();
    let wrapper = SpiWrapper::new(&mut registry, 16).unwrap();
    assert_eq!(wrapper.pin(), 16);
    assert_eq!(wrapper.mode(), PinMode::Output);
    assert_eq!(wrapper.level(), Level::High);
    // a line backs a single wrapper
    assert!(matches!(SpiWrapper::new(&mut registry, 16), Err(PinError::AlreadyOwned)));
}

#[test]
fn test_transfer() {
    let mut registry = PinRegistry::new();
    let mut device1 = SpiWrapper::new(&mut registry, 16).unwrap();
    let tx = [0x19_u8, 0x09, 0x2B, 0x00, 0x00, 0x00];
    assert_eq!(device1.begin(tx.len(), 6), Ok(()));
    assert_eq!(device1.level(), Level::Low);
    let rx = device1.end(Ok(vec![0_u8; 6]));
    assert_eq!(rx, Ok(vec![0_u8; 6]));
    // the pin is back to what it was before the transfer
    assert_eq!(device1.mode(), PinMode::Output);
    assert_eq!(device1.level(), Level::High);
}

#[test]
fn line_restored_after_failed_transfer() {
    let mut w = line(81);
    assert_eq!(w.level(), Level::High);
    assert_eq!(w.begin(3, 3), Ok(()));
    assert_eq!(w.level(), Level::Low);
    assert!(w.is_busy());
    let err = IoError { code: Some(5) };
    assert_eq!(w.end(Err(err)), Err(TransactError::Io(err)));
    assert_eq!(w.level(), Level::High);
    assert!(!w.is_busy());
}

#[test]
fn second_transaction_waits_for_first() {
    let mut w = line(81);
    assert_eq!(w.begin(2, 2), Ok(()));
    assert_eq!(w.begin(2, 2), Err(TransactError::Busy));
    assert_eq!(w.level(), Level::Low);
    assert_eq!(w.end(Ok(vec![1, 2])), Ok(vec![1, 2]));
    assert_eq!(w.level(), Level::High);
    assert_eq!(w.begin(2, 2), Ok(()));
    assert_eq!(w.level(), Level::Low);
}

#[test]
fn mismatched_lengths_refused() {
    let mut w = line(7);
    assert_eq!(w.begin(3, 4), Err(TransactError::LengthMismatch));
    assert_eq!(w.level(), Level::High);
    assert!(!w.is_busy());
}

#[test]
fn write_only_and_read_only_shapes() {
    let mut w = line(7);
    assert_eq!(w.begin(3, 0), Ok(()));
    assert_eq!(w.end(Ok(vec![])), Ok(vec![]));
    assert_eq!(w.begin(0, 4), Ok(()));
    assert_eq!(w.end(Ok(vec![9, 9, 9, 9])), Ok(vec![9, 9, 9, 9]));
    assert_eq!(w.level(), Level::High);
}

#[test]
fn short_reply_is_an_error_and_line_idles() {
    let mut w = line(7);
    assert_eq!(w.begin(4, 4), Ok(()));
    assert_eq!(w.end(Ok(vec![0, 0])), Err(TransactError::LengthMismatch));
    assert_eq!(w.level(), Level::High);
}

#[test]
fn registry_rejects_second_claim() {
    let mut reg = PinRegistry::new();
    assert!(!reg.owns(81));
    let w = reg.claim(81).unwrap();
    assert_eq!(w.pin(), 81);
    assert_eq!(w.level(), Level::High);
    assert!(reg.owns(81));
    assert!(matches!(reg.claim(81), Err(PinError::AlreadyOwned)));
    assert!(reg.claim(72).is_ok());
}

#[test]
fn full_duplex_refuses_any_mismatch() {
    let mut w = line(7);
    assert_eq!(w.begin_exchange(4, 0), Err(TransactError::LengthMismatch));
    assert_eq!(w.begin_exchange(0, 4), Err(TransactError::LengthMismatch));
    assert_eq!(w.begin_exchange(4, 5), Err(TransactError::LengthMismatch));
    assert_eq!(w.level(), Level::High);
    assert!(!w.is_busy());
    assert_eq!(w.begin_exchange(4, 4), Ok(()));
    assert_eq!(w.begin_exchange(4, 4), Err(TransactError::Busy));
    assert_eq!(w.level(), Level::Low);
    assert_eq!(w.end(Ok(vec![1, 2, 3, 4])), Ok(vec![1, 2, 3, 4]));
    assert_eq!(w.mode(), PinMode::Output);
    assert_eq!(w.level(), Level::High);
}
