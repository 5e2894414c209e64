use sx1261::device::{PacketType, RadioError, RampTime, StdbyConfig, SX1261};
use sx1261::encode::{rf_frequency_hz, rf_frequency_word, FrequencyError};
use sx1261::protocol::{Register, RegisterError, SigBit};
use sx1261::spi_wrapper::{IoError, Level, PinRegistry, SpiWrapper, TransactError};

fn radio() -> SX1261 {
    SX1261::new(SpiWrapper::new(&mut PinRegistry::new(), 81).unwrap())
}

#[test]
fn standby_frame() {
    let mut r = radio();
    assert_eq!(r.SetStandby(StdbyConfig::STDBY_XOSC), Ok(vec![0x80, 0x01]));
    assert_eq!(r.spi_wrapper.level(), Level::Low);
    assert_eq!(r.complete(Ok(vec![0xA2, 0x22])), Ok(vec![0xA2, 0x22]));
    assert_eq!(r.spi_wrapper.level(), Level::High);
    assert_eq!(r.SetStandby(StdbyConfig::STDBY_RC), Ok(vec![0x80, 0x00]));
}

#[test]
fn packet_type_frame() {
    let mut r = radio();
    assert_eq!(r.SetPacketType(PacketType::PACKET_TYPE_LR_FHSS), Ok(vec![0x8A, 0x03]));
}

#[test]
fn rf_frequency_915_mhz() {
    let word = rf_frequency_word(915_000_000, 32_000_000).unwrap();
    assert_eq!(word as u64, 915_000_000_u64 * (1 << 25) / 32_000_000);
    assert_eq!(word, 959_447_040);
    let mut r = radio();
    let bytes = word.to_be_bytes();
    assert_eq!(
        r.SetRFFrequency(word),
        Ok(vec![0x86, bytes[0], bytes[1], bytes[2], bytes[3]])
    );
    assert_eq!(rf_frequency_hz(word, 32_000_000), 915_000_000);
}

#[test]
fn rf_frequency_round_trip_within_one_step() {
    let crystal = 32_000_000_u32;
    let step = crystal as f64 / (1u64 << 25) as f64;
    for target in [150_000_000_u32, 433_920_000, 868_100_001, 960_000_000] {
        let word = rf_frequency_word(target, crystal).unwrap();
        let back = rf_frequency_hz(word, crystal);
        assert!((back as f64 - target as f64).abs() <= step + 1.0);
    }
}

#[test]
fn rf_frequency_rounds_to_nearest() {
    // 1 Hz with a 2^25 Hz crystal is exactly one step
    assert_eq!(rf_frequency_word(1, 1 << 25), Ok(1));
    // 3 / 2 rounds up, 2 / 3 rounds up, 1 / 3 rounds down
    assert_eq!(rf_frequency_word(3, 1 << 26), Ok(2));
    assert_eq!(rf_frequency_word(2, 3 << 25), Ok(1));
    assert_eq!(rf_frequency_word(1, 3 << 25), Ok(0));
}

#[test]
fn rf_frequency_errors() {
    assert_eq!(rf_frequency_word(915_000_000, 0), Err(FrequencyError::ZeroCrystal));
    assert_eq!(rf_frequency_word(u32::MAX, 1), Err(FrequencyError::WordOverflow));
}

#[test]
fn tx_timeout_drops_top_byte() {
    let mut r = radio();
    assert_eq!(r.SetTx(0x01020304), Ok(vec![0x83, 0x02, 0x03, 0x04]));
}

#[test]
fn tx_params_frame() {
    let mut r = radio();
    assert_eq!(r.SetTxParams(14, RampTime::SET_RAMP_200U), Ok(vec![0x8E, 14, 0x04]));
}

#[test]
fn pa_config_frame() {
    let mut r = radio();
    assert_eq!(r.SetPaConfig(0x04, 0x00), Ok(vec![0x95, 0x04, 0x00, 0x01, 0x01]));
}

#[test]
fn buffer_base_address_frame() {
    let mut r = radio();
    assert_eq!(r.SetBufferBaseAddress(0x80, 0x10), Ok(vec![0x8F, 0x80, 0x10]));
}

#[test]
fn write_buffer_frame_and_reply_length() {
    let mut r = radio();
    let tx = r.WriteBuffer(0x20, &[0xDE, 0xAD, 0xBE, 0xEF]).unwrap();
    assert_eq!(tx, vec![0x0E, 0x20, 0xDE, 0xAD, 0xBE, 0xEF]);
    let rx = r.complete(Ok(vec![0; 6])).unwrap();
    assert_eq!(rx.len(), tx.len());
}

#[test]
fn write_buffer_empty_payload() {
    let mut r = radio();
    assert_eq!(r.WriteBuffer(0, &[]), Ok(vec![0x0E, 0x00]));
}

#[test]
fn reply_of_wrong_length_refused() {
    let mut r = radio();
    r.WriteBuffer(0, &[1, 2]).unwrap();
    assert_eq!(r.complete(Ok(vec![0; 3])), Err(TransactError::LengthMismatch));
    assert_eq!(r.spi_wrapper.level(), Level::High);
}

#[test]
fn modulation_and_packet_params_frames() {
    let mut r = radio();
    assert_eq!(
        r.SetModulationParams(0, &[1, 2, 3, 4, 5, 6, 7, 8]),
        Ok(vec![0x8B, 1, 2, 3, 4, 5, 6, 7, 8])
    );
    r.complete(Ok(vec![0; 9])).unwrap();
    assert_eq!(
        r.SetPacketParams(0, &[9, 8, 7, 6, 5, 4, 3, 2, 1]),
        Ok(vec![0x8C, 9, 8, 7, 6, 5, 4, 3, 2, 1])
    );
}

#[test]
fn irq_masks_encoded_independently() {
    let mut r = radio();
    assert_eq!(
        r.SetDioIrqParams(0x0201, 0x0403, 0x0605, 0x0807),
        Ok(vec![0x08, 0x02, 0x01, 0x04, 0x03, 0x06, 0x05, 0x08, 0x07])
    );
}

#[test]
fn write_register_frame() {
    let mut r = radio();
    assert_eq!(
        r.WriteRegister(Register::SyncWord, 2, SigBit::MSB, &[0x12, 0x34]),
        Ok(vec![0x0D, 0x06, 0xC2, 0x12, 0x34])
    );
}

#[test]
fn write_register_bad_index() {
    let mut r = radio();
    assert_eq!(
        r.WriteRegister(Register::NbSymbols, 16, SigBit::MSB, &[0]),
        Err(RadioError::Register(RegisterError::IndexOutOfRange))
    );
    assert!(!r.spi_wrapper.is_busy());
    assert_eq!(r.spi_wrapper.level(), Level::High);
}

#[test]
fn command_refused_while_busy() {
    let mut r = radio();
    r.SetStandby(StdbyConfig::STDBY_RC).unwrap();
    assert_eq!(r.SetTx(0), Err(TransactError::Busy));
    assert_eq!(
        r.WriteRegister(Register::RxGain, 0, SigBit::MSB, &[0x96]),
        Err(RadioError::Transact(TransactError::Busy))
    );
    let err = IoError { code: None };
    assert_eq!(r.complete(Err(err)), Err(TransactError::Io(err)));
    assert_eq!(r.spi_wrapper.level(), Level::High);
    assert_eq!(r.SetTx(0), Ok(vec![0x83, 0, 0, 0]));
}
