use sx1261::protocol::{Command, Register, RegisterAddress, RegisterError, SigBit};

const ALL: [Command; 41] = [
    Command::SetSleep,
    Command::SetStandby,
    Command::SetFs,
    Command::SetTx,
    Command::SetRx,
    Command::StopTimerOnPreamble,
    Command::SetRxDutyCycle,
    Command::SetCad,
    Command::SetTxContinuousWave,
    Command::SetTxInfinitePreamble,
    Command::SetRegulatorMode,
    Command::Calibrate,
    Command::CalibrateImage,
    Command::SetPaConfig,
    Command::SetRxTxFallbackMode,
    Command::WriteRegister,
    Command::ReadRegister,
    Command::WriteBuffer,
    Command::ReadBuffer,
    Command::SetDioIrqParams,
    Command::GetIrqStatus,
    Command::ClearIrqStatus,
    Command::SetDIO2AsRfSwitchCtrl,
    Command::SetDIO3AsTcxoCtrl,
    Command::SetRfFrequency,
    Command::SetPacketType,
    Command::GetPacketType,
    Command::SetTxParams,
    Command::SetModulationParams,
    Command::SetPacketParams,
    Command::SetCadParams,
    Command::SetBufferBaseAddress,
    Command::SetLoRaSymbNumTimeout,
    Command::GetStatus,
    Command::GetRxBufferStatus,
    Command::GetPacketStatus,
    Command::GetRssiInst,
    Command::GetStats,
    Command::ResetStats,
    Command::GetDeviceErrors,
    Command::ClearDeviceErrors,
];

#[test]
fn opcodes_pairwise_distinct() {
    for (i, a) in ALL.iter().enumerate() {
        for b in ALL.iter().skip(i + 1) {
            assert_ne!(a.opcode(), b.opcode(), "{:?} and {:?}", a, b);
        }
    }
}

#[test]
fn documented_opcodes() {
    assert_eq!(Command::SetSleep.opcode(), 0x84);
    assert_eq!(Command::SetStandby.opcode(), 0x80);
    assert_eq!(Command::SetTx.opcode(), 0x83);
    assert_eq!(Command::WriteRegister.opcode(), 0x0D);
    assert_eq!(Command::WriteBuffer.opcode(), 0x0E);
    assert_eq!(Command::SetDioIrqParams.opcode(), 0x08);
    assert_eq!(Command::SetRfFrequency.opcode(), 0x86);
    assert_eq!(Command::SetBufferBaseAddress.opcode(), 0x8F);
    assert_eq!(Command::GetStatus.opcode(), 0xC0);
    assert_eq!(Command::ResetStats.opcode(), 0x00);
}

fn at(address: u16, width: u8) -> Result<RegisterAddress, RegisterError> {
    Ok(RegisterAddress { address, width })
}

#[test]
fn indexed_register_addresses() {
    assert_eq!(Register::NbSymbols.address(0, SigBit::MSB), at(0x0388, 2));
    assert_eq!(Register::NbSymbols.address(3, SigBit::MSB), at(0x0394, 2));
    assert_eq!(Register::NbSymbols.address(15, SigBit::LSB), at(0x03C4, 2));
    assert_eq!(Register::Freq.address(1, SigBit::MSB), at(0x038E, 2));
    assert_eq!(Register::SyncWord.address(7, SigBit::MSB), at(0x06C7, 1));
    assert_eq!(Register::CRCInitialValue.address(1, SigBit::MSB), at(0x06BD, 1));
    assert_eq!(Register::RandomNumberGen.address(3, SigBit::MSB), at(0x081C, 1));
}

#[test]
fn index_out_of_range_refused() {
    assert_eq!(Register::NbSymbols.address(16, SigBit::MSB), Err(RegisterError::IndexOutOfRange));
    assert_eq!(Register::Freq.address(0xFFFF, SigBit::MSB), Err(RegisterError::IndexOutOfRange));
    assert_eq!(Register::SyncWord.address(8, SigBit::MSB), Err(RegisterError::IndexOutOfRange));
    assert_eq!(Register::CRCPolynomialValue.address(2, SigBit::MSB), Err(RegisterError::IndexOutOfRange));
    assert_eq!(Register::RandomNumberGen.address(4, SigBit::MSB), Err(RegisterError::IndexOutOfRange));
}

#[test]
fn fixed_and_split_registers() {
    assert_eq!(Register::HoppingEnable.address(9, SigBit::LSB), at(0x0385, 1));
    assert_eq!(Register::DIO3OutputVoltageControl.address(0, SigBit::MSB), at(0x0920, 1));
    assert_eq!(Register::LoRaSyncWord.address(0, SigBit::MSB), at(0x0740, 1));
    assert_eq!(Register::LoRaSyncWord.address(0, SigBit::LSB), at(0x0741, 1));
    assert_eq!(Register::EventMask.address(0, SigBit::MSB), at(0x0944, 1));
}

#[test]
fn every_frame_starts_with_its_opcode() {
    for c in ALL.iter() {
        let f = sx1261::encode::frame(*c, &[0xAA, 0x55]);
        assert_eq!(f, vec![c.opcode(), 0xAA, 0x55]);
    }
    assert_eq!(sx1261::encode::frame(Command::GetStatus, &[]), vec![0xC0]);
}
