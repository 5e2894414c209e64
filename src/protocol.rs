//! The chip's command set and register map.
use vstd::prelude::*;

verus! {

/// A command of the chip's SPI interface. Each one is sent as a single
/// opcode byte, followed by its parameters.
#[derive(Clone, Copy, Debug, PartialEq, Eq, Structural)]
pub enum Command {
    SetSleep,
    SetStandby,
    SetFs,
    SetTx,
    SetRx,
    StopTimerOnPreamble,
    SetRxDutyCycle,
    SetCad,
    SetTxContinuousWave,
    SetTxInfinitePreamble,
    SetRegulatorMode,
    Calibrate,
    CalibrateImage,
    SetPaConfig,
    SetRxTxFallbackMode,
    WriteRegister,
    ReadRegister,
    WriteBuffer,
    ReadBuffer,
    SetDioIrqParams,
    GetIrqStatus,
    ClearIrqStatus,
    SetDIO2AsRfSwitchCtrl,
    SetDIO3AsTcxoCtrl,
    SetRfFrequency,
    SetPacketType,
    GetPacketType,
    SetTxParams,
    SetModulationParams,
    SetPacketParams,
    SetCadParams,
    SetBufferBaseAddress,
    SetLoRaSymbNumTimeout,
    GetStatus,
    GetRxBufferStatus,
    GetPacketStatus,
    GetRssiInst,
    GetStats,
    ResetStats,
    GetDeviceErrors,
    ClearDeviceErrors,
}

/// The opcode byte of each command, as given by the chip's command tables.
pub open spec fn opcode_of(c: Command) -> u8 {
    match c {
        // operational modes
        Command::SetSleep => 0x84,
        Command::SetStandby => 0x80,
        Command::SetFs => 0xC1,
        Command::SetTx => 0x83,
        Command::SetRx => 0x82,
        Command::StopTimerOnPreamble => 0x9F,
        Command::SetRxDutyCycle => 0x94,
        Command::SetCad => 0xC5,
        Command::SetTxContinuousWave => 0xD1,
        Command::SetTxInfinitePreamble => 0xD2,
        Command::SetRegulatorMode => 0x96,
        Command::Calibrate => 0x89,
        Command::CalibrateImage => 0x98,
        Command::SetPaConfig => 0x95,
        Command::SetRxTxFallbackMode => 0x93,
        // register and buffer access
        Command::WriteRegister => 0x0D,
        Command::ReadRegister => 0x1D,
        Command::WriteBuffer => 0x0E,
        Command::ReadBuffer => 0x1E,
        // DIO and IRQ control
        Command::SetDioIrqParams => 0x08,
        Command::GetIrqStatus => 0x12,
        Command::ClearIrqStatus => 0x02,
        Command::SetDIO2AsRfSwitchCtrl => 0x9D,
        Command::SetDIO3AsTcxoCtrl => 0x97,
        // RF, modulation and packet
        Command::SetRfFrequency => 0x86,
        Command::SetPacketType => 0x8A,
        Command::GetPacketType => 0x11,
        Command::SetTxParams => 0x8E,
        Command::SetModulationParams => 0x8B,
        Command::SetPacketParams => 0x8C,
        Command::SetCadParams => 0x88,
        Command::SetBufferBaseAddress => 0x8F,
        Command::SetLoRaSymbNumTimeout => 0xA0,
        // status
        Command::GetStatus => 0xC0,
        Command::GetRssiInst => 0x15,
        Command::GetRxBufferStatus => 0x13,
        Command::GetPacketStatus => 0x14,
        Command::GetDeviceErrors => 0x17,
        Command::ClearDeviceErrors => 0x07,
        Command::GetStats => 0x10,
        Command::ResetStats => 0x00,
    }
}

/// The command that an opcode byte stands for, if any.
pub open spec fn command_of_opcode(b: u8) -> Option<Command> {
    match b {
        0x84 => Some(Command::SetSleep),
        0x80 => Some(Command::SetStandby),
        0xC1 => Some(Command::SetFs),
        0x83 => Some(Command::SetTx),
        0x82 => Some(Command::SetRx),
        0x9F => Some(Command::StopTimerOnPreamble),
        0x94 => Some(Command::SetRxDutyCycle),
        0xC5 => Some(Command::SetCad),
        0xD1 => Some(Command::SetTxContinuousWave),
        0xD2 => Some(Command::SetTxInfinitePreamble),
        0x96 => Some(Command::SetRegulatorMode),
        0x89 => Some(Command::Calibrate),
        0x98 => Some(Command::CalibrateImage),
        0x95 => Some(Command::SetPaConfig),
        0x93 => Some(Command::SetRxTxFallbackMode),
        0x0D => Some(Command::WriteRegister),
        0x1D => Some(Command::ReadRegister),
        0x0E => Some(Command::WriteBuffer),
        0x1E => Some(Command::ReadBuffer),
        0x08 => Some(Command::SetDioIrqParams),
        0x12 => Some(Command::GetIrqStatus),
        0x02 => Some(Command::ClearIrqStatus),
        0x9D => Some(Command::SetDIO2AsRfSwitchCtrl),
        0x97 => Some(Command::SetDIO3AsTcxoCtrl),
        0x86 => Some(Command::SetRfFrequency),
        0x8A => Some(Command::SetPacketType),
        0x11 => Some(Command::GetPacketType),
        0x8E => Some(Command::SetTxParams),
        0x8B => Some(Command::SetModulationParams),
        0x8C => Some(Command::SetPacketParams),
        0x88 => Some(Command::SetCadParams),
        0x8F => Some(Command::SetBufferBaseAddress),
        0xA0 => Some(Command::SetLoRaSymbNumTimeout),
        0xC0 => Some(Command::GetStatus),
        0x15 => Some(Command::GetRssiInst),
        0x13 => Some(Command::GetRxBufferStatus),
        0x14 => Some(Command::GetPacketStatus),
        0x17 => Some(Command::GetDeviceErrors),
        0x07 => Some(Command::ClearDeviceErrors),
        0x10 => Some(Command::GetStats),
        0x00 => Some(Command::ResetStats),
        _ => None,
    }
}

/// Every opcode leads back to its command: reading the opcode table
/// backwards loses nothing.
pub proof fn lemma_opcode_decodes(c: Command)
    ensures
        command_of_opcode(opcode_of(c)) == Some(c),
{
}

/// No two commands share an opcode.
pub proof fn lemma_opcodes_distinct(a: Command, b: Command)
    ensures
        a != b ==> opcode_of(a) != opcode_of(b),
{
    lemma_opcode_decodes(a);
    lemma_opcode_decodes(b);
}

impl Command {
    /// The opcode byte that starts every frame of this command.
    pub fn opcode(&self) -> (r: u8)
        ensures
            r == opcode_of(*self),
    {
        match self {
            Command::SetSleep => 0x84,
            Command::SetStandby => 0x80,
            Command::SetFs => 0xC1,
            Command::SetTx => 0x83,
            Command::SetRx => 0x82,
            Command::StopTimerOnPreamble => 0x9F,
            Command::SetRxDutyCycle => 0x94,
            Command::SetCad => 0xC5,
            Command::SetTxContinuousWave => 0xD1,
            Command::SetTxInfinitePreamble => 0xD2,
            Command::SetRegulatorMode => 0x96,
            Command::Calibrate => 0x89,
            Command::CalibrateImage => 0x98,
            Command::SetPaConfig => 0x95,
            Command::SetRxTxFallbackMode => 0x93,
            Command::WriteRegister => 0x0D,
            Command::ReadRegister => 0x1D,
            Command::WriteBuffer => 0x0E,
            Command::ReadBuffer => 0x1E,
            Command::SetDioIrqParams => 0x08,
            Command::GetIrqStatus => 0x12,
            Command::ClearIrqStatus => 0x02,
            Command::SetDIO2AsRfSwitchCtrl => 0x9D,
            Command::SetDIO3AsTcxoCtrl => 0x97,
            Command::SetRfFrequency => 0x86,
            Command::SetPacketType => 0x8A,
            Command::GetPacketType => 0x11,
            Command::SetTxParams => 0x8E,
            Command::SetModulationParams => 0x8B,
            Command::SetPacketParams => 0x8C,
            Command::SetCadParams => 0x88,
            Command::SetBufferBaseAddress => 0x8F,
            Command::SetLoRaSymbNumTimeout => 0xA0,
            Command::GetStatus => 0xC0,
            Command::GetRssiInst => 0x15,
            Command::GetRxBufferStatus => 0x13,
            Command::GetPacketStatus => 0x14,
            Command::GetDeviceErrors => 0x17,
            Command::ClearDeviceErrors => 0x07,
            Command::GetStats => 0x10,
            Command::ResetStats => 0x00,
        }
    }
}

/// A register of the chip's address space. Some are single bytes at a fixed
/// address; some are tables of slots reached by an index; one is split into
/// a most and a least significant byte.
#[derive(Clone, Copy, Debug, PartialEq, Eq, Structural)]
pub enum Register {
    HoppingEnable,
    PacketLength,
    NbHoppingBlocks,
    NbSymbols,
    Freq,
    DIOxOutputEnable,
    DIOxInputEnable,
    DIOxPullUpControl,
    DIOxPullDownControl,
    WhiteningInitialValueMSB,
    WhiteningInitialValueLSB,
    CRCInitialValue,
    CRCPolynomialValue,
    SyncWord,
    NodeAddress,
    BroadcastAddress,
    IQPolaritySetup,
    LoRaSyncWord,
    RandomNumberGen,
    TxModulation,
    RxGain,
    TxClampConfig,
    OCPConfiguration,
    RTCControl,
    XTATrim,
    XTBTrim,
    DIO3OutputVoltageControl,
    EventMask,
}

/// Which byte of a register split by significance is meant.
#[derive(Clone, Copy, Debug, PartialEq, Eq, Structural)]
pub enum SigBit {
    MSB,
    LSB,
}

/// Where a register lives: its 16-bit address and its width in bytes.
#[derive(Clone, Copy, Debug, PartialEq, Eq, Structural)]
pub struct RegisterAddress {
    pub address: u16,
    pub width: u8,
}

/// Why a register could not be resolved.
#[derive(Clone, Copy, Debug, PartialEq, Eq, Structural)]
pub enum RegisterError {
    /// The index lies past the last slot of an indexed register.
    IndexOutOfRange,
}

/// A register at a fixed address: the index plays no part.
pub open spec fn fixed(address: u16, width: u8) -> Result<RegisterAddress, RegisterError> {
    Ok(RegisterAddress { address, width })
}

/// Slot `index` of a table of `count` slots that starts at `base`, one slot
/// every `stride` bytes.
pub open spec fn slot(base: int, stride: int, count: int, width: u8, index: u16) -> Result<
    RegisterAddress,
    RegisterError,
> {
    if index < count {
        Ok(RegisterAddress { address: (base + index * stride) as u16, width })
    } else {
        Err(RegisterError::IndexOutOfRange)
    }
}

/// The chip's register map.
pub open spec fn address_of(r: Register, index: u16, sig: SigBit) -> Result<
    RegisterAddress,
    RegisterError,
> {
    match r {
        Register::HoppingEnable => fixed(0x0385, 1),
        Register::PacketLength => fixed(0x0386, 1),
        Register::NbHoppingBlocks => fixed(0x0387, 1),
        Register::NbSymbols => slot(0x0388, 4, 16, 2, index),
        Register::Freq => slot(0x038A, 4, 16, 2, index),
        Register::DIOxOutputEnable => fixed(0x0580, 1),
        Register::DIOxInputEnable => fixed(0x0583, 1),
        Register::DIOxPullUpControl => fixed(0x0584, 1),
        Register::DIOxPullDownControl => fixed(0x0585, 1),
        Register::WhiteningInitialValueMSB => fixed(0x06B8, 1),
        Register::WhiteningInitialValueLSB => fixed(0x06B9, 1),
        Register::CRCInitialValue => slot(0x06BC, 1, 2, 1, index),
        Register::CRCPolynomialValue => slot(0x06BE, 1, 2, 1, index),
        Register::SyncWord => slot(0x06C0, 1, 8, 1, index),
        Register::NodeAddress => fixed(0x06CD, 1),
        Register::BroadcastAddress => fixed(0x06CE, 1),
        Register::IQPolaritySetup => fixed(0x0736, 1),
        Register::LoRaSyncWord => match sig {
            SigBit::MSB => fixed(0x0740, 1),
            SigBit::LSB => fixed(0x0741, 1),
        },
        Register::RandomNumberGen => slot(0x0819, 1, 4, 1, index),
        Register::TxModulation => fixed(0x0889, 1),
        Register::RxGain => fixed(0x08AC, 1),
        Register::TxClampConfig => fixed(0x08D8, 1),
        Register::OCPConfiguration => fixed(0x08E7, 1),
        Register::RTCControl => fixed(0x0902, 1),
        Register::XTATrim => fixed(0x0911, 1),
        Register::XTBTrim => fixed(0x0912, 1),
        Register::DIO3OutputVoltageControl => fixed(0x0920, 1),
        Register::EventMask => fixed(0x0944, 1),
    }
}

/// Slot `index` of a table, or the error when the table has no such slot.
fn resolve_slot(base: u16, stride: u16, count: u16, width: u8, index: u16) -> (r: Result<
    RegisterAddress,
    RegisterError,
>)
    requires
        stride >= 1,
        base + stride * count <= 0x10000,
    ensures
        r == slot(base as int, stride as int, count as int, width, index),
{
    if index < count {
        proof {
            assert(index * stride + stride <= count * stride) by (nonlinear_arith)
                requires
                    index < count,
            ;
        }
        Ok(RegisterAddress { address: base + index * stride, width })
    } else {
        Err(RegisterError::IndexOutOfRange)
    }
}

impl Register {
    /// Resolves the register to its address and width. For an indexed
    /// register the address is its base plus `index` times its stride, and
    /// an index past the last slot is refused; for the split sync word,
    /// `sig_bit` picks the byte; elsewhere both are ignored.
    pub fn address(&self, index: u16, sig_bit: SigBit) -> (r: Result<RegisterAddress, RegisterError>)
        ensures
            r == address_of(*self, index, sig_bit),
    {
        match self {
            Register::HoppingEnable => Ok(RegisterAddress { address: 0x0385, width: 1 }),
            Register::PacketLength => Ok(RegisterAddress { address: 0x0386, width: 1 }),
            Register::NbHoppingBlocks => Ok(RegisterAddress { address: 0x0387, width: 1 }),
            Register::NbSymbols => resolve_slot(0x0388, 4, 16, 2, index),
            Register::Freq => resolve_slot(0x038A, 4, 16, 2, index),
            Register::DIOxOutputEnable => Ok(RegisterAddress { address: 0x0580, width: 1 }),
            Register::DIOxInputEnable => Ok(RegisterAddress { address: 0x0583, width: 1 }),
            Register::DIOxPullUpControl => Ok(RegisterAddress { address: 0x0584, width: 1 }),
            Register::DIOxPullDownControl => Ok(RegisterAddress { address: 0x0585, width: 1 }),
            Register::WhiteningInitialValueMSB => Ok(RegisterAddress { address: 0x06B8, width: 1 }),
            Register::WhiteningInitialValueLSB => Ok(RegisterAddress { address: 0x06B9, width: 1 }),
            Register::CRCInitialValue => resolve_slot(0x06BC, 1, 2, 1, index),
            Register::CRCPolynomialValue => resolve_slot(0x06BE, 1, 2, 1, index),
            Register::SyncWord => resolve_slot(0x06C0, 1, 8, 1, index),
            Register::NodeAddress => Ok(RegisterAddress { address: 0x06CD, width: 1 }),
            Register::BroadcastAddress => Ok(RegisterAddress { address: 0x06CE, width: 1 }),
            Register::IQPolaritySetup => Ok(RegisterAddress { address: 0x0736, width: 1 }),
            Register::LoRaSyncWord => match sig_bit {
                SigBit::MSB => Ok(RegisterAddress { address: 0x0740, width: 1 }),
                SigBit::LSB => Ok(RegisterAddress { address: 0x0741, width: 1 }),
            },
            Register::RandomNumberGen => resolve_slot(0x0819, 1, 4, 1, index),
            Register::TxModulation => Ok(RegisterAddress { address: 0x0889, width: 1 }),
            Register::RxGain => Ok(RegisterAddress { address: 0x08AC, width: 1 }),
            Register::TxClampConfig => Ok(RegisterAddress { address: 0x08D8, width: 1 }),
            Register::OCPConfiguration => Ok(RegisterAddress { address: 0x08E7, width: 1 }),
            Register::RTCControl => Ok(RegisterAddress { address: 0x0902, width: 1 }),
            Register::XTATrim => Ok(RegisterAddress { address: 0x0911, width: 1 }),
            Register::XTBTrim => Ok(RegisterAddress { address: 0x0912, width: 1 }),
            Register::DIO3OutputVoltageControl => Ok(RegisterAddress { address: 0x0920, width: 1 }),
            Register::EventMask => Ok(RegisterAddress { address: 0x0944, width: 1 }),
        }
    }
}

/// An indexed register resolves to its base plus the index times its
/// stride, for every index inside its table, and refuses every index past
/// it: the hopping table's symbol counts sit four bytes apart from 0x0388,
/// sixteen of them.
pub proof fn lemma_indexed_address(index: u16, sig: SigBit)
    ensures
        index < 16 ==> address_of(Register::NbSymbols, index, sig) == Ok::<
            RegisterAddress,
            RegisterError,
        >(RegisterAddress { address: (0x0388 + 4 * index) as u16, width: 2 }),
        index >= 16 ==> address_of(Register::NbSymbols, index, sig) == Err::<
            RegisterAddress,
            RegisterError,
        >(RegisterError::IndexOutOfRange),
{
}

} // verus!
