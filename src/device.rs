//! The radio's command interface: one operation per chip command.
//!
//! Each operation builds the command's frame (its opcode, then its
//! parameters) and opens a transaction for it on the device's chip-select
//! line. The caller clocks the frame out on the bus, full duplex, and hands
//! the transfer's outcome to [`SX1261::complete`], which returns the line to
//! idle and gives back the bytes the chip sent in reply: as many as were
//! sent, the first of them carrying the chip's status.
use vstd::prelude::*;
use crate::encode::{be16, be32, frame_of, push_be16, push_be32, push_bytes, push_timeout, timeout_bytes};
use crate::protocol::{address_of, Command, Register, RegisterAddress, RegisterError, SigBit};
use crate::spi_wrapper::{IoError, SpiWrapper, TransactError, settle};

verus! {

/// Which oscillator the chip runs from in standby.
#[allow(non_camel_case_types)]
#[derive(Clone, Copy, Debug, PartialEq, Eq, Structural)]
pub enum StdbyConfig {
    STDBY_RC,
    STDBY_XOSC,
}

impl StdbyConfig {
    /// The parameter byte of this choice.
    pub open spec fn code(self) -> u8 {
        match self {
            StdbyConfig::STDBY_RC => 0,
            StdbyConfig::STDBY_XOSC => 1,
        }
    }

    /// The parameter byte of this choice.
    pub fn as_byte(&self) -> (r: u8)
        ensures
            r == self.code(),
    {
        match self {
            StdbyConfig::STDBY_RC => 0,
            StdbyConfig::STDBY_XOSC => 1,
        }
    }
}

/// The modem the chip uses for packets.
#[allow(non_camel_case_types)]
#[derive(Clone, Copy, Debug, PartialEq, Eq, Structural)]
pub enum PacketType {
    PACKET_TYPE_GFSK,
    PACKET_TYPE_LORA,
    PACKET_TYPE_LR_FHSS,
}

impl PacketType {
    /// The parameter byte of this packet type.
    pub open spec fn code(self) -> u8 {
        match self {
            PacketType::PACKET_TYPE_GFSK => 0x00,
            PacketType::PACKET_TYPE_LORA => 0x01,
            PacketType::PACKET_TYPE_LR_FHSS => 0x03,
        }
    }

    /// The parameter byte of this packet type.
    pub fn as_byte(&self) -> (r: u8)
        ensures
            r == self.code(),
    {
        match self {
            PacketType::PACKET_TYPE_GFSK => 0x00,
            PacketType::PACKET_TYPE_LORA => 0x01,
            PacketType::PACKET_TYPE_LR_FHSS => 0x03,
        }
    }
}

/// The power amplifier's ramp time, in microseconds.
#[allow(non_camel_case_types)]
#[derive(Clone, Copy, Debug, PartialEq, Eq, Structural)]
pub enum RampTime {
    SET_RAMP_10U,
    SET_RAMP_20U,
    SET_RAMP_40U,
    SET_RAMP_80U,
    SET_RAMP_200U,
    SET_RAMP_800U,
    SET_RAMP_1700U,
    SET_RAMP_3400U,
}

impl RampTime {
    /// The parameter byte of this ramp time.
    pub open spec fn code(self) -> u8 {
        match self {
            RampTime::SET_RAMP_10U => 0x00,
            RampTime::SET_RAMP_20U => 0x01,
            RampTime::SET_RAMP_40U => 0x02,
            RampTime::SET_RAMP_80U => 0x03,
            RampTime::SET_RAMP_200U => 0x04,
            RampTime::SET_RAMP_800U => 0x05,
            RampTime::SET_RAMP_1700U => 0x06,
            RampTime::SET_RAMP_3400U => 0x07,
        }
    }

    /// The parameter byte of this ramp time.
    pub fn as_byte(&self) -> (r: u8)
        ensures
            r == self.code(),
    {
        match self {
            RampTime::SET_RAMP_10U => 0x00,
            RampTime::SET_RAMP_20U => 0x01,
            RampTime::SET_RAMP_40U => 0x02,
            RampTime::SET_RAMP_80U => 0x03,
            RampTime::SET_RAMP_200U => 0x04,
            RampTime::SET_RAMP_800U => 0x05,
            RampTime::SET_RAMP_1700U => 0x06,
            RampTime::SET_RAMP_3400U => 0x07,
        }
    }
}

/// The power amplifier is always set up for the SX1261 (device select 1)
/// with the look-up table the chip's datasheet gives for it.
pub const PA_DEVICE_SEL: u8 = 1;

/// See [`PA_DEVICE_SEL`].
pub const PA_LUT: u8 = 1;

/// Why a register write could not be sent.
#[derive(Clone, Copy, Debug, PartialEq, Eq, Structural)]
pub enum RadioError {
    /// The register could not be resolved to an address.
    Register(RegisterError),
    /// The transaction could not be opened or did not complete.
    Transact(TransactError),
}

/// An SX1261 radio behind its chip-select line.
pub struct SX1261 {
    pub spi_wrapper: SpiWrapper,
}

/// What a command operation does: on a free line it opens a transaction
/// for `frame` and returns the frame; on a busy one it refuses and changes
/// nothing.
pub open spec fn opens(
    before: SX1261,
    after: SX1261,
    frame: Seq<u8>,
    r: Result<Vec<u8>, TransactError>,
) -> bool {
    if before.spi_wrapper.busy() {
        &&& r == Err::<Vec<u8>, TransactError>(TransactError::Busy)
        &&& after == before
    } else {
        &&& r is Ok
        &&& r->Ok_0@ == frame
        &&& before.spi_wrapper.opened_to(&after.spi_wrapper, frame.len())
    }
}

/// The frame that writes `data` to the registers from `at` on.
pub open spec fn register_write_frame(at: RegisterAddress, data: Seq<u8>) -> Seq<u8> {
    frame_of(Command::WriteRegister, be16(at.address) + data)
}

/// What a transaction opened for a frame gives back, once the transfer's
/// outcome is in, is exactly as long as the frame.
pub proof fn lemma_reply_as_long_as_frame(
    before: SX1261,
    after: SX1261,
    frame: Seq<u8>,
    r: Result<Vec<u8>, TransactError>,
    outcome: Result<Vec<u8>, IoError>,
)
    requires
        opens(before, after, frame, r),
        r is Ok,
    ensures
        after.spi_wrapper.busy(),
        settle(outcome, after.spi_wrapper.expected()) is Ok ==> settle(
            outcome,
            after.spi_wrapper.expected(),
        )->Ok_0@.len() == frame.len(),
{
}

impl SX1261 {
    /// The device is ready for commands: its chip-select line is in order.
    pub open spec fn wf(&self) -> bool {
        self.spi_wrapper.wf()
    }

    /// A radio whose transactions go through `spi_wrapper`.
    pub fn new(spi_wrapper: SpiWrapper) -> (r: SX1261)
        ensures
            r.spi_wrapper == spi_wrapper,
    {
        SX1261 { spi_wrapper }
    }

    /// Opens a full-duplex transaction for `tx`.
    fn open(&mut self, tx: Vec<u8>) -> (r: Result<Vec<u8>, TransactError>)
        requires
            old(self).wf(),
        ensures
            final(self).wf(),
            opens(*old(self), *final(self), tx@, r),
    {
        let n = tx.len();
        match self.spi_wrapper.begin_exchange(n, n) {
            Ok(()) => Ok(tx),
            Err(e) => Err(e),
        }
    }

    /// Ends the transaction in flight with the transfer's `outcome`. The
    /// chip-select line goes back to idle whether the transfer succeeded or
    /// not; the reply must be as long as the frame that was sent.
    pub fn complete(&mut self, outcome: Result<Vec<u8>, IoError>) -> (r: Result<
        Vec<u8>,
        TransactError,
    >)
        requires
            old(self).wf(),
            old(self).spi_wrapper.busy(),
        ensures
            final(self).wf(),
            old(self).spi_wrapper.closed_to(&final(self).spi_wrapper),
            r == settle(outcome, old(self).spi_wrapper.expected()),
    {
        self.spi_wrapper.end(outcome)
    }

    /// Puts the chip in standby, running from the oscillator `config` picks.
    #[allow(non_snake_case)]
    pub fn SetStandby(&mut self, config: StdbyConfig) -> (r: Result<Vec<u8>, TransactError>)
        requires
            old(self).wf(),
        ensures
            final(self).wf(),
            opens(*old(self), *final(self), frame_of(Command::SetStandby, seq![config.code()]), r),
    {
        let mut tx: Vec<u8> = Vec::new();
        tx.push(Command::SetStandby.opcode());
        tx.push(config.as_byte());
        assert(tx@ =~= frame_of(Command::SetStandby, seq![config.code()]));
        self.open(tx)
    }

    /// Selects the modem used for packets.
    #[allow(non_snake_case)]
    pub fn SetPacketType(&mut self, packetType: PacketType) -> (r: Result<Vec<u8>, TransactError>)
        requires
            old(self).wf(),
        ensures
            final(self).wf(),
            opens(*old(self), *final(self), frame_of(Command::SetPacketType, seq![packetType.code()]), r),
    {
        let mut tx: Vec<u8> = Vec::new();
        tx.push(Command::SetPacketType.opcode());
        tx.push(packetType.as_byte());
        assert(tx@ =~= frame_of(Command::SetPacketType, seq![packetType.code()]));
        self.open(tx)
    }

    /// Sets the carrier frequency from its frequency word (see
    /// [`crate::encode::rf_frequency_word`]), sent most significant byte
    /// first.
    #[allow(non_snake_case)]
    pub fn SetRFFrequency(&mut self, RFFreq: u32) -> (r: Result<Vec<u8>, TransactError>)
        requires
            old(self).wf(),
        ensures
            final(self).wf(),
            opens(*old(self), *final(self), frame_of(Command::SetRfFrequency, be32(RFFreq)), r),
    {
        let mut tx: Vec<u8> = Vec::new();
        tx.push(Command::SetRfFrequency.opcode());
        push_be32(&mut tx, RFFreq);
        assert(tx@ =~= frame_of(Command::SetRfFrequency, be32(RFFreq)));
        self.open(tx)
    }

    /// Sets the output power and the amplifier's ramp time.
    #[allow(non_snake_case)]
    pub fn SetTxParams(&mut self, power: u8, rampTime: RampTime) -> (r: Result<Vec<u8>, TransactError>)
        requires
            old(self).wf(),
        ensures
            final(self).wf(),
            opens(*old(self), *final(self), frame_of(Command::SetTxParams, seq![power, rampTime.code()]), r),
    {
        let mut tx: Vec<u8> = Vec::new();
        tx.push(Command::SetTxParams.opcode());
        tx.push(power);
        tx.push(rampTime.as_byte());
        assert(tx@ =~= frame_of(Command::SetTxParams, seq![power, rampTime.code()]));
        self.open(tx)
    }

    /// Configures the power amplifier's duty cycle and size, for the SX1261.
    #[allow(non_snake_case)]
    pub fn SetPaConfig(&mut self, paDutyCycle: u8, hpMax: u8) -> (r: Result<Vec<u8>, TransactError>)
        requires
            old(self).wf(),
        ensures
            final(self).wf(),
            opens(
                *old(self),
                *final(self),
                frame_of(Command::SetPaConfig, seq![paDutyCycle, hpMax, PA_DEVICE_SEL, PA_LUT]),
                r,
            ),
    {
        let mut tx: Vec<u8> = Vec::new();
        tx.push(Command::SetPaConfig.opcode());
        tx.push(paDutyCycle);
        tx.push(hpMax);
        tx.push(PA_DEVICE_SEL);
        tx.push(PA_LUT);
        assert(tx@ =~= frame_of(Command::SetPaConfig, seq![paDutyCycle, hpMax, PA_DEVICE_SEL, PA_LUT]));
        self.open(tx)
    }

    /// Sets where in the data buffer transmitted and received payloads
    /// start; both bytes are sent as given.
    #[allow(non_snake_case)]
    pub fn SetBufferBaseAddress(&mut self, TX_base_address: u8, RX_base_address: u8) -> (r: Result<
        Vec<u8>,
        TransactError,
    >)
        requires
            old(self).wf(),
        ensures
            final(self).wf(),
            opens(
                *old(self),
                *final(self),
                frame_of(Command::SetBufferBaseAddress, seq![TX_base_address, RX_base_address]),
                r,
            ),
    {
        let mut tx: Vec<u8> = Vec::new();
        tx.push(Command::SetBufferBaseAddress.opcode());
        tx.push(TX_base_address);
        tx.push(RX_base_address);
        assert(tx@ =~= frame_of(Command::SetBufferBaseAddress, seq![TX_base_address, RX_base_address]));
        self.open(tx)
    }

    /// Writes `data` into the data buffer from `offset` on: the frame is
    /// the opcode, the offset, then the data unchanged.
    #[allow(non_snake_case)]
    pub fn WriteBuffer(&mut self, offset: u8, data: &[u8]) -> (r: Result<Vec<u8>, TransactError>)
        requires
            old(self).wf(),
        ensures
            final(self).wf(),
            opens(*old(self), *final(self), frame_of(Command::WriteBuffer, seq![offset] + data@), r),
    {
        let mut tx: Vec<u8> = Vec::new();
        tx.push(Command::WriteBuffer.opcode());
        tx.push(offset);
        push_bytes(&mut tx, data);
        assert(tx@ =~= frame_of(Command::WriteBuffer, seq![offset] + data@));
        self.open(tx)
    }

    /// Sends the eight modulation parameters as given. The offset takes no
    /// part in the frame.
    #[allow(non_snake_case)]
    pub fn SetModulationParams(&mut self, offset: u8, ModParam: &[u8; 8]) -> (r: Result<
        Vec<u8>,
        TransactError,
    >)
        requires
            old(self).wf(),
        ensures
            final(self).wf(),
            opens(*old(self), *final(self), frame_of(Command::SetModulationParams, ModParam@), r),
    {
        let mut tx: Vec<u8> = Vec::new();
        tx.push(Command::SetModulationParams.opcode());
        push_bytes(&mut tx, ModParam.as_slice());
        assert(tx@ =~= frame_of(Command::SetModulationParams, ModParam@));
        self.open(tx)
    }

    /// Sends the nine packet parameters as given. The offset takes no part
    /// in the frame.
    #[allow(non_snake_case)]
    pub fn SetPacketParams(&mut self, offset: u8, packetParam: &[u8; 9]) -> (r: Result<
        Vec<u8>,
        TransactError,
    >)
        requires
            old(self).wf(),
        ensures
            final(self).wf(),
            opens(*old(self), *final(self), frame_of(Command::SetPacketParams, packetParam@), r),
    {
        let mut tx: Vec<u8> = Vec::new();
        tx.push(Command::SetPacketParams.opcode());
        push_bytes(&mut tx, packetParam.as_slice());
        assert(tx@ =~= frame_of(Command::SetPacketParams, packetParam@));
        self.open(tx)
    }

    /// Sets which interrupts are enabled and which of them each of the
    /// lines DIO1 to DIO3 signals: four independent masks, each sent most
    /// significant byte first.
    #[allow(non_snake_case)]
    pub fn SetDioIrqParams(
        &mut self,
        IrqMask: u16,
        DIO1Mask: u16,
        DIO2Mask: u16,
        DIO3Mask: u16,
    ) -> (r: Result<Vec<u8>, TransactError>)
        requires
            old(self).wf(),
        ensures
            final(self).wf(),
            opens(
                *old(self),
                *final(self),
                frame_of(
                    Command::SetDioIrqParams,
                    be16(IrqMask) + be16(DIO1Mask) + be16(DIO2Mask) + be16(DIO3Mask),
                ),
                r,
            ),
    {
        let mut tx: Vec<u8> = Vec::new();
        tx.push(Command::SetDioIrqParams.opcode());
        push_be16(&mut tx, IrqMask);
        push_be16(&mut tx, DIO1Mask);
        push_be16(&mut tx, DIO2Mask);
        push_be16(&mut tx, DIO3Mask);
        assert(tx@ =~= frame_of(
            Command::SetDioIrqParams,
            be16(IrqMask) + be16(DIO1Mask) + be16(DIO2Mask) + be16(DIO3Mask),
        ));
        self.open(tx)
    }

    /// Writes `data` to the registers from `register` on. The register is
    /// resolved with `index` and `sig_bit` (see [`Register::address`]); the
    /// frame is the opcode, the address most significant byte first, then
    /// the data unchanged. A register that does not resolve is refused and
    /// nothing is opened.
    #[allow(non_snake_case)]
    pub fn WriteRegister(
        &mut self,
        register: Register,
        index: u16,
        sig_bit: SigBit,
        data: &[u8],
    ) -> (r: Result<Vec<u8>, RadioError>)
        requires
            old(self).wf(),
        ensures
            final(self).wf(),
            address_of(register, index, sig_bit) is Err ==> *final(self) == *old(self),
            address_of(register, index, sig_bit) is Err ==> r == Err::<Vec<u8>, RadioError>(
                RadioError::Register(address_of(register, index, sig_bit)->Err_0),
            ),
            address_of(register, index, sig_bit) is Ok && old(self).spi_wrapper.busy() ==> r
                == Err::<Vec<u8>, RadioError>(RadioError::Transact(TransactError::Busy)),
            address_of(register, index, sig_bit) is Ok && old(self).spi_wrapper.busy() ==> *final(
                self) == *old(self),
            address_of(register, index, sig_bit) is Ok && !old(self).spi_wrapper.busy() ==> r is Ok
                && r->Ok_0@ == register_write_frame(address_of(register, index, sig_bit)->Ok_0, data@)
                && old(self).spi_wrapper.opened_to(&final(self).spi_wrapper, r->Ok_0@.len()),
    {
        let at = match register.address(index, sig_bit) {
            Ok(a) => a,
            Err(e) => {
                return Err(RadioError::Register(e));
            },
        };
        let mut tx: Vec<u8> = Vec::new();
        tx.push(Command::WriteRegister.opcode());
        push_be16(&mut tx, at.address);
        push_bytes(&mut tx, data);
        assert(tx@ =~= register_write_frame(at, data@));
        match self.open(tx) {
            Ok(v) => Ok(v),
            Err(e) => Err(RadioError::Transact(e)),
        }
    }

    /// Starts transmitting, with a timeout of which the low 24 bits are
    /// sent, most significant byte first; the top byte is dropped.
    #[allow(non_snake_case)]
    pub fn SetTx(&mut self, timeout: u32) -> (r: Result<Vec<u8>, TransactError>)
        requires
            old(self).wf(),
        ensures
            final(self).wf(),
            opens(*old(self), *final(self), frame_of(Command::SetTx, timeout_bytes(timeout)), r),
    {
        let mut tx: Vec<u8> = Vec::new();
        tx.push(Command::SetTx.opcode());
        push_timeout(&mut tx, timeout);
        assert(tx@ =~= frame_of(Command::SetTx, timeout_bytes(timeout)));
        self.open(tx)
    }
}

} // verus!
