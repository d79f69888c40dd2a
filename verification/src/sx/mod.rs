//! The operations of the driver.
//!
//! Each function of this module answers to one operation of the modem and
//! says what the host must do for it: a [`Step`] or a series of them. The
//! functions named `*_response` read what the chip sent back.
//!
//! The driver keeps no record of the chip's operating mode. It is for the
//! caller to issue commands in an order that the chip accepts.

pub mod err;
pub mod host;
pub mod model;
pub mod sequence;
pub mod wait;

use crate::bytes::{be16, u16_from_bytes, u16_to_be_bytes, u32_to_be_bytes, word};
use crate::conf::Config;
use crate::op::calib::{CalibImageFreq, CalibParam};
use crate::op::irq::{IrqMask, IrqStatus};
use crate::op::modulation::ModParams;
use crate::op::packet::{LoRaCrcType, LoRaPacketParams, PacketParams, PacketType};
use crate::op::rxtx::{PaConfig, RxTxTimeout, TxParams};
use crate::op::status::{
    signed_byte, DeviceErrors, PacketStatus, RxBufferStatus, Stats, Status,
};
use crate::op::tcxo::{TcxoDelay, TcxoVoltage};
use crate::op::StandbyConfig;
use crate::reg::Register;
use err::{PinError, SpiError};
use host::{ops_view, steps_view, Action, Op, Operation, Step, StepView};
use model::NOP;
use vstd::prelude::*;

verus! {

/// Set the LoRa sync word.
/// Use 0x3444 for public networks like TTN, 0x1424 for private networks.
pub fn set_sync_word(sync_word: u16) -> (step: Step<SpiError>)
    ensures
        step@ == model::set_sync_word(sync_word),
{
    let sync_word = u16_to_be_bytes(sync_word);
    write_register(Register::LoRaSyncWordMsb, &sync_word)
}

/// Set the modem packet type, which can be either GFSK or LoRa.
pub fn set_packet_type(packet_type: PacketType) -> (step: Step<SpiError>)
    ensures
        step@ == model::set_packet_type(packet_type),
{
    let bytes: [u8; 2] = [0x8A, u8::from(packet_type)];
    assert(bytes@ =~= seq![0x8Au8, packet_type.code()]);
    Step::of_one(Operation::write(&bytes), SpiError::Write)
}

/// Put the modem in standby mode.
pub fn set_standby(standby_config: StandbyConfig) -> (step: Step<SpiError>)
    ensures
        step@ == model::set_standby(standby_config),
{
    let bytes: [u8; 2] = [0x80, u8::from(standby_config)];
    assert(bytes@ =~= seq![0x80u8, standby_config.code()]);
    Step::of_one(Operation::write(&bytes), SpiError::Write)
}

/// Get the current status of the modem.
pub fn get_status() -> (step: Step<SpiError>)
    ensures
        step@ == model::get_status(),
{
    let bytes: [u8; 2] = [0xC0, NOP];
    assert(bytes@ =~= seq![0xC0u8, NOP]);
    Step::of_one(Operation::transfer_in_place(&bytes), SpiError::Transfer)
}

/// Reads the response to [`get_status`]: two bytes, the second of which is
/// the status.
pub fn get_status_response(response: &[u8]) -> (r: Result<Status, SpiError>)
    ensures
        r == if response@.len() == 2 {
            Ok::<Status, SpiError>(Status::of_bits(response@[1]))
        } else {
            Err::<Status, SpiError>(SpiError::Transfer)
        },
{
    if response.len() != 2 {
        return Err(SpiError::Transfer);
    }
    Ok(Status::from(response[1]))
}

/// Put the modem in frequency synthesis mode.
pub fn set_fs() -> (step: Step<SpiError>)
    ensures
        step@ == model::set_fs(),
{
    let bytes: [u8; 1] = [0xC1];
    assert(bytes@ =~= seq![0xC1u8]);
    Step::of_one(Operation::write(&bytes), SpiError::Transfer)
}

/// Get the reception counters of the modem.
pub fn get_stats() -> (step: Step<SpiError>)
    ensures
        step@ == model::get_stats(),
{
    let bytes: [u8; 8] = [0x10, NOP, NOP, NOP, NOP, NOP, NOP, NOP];
    assert(bytes@ =~= seq![0x10u8, NOP, NOP, NOP, NOP, NOP, NOP, NOP]);
    Step::of_one(Operation::transfer_in_place(&bytes), SpiError::Transfer)
}

/// Reads the response to [`get_stats`]: eight bytes, of which the second is
/// the status and the last six are three counters, each most significant
/// byte first.
pub fn get_stats_response(response: &[u8]) -> (r: Result<Stats, SpiError>)
    ensures
        r == if response@.len() == 8 {
            Ok::<Stats, SpiError>(
                Stats {
                    status: Status::of_bits(response@[1]),
                    rx_pkt: word(response@[2], response@[3]),
                    crc_error: word(response@[4], response@[5]),
                    header_error: word(response@[6], response@[7]),
                },
            )
        } else {
            Err::<Stats, SpiError>(SpiError::Transfer)
        },
{
    if response.len() != 8 {
        return Err(SpiError::Transfer);
    }
    Ok(
        Stats::from(
            [
                response[1],
                response[2],
                response[3],
                response[4],
                response[5],
                response[6],
                response[7],
            ],
        ),
    )
}

/// Calibrate the image rejection for a frequency band.
pub fn calibrate_image(freq: CalibImageFreq) -> (step: Step<SpiError>)
    ensures
        step@ == model::calibrate_image(freq),
{
    let opcode: [u8; 1] = [0x98];
    assert(opcode@ =~= seq![0x98u8]);
    let freq: [u8; 2] = <[u8; 2]>::from(freq);
    Step::of_two(Operation::write(&opcode), Operation::write(&freq), SpiError::Write)
}

/// Calibrate the blocks of the modem that `calib_param` selects.
pub fn calibrate(calib_param: CalibParam) -> (step: Step<SpiError>)
    ensures
        step@ == model::calibrate(calib_param),
{
    let bytes: [u8; 2] = [0x89, u8::from(calib_param)];
    assert(bytes@ =~= seq![0x89u8, calib_param.bits()]);
    Step::of_one(Operation::write(&bytes), SpiError::Write)
}

/// Write data into a register, and into those that follow it where there
/// is more than one byte.
pub fn write_register(register: Register, data: &[u8]) -> (step: Step<SpiError>)
    ensures
        step@ == model::write_register(register, data@),
{
    let opcode: [u8; 1] = [0x0D];
    assert(opcode@ =~= seq![0x0Du8]);
    let start_addr = u16_to_be_bytes(u16::from(register));
    let ops = vec![Operation::write(&opcode), Operation::write(&start_addr), Operation::write(data)];
    assert(ops_view(ops@) =~= seq![
        Op::Write(seq![0x0Du8]),
        Op::Write(be16(register.addr())),
        Op::Write(data@),
    ]);
    Step::of_all(ops, SpiError::Write)
}

/// Read `len` bytes from the registers that start at `start_addr`.
pub fn read_register(start_addr: u16, len: usize) -> (step: Step<SpiError>)
    ensures
        step@ == model::read_register(start_addr, len as nat),
{
    let opcode: [u8; 1] = [0x1D];
    assert(opcode@ =~= seq![0x1Du8]);
    let start_addr = u16_to_be_bytes(start_addr);
    let nop: [u8; 1] = [NOP];
    assert(nop@ =~= seq![NOP]);
    let ops = vec![
        Operation::write(&opcode),
        Operation::write(&start_addr),
        Operation::write(&nop),
        Operation::Read(len),
    ];
    assert(ops_view(ops@) =~= seq![
        Op::Write(seq![0x1Du8]),
        Op::Write(start_addr@),
        Op::Write(seq![NOP]),
        Op::Read(len as nat),
    ]);
    Step::of_all(ops, SpiError::Transfer)
}

/// Write data into the buffer at the given offset.
pub fn write_buffer(offset: u8, data: &[u8]) -> (step: Step<SpiError>)
    ensures
        step@ == model::write_buffer(offset, data@),
{
    let header: [u8; 2] = [0x0E, offset];
    assert(header@ =~= seq![0x0Eu8, offset]);
    Step::of_two(Operation::write(&header), Operation::write(data), SpiError::Write)
}

/// Read `len` bytes from the buffer, from the given offset onwards.
pub fn read_buffer(offset: u8, len: usize) -> (step: Step<SpiError>)
    ensures
        step@ == model::read_buffer(offset, len as nat),
{
    let header: [u8; 3] = [0x1E, offset, NOP];
    assert(header@ =~= seq![0x1Eu8, offset, NOP]);
    Step::of_two(Operation::write(&header), Operation::Read(len), SpiError::Transfer)
}

/// Takes the response to [`read_register`] or [`read_buffer`]: the `len`
/// bytes asked for.
pub fn read_response(response: Vec<u8>, len: usize) -> (r: Result<Vec<u8>, SpiError>)
    ensures
        r is Ok <==> response@.len() == len,
        r matches Ok(data) ==> data@ == response@,
        r matches Err(e) ==> e == SpiError::Transfer,
{
    if response.len() != len {
        return Err(SpiError::Transfer);
    }
    Ok(response)
}

/// Configure the DIO2 pin as RF switch control.
pub fn set_dio2_as_rf_switch_ctrl(enable: bool) -> (step: Step<SpiError>)
    ensures
        step@ == model::set_dio2_as_rf_switch_ctrl(enable),
{
    let bytes: [u8; 2] = [0x9D, if enable { 1 } else { 0 }];
    assert(bytes@ =~= seq![0x9Du8, if enable { 1u8 } else { 0u8 }]);
    Step::of_one(Operation::write(&bytes), SpiError::Write)
}

/// Get the signal figures of the last packet received.
pub fn get_packet_status() -> (step: Step<SpiError>)
    ensures
        step@ == model::get_packet_status(),
{
    let header: [u8; 2] = [0x14, NOP];
    assert(header@ =~= seq![0x14u8, NOP]);
    Step::of_two(Operation::write(&header), Operation::Read(3), SpiError::Transfer)
}

/// Reads the response to [`get_packet_status`]: the RSSI of the packet, its
/// SNR as a signed byte, and the RSSI of the signal.
pub fn get_packet_status_response(response: &[u8]) -> (r: Result<PacketStatus, SpiError>)
    ensures
        r == if response@.len() == 3 {
            Ok::<PacketStatus, SpiError>(
                PacketStatus {
                    rssi_pkt: response@[0],
                    snr_pkt: signed_byte(response@[1]),
                    signal_rssi_pkt: response@[2],
                },
            )
        } else {
            Err::<PacketStatus, SpiError>(SpiError::Transfer)
        },
{
    if response.len() != 3 {
        return Err(SpiError::Transfer);
    }
    Ok(PacketStatus::from([response[0], response[1], response[2]]))
}

/// Configure the DIO3 pin as TCXO control.
pub fn set_dio3_as_tcxo_ctrl(tcxo_voltage: TcxoVoltage, tcxo_delay: TcxoDelay) -> (step: Step<
    SpiError,
>)
    ensures
        step@ == model::set_dio3_as_tcxo_ctrl(tcxo_voltage, tcxo_delay),
{
    let header: [u8; 2] = [0x97, u8::from(tcxo_voltage)];
    assert(header@ =~= seq![0x97u8, tcxo_voltage.code()]);
    let tcxo_delay: [u8; 3] = <[u8; 3]>::from(tcxo_delay);
    Step::of_two(Operation::write(&header), Operation::write(&tcxo_delay), SpiError::Write)
}

/// Clear the device error register.
pub fn clear_device_errors() -> (step: Step<SpiError>)
    ensures
        step@ == model::clear_device_errors(),
{
    let bytes: [u8; 3] = [0x07, NOP, NOP];
    assert(bytes@ =~= seq![0x07u8, NOP, NOP]);
    Step::of_one(Operation::write(&bytes), SpiError::Write)
}

/// Get the current device errors.
pub fn get_device_errors() -> (step: Step<SpiError>)
    ensures
        step@ == model::get_device_errors(),
{
    let bytes: [u8; 4] = [0x17, NOP, NOP, NOP];
    assert(bytes@ =~= seq![0x17u8, NOP, NOP, NOP]);
    Step::of_one(Operation::transfer_in_place(&bytes), SpiError::Transfer)
}

/// Reads the response to [`get_device_errors`]: four bytes, the last two of
/// which are the error register, least significant byte first.
pub fn get_device_errors_response(response: &[u8]) -> (r: Result<DeviceErrors, SpiError>)
    ensures
        r == if response@.len() == 4 {
            Ok::<DeviceErrors, SpiError>(DeviceErrors::of_bits(word(response@[3], response@[2])))
        } else {
            Err::<DeviceErrors, SpiError>(SpiError::Transfer)
        },
{
    if response.len() != 4 {
        return Err(SpiError::Transfer);
    }
    Ok(DeviceErrors::from(u16_from_bytes(response[3], response[2])))
}

/// Reset the device by pulling the reset line low for a while.
///
/// The line has to stay low for 100 us typically; it is held for 200 us.
pub fn reset() -> (steps: Vec<Step<SpiError>>)
    ensures
        steps_view(steps@) == model::reset(),
{
    let steps = vec![
        Step::of_action(Action::ResetLow, SpiError::BusError),
        Step::of_one(Operation::DelayNs(200_000), SpiError::Write),
        Step::of_action(Action::ResetHigh, SpiError::BusError),
    ];
    assert(steps_view(steps@) =~= model::reset());
    steps
}

/// Enable or disable the antenna.
pub fn set_ant_enabled(enabled: bool) -> (action: Action)
    ensures
        action@ == model::set_ant_enabled(enabled),
{
    if enabled {
        Action::AntennaHigh
    } else {
        Action::AntennaLow
    }
}

/// Configure which interrupts are raised at all and which of them each DIO
/// pin signals.
pub fn set_dio_irq_params(
    irq_mask: IrqMask,
    dio1_mask: IrqMask,
    dio2_mask: IrqMask,
    dio3_mask: IrqMask,
) -> (step: Step<SpiError>)
    ensures
        step@ == model::set_dio_irq_params(irq_mask, dio1_mask, dio2_mask, dio3_mask),
{
    let opcode: [u8; 1] = [0x08];
    assert(opcode@ =~= seq![0x08u8]);
    let irq = u16_to_be_bytes(u16::from(irq_mask));
    let dio1 = u16_to_be_bytes(u16::from(dio1_mask));
    let dio2 = u16_to_be_bytes(u16::from(dio2_mask));
    let dio3 = u16_to_be_bytes(u16::from(dio3_mask));
    let ops = vec![
        Operation::write(&opcode),
        Operation::write(&irq),
        Operation::write(&dio1),
        Operation::write(&dio2),
        Operation::write(&dio3),
    ];
    assert(ops_view(ops@) =~= seq![
        Op::Write(seq![0x08u8]),
        Op::Write(irq@),
        Op::Write(dio1@),
        Op::Write(dio2@),
        Op::Write(dio3@),
    ]);
    Step::of_all(ops, SpiError::Transfer)
}

/// Get the current IRQ status.
pub fn get_irq_status() -> (step: Step<SpiError>)
    ensures
        step@ == model::get_irq_status(),
{
    let opcode: [u8; 1] = [0x12];
    assert(opcode@ =~= seq![0x12u8]);
    Step::of_two(Operation::write(&opcode), Operation::Read(3), SpiError::Transfer)
}

/// Reads the response to [`get_irq_status`]: three bytes, the last two of
/// which are the interrupt flags, most significant byte first.
pub fn get_irq_status_response(response: &[u8]) -> (r: Result<IrqStatus, SpiError>)
    ensures
        r == if response@.len() == 3 {
            Ok::<IrqStatus, SpiError>(IrqStatus::of_bits(word(response@[1], response@[2])))
        } else {
            Err::<IrqStatus, SpiError>(SpiError::Transfer)
        },
{
    if response.len() != 3 {
        return Err(SpiError::Transfer);
    }
    Ok(IrqStatus::from(u16_from_bytes(response[1], response[2])))
}

/// Clear the interrupt flags that `mask` selects.
pub fn clear_irq_status(mask: IrqMask) -> (step: Step<SpiError>)
    ensures
        step@ == model::clear_irq_status(mask),
{
    let opcode: [u8; 1] = [0x02];
    assert(opcode@ =~= seq![0x02u8]);
    let mask = u16_to_be_bytes(u16::from(mask));
    Step::of_two(Operation::write(&opcode), Operation::write(&mask), SpiError::Write)
}

/// Put the device in TX mode. It starts sending the data written in the
/// buffer, from the configured offset onwards.
///
/// A timeout of 0 steps is no timeout: the chip stays in TX mode until the
/// packet has been sent.
pub fn set_tx(timeout: RxTxTimeout) -> (step: Step<SpiError>)
    ensures
        step@ == model::set_tx(timeout),
{
    let timeout: [u8; 3] = <[u8; 3]>::from(timeout);
    let buf: [u8; 4] = [0x83, timeout[0], timeout[1], timeout[2]];
    assert(buf@ =~= seq![0x83u8] + timeout@);
    Step::of_one(Operation::transfer_in_place(&buf), SpiError::Transfer)
}

/// Reads the response to [`set_tx`]: four bytes, the second of which is the
/// status that the chip sent while it took the command. It tells how the
/// command was taken, not how the transmission went.
pub fn set_tx_response(response: &[u8]) -> (r: Result<Status, SpiError>)
    ensures
        r == if response@.len() == 4 {
            Ok::<Status, SpiError>(Status::of_bits(response@[1]))
        } else {
            Err::<Status, SpiError>(SpiError::Transfer)
        },
{
    if response.len() != 4 {
        return Err(SpiError::Transfer);
    }
    Ok(Status::from(response[1]))
}

/// Put the device in RX mode.
///
/// A timeout of 0 steps is no timeout: the chip stays in RX mode until a
/// packet has been received.
pub fn set_rx(timeout: RxTxTimeout) -> (step: Step<SpiError>)
    ensures
        step@ == model::set_rx(timeout),
{
    let timeout: [u8; 3] = <[u8; 3]>::from(timeout);
    let buf: [u8; 4] = [0x82, timeout[0], timeout[1], timeout[2]];
    assert(buf@ =~= seq![0x82u8] + timeout@);
    Step::of_one(Operation::write(&buf), SpiError::Transfer)
}

/// The status that goes with [`set_rx`]. The chip is not read while it
/// takes the command; the status is made of the first byte of the timeout.
pub fn set_rx_status(timeout: RxTxTimeout) -> (status: Status)
    ensures
        status == Status::of_bits(timeout.bytes()[0]),
{
    let timeout: [u8; 3] = <[u8; 3]>::from(timeout);
    Status::from(timeout[0])
}

/// Set packet parameters.
pub fn set_packet_params(params: PacketParams) -> (step: Step<SpiError>)
    ensures
        step@ == model::set_packet_params(params),
{
    let opcode: [u8; 1] = [0x8C];
    assert(opcode@ =~= seq![0x8Cu8]);
    let params: [u8; 9] = <[u8; 9]>::from(params);
    Step::of_two(Operation::write(&opcode), Operation::write(&params), SpiError::Write)
}

/// Set modulation parameters.
pub fn set_mod_params(params: ModParams) -> (step: Step<SpiError>)
    ensures
        step@ == model::set_mod_params(params),
{
    let opcode: [u8; 1] = [0x8B];
    assert(opcode@ =~= seq![0x8Bu8]);
    let params: [u8; 8] = <[u8; 8]>::from(params);
    Step::of_two(Operation::write(&opcode), Operation::write(&params), SpiError::Write)
}

/// Set TX parameters.
pub fn set_tx_params(params: TxParams) -> (step: Step<SpiError>)
    ensures
        step@ == model::set_tx_params(params),
{
    let opcode: [u8; 1] = [0x8E];
    assert(opcode@ =~= seq![0x8Eu8]);
    let params: [u8; 2] = <[u8; 2]>::from(params);
    Step::of_two(Operation::write(&opcode), Operation::write(&params), SpiError::Write)
}

/// Set the RF frequency. This writes `rf_freq` to the modem as it is; see
/// [`crate::conf::calc_rf_freq`] for the value that a carrier frequency
/// takes.
pub fn set_rf_frequency(rf_freq: u32) -> (step: Step<SpiError>)
    ensures
        step@ == model::set_rf_frequency(rf_freq),
{
    let opcode: [u8; 1] = [0x86];
    assert(opcode@ =~= seq![0x86u8]);
    let rf_freq = u32_to_be_bytes(rf_freq);
    Step::of_two(Operation::write(&opcode), Operation::write(&rf_freq), SpiError::Write)
}

/// Set the power amplifier configuration.
pub fn set_pa_config(pa_config: PaConfig) -> (step: Step<SpiError>)
    ensures
        step@ == model::set_pa_config(pa_config),
{
    let opcode: [u8; 1] = [0x95];
    assert(opcode@ =~= seq![0x95u8]);
    let pa_config: [u8; 4] = <[u8; 4]>::from(pa_config);
    Step::of_two(Operation::write(&opcode), Operation::write(&pa_config), SpiError::Write)
}

/// Configure the base addresses in the buffer.
pub fn set_buffer_base_address(tx_base_addr: u8, rx_base_addr: u8) -> (step: Step<SpiError>)
    ensures
        step@ == model::set_buffer_base_address(tx_base_addr, rx_base_addr),
{
    let bytes: [u8; 3] = [0x8F, tx_base_addr, rx_base_addr];
    assert(bytes@ =~= seq![0x8Fu8, tx_base_addr, rx_base_addr]);
    Step::of_one(Operation::write(&bytes), SpiError::Write)
}

/// Get the RX buffer status: the length of the last packet received and the
/// address of its first byte.
pub fn get_rx_buffer_status() -> (step: Step<SpiError>)
    ensures
        step@ == model::get_rx_buffer_status(),
{
    let bytes: [u8; 4] = [0x13, NOP, NOP, NOP];
    assert(bytes@ =~= seq![0x13u8, NOP, NOP, NOP]);
    Step::of_one(Operation::transfer_in_place(&bytes), SpiError::Transfer)
}

/// Reads the response to [`get_rx_buffer_status`]: four bytes, the last two
/// of which are the length of the packet and the address of its first byte.
pub fn get_rx_buffer_status_response(response: &[u8]) -> (r: Result<RxBufferStatus, SpiError>)
    ensures
        r == if response@.len() == 4 {
            Ok::<RxBufferStatus, SpiError>(
                RxBufferStatus {
                    payload_length_rx: response@[2],
                    rx_start_buffer_pointer: response@[3],
                },
            )
        } else {
            Err::<RxBufferStatus, SpiError>(SpiError::Transfer)
        },
{
    if response.len() != 4 {
        return Err(SpiError::Transfer);
    }
    Ok(RxBufferStatus::from([response[2], response[3]]))
}

/// Wait for the busy line to go low.
pub fn wait_on_busy() -> (steps: Vec<Step<PinError>>)
    ensures
        steps_view(steps@) == model::wait_on_busy(),
{
    let steps = vec![
        Step::of_one(Operation::DelayNs(1000), PinError::Output),
        Step::of_action(Action::WaitBusyLow, PinError::Input),
    ];
    assert(steps_view(steps@) =~= model::wait_on_busy());
    steps
}

/// Wait for the DIO1 line to go high.
pub fn wait_on_dio1() -> (step: Step<PinError>)
    ensures
        step@ == model::wait_on_dio1(),
{
    Step::of_action(Action::WaitDio1High, PinError::Input)
}

/// The data of one transmission: 255 bytes at most, which is what the
/// payload length of a packet can say.
#[derive(Debug, PartialEq, Eq)]
pub struct Payload {
    data: Vec<u8>,
}

impl View for Payload {
    type V = Seq<u8>;

    closed spec fn view(&self) -> Seq<u8> {
        self.data@
    }
}

impl Payload {
    /// The data fit the payload length byte.
    #[verifier::type_invariant]
    pub closed spec fn fits(&self) -> bool {
        self.data@.len() <= 255
    }

    /// The payload of `data`; `None` where `data` is longer than 255 bytes.
    pub fn new(data: Vec<u8>) -> (r: Option<Payload>)
        ensures
            r is Some <==> data@.len() <= 255,
            r matches Some(payload) ==> payload@ == data@ && payload.fits(),
    {
        if data.len() > 255 {
            return None;
        }
        Some(Payload { data })
    }

    /// The number of bytes.
    pub fn len(&self) -> (n: u8)
        ensures
            n == self@.len(),
    {
        proof {
            use_type_invariant(self);
        }
        self.data.len() as u8
    }

    /// The bytes.
    pub fn as_slice(&self) -> (data: &[u8])
        ensures
            data@ == self@,
            data@.len() <= 255,
    {
        proof {
            use_type_invariant(self);
        }
        self.data.as_slice()
    }
}

/// Appends the wait for the busy line.
fn push_busy_wait(steps: &mut Vec<Step<SpiError>>)
    ensures
        steps_view(final(steps)@) == steps_view(old(steps)@) + model::busy_wait(),
{
    steps.push(Step::of_one(Operation::DelayNs(1000), SpiError::BusError));
    steps.push(Step::of_action(Action::WaitBusyLow, SpiError::BusError));
    assert(steps_view(steps@) =~= steps_view(old(steps)@) + model::busy_wait());
}

/// Appends a command and the wait for the busy line that follows it.
fn push_then_busy_wait(steps: &mut Vec<Step<SpiError>>, step: Step<SpiError>)
    ensures
        steps_view(final(steps)@) == steps_view(old(steps)@) + model::then_busy_wait(step@),
{
    steps.push(step);
    push_busy_wait(steps);
    assert(steps_view(steps@) =~= steps_view(old(steps)@) + model::then_busy_wait(step@));
}

/// Initialize and configure the modem after `conf`: the steps of the
/// bring-up, in order.
///
/// The sequence starts with a hardware reset, so it can be run again from
/// the start whatever became of an earlier run. A step that fails ends the
/// run; the chip is then left in whatever mode the last successful command
/// put it.
pub fn init(conf: Config) -> (steps: Vec<Step<SpiError>>)
    ensures
        steps_view(steps@) == model::init(conf),
{
    let mut steps = reset();
    push_busy_wait(&mut steps);
    let ghost done = model::init_step(conf, model::InitStep::Reset);
    assert(steps_view(steps@) == done);

    // 1. If not in STDBY_RC mode, then go to this mode with the command SetStandby(...)
    push_then_busy_wait(&mut steps, set_standby(StandbyConfig::StbyRc));
    let ghost done = done + model::init_step(conf, model::InitStep::Standby);
    assert(steps_view(steps@) == done);

    // 2. Define the protocol (LoRa or FSK) with the command SetPacketType(...)
    push_then_busy_wait(&mut steps, set_packet_type(conf.packet_type));
    let ghost done = done + model::init_step(conf, model::InitStep::PacketType);
    assert(steps_view(steps@) == done);

    // 3. Define the RF frequency with the command SetRfFrequency(...)
    push_then_busy_wait(&mut steps, set_rf_frequency(conf.rf.rf_freq()));
    let ghost done = done + model::init_step(conf, model::InitStep::RfFrequency);
    assert(steps_view(steps@) == done);

    if let Some((tcxo_voltage, tcxo_delay)) = conf.tcxo_opts {
        push_then_busy_wait(&mut steps, set_dio3_as_tcxo_ctrl(tcxo_voltage, tcxo_delay));
    }
    let ghost before = done;
    let ghost done = done + model::init_step(conf, model::InitStep::Tcxo);
    assert(steps_view(steps@) == done) by {
        if conf.tcxo_opts is None {
            assert(before + Seq::<StepView<SpiError>>::empty() =~= before);
        }
    }

    // Calibrate
    let ghost before = done;
    push_then_busy_wait(&mut steps, calibrate(conf.calib_param));
    push_then_busy_wait(
        &mut steps,
        calibrate_image(CalibImageFreq::from_rf_frequency(conf.rf.rf_frequency())),
    );
    let ghost done = done + model::init_step(conf, model::InitStep::Calibrate);
    assert(steps_view(steps@) == done) by {
        let first = model::then_busy_wait(model::calibrate(conf.calib_param));
        let second = model::then_busy_wait(
            model::calibrate_image(CalibImageFreq::band(conf.rf.hz())),
        );
        assert((before + first) + second =~= before + (first + second));
    }

    // 4. Define the Power Amplifier configuration with the command SetPaConfig(...)
    push_then_busy_wait(&mut steps, set_pa_config(conf.pa_config));
    let ghost done = done + model::init_step(conf, model::InitStep::PaConfig);
    assert(steps_view(steps@) == done);

    // 5. Define output power and ramping time with the command SetTxParams(...)
    push_then_busy_wait(&mut steps, set_tx_params(conf.tx_params));
    let ghost done = done + model::init_step(conf, model::InitStep::TxParams);
    assert(steps_view(steps@) == done);

    // 6. Define where the data payload will be stored with the command SetBufferBaseAddress(...)
    push_then_busy_wait(&mut steps, set_buffer_base_address(0x00, 0x00));
    let ghost done = done + model::init_step(conf, model::InitStep::BufferBaseAddress);
    assert(steps_view(steps@) == done);

    // 7. Send the payload to the data buffer with the command WriteBuffer(...)
    // This is done later, in `write_bytes`

    // 8. Define the modulation parameter according to the chosen protocol with the command SetModulationParams(...)
    push_then_busy_wait(&mut steps, set_mod_params(conf.mod_params));
    let ghost done = done + model::init_step(conf, model::InitStep::ModParams);
    assert(steps_view(steps@) == done);

    // 9. Define the frame format to be used with the command SetPacketParams(...)
    if let Some(packet_params) = conf.packet_params {
        push_then_busy_wait(&mut steps, set_packet_params(packet_params));
    }
    let ghost before = done;
    let ghost done = done + model::init_step(conf, model::InitStep::PacketParams);
    assert(steps_view(steps@) == done) by {
        if conf.packet_params is None {
            assert(before + Seq::<StepView<SpiError>>::empty() =~= before);
        }
    }

    // 10. Configure DIO and IRQ: use the command SetDioIrqParams(...) to select the IRQs and map them to the DIOs
    push_then_busy_wait(
        &mut steps,
        set_dio_irq_params(
            conf.dio1_irq_mask,
            conf.dio1_irq_mask,
            conf.dio1_irq_mask,
            conf.dio1_irq_mask,
        ),
    );
    let ghost done = done + model::init_step(conf, model::InitStep::DioIrqParams);
    assert(steps_view(steps@) == done);

    push_then_busy_wait(&mut steps, set_dio2_as_rf_switch_ctrl(true));
    let ghost done = done + model::init_step(conf, model::InitStep::Dio2AsRfSwitch);
    assert(steps_view(steps@) == done);

    // 11. Define Sync Word value: use the command WriteReg(...) to write the value of the register via direct register access
    push_then_busy_wait(&mut steps, set_sync_word(conf.sync_word));
    let ghost done = done + model::init_step(conf, model::InitStep::SyncWord);
    assert(steps_view(steps@) == done);

    // The rest of the steps are done by the user
    steps
}

/// High level operation to send a message: writes the data into the
/// buffer, puts the device in TX mode, and waits until the device is done
/// sending the data or a timeout occurs.
///
/// This rewrites the packet parameters of the chip: variable length, the
/// length of `data`, standard IQ, `preamble_len` and `crc_type`. A timeout
/// of 0 steps is no timeout.
pub fn write_bytes(
    data: &Payload,
    timeout: RxTxTimeout,
    preamble_len: u16,
    crc_type: LoRaCrcType,
) -> (steps: Vec<Step<SpiError>>)
    ensures
        steps_view(steps@) == model::write_bytes(data@, timeout, preamble_len, crc_type),
{
    // Write data to buffer
    let write = write_buffer(0x00, data.as_slice());

    // Set packet params
    let params = PacketParams::from(
        LoRaPacketParams::default()
            .set_preamble_len(preamble_len)
            .set_payload_len(data.len())
            .set_crc_type(crc_type),
    );
    assert(params == PacketParams::encode(
        model::write_bytes_params(data@.len() as u8, preamble_len, crc_type),
    ));

    let mut steps = vec![write, set_packet_params(params), set_tx(timeout)];
    let ghost commands = steps_view(steps@);
    assert(commands =~= seq![
        model::write_buffer(0x00, data@),
        model::set_packet_params(params),
        model::set_tx(timeout),
    ]);
    // Wait for busy line to go low
    push_busy_wait(&mut steps);
    // Wait on dio1 going high
    steps.push(Step::of_action(Action::WaitDio1High, SpiError::BusError));
    // Clear IRQ
    steps.push(clear_irq_status(IrqMask::all()));
    assert(steps_view(steps@) =~= commands + model::busy_wait() + seq![
        model::as_bus_error(model::wait_on_dio1()),
        model::clear_irq_status(IrqMask::of_bits(0xFFFF)),
    ]);
    steps
}

/// Reads the status that [`write_bytes`] reports from the responses to its
/// steps, one each: the status that the chip sent while it took `SetTx`, the
/// third step. It tells how the command was taken, not how the
/// transmission went.
pub fn write_bytes_response(responses: &Vec<Vec<u8>>) -> (r: Result<Status, SpiError>)
    ensures
        r == if responses@.len() == 7 && responses@[2]@.len() == 4 {
            Ok::<Status, SpiError>(Status::of_bits(responses@[2]@[1]))
        } else {
            Err::<Status, SpiError>(SpiError::Transfer)
        },
{
    if responses.len() != 7 {
        return Err(SpiError::Transfer);
    }
    set_tx_response(responses[2].as_slice())
}

} // verus!
