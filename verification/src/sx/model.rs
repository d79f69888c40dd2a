//! What each operation of the driver puts on the bus and the control
//! lines, as values.
//!
//! Every command is one bus transaction: the opcode, then the parameters.
//! Numbers of more than one byte travel most significant byte first.

use crate::bytes::{be16, be32};
use crate::conf::Config;
use crate::op::calib::{CalibImageFreq, CalibParam};
use crate::op::irq::IrqMask;
use crate::op::modulation::ModParams;
use crate::op::packet::{
    LoRaCrcType, LoRaHeaderType, LoRaInvertIq, LoRaPacketParams, PacketParams, PacketType,
};
use crate::op::rxtx::{PaConfig, RxTxTimeout, TxParams};
use crate::op::tcxo::{TcxoDelay, TcxoVoltage};
use crate::op::StandbyConfig;
use crate::reg::Register;
use crate::sx::err::{PinError, SpiError};
use crate::sx::host::{response_len, transaction, ActionView, EventView, Op, StepView};
use crate::sx::sequence::{completions, lemma_failure_aborts, SequenceView};
use vstd::prelude::*;

verus! {

/// The byte sent where the chip expects none in particular.
pub const NOP: u8 = 0x00;

/// `WriteRegister` at the LoRa sync word: 0x0D, the address 0x0740, the two
/// bytes of the sync word.
pub open spec fn set_sync_word(sync_word: u16) -> StepView<SpiError> {
    write_register(Register::LoRaSyncWordMsb, be16(sync_word))
}

/// `SetPacketType`: 0x8A and the packet type.
pub open spec fn set_packet_type(packet_type: PacketType) -> StepView<SpiError> {
    transaction(seq![Op::Write(seq![0x8Au8, packet_type.code()])], SpiError::Write)
}

/// `SetStandby`: 0x80 and the standby configuration.
pub open spec fn set_standby(standby_config: StandbyConfig) -> StepView<SpiError> {
    transaction(seq![Op::Write(seq![0x80u8, standby_config.code()])], SpiError::Write)
}

/// `GetStatus`: 0xC0 and one more byte, during which the chip sends its
/// status.
pub open spec fn get_status() -> StepView<SpiError> {
    transaction(seq![Op::TransferInPlace(seq![0xC0u8, NOP])], SpiError::Transfer)
}

/// `SetFs`: 0xC1.
pub open spec fn set_fs() -> StepView<SpiError> {
    transaction(seq![Op::Write(seq![0xC1u8])], SpiError::Transfer)
}

/// `GetStats`: 0x10 and seven more bytes, during which the chip sends its
/// status and three counters.
pub open spec fn get_stats() -> StepView<SpiError> {
    transaction(
        seq![Op::TransferInPlace(seq![0x10u8, NOP, NOP, NOP, NOP, NOP, NOP, NOP])],
        SpiError::Transfer,
    )
}

/// `CalibrateImage`: 0x98 and the two bytes of the band.
pub open spec fn calibrate_image(freq: CalibImageFreq) -> StepView<SpiError> {
    transaction(seq![Op::Write(seq![0x98u8]), Op::Write(freq.pair())], SpiError::Write)
}

/// `Calibrate`: 0x89 and the mask of the blocks.
pub open spec fn calibrate(calib_param: CalibParam) -> StepView<SpiError> {
    transaction(seq![Op::Write(seq![0x89u8, calib_param.bits()])], SpiError::Write)
}

/// `WriteRegister`: 0x0D, the address of the register, the data.
pub open spec fn write_register(register: Register, data: Seq<u8>) -> StepView<SpiError> {
    transaction(
        seq![Op::Write(seq![0x0Du8]), Op::Write(be16(register.addr())), Op::Write(data)],
        SpiError::Write,
    )
}

/// `ReadRegister`: 0x1D, the address, one byte during which the chip sends
/// nothing of use, then `len` bytes read from the address onwards.
pub open spec fn read_register(start_addr: u16, len: nat) -> StepView<SpiError> {
    transaction(
        seq![
            Op::Write(seq![0x1Du8]),
            Op::Write(be16(start_addr)),
            Op::Write(seq![NOP]),
            Op::Read(len),
        ],
        SpiError::Transfer,
    )
}

/// `WriteBuffer`: 0x0E, the offset, the data.
pub open spec fn write_buffer(offset: u8, data: Seq<u8>) -> StepView<SpiError> {
    transaction(seq![Op::Write(seq![0x0Eu8, offset]), Op::Write(data)], SpiError::Write)
}

/// `ReadBuffer`: 0x1E, the offset, one byte during which the chip sends
/// nothing of use, then `len` bytes read from the offset onwards.
pub open spec fn read_buffer(offset: u8, len: nat) -> StepView<SpiError> {
    transaction(seq![Op::Write(seq![0x1Eu8, offset, NOP]), Op::Read(len)], SpiError::Transfer)
}

/// `SetDIO2AsRfSwitchCtrl`: 0x9D and 1 to enable, 0 to disable.
pub open spec fn set_dio2_as_rf_switch_ctrl(enable: bool) -> StepView<SpiError> {
    transaction(
        seq![Op::Write(seq![0x9Du8, if enable { 1u8 } else { 0u8 }])],
        SpiError::Write,
    )
}

/// `GetPacketStatus`: 0x14 and one more byte, then three bytes read.
pub open spec fn get_packet_status() -> StepView<SpiError> {
    transaction(seq![Op::Write(seq![0x14u8, NOP]), Op::Read(3)], SpiError::Transfer)
}

/// `SetDIO3AsTCXOCtrl`: 0x97, the voltage, the three bytes of the delay.
pub open spec fn set_dio3_as_tcxo_ctrl(
    tcxo_voltage: TcxoVoltage,
    tcxo_delay: TcxoDelay,
) -> StepView<SpiError> {
    transaction(
        seq![Op::Write(seq![0x97u8, tcxo_voltage.code()]), Op::Write(tcxo_delay.bytes())],
        SpiError::Write,
    )
}

/// `ClearDeviceErrors`: 0x07 and two more bytes.
pub open spec fn clear_device_errors() -> StepView<SpiError> {
    transaction(seq![Op::Write(seq![0x07u8, NOP, NOP])], SpiError::Write)
}

/// `GetDeviceErrors`: 0x17 and three more bytes, during which the chip sends
/// its status and the error register.
pub open spec fn get_device_errors() -> StepView<SpiError> {
    transaction(seq![Op::TransferInPlace(seq![0x17u8, NOP, NOP, NOP])], SpiError::Transfer)
}

/// The hardware reset: the reset line low, held for 200 us, then high.
pub open spec fn reset() -> Seq<StepView<SpiError>> {
    seq![
        StepView { action: ActionView::ResetLow, error: SpiError::BusError },
        transaction(seq![Op::DelayNs(200_000)], SpiError::Write),
        StepView { action: ActionView::ResetHigh, error: SpiError::BusError },
    ]
}

/// The antenna-enable line high to enable, low to disable.
pub open spec fn set_ant_enabled(enabled: bool) -> ActionView {
    if enabled {
        ActionView::AntennaHigh
    } else {
        ActionView::AntennaLow
    }
}

/// `SetDioIrqParams`: 0x08, then the interrupt mask and the masks of DIO1,
/// DIO2 and DIO3, two bytes each.
pub open spec fn set_dio_irq_params(
    irq_mask: IrqMask,
    dio1_mask: IrqMask,
    dio2_mask: IrqMask,
    dio3_mask: IrqMask,
) -> StepView<SpiError> {
    transaction(
        seq![
            Op::Write(seq![0x08u8]),
            Op::Write(be16(irq_mask.bits())),
            Op::Write(be16(dio1_mask.bits())),
            Op::Write(be16(dio2_mask.bits())),
            Op::Write(be16(dio3_mask.bits())),
        ],
        SpiError::Transfer,
    )
}

/// `GetIrqStatus`: 0x12, then three bytes read.
pub open spec fn get_irq_status() -> StepView<SpiError> {
    transaction(seq![Op::Write(seq![0x12u8]), Op::Read(3)], SpiError::Transfer)
}

/// `ClearIrqStatus`: 0x02 and the mask of the flags to clear.
pub open spec fn clear_irq_status(mask: IrqMask) -> StepView<SpiError> {
    transaction(seq![Op::Write(seq![0x02u8]), Op::Write(be16(mask.bits()))], SpiError::Write)
}

/// `SetTx`: 0x83 and the three bytes of the timeout, during which the chip
/// sends its status.
pub open spec fn set_tx(timeout: RxTxTimeout) -> StepView<SpiError> {
    transaction(seq![Op::TransferInPlace(seq![0x83u8] + timeout.bytes())], SpiError::Transfer)
}

/// `SetRx`: 0x82 and the three bytes of the timeout.
pub open spec fn set_rx(timeout: RxTxTimeout) -> StepView<SpiError> {
    transaction(seq![Op::Write(seq![0x82u8] + timeout.bytes())], SpiError::Transfer)
}

/// `SetPacketParams`: 0x8C and the nine bytes of the block.
pub open spec fn set_packet_params(params: PacketParams) -> StepView<SpiError> {
    transaction(seq![Op::Write(seq![0x8Cu8]), Op::Write(params.bytes())], SpiError::Write)
}

/// `SetModulationParams`: 0x8B and the eight bytes of the block.
pub open spec fn set_mod_params(params: ModParams) -> StepView<SpiError> {
    transaction(seq![Op::Write(seq![0x8Bu8]), Op::Write(params.bytes())], SpiError::Write)
}

/// `SetTxParams`: 0x8E, the power, the ramp time.
pub open spec fn set_tx_params(params: TxParams) -> StepView<SpiError> {
    transaction(seq![Op::Write(seq![0x8Eu8]), Op::Write(params.bytes())], SpiError::Write)
}

/// `SetRfFrequency`: 0x86 and the four bytes of the register value.
pub open spec fn set_rf_frequency(rf_freq: u32) -> StepView<SpiError> {
    transaction(seq![Op::Write(seq![0x86u8]), Op::Write(be32(rf_freq))], SpiError::Write)
}

/// `SetPaConfig`: 0x95 and the four bytes of the configuration.
pub open spec fn set_pa_config(pa_config: PaConfig) -> StepView<SpiError> {
    transaction(seq![Op::Write(seq![0x95u8]), Op::Write(pa_config.bytes())], SpiError::Write)
}

/// `SetBufferBaseAddress`: 0x8F, the base address for transmission, the
/// base address for reception.
pub open spec fn set_buffer_base_address(tx_base_addr: u8, rx_base_addr: u8) -> StepView<
    SpiError,
> {
    transaction(seq![Op::Write(seq![0x8Fu8, tx_base_addr, rx_base_addr])], SpiError::Write)
}

/// `GetRxBufferStatus`: 0x13 and three more bytes, during which the chip
/// sends its status, the length of the last packet and where it starts.
pub open spec fn get_rx_buffer_status() -> StepView<SpiError> {
    transaction(seq![Op::TransferInPlace(seq![0x13u8, NOP, NOP, NOP])], SpiError::Transfer)
}

/// The wait that follows a command: the bus held for 1 us, then the busy
/// line awaited low.
pub open spec fn wait_on_busy() -> Seq<StepView<PinError>> {
    seq![
        transaction(seq![Op::DelayNs(1000)], PinError::Output),
        StepView { action: ActionView::WaitBusyLow, error: PinError::Input },
    ]
}

/// The wait for an interrupt: the DIO1 line awaited high.
pub open spec fn wait_on_dio1() -> StepView<PinError> {
    StepView { action: ActionView::WaitDio1High, error: PinError::Input }
}

/// A step on a control line as part of a longer sequence, where its failure
/// is reported as a bus error.
pub open spec fn as_bus_error(step: StepView<PinError>) -> StepView<SpiError> {
    StepView { action: step.action, error: SpiError::BusError }
}

/// The wait for the busy line within a longer sequence.
pub open spec fn busy_wait() -> Seq<StepView<SpiError>> {
    seq![as_bus_error(wait_on_busy()[0]), as_bus_error(wait_on_busy()[1])]
}

/// A command and the wait for the busy line that follows it.
pub open spec fn then_busy_wait(step: StepView<SpiError>) -> Seq<StepView<SpiError>> {
    seq![step] + busy_wait()
}

/// The packet parameters that a transmission of `payload_len` bytes sets:
/// variable length, standard IQ, and the preamble length and CRC type asked
/// for.
pub open spec fn write_bytes_params(
    payload_len: u8,
    preamble_len: u16,
    crc_type: LoRaCrcType,
) -> LoRaPacketParams {
    LoRaPacketParams {
        preamble_len,
        header_type: LoRaHeaderType::VarLen,
        payload_len,
        crc_type,
        invert_iq: LoRaInvertIq::Standard,
    }
}

/// The transmission of `data`, of 255 bytes at most: the data written to the
/// buffer at offset 0, the packet parameters set anew, `SetTx`, the wait for
/// the busy line, the wait for the interrupt on DIO1, and every interrupt
/// flag cleared.
pub open spec fn write_bytes(
    data: Seq<u8>,
    timeout: RxTxTimeout,
    preamble_len: u16,
    crc_type: LoRaCrcType,
) -> Seq<StepView<SpiError>>
    recommends
        data.len() <= 255,
{
    seq![
        write_buffer(0x00, data),
        set_packet_params(
            PacketParams::encode(write_bytes_params(data.len() as u8, preamble_len, crc_type)),
        ),
        set_tx(timeout),
    ] + busy_wait() + seq![
        as_bus_error(wait_on_dio1()),
        clear_irq_status(IrqMask::of_bits(0xFFFF)),
    ]
}

/// The steps of the bring-up, in the order in which they are taken.
#[derive(Copy, Clone, Debug, PartialEq, Eq, Structural)]
pub enum InitStep {
    /// Hardware reset
    Reset,
    /// Standby on the RC oscillator
    Standby,
    /// Packet protocol
    PacketType,
    /// RF frequency
    RfFrequency,
    /// DIO3 as TCXO control; taken only with TCXO options
    Tcxo,
    /// Calibration of the blocks, then of the image
    Calibrate,
    /// Power amplifier configuration
    PaConfig,
    /// Output power and ramp time
    TxParams,
    /// Buffer base addresses
    BufferBaseAddress,
    /// Modulation parameters
    ModParams,
    /// Packet parameters; taken only where the configuration holds some
    PacketParams,
    /// Interrupt masks
    DioIrqParams,
    /// DIO2 as RF switch control
    Dio2AsRfSwitch,
    /// LoRa sync word
    SyncWord,
}

/// What one step of the bring-up does under `conf`. Each command is
/// followed by the wait for the busy line. A step that is not taken does
/// nothing.
///
/// The interrupt mask of DIO1 serves as the interrupt mask and as the mask
/// of all three DIO lines; the masks that the configuration holds for DIO2
/// and DIO3 are not consulted.
pub open spec fn init_step(conf: Config, step: InitStep) -> Seq<StepView<SpiError>> {
    match step {
        InitStep::Reset => reset() + busy_wait(),
        InitStep::Standby => then_busy_wait(set_standby(StandbyConfig::StbyRc)),
        InitStep::PacketType => then_busy_wait(set_packet_type(conf.packet_type)),
        InitStep::RfFrequency => then_busy_wait(set_rf_frequency(conf.rf.register())),
        InitStep::Tcxo => match conf.tcxo_opts {
            Some((tcxo_voltage, tcxo_delay)) => then_busy_wait(
                set_dio3_as_tcxo_ctrl(tcxo_voltage, tcxo_delay),
            ),
            None => Seq::empty(),
        },
        InitStep::Calibrate => then_busy_wait(calibrate(conf.calib_param)) + then_busy_wait(
            calibrate_image(CalibImageFreq::band(conf.rf.hz())),
        ),
        InitStep::PaConfig => then_busy_wait(set_pa_config(conf.pa_config)),
        InitStep::TxParams => then_busy_wait(set_tx_params(conf.tx_params)),
        InitStep::BufferBaseAddress => then_busy_wait(set_buffer_base_address(0x00, 0x00)),
        InitStep::ModParams => then_busy_wait(set_mod_params(conf.mod_params)),
        InitStep::PacketParams => match conf.packet_params {
            Some(packet_params) => then_busy_wait(set_packet_params(packet_params)),
            None => Seq::empty(),
        },
        InitStep::DioIrqParams => then_busy_wait(
            set_dio_irq_params(
                conf.dio1_irq_mask,
                conf.dio1_irq_mask,
                conf.dio1_irq_mask,
                conf.dio1_irq_mask,
            ),
        ),
        InitStep::Dio2AsRfSwitch => then_busy_wait(set_dio2_as_rf_switch_ctrl(true)),
        InitStep::SyncWord => then_busy_wait(set_sync_word(conf.sync_word)),
    }
}

/// The bring-up under `conf`: its fourteen steps, always in this order.
pub open spec fn init(conf: Config) -> Seq<StepView<SpiError>> {
    init_step(conf, InitStep::Reset)
        + init_step(conf, InitStep::Standby)
        + init_step(conf, InitStep::PacketType)
        + init_step(conf, InitStep::RfFrequency)
        + init_step(conf, InitStep::Tcxo)
        + init_step(conf, InitStep::Calibrate)
        + init_step(conf, InitStep::PaConfig)
        + init_step(conf, InitStep::TxParams)
        + init_step(conf, InitStep::BufferBaseAddress)
        + init_step(conf, InitStep::ModParams)
        + init_step(conf, InitStep::PacketParams)
        + init_step(conf, InitStep::DioIrqParams)
        + init_step(conf, InitStep::Dio2AsRfSwitch)
        + init_step(conf, InitStep::SyncWord)
}

/// The bring-up starts with the hardware reset, whatever the configuration
/// holds: the reset line low, 200 us, the reset line high, and the wait for
/// the busy line. A run from the start therefore does not depend on what
/// state an earlier run left the chip in.
pub proof fn lemma_init_starts_with_reset(conf: Config)
    ensures
        init(conf).len() >= 5,
        init(conf).subrange(0, 5) == reset() + busy_wait(),
        init(conf)[0].action == ActionView::ResetLow,
        init(conf)[2].action == ActionView::ResetHigh,
{
    assert(init(conf).subrange(0, 5) =~= reset() + busy_wait());
}

/// `conf` without TCXO options.
pub open spec fn without_tcxo(conf: Config) -> Config {
    Config { tcxo_opts: None, ..conf }
}

/// `conf` without packet parameters.
pub open spec fn without_packet_params(conf: Config) -> Config {
    Config { packet_params: None, ..conf }
}

/// The bring-up takes its steps in one order, whatever the configuration
/// holds.
///
/// Without TCXO options the TCXO step does nothing, and with them it is one
/// command and its wait; the same holds of the packet parameters. To take
/// the TCXO options or the packet parameters out of a configuration changes
/// no other step.
pub proof fn lemma_init_optional_steps(conf: Config, step: InitStep)
    ensures
        init_step(without_tcxo(conf), InitStep::Tcxo).len() == 0,
        conf.tcxo_opts matches Some((tcxo_voltage, tcxo_delay)) ==> init_step(conf, InitStep::Tcxo)
            == then_busy_wait(set_dio3_as_tcxo_ctrl(tcxo_voltage, tcxo_delay)),
        step != InitStep::Tcxo ==> init_step(without_tcxo(conf), step) == init_step(conf, step),
        init_step(without_packet_params(conf), InitStep::PacketParams).len() == 0,
        conf.packet_params matches Some(packet_params) ==> init_step(conf, InitStep::PacketParams)
            == then_busy_wait(set_packet_params(packet_params)),
        step != InitStep::PacketParams ==> init_step(without_packet_params(conf), step)
            == init_step(conf, step),
{
}

/// Leaving out the TCXO options leaves out exactly the TCXO step: the
/// bring-up without them is the bring-up with them, less the three steps
/// that follow the first fourteen. Every step before and after stays as it
/// is and where it is.
pub proof fn lemma_init_without_tcxo(conf: Config)
    requires
        conf.tcxo_opts is Some,
    ensures
        init(conf).len() == init(without_tcxo(conf)).len() + 3,
        init(conf).subrange(14, 17) == init_step(conf, InitStep::Tcxo),
        init(without_tcxo(conf)) == init(conf).subrange(0, 14) + init(conf).subrange(
            17,
            init(conf).len() as int,
        ),
{
    let with = init(conf);
    let without = init(without_tcxo(conf));
    assert(with.subrange(14, 17) =~= init_step(conf, InitStep::Tcxo));
    assert(without =~= with.subrange(0, 14) + with.subrange(17, with.len() as int));
}

/// Leaving out the packet parameters leaves out exactly the packet
/// parameter step: the bring-up without them is the bring-up with them,
/// less the three steps of that step. Every step before and after stays as
/// it is and where it is.
pub proof fn lemma_init_without_packet_params(conf: Config)
    requires
        conf.packet_params is Some,
    ensures
        ({
            let at = 32 + init_step(conf, InitStep::Tcxo).len() as int;
            &&& init(conf).len() == init(without_packet_params(conf)).len() + 3
            &&& init(conf).subrange(at, at + 3) == init_step(conf, InitStep::PacketParams)
            &&& init(without_packet_params(conf)) == init(conf).subrange(0, at) + init(
                conf,
            ).subrange(at + 3, init(conf).len() as int)
        }),
{
    let with = init(conf);
    let without = init(without_packet_params(conf));
    let at = 32 + init_step(conf, InitStep::Tcxo).len() as int;
    assert(with.subrange(at, at + 3) =~= init_step(conf, InitStep::PacketParams));
    assert(without =~= with.subrange(0, at) + with.subrange(at + 3, with.len() as int));
}

/// A transmission on the wire, byte by byte: `WriteBuffer` at offset 0 with
/// the data; `SetPacketParams` with the preamble length, variable length,
/// the length of the data, the CRC type and standard IQ; `SetTx` with the
/// three bytes of the timeout; the bus held for 1 us and the busy line
/// awaited low; DIO1 awaited high; `ClearIrqStatus` with every flag.
pub proof fn lemma_write_bytes_on_the_wire(
    data: Seq<u8>,
    timeout: RxTxTimeout,
    preamble_len: u16,
    crc_type: LoRaCrcType,
)
    requires
        data.len() <= 255,
    ensures
        write_bytes(data, timeout, preamble_len, crc_type) == seq![
            transaction(
                seq![Op::Write(seq![0x0Eu8, 0x00u8]), Op::Write(data)],
                SpiError::Write,
            ),
            transaction(
                seq![
                    Op::Write(seq![0x8Cu8]),
                    Op::Write(
                        seq![
                            (preamble_len / 0x100) as u8,
                            (preamble_len % 0x100) as u8,
                            0x00u8,
                            data.len() as u8,
                            crc_type.code(),
                            0x00u8,
                            0x00u8,
                            0x00u8,
                            0x00u8,
                        ],
                    ),
                ],
                SpiError::Write,
            ),
            transaction(
                seq![Op::TransferInPlace(seq![0x83u8] + timeout.bytes())],
                SpiError::Transfer,
            ),
            transaction(seq![Op::DelayNs(1000)], SpiError::BusError),
            StepView { action: ActionView::WaitBusyLow, error: SpiError::BusError },
            StepView { action: ActionView::WaitDio1High, error: SpiError::BusError },
            transaction(
                seq![Op::Write(seq![0x02u8]), Op::Write(seq![0xFFu8, 0xFFu8])],
                SpiError::Write,
            ),
        ],
{
    let params = write_bytes_params(data.len() as u8, preamble_len, crc_type);
    crate::op::packet::lemma_packet_params_round_trip(params);
    assert(PacketParams::encode(params).bytes() =~= seq![
        (preamble_len / 0x100) as u8,
        (preamble_len % 0x100) as u8,
        0x00u8,
        data.len() as u8,
        crc_type.code(),
        0x00u8,
        0x00u8,
        0x00u8,
        0x00u8,
    ]);
    crate::op::irq::lemma_irq_mask_union(
        0xFFFF,
        crate::op::irq::IrqMaskBit::TxDone,
        crate::op::irq::IrqMaskBit::TxDone,
    );
    assert(be16(0xFFFF) =~= seq![0xFFu8, 0xFFu8]);
    let steps = write_bytes(data, timeout, preamble_len, crc_type);
    assert(steps.len() == 7);
    assert(steps[3] == transaction(seq![Op::DelayNs(1000)], SpiError::BusError));
    assert(steps =~= seq![
        steps[0],
        steps[1],
        steps[2],
        steps[3],
        steps[4],
        steps[5],
        steps[6],
    ]);
}

/// A failure during the bring-up ends it at the step that failed. If the
/// host reports success for the steps before step `i` and failure for step
/// `i`, the bring-up ends with the error of step `i`, and no step is
/// pending from then on, whatever the host reports `later`.
pub proof fn lemma_init_failure_aborts(
    conf: Config,
    responses: Seq<Seq<u8>>,
    later: Seq<EventView>,
)
    requires
        responses.len() < init(conf).len(),
    ensures
        ({
            let i = responses.len() as int;
            let state = SequenceView::start(init(conf)).after(
                completions(responses) + seq![EventView::Failed] + later,
            );
            &&& state.result() == Some(Err::<(), SpiError>(init(conf)[i].error))
            &&& state.pending() is None
            &&& state.responses == responses
        }),
{
    lemma_failure_aborts(init(conf), responses, later);
}

/// How many bytes the chip sends in answer to each command that reads: as
/// many as the function that reads the response takes.
pub proof fn lemma_response_lengths(start_addr: u16, offset: u8, len: nat, timeout: RxTxTimeout)
    ensures
        get_status().action.reads() == 2,
        get_stats().action.reads() == 8,
        get_packet_status().action.reads() == 3,
        get_device_errors().action.reads() == 4,
        get_irq_status().action.reads() == 3,
        get_rx_buffer_status().action.reads() == 4,
        set_tx(timeout).action.reads() == 4,
        set_rx(timeout).action.reads() == 0,
        read_register(start_addr, len).action.reads() == len,
        read_buffer(offset, len).action.reads() == len,
{
    reveal_with_fuel(response_len, 5);
    assert(get_packet_status().action.reads() == 3) by {
        let ops = seq![Op::Write(seq![0x14u8, NOP]), Op::Read(3)];
        assert(ops.drop_last() =~= seq![Op::Write(seq![0x14u8, NOP])]);
        assert(ops.drop_last().drop_last() =~= Seq::<Op>::empty());
    }
    assert(get_irq_status().action.reads() == 3) by {
        let ops = seq![Op::Write(seq![0x12u8]), Op::Read(3)];
        assert(ops.drop_last() =~= seq![Op::Write(seq![0x12u8])]);
        assert(ops.drop_last().drop_last() =~= Seq::<Op>::empty());
    }
    assert(read_buffer(offset, len).action.reads() == len) by {
        let ops = seq![Op::Write(seq![0x1Eu8, offset, NOP]), Op::Read(len)];
        assert(ops.drop_last() =~= seq![Op::Write(seq![0x1Eu8, offset, NOP])]);
        assert(ops.drop_last().drop_last() =~= Seq::<Op>::empty());
    }
    assert(read_register(start_addr, len).action.reads() == len) by {
        let ops = seq![
            Op::Write(seq![0x1Du8]),
            Op::Write(be16(start_addr)),
            Op::Write(seq![NOP]),
            Op::Read(len),
        ];
        let a = ops.drop_last();
        let b = a.drop_last();
        let c = b.drop_last();
        assert(c.drop_last() =~= Seq::<Op>::empty());
    }
}

} // verus!
