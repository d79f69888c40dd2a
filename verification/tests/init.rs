use sx126x::op::irq::{IrqMask, IrqMaskBit};
use sx126x::op::packet::PacketType;
use sx126x::op::tcxo::{TcxoDelay, TcxoVoltage};
use sx126x::sx::host::{Action, Event, Operation, Step};
use sx126x::sx::sequence::Sequence;
use sx126x::sx;
use sx126x::{Config, RfFrequency, SpiError};

fn write(bytes: &[u8]) -> Operation {
    Operation::Write(bytes.to_vec())
}

fn command(ops: Vec<Operation>, error: SpiError) -> Vec<Step<SpiError>> {
    vec![
        Step { action: Action::Transaction(ops), error },
        Step {
            action: Action::Transaction(vec![Operation::DelayNs(1000)]),
            error: SpiError::BusError,
        },
        Step { action: Action::WaitBusyLow, error: SpiError::BusError },
    ]
}

fn reset_step() -> Vec<Step<SpiError>> {
    vec![
        Step { action: Action::ResetLow, error: SpiError::BusError },
        Step {
            action: Action::Transaction(vec![Operation::DelayNs(200_000)]),
            error: SpiError::Write,
        },
        Step { action: Action::ResetHigh, error: SpiError::BusError },
        Step {
            action: Action::Transaction(vec![Operation::DelayNs(1000)]),
            error: SpiError::BusError,
        },
        Step { action: Action::WaitBusyLow, error: SpiError::BusError },
    ]
}

/// The fourteen steps of the bring-up under the default configuration.
fn default_steps() -> Vec<Vec<Step<SpiError>>> {
    let mut calibrate = command(vec![write(&[0x89, 0x7F])], SpiError::Write);
    calibrate.extend(command(vec![write(&[0x98]), write(&[0xE1, 0xE9])], SpiError::Write));
    vec![
        reset_step(),
        command(vec![write(&[0x80, 0x00])], SpiError::Write),
        command(vec![write(&[0x8A, 0x01])], SpiError::Write),
        command(vec![write(&[0x86]), write(&[0x38, 0x93, 0x33, 0x33])], SpiError::Write),
        command(vec![write(&[0x97, 0x07]), write(&[0x00, 0x00, 0x40])], SpiError::Write),
        calibrate,
        command(vec![write(&[0x95]), write(&[0x04, 0x07, 0x00, 0x01])], SpiError::Write),
        command(vec![write(&[0x8E]), write(&[0x00, 0x04])], SpiError::Write),
        command(vec![write(&[0x8F, 0x00, 0x00])], SpiError::Write),
        command(vec![write(&[0x8B]), write(&[0x09, 0x05, 0x03, 0x00, 0, 0, 0, 0])], SpiError::Write),
        command(
            vec![write(&[0x8C]), write(&[0x00, 0x08, 0x00, 0xFF, 0x01, 0x00, 0, 0, 0])],
            SpiError::Write,
        ),
        command(
            vec![
                write(&[0x08]),
                write(&[0xFF, 0xFF]),
                write(&[0xFF, 0xFF]),
                write(&[0xFF, 0xFF]),
                write(&[0xFF, 0xFF]),
            ],
            SpiError::Transfer,
        ),
        command(vec![write(&[0x9D, 0x01])], SpiError::Write),
        command(vec![write(&[0x0D]), write(&[0x07, 0x40]), write(&[0x00, 0x12])], SpiError::Write),
    ]
}

fn flatten(steps: Vec<Vec<Step<SpiError>>>) -> Vec<Step<SpiError>> {
    steps.into_iter().flatten().collect()
}

fn without(steps: Vec<Vec<Step<SpiError>>>, left_out: &[usize]) -> Vec<Step<SpiError>> {
    let kept = steps.into_iter().enumerate().filter(|(i, _)| !left_out.contains(i));
    kept.flat_map(|(_, step)| step).collect()
}

/// Runs `steps` on a host that fails the action numbered `failing`, and
/// returns what the host was asked to do and how the run ended.
fn run(steps: Vec<Step<SpiError>>, failing: Option<usize>) -> (Vec<Action>, Result<(), SpiError>) {
    let mut run = Sequence::new(steps);
    let mut performed = Vec::new();
    loop {
        let event = match run.next() {
            Some(action) => {
                let event = if failing == Some(performed.len()) {
                    Event::Failed
                } else {
                    Event::Completed(vec![])
                };
                performed.push(copy_of(action));
                event
            }
            None => break,
        };
        run.handle(event);
    }
    (performed, run.result().unwrap())
}

fn copy_of(action: &Action) -> Action {
    match action {
        Action::Transaction(ops) => Action::Transaction(
            ops.iter()
                .map(|op| match op {
                    Operation::Read(n) => Operation::Read(*n),
                    Operation::Write(bytes) => Operation::Write(bytes.clone()),
                    Operation::TransferInPlace(bytes) => Operation::TransferInPlace(bytes.clone()),
                    Operation::DelayNs(ns) => Operation::DelayNs(*ns),
                })
                .collect(),
        ),
        Action::ResetLow => Action::ResetLow,
        Action::ResetHigh => Action::ResetHigh,
        Action::AntennaLow => Action::AntennaLow,
        Action::AntennaHigh => Action::AntennaHigh,
        Action::WaitBusyLow => Action::WaitBusyLow,
        Action::WaitDio1High => Action::WaitDio1High,
    }
}

#[test]
fn init_takes_the_fourteen_steps_in_order() {
    let steps = sx::init(Config::default());
    assert_eq!(steps.len(), 5 + 4 * 3 + 6 + 8 * 3);
    assert_eq!(steps, flatten(default_steps()));
}

#[test]
fn init_without_tcxo_skips_exactly_that_step() {
    let conf = Config { tcxo_opts: None, ..Config::default() };
    assert_eq!(sx::init(conf), without(default_steps(), &[4]));
    let with = sx::init(Config::default());
    let skipped = sx::init(conf);
    assert_eq!(skipped.len() + 3, with.len());
    assert_eq!(&skipped[..14], &with[..14]);
    assert_eq!(&skipped[14..], &with[17..]);
}

#[test]
fn init_without_packet_params_skips_exactly_that_step() {
    let conf = Config { packet_params: None, ..Config::default() };
    assert_eq!(sx::init(conf), without(default_steps(), &[10]));
    let with = sx::init(Config::default());
    let skipped = sx::init(conf);
    assert_eq!(skipped.len() + 3, with.len());
    assert_eq!(&skipped[..35], &with[..35]);
    assert_eq!(&skipped[35..], &with[38..]);
}

#[test]
fn init_without_both_skips_both_steps() {
    let conf = Config { tcxo_opts: None, packet_params: None, ..Config::default() };
    assert_eq!(sx::init(conf), without(default_steps(), &[4, 10]));
}

#[test]
fn init_follows_the_configuration() {
    let conf = Config {
        packet_type: PacketType::GFSK,
        sync_word: 0x3444,
        rf: RfFrequency::new(868_000_000, 32_000_000).unwrap(),
        tcxo_opts: Some((TcxoVoltage::Volt1_8, TcxoDelay::from_ms(5))),
        dio1_irq_mask: IrqMask::none().combine(IrqMaskBit::TxDone).combine(IrqMaskBit::Timeout),
        dio2_irq_mask: IrqMask::all(),
        dio3_irq_mask: IrqMask::all(),
        ..Config::default()
    };
    let mut expected = default_steps();
    expected[2] = command(vec![write(&[0x8A, 0x00])], SpiError::Write);
    expected[3] = command(vec![write(&[0x86]), write(&[0x36, 0x40, 0x00, 0x00])], SpiError::Write);
    expected[4] = command(vec![write(&[0x97, 0x02]), write(&[0x00, 0x01, 0x40])], SpiError::Write);
    // The image is calibrated for the band of the carrier, 863 - 870 MHz.
    let mut calibrate = command(vec![write(&[0x89, 0x7F])], SpiError::Write);
    calibrate.extend(command(vec![write(&[0x98]), write(&[0xD7, 0xDB])], SpiError::Write));
    expected[5] = calibrate;
    // The mask of DIO1 goes to all four places.
    expected[11] = command(
        vec![
            write(&[0x08]),
            write(&[0x02, 0x01]),
            write(&[0x02, 0x01]),
            write(&[0x02, 0x01]),
            write(&[0x02, 0x01]),
        ],
        SpiError::Transfer,
    );
    expected[13] =
        command(vec![write(&[0x0D]), write(&[0x07, 0x40]), write(&[0x34, 0x44])], SpiError::Write);
    assert_eq!(sx::init(conf), flatten(expected));
}

#[test]
fn init_off_band_calibrates_for_902_928() {
    let conf = Config {
        rf: RfFrequency::new(169_000_000, 32_000_000).unwrap(),
        ..Config::default()
    };
    let steps = sx::init(conf);
    assert_eq!(
        steps[20],
        Step {
            action: Action::Transaction(vec![write(&[0x98]), write(&[0xE1, 0xE9])]),
            error: SpiError::Write,
        },
    );
}

#[test]
fn init_runs_to_the_end_when_nothing_fails() {
    let (performed, result) = run(sx::init(Config::default()), None);
    assert_eq!(result, Ok(()));
    let expected: Vec<Action> =
        flatten(default_steps()).into_iter().map(|step| step.action).collect();
    assert_eq!(performed, expected);
}

#[test]
fn init_aborts_at_the_step_that_fails() {
    let script = flatten(default_steps());
    for failing in 0..script.len() {
        let (performed, result) = run(sx::init(Config::default()), Some(failing));
        assert_eq!(result, Err(script[failing].error));
        assert_eq!(performed.len(), failing + 1);
        for (action, step) in performed.iter().zip(script.iter()) {
            assert_eq!(action, &step.action);
        }
    }
}

#[test]
fn init_errors_by_kind() {
    // A command that fails reports its own error.
    let (_, result) = run(sx::init(Config::default()), Some(5));
    assert_eq!(result, Err(SpiError::Write));
    // The delay of the reset is a write.
    let (_, result) = run(sx::init(Config::default()), Some(1));
    assert_eq!(result, Err(SpiError::Write));
    // The reset line and the wait for the busy line report a bus error.
    let (_, result) = run(sx::init(Config::default()), Some(0));
    assert_eq!(result, Err(SpiError::BusError));
    let (_, result) = run(sx::init(Config::default()), Some(3));
    assert_eq!(result, Err(SpiError::BusError));
    let (_, result) = run(sx::init(Config::default()), Some(4));
    assert_eq!(result, Err(SpiError::BusError));
    // The interrupt masks report a transfer error.
    let (_, result) = run(sx::init(Config::default()), Some(38));
    assert_eq!(result, Err(SpiError::Transfer));
}

#[test]
fn init_can_be_run_again_from_the_start() {
    let (_, first) = run(sx::init(Config::default()), Some(20));
    assert!(first.is_err());
    let (performed, second) = run(sx::init(Config::default()), None);
    assert_eq!(second, Ok(()));
    assert_eq!(performed[0], Action::ResetLow);
    assert_eq!(sx::init(Config::default()), sx::init(Config::default()));
}
