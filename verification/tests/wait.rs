use sx126x::sx::wait::{poll, Polled};
use sx126x::PinError;

#[test]
fn poll_goes_on_until_the_level_is_reached() {
    assert_eq!(poll::<PinError>(Ok(false)), Polled::Again);
    assert_eq!(poll::<PinError>(Ok(true)), Polled::Reached);
}

#[test]
fn poll_ends_when_the_line_cannot_be_read() {
    assert_eq!(poll(Err(PinError::Input)), Polled::Failed(PinError::Input));
    assert_eq!(poll(Err("line stuck")), Polled::Failed("line stuck"));
}

#[test]
fn poll_over_a_series_of_samples() {
    let samples: [Result<bool, PinError>; 5] = [Ok(false), Ok(false), Ok(false), Ok(true), Ok(false)];
    let mut taken = 0;
    let mut outcome = Polled::Again;
    for sample in samples {
        taken += 1;
        outcome = poll(sample);
        if outcome != Polled::Again {
            break;
        }
    }
    assert_eq!(outcome, Polled::Reached);
    assert_eq!(taken, 4);
}
