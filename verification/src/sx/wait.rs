//! Waiting for a line by polling it.

use vstd::prelude::*;

verus! {

/// What a sample of a polled line means for the wait.
#[derive(Copy, Clone, Debug, PartialEq, Eq)]
pub enum Polled<E> {
    /// The line is not at the level waited for: sample again.
    Again,
    /// The line is at the level waited for: the wait has succeeded.
    Reached,
    /// The line could not be read: the wait has failed with this error.
    Failed(E),
}

/// Decides on one sample of a polled line. `sample` tells whether the line
/// was found at the level waited for, or why it could not be read.
///
/// The host samples in a tight loop for as long as the answer is
/// [`Polled::Again`]. Nothing bounds the wait: a line that never reaches
/// the level holds the caller for good.
pub fn poll<E>(sample: Result<bool, E>) -> (r: Polled<E>)
    ensures
        r == match sample {
            Ok(true) => Polled::<E>::Reached,
            Ok(false) => Polled::<E>::Again,
            Err(e) => Polled::<E>::Failed(e),
        },
{
    match sample {
        Ok(true) => Polled::Reached,
        Ok(false) => Polled::Again,
        Err(e) => Polled::Failed(e),
    }
}

} // verus!
