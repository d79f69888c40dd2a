//! What the driver asks of its host, and what the host reports back.
//!
//! The driver performs no I/O. It hands out [`Step`]s; the host that owns
//! the serial bus and the four control lines performs the [`Action`] of each
//! and reports an [`Event`].

use vstd::prelude::*;

verus! {

/// One operation within a bus transaction.
#[derive(Debug, PartialEq, Eq)]
pub enum Operation {
    /// Read this many bytes from the chip.
    Read(usize),
    /// Write these bytes to the chip.
    Write(Vec<u8>),
    /// Write these bytes and read as many, which replace them.
    TransferInPlace(Vec<u8>),
    /// Hold the bus for this many nanoseconds.
    DelayNs(u32),
}

/// An operation with its bytes as values.
pub enum Op {
    Read(nat),
    Write(Seq<u8>),
    TransferInPlace(Seq<u8>),
    DelayNs(u32),
}

impl View for Operation {
    type V = Op;

    open spec fn view(&self) -> Op {
        match *self {
            Operation::Read(n) => Op::Read(n as nat),
            Operation::Write(bytes) => Op::Write(bytes@),
            Operation::TransferInPlace(bytes) => Op::TransferInPlace(bytes@),
            Operation::DelayNs(ns) => Op::DelayNs(ns),
        }
    }
}

impl Op {
    /// The number of bytes that the operation reads.
    pub open spec fn reads(self) -> nat {
        match self {
            Op::Read(n) => n,
            Op::Write(_) => 0,
            Op::TransferInPlace(bytes) => bytes.len(),
            Op::DelayNs(_) => 0,
        }
    }
}

/// The operations of `ops` as values.
pub open spec fn ops_view(ops: Seq<Operation>) -> Seq<Op> {
    ops.map_values(|op: Operation| op@)
}

/// The number of bytes that a transaction of `ops` reads: the length of
/// its response.
pub open spec fn response_len(ops: Seq<Op>) -> nat
    decreases ops.len(),
{
    if ops.len() == 0 {
        0
    } else {
        response_len(ops.drop_last()) + ops.last().reads()
    }
}

/// Something for the host to do.
#[derive(Debug, PartialEq, Eq)]
pub enum Action {
    /// Perform these operations as one bus transaction: in this order, with
    /// the chip selected throughout and no other transaction in between.
    /// The bytes read, in the order read, are the response.
    Transaction(Vec<Operation>),
    /// Drive the reset line low.
    ResetLow,
    /// Drive the reset line high.
    ResetHigh,
    /// Drive the antenna-enable line low.
    AntennaLow,
    /// Drive the antenna-enable line high.
    AntennaHigh,
    /// Wait until the busy line reads low.
    WaitBusyLow,
    /// Wait until the DIO1 line reads high.
    WaitDio1High,
}

/// An action with its bytes as values.
pub enum ActionView {
    Transaction(Seq<Op>),
    ResetLow,
    ResetHigh,
    AntennaLow,
    AntennaHigh,
    WaitBusyLow,
    WaitDio1High,
}

impl ActionView {
    /// The length of the response to the action. Only a transaction has
    /// one that is not empty.
    pub open spec fn reads(self) -> nat {
        match self {
            ActionView::Transaction(ops) => response_len(ops),
            _ => 0,
        }
    }
}

impl View for Action {
    type V = ActionView;

    open spec fn view(&self) -> ActionView {
        match *self {
            Action::Transaction(ops) => ActionView::Transaction(ops_view(ops@)),
            Action::ResetLow => ActionView::ResetLow,
            Action::ResetHigh => ActionView::ResetHigh,
            Action::AntennaLow => ActionView::AntennaLow,
            Action::AntennaHigh => ActionView::AntennaHigh,
            Action::WaitBusyLow => ActionView::WaitBusyLow,
            Action::WaitDio1High => ActionView::WaitDio1High,
        }
    }
}

/// An action, and the error that the driver reports if the host fails to
/// perform it.
#[derive(Debug, PartialEq, Eq)]
pub struct Step<E> {
    pub action: Action,
    pub error: E,
}

/// A step with its bytes as values.
pub struct StepView<E> {
    pub action: ActionView,
    pub error: E,
}

impl<E> View for Step<E> {
    type V = StepView<E>;

    open spec fn view(&self) -> StepView<E> {
        StepView { action: self.action@, error: self.error }
    }
}

/// The steps of `steps` as values.
pub open spec fn steps_view<E>(steps: Seq<Step<E>>) -> Seq<StepView<E>> {
    steps.map_values(|step: Step<E>| step@)
}

/// The step of one bus transaction.
pub open spec fn transaction<E>(ops: Seq<Op>, error: E) -> StepView<E> {
    StepView { action: ActionView::Transaction(ops), error }
}

/// What became of an action.
#[derive(Debug, PartialEq, Eq)]
pub enum Event {
    /// The action was performed. For a transaction these are the bytes
    /// read; for any other action there are none.
    Completed(Vec<u8>),
    /// The action failed.
    Failed,
}

/// An event with its bytes as values.
pub enum EventView {
    Completed(Seq<u8>),
    Failed,
}

impl View for Event {
    type V = EventView;

    open spec fn view(&self) -> EventView {
        match *self {
            Event::Completed(bytes) => EventView::Completed(bytes@),
            Event::Failed => EventView::Failed,
        }
    }
}

impl Operation {
    /// The operation that writes `bytes`.
    pub fn write(bytes: &[u8]) -> (op: Operation)
        ensures
            op@ == Op::Write(bytes@),
    {
        Operation::Write(vstd::slice::slice_to_vec(bytes))
    }

    /// The operation that writes `bytes` and reads as many.
    pub fn transfer_in_place(bytes: &[u8]) -> (op: Operation)
        ensures
            op@ == Op::TransferInPlace(bytes@),
    {
        Operation::TransferInPlace(vstd::slice::slice_to_vec(bytes))
    }
}

impl<E> Step<E> {
    /// The step of a transaction of one operation.
    pub fn of_one(op: Operation, error: E) -> (step: Step<E>)
        ensures
            step@ == transaction(seq![op@], error),
    {
        let ghost op_view = op@;
        let ops = vec![op];
        assert(ops_view(ops@) =~= seq![op_view]);
        Step { action: Action::Transaction(ops), error }
    }

    /// The step of a transaction of two operations.
    pub fn of_two(first: Operation, second: Operation, error: E) -> (step: Step<E>)
        ensures
            step@ == transaction(seq![first@, second@], error),
    {
        let ghost views = seq![first@, second@];
        let ops = vec![first, second];
        assert(ops_view(ops@) =~= views);
        Step { action: Action::Transaction(ops), error }
    }

    /// The step of a transaction of any operations.
    pub fn of_all(ops: Vec<Operation>, error: E) -> (step: Step<E>)
        ensures
            step@ == transaction(ops_view(ops@), error),
    {
        Step { action: Action::Transaction(ops), error }
    }

    /// The step of an action that is no transaction.
    pub fn of_action(action: Action, error: E) -> (step: Step<E>)
        ensures
            step@ == (StepView { action: action@, error }),
    {
        Step { action, error }
    }
}

} // verus!
