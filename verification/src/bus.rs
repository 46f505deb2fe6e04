//! The steps the driver asks of the hardware, and how bytes are framed on the bus.
//!
//! A byte sent while the data/command line is low is read by the controller as an
//! opcode; bytes sent while it is high are parameters or pixel data. A frame is
//! the run of steps that sends one of the two: set the line, write, and for the
//! blocking forms wait until the bus has drained.

use vstd::prelude::*;
use crate::error::BusError;
use crate::st7789v::{LCD_ON_DELAY_US, RESET_DELAY_US, WAIT_MS};

verus! {

/// The three control lines beside the serial bus.
#[derive(Clone, Copy, PartialEq, Eq, Debug, Structural)]
pub enum Line {
    /// Hardware reset, active low.
    Reset,
    /// Data/command select: low for an opcode, high for data.
    DataCommand,
    /// Power enable of the panel: low is off, high is on.
    Power,
}

/// One step for the hardware to carry out.
#[derive(PartialEq, Eq, Debug)]
pub enum BusOp {
    /// Drive a control line low.
    SetLow(Line),
    /// Drive a control line high.
    SetHigh(Line),
    /// Hand these bytes to the serial bus, in this order.
    Write(Vec<u8>),
    /// Block until everything handed to the serial bus has left it.
    Flush,
    /// Block for this many milliseconds.
    DelayMs(u32),
    /// Block for this many microseconds.
    DelayUs(u32),
}

/// What a [`BusOp`] stands for: the same step, with its bytes as a sequence.
pub enum Signal {
    SetLow(Line),
    SetHigh(Line),
    Write(Seq<u8>),
    Flush,
    DelayMs(u32),
    DelayUs(u32),
}

impl View for BusOp {
    type V = Signal;

    open spec fn view(&self) -> Signal {
        match self {
            BusOp::SetLow(line) => Signal::SetLow(*line),
            BusOp::SetHigh(line) => Signal::SetHigh(*line),
            BusOp::Write(bytes) => Signal::Write(bytes@),
            BusOp::Flush => Signal::Flush,
            BusOp::DelayMs(ms) => Signal::DelayMs(*ms),
            BusOp::DelayUs(us) => Signal::DelayUs(*us),
        }
    }
}

/// The steps of a queue, each as what it stands for.
pub open spec fn signals(ops: Seq<BusOp>) -> Seq<Signal> {
    Seq::new(ops.len(), |i: int| ops[i]@)
}

/// The failure that a step reports when the hardware refuses it. A control line
/// that cannot be driven is a control-line fault; a write or a drain that fails
/// is a bus-write fault; a wait has nothing to report.
pub open spec fn fault(signal: Signal) -> Option<BusError> {
    match signal {
        Signal::SetLow(_) | Signal::SetHigh(_) => Some(BusError::ControlLineFault),
        Signal::Write(_) | Signal::Flush => Some(BusError::BusWriteFault),
        Signal::DelayMs(_) | Signal::DelayUs(_) => None,
    }
}

/// An opcode sent and drained: line low, one byte, flush.
pub open spec fn command_frame(opcode: u8) -> Seq<Signal> {
    seq![Signal::SetLow(Line::DataCommand), Signal::Write(seq![opcode]), Signal::Flush]
}

/// Data sent and drained: line high, the bytes, flush.
pub open spec fn data_frame(bytes: Seq<u8>) -> Seq<Signal> {
    seq![Signal::SetHigh(Line::DataCommand), Signal::Write(bytes), Signal::Flush]
}

/// An opcode handed to the bus without waiting for it to drain.
pub open spec fn command_frame_async(opcode: u8) -> Seq<Signal> {
    seq![Signal::SetLow(Line::DataCommand), Signal::Write(seq![opcode])]
}

/// Data handed to the bus without waiting for it to drain.
pub open spec fn data_frame_async(bytes: Seq<u8>) -> Seq<Signal> {
    seq![Signal::SetHigh(Line::DataCommand), Signal::Write(bytes)]
}

/// The reset pulse: line low, a short hold, line high, then the settle delay.
pub open spec fn reset_pulse() -> Seq<Signal> {
    seq![
        Signal::SetLow(Line::Reset),
        Signal::DelayUs(RESET_DELAY_US),
        Signal::SetHigh(Line::Reset),
        Signal::DelayMs(WAIT_MS),
    ]
}

/// Power to the panel switched on, and its settle delay.
pub open spec fn power_up() -> Seq<Signal> {
    seq![Signal::SetHigh(Line::Power), Signal::DelayUs(LCD_ON_DELAY_US)]
}

/// Power to the panel switched off, and its settle delay.
pub open spec fn power_down() -> Seq<Signal> {
    seq![Signal::SetLow(Line::Power), Signal::DelayUs(LCD_ON_DELAY_US)]
}

/// What the controller's side of the bus looks like between two steps.
pub struct BusState {
    /// Whether the data/command line is high; unknown until it is first set.
    pub data_mode: Option<bool>,
    /// Whether bytes handed to the bus may still be on their way.
    pub in_flight: bool,
}

impl BusState {
    /// The bus after one more step, or `None` where the step breaks the order:
    /// the data/command line may not change state while bytes are in flight,
    /// since the controller would take them for the wrong kind.
    pub open spec fn after(self, signal: Signal) -> Option<BusState> {
        match signal {
            Signal::SetLow(Line::DataCommand) => if self.in_flight && self.data_mode != Some(
                false,
            ) {
                None
            } else {
                Some(BusState { data_mode: Some(false), in_flight: self.in_flight })
            },
            Signal::SetHigh(Line::DataCommand) => if self.in_flight && self.data_mode != Some(
                true,
            ) {
                None
            } else {
                Some(BusState { data_mode: Some(true), in_flight: self.in_flight })
            },
            Signal::Write(_) => Some(BusState { data_mode: self.data_mode, in_flight: true }),
            Signal::Flush => Some(BusState { data_mode: self.data_mode, in_flight: false }),
            _ => Some(self),
        }
    }

    /// The bus after a run of steps, or `None` where one of them breaks the
    /// order.
    pub open spec fn after_all(self, steps: Seq<Signal>) -> Option<BusState>
        decreases steps.len(),
    {
        if steps.len() == 0 {
            Some(self)
        } else {
            match self.after(steps[0]) {
                Some(state) => state.after_all(steps.drop_first()),
                None => None,
            }
        }
    }

    /// Where a command frame leaves the bus: line low, nothing in flight.
    pub open spec fn after_command() -> BusState {
        BusState { data_mode: Some(false), in_flight: false }
    }

    /// Where a data frame leaves the bus: line high, nothing in flight.
    pub open spec fn after_data() -> BusState {
        BusState { data_mode: Some(true), in_flight: false }
    }

    /// Whether the steps keep the order and leave nothing in flight.
    pub open spec fn drained_by(self, steps: Seq<Signal>) -> bool {
        self.after_all(steps) is Some && !self.after_all(steps).unwrap().in_flight
    }
}

/// Steps in a row are followed one run after the other: the second run starts
/// where the first one left the bus.
pub proof fn lemma_after_all_joined(state: BusState, first: Seq<Signal>, second: Seq<Signal>)
    ensures
        state.after_all(first + second) == match state.after_all(first) {
            Some(between) => between.after_all(second),
            None => None,
        },
    decreases first.len(),
{
    if first.len() == 0 {
        assert(first + second =~= second);
    } else {
        assert((first + second)[0] == first[0]);
        assert((first + second).drop_first() =~= first.drop_first() + second);
        match state.after(first[0]) {
            Some(next) => {
                lemma_after_all_joined(next, first.drop_first(), second);
            },
            None => {},
        }
    }
}

/// Two runs that each keep the order and leave nothing in flight do so in a
/// row as well.
pub proof fn lemma_drained_joined(state: BusState, first: Seq<Signal>, second: Seq<Signal>)
    requires
        state.drained_by(first),
        state.after_all(first).unwrap().drained_by(second),
    ensures
        state.drained_by(first + second),
        state.after_all(first + second) == state.after_all(first).unwrap().after_all(second),
{
    lemma_after_all_joined(state, first, second);
}

/// The blocking frames keep the order by themselves: on a bus with nothing in
/// flight, a command frame and a data frame each leave nothing in flight, the
/// line low after the one and high after the other. Waits and the other two
/// lines change nothing.
pub proof fn lemma_blocking_frames_drain(state: BusState, opcode: u8, bytes: Seq<u8>)
    requires
        !state.in_flight,
    ensures
        state.after_all(command_frame(opcode)) == Some(BusState::after_command()),
        state.after_all(data_frame(bytes)) == Some(BusState::after_data()),
        state.after_all(reset_pulse()) == Some(state),
        state.after_all(power_up()) == Some(state),
        state.after_all(power_down()) == Some(state),
{
    reveal_with_fuel(BusState::after_all, 5);
}

/// The forms that do not block leave bytes in flight, and a frame of the other
/// kind behind one of them breaks the order unless a flush stands between.
pub proof fn lemma_async_frames_need_flush(state: BusState, opcode: u8, bytes: Seq<u8>)
    requires
        !state.in_flight,
    ensures
        state.after_all(command_frame_async(opcode)) == Some(
            BusState { data_mode: Some(false), in_flight: true },
        ),
        state.after_all(data_frame_async(bytes)) == Some(
            BusState { data_mode: Some(true), in_flight: true },
        ),
        state.after_all(command_frame_async(opcode) + data_frame_async(bytes)) is None,
        state.after_all(data_frame_async(bytes) + command_frame_async(opcode)) is None,
        state.drained_by(
            command_frame_async(opcode) + seq![Signal::Flush] + data_frame_async(bytes) + seq![
                Signal::Flush,
            ],
        ),
{
    reveal_with_fuel(BusState::after_all, 5);
    lemma_after_all_joined(state, command_frame_async(opcode), data_frame_async(bytes));
    lemma_after_all_joined(state, data_frame_async(bytes), command_frame_async(opcode));
    assert(command_frame_async(opcode) + seq![Signal::Flush] =~= command_frame(opcode));
    assert(data_frame_async(bytes) + seq![Signal::Flush] =~= data_frame(bytes));
    assert(command_frame_async(opcode) + seq![Signal::Flush] + data_frame_async(bytes) + seq![
        Signal::Flush,
    ] =~= command_frame(opcode) + data_frame(bytes));
    lemma_after_all_joined(state, command_frame(opcode), data_frame(bytes));
    lemma_blocking_frames_drain(state, opcode, bytes);
    lemma_blocking_frames_drain(BusState::after_command(), opcode, bytes);
}

impl BusOp {
    /// The failure to report when the hardware refuses this step, if it can.
    pub fn fault(&self) -> (f: Option<BusError>)
        ensures
            f == fault(self@),
    {
        match self {
            BusOp::SetLow(_) | BusOp::SetHigh(_) => Some(BusError::ControlLineFault),
            BusOp::Write(_) | BusOp::Flush => Some(BusError::BusWriteFault),
            BusOp::DelayMs(_) | BusOp::DelayUs(_) => None,
        }
    }
}

} // verus!
