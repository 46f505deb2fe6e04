//! The transport: frames bytes as command or data, and walks the hardware
//! through the queued steps one at a time.
//!
//! The transport never touches a pin or the bus. Its operations queue steps; the
//! embedding program takes them out with [`DisplayInterface::step`], carries each
//! out, and says with the next call whether it went well. A step that fails ends
//! the run at once: what was queued behind it is dropped and the failure is handed
//! back. Nothing is retried.
//!
//! The blocking forms `cmd` and `data` end with a flush, so the line is never
//! switched while bytes are still in flight. The forms `cmd_async` and
//! `data_async` leave that to the caller, who must queue a `flush` before the
//! line changes state.

use std::collections::VecDeque;
use vstd::prelude::*;
use crate::bus::{
    command_frame, command_frame_async, data_frame, data_frame_async, fault, power_down, power_up,
    reset_pulse, signals, BusOp, Line, Signal,
};
use crate::error::BusError;
use crate::st7789v::{LCD_ON_DELAY_US, RESET_DELAY_US, WAIT_MS};

verus! {

/// What the transport holds: the steps still queued, oldest first, and what is at
/// risk with the step that has been handed out and not yet reported on, which is
/// the failure to hand back should the hardware refuse it. Nothing is at risk
/// while no step is out, or while the one that is out is a wait.
pub struct Channel {
    pub queued: Seq<Signal>,
    pub at_risk: Option<BusError>,
}

impl Channel {
    /// Nothing queued, nothing handed out.
    pub open spec fn idle() -> Channel {
        Channel { queued: Seq::empty(), at_risk: None }
    }

    /// The same channel with more steps queued behind those already there.
    pub open spec fn followed_by(self, more: Seq<Signal>) -> Channel {
        Channel { queued: self.queued + more, at_risk: self.at_risk }
    }

    /// Whether this report ends the run with a failure: the step handed out was
    /// refused, and it is one that can be.
    pub open spec fn broken_by(self, event: Event) -> bool {
        &&& event == Event::Failed
        &&& self.at_risk is Some
    }

    /// What the transport asks for next, given the report on the last step.
    pub open spec fn next_move(self, event: Event) -> Move {
        if self.broken_by(event) {
            Move::Finish(Err(self.at_risk.unwrap()))
        } else if self.queued.len() > 0 {
            Move::Perform(self.queued[0])
        } else {
            Move::Finish(Ok(()))
        }
    }

    /// The channel after that report.
    pub open spec fn next(self, event: Event) -> Channel {
        if self.broken_by(event) {
            Channel::idle()
        } else if self.queued.len() > 0 {
            Channel { queued: self.queued.drop_first(), at_risk: fault(self.queued[0]) }
        } else {
            Channel::idle()
        }
    }
}

/// What the embedding program reports when it asks for the next step.
#[derive(Clone, Copy, PartialEq, Eq, Debug, Structural)]
pub enum Event {
    /// There is nothing to report: no step was handed out.
    Idle,
    /// The step handed out last was carried out.
    Done,
    /// The hardware refused the step handed out last.
    Failed,
}

/// What the transport asks of the embedding program.
#[derive(PartialEq, Eq, Debug)]
pub enum Action {
    /// Carry out this step, then report.
    Perform(BusOp),
    /// The run is over, with this result.
    Finish(Result<(), BusError>),
}

/// What an [`Action`] stands for.
pub enum Move {
    Perform(Signal),
    Finish(Result<(), BusError>),
}

impl View for Action {
    type V = Move;

    open spec fn view(&self) -> Move {
        match self {
            Action::Perform(op) => Move::Perform(op@),
            Action::Finish(result) => Move::Finish(*result),
        }
    }
}

/// What the transport asks for, call by call, when it is stepped once with each
/// report in turn.
pub open spec fn moves(channel: Channel, reports: Seq<Event>) -> Seq<Move>
    decreases reports.len(),
{
    if reports.len() == 0 {
        Seq::empty()
    } else {
        seq![channel.next_move(reports[0])] + moves(
            channel.next(reports[0]),
            reports.drop_first(),
        )
    }
}

/// The channel after it has been stepped once with each report in turn.
pub open spec fn settle(channel: Channel, reports: Seq<Event>) -> Channel
    decreases reports.len(),
{
    if reports.len() == 0 {
        channel
    } else {
        settle(channel.next(reports[0]), reports.drop_first())
    }
}

/// Each of the steps, handed out to be carried out.
pub open spec fn handed_out(steps: Seq<Signal>) -> Seq<Move> {
    Seq::new(steps.len(), |i: int| Move::Perform(steps[i]))
}

/// The reports of a run in which `count` steps in a row went well.
pub open spec fn all_done(count: nat) -> Seq<Event> {
    Seq::new(count, |i: int| Event::Done)
}

/// A run in which every step goes well hands out all that is queued, in order,
/// and then ends well with nothing left. `first` is the report that opens the
/// run; it may be anything that does not break the channel.
pub proof fn lemma_run_to_the_end(channel: Channel, first: Event)
    requires
        !channel.broken_by(first),
    ensures
        moves(channel, seq![first] + all_done(channel.queued.len())) == handed_out(
            channel.queued,
        ) + seq![Move::Finish(Ok(()))],
        settle(channel, seq![first] + all_done(channel.queued.len())) == Channel::idle(),
    decreases channel.queued.len(),
{
    let count: nat = channel.queued.len();
    let reports = seq![first] + all_done(count);
    assert(reports[0] == first);
    if count == 0 {
        assert(reports.drop_first() =~= Seq::empty());
        assert(moves(channel.next(first), reports.drop_first()) =~= Seq::empty());
        assert(moves(channel, reports) =~= handed_out(channel.queued) + seq![
            Move::Finish(Ok(())),
        ]);
        assert(settle(channel.next(first), reports.drop_first()) == Channel::idle());
    } else {
        let rest = channel.next(first);
        assert(reports.drop_first() =~= seq![Event::Done] + all_done(rest.queued.len()));
        lemma_run_to_the_end(rest, Event::Done);
        assert(moves(channel, reports) =~= handed_out(channel.queued) + seq![
            Move::Finish(Ok(())),
        ]);
        assert(settle(channel, reports) == settle(rest, reports.drop_first()));
    }
}

/// A run stops at the first step that fails. When the steps before the one at
/// `failing` go well and that one is refused, the steps up to and including it
/// have been handed out and no other, the run ends with that step's failure, and
/// what was queued behind it is dropped.
pub proof fn lemma_run_stops_at_failure(channel: Channel, first: Event, failing: int)
    requires
        !channel.broken_by(first),
        0 <= failing < channel.queued.len(),
        fault(channel.queued[failing]) is Some,
    ensures
        moves(channel, seq![first] + all_done(failing as nat) + seq![Event::Failed])
            == handed_out(channel.queued.take(failing + 1)) + seq![
            Move::Finish(Err(fault(channel.queued[failing]).unwrap())),
        ],
        settle(channel, seq![first] + all_done(failing as nat) + seq![Event::Failed])
            == Channel::idle(),
    decreases failing,
{
    let reports = seq![first] + all_done(failing as nat) + seq![Event::Failed];
    let error = fault(channel.queued[failing]).unwrap();
    let rest = channel.next(first);
    assert(reports[0] == first);
    if failing == 0 {
        assert(reports.drop_first() =~= seq![Event::Failed]);
        assert(seq![Event::Failed].drop_first() =~= Seq::empty());
        assert(rest.broken_by(Event::Failed));
        assert(moves(rest.next(Event::Failed), Seq::empty()) =~= Seq::empty());
        assert(moves(rest, seq![Event::Failed]) =~= seq![Move::Finish(Err(error))]);
        assert(moves(channel, reports) =~= handed_out(channel.queued.take(1)) + seq![
            Move::Finish(Err(error)),
        ]);
        assert(settle(rest.next(Event::Failed), Seq::empty()) == Channel::idle());
        assert(settle(rest, seq![Event::Failed]) == Channel::idle());
        assert(settle(channel, reports) == settle(rest, reports.drop_first()));
    } else {
        assert(reports.drop_first() =~= seq![Event::Done] + all_done((failing - 1) as nat)
            + seq![Event::Failed]);
        lemma_run_stops_at_failure(rest, Event::Done, failing - 1);
        assert(rest.queued.take(failing) =~= channel.queued.take(failing + 1).drop_first());
        assert(moves(channel, reports) =~= handed_out(channel.queued.take(failing + 1)) + seq![
            Move::Finish(Err(error)),
        ]);
        assert(settle(channel, reports) == settle(rest, reports.drop_first()));
    }
}

/// What can go wrong with the step that is now with the hardware.
#[derive(Clone, Copy)]
enum Risk {
    /// No step is out, or it is a wait.
    Nothing,
    /// A control line is being driven.
    Line,
    /// The bus is being written to or drained.
    Bus,
}

impl Risk {
    /// The failure to hand back should the step be refused.
    spec fn error(self) -> Option<BusError> {
        match self {
            Risk::Nothing => None,
            Risk::Line => Some(BusError::ControlLineFault),
            Risk::Bus => Some(BusError::BusWriteFault),
        }
    }

    /// What is at risk with a step.
    fn of(op: &BusOp) -> (risk: Risk)
        ensures
            risk.error() == fault(op@),
    {
        match op.fault() {
            Some(BusError::ControlLineFault) => Risk::Line,
            Some(_) => Risk::Bus,
            None => Risk::Nothing,
        }
    }
}

/// The transport between the driver and the hardware.
pub struct DisplayInterface {
    /// Steps not yet handed out, oldest first.
    queue: VecDeque<BusOp>,
    /// What is at risk with the step now with the hardware.
    risk: Risk,
}

impl View for DisplayInterface {
    type V = Channel;

    closed spec fn view(&self) -> Channel {
        Channel { queued: signals(self.queue@), at_risk: self.risk.error() }
    }
}

/// Whatever a transport has been through, the only failures it can hand back
/// are the two that the hardware can cause.
pub proof fn lemma_only_bus_faults(interface: DisplayInterface)
    ensures
        interface@.at_risk matches Some(error) ==> error.on_the_bus(),
{
}

impl DisplayInterface {
    /// A transport with nothing queued.
    pub fn new() -> (interface: Self)
        ensures
            interface@ == Channel::idle(),
    {
        let interface = DisplayInterface { queue: VecDeque::new(), risk: Risk::Nothing };
        assert(signals(interface.queue@) =~= Seq::empty());
        interface
    }

    /// Queues one step behind those already there.
    fn push(&mut self, op: BusOp)
        ensures
            final(self)@ == old(self)@.followed_by(seq![op@]),
    {
        self.queue.push_back(op);
        assert(signals(self.queue@) =~= signals(old(self).queue@) + seq![op@]);
    }

    /// Queues an opcode, sent and drained before anything else happens.
    pub fn cmd(&mut self, command: u8)
        ensures
            final(self)@ == old(self)@.followed_by(command_frame(command)),
    {
        self.cmd_async(command);
        self.flush();
        assert(command_frame_async(command) + seq![Signal::Flush] =~= command_frame(command));
        assert(old(self)@.queued + command_frame_async(command) + seq![Signal::Flush]
            =~= old(self)@.queued + command_frame(command));
    }

    /// Queues data bytes, sent and drained before anything else happens.
    pub fn data(&mut self, data: &[u8])
        ensures
            final(self)@ == old(self)@.followed_by(data_frame(data@)),
    {
        self.data_async(data);
        self.flush();
        assert(data_frame_async(data@) + seq![Signal::Flush] =~= data_frame(data@));
        assert(old(self)@.queued + data_frame_async(data@) + seq![Signal::Flush]
            =~= old(self)@.queued + data_frame(data@));
    }

    /// Queues an opcode without a flush behind it. Before the line changes state
    /// the caller must queue a [`flush`](Self::flush).
    pub fn cmd_async(&mut self, command: u8)
        ensures
            final(self)@ == old(self)@.followed_by(command_frame_async(command)),
    {
        let mut bytes: Vec<u8> = Vec::new();
        bytes.push(command);
        assert(bytes@ =~= seq![command]);
        self.push(BusOp::SetLow(Line::DataCommand));
        self.push(BusOp::Write(bytes));
        assert(old(self)@.queued + seq![Signal::SetLow(Line::DataCommand)] + seq![
            Signal::Write(seq![command]),
        ] =~= old(self)@.queued + command_frame_async(command));
    }

    /// Queues data bytes without a flush behind them. Before the line changes
    /// state the caller must queue a [`flush`](Self::flush).
    pub fn data_async(&mut self, data: &[u8])
        ensures
            final(self)@ == old(self)@.followed_by(data_frame_async(data@)),
    {
        let bytes: Vec<u8> = vstd::slice::slice_to_vec(data);
        self.push(BusOp::SetHigh(Line::DataCommand));
        self.push(BusOp::Write(bytes));
        assert(old(self)@.queued + seq![Signal::SetHigh(Line::DataCommand)] + seq![
            Signal::Write(data@),
        ] =~= old(self)@.queued + data_frame_async(data@));
    }

    /// Queues a wait until everything handed to the bus has left it.
    pub fn flush(&mut self)
        ensures
            final(self)@ == old(self)@.followed_by(seq![Signal::Flush]),
    {
        self.push(BusOp::Flush);
    }

    /// Queues the reset pulse.
    pub fn reset(&mut self)
        ensures
            final(self)@ == old(self)@.followed_by(reset_pulse()),
    {
        self.push(BusOp::SetLow(Line::Reset));
        self.push(BusOp::DelayUs(RESET_DELAY_US));
        self.push(BusOp::SetHigh(Line::Reset));
        self.push(BusOp::DelayMs(WAIT_MS));
        assert(old(self)@.queued + seq![Signal::SetLow(Line::Reset)] + seq![
            Signal::DelayUs(RESET_DELAY_US),
        ] + seq![Signal::SetHigh(Line::Reset)] + seq![Signal::DelayMs(WAIT_MS)] =~= old(
            self,
        )@.queued + reset_pulse());
    }

    /// Queues switching the panel's power on.
    pub fn lcd_on(&mut self)
        ensures
            final(self)@ == old(self)@.followed_by(power_up()),
    {
        self.push(BusOp::SetHigh(Line::Power));
        self.push(BusOp::DelayUs(LCD_ON_DELAY_US));
        assert(old(self)@.queued + seq![Signal::SetHigh(Line::Power)] + seq![
            Signal::DelayUs(LCD_ON_DELAY_US),
        ] =~= old(self)@.queued + power_up());
    }

    /// Queues switching the panel's power off.
    pub fn lcd_off(&mut self)
        ensures
            final(self)@ == old(self)@.followed_by(power_down()),
    {
        self.push(BusOp::SetLow(Line::Power));
        self.push(BusOp::DelayUs(LCD_ON_DELAY_US));
        assert(old(self)@.queued + seq![Signal::SetLow(Line::Power)] + seq![
            Signal::DelayUs(LCD_ON_DELAY_US),
        ] =~= old(self)@.queued + power_down());
    }

    /// Queues a settle delay in milliseconds.
    pub fn wait_ms(&mut self, ms: u32)
        ensures
            final(self)@ == old(self)@.followed_by(seq![Signal::DelayMs(ms)]),
    {
        self.push(BusOp::DelayMs(ms));
    }

    /// Takes the report on the step handed out last and says what to do next.
    ///
    /// A failure of a step that can fail ends the run: the queue is emptied and
    /// the failure comes back, a control-line fault for a line, a bus-write fault
    /// for a write or a flush, and never any other. Otherwise the oldest queued
    /// step is handed out, or, with nothing left, the run ends well.
    pub fn step(&mut self, event: Event) -> (action: Action)
        ensures
            action@ == old(self)@.next_move(event),
            final(self)@ == old(self)@.next(event),
            action@ matches Move::Finish(Err(error)) ==> error.on_the_bus(),
    {
        if let Event::Failed = event {
            let refused = match self.risk {
                Risk::Nothing => None,
                Risk::Line => Some(BusError::ControlLineFault),
                Risk::Bus => Some(BusError::BusWriteFault),
            };
            if let Some(error) = refused {
                self.queue.clear();
                self.risk = Risk::Nothing;
                assert(signals(self.queue@) =~= Seq::empty());
                return Action::Finish(Err(error));
            }
        }
        match self.queue.pop_front() {
            Some(op) => {
                self.risk = Risk::of(&op);
                assert(signals(self.queue@) =~= signals(old(self).queue@).drop_first());
                Action::Perform(op)
            },
            None => {
                self.risk = Risk::Nothing;
                assert(signals(self.queue@) =~= Seq::empty());
                Action::Finish(Ok(()))
            },
        }
    }
}

} // verus!
