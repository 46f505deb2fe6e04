//! The controller's registers and the life of a device session: bring-up,
//! addressing windows, single pixels and whole frames.
//!
//! Every write to the controller's memory is preceded by the window it goes to:
//! a column range and a row range, each as two big-endian 16-bit values. The
//! protocol checks no bounds; keeping a window on the panel is the caller's
//! part.

use vstd::prelude::*;
use crate::bus::{
    command_frame, data_frame, lemma_blocking_frames_drain, lemma_drained_joined, power_down,
    power_up, reset_pulse, BusState, Line, Signal,
};
use crate::graphics::Display2in14;
use crate::interface::{Action, Channel, DisplayInterface, Event, Move};
use crate::st7789v::{
    CASET, COLMOD, COLS, DISPON, FRAME_SIZE, INVON, MADCTL, MADCTL_DEFAULT, NOP,
    PIXEL_FORMAT_16BIT, RAMWR, RASET, ROWS, SLPOUT, WAIT_MS,
};
use crate::wire::{high, high_byte, low, low_byte};

verus! {

/// The settle delay that gives the controller time to take a step in.
pub open spec fn settle_delay() -> Seq<Signal> {
    seq![Signal::DelayMs(WAIT_MS)]
}

/// An opcode without parameters, and the settle delay behind it.
pub open spec fn settled_command(opcode: u8) -> Seq<Signal> {
    command_frame(opcode) + settle_delay()
}

/// An opcode and its single parameter byte.
pub open spec fn register_write(opcode: u8, param: u8) -> Seq<Signal> {
    command_frame(opcode) + data_frame(seq![param])
}

/// The four parameter bytes of an address range: start and end, each high
/// byte first.
pub open spec fn span(start: u16, end: u16) -> Seq<u8> {
    seq![high_byte(start), low_byte(start), high_byte(end), low_byte(end)]
}

/// The window from (`start_x`, `start_y`) to (`end_x`, `end_y`): column address
/// set with the column range, then row address set with the row range.
pub open spec fn window(start_x: u16, start_y: u16, end_x: u16, end_y: u16) -> Seq<Signal> {
    command_frame(CASET) + data_frame(span(start_x, end_x)) + command_frame(RASET) + data_frame(
        span(start_y, end_y),
    )
}

/// One pixel written to the controller: a window of that pixel alone, memory
/// write, and the colour's two bytes.
pub open spec fn pixel_write(x: u16, y: u16, color: u16) -> Seq<Signal> {
    window(x, y, x, y) + command_frame(RAMWR) + data_frame(
        seq![high_byte(color), low_byte(color)],
    )
}

/// A whole frame written to the controller: the window of the full panel,
/// memory write, and all bytes in one data transmission.
pub open spec fn frame_write(bytes: Seq<u8>) -> Seq<Signal> {
    window(0, 0, (COLS - 1) as u16, (ROWS - 1) as u16) + command_frame(RAMWR) + data_frame(bytes)
}

/// The bring-up sequence: reset pulse, sleep out, pixel format, inversion on,
/// display on, memory access order, power on. Every step but the last is
/// followed by the settle delay before the next one begins.
pub open spec fn bring_up() -> Seq<Signal> {
    reset_pulse() + settled_command(SLPOUT) + register_write(COLMOD, PIXEL_FORMAT_16BIT)
        + settle_delay() + settled_command(INVON) + settled_command(DISPON) + register_write(
        MADCTL,
        MADCTL_DEFAULT,
    ) + settle_delay() + power_up()
}

/// How many bytes the controller takes for a window: two for each pixel of the
/// rectangle, both ends counted in.
pub open spec fn window_bytes(start_x: u16, start_y: u16, end_x: u16, end_y: u16) -> int {
    (end_x - start_x + 1) * (end_y - start_y + 1) * 2
}

/// Every write to the controller's memory stands behind a window that it fills
/// exactly: the two bytes of a pixel behind the window of that pixel alone, the
/// bytes of a frame behind the window of the whole panel.
pub proof fn lemma_writes_fill_their_windows(x: u16, y: u16, color: u16, bytes: Seq<u8>)
    requires
        bytes.len() == FRAME_SIZE,
    ensures
        pixel_write(x, y, color) == window(x, y, x, y) + command_frame(RAMWR) + data_frame(
            seq![high_byte(color), low_byte(color)],
        ),
        window_bytes(x, y, x, y) == seq![high_byte(color), low_byte(color)].len(),
        frame_write(bytes) == window(0, 0, 239, 319) + command_frame(RAMWR) + data_frame(bytes),
        window_bytes(0, 0, 239, 319) == bytes.len(),
{
    assert((x - x + 1) * (y - y + 1) * 2 == 2) by (nonlinear_arith);
    assert((239 - 0 + 1) * (319 - 0 + 1) * 2 == 153600) by (nonlinear_arith);
}

/// A frame transfer is exactly this, in this order: one column address set with
/// columns 0 to 239, one row address set with rows 0 to 319, one memory write,
/// and the frame's bytes as a single data transmission.
pub proof fn lemma_frame_write_steps(bytes: Seq<u8>)
    ensures
        frame_write(bytes) == seq![
            Signal::SetLow(Line::DataCommand),
            Signal::Write(seq![0x2Au8]),
            Signal::Flush,
            Signal::SetHigh(Line::DataCommand),
            Signal::Write(seq![0u8, 0u8, 0u8, 239u8]),
            Signal::Flush,
            Signal::SetLow(Line::DataCommand),
            Signal::Write(seq![0x2Bu8]),
            Signal::Flush,
            Signal::SetHigh(Line::DataCommand),
            Signal::Write(seq![0u8, 0u8, 1u8, 63u8]),
            Signal::Flush,
            Signal::SetLow(Line::DataCommand),
            Signal::Write(seq![0x2Cu8]),
            Signal::Flush,
            Signal::SetHigh(Line::DataCommand),
            Signal::Write(bytes),
            Signal::Flush,
        ],
{
    assert(span(0, 239) =~= seq![0u8, 0u8, 0u8, 239u8]) by {
        assert(high_byte(0) == 0 && low_byte(0) == 0 && high_byte(239) == 0 && low_byte(239)
            == 239) by (bit_vector);
    }
    assert(span(0, 319) =~= seq![0u8, 0u8, 1u8, 63u8]) by {
        assert(high_byte(0) == 0 && low_byte(0) == 0 && high_byte(319) == 1 && low_byte(319)
            == 63) by (bit_vector);
    }
    assert(frame_write(bytes) =~= seq![
        Signal::SetLow(Line::DataCommand),
        Signal::Write(seq![0x2Au8]),
        Signal::Flush,
        Signal::SetHigh(Line::DataCommand),
        Signal::Write(seq![0u8, 0u8, 0u8, 239u8]),
        Signal::Flush,
        Signal::SetLow(Line::DataCommand),
        Signal::Write(seq![0x2Bu8]),
        Signal::Flush,
        Signal::SetHigh(Line::DataCommand),
        Signal::Write(seq![0u8, 0u8, 1u8, 63u8]),
        Signal::Flush,
        Signal::SetLow(Line::DataCommand),
        Signal::Write(seq![0x2Cu8]),
        Signal::Flush,
        Signal::SetHigh(Line::DataCommand),
        Signal::Write(bytes),
        Signal::Flush,
    ]);
}

/// The bring-up sequence is exactly this, in this order: the reset pulse with
/// its hold; sleep out; the pixel format with its parameter, 65K colours at 16
/// bits per pixel; inversion on; display on; the memory access order with its
/// parameter; power on. Behind each of them but the last stands the settle
/// delay of 120 ms, so that no step begins before the one before it has
/// settled; behind power on stands its own short delay.
pub proof fn lemma_bring_up_steps()
    ensures
        bring_up() == seq![
            Signal::SetLow(Line::Reset),
            Signal::DelayUs(12),
            Signal::SetHigh(Line::Reset),
            Signal::DelayMs(120),
            Signal::SetLow(Line::DataCommand),
            Signal::Write(seq![0x11u8]),
            Signal::Flush,
            Signal::DelayMs(120),
            Signal::SetLow(Line::DataCommand),
            Signal::Write(seq![0x3Au8]),
            Signal::Flush,
            Signal::SetHigh(Line::DataCommand),
            Signal::Write(seq![0x55u8]),
            Signal::Flush,
            Signal::DelayMs(120),
            Signal::SetLow(Line::DataCommand),
            Signal::Write(seq![0x21u8]),
            Signal::Flush,
            Signal::DelayMs(120),
            Signal::SetLow(Line::DataCommand),
            Signal::Write(seq![0x29u8]),
            Signal::Flush,
            Signal::DelayMs(120),
            Signal::SetLow(Line::DataCommand),
            Signal::Write(seq![0x36u8]),
            Signal::Flush,
            Signal::SetHigh(Line::DataCommand),
            Signal::Write(seq![0x00u8]),
            Signal::Flush,
            Signal::DelayMs(120),
            Signal::SetHigh(Line::Power),
            Signal::DelayUs(1),
        ],
{
    assert(bring_up() =~= seq![
        Signal::SetLow(Line::Reset),
        Signal::DelayUs(12),
        Signal::SetHigh(Line::Reset),
        Signal::DelayMs(120),
        Signal::SetLow(Line::DataCommand),
        Signal::Write(seq![0x11u8]),
        Signal::Flush,
        Signal::DelayMs(120),
        Signal::SetLow(Line::DataCommand),
        Signal::Write(seq![0x3Au8]),
        Signal::Flush,
        Signal::SetHigh(Line::DataCommand),
        Signal::Write(seq![0x55u8]),
        Signal::Flush,
        Signal::DelayMs(120),
        Signal::SetLow(Line::DataCommand),
        Signal::Write(seq![0x21u8]),
        Signal::Flush,
        Signal::DelayMs(120),
        Signal::SetLow(Line::DataCommand),
        Signal::Write(seq![0x29u8]),
        Signal::Flush,
        Signal::DelayMs(120),
        Signal::SetLow(Line::DataCommand),
        Signal::Write(seq![0x36u8]),
        Signal::Flush,
        Signal::SetHigh(Line::DataCommand),
        Signal::Write(seq![0x00u8]),
        Signal::Flush,
        Signal::DelayMs(120),
        Signal::SetHigh(Line::Power),
        Signal::DelayUs(1),
    ]);
}

/// A settle delay leaves the bus as it is.
pub proof fn lemma_settle_delay_keeps_order(state: BusState)
    ensures
        state.after_all(settle_delay()) == Some(state),
{
    reveal_with_fuel(BusState::after_all, 2);
}

/// An opcode with its settle delay, and an opcode with its parameter, keep the
/// order on the bus and leave nothing in flight.
pub proof fn lemma_registers_keep_order(state: BusState, opcode: u8, param: u8)
    requires
        !state.in_flight,
    ensures
        state.after_all(settled_command(opcode)) == Some(BusState::after_command()),
        state.after_all(register_write(opcode, param)) == Some(BusState::after_data()),
{
    lemma_blocking_frames_drain(state, opcode, seq![param]);
    lemma_blocking_frames_drain(BusState::after_command(), opcode, seq![param]);
    lemma_settle_delay_keeps_order(BusState::after_command());
    lemma_drained_joined(state, command_frame(opcode), settle_delay());
    lemma_drained_joined(state, command_frame(opcode), data_frame(seq![param]));
}

/// A window keeps the order on the bus and leaves nothing in flight.
pub proof fn lemma_window_keeps_order(
    state: BusState,
    start_x: u16,
    start_y: u16,
    end_x: u16,
    end_y: u16,
)
    requires
        !state.in_flight,
    ensures
        state.after_all(window(start_x, start_y, end_x, end_y)) == Some(BusState::after_data()),
{
    let columns = span(start_x, end_x);
    let rows = span(start_y, end_y);
    lemma_blocking_frames_drain(state, CASET, columns);
    lemma_blocking_frames_drain(BusState::after_command(), CASET, columns);
    lemma_blocking_frames_drain(BusState::after_data(), RASET, rows);
    lemma_blocking_frames_drain(BusState::after_command(), RASET, rows);
    lemma_drained_joined(state, command_frame(CASET), data_frame(columns));
    lemma_drained_joined(state, command_frame(CASET) + data_frame(columns), command_frame(RASET));
    lemma_drained_joined(
        state,
        command_frame(CASET) + data_frame(columns) + command_frame(RASET),
        data_frame(rows),
    );
}

/// A pixel write and a frame transfer keep the order on the bus and leave
/// nothing in flight: none of their bytes can be taken for the wrong kind.
pub proof fn lemma_writes_keep_order(state: BusState, x: u16, y: u16, color: u16, bytes: Seq<u8>)
    requires
        !state.in_flight,
    ensures
        state.after_all(pixel_write(x, y, color)) == Some(BusState::after_data()),
        state.after_all(frame_write(bytes)) == Some(BusState::after_data()),
{
    let pixel = seq![high_byte(color), low_byte(color)];
    let full = window(0, 0, (COLS - 1) as u16, (ROWS - 1) as u16);
    lemma_window_keeps_order(state, x, y, x, y);
    lemma_window_keeps_order(state, 0, 0, (COLS - 1) as u16, (ROWS - 1) as u16);
    lemma_blocking_frames_drain(BusState::after_data(), RAMWR, pixel);
    lemma_blocking_frames_drain(BusState::after_command(), RAMWR, pixel);
    lemma_blocking_frames_drain(BusState::after_command(), RAMWR, bytes);
    lemma_drained_joined(state, window(x, y, x, y), command_frame(RAMWR));
    lemma_drained_joined(state, window(x, y, x, y) + command_frame(RAMWR), data_frame(pixel));
    lemma_drained_joined(state, full, command_frame(RAMWR));
    lemma_drained_joined(state, full + command_frame(RAMWR), data_frame(bytes));
}

/// The bring-up sequence keeps the order on the bus and leaves nothing in
/// flight.
pub proof fn lemma_bring_up_keeps_order(state: BusState)
    requires
        !state.in_flight,
    ensures
        state.after_all(bring_up()) == Some(BusState::after_data()),
{
    let a = reset_pulse();
    let b = a + settled_command(SLPOUT);
    let c = b + register_write(COLMOD, PIXEL_FORMAT_16BIT);
    let d = c + settle_delay();
    let e = d + settled_command(INVON);
    let f = e + settled_command(DISPON);
    let g = f + register_write(MADCTL, MADCTL_DEFAULT);
    let h = g + settle_delay();
    lemma_blocking_frames_drain(state, NOP, Seq::empty());
    lemma_registers_keep_order(state, SLPOUT, 0);
    lemma_drained_joined(state, a, settled_command(SLPOUT));
    lemma_registers_keep_order(BusState::after_command(), COLMOD, PIXEL_FORMAT_16BIT);
    lemma_drained_joined(state, b, register_write(COLMOD, PIXEL_FORMAT_16BIT));
    lemma_settle_delay_keeps_order(BusState::after_data());
    lemma_drained_joined(state, c, settle_delay());
    lemma_registers_keep_order(BusState::after_data(), INVON, 0);
    lemma_drained_joined(state, d, settled_command(INVON));
    lemma_registers_keep_order(BusState::after_command(), DISPON, 0);
    lemma_drained_joined(state, e, settled_command(DISPON));
    lemma_registers_keep_order(BusState::after_command(), MADCTL, MADCTL_DEFAULT);
    lemma_drained_joined(state, f, register_write(MADCTL, MADCTL_DEFAULT));
    lemma_drained_joined(state, g, settle_delay());
    lemma_blocking_frames_drain(BusState::after_data(), NOP, Seq::empty());
    lemma_drained_joined(state, h, power_up());
}

/// The controller, driven through a transport.
pub struct Lcd {
    interface: DisplayInterface,
}

impl View for Lcd {
    type V = Channel;

    closed spec fn view(&self) -> Channel {
        self.interface@
    }
}

impl Lcd {
    /// A session with the whole bring-up sequence queued, each step with the
    /// settle delay behind it. Once the steps have been carried out the
    /// controller is awake, powered and displaying.
    pub fn init() -> (lcd: Self)
        ensures
            lcd@ == Channel::idle().followed_by(bring_up()),
    {
        let mut lcd = Lcd { interface: DisplayInterface::new() };
        lcd.interface.reset();
        lcd.sleep_out();
        lcd.set_pixel_format(PIXEL_FORMAT_16BIT);
        lcd.interface.wait_ms(WAIT_MS);
        lcd.display_inversion_on();
        lcd.display_on();
        lcd.mem_data_ac(MADCTL_DEFAULT);
        lcd.interface.wait_ms(WAIT_MS);
        lcd.interface.lcd_on();
        assert(lcd@.queued =~= bring_up());
        lcd
    }

    /// Queues an opcode without parameters and the settle delay behind it.
    fn settled(&mut self, opcode: u8)
        ensures
            final(self)@ == old(self)@.followed_by(settled_command(opcode)),
    {
        self.interface.cmd(opcode);
        self.interface.wait_ms(WAIT_MS);
        assert(final(self)@.queued =~= old(self)@.queued + settled_command(opcode));
    }

    /// Queues an opcode and its single parameter byte.
    fn register(&mut self, opcode: u8, param: u8)
        ensures
            final(self)@ == old(self)@.followed_by(register_write(opcode, param)),
    {
        self.interface.cmd(opcode);
        let params: [u8; 1] = [param];
        assert(params@ =~= seq![param]);
        self.interface.data(params.as_slice());
        assert(final(self)@.queued =~= old(self)@.queued + register_write(opcode, param));
    }

    /// Queues leaving sleep mode, and the settle delay.
    pub fn sleep_out(&mut self)
        ensures
            final(self)@ == old(self)@.followed_by(settled_command(SLPOUT)),
    {
        self.settled(SLPOUT);
    }

    /// Queues switching display inversion on, and the settle delay.
    pub fn display_inversion_on(&mut self)
        ensures
            final(self)@ == old(self)@.followed_by(settled_command(INVON)),
    {
        self.settled(INVON);
    }

    /// Queues switching the display on, and the settle delay.
    pub fn display_on(&mut self)
        ensures
            final(self)@ == old(self)@.followed_by(settled_command(DISPON)),
    {
        self.settled(DISPON);
    }

    /// Queues a write of the memory data access control register.
    ///
    /// The bits of `param`, from the top: page address order (bottom to top if
    /// set), column address order (right to left if set), page/column swap, line
    /// refresh order, BGR in place of RGB, data latch order. Any value is passed
    /// on as it is. No settle delay is queued behind the write.
    pub fn mem_data_ac(&mut self, param: u8)
        ensures
            final(self)@ == old(self)@.followed_by(register_write(MADCTL, param)),
    {
        self.register(MADCTL, param);
    }

    /// Queues a write of the interface pixel format register.
    ///
    /// The high nibble of `param` selects the colour depth of the RGB interface,
    /// the low nibble that of the control interface. Any value is passed on as it
    /// is. No settle delay is queued behind the write.
    pub fn set_pixel_format(&mut self, param: u8)
        ensures
            final(self)@ == old(self)@.followed_by(register_write(COLMOD, param)),
    {
        self.register(COLMOD, param);
    }

    /// Queues the window from (`start_x`, `start_y`) to (`end_x`, `end_y`) for
    /// the next memory write. No bounds are checked.
    pub fn set_frame_area(&mut self, start_x: u16, start_y: u16, end_x: u16, end_y: u16)
        ensures
            final(self)@ == old(self)@.followed_by(window(start_x, start_y, end_x, end_y)),
    {
        self.interface.cmd(CASET);
        let columns: [u8; 4] = [high(start_x), low(start_x), high(end_x), low(end_x)];
        assert(columns@ =~= span(start_x, end_x));
        self.interface.data(columns.as_slice());
        self.interface.cmd(RASET);
        let rows: [u8; 4] = [high(start_y), low(start_y), high(end_y), low(end_y)];
        assert(rows@ =~= span(start_y, end_y));
        self.interface.data(rows.as_slice());
        assert(final(self)@.queued =~= old(self)@.queued + window(
            start_x,
            start_y,
            end_x,
            end_y,
        ));
    }

    /// Queues the write of one pixel straight to the controller.
    pub fn set_pixel(&mut self, x: u16, y: u16, color: u16)
        ensures
            final(self)@ == old(self)@.followed_by(pixel_write(x, y, color)),
    {
        self.set_frame_area(x, y, x, y);
        self.interface.cmd(RAMWR);
        let bytes: [u8; 2] = [high(color), low(color)];
        assert(bytes@ =~= seq![high_byte(color), low_byte(color)]);
        self.interface.data(bytes.as_slice());
        assert(final(self)@.queued =~= old(self)@.queued + pixel_write(x, y, color));
    }

    /// Queues the transfer of a whole frame: the window of the full panel, memory
    /// write, and the buffer's bytes as one data transmission.
    pub fn clear_frame(&mut self, display: &Display2in14)
        ensures
            final(self)@ == old(self)@.followed_by(frame_write(display@.bytes)),
            display@.bytes.len() == FRAME_SIZE,
    {
        self.set_frame_area(0, 0, COLS - 1, ROWS - 1);
        self.interface.cmd(RAMWR);
        self.interface.data(display.buffer());
        assert(final(self)@.queued =~= old(self)@.queued + frame_write(display@.bytes));
    }

    /// Queues switching the panel's power on, and its settle delay. The
    /// controller's own state is not touched.
    pub fn power_on(&mut self)
        ensures
            final(self)@ == old(self)@.followed_by(power_up()),
    {
        self.interface.lcd_on();
    }

    /// Queues switching the panel's power off, and its settle delay. The
    /// controller's own state is not touched.
    pub fn power_off(&mut self)
        ensures
            final(self)@ == old(self)@.followed_by(power_down()),
    {
        self.interface.lcd_off();
    }

    /// Takes the report on the step handed out last and says what to do next,
    /// as [`DisplayInterface::step`] does.
    pub fn step(&mut self, event: Event) -> (action: Action)
        ensures
            action@ == old(self)@.next_move(event),
            final(self)@ == old(self)@.next(event),
            action@ matches Move::Finish(Err(error)) ==> error.on_the_bus(),
    {
        self.interface.step(event)
    }
}

} // verus!
