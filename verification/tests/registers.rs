use st7789v_driver::bus::{BusOp, Line};
use st7789v_driver::driver::Lcd;
use st7789v_driver::error::BusError;
use st7789v_driver::graphics::Display2in14;
use st7789v_driver::interface::{Action, Event};
use st7789v_driver::st7789v::{
    CASET, COLMOD, COLS, DISPON, FRAME_SIZE, INVON, MADCTL, MADCTL_DEFAULT, NOP,
    PIXEL_FORMAT_16BIT, RAMWR, RASET, ROWS, SLPOUT, WAIT_MS,
};

/// Carries out everything that is queued, every step going well.
fn carry_out(lcd: &mut Lcd) -> Vec<BusOp> {
    let mut steps = Vec::new();
    let mut event = Event::Idle;
    loop {
        match lcd.step(event) {
            Action::Perform(op) => {
                steps.push(op);
                event = Event::Done;
            }
            Action::Finish(result) => {
                assert_eq!(result, Ok(()));
                return steps;
            }
        }
    }
}

/// A session whose bring-up has been carried out.
fn running() -> Lcd {
    let mut lcd = Lcd::init();
    carry_out(&mut lcd);
    lcd
}

/// The bytes that went out, each write with the state of the data/command line
/// at that time: `false` for an opcode, `true` for data.
fn on_the_wire(steps: &[BusOp]) -> Vec<(bool, Vec<u8>)> {
    let mut is_data = false;
    let mut frames = Vec::new();
    for step in steps {
        match step {
            BusOp::SetLow(Line::DataCommand) => is_data = false,
            BusOp::SetHigh(Line::DataCommand) => is_data = true,
            BusOp::Write(bytes) => frames.push((is_data, bytes.clone())),
            _ => {}
        }
    }
    frames
}

#[test]
fn the_constants_of_the_panel() {
    assert_eq!(COLS, 240);
    assert_eq!(ROWS, 320);
    assert_eq!(WAIT_MS, 120);
    assert_eq!(FRAME_SIZE, 240 * 320 * 2);
    assert_eq!(FRAME_SIZE, 153600);
}

#[test]
fn the_opcodes() {
    assert_eq!(NOP, 0x00);
    assert_eq!(SLPOUT, 0x11);
    assert_eq!(INVON, 0x21);
    assert_eq!(DISPON, 0x29);
    assert_eq!(CASET, 0x2A);
    assert_eq!(RASET, 0x2B);
    assert_eq!(RAMWR, 0x2C);
    assert_eq!(MADCTL, 0x36);
    assert_eq!(COLMOD, 0x3A);
}

#[test]
fn bring_up_runs_in_the_fixed_order() {
    let mut lcd = Lcd::init();
    let steps = carry_out(&mut lcd);
    assert_eq!(
        steps,
        vec![
            BusOp::SetLow(Line::Reset),
            BusOp::DelayUs(12),
            BusOp::SetHigh(Line::Reset),
            BusOp::DelayMs(120),
            BusOp::SetLow(Line::DataCommand),
            BusOp::Write(vec![0x11]),
            BusOp::Flush,
            BusOp::DelayMs(120),
            BusOp::SetLow(Line::DataCommand),
            BusOp::Write(vec![0x3A]),
            BusOp::Flush,
            BusOp::SetHigh(Line::DataCommand),
            BusOp::Write(vec![0x55]),
            BusOp::Flush,
            BusOp::DelayMs(120),
            BusOp::SetLow(Line::DataCommand),
            BusOp::Write(vec![0x21]),
            BusOp::Flush,
            BusOp::DelayMs(120),
            BusOp::SetLow(Line::DataCommand),
            BusOp::Write(vec![0x29]),
            BusOp::Flush,
            BusOp::DelayMs(120),
            BusOp::SetLow(Line::DataCommand),
            BusOp::Write(vec![0x36]),
            BusOp::Flush,
            BusOp::SetHigh(Line::DataCommand),
            BusOp::Write(vec![0x00]),
            BusOp::Flush,
            BusOp::DelayMs(120),
            BusOp::SetHigh(Line::Power),
            BusOp::DelayUs(1),
        ]
    );
}

#[test]
fn bring_up_lets_every_step_settle_before_the_next() {
    let mut lcd = Lcd::init();
    let steps = carry_out(&mut lcd);
    // Where each step of the sequence begins: the reset pulse, the five opcodes,
    // and power on.
    let begins: Vec<usize> = steps
        .iter()
        .enumerate()
        .filter(|(_, step)| {
            matches!(
                step,
                BusOp::SetLow(Line::Reset)
                    | BusOp::SetLow(Line::DataCommand)
                    | BusOp::SetHigh(Line::Power)
            )
        })
        .map(|(at, _)| at)
        .collect();
    assert_eq!(begins.len(), 7);
    for at in &begins[1..] {
        assert_eq!(steps[at - 1], BusOp::DelayMs(WAIT_MS));
    }
    assert_eq!(steps.iter().filter(|step| **step == BusOp::DelayMs(120)).count(), 6);
}

#[test]
fn bring_up_programs_65k_colours_at_16_bits_per_pixel() {
    assert_eq!(PIXEL_FORMAT_16BIT, 0x55);
    assert_eq!(PIXEL_FORMAT_16BIT & 0b0000_0111, 0b101);
    assert_eq!((PIXEL_FORMAT_16BIT >> 4) & 0b0000_0111, 0b101);
    assert_eq!(MADCTL_DEFAULT, 0x00);
    let mut lcd = Lcd::init();
    let frames = on_the_wire(&carry_out(&mut lcd));
    let format = frames.iter().position(|f| *f == (false, vec![0x3A])).unwrap();
    assert_eq!(frames[format + 1], (true, vec![0x55]));
}

#[test]
fn bring_up_sends_these_opcodes_and_parameters() {
    let mut lcd = Lcd::init();
    let steps = carry_out(&mut lcd);
    assert_eq!(
        on_the_wire(&steps),
        vec![
            (false, vec![0x11]),
            (false, vec![0x3A]),
            (true, vec![0x55]),
            (false, vec![0x21]),
            (false, vec![0x29]),
            (false, vec![0x36]),
            (true, vec![0x00]),
        ]
    );
}

#[test]
fn bring_up_stops_where_a_step_is_refused() {
    let mut lcd = Lcd::init();
    assert_eq!(lcd.step(Event::Idle), Action::Perform(BusOp::SetLow(Line::Reset)));
    assert_eq!(lcd.step(Event::Failed), Action::Finish(Err(BusError::ControlLineFault)));
    assert_eq!(lcd.step(Event::Idle), Action::Finish(Ok(())));
}

#[test]
fn after_bring_up_nothing_is_queued() {
    let mut lcd = running();
    assert_eq!(carry_out(&mut lcd), vec![]);
}

#[test]
fn sleep_out_waits_for_the_controller_to_settle() {
    let mut lcd = running();
    lcd.sleep_out();
    assert_eq!(
        carry_out(&mut lcd),
        vec![
            BusOp::SetLow(Line::DataCommand),
            BusOp::Write(vec![0x11]),
            BusOp::Flush,
            BusOp::DelayMs(120),
        ]
    );
}

#[test]
fn inversion_on_waits_for_the_controller_to_settle() {
    let mut lcd = running();
    lcd.display_inversion_on();
    assert_eq!(
        carry_out(&mut lcd),
        vec![
            BusOp::SetLow(Line::DataCommand),
            BusOp::Write(vec![0x21]),
            BusOp::Flush,
            BusOp::DelayMs(120),
        ]
    );
}

#[test]
fn display_on_waits_for_the_controller_to_settle() {
    let mut lcd = running();
    lcd.display_on();
    assert_eq!(
        carry_out(&mut lcd),
        vec![
            BusOp::SetLow(Line::DataCommand),
            BusOp::Write(vec![0x29]),
            BusOp::Flush,
            BusOp::DelayMs(120),
        ]
    );
}

#[test]
fn memory_access_control_passes_any_byte_on() {
    let mut lcd = running();
    lcd.mem_data_ac(0b1010_1100);
    lcd.mem_data_ac(0xFF);
    assert_eq!(
        on_the_wire(&carry_out(&mut lcd)),
        vec![(false, vec![0x36]), (true, vec![0xAC]), (false, vec![0x36]), (true, vec![0xFF])]
    );
}

#[test]
fn pixel_format_passes_any_byte_on() {
    let mut lcd = running();
    lcd.set_pixel_format(0b0110_0110);
    lcd.set_pixel_format(0x00);
    assert_eq!(
        on_the_wire(&carry_out(&mut lcd)),
        vec![(false, vec![0x3A]), (true, vec![0x66]), (false, vec![0x3A]), (true, vec![0x00])]
    );
}

#[test]
fn a_register_write_on_its_own_queues_no_wait() {
    let mut lcd = running();
    lcd.set_pixel_format(0x55);
    assert_eq!(
        carry_out(&mut lcd),
        vec![
            BusOp::SetLow(Line::DataCommand),
            BusOp::Write(vec![0x3A]),
            BusOp::Flush,
            BusOp::SetHigh(Line::DataCommand),
            BusOp::Write(vec![0x55]),
            BusOp::Flush,
        ]
    );
    lcd.mem_data_ac(0x00);
    assert_eq!(
        carry_out(&mut lcd),
        vec![
            BusOp::SetLow(Line::DataCommand),
            BusOp::Write(vec![0x36]),
            BusOp::Flush,
            BusOp::SetHigh(Line::DataCommand),
            BusOp::Write(vec![0x00]),
            BusOp::Flush,
        ]
    );
}

#[test]
fn a_window_is_columns_then_rows_each_big_endian() {
    let mut lcd = running();
    lcd.set_frame_area(10, 20, 10, 20);
    assert_eq!(
        carry_out(&mut lcd),
        vec![
            BusOp::SetLow(Line::DataCommand),
            BusOp::Write(vec![0x2A]),
            BusOp::Flush,
            BusOp::SetHigh(Line::DataCommand),
            BusOp::Write(vec![0x00, 0x0A, 0x00, 0x0A]),
            BusOp::Flush,
            BusOp::SetLow(Line::DataCommand),
            BusOp::Write(vec![0x2B]),
            BusOp::Flush,
            BusOp::SetHigh(Line::DataCommand),
            BusOp::Write(vec![0x00, 0x14, 0x00, 0x14]),
            BusOp::Flush,
        ]
    );
}

#[test]
fn a_window_keeps_start_and_end_apart() {
    let mut lcd = running();
    lcd.set_frame_area(0x0102, 0x0304, 0x0506, 0x0708);
    assert_eq!(
        on_the_wire(&carry_out(&mut lcd)),
        vec![
            (false, vec![0x2A]),
            (true, vec![0x01, 0x02, 0x05, 0x06]),
            (false, vec![0x2B]),
            (true, vec![0x03, 0x04, 0x07, 0x08]),
        ]
    );
}

#[test]
fn a_window_is_not_checked_against_the_panel() {
    let mut lcd = running();
    lcd.set_frame_area(0xFFFF, 400, 3, 0);
    assert_eq!(
        on_the_wire(&carry_out(&mut lcd)),
        vec![
            (false, vec![0x2A]),
            (true, vec![0xFF, 0xFF, 0x00, 0x03]),
            (false, vec![0x2B]),
            (true, vec![0x01, 0x90, 0x00, 0x00]),
        ]
    );
}

#[test]
fn one_red_pixel_at_10_20() {
    let mut lcd = running();
    lcd.set_pixel(10, 20, 0xF800);
    assert_eq!(
        on_the_wire(&carry_out(&mut lcd)),
        vec![
            (false, vec![0x2A]),
            (true, vec![0x00, 0x0A, 0x00, 0x0A]),
            (false, vec![0x2B]),
            (true, vec![0x00, 0x14, 0x00, 0x14]),
            (false, vec![0x2C]),
            (true, vec![0xF8, 0x00]),
        ]
    );
}

#[test]
fn a_pixel_write_flushes_after_every_frame() {
    let mut lcd = running();
    lcd.set_pixel(1, 2, 0x1234);
    let steps = carry_out(&mut lcd);
    assert_eq!(steps.len(), 18);
    for frame in steps.chunks(3) {
        assert!(matches!(frame[0], BusOp::SetLow(Line::DataCommand) | BusOp::SetHigh(Line::DataCommand)));
        assert!(matches!(frame[1], BusOp::Write(_)));
        assert_eq!(frame[2], BusOp::Flush);
    }
}

#[test]
fn a_frame_goes_out_as_one_transmission_behind_the_full_window() {
    let mut lcd = running();
    let display = Display2in14::new(0x07E0);
    lcd.clear_frame(&display);
    let frames = on_the_wire(&carry_out(&mut lcd));
    assert_eq!(frames.len(), 6);
    assert_eq!(frames[0], (false, vec![0x2A]));
    assert_eq!(frames[1], (true, vec![0x00, 0x00, 0x00, 0xEF]));
    assert_eq!(frames[2], (false, vec![0x2B]));
    assert_eq!(frames[3], (true, vec![0x00, 0x00, 0x01, 0x3F]));
    assert_eq!(frames[4], (false, vec![0x2C]));
    assert!(frames[5].0);
    assert_eq!(frames[5].1.len(), 153600);
    assert_eq!(frames[5].1, display.buffer().to_vec());
}

#[test]
fn a_frame_transfer_names_each_opcode_once() {
    let mut lcd = running();
    let display = Display2in14::new(0);
    lcd.clear_frame(&display);
    let frames = on_the_wire(&carry_out(&mut lcd));
    let opcodes: Vec<u8> = frames.iter().filter(|f| !f.0).map(|f| f.1[0]).collect();
    assert_eq!(opcodes, vec![0x2A, 0x2B, 0x2C]);
    assert_eq!(frames.iter().filter(|f| f.0 && f.1.len() == 153600).count(), 1);
}

#[test]
fn a_frame_transfer_carries_what_was_drawn() {
    let mut lcd = running();
    let mut display = Display2in14::new(0);
    assert_eq!(display.set_pixel(3, 1, 0xABCD), Ok(()));
    lcd.clear_frame(&display);
    let frames = on_the_wire(&carry_out(&mut lcd));
    let sent = &frames[5].1;
    assert_eq!(sent[(240 + 3) * 2], 0xAB);
    assert_eq!(sent[(240 + 3) * 2 + 1], 0xCD);
    assert_eq!(sent.iter().filter(|b| **b != 0).count(), 2);
}

#[test]
fn a_frame_transfer_that_fails_in_the_payload_is_a_bus_write_fault() {
    let mut lcd = running();
    let display = Display2in14::new(0);
    lcd.clear_frame(&display);
    let mut event = Event::Idle;
    let mut sent = 0;
    let result = loop {
        match lcd.step(event) {
            Action::Perform(BusOp::Write(bytes)) if bytes.len() == 153600 => {
                sent += 1;
                event = Event::Failed;
            }
            Action::Perform(_) => {
                sent += 1;
                event = Event::Done;
            }
            Action::Finish(result) => break result,
        }
    };
    assert_eq!(sent, 17);
    assert_eq!(result, Err(BusError::BusWriteFault));
}

#[test]
fn power_can_be_switched_without_touching_the_controller() {
    let mut lcd = running();
    lcd.power_off();
    lcd.power_on();
    assert_eq!(
        carry_out(&mut lcd),
        vec![
            BusOp::SetLow(Line::Power),
            BusOp::DelayUs(1),
            BusOp::SetHigh(Line::Power),
            BusOp::DelayUs(1),
        ]
    );
}
