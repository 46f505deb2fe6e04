//! Driver core for the ST7789V LCD controller on a 240x320 panel.
//!
//! The crate holds everything the driver decides: how bytes are framed as
//! command or data, which parameter bytes each register takes, the order of the
//! bring-up sequence, and how pixels are laid out in the frame buffer. It never
//! touches hardware itself. Each operation queues the steps it wants carried out
//! on the bus, and the embedding program carries them out one at a time through
//! [`interface::DisplayInterface::step`], reporting back whether each went well.

pub mod bus;
pub mod driver;
pub mod error;
pub mod graphics;
pub mod interface;
pub mod st7789v;
pub mod wire;
