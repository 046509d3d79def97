//! A driver for v2 of the 4.2" Waveshare e-paper display.
//!
//! The driver decides what to send to the display and when; it leaves the sending to its caller.
//! [Epd4In2V2] turns each operation into a [exchange::Step], which names the actions to perform on
//! the display's pins and on its SPI bus one by one.
use vstd::prelude::*;

pub mod buffer;
pub mod call_laws;
pub mod command;
pub mod driver;
pub mod exchange;
pub mod geometry;
pub mod laws;
pub mod mode;
pub mod operation;
pub mod operation_laws;
pub mod script;

pub use crate::buffer::{
    new_binary_buffer, new_gray2_buffer, BufferView, Epd4In2BinaryBuffer, Epd4In2Gray2Buffer,
    BINARY_BUFFER_LENGTH,
};
pub use crate::command::Command;
pub use crate::driver::{
    DisplaySimple, Epd4In2V2, State, StateAsleep, StateAwake, StateReady, StateUninitialized,
};
pub use crate::exchange::{Action, Payload, PinState, Step, Waiting};
pub use crate::geometry::{Point, Rectangle, Size, DISPLAY_HEIGHT, DISPLAY_WIDTH};
pub use crate::mode::{BorderWaveform, RefreshMode};

verus! {

/// The edge of the SPI clock on which data is captured.
#[derive(Debug, Clone, Copy, PartialEq, Eq, Structural)]
pub enum Phase {
    CaptureOnFirstTransition,
    CaptureOnSecondTransition,
}

/// The level of the SPI clock while it is idle.
#[derive(Debug, Clone, Copy, PartialEq, Eq, Structural)]
pub enum Polarity {
    IdleLow,
    IdleHigh,
}

/// It's recommended to avoid doing a full refresh more often than this (at least on a regular
/// basis).
pub const RECOMMENDED_MIN_FULL_REFRESH_INTERVAL_SECS: u64 = 180;

/// It's recommended to do a full refresh at least this often.
pub const RECOMMENDED_MAX_FULL_REFRESH_INTERVAL_SECS: u64 = 24 * 60 * 60;

/// The recommended frequency of the SPI clock, 4 MHz.
pub const RECOMMENDED_SPI_HZ: u32 = 4_000_000;

/// Use this phase in conjunction with [RECOMMENDED_SPI_POLARITY] so that the EPD can capture data
/// on the rising edge.
pub const RECOMMENDED_SPI_PHASE: Phase = Phase::CaptureOnFirstTransition;

/// Use this polarity in conjunction with [RECOMMENDED_SPI_PHASE] so that the EPD can capture data
/// on the rising edge.
pub const RECOMMENDED_SPI_POLARITY: Polarity = Polarity::IdleLow;

/// The default pin state that indicates the display is busy.
pub const DEFAULT_BUSY_WHEN: PinState = PinState::High;

} // verus!
