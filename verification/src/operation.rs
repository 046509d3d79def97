//! The operations on a display that is ready, as mathematical values.
use vstd::prelude::*;

use crate::exchange::Effect;
use crate::geometry::{Point, Rectangle};
use crate::mode::{BorderWaveform, RefreshMode};
use crate::script::{
    base_framebuffer, black_and_white_framebuffer, border, configuration, cursor, deep_sleep,
    gray_framebuffer, initialisation, update, window,
};

verus! {

/// An operation on a display that is ready, with its arguments.
///
/// Two operations are left out: [crate::driver::Epd4In2V2::send], which can send anything, and
/// [crate::driver::Epd4In2V2::reset], after which the display has forgotten its settings while the
/// driver stays in its refresh mode.
pub enum Operation {
    Init(RefreshMode),
    SleepAndWake,
    SetRefreshMode(RefreshMode),
    SetBorderWaveform(BorderWaveform),
    SetWindow(Rectangle),
    SetCursor(Point),
    UpdateDisplay,
    WriteBaseFramebuffer(Rectangle, Seq<u8>),
    WriteFramebuffer(Rectangle, Seq<u8>),
    DisplayFramebuffer(Rectangle, Seq<u8>),
    WriteGrayFramebuffer(Rectangle, Seq<u8>, Seq<u8>),
    DisplayGrayFramebuffer(Rectangle, Seq<u8>, Seq<u8>),
}

impl Operation {
    /// What the operation does, given the refresh mode and the border of the driver.
    pub open spec fn effects(self, mode: RefreshMode, choice: BorderWaveform) -> Seq<Effect> {
        match self {
            Operation::Init(new_mode) => initialisation(new_mode, choice),
            Operation::SleepAndWake => deep_sleep() + initialisation(mode, choice),
            Operation::SetRefreshMode(new_mode) => if new_mode == mode {
                Seq::empty()
            } else {
                configuration(new_mode, choice)
            },
            Operation::SetBorderWaveform(new_choice) => seq![border(mode, new_choice)],
            Operation::SetWindow(area) => window(area),
            Operation::SetCursor(position) => cursor(position),
            Operation::UpdateDisplay => update(mode),
            Operation::WriteBaseFramebuffer(area, image) => base_framebuffer(area, image),
            Operation::WriteFramebuffer(area, image) => black_and_white_framebuffer(
                mode,
                area,
                image,
            ),
            Operation::DisplayFramebuffer(area, image) => black_and_white_framebuffer(
                mode,
                area,
                image,
            ) + update(mode),
            Operation::WriteGrayFramebuffer(area, low, high) => gray_framebuffer(area, low, high),
            Operation::DisplayGrayFramebuffer(area, low, high) => gray_framebuffer(area, low, high)
                + update(mode),
        }
    }

    /// The refresh mode of the driver after the operation.
    pub open spec fn mode_after(self, mode: RefreshMode) -> RefreshMode {
        match self {
            Operation::Init(new_mode) | Operation::SetRefreshMode(new_mode) => new_mode,
            _ => mode,
        }
    }

    /// The border of the driver after the operation.
    pub open spec fn border_after(self, choice: BorderWaveform) -> BorderWaveform {
        match self {
            Operation::SetBorderWaveform(new_choice) => new_choice,
            _ => choice,
        }
    }
}

} // verus!
