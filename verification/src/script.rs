//! What the operations of the display send, and the scripts that send it.
use vstd::prelude::*;

use crate::command::Command;
use crate::exchange::{Action, Effect, PinState, Script};
use crate::geometry::{
    column_byte, encode_column, encode_row, last_coordinate, row_bytes, Point, Rectangle,
};
use crate::mode::{BorderWaveform, RefreshMode};

verus! {

/// The Gray2 waveform, followed by the settings that belong to it.
pub const LUT_GRAY2: [u8; 233] = [
    0x01, 0x0A, 0x1B, 0x0F, 0x03, 0x01, 0x01, 0x05, 0x0A, 0x01, 0x0A, 0x01, 0x01, 0x01, 0x05, 0x08,
    0x03, 0x02, 0x04, 0x01, 0x01, 0x01, 0x04, 0x04, 0x02, 0x00, 0x01, 0x01, 0x01, 0x00, 0x00, 0x00,
    0x00, 0x01, 0x01, 0x01, 0x00, 0x00, 0x00, 0x00, 0x01, 0x01, 0x01, 0x0A, 0x1B, 0x0F, 0x03, 0x01,
    0x01, 0x05, 0x4A, 0x01, 0x8A, 0x01, 0x01, 0x01, 0x05, 0x48, 0x03, 0x82, 0x84, 0x01, 0x01, 0x01,
    0x84, 0x84, 0x82, 0x00, 0x01, 0x01, 0x01, 0x00, 0x00, 0x00, 0x00, 0x01, 0x01, 0x01, 0x00, 0x00,
    0x00, 0x00, 0x01, 0x01, 0x01, 0x0A, 0x1B, 0x8F, 0x03, 0x01, 0x01, 0x05, 0x4A, 0x01, 0x8A, 0x01,
    0x01, 0x01, 0x05, 0x48, 0x83, 0x82, 0x04, 0x01, 0x01, 0x01, 0x04, 0x04, 0x02, 0x00, 0x01, 0x01,
    0x01, 0x00, 0x00, 0x00, 0x00, 0x01, 0x01, 0x01, 0x00, 0x00, 0x00, 0x00, 0x01, 0x01, 0x01, 0x8A,
    0x1B, 0x8F, 0x03, 0x01, 0x01, 0x05, 0x4A, 0x01, 0x8A, 0x01, 0x01, 0x01, 0x05, 0x48, 0x83, 0x02,
    0x04, 0x01, 0x01, 0x01, 0x04, 0x04, 0x02, 0x00, 0x01, 0x01, 0x01, 0x00, 0x00, 0x00, 0x00, 0x01,
    0x01, 0x01, 0x00, 0x00, 0x00, 0x00, 0x01, 0x01, 0x01, 0x8A, 0x9B, 0x8F, 0x03, 0x01, 0x01, 0x05,
    0x4A, 0x01, 0x8A, 0x01, 0x01, 0x01, 0x05, 0x48, 0x03, 0x42, 0x04, 0x01, 0x01, 0x01, 0x04, 0x04,
    0x42, 0x00, 0x01, 0x01, 0x01, 0x00, 0x00, 0x00, 0x00, 0x01, 0x01, 0x01, 0x00, 0x00, 0x00, 0x00,
    0x01, 0x01, 0x00, 0x00, 0x00, 0x00, 0x00, 0x00, 0x00, 0x00, 0x00, 0x00, 0x00, 0x00, 0x00, 0x00,
    0x02, 0x00, 0x00, 0x07, 0x17, 0x41, 0xA8, 0x32, 0x30,
];

/// A pulse on the reset pin, with the pauses that the display needs around it.
pub open spec fn reset_pulse() -> Seq<Effect> {
    seq![
        Effect::SetReset(PinState::High),
        Effect::DelayMs(100),
        Effect::SetReset(PinState::Low),
        Effect::DelayMs(2),
        Effect::SetReset(PinState::High),
        Effect::DelayMs(100),
    ]
}

/// The commands that make `area` the window of the display's memory. Its columns are rounded to
/// whole groups of eight.
pub open spec fn window(area: Rectangle) -> Seq<Effect> {
    seq![
        Effect::Send(
            Command::SetRamXStartEnd,
            seq![column_byte(area.top_left.x as int), column_byte(area.right())],
        ),
        Effect::Send(
            Command::SetRamYStartEnd,
            row_bytes(area.top_left.y as int) + row_bytes(area.bottom()),
        ),
    ]
}

/// The commands that make `position` the place where the next data is written. Its column is
/// rounded to a whole group of eight.
pub open spec fn cursor(position: Point) -> Seq<Effect> {
    seq![
        Effect::Send(Command::SetRamX, seq![column_byte(position.x as int)]),
        Effect::Send(Command::SetRamY, row_bytes(position.y as int)),
    ]
}

/// The commands that make the window and the cursor cover the whole display.
pub open spec fn whole_window() -> Seq<Effect> {
    seq![
        Effect::Send(Command::DataEntryModeSetting, seq![0b11u8]),
        Effect::Send(Command::SetRamXStartEnd, seq![0x00u8, 0x31]),
        Effect::Send(Command::SetRamYStartEnd, seq![0x00u8, 0x00, 0x2B, 0x01]),
        Effect::Send(Command::SetRamX, seq![0x00u8]),
        Effect::Send(Command::SetRamY, seq![0x00u8, 0x00]),
    ]
}

/// The command that sets the border for a refresh mode.
pub open spec fn border(mode: RefreshMode, choice: BorderWaveform) -> Effect {
    Effect::Send(Command::SetBorderWaveform, seq![choice.spec_value_for(mode)])
}

/// The commands that select the waveform and the border of a refresh mode, after a software reset.
pub open spec fn waveform(mode: RefreshMode, choice: BorderWaveform) -> Seq<Effect> {
    let border = border(mode, choice);
    let reset = Effect::Send(Command::SwReset, Seq::empty());
    match mode {
        RefreshMode::Full => seq![
            reset,
            Effect::Send(Command::DisplayUpdateControl1, seq![0x40u8, 0x00]),
            border,
        ],
        RefreshMode::Fast => seq![
            reset,
            Effect::Send(Command::DisplayUpdateControl1, seq![0x40u8, 0x00]),
            border,
            Effect::Send(Command::TemperatureSensorControl, seq![0x6Eu8]),
            Effect::Send(Command::DisplayUpdateControl2, seq![0x91u8]),
            Effect::Send(Command::MasterActivation, Seq::empty()),
        ],
        RefreshMode::Partial => seq![
            reset,
            border,
            Effect::Send(Command::DisplayUpdateControl1, seq![0x00u8, 0x00]),
        ],
        RefreshMode::Gray2 => seq![
            reset,
            Effect::Send(Command::DisplayUpdateControl1, seq![0x00u8, 0x00]),
            border,
            Effect::Send(Command::BoosterSoftStart, seq![0x8Bu8, 0x9C, 0xA4, 0x0F]),
            Effect::Send(Command::WriteLut, LUT_GRAY2@.subrange(0, 227)),
            Effect::Send(Command::SetLutMagic, LUT_GRAY2@.subrange(227, 228)),
            Effect::Send(Command::SetGateDrivingVoltage, LUT_GRAY2@.subrange(228, 229)),
            Effect::Send(Command::SetSourceDrivingVoltage, LUT_GRAY2@.subrange(229, 232)),
            Effect::Send(Command::WriteVcom, LUT_GRAY2@.subrange(232, 233)),
        ],
    }
}

/// The commands that prepare the display for a refresh mode.
pub open spec fn configuration(mode: RefreshMode, choice: BorderWaveform) -> Seq<Effect> {
    waveform(mode, choice) + whole_window()
}

/// What initialises the display, or wakes it up, in a refresh mode.
pub open spec fn initialisation(mode: RefreshMode, choice: BorderWaveform) -> Seq<Effect> {
    reset_pulse() + configuration(mode, choice)
}

/// The command that puts the display into deep sleep.
pub open spec fn deep_sleep() -> Seq<Effect> {
    seq![Effect::Send(Command::DeepSleepMode, seq![0x01u8])]
}

/// The commands that put what is in the display's memory on the screen.
pub open spec fn update(mode: RefreshMode) -> Seq<Effect> {
    seq![
        Effect::Send(Command::DisplayUpdateControl2, seq![mode.update_sequence()]),
        Effect::Send(Command::MasterActivation, Seq::empty()),
    ]
}

/// The commands that write a base framebuffer.
pub open spec fn base_framebuffer(area: Rectangle, image: Seq<u8>) -> Seq<Effect> {
    window(area) + cursor(area.top_left) + seq![Effect::Send(Command::WriteHighRam, image)]
}

/// The commands that write a black and white image. A partial update needs the base framebuffer as
/// it is; every other mode takes the image in both framebuffers.
pub open spec fn black_and_white_framebuffer(
    mode: RefreshMode,
    area: Rectangle,
    image: Seq<u8>,
) -> Seq<Effect> {
    window(area) + cursor(area.top_left) + if mode == RefreshMode::Partial {
        seq![Effect::Send(Command::WriteLowRam, image)]
    } else {
        seq![
            Effect::Send(Command::WriteLowRam, image),
            Effect::Send(Command::WriteHighRam, image),
        ]
    }
}

/// The commands that write a grayscale image, given the low and the high bits of its pixels.
pub open spec fn gray_framebuffer(area: Rectangle, low: Seq<u8>, high: Seq<u8>) -> Seq<Effect> {
    window(area) + cursor(area.top_left) + seq![
        Effect::Send(Command::WriteLowRam, low),
        Effect::Send(Command::WriteHighRam, high),
    ]
}

impl<'a> Script<'a> {
    pub(crate) fn push_reset_pulse(&mut self)
        ensures
            final(self)@ == old(self)@ + reset_pulse(),
    {
        self.push(Action::SetReset(PinState::High));
        self.push(Action::DelayMs(100));
        self.push(Action::SetReset(PinState::Low));
        self.push(Action::DelayMs(2));
        self.push(Action::SetReset(PinState::High));
        self.push(Action::DelayMs(100));
    }

    pub(crate) fn push_window(&mut self, area: Rectangle)
        ensures
            final(self)@ == old(self)@ + window(area),
    {
        let x_end: i32 = last_coordinate(area.top_left.x, area.size.width);
        let y_end: i32 = last_coordinate(area.top_left.y, area.size.height);
        let columns: Vec<u8> = vec![encode_column(area.top_left.x), encode_column(x_end)];
        let (y_start_low, y_start_high) = encode_row(area.top_left.y);
        let (y_end_low, y_end_high) = encode_row(y_end);
        let rows: Vec<u8> = vec![y_start_low, y_start_high, y_end_low, y_end_high];
        assert(columns@ =~= seq![column_byte(area.top_left.x as int), column_byte(area.right())]);
        assert(rows@ =~= seq![y_start_low, y_start_high] + seq![y_end_low, y_end_high]);
        self.send_computed(Command::SetRamXStartEnd, columns);
        self.send_computed(Command::SetRamYStartEnd, rows);
    }

    pub(crate) fn push_cursor(&mut self, position: Point)
        ensures
            final(self)@ == old(self)@ + cursor(position),
    {
        let (y_low, y_high) = encode_row(position.y);
        let column: Vec<u8> = vec![encode_column(position.x)];
        let row: Vec<u8> = vec![y_low, y_high];
        assert(column@ =~= seq![column_byte(position.x as int)]);
        assert(row@ =~= seq![y_low, y_high]);
        self.send_computed(Command::SetRamX, column);
        self.send_computed(Command::SetRamY, row);
    }

    pub(crate) fn push_whole_window(&mut self)
        ensures
            final(self)@ == old(self)@ + whole_window(),
    {
        self.send(Command::DataEntryModeSetting, &[0b11]);
        self.send(Command::SetRamXStartEnd, &[0x00, 0x31]);
        self.send(Command::SetRamYStartEnd, &[0x00, 0x00, 0x2B, 0x01]);
        self.send(Command::SetRamX, &[0x00]);
        self.send(Command::SetRamY, &[0x00, 0x00]);
        assert(self@ =~~= old(self)@ + whole_window());
    }

    pub(crate) fn push_configuration(&mut self, mode: RefreshMode, choice: BorderWaveform)
        ensures
            final(self)@ == old(self)@ + configuration(mode, choice),
    {
        let border = choice.value_for(mode);
        match mode {
            RefreshMode::Full => {
                self.send(Command::SwReset, &[]);
                self.send(Command::DisplayUpdateControl1, &[0x40, 0x00]);
                self.send(Command::SetBorderWaveform, border);
            },
            RefreshMode::Fast => {
                self.send(Command::SwReset, &[]);
                self.send(Command::DisplayUpdateControl1, &[0x40, 0x00]);
                self.send(Command::SetBorderWaveform, border);
                // Select the fast waveform via temperature (the 1.5s variant), then load it. The 1s
                // variant 0x5A also works, but gives a worse contrast.
                self.send(Command::TemperatureSensorControl, &[0x6E]);
                self.send(Command::DisplayUpdateControl2, &[0x91]);
                self.send(Command::MasterActivation, &[]);
            },
            RefreshMode::Partial => {
                self.send(Command::SwReset, &[]);
                self.send(Command::SetBorderWaveform, border);
                self.send(Command::DisplayUpdateControl1, &[0x00, 0x00]);
            },
            RefreshMode::Gray2 => {
                self.send(Command::SwReset, &[]);
                self.send(Command::DisplayUpdateControl1, &[0x00, 0x00]);
                self.send(Command::SetBorderWaveform, border);
                self.send(Command::BoosterSoftStart, &[0x8B, 0x9C, 0xA4, 0x0F]);
                self.send(Command::WriteLut, lut(0, 227));
                self.send(Command::SetLutMagic, lut(227, 228));
                self.send(Command::SetGateDrivingVoltage, lut(228, 229));
                self.send(Command::SetSourceDrivingVoltage, lut(229, 232));
                self.send(Command::WriteVcom, lut(232, 233));
            },
        }
        self.push_whole_window();
        assert(self@ =~~= old(self)@ + configuration(mode, choice));
    }

    pub(crate) fn push_update(&mut self, mode: RefreshMode)
        ensures
            final(self)@ == old(self)@ + update(mode),
    {
        self.send(Command::DisplayUpdateControl2, mode.display_update_control_2());
        self.send(Command::MasterActivation, &[]);
        assert(self@ =~~= old(self)@ + update(mode));
    }
}

/// A part of the Gray2 waveform and its settings.
fn lut(start: usize, end: usize) -> (bytes: &'static [u8])
    requires
        start <= end <= 233,
    ensures
        bytes@ == LUT_GRAY2@.subrange(start as int, end as int),
{
    vstd::slice::slice_subrange(&LUT_GRAY2, start, end)
}

} // verus!
