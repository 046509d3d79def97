//! Refresh modes and the border of the image.
use vstd::prelude::*;

verus! {

/// The refresh mode for the display.
#[derive(Debug, Clone, Copy, PartialEq, Eq, Structural)]
pub enum RefreshMode {
    /// A full-screen refresh using the fast waveform, selected by writing to the temperature sensor
    /// register. This is quicker than [RefreshMode::Full], but may result in more ghosting. If
    /// ghosting persists, try [RefreshMode::Full].
    Fast,
    /// A full-screen refresh using the display's OTP waveform. This gives the cleanest image and
    /// should be done occasionally to avoid ghosting. It's the slowest refresh mode.
    ///
    /// It's recommended to avoid full refreshes less than
    /// [crate::RECOMMENDED_MIN_FULL_REFRESH_INTERVAL_SECS] apart, but to do a full refresh at least
    /// every [crate::RECOMMENDED_MAX_FULL_REFRESH_INTERVAL_SECS].
    Full,
    /// Uses the display's partial update waveform for a fast refresh. A full refresh should be done
    /// occasionally to avoid ghosting, see [crate::RECOMMENDED_MAX_FULL_REFRESH_INTERVAL_SECS].
    ///
    /// This is the fastest update. It diffs the current framebuffer (written to the low RAM) against
    /// the base framebuffer (written to the high RAM), and only drives the pixels where they differ.
    /// The base framebuffer must therefore hold the image that is currently on screen, or pixels that
    /// are unchanged between the two framebuffers will keep their previous on-screen state. Write the
    /// base with [crate::driver::Epd4In2V2::write_base_framebuffer] using the last displayed image
    /// after each partial update (or use a full/fast refresh to display a whole new image).
    Partial,
    /// A refresh mode that supports 2-bit grayscale.
    ///
    /// There is no partial update version for Gray2. All updates require writing to both on-device
    /// framebuffers.
    Gray2,
}

impl RefreshMode {
    /// The reference setting of the border waveform for this refresh mode.
    pub open spec fn reference_border(self) -> u8 {
        match self {
            RefreshMode::Full | RefreshMode::Fast => 0x05,
            RefreshMode::Partial => 0x80,
            RefreshMode::Gray2 => 0x03,
        }
    }

    /// The display update sequence that drives a refresh in this mode.
    pub open spec fn update_sequence(self) -> u8 {
        match self {
            RefreshMode::Fast => 0xC7,
            RefreshMode::Full => 0xF7,
            RefreshMode::Partial => 0xFF,
            RefreshMode::Gray2 => 0xCF,
        }
    }

    /// Returns the border waveform setting to use for this refresh mode.
    pub fn border_waveform(&self) -> (waveform: &'static [u8])
        ensures
            waveform@ == seq![self.reference_border()],
    {
        match self {
            RefreshMode::Full | RefreshMode::Fast => &[0x05],
            RefreshMode::Partial => &[0x80],
            RefreshMode::Gray2 => &[0x03],
        }
    }

    /// Returns the value to set for [crate::command::Command::DisplayUpdateControl2] when using
    /// this refresh mode.
    pub fn display_update_control_2(&self) -> (control: &'static [u8])
        ensures
            control@ == seq![self.update_sequence()],
    {
        match self {
            RefreshMode::Fast => &[0xC7],
            RefreshMode::Full => &[0xF7],
            RefreshMode::Partial => &[0xFF],
            RefreshMode::Gray2 => &[0xCF],
        }
    }

    /// If this refresh mode is black and white only.
    pub fn is_black_and_white(&self) -> (black_and_white: bool)
        ensures
            black_and_white <==> *self != RefreshMode::Gray2,
    {
        *self != RefreshMode::Gray2
    }
}

/// Selects the border waveform, overriding the refresh mode's default.
#[derive(Debug, Clone, Copy, PartialEq, Eq, Structural)]
pub enum BorderWaveform {
    /// Uses the reference value for the current refresh mode (`0x05` for full/fast, `0x80` for
    /// partial, `0x03` for Gray2).
    Default,
    /// Fixes the border at a plain black level (`0x50`).
    Black,
    /// Fixes the border at a plain white level (`0x60`).
    White,
}

impl BorderWaveform {
    /// The border waveform setting in the given refresh mode.
    pub open spec fn spec_value_for(self, mode: RefreshMode) -> u8 {
        match self {
            BorderWaveform::Default => mode.reference_border(),
            BorderWaveform::Black => 0x50,
            BorderWaveform::White => 0x60,
        }
    }

    /// Returns the border waveform byte for the given refresh mode, honouring this override.
    pub fn value_for(&self, mode: RefreshMode) -> (waveform: &'static [u8])
        ensures
            waveform@ == seq![self.spec_value_for(mode)],
    {
        match self {
            BorderWaveform::Default => mode.border_waveform(),
            BorderWaveform::Black => &[0x50],
            BorderWaveform::White => &[0x60],
        }
    }
}

} // verus!
