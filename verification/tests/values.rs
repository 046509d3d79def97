use epd4in2_v2::buffer::{BinaryBuffer, Gray2SplitBuffer};
use epd4in2_v2::geometry::split_low_and_high;
use epd4in2_v2::{
    new_binary_buffer, new_gray2_buffer, BorderWaveform, Command, Phase, PinState,
    Point, Polarity, Rectangle, RefreshMode, Size, BINARY_BUFFER_LENGTH, DEFAULT_BUSY_WHEN,
    DISPLAY_HEIGHT, DISPLAY_WIDTH, RECOMMENDED_MAX_FULL_REFRESH_INTERVAL_SECS,
    RECOMMENDED_MIN_FULL_REFRESH_INTERVAL_SECS, RECOMMENDED_SPI_HZ, RECOMMENDED_SPI_PHASE,
    RECOMMENDED_SPI_POLARITY,
};

const MODES: [RefreshMode; 4] =
    [RefreshMode::Fast, RefreshMode::Full, RefreshMode::Partial, RefreshMode::Gray2];

#[test]
fn mode_settings() {
    let borders: Vec<&[u8]> = MODES.iter().map(|mode| mode.border_waveform()).collect();
    assert_eq!(borders, [&[0x05], &[0x05], &[0x80], &[0x03]]);
    let updates: Vec<&[u8]> = MODES.iter().map(|mode| mode.display_update_control_2()).collect();
    assert_eq!(updates, [&[0xC7], &[0xF7], &[0xFF], &[0xCF]]);
    let binary: Vec<bool> = MODES.iter().map(|mode| mode.is_black_and_white()).collect();
    assert_eq!(binary, [true, true, true, false]);
}

#[test]
fn border_override_values() {
    for mode in MODES {
        assert_eq!(BorderWaveform::Default.value_for(mode), mode.border_waveform());
        assert_eq!(BorderWaveform::Black.value_for(mode), [0x50]);
        assert_eq!(BorderWaveform::White.value_for(mode), [0x60]);
    }
}

#[test]
fn command_registers() {
    let commands = [
        (Command::DriverOutputControl, 0x01),
        (Command::SetGateDrivingVoltage, 0x03),
        (Command::SetSourceDrivingVoltage, 0x04),
        (Command::BoosterSoftStart, 0x0C),
        (Command::DeepSleepMode, 0x10),
        (Command::DataEntryModeSetting, 0x11),
        (Command::SwReset, 0x12),
        (Command::TemperatureSensorControl, 0x1A),
        (Command::MasterActivation, 0x20),
        (Command::DisplayUpdateControl1, 0x21),
        (Command::DisplayUpdateControl2, 0x22),
        (Command::WriteLowRam, 0x24),
        (Command::WriteHighRam, 0x26),
        (Command::ReadVcom, 0x28),
        (Command::SetVcomReadDuration, 0x29),
        (Command::ProgramVcomOtp, 0x2A),
        (Command::WriteVcom, 0x2C),
        (Command::ReadOtpRegisters, 0x2D),
        (Command::ReadUserId, 0x2E),
        (Command::ProgramWsOtp, 0x30),
        (Command::LoadWsOtp, 0x31),
        (Command::WriteLut, 0x32),
        (Command::ProgramOtpSelection, 0x36),
        (Command::WriteRegisterForUserId, 0x38),
        (Command::SetOtpProgramMode, 0x39),
        (Command::SetBorderWaveform, 0x3C),
        (Command::SetLutMagic, 0x3F),
        (Command::SetRamXStartEnd, 0x44),
        (Command::SetRamYStartEnd, 0x45),
        (Command::SetRamX, 0x4E),
        (Command::SetRamY, 0x4F),
    ];
    for (i, (command, register)) in commands.iter().enumerate() {
        assert_eq!(command.register(), *register);
        for (other, _) in &commands[i + 1..] {
            assert_ne!(command.register(), other.register());
        }
    }
}

#[test]
fn recommendations() {
    assert_eq!((DISPLAY_WIDTH, DISPLAY_HEIGHT), (400, 300));
    assert_eq!(RECOMMENDED_MIN_FULL_REFRESH_INTERVAL_SECS, 180);
    assert_eq!(RECOMMENDED_MAX_FULL_REFRESH_INTERVAL_SECS, 86400);
    assert_eq!(RECOMMENDED_SPI_HZ, 4_000_000);
    assert_eq!(RECOMMENDED_SPI_PHASE, Phase::CaptureOnFirstTransition);
    assert_eq!(RECOMMENDED_SPI_POLARITY, Polarity::IdleLow);
    assert_eq!(DEFAULT_BUSY_WHEN, PinState::High);
}

#[test]
fn low_and_high_bytes() {
    assert_eq!(split_low_and_high(0), (0, 0));
    assert_eq!(split_low_and_high(299), (0x2B, 0x01));
    assert_eq!(split_low_and_high(0xABCD), (0xCD, 0xAB));
}

#[test]
fn new_buffers_are_black_and_cover_the_display() {
    let display = Rectangle {
        top_left: Point { x: 0, y: 0 },
        size: Size { width: 400, height: 300 },
    };
    assert_eq!(BINARY_BUFFER_LENGTH, 15000);
    let buffer = new_binary_buffer();
    assert_eq!(buffer.as_view().window, display);
    assert_eq!(buffer.as_view().data, [&[0u8; 15000][..]]);
    let gray = new_gray2_buffer();
    assert_eq!(gray.as_view().window, display);
    assert_eq!(gray.as_view().data, [&[0u8; 15000][..], &[0u8; 15000][..]]);
}

#[test]
fn pixels_are_packed_from_the_left() {
    let mut buffer = BinaryBuffer::<4>::new(Size { width: 16, height: 2 });
    buffer.set_pixel(Point { x: 0, y: 0 }, true);
    buffer.set_pixel(Point { x: 9, y: 0 }, true);
    buffer.set_pixel(Point { x: 7, y: 1 }, true);
    buffer.set_pixel(Point { x: 15, y: 1 }, true);
    assert_eq!(buffer.as_view().data, [&[0x80, 0x40, 0x01, 0x01][..]]);
    buffer.set_pixel(Point { x: 9, y: 0 }, false);
    buffer.set_pixel(Point { x: 8, y: 1 }, false);
    assert_eq!(buffer.as_view().data, [&[0x80, 0x00, 0x01, 0x01][..]]);
}

#[test]
fn pixels_outside_are_ignored() {
    let mut buffer = BinaryBuffer::<4>::new(Size { width: 16, height: 2 });
    for (x, y) in [(-1, 0), (0, -1), (16, 0), (0, 2), (i32::MIN, i32::MAX)] {
        buffer.set_pixel(Point { x, y }, true);
    }
    assert_eq!(buffer.as_view().data, [&[0, 0, 0, 0][..]]);
}

#[test]
fn shades_take_the_two_lowest_bits() {
    let mut buffer = Gray2SplitBuffer::<1>::new(Size { width: 8, height: 1 });
    for x in 0..8 {
        buffer.set_pixel(Point { x, y: 0 }, x as u8);
    }
    assert_eq!(buffer.as_view().data, [&[0b0101_0101][..], &[0b0011_0011][..]]);
    buffer.set_pixel(Point { x: 7, y: 0 }, 0);
    buffer.set_pixel(Point { x: 8, y: 0 }, 3);
    assert_eq!(buffer.as_view().data, [&[0b0101_0100][..], &[0b0011_0010][..]]);
}

#[test]
fn drawing_keeps_the_length_of_both_planes() {
    let mut buffer = new_gray2_buffer();
    buffer.set_pixel(Point { x: 399, y: 299 }, 2);
    let view = buffer.as_view();
    assert_eq!(view.data[0], [0u8; BINARY_BUFFER_LENGTH]);
    assert_eq!(view.data[1].len(), BINARY_BUFFER_LENGTH);
    assert_eq!(view.data[1][BINARY_BUFFER_LENGTH - 1], 1);
}
