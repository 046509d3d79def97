//! The controller's commands.
use vstd::prelude::*;

verus! {

/// Low-level commands for the 4.2" v2 display. You probably want to use the other methods of
/// [crate::driver::Epd4In2V2] for most operations, but can send commands directly with
/// [crate::driver::Epd4In2V2::send] for low-level control or experimentation.
///
/// The register address of a command comes from [Command::register] alone; a cast of a command to a
/// number gives its place in this list.
#[derive(Debug, Clone, Copy, PartialEq, Eq, Structural)]
pub enum Command {
    /// Sets the driver output control (gate scan direction and gate output count).
    DriverOutputControl,
    /// Sets the voltage that drives gate lines (standard value: 0x00, or 0x17).
    SetGateDrivingVoltage,
    /// Sets the source driving voltage (standard value: [0x41, 0xA8, 0x32]).
    SetSourceDrivingVoltage,
    /// Booster Control used for Gray2 initialization.
    BoosterSoftStart,
    /// Used to enter deep sleep mode. Requires a hardware reset and reinitialisation to wake up.
    DeepSleepMode,
    /// Changes the auto-increment behaviour of the address counter.
    DataEntryModeSetting,
    /// Resets all commands and parameters to default values (except deep sleep mode).
    SwReset,
    /// Selects the temperature-based waveform speed used for fast refreshes (`0x5A` = 1s, `0x6E` = 1.5s).
    TemperatureSensorControl,
    /// Activates the display update sequence. This must be set beforehand using [Command::DisplayUpdateControl2].
    /// This operation must not be interrupted.
    MasterActivation,
    /// Sets the display update sequence to use with [Command::MasterActivation]. The value is
    /// `[0x40, 0x00]` for full and fast refreshes, and `[0x00, 0x00]` for partial and Gray2 refreshes.
    DisplayUpdateControl1,
    /// Configures the display update sequence for use with [Command::MasterActivation].
    DisplayUpdateControl2,
    /// Writes low bits to the current frame buffer.
    WriteLowRam,
    /// Writes high bits to the current frame buffer.
    WriteHighRam,
    /// Triggers a read of the VCOM voltage. Requires that CLKEN and ANALOGEN have been enabled via
    /// [Command::DisplayUpdateControl2].
    ReadVcom,
    /// Sets the duration to hold before reading the VCOM value.
    SetVcomReadDuration,
    /// Programs the VCOM register into the OTP. Requires that CLKEN has been enabled via
    /// [Command::DisplayUpdateControl2].
    ProgramVcomOtp,
    /// Writes to the VCOM register.
    WriteVcom,

    /// Reads OTP registers (sections: VCOM OTP selection, VCOM register, Display Mode, Waveform Version).
    ReadOtpRegisters,
    /// Reads the 10 byte User ID stored in OTP.
    ReadUserId,
    /// Programs the Waveform Setting OTP (requires writing the bytes into RAM first). Requires
    /// CLKEN to have been enabled via [Command::DisplayUpdateControl2].
    ProgramWsOtp,
    /// Loads the Waveform Setting OTP. Requires CLKEN to have been enabled via
    /// [Command::DisplayUpdateControl2].
    LoadWsOtp,

    /// Writes the LUT register. For the 4.2" V2 display this is 227 bytes, containing the Gray2 waveform.
    WriteLut,

    /// Programs the OTP selection according to the OTP selection control (registers 0x37 and 0x38).
    /// Requires CLKEN to have been enabled via [Command::DisplayUpdateControl2].
    ProgramOtpSelection,

    /// Writes the register for the user ID that can be stored in the OTP.
    WriteRegisterForUserId,
    /// Sets the OTP program mode:
    ///
    /// * 0x00: normal mode
    /// * 0x03: internally generated OTP programming voltage
    SetOtpProgramMode,
    /// Sets the border waveform for the display update (`0x05` for full/fast, `0x80` for partial,
    /// `0x03` for Gray2).
    SetBorderWaveform,
    /// Undocumented command needed for setting the LUT.
    SetLutMagic,

    /// Sets the start and end positions of the X axis for the auto-incrementing address counter.
    /// Start and end are inclusive.
    ///
    /// Note that the x position can only be written on a whole byte basis (8 bits at once). The
    /// start and end positions are therefore sent right shifted 3 bits to indicate the byte number
    /// being written. For example, to write the first 32 x positions, you would send 0 (0 >> 3 =
    /// 0), and 3 (31 >> 3 = 3). If you tried to write just the first 25 x positions, you would end
    /// up sending the same values and actually writing all 32.
    SetRamXStartEnd,
    /// Sets the start and end positions of the Y axis for the auto-incrementing address counter.
    /// Start and end are inclusive.
    SetRamYStartEnd,
    /// Sets the current x coordinate of the address counter.
    /// Note that the x position can only be configured as a multiple of 8.
    SetRamX,
    /// Sets the current y coordinate of the address counter.
    SetRamY,
}

impl Command {
    /// The register address of each command.
    pub open spec fn spec_register(self) -> u8 {
        match self {
            Command::DriverOutputControl => 0x01,
            Command::SetGateDrivingVoltage => 0x03,
            Command::SetSourceDrivingVoltage => 0x04,
            Command::BoosterSoftStart => 0x0C,
            Command::DeepSleepMode => 0x10,
            Command::DataEntryModeSetting => 0x11,
            Command::SwReset => 0x12,
            Command::TemperatureSensorControl => 0x1A,
            Command::MasterActivation => 0x20,
            Command::DisplayUpdateControl1 => 0x21,
            Command::DisplayUpdateControl2 => 0x22,
            Command::WriteLowRam => 0x24,
            Command::WriteHighRam => 0x26,
            Command::ReadVcom => 0x28,
            Command::SetVcomReadDuration => 0x29,
            Command::ProgramVcomOtp => 0x2A,
            Command::WriteVcom => 0x2C,
            Command::ReadOtpRegisters => 0x2D,
            Command::ReadUserId => 0x2E,
            Command::ProgramWsOtp => 0x30,
            Command::LoadWsOtp => 0x31,
            Command::WriteLut => 0x32,
            Command::ProgramOtpSelection => 0x36,
            Command::WriteRegisterForUserId => 0x38,
            Command::SetOtpProgramMode => 0x39,
            Command::SetBorderWaveform => 0x3C,
            Command::SetLutMagic => 0x3F,
            Command::SetRamXStartEnd => 0x44,
            Command::SetRamYStartEnd => 0x45,
            Command::SetRamX => 0x4E,
            Command::SetRamY => 0x4F,
        }
    }

    /// Returns the register address for this command.
    pub fn register(&self) -> (address: u8)
        ensures
            address == self.spec_register(),
    {
        match self {
            Command::DriverOutputControl => 0x01,
            Command::SetGateDrivingVoltage => 0x03,
            Command::SetSourceDrivingVoltage => 0x04,
            Command::BoosterSoftStart => 0x0C,
            Command::DeepSleepMode => 0x10,
            Command::DataEntryModeSetting => 0x11,
            Command::SwReset => 0x12,
            Command::TemperatureSensorControl => 0x1A,
            Command::MasterActivation => 0x20,
            Command::DisplayUpdateControl1 => 0x21,
            Command::DisplayUpdateControl2 => 0x22,
            Command::WriteLowRam => 0x24,
            Command::WriteHighRam => 0x26,
            Command::ReadVcom => 0x28,
            Command::SetVcomReadDuration => 0x29,
            Command::ProgramVcomOtp => 0x2A,
            Command::WriteVcom => 0x2C,
            Command::ReadOtpRegisters => 0x2D,
            Command::ReadUserId => 0x2E,
            Command::ProgramWsOtp => 0x30,
            Command::LoadWsOtp => 0x31,
            Command::WriteLut => 0x32,
            Command::ProgramOtpSelection => 0x36,
            Command::WriteRegisterForUserId => 0x38,
            Command::SetOtpProgramMode => 0x39,
            Command::SetBorderWaveform => 0x3C,
            Command::SetLutMagic => 0x3F,
            Command::SetRamXStartEnd => 0x44,
            Command::SetRamYStartEnd => 0x45,
            Command::SetRamX => 0x4E,
            Command::SetRamY => 0x4F,
        }
    }
}

/// No two commands share a register address.
pub proof fn lemma_register_is_injective(a: Command, b: Command)
    requires
        a.spec_register() == b.spec_register(),
    ensures
        a == b,
{
}

} // verus!
