//! The panel controller's command set: a static mapping from symbolic
//! operation names to one-byte opcodes.

use vstd::prelude::*;

verus! {

/// Commands the panel controller understands.
///
/// [`Command::address`] gives the opcode byte that starts the corresponding
/// bus transaction.
#[derive(Clone, Copy, Debug)]
pub enum Command {
    /// Set resolution, LUT selection, BWR pixels, gate scan direction,
    /// source shift direction, booster switch, soft reset.
    PanelSetting,
    /// Select internal or external power.
    PowerSetting,
    /// Power off following the power-off sequence.
    PowerOff,
    /// Set the power-off sequence.
    PowerOffSequenceSetting,
    /// Turn on the power.
    PowerOn,
    /// Enable the internal bandgap until the next power-off.
    PowerOnMeasure,
    /// Booster soft start.
    BoosterSoftStart,
    /// Enter deep-sleep mode to save power.
    DeepSleep,
    /// Start transmitting black-plane data (first revision).
    DataStartTransmission1,
    /// Data entry mode setting (second revision initialization).
    DataEntryMode,
    /// Refresh the display according to SRAM data and LUT (first revision).
    DisplayRefresh,
    /// Start transmitting chromatic-plane data (first revision).
    DataStartTransmission2,
    /// XON control (second revision initialization).
    Xon,
    /// Master activation: trigger the redraw (second revision).
    MasterActivation,
    /// Display update control 2: refresh mode select (second revision).
    DisplayUpdateControl2,
    /// Write RAM for black/white data (second revision).
    WriteRamBw,
    /// Chromatic-plane data transmission (second revision).
    RedDataTransmission,
    /// Read chip identification / status.
    ReadId,
    /// Border waveform control.
    BorderWaveformControl,
    /// Set RAM X address start/end position.
    SetRamXAddressStartEndPosition,
    /// Set RAM Y address start/end position.
    SetRamYAddressStartEndPosition,
    /// Set RAM X address counter.
    SetRamXAddressCounter,
    /// Set RAM Y address counter.
    SetRamYAddressCounter,
    /// VCOM and data interval setting, used before power-off.
    VcomAndDataIntervalSetting,
}

impl Command {
    /// Opcode byte of the command, per the controller datasheet.
    pub open spec fn spec_address(self) -> u8 {
        match self {
            Command::PanelSetting => 0x00,
            Command::PowerSetting => 0x01,
            Command::PowerOff => 0x02,
            Command::PowerOffSequenceSetting => 0x03,
            Command::PowerOn => 0x04,
            Command::PowerOnMeasure => 0x05,
            Command::BoosterSoftStart => 0x06,
            Command::DeepSleep => 0x07,
            Command::DataStartTransmission1 => 0x10,
            Command::DataEntryMode => 0x11,
            Command::DisplayRefresh => 0x12,
            Command::DataStartTransmission2 => 0x13,
            Command::Xon => 0x18,
            Command::MasterActivation => 0x20,
            Command::DisplayUpdateControl2 => 0x22,
            Command::WriteRamBw => 0x24,
            Command::RedDataTransmission => 0x26,
            Command::ReadId => 0x2F,
            Command::BorderWaveformControl => 0x3C,
            Command::SetRamXAddressStartEndPosition => 0x44,
            Command::SetRamYAddressStartEndPosition => 0x45,
            Command::SetRamXAddressCounter => 0x4E,
            Command::SetRamYAddressCounter => 0x4F,
            Command::VcomAndDataIntervalSetting => 0x50,
        }
    }

    /// Returns the opcode byte of the command.
    pub fn address(self) -> (b: u8)
        ensures
            b == self.spec_address(),
    {
        match self {
            Command::PanelSetting => 0x00,
            Command::PowerSetting => 0x01,
            Command::PowerOff => 0x02,
            Command::PowerOffSequenceSetting => 0x03,
            Command::PowerOn => 0x04,
            Command::PowerOnMeasure => 0x05,
            Command::BoosterSoftStart => 0x06,
            Command::DeepSleep => 0x07,
            Command::DataStartTransmission1 => 0x10,
            Command::DataEntryMode => 0x11,
            Command::DisplayRefresh => 0x12,
            Command::DataStartTransmission2 => 0x13,
            Command::Xon => 0x18,
            Command::MasterActivation => 0x20,
            Command::DisplayUpdateControl2 => 0x22,
            Command::WriteRamBw => 0x24,
            Command::RedDataTransmission => 0x26,
            Command::ReadId => 0x2F,
            Command::BorderWaveformControl => 0x3C,
            Command::SetRamXAddressStartEndPosition => 0x44,
            Command::SetRamYAddressStartEndPosition => 0x45,
            Command::SetRamXAddressCounter => 0x4E,
            Command::SetRamYAddressCounter => 0x4F,
            Command::VcomAndDataIntervalSetting => 0x50,
        }
    }
}

} // verus!
