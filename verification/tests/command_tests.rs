use epd4in2b_v2::command::Command;

#[test]
fn command_addr() {
    assert_eq!(Command::DeepSleep.address(), 0x07);
    assert_eq!(Command::PanelSetting.address(), 0x00);
    assert_eq!(Command::DisplayRefresh.address(), 0x12);
}

#[test]
fn command_addr_full_table() {
    assert_eq!(Command::PowerSetting.address(), 0x01);
    assert_eq!(Command::PowerOff.address(), 0x02);
    assert_eq!(Command::PowerOffSequenceSetting.address(), 0x03);
    assert_eq!(Command::PowerOn.address(), 0x04);
    assert_eq!(Command::PowerOnMeasure.address(), 0x05);
    assert_eq!(Command::BoosterSoftStart.address(), 0x06);
    assert_eq!(Command::DataStartTransmission1.address(), 0x10);
    assert_eq!(Command::DataEntryMode.address(), 0x11);
    assert_eq!(Command::DataStartTransmission2.address(), 0x13);
    assert_eq!(Command::Xon.address(), 0x18);
    assert_eq!(Command::MasterActivation.address(), 0x20);
    assert_eq!(Command::DisplayUpdateControl2.address(), 0x22);
    assert_eq!(Command::WriteRamBw.address(), 0x24);
    assert_eq!(Command::RedDataTransmission.address(), 0x26);
    assert_eq!(Command::ReadId.address(), 0x2F);
    assert_eq!(Command::BorderWaveformControl.address(), 0x3C);
    assert_eq!(Command::SetRamXAddressStartEndPosition.address(), 0x44);
    assert_eq!(Command::SetRamYAddressStartEndPosition.address(), 0x45);
    assert_eq!(Command::SetRamXAddressCounter.address(), 0x4E);
    assert_eq!(Command::SetRamYAddressCounter.address(), 0x4F);
    assert_eq!(Command::VcomAndDataIntervalSetting.address(), 0x50);
}
