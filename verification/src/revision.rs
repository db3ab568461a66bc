//! Revision strategy: everything that differs between the two controller
//! revisions — busy-line polarity, framebuffer opcodes, and the
//! initialization, refresh and sleep recipes — stated once, as data.
//!
//! The revision is carried as a flag byte: `1` selects the second revision,
//! any other value the first (the default).

use vstd::prelude::*;

use crate::BUFFER_SIZE;
use crate::HEIGHT;
use crate::WIDTH;
use crate::bus::BusOp;
use crate::bus::complement;
use crate::bus::plane_ops;
use crate::bus::repeat_byte;
use crate::command::Command;

verus! {

/// Busy polarity: under the first revision the panel is busy while the busy
/// line reads low; under the second, while it reads high.
pub open spec fn busy_when_low(flag: u8) -> bool {
    flag != 1
}

/// The wait-until-idle operation with the revision's busy polarity.
pub open spec fn wait_idle_op(flag: u8) -> BusOp {
    BusOp::WaitUntilIdle(busy_when_low(flag))
}

/// Opcode that starts a black-plane transmission.
pub open spec fn black_plane_opcode(flag: u8) -> u8 {
    if flag == 1 {
        Command::WriteRamBw.spec_address()
    } else {
        Command::DataStartTransmission1.spec_address()
    }
}

/// Opcode that starts a chromatic-plane transmission.
pub open spec fn chromatic_plane_opcode(flag: u8) -> u8 {
    if flag == 1 {
        Command::RedDataTransmission.spec_address()
    } else {
        Command::DataStartTransmission2.spec_address()
    }
}

/// The reset pulse the initialization starts with: microseconds asserted,
/// then microseconds of settle.
pub open spec fn reset_op() -> BusOp {
    BusOp::Reset(200_000, 5_000)
}

/// The initialization recipe: reset pulse, chip-identification read request
/// (its response is not acted on; the configured revision stays), then the
/// revision's register setup, interleaved with the documented waits.
pub open spec fn init_ops(flag: u8) -> Seq<BusOp> {
    seq![
        reset_op(),
        BusOp::DelayMs(200),
        BusOp::Command(Command::ReadId.spec_address()),
        BusOp::DelayMs(100),
    ] + if flag == 1 {
        init_tail_v1()
    } else {
        init_tail_v0()
    }
}

/// First-revision register setup: power on, wait, panel setting.
pub open spec fn init_tail_v0() -> Seq<BusOp> {
    seq![
        BusOp::Command(Command::PowerOn.spec_address()),
        BusOp::WaitUntilIdle(true),
        BusOp::Command(Command::PanelSetting.spec_address()),
        BusOp::DataByte(0x0F),
    ]
}

/// Second-revision register setup: refresh, border waveform, data entry
/// mode, and the RAM address window of the fixed geometry.
pub open spec fn init_tail_v1() -> Seq<BusOp> {
    seq![
        BusOp::WaitUntilIdle(false),
        BusOp::Command(Command::DisplayRefresh.spec_address()),
        BusOp::WaitUntilIdle(false),
        BusOp::Command(Command::BorderWaveformControl.spec_address()),
        BusOp::DataByte(0x05),
        BusOp::Command(Command::Xon.spec_address()),
        BusOp::DataByte(0x80),
        BusOp::Command(Command::DataEntryMode.spec_address()),
        BusOp::DataByte(0x03),
        BusOp::Command(Command::SetRamXAddressStartEndPosition.spec_address()),
        BusOp::DataByte(0x00),
        BusOp::DataByte((WIDTH / 8 - 1) as u8),
        BusOp::Command(Command::SetRamYAddressStartEndPosition.spec_address()),
        BusOp::DataByte(0x00),
        BusOp::DataByte(0x00),
        BusOp::DataByte(((HEIGHT - 1) % 256) as u8),
        BusOp::DataByte(((HEIGHT - 1) / 256) as u8),
        BusOp::Command(Command::SetRamXAddressCounter.spec_address()),
        BusOp::DataByte(0x00),
        BusOp::Command(Command::SetRamYAddressCounter.spec_address()),
        BusOp::DataByte(0x00),
        BusOp::DataByte(0x00),
        BusOp::WaitUntilIdle(false),
    ]
}

/// The sleep recipe, followed by the fixed settle delay.
///
/// First revision: VCOM/data-interval setting `0xF7`, power off, wait,
/// deep sleep with check code `0xA5`. Second revision: one transmission of
/// `0x03` on the `DataStartTransmission1` opcode.
pub open spec fn sleep_ops(flag: u8) -> Seq<BusOp> {
    (if flag == 1 {
        seq![
            BusOp::Command(Command::DataStartTransmission1.spec_address()),
            BusOp::DataByte(0x03),
        ]
    } else {
        seq![
            BusOp::Command(Command::VcomAndDataIntervalSetting.spec_address()),
            BusOp::DataByte(0xF7),
            BusOp::Command(Command::PowerOff.spec_address()),
            BusOp::WaitUntilIdle(true),
            BusOp::Command(Command::DeepSleep.spec_address()),
            BusOp::DataByte(0xA5),
        ]
    }) + seq![BusOp::DelayMs(2000)]
}

/// The turn-on/refresh recipe.
///
/// First revision: display refresh, a fixed settle delay, then wait.
/// Second revision: display update control 2 with `0xF7`, master
/// activation, then wait.
pub open spec fn refresh_ops(flag: u8) -> Seq<BusOp> {
    if flag == 1 {
        seq![
            BusOp::Command(Command::DisplayUpdateControl2.spec_address()),
            BusOp::DataByte(0xF7),
            BusOp::Command(Command::MasterActivation.spec_address()),
            BusOp::WaitUntilIdle(false),
        ]
    } else {
        seq![
            BusOp::Command(Command::DisplayRefresh.spec_address()),
            BusOp::DelayMs(100),
            BusOp::WaitUntilIdle(true),
        ]
    }
}

/// Clearing the frame memory: wait until idle, fill the black plane with
/// `0xFF` (all white) and the chromatic plane with `0x00` (no ink).
pub open spec fn clear_ops(flag: u8) -> Seq<BusOp> {
    seq![wait_idle_op(flag)] + plane_ops(
        black_plane_opcode(flag),
        repeat_byte(0xFF, BUFFER_SIZE as nat),
    ) + plane_ops(chromatic_plane_opcode(flag), repeat_byte(0x00, BUFFER_SIZE as nat))
}

/// A full two-plane frame transmission: wait until idle, the black plane
/// byte-for-byte, then the chromatic plane with every byte
/// bitwise-complemented (the panel's chromatic plane is active-low).
pub open spec fn color_frame_ops(flag: u8, black: Seq<u8>, chromatic: Seq<u8>) -> Seq<BusOp> {
    seq![wait_idle_op(flag)] + plane_ops(black_plane_opcode(flag), black) + plane_ops(
        chromatic_plane_opcode(flag),
        complement(chromatic),
    )
}

/// A chromatic-only frame transmission: the black plane filled with `0xFF`,
/// then the chromatic plane complemented.
pub open spec fn chromatic_frame_ops(flag: u8, chromatic: Seq<u8>) -> Seq<BusOp> {
    seq![wait_idle_op(flag)] + plane_ops(
        black_plane_opcode(flag),
        repeat_byte(0xFF, BUFFER_SIZE as nat),
    ) + plane_ops(chromatic_plane_opcode(flag), complement(chromatic))
}

/// A black-only frame transmission: the black plane byte-for-byte, then the
/// chromatic plane filled with `0x00`.
pub open spec fn achromatic_frame_ops(flag: u8, black: Seq<u8>) -> Seq<BusOp> {
    seq![wait_idle_op(flag)] + plane_ops(black_plane_opcode(flag), black) + plane_ops(
        chromatic_plane_opcode(flag),
        repeat_byte(0x00, BUFFER_SIZE as nat),
    )
}

} // verus!
