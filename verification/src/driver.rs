//! The stateful protocol driver: it keeps the panel state (revision flag and
//! background color) and computes, for every operation, the exact sequence
//! of bus operations that must reach the panel.
//!
//! Constructing a driver also yields the initialization sequence: the caller
//! is expected to perform every returned sequence on the bus, in order. The
//! driver retains neither the bus nor the frame buffers.

use vstd::prelude::*;

use crate::BUFFER_SIZE;
use crate::HEIGHT;
use crate::WIDTH;
use crate::bus::BusOp;
use crate::bus::push_command;
use crate::bus::push_data;
use crate::bus::push_data_complemented;
use crate::bus::push_data_repeated;
use crate::color::DEFAULT_BACKGROUND_COLOR;
use crate::color::TriColor;
use crate::command::Command;
use crate::revision::achromatic_frame_ops;
use crate::revision::chromatic_frame_ops;
use crate::revision::clear_ops;
use crate::revision::color_frame_ops;
use crate::revision::init_ops;
use crate::revision::refresh_ops;
use crate::revision::sleep_ops;
use crate::revision::wait_idle_op;

verus! {

/// Errors an operation can report.
///
/// Transmission failures belong to the bus layer that performs the returned
/// operations; the engine itself fails only on caller errors.
#[derive(Clone, Copy, Debug, PartialEq, Eq, Structural)]
pub enum EpdError {
    /// A supplied frame buffer does not have exactly [`BUFFER_SIZE`] bytes.
    SizeMismatch,
    /// The requested capability does not exist on this panel variant.
    Unsupported,
}

/// Waveform lookup-table selection requested through [`Epd4in2bV2::set_lut`].
#[derive(Clone, Copy, Debug, PartialEq, Eq, Structural)]
pub enum RefreshLut {
    /// Full refresh waveform.
    Full,
    /// Quick refresh waveform.
    Quick,
}

/// Driver for the 4.2-inch black/white/chromatic panel, module B, second
/// hardware generation.
///
/// `flag` selects the controller revision: `1` for the second revision,
/// `0` (the default) for the first. It must be set before the
/// initialization sequence is performed; changing it afterwards leaves the
/// hardware configured for the other revision until the panel is reset and
/// initialized again.
pub struct Epd4in2bV2 {
    /// Controller revision flag, `0` or `1`.
    pub flag: u8,
    /// Background color used by higher-level clear helpers.
    pub color: TriColor,
}

impl Epd4in2bV2 {
    /// Builds a driver with the default revision and background color, and
    /// returns it together with the initialization sequence that must be
    /// performed before anything else.
    pub fn new() -> (r: (Epd4in2bV2, Vec<BusOp>))
        ensures
            r.0.flag == 0,
            r.0.color == DEFAULT_BACKGROUND_COLOR,
            r.1@ == init_ops(0),
    {
        let mut epd = Epd4in2bV2 { flag: 0, color: DEFAULT_BACKGROUND_COLOR };
        let ops = epd.init();
        (epd, ops)
    }

    /// Builds a driver with an explicit revision flag (any value other than
    /// `1` selects the default revision), together with its initialization
    /// sequence.
    pub fn new_with_flag(flag: u8) -> (r: (Epd4in2bV2, Vec<BusOp>))
        ensures
            r.0.flag == (if flag == 1 { 1u8 } else { 0u8 }),
            r.0.color == DEFAULT_BACKGROUND_COLOR,
            r.1@ == init_ops(r.0.flag),
    {
        let mut epd = Epd4in2bV2 {
            flag: if flag == 1 { 1 } else { 0 },
            color: DEFAULT_BACKGROUND_COLOR,
        };
        let ops = epd.init();
        (epd, ops)
    }

    /// The initialization sequence for the configured revision: reset
    /// pulse, chip-identification read request (the response is not acted
    /// on; the configured revision stays), then the revision's register
    /// setup interleaved with the documented waits.
    pub fn init(&mut self) -> (ops: Vec<BusOp>)
        ensures
            *final(self) == *old(self),
            ops@ == init_ops(old(self).flag),
    {
        let mut ops: Vec<BusOp> = Vec::new();
        ops.push(BusOp::Reset(200_000, 5_000));
        ops.push(BusOp::DelayMs(200));
        push_command(&mut ops, Command::ReadId);
        ops.push(BusOp::DelayMs(100));
        if self.flag == 1 {
            ops.push(BusOp::WaitUntilIdle(false));
            push_command(&mut ops, Command::DisplayRefresh);
            ops.push(BusOp::WaitUntilIdle(false));
            push_command(&mut ops, Command::BorderWaveformControl);
            ops.push(BusOp::DataByte(0x05));
            push_command(&mut ops, Command::Xon);
            ops.push(BusOp::DataByte(0x80));
            push_command(&mut ops, Command::DataEntryMode);
            ops.push(BusOp::DataByte(0x03));
            push_command(&mut ops, Command::SetRamXAddressStartEndPosition);
            ops.push(BusOp::DataByte(0x00));
            ops.push(BusOp::DataByte((WIDTH / 8 - 1) as u8));
            push_command(&mut ops, Command::SetRamYAddressStartEndPosition);
            ops.push(BusOp::DataByte(0x00));
            ops.push(BusOp::DataByte(0x00));
            ops.push(BusOp::DataByte(((HEIGHT - 1) % 256) as u8));
            ops.push(BusOp::DataByte(((HEIGHT - 1) / 256) as u8));
            push_command(&mut ops, Command::SetRamXAddressCounter);
            ops.push(BusOp::DataByte(0x00));
            push_command(&mut ops, Command::SetRamYAddressCounter);
            ops.push(BusOp::DataByte(0x00));
            ops.push(BusOp::DataByte(0x00));
            ops.push(BusOp::WaitUntilIdle(false));
            proof {
                assert(ops@ =~= init_ops(self.flag));
            }
        } else {
            push_command(&mut ops, Command::PowerOn);
            ops.push(BusOp::WaitUntilIdle(true));
            push_command(&mut ops, Command::PanelSetting);
            ops.push(BusOp::DataByte(0x0F));
            proof {
                assert(ops@ =~= init_ops(self.flag));
            }
        }
        ops
    }

    /// The sleep sequence for the configured revision, ending with the
    /// fixed settle delay. The panel then needs [`Epd4in2bV2::wake_up`]
    /// before further use.
    pub fn sleep(&mut self) -> (ops: Vec<BusOp>)
        ensures
            *final(self) == *old(self),
            ops@ == sleep_ops(old(self).flag),
    {
        let mut ops: Vec<BusOp> = Vec::new();
        if self.flag == 1 {
            push_command(&mut ops, Command::DataStartTransmission1);
            ops.push(BusOp::DataByte(0x03));
        } else {
            push_command(&mut ops, Command::VcomAndDataIntervalSetting);
            ops.push(BusOp::DataByte(0xF7));
            push_command(&mut ops, Command::PowerOff);
            ops.push(BusOp::WaitUntilIdle(true));
            push_command(&mut ops, Command::DeepSleep);
            ops.push(BusOp::DataByte(0xA5));
        }
        ops.push(BusOp::DelayMs(2000));
        proof {
            assert(ops@ =~= sleep_ops(self.flag));
        }
        ops
    }

    /// Wakes the panel from deep sleep by running the full initialization
    /// sequence again, reset pulse included.
    pub fn wake_up(&mut self) -> (ops: Vec<BusOp>)
        ensures
            *final(self) == *old(self),
            ops@ == init_ops(old(self).flag),
    {
        self.init()
    }

    /// Selects the controller revision: `1` for the second revision, any
    /// other value for the first. Takes effect only for sequences computed
    /// afterwards; the hardware follows once the initialization sequence is
    /// performed again.
    pub fn set_flag(&mut self, flag: u8)
        ensures
            final(self).flag == (if flag == 1 { 1u8 } else { 0u8 }),
            final(self).color == old(self).color,
    {
        self.flag = if flag == 1 { 1 } else { 0 };
    }

    /// Returns the configured revision flag.
    pub fn get_flag(&self) -> (flag: u8)
        ensures
            flag == self.flag,
    {
        self.flag
    }

    /// Sets the background color used by higher-level clear helpers.
    pub fn set_background_color(&mut self, color: TriColor)
        ensures
            final(self).color == color,
            final(self).flag == old(self).flag,
    {
        self.color = color;
    }

    /// Returns the configured background color.
    pub fn background_color(&self) -> (color: &TriColor)
        ensures
            *color == self.color,
    {
        &self.color
    }

    /// Width of the panel in pixels.
    pub fn width(&self) -> (w: u32)
        ensures
            w == WIDTH,
    {
        WIDTH
    }

    /// Height of the panel in pixels.
    pub fn height(&self) -> (h: u32)
        ensures
            h == HEIGHT,
    {
        HEIGHT
    }

    /// The wait-until-idle operation with the configured revision's busy
    /// polarity.
    pub fn wait_until_idle(&mut self) -> (ops: Vec<BusOp>)
        ensures
            *final(self) == *old(self),
            ops@ == seq![wait_idle_op(old(self).flag)],
    {
        let mut ops: Vec<BusOp> = Vec::new();
        ops.push(BusOp::WaitUntilIdle(self.flag != 1));
        ops
    }

    /// Decides from one busy-line reading whether the panel is still busy:
    /// under the first revision the wait loop continues while the line
    /// reads low, under the second while it reads high. The bus layer polls
    /// with this until it returns false.
    pub fn line_is_busy(&self, line_reads_high: bool) -> (busy: bool)
        ensures
            busy == (if self.flag == 1 {
                line_reads_high
            } else {
                !line_reads_high
            }),
    {
        if self.flag == 1 {
            line_reads_high
        } else {
            !line_reads_high
        }
    }

    /// Clears the panel's frame memory: after waiting until idle, fills the
    /// black plane with `0xFF` (all white) and the chromatic plane with
    /// `0x00` (no ink). Does not trigger a visible refresh by itself.
    pub fn clear_frame(&mut self) -> (ops: Vec<BusOp>)
        ensures
            *final(self) == *old(self),
            ops@ == clear_ops(old(self).flag),
    {
        let mut ops: Vec<BusOp> = Vec::new();
        ops.push(BusOp::WaitUntilIdle(self.flag != 1));
        if self.flag == 1 {
            push_command(&mut ops, Command::WriteRamBw);
            push_data_repeated(&mut ops, 0xFF, BUFFER_SIZE);
            push_command(&mut ops, Command::RedDataTransmission);
            push_data_repeated(&mut ops, 0x00, BUFFER_SIZE);
        } else {
            push_command(&mut ops, Command::DataStartTransmission1);
            push_data_repeated(&mut ops, 0xFF, BUFFER_SIZE);
            push_command(&mut ops, Command::DataStartTransmission2);
            push_data_repeated(&mut ops, 0x00, BUFFER_SIZE);
        }
        proof {
            assert(ops@ =~= clear_ops(self.flag));
        }
        ops
    }

    /// Transmits a full two-plane frame: the black plane byte-for-byte and
    /// the chromatic plane with every byte bitwise-complemented (the
    /// panel's chromatic plane is active-low). Both buffers must hold
    /// exactly [`BUFFER_SIZE`] bytes; on a mismatch nothing is transmitted
    /// and the call fails with [`EpdError::SizeMismatch`].
    pub fn update_color_frame(&mut self, black: &[u8], chromatic: &[u8]) -> (r: Result<
        Vec<BusOp>,
        EpdError,
    >)
        ensures
            *final(self) == *old(self),
            (black@.len() == BUFFER_SIZE && chromatic@.len() == BUFFER_SIZE) ==> (r matches Ok(ops)
                && ops@ == color_frame_ops(old(self).flag, black@, chromatic@)),
            !(black@.len() == BUFFER_SIZE && chromatic@.len() == BUFFER_SIZE) ==> r == Err::<
                Vec<BusOp>,
                EpdError,
            >(EpdError::SizeMismatch),
    {
        if black.len() != BUFFER_SIZE || chromatic.len() != BUFFER_SIZE {
            return Err(EpdError::SizeMismatch);
        }
        let mut ops: Vec<BusOp> = Vec::new();
        ops.push(BusOp::WaitUntilIdle(self.flag != 1));
        if self.flag == 1 {
            push_command(&mut ops, Command::WriteRamBw);
            push_data(&mut ops, black);
            push_command(&mut ops, Command::RedDataTransmission);
            push_data_complemented(&mut ops, chromatic);
        } else {
            push_command(&mut ops, Command::DataStartTransmission1);
            push_data(&mut ops, black);
            push_command(&mut ops, Command::DataStartTransmission2);
            push_data_complemented(&mut ops, chromatic);
        }
        proof {
            assert(ops@ =~= color_frame_ops(self.flag, black@, chromatic@));
        }
        Ok(ops)
    }

    /// Transmits one buffer as both planes, as
    /// [`Epd4in2bV2::update_color_frame`] with the buffer twice.
    pub fn update_frame(&mut self, buffer: &[u8]) -> (r: Result<Vec<BusOp>, EpdError>)
        ensures
            *final(self) == *old(self),
            buffer@.len() == BUFFER_SIZE ==> (r matches Ok(ops) && ops@ == color_frame_ops(
                old(self).flag,
                buffer@,
                buffer@,
            )),
            buffer@.len() != BUFFER_SIZE ==> r == Err::<Vec<BusOp>, EpdError>(
                EpdError::SizeMismatch,
            ),
    {
        self.update_color_frame(buffer, buffer)
    }

    /// Transmits a chromatic-only frame: the black plane filled with `0xFF`
    /// (all white), then the chromatic plane complemented. The same size
    /// rule applies as for [`Epd4in2bV2::update_color_frame`].
    pub fn update_chromatic_frame(&mut self, chromatic: &[u8]) -> (r: Result<Vec<BusOp>, EpdError>)
        ensures
            *final(self) == *old(self),
            chromatic@.len() == BUFFER_SIZE ==> (r matches Ok(ops) && ops@ == chromatic_frame_ops(
                old(self).flag,
                chromatic@,
            )),
            chromatic@.len() != BUFFER_SIZE ==> r == Err::<Vec<BusOp>, EpdError>(
                EpdError::SizeMismatch,
            ),
    {
        if chromatic.len() != BUFFER_SIZE {
            return Err(EpdError::SizeMismatch);
        }
        let mut ops: Vec<BusOp> = Vec::new();
        ops.push(BusOp::WaitUntilIdle(self.flag != 1));
        if self.flag == 1 {
            push_command(&mut ops, Command::WriteRamBw);
            push_data_repeated(&mut ops, 0xFF, BUFFER_SIZE);
            push_command(&mut ops, Command::RedDataTransmission);
            push_data_complemented(&mut ops, chromatic);
        } else {
            push_command(&mut ops, Command::DataStartTransmission1);
            push_data_repeated(&mut ops, 0xFF, BUFFER_SIZE);
            push_command(&mut ops, Command::DataStartTransmission2);
            push_data_complemented(&mut ops, chromatic);
        }
        proof {
            assert(ops@ =~= chromatic_frame_ops(self.flag, chromatic@));
        }
        Ok(ops)
    }

    /// Transmits a black-only frame: the black plane byte-for-byte, then
    /// the chromatic plane filled with `0x00` (no ink). The same size rule
    /// applies as for [`Epd4in2bV2::update_color_frame`].
    pub fn update_achromatic_frame(&mut self, black: &[u8]) -> (r: Result<Vec<BusOp>, EpdError>)
        ensures
            *final(self) == *old(self),
            black@.len() == BUFFER_SIZE ==> (r matches Ok(ops) && ops@ == achromatic_frame_ops(
                old(self).flag,
                black@,
            )),
            black@.len() != BUFFER_SIZE ==> r == Err::<Vec<BusOp>, EpdError>(
                EpdError::SizeMismatch,
            ),
    {
        if black.len() != BUFFER_SIZE {
            return Err(EpdError::SizeMismatch);
        }
        let mut ops: Vec<BusOp> = Vec::new();
        ops.push(BusOp::WaitUntilIdle(self.flag != 1));
        if self.flag == 1 {
            push_command(&mut ops, Command::WriteRamBw);
            push_data(&mut ops, black);
            push_command(&mut ops, Command::RedDataTransmission);
            push_data_repeated(&mut ops, 0x00, BUFFER_SIZE);
        } else {
            push_command(&mut ops, Command::DataStartTransmission1);
            push_data(&mut ops, black);
            push_command(&mut ops, Command::DataStartTransmission2);
            push_data_repeated(&mut ops, 0x00, BUFFER_SIZE);
        }
        proof {
            assert(ops@ =~= achromatic_frame_ops(self.flag, black@));
        }
        Ok(ops)
    }

    /// Partial-region refresh is not supported by this panel variant and is
    /// rejected rather than emulated.
    pub fn update_partial_frame(
        &mut self,
        _buffer: &[u8],
        _x: u32,
        _y: u32,
        _width: u32,
        _height: u32,
    ) -> (r: Result<Vec<BusOp>, EpdError>)
        ensures
            *final(self) == *old(self),
            r == Err::<Vec<BusOp>, EpdError>(EpdError::Unsupported),
    {
        Err(EpdError::Unsupported)
    }

    /// Triggers the visible refresh of the frame memory transmitted before.
    pub fn display_frame(&mut self) -> (ops: Vec<BusOp>)
        ensures
            *final(self) == *old(self),
            ops@ == refresh_ops(old(self).flag),
    {
        self.turn_on_display()
    }

    /// The turn-on recipe of the configured revision.
    fn turn_on_display(&self) -> (ops: Vec<BusOp>)
        ensures
            ops@ == refresh_ops(self.flag),
    {
        let mut ops: Vec<BusOp> = Vec::new();
        if self.flag == 1 {
            push_command(&mut ops, Command::DisplayUpdateControl2);
            ops.push(BusOp::DataByte(0xF7));
            push_command(&mut ops, Command::MasterActivation);
            ops.push(BusOp::WaitUntilIdle(false));
        } else {
            push_command(&mut ops, Command::DisplayRefresh);
            ops.push(BusOp::DelayMs(100));
            ops.push(BusOp::WaitUntilIdle(true));
        }
        proof {
            assert(ops@ =~= refresh_ops(self.flag));
        }
        ops
    }

    /// Transmits one buffer as both planes, then triggers the refresh, in
    /// that order with no interleaving.
    pub fn update_and_display_frame(&mut self, buffer: &[u8]) -> (r: Result<Vec<BusOp>, EpdError>)
        ensures
            *final(self) == *old(self),
            buffer@.len() == BUFFER_SIZE ==> (r matches Ok(ops) && ops@ == color_frame_ops(
                old(self).flag,
                buffer@,
                buffer@,
            ) + refresh_ops(old(self).flag)),
            buffer@.len() != BUFFER_SIZE ==> r == Err::<Vec<BusOp>, EpdError>(
                EpdError::SizeMismatch,
            ),
    {
        let mut ops = match self.update_frame(buffer) {
            Ok(ops) => ops,
            Err(e) => {
                return Err(e);
            },
        };
        let mut more = self.display_frame();
        ops.append(&mut more);
        Ok(ops)
    }

    /// This panel variant ignores LUT/waveform selection: the call is a
    /// deliberate no-op that succeeds without issuing any bus operation.
    pub fn set_lut(&mut self, _refresh_rate: Option<RefreshLut>) -> (ops: Vec<BusOp>)
        ensures
            *final(self) == *old(self),
            ops@ == Seq::<BusOp>::empty(),
    {
        Vec::new()
    }
}

} // verus!
