use epd4in2b_v2::Epd4in2bV2;
use epd4in2b_v2::EpdError;
use epd4in2b_v2::bus::BusOp;

const PLANE: usize = 15000;

fn trace_opcodes(ops: &[BusOp]) -> Vec<u8> {
    let mut out = Vec::new();
    for op in ops {
        if let BusOp::Command(c) = op {
            out.push(*c);
        }
    }
    out
}

#[test]
fn init_sequence_first_revision() {
    let (_epd, ops) = Epd4in2bV2::new();
    assert_eq!(
        ops,
        vec![
            BusOp::Reset(200_000, 5_000),
            BusOp::DelayMs(200),
            BusOp::Command(0x2F),
            BusOp::DelayMs(100),
            BusOp::Command(0x04),
            BusOp::WaitUntilIdle(true),
            BusOp::Command(0x00),
            BusOp::DataByte(0x0F),
        ]
    );
}

#[test]
fn init_sequence_second_revision() {
    let (_epd, ops) = Epd4in2bV2::new_with_flag(1);
    assert_eq!(
        ops,
        vec![
            BusOp::Reset(200_000, 5_000),
            BusOp::DelayMs(200),
            BusOp::Command(0x2F),
            BusOp::DelayMs(100),
            BusOp::WaitUntilIdle(false),
            BusOp::Command(0x12),
            BusOp::WaitUntilIdle(false),
            BusOp::Command(0x3C),
            BusOp::DataByte(0x05),
            BusOp::Command(0x18),
            BusOp::DataByte(0x80),
            BusOp::Command(0x11),
            BusOp::DataByte(0x03),
            BusOp::Command(0x44),
            BusOp::DataByte(0x00),
            BusOp::DataByte(0x31),
            BusOp::Command(0x45),
            BusOp::DataByte(0x00),
            BusOp::DataByte(0x00),
            BusOp::DataByte(0x2B),
            BusOp::DataByte(0x01),
            BusOp::Command(0x4E),
            BusOp::DataByte(0x00),
            BusOp::Command(0x4F),
            BusOp::DataByte(0x00),
            BusOp::DataByte(0x00),
            BusOp::WaitUntilIdle(false),
        ]
    );
}

#[test]
fn wake_up_repeats_initialization() {
    let (mut epd, init_ops) = Epd4in2bV2::new();
    let wake_ops = epd.wake_up();
    assert_eq!(wake_ops, init_ops);
    let (mut epd1, init_ops1) = Epd4in2bV2::new_with_flag(1);
    let wake_ops1 = epd1.wake_up();
    assert_eq!(wake_ops1, init_ops1);
}

#[test]
fn sleep_sequence_first_revision() {
    let (mut epd, _ops) = Epd4in2bV2::new();
    assert_eq!(
        epd.sleep(),
        vec![
            BusOp::Command(0x50),
            BusOp::DataByte(0xF7),
            BusOp::Command(0x02),
            BusOp::WaitUntilIdle(true),
            BusOp::Command(0x07),
            BusOp::DataByte(0xA5),
            BusOp::DelayMs(2000),
        ]
    );
}

#[test]
fn sleep_sequence_second_revision() {
    let (mut epd, _ops) = Epd4in2bV2::new_with_flag(1);
    assert_eq!(
        epd.sleep(),
        vec![
            BusOp::Command(0x10),
            BusOp::DataByte(0x03),
            BusOp::DelayMs(2000),
        ]
    );
}

#[test]
fn display_frame_sequences() {
    let (mut epd0, _ops) = Epd4in2bV2::new();
    assert_eq!(
        epd0.display_frame(),
        vec![
            BusOp::Command(0x12),
            BusOp::DelayMs(100),
            BusOp::WaitUntilIdle(true),
        ]
    );
    let (mut epd1, _ops) = Epd4in2bV2::new_with_flag(1);
    assert_eq!(
        epd1.display_frame(),
        vec![
            BusOp::Command(0x22),
            BusOp::DataByte(0xF7),
            BusOp::Command(0x20),
            BusOp::WaitUntilIdle(false),
        ]
    );
}

#[test]
fn update_and_display_frame_appends_refresh() {
    let (mut epd, _ops) = Epd4in2bV2::new();
    let buffer = vec![0x5Au8; PLANE];
    let combined = epd.update_and_display_frame(&buffer).unwrap();
    let update = epd.update_frame(&buffer).unwrap();
    let refresh = epd.display_frame();
    let mut expected = update.clone();
    expected.extend(refresh);
    assert_eq!(combined, expected);
    assert_eq!(
        epd.update_and_display_frame(&buffer[..1]),
        Err(EpdError::SizeMismatch)
    );
}

#[test]
fn default_session_trace() {
    // Construct with the default revision, clear, refresh, sleep: the
    // documented end-to-end wire trace.
    let (mut epd, _init) = Epd4in2bV2::new();
    let mut trace = epd.clear_frame();
    trace.extend(epd.display_frame());
    trace.extend(epd.sleep());

    assert_eq!(trace.len(), 3 + 2 * PLANE + 3 + 7);
    assert_eq!(trace[0], BusOp::WaitUntilIdle(true));
    assert_eq!(trace[1], BusOp::Command(0x10));
    for i in 0..PLANE {
        assert_eq!(trace[2 + i], BusOp::DataByte(0xFF));
    }
    assert_eq!(trace[2 + PLANE], BusOp::Command(0x13));
    for i in 0..PLANE {
        assert_eq!(trace[3 + PLANE + i], BusOp::DataByte(0x00));
    }
    assert_eq!(
        &trace[3 + 2 * PLANE..],
        &[
            BusOp::Command(0x12),
            BusOp::DelayMs(100),
            BusOp::WaitUntilIdle(true),
            BusOp::Command(0x50),
            BusOp::DataByte(0xF7),
            BusOp::Command(0x02),
            BusOp::WaitUntilIdle(true),
            BusOp::Command(0x07),
            BusOp::DataByte(0xA5),
            BusOp::DelayMs(2000),
        ]
    );
    assert_eq!(
        trace_opcodes(&trace),
        vec![0x10, 0x13, 0x12, 0x50, 0x02, 0x07]
    );
}
