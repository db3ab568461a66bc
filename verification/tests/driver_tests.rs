use epd4in2b_v2::DEFAULT_BACKGROUND_COLOR;
use epd4in2b_v2::Epd4in2bV2;
use epd4in2b_v2::EpdError;
use epd4in2b_v2::RefreshLut;
use epd4in2b_v2::TriColor;
use epd4in2b_v2::bus::BusOp;
use epd4in2b_v2::buffer_len;
use epd4in2b_v2::HEIGHT;
use epd4in2b_v2::WIDTH;

#[test]
fn epd_size() {
    assert_eq!(WIDTH, 400);
    assert_eq!(HEIGHT, 300);
}

#[test]
fn graphics_size() {
    assert_eq!(buffer_len(WIDTH as usize, HEIGHT as usize * 2), 30000);
}

#[test]
fn default_background_color() {
    assert_eq!(DEFAULT_BACKGROUND_COLOR, TriColor::White);
}

#[test]
fn buffer_len_rounds_rows_up() {
    assert_eq!(buffer_len(400, 300), 15000);
    assert_eq!(buffer_len(1, 1), 1);
    assert_eq!(buffer_len(9, 2), 4);
    assert_eq!(buffer_len(0, 5), 0);
}

#[test]
fn revision_defaults_to_first() {
    let (epd, _ops) = Epd4in2bV2::new();
    assert_eq!(epd.get_flag(), 0);
}

#[test]
fn only_explicit_configuration_selects_second_revision() {
    let (epd0, _ops) = Epd4in2bV2::new_with_flag(0);
    assert_eq!(epd0.get_flag(), 0);
    let (epd1, _ops) = Epd4in2bV2::new_with_flag(1);
    assert_eq!(epd1.get_flag(), 1);
    // Any value other than 1 normalizes to the default revision.
    let (epd7, _ops) = Epd4in2bV2::new_with_flag(7);
    assert_eq!(epd7.get_flag(), 0);

    let (mut epd, _ops) = Epd4in2bV2::new();
    epd.set_flag(1);
    assert_eq!(epd.get_flag(), 1);
    epd.set_flag(255);
    assert_eq!(epd.get_flag(), 0);
}

#[test]
fn background_color_accessors() {
    let (mut epd, _ops) = Epd4in2bV2::new();
    assert_eq!(*epd.background_color(), TriColor::White);
    epd.set_background_color(TriColor::Chromatic);
    assert_eq!(*epd.background_color(), TriColor::Chromatic);
    epd.set_background_color(TriColor::Black);
    assert_eq!(*epd.background_color(), TriColor::Black);
}

#[test]
fn geometry_accessors() {
    let (epd, _ops) = Epd4in2bV2::new();
    assert_eq!(epd.width(), 400);
    assert_eq!(epd.height(), 300);
}

#[test]
fn busy_wait_polarity() {
    // First revision: the wait loop continues while the line reads low.
    let (epd0, _ops) = Epd4in2bV2::new();
    assert!(epd0.line_is_busy(false));
    assert!(!epd0.line_is_busy(true));
    // Second revision: the wait loop continues while the line reads high.
    let (epd1, _ops) = Epd4in2bV2::new_with_flag(1);
    assert!(epd1.line_is_busy(true));
    assert!(!epd1.line_is_busy(false));
}

#[test]
fn wait_until_idle_carries_polarity() {
    let (mut epd0, _ops) = Epd4in2bV2::new();
    assert_eq!(epd0.wait_until_idle(), vec![BusOp::WaitUntilIdle(true)]);
    let (mut epd1, _ops) = Epd4in2bV2::new_with_flag(1);
    assert_eq!(epd1.wait_until_idle(), vec![BusOp::WaitUntilIdle(false)]);
}

#[test]
fn partial_update_is_unsupported() {
    let (mut epd, _ops) = Epd4in2bV2::new();
    let buffer = [0u8; 16];
    let r = epd.update_partial_frame(&buffer, 0, 0, 8, 2);
    assert_eq!(r, Err(EpdError::Unsupported));
}

#[test]
fn set_lut_is_a_no_op() {
    let (mut epd, _ops) = Epd4in2bV2::new();
    assert_eq!(epd.set_lut(None), Vec::new());
    assert_eq!(epd.set_lut(Some(RefreshLut::Full)), Vec::new());
    assert_eq!(epd.set_lut(Some(RefreshLut::Quick)), Vec::new());
}
