use thermal_printer::commands::{
    encode_bold, encode_configure, encode_feed, encode_justify, encode_self_test_tail,
    encode_underline,
};
use thermal_printer::{Command, Dialect, Justification, MockTransport, ThermalPrinter, Transport};

#[test]
fn command_codes_match_firmware_values() {
    assert_eq!(Command::ESC.code(), 27);
    assert_eq!(Command::DC2.code(), 18);
    assert_eq!(Command::LF.code(), 10);
    assert_eq!(Command::DASH.code(), 45);
    assert_eq!(Command::EXCL.code(), 69);
    assert_eq!(Command::SPACE.code(), 0x20);
}

#[test]
fn justification_codes_are_exhaustive() {
    assert_eq!(Justification::Left.code(), 0);
    assert_eq!(Justification::Center.code(), 1);
    assert_eq!(Justification::Right.code(), 2);
}

#[test]
fn encoders_build_tabulated_layouts() {
    assert_eq!(encode_configure(11, 120, 40), vec![27, 55, 11, 120, 40]);
    assert_eq!(encode_justify(Justification::Center), vec![27, 0x61, 1]);
    assert_eq!(encode_feed(Dialect::Parameterized, 3), vec![27, b'd', 3]);
    assert_eq!(encode_feed(Dialect::RepeatedLf, 3), vec![10, 10, 10]);
    assert_eq!(encode_underline(2), vec![27, 45, 2]);
    assert_eq!(encode_bold(true), vec![27, 69, 1]);
    assert_eq!(encode_bold(false), vec![27, 69, 0]);
    assert_eq!(encode_self_test_tail(), vec![18, b'T']);
}

#[test]
fn new_printer_has_documented_defaults() {
    let p = ThermalPrinter::new(MockTransport::new());
    assert_eq!(p.dialect(), Dialect::Parameterized);
    assert_eq!(p.dot_print_time(), 30000);
    assert_eq!(p.dot_feed_time(), 2100);
}

#[test]
fn configure_writes_exact_bytes_and_flushes_once() {
    let mut p = ThermalPrinter::new(MockTransport::new());
    assert_eq!(p.configure(11, 120, 40), Ok(()));
    let m = p.free();
    assert_eq!(m.written(), &vec![27, 55, 11, 120, 40]);
    assert_eq!(m.flush_total(), 1);
}

#[test]
fn justify_center_emits_code_one() {
    let mut p = ThermalPrinter::new(MockTransport::new());
    assert_eq!(p.justify(Justification::Center), Ok(()));
    let m = p.free();
    assert_eq!(m.written(), &vec![27, 0x61, 1]);
    assert_eq!(m.flush_total(), 1);
}

#[test]
fn justify_left_emits_code_zero() {
    let mut p = ThermalPrinter::new(MockTransport::new());
    assert_eq!(p.justify(Justification::Left), Ok(()));
    assert_eq!(p.free().written(), &vec![27, 0x61, 0]);
}

#[test]
fn justify_right_emits_code_two() {
    let mut p = ThermalPrinter::new(MockTransport::new());
    assert_eq!(p.justify(Justification::Right), Ok(()));
    assert_eq!(p.free().written(), &vec![27, 0x61, 2]);
}

#[test]
fn feed_is_a_one_line_feed() {
    let mut p = ThermalPrinter::new(MockTransport::new());
    assert_eq!(p.feed(), Ok(()));
    let m = p.free();
    assert_eq!(m.written(), &vec![27, b'd', 1]);
    assert_eq!(m.flush_total(), 1);
}

#[test]
fn feed_n_parameterized_emits_single_command() {
    let mut p = ThermalPrinter::new(MockTransport::new());
    assert_eq!(p.feed_n(3), Ok(()));
    assert_eq!(p.free().written(), &vec![27, b'd', 3]);
}

#[test]
fn feed_n_repeated_lf_emits_n_line_feeds() {
    let mut p = ThermalPrinter::new(MockTransport::new());
    p.set_dialect(Dialect::RepeatedLf);
    assert_eq!(p.feed_n(3), Ok(()));
    let m = p.free();
    assert_eq!(m.written(), &vec![10, 10, 10]);
    assert_eq!(m.flush_total(), 1);
}

#[test]
fn feed_zero_parameterized_emits_zero_command_and_one_flush() {
    let mut p = ThermalPrinter::new(MockTransport::new());
    assert_eq!(p.feed_n(0), Ok(()));
    let m = p.free();
    assert_eq!(m.written(), &vec![27, b'd', 0]);
    assert_eq!(m.flush_total(), 1);
}

#[test]
fn feed_zero_repeated_lf_emits_no_bytes_and_one_flush() {
    let mut p = ThermalPrinter::new(MockTransport::new());
    p.set_dialect(Dialect::RepeatedLf);
    assert_eq!(p.feed_n(0), Ok(()));
    let m = p.free();
    assert_eq!(m.written(), &Vec::<u8>::new());
    assert_eq!(m.flush_total(), 1);
}

#[test]
fn set_underline_emits_weight_byte() {
    let mut p = ThermalPrinter::new(MockTransport::new());
    assert_eq!(p.set_underline(2), Ok(()));
    assert_eq!(p.set_underline(0), Ok(()));
    let m = p.free();
    assert_eq!(m.written(), &vec![27, 45, 2, 27, 45, 0]);
    assert_eq!(m.flush_total(), 2);
}

#[test]
fn set_bold_emits_flag_byte() {
    let mut p = ThermalPrinter::new(MockTransport::new());
    assert_eq!(p.set_bold(true), Ok(()));
    assert_eq!(p.set_bold(false), Ok(()));
    let m = p.free();
    assert_eq!(m.written(), &vec![27, 69, 1, 27, 69, 0]);
    assert_eq!(m.flush_total(), 2);
}

#[test]
fn run_test_centers_first_then_triggers_self_test() {
    let mut p = ThermalPrinter::new(MockTransport::new());
    assert_eq!(p.run_test(), Ok(()));
    let m = p.free();
    assert_eq!(m.written(), &vec![27, 0x61, 1, 18, b'T']);
    assert_eq!(m.flush_total(), 2);
}

#[test]
fn sequential_operations_concatenate_whole_commands() {
    let mut p = ThermalPrinter::new(MockTransport::new());
    assert_eq!(p.feed(), Ok(()));
    assert_eq!(p.feed(), Ok(()));
    let m = p.free();
    assert_eq!(m.written(), &vec![27, b'd', 1, 27, b'd', 1]);
    assert_eq!(m.flush_total(), 2);
}

#[test]
fn free_returns_transport_unchanged_and_usable() {
    let mut p = ThermalPrinter::new(MockTransport::new());
    assert_eq!(p.set_bold(true), Ok(()));
    let mut m = p.free();
    assert_eq!(m.written(), &vec![27, 69, 1]);
    assert_eq!(m.flush_total(), 1);
    assert_eq!(m.write_byte(65), Ok(()));
    assert_eq!(m.flush(), Ok(()));
    assert_eq!(m.written(), &vec![27, 69, 1, 65]);
    assert_eq!(m.flush_total(), 2);
}

#[test]
fn printer_is_itself_a_transport() {
    let mut p = ThermalPrinter::new(MockTransport::new());
    assert_eq!(p.write_byte(7), Ok(()));
    assert_eq!(p.flush(), Ok(()));
    let m = p.free();
    assert_eq!(m.written(), &vec![7]);
    assert_eq!(m.flush_total(), 1);
}
