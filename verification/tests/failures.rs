use thermal_printer::{Dialect, Justification, MockError, MockTransport, ThermalPrinter};

#[test]
fn failure_on_second_byte_stops_the_command_there() {
    let mut p = ThermalPrinter::new(MockTransport::failing_from(1));
    assert_eq!(p.set_bold(true), Err(MockError));
    let m = p.free();
    assert_eq!(m.written(), &vec![27]);
    assert_eq!(m.flush_total(), 0);
}

#[test]
fn failure_on_first_byte_writes_nothing() {
    let mut p = ThermalPrinter::new(MockTransport::failing_from(0));
    assert_eq!(p.justify(Justification::Center), Err(MockError));
    let m = p.free();
    assert_eq!(m.written(), &Vec::<u8>::new());
    assert_eq!(m.flush_total(), 0);
}

#[test]
fn failure_on_last_byte_keeps_the_written_prefix() {
    let mut p = ThermalPrinter::new(MockTransport::failing_from(4));
    assert_eq!(p.configure(11, 120, 40), Err(MockError));
    let m = p.free();
    assert_eq!(m.written(), &vec![27, 55, 11, 120]);
    assert_eq!(m.flush_total(), 0);
}

#[test]
fn run_test_still_centers_first_when_the_tail_fails() {
    let mut p = ThermalPrinter::new(MockTransport::failing_from(4));
    assert_eq!(p.run_test(), Err(MockError));
    let m = p.free();
    assert_eq!(m.written(), &vec![27, 0x61, 1, 18]);
    assert_eq!(m.flush_total(), 1);
}

#[test]
fn run_test_writes_nothing_past_a_failure_in_the_centering() {
    let mut p = ThermalPrinter::new(MockTransport::failing_from(2));
    assert_eq!(p.run_test(), Err(MockError));
    let m = p.free();
    assert_eq!(m.written(), &vec![27, 0x61]);
    assert_eq!(m.flush_total(), 0);
}

#[test]
fn flush_failure_surfaces_after_a_fully_written_command() {
    let mut p = ThermalPrinter::new(MockTransport::failing_flush());
    assert_eq!(p.set_bold(true), Err(MockError));
    let m = p.free();
    assert_eq!(m.written(), &vec![27, 69, 1]);
    assert_eq!(m.flush_total(), 0);
}

#[test]
fn repeated_lf_feed_stops_at_the_failing_line() {
    let mut p = ThermalPrinter::new(MockTransport::failing_from(2));
    p.set_dialect(Dialect::RepeatedLf);
    assert_eq!(p.feed_n(5), Err(MockError));
    let m = p.free();
    assert_eq!(m.written(), &vec![10, 10]);
    assert_eq!(m.flush_total(), 0);
}

#[test]
fn a_failed_operation_does_not_poison_the_next_one() {
    let mut p = ThermalPrinter::new(MockTransport::failing_from(1));
    assert_eq!(p.set_bold(true), Err(MockError));
    assert_eq!(p.feed(), Err(MockError));
    let m = p.free();
    assert_eq!(m.written(), &vec![27]);
    assert_eq!(m.flush_total(), 0);
}
