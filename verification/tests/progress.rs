use par::{finish_text, Bar, Error, Reporter, Sink, Units};
use std::cell::RefCell;
use std::io::Cursor;
use std::rc::Rc;

fn quiet_bar(total: usize) -> Bar {
    let mut bar = Bar::new(total).unwrap();
    bar.reporter = Reporter::Suppressed;
    bar
}

#[test]
fn zero_total_is_rejected() {
    let r = Bar::new(0);
    assert!(matches!(r, Err(Error::ZeroTotal)));
}

#[test]
fn new_bar_defaults() {
    let bar = Bar::new(100).unwrap();
    assert_eq!(bar.current(), 0);
    assert_eq!(bar.total(), 100);
    assert!(bar.show_percent);
    assert!(bar.show_counter);
    assert!(bar.show_bar);
    assert_eq!(bar.prefix, "");
    assert_eq!(bar.units, Units::Plain);
    assert!(matches!(bar.reporter, Reporter::StdErr));
}

#[test]
fn add_returns_previous_value() {
    let mut bar = quiet_bar(100);
    assert_eq!(bar.add(30), 0);
    assert_eq!(bar.add(20), 30);
    assert_eq!(bar.current(), 50);
}

#[test]
fn incr_adds_one() {
    let mut bar = quiet_bar(100);
    assert_eq!(bar.incr(), 0);
    assert_eq!(bar.incr(), 1);
    assert_eq!(bar.current(), 2);
}

#[test]
fn set_moves_counter_both_ways() {
    let mut bar = quiet_bar(100);
    bar.set(70);
    assert_eq!(bar.current(), 70);
    bar.set(10);
    assert_eq!(bar.current(), 10);
}

#[test]
fn percent_renders_two_decimals() {
    let mut bar = quiet_bar(100);
    assert_eq!(bar.percent_completed_str(), " 0.00 %");
    bar.set(1);
    assert_eq!(bar.percent_completed_str(), " 1.00 %");
    bar.set(50);
    assert_eq!(bar.percent_completed_str(), " 50.00 %");
    bar.set(100);
    assert_eq!(bar.percent_completed_str(), " 100.00 %");
    let mut thirds = quiet_bar(3);
    thirds.set(2);
    assert_eq!(thirds.percent_completed_str(), " 66.67 %");
}

#[test]
fn counter_in_plain_units() {
    let mut bar = quiet_bar(100);
    bar.set(50);
    assert_eq!(bar.counter_str(), "50 / 100 ");
}

#[test]
fn counter_in_byte_units() {
    let mut bar = quiet_bar(512);
    bar.units = Units::Bytes;
    bar.set(100);
    assert_eq!(bar.counter_str(), "100B / 512B ");
    let mut big = quiet_bar(4096);
    big.units = Units::Bytes;
    big.set(2048);
    assert_eq!(big.counter_str(), "2.0K / 4.0K ");
}

#[test]
fn bar_at_zero_has_no_fill_and_no_leading_edge() {
    let mut bar = quiet_bar(100);
    bar.show_counter = false;
    bar.show_percent = false;
    let line = bar.render(20);
    assert_eq!(line, "[_________________] ");
    assert!(!line.contains('='));
    assert!(!line.contains('>'));
}

#[test]
fn bar_at_zero_with_counter_and_percent() {
    let mut bar = quiet_bar(100);
    let line = bar.render(20);
    assert_eq!(line, "0 / 100 [__] 0.00 % ");
    bar.set(0);
    assert_eq!(bar.render(20), "0 / 100 [__] 0.00 % ");
}

#[test]
fn bar_at_total_is_all_fill() {
    let mut bar = quiet_bar(100);
    bar.show_counter = false;
    bar.show_percent = false;
    bar.set(100);
    let line = bar.render(20);
    assert_eq!(line, "[=================] ");
    assert!(!line.contains('>'));
    assert!(!line.contains('_'));
}

#[test]
fn bar_midway_shows_leading_edge() {
    let mut bar = quiet_bar(4);
    bar.show_counter = false;
    bar.show_percent = false;
    bar.format("{=>-}").unwrap();
    bar.set(2);
    let line = bar.render(10);
    assert_eq!(line, "{===>---} ");
}

#[test]
fn narrow_terminal_omits_the_bar() {
    let bar = quiet_bar(100);
    let line = bar.render(5);
    assert_eq!(line, "0 / 100  0.00 %");
    assert!(!line.contains('['));
}

#[test]
fn format_with_four_glyphs_is_rejected_and_retained() {
    let mut bar = quiet_bar(100);
    bar.show_counter = false;
    bar.show_percent = false;
    let before = bar.render(20);
    let r = bar.format("[=>]");
    assert!(matches!(r, Err(Error::InvalidFormatSpec)));
    assert_eq!(bar.render(20), before);
}

#[test]
fn format_with_five_glyphs_is_installed() {
    let mut bar = quiet_bar(100);
    assert!(bar.format("(-* )").is_ok());
    bar.show_counter = false;
    bar.show_percent = false;
    let line = bar.render(20);
    assert!(line.starts_with('('));
    assert!(line.trim_end().ends_with(')'));
    assert!(line.contains(' '));
}

#[test]
fn reader_reports_bytes_actually_returned() {
    let data: Vec<u8> = (0u8..10).collect();
    let bar = quiet_bar(10);
    let mut reader = par::Reader::new(Cursor::new(data), bar);
    let mut buf = [0u8; 4];
    assert_eq!(reader.read(&mut buf).unwrap(), 4);
    assert_eq!(reader.bar().current(), 4);
    assert_eq!(reader.read(&mut buf).unwrap(), 4);
    assert_eq!(reader.bar().current(), 8);
    // the stream has only two bytes left: the delta is what was
    // returned, not the buffer capacity
    assert_eq!(reader.read(&mut buf).unwrap(), 2);
    assert_eq!(reader.bar().current(), 10);
    assert_eq!(reader.read(&mut buf).unwrap(), 0);
    assert_eq!(reader.bar().current(), 10);
}

struct HalfTaker;

impl std::io::Write for HalfTaker {
    fn write(&mut self, buf: &[u8]) -> std::io::Result<usize> {
        Ok(buf.len() / 2)
    }
    fn flush(&mut self) -> std::io::Result<()> {
        Ok(())
    }
}

struct BrokenPipe;

impl std::io::Write for BrokenPipe {
    fn write(&mut self, _buf: &[u8]) -> std::io::Result<usize> {
        Err(std::io::Error::new(std::io::ErrorKind::BrokenPipe, "gone"))
    }
    fn flush(&mut self) -> std::io::Result<()> {
        Ok(())
    }
}

#[test]
fn writer_reports_requested_length() {
    let bar = quiet_bar(100);
    let mut writer = par::Writer::new(HalfTaker, bar);
    // the inner stream takes only half, progress counts what was offered
    assert_eq!(writer.write(&[7u8; 8]).unwrap(), 8);
    assert_eq!(writer.bar().current(), 8);
    assert_eq!(writer.write(&[7u8; 3]).unwrap(), 3);
    assert_eq!(writer.bar().current(), 11);
    assert!(writer.flush().is_ok());
    assert_eq!(writer.bar().current(), 11);
}

#[test]
fn writer_propagates_errors_without_progress() {
    let bar = quiet_bar(100);
    let mut writer = par::Writer::new(BrokenPipe, bar);
    let r = writer.write(&[1u8; 5]);
    assert!(r.is_err());
    assert_eq!(writer.bar().current(), 0);
}

#[test]
fn finish_message_stands_on_its_own_line() {
    assert_eq!(finish_text("done"), "\ndone\n");
    assert_eq!(finish_text(""), "\n\n");
}

#[test]
fn callback_reporter_receives_rendered_lines() {
    let seen: Rc<RefCell<Vec<String>>> = Rc::new(RefCell::new(Vec::new()));
    let sink_seen = Rc::clone(&seen);
    let mut bar = Bar::new(100).unwrap();
    bar.reporter = Reporter::Callback(Sink::new(move |line| {
        sink_seen.borrow_mut().push(line);
    }));
    bar.add(50);
    let lines = seen.borrow();
    assert_eq!(lines.len(), 1);
    assert!(lines[0].contains("50 / 100 "));
    assert!(lines[0].contains(" 50.00 %"));
    assert!(!lines[0].contains('\r'));
}

#[test]
fn no_redraw_past_the_total() {
    let seen: Rc<RefCell<Vec<String>>> = Rc::new(RefCell::new(Vec::new()));
    let sink_seen = Rc::clone(&seen);
    let mut bar = Bar::new(10).unwrap();
    bar.reporter = Reporter::Callback(Sink::new(move |line| {
        sink_seen.borrow_mut().push(line);
    }));
    bar.set(11);
    bar.update();
    assert_eq!(seen.borrow().len(), 0);
    assert_eq!(bar.current(), 11);
}

#[test]
fn end_to_end_halfway_render() {
    let mut bar = quiet_bar(100);
    assert_eq!(bar.add(50), 0);
    assert_eq!(bar.current(), 50);
    assert_eq!(bar.percent_completed_str(), " 50.00 %");
    let line = bar.render(80);
    assert_eq!(line.chars().count(), 80);
}

#[test]
fn setters_match_the_public_fields() {
    let mut bar = Bar::new(100).unwrap();
    bar.set_reporter(Reporter::Suppressed);
    assert!(matches!(bar.reporter, Reporter::Suppressed));
    bar.set_prefix(String::from("dl "));
    assert_eq!(bar.prefix, "dl ");
    bar.set_units(Units::Bytes);
    assert_eq!(bar.units, Units::Bytes);
    bar.set_show_percent(false);
    bar.set_show_counter(false);
    bar.set_show_bar(false);
    assert!(!bar.show_percent && !bar.show_counter && !bar.show_bar);
    bar.set(40);
    assert_eq!(bar.render(10), "dl        ");
}

#[test]
fn prefix_leads_the_line() {
    let mut bar = quiet_bar(100);
    bar.prefix = String::from("fetch ");
    bar.set(25);
    let line = bar.render(40);
    assert!(line.starts_with("fetch 25 / 100 ["));
    assert_eq!(line.chars().count(), 40);
}
