use rak::{random_usize, LogBuffer, Plat, PrintError};

/// A sink that accepts nothing.
struct NullSink;

impl Plat for NullSink {
    fn log_line(&mut self, _line: &str) -> bool {
        false
    }
}

#[test]
fn bin_unit_test() {
    assert_ne!(2, 3);
}

#[test]
fn lib_unit_test() {
    assert_ne!(random_usize().unwrap(), random_usize().unwrap());
}

#[test]
fn log_buffer_collects_lines() {
    let mut buf = LogBuffer::new();
    assert!(buf.log_line("first"));
    assert!(buf.log_line("second"));
    assert_eq!(buf.lines().len(), 2);
    assert_eq!(buf.lines()[0], "first");
    assert_eq!(buf.lines()[1], "second");
}

#[test]
fn print_random_val_logs_an_element() {
    let mut buf = LogBuffer::new();
    rak::print_random_val(&mut buf, &[7, 7, 7]).unwrap();
    assert_eq!(buf.lines().len(), 1);
    assert_eq!(buf.lines()[0], "7");
}

#[test]
fn print_random_val_picks_from_slice() {
    let elems: [usize; 7] = [1, 2, 3, 4, 5, 6, 7];
    let mut buf = LogBuffer::new();
    for _ in 0..10 {
        rak::print_random_val(&mut buf, &elems).unwrap();
    }
    assert_eq!(buf.lines().len(), 10);
    for line in buf.lines() {
        let v: usize = line.parse().unwrap();
        assert!(elems.contains(&v));
    }
}

#[test]
fn hosted_integration_test() {
    let mut buf = LogBuffer::new();
    rak::print_random_val(&mut buf, &[42]).unwrap();
    assert_eq!(buf.lines().len(), 1);
    assert_eq!(buf.lines()[0], "42");
}

#[test]
fn word_assembly_little_endian() {
    assert_eq!(
        rak::word_from_le(&vec![0x01, 0x02, 0x03, 0x04, 0x05, 0x06, 0x07, 0x08]),
        0x0807_0605_0403_0201
    );
    assert_eq!(rak::word_from_le(&vec![0xff, 0, 0, 0, 0, 0, 0, 0]), 0xff);
    assert_eq!(
        rak::word_from_le(&vec![0, 0, 0, 0, 0, 0, 0, 0x80]),
        0x8000_0000_0000_0000
    );
}

#[test]
fn refusing_sink_reports_error() {
    let mut sink = NullSink;
    assert_eq!(
        rak::print_random_val(&mut sink, &[5]),
        Err(PrintError::Sink)
    );
    let tree = rak::paging::build_tree(0, &vec![0x1000], 0x2000);
    assert!(!rak::paging::log_tables(&mut sink, &tree));
}

#[test]
fn decimal_rendering() {
    assert_eq!(rak::numfmt::decimal_string(0), "0");
    assert_eq!(rak::numfmt::decimal_string(9), "9");
    assert_eq!(rak::numfmt::decimal_string(42), "42");
    assert_eq!(rak::numfmt::decimal_string(1000), "1000");
    assert_eq!(
        rak::numfmt::decimal_string(u64::MAX),
        "18446744073709551615"
    );
}

#[test]
fn hex_rendering() {
    assert_eq!(rak::numfmt::hex_string(0), "0");
    assert_eq!(rak::numfmt::hex_string(15), "f");
    assert_eq!(rak::numfmt::hex_string(0x10), "10");
    assert_eq!(rak::numfmt::hex_string(0xdead_beef), "deadbeef");
    assert_eq!(rak::numfmt::hex_string(u64::MAX), "ffffffffffffffff");
}
