use std::path::{Path, PathBuf};

use node_stats_service::stats::bandwidth::counter_rate::counter_source::{
    counter_value, parse_counter, FileCounterSource,
};

#[test]
fn source_keeps_its_files() {
    let source = FileCounterSource::new("rx_bytes", "tx_bytes");
    assert_eq!(&PathBuf::from("rx_bytes"), source.rx_file());
    assert_eq!(&PathBuf::from("tx_bytes"), source.tx_file());

    let source = FileCounterSource::new(Path::new("/sys/rx"), Path::new("/sys/tx"));
    assert_eq!(Path::new("/sys/rx"), source.rx_file().as_path());
    assert_eq!(Path::new("/sys/tx"), source.tx_file().as_path());
}

#[test]
fn unreadable_file_reads_as_zero() {
    assert_eq!(0, counter_value(None));
}

#[test]
fn decimal_content_reads_as_its_value() {
    assert_eq!(23, counter_value(Some("23".as_bytes())));
    assert_eq!(5, counter_value(Some("5".as_bytes())));
    assert_eq!(42, counter_value(Some("42".as_bytes())));
    assert_eq!(33, counter_value(Some("33".as_bytes())));
    assert_eq!(0, counter_value(Some("0".as_bytes())));
}

#[test]
fn content_that_is_no_integer_reads_as_zero() {
    assert_eq!(0, counter_value(Some("foobar".as_bytes())));
    assert_eq!(0, counter_value(Some("23.5".as_bytes())));
    assert_eq!(0, counter_value(Some("".as_bytes())));
}

#[test]
fn parse_counter_agrees_with_the_standard_parser() {
    let contents = [
        "",
        "0",
        "7",
        "23",
        "+23",
        "-23",
        "+",
        "-",
        "++1",
        "+-1",
        "1+",
        "007",
        "23\n",
        " 23",
        "23 ",
        "2 3",
        "23.5",
        "1e3",
        "0x10",
        "foobar",
        "١٢٣",
        "18446744073709551615",
        "18446744073709551616",
        "+18446744073709551615",
        "99999999999999999999",
        "184467440737095516150",
        "000000000000000000000000018446744073709551615",
        "1844674407370955161a",
    ];
    for content in contents.iter() {
        assert_eq!(
            content.parse::<u64>().ok(),
            parse_counter(content.as_bytes()),
            "content {:?}",
            content
        );
    }
}

#[test]
fn parse_counter_gives_exact_values() {
    assert_eq!(Some(23), parse_counter(b"23"));
    assert_eq!(Some(1234567890), parse_counter(b"+1234567890"));
    assert_eq!(Some(u64::MAX), parse_counter(b"18446744073709551615"));
    assert_eq!(None, parse_counter(b"18446744073709551616"));
    assert_eq!(None, parse_counter(b"23\n"));
    assert_eq!(None, parse_counter(&[0x32, 0xff]));
}
