use serial_tool::loader::{
    default_baud_list, load_baud, parse_baud_list, parse_rate, BaudListError,
};

#[test]
fn the_built_in_list_has_fifteen_rates() {
    assert_eq!(
        default_baud_list(),
        vec![
            9600, 14400, 19200, 38400, 56000, 57600, 115200, 128000, 230400, 256000, 460800,
            512000, 750000, 921600, 1500000
        ]
    );
}

#[test]
fn without_a_text_the_built_in_list_is_loaded() {
    assert_eq!(load_baud(None), Ok(default_baud_list()));
}

#[test]
fn with_a_text_its_rates_are_loaded() {
    assert_eq!(load_baud(Some(b"300\n1200\n2400\n")), Ok(vec![300, 1200, 2400]));
    assert_eq!(load_baud(Some(b"")), Ok(vec![]));
    assert_eq!(load_baud(Some(b"300\nfast\n")), Err(BaudListError { line: 1 }));
}

#[test]
fn a_line_is_a_decimal_number() {
    assert_eq!(parse_rate(b"9600"), Some(9600));
    assert_eq!(parse_rate(b"0"), Some(0));
    assert_eq!(parse_rate(b"0009600"), Some(9600));
    assert_eq!(parse_rate(b"+115200"), Some(115200));
    assert_eq!(parse_rate(b"4294967295"), Some(4294967295));
    assert_eq!(parse_rate(b"00000000000000000000004294967295"), Some(4294967295));
}

#[test]
fn a_line_that_is_no_number_writes_no_rate() {
    assert_eq!(parse_rate(b""), None);
    assert_eq!(parse_rate(b"+"), None);
    assert_eq!(parse_rate(b"-"), None);
    assert_eq!(parse_rate(b"-9600"), None);
    assert_eq!(parse_rate(b"++9600"), None);
    assert_eq!(parse_rate(b"96+00"), None);
    assert_eq!(parse_rate(b" 9600"), None);
    assert_eq!(parse_rate(b"9600 "), None);
    assert_eq!(parse_rate(b"9600\r"), None);
    assert_eq!(parse_rate(b"96_00"), None);
    assert_eq!(parse_rate(b"0x2580"), None);
    assert_eq!(parse_rate(b"9600.0"), None);
    assert_eq!(parse_rate("９６００".as_bytes()), None);
}

#[test]
fn a_number_beyond_thirty_two_bits_writes_no_rate() {
    assert_eq!(parse_rate(b"4294967296"), None);
    assert_eq!(parse_rate(b"42949672950"), None);
    assert_eq!(parse_rate(b"18446744073709551616"), None);
    assert_eq!(parse_rate(b"99999999999999999999999999999999999999999999"), None);
    assert_eq!(parse_rate(b"4294967296x"), None);
}

#[test]
fn lines_end_with_a_line_feed() {
    assert_eq!(parse_baud_list(b"9600\n115200\n"), Ok(vec![9600, 115200]));
    assert_eq!(parse_baud_list(b"9600\n115200"), Ok(vec![9600, 115200]));
    assert_eq!(parse_baud_list(b"9600"), Ok(vec![9600]));
    assert_eq!(parse_baud_list(b""), Ok(vec![]));
}

#[test]
fn a_carriage_return_before_the_line_feed_belongs_to_the_line_ending() {
    assert_eq!(parse_baud_list(b"9600\r\n115200\r\n"), Ok(vec![9600, 115200]));
    assert_eq!(parse_baud_list(b"9600\r\n115200"), Ok(vec![9600, 115200]));
    assert_eq!(parse_baud_list(b"9600\n115200\r\n57600\n"), Ok(vec![9600, 115200, 57600]));
}

#[test]
fn a_carriage_return_elsewhere_belongs_to_the_line() {
    assert_eq!(parse_baud_list(b"9600\r\n115200\r"), Err(BaudListError { line: 1 }));
    assert_eq!(parse_baud_list(b"9600\r"), Err(BaudListError { line: 0 }));
    assert_eq!(parse_baud_list(b"9600\r\r\n"), Err(BaudListError { line: 0 }));
    assert_eq!(parse_baud_list(b"96\r00\n"), Err(BaudListError { line: 0 }));
}

#[test]
fn an_empty_line_is_malformed() {
    assert_eq!(parse_baud_list(b"\n"), Err(BaudListError { line: 0 }));
    assert_eq!(parse_baud_list(b"9600\n\n115200\n"), Err(BaudListError { line: 1 }));
    assert_eq!(parse_baud_list(b"9600\n115200\n\n"), Err(BaudListError { line: 2 }));
    assert_eq!(parse_baud_list(b"9600\n\r\n"), Err(BaudListError { line: 1 }));
}

#[test]
fn the_first_malformed_line_is_reported() {
    assert_eq!(parse_baud_list(b"9600\nabc\n115200\nxyz\n"), Err(BaudListError { line: 1 }));
    assert_eq!(parse_baud_list(b"abc"), Err(BaudListError { line: 0 }));
    assert_eq!(parse_baud_list(b"1\n2\n3\n4294967296"), Err(BaudListError { line: 3 }));
}

#[test]
fn a_list_reads_as_the_standard_library_reads_it() {
    let texts: [&str; 12] = [
        "",
        "9600",
        "9600\n",
        "9600\r\n14400\n+19200\r\n",
        "9600\n\n",
        "9600\r",
        "\r\n",
        "1\r\n2\r3\n",
        "4294967295\n4294967296\n",
        "007\n+0\n",
        "12 \n",
        "١٢٣\n",
    ];
    for text in texts.iter() {
        let mut expected: Result<Vec<u32>, BaudListError> = Ok(Vec::new());
        for (index, line) in text.lines().enumerate() {
            match (line.parse::<u32>(), &mut expected) {
                (Ok(rate), Ok(rates)) => rates.push(rate),
                (Err(_), Ok(_)) => expected = Err(BaudListError { line: index }),
                _ => {},
            }
        }
        assert_eq!(parse_baud_list(text.as_bytes()), expected, "text {:?}", text);
    }
}
