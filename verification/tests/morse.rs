use uart_usb_bridge::utils::morse::{digit_to_morse, number_to_morse, DASH, DOT, GAP};

fn encode(number: u16) -> String {
    let mut buffer = [0u8; 100];
    let length = number_to_morse(number, &mut buffer).unwrap();
    String::from_utf8(buffer[..length].to_vec()).unwrap()
}

#[test]
fn symbols_are_ascii_dot_dash_space() {
    assert_eq!(DOT, b'.');
    assert_eq!(DASH, b'-');
    assert_eq!(GAP, b' ');
}

#[test]
fn every_digit_has_its_pattern() {
    let patterns = [
        "-----", ".----", "..---", "...--", "....-", ".....", "-....", "--...", "---..", "----.",
    ];
    for digit in 0..10u8 {
        assert_eq!(digit_to_morse(digit), patterns[digit as usize]);
    }
}

#[test]
fn encode_zero() {
    assert_eq!(encode(0), "-----");
}

#[test]
fn encode_five() {
    assert_eq!(encode(5), ".....");
}

#[test]
fn encode_123() {
    assert_eq!(encode(123), ".---- ..--- ...--");
}

#[test]
fn encode_100_keeps_trailing_zeros() {
    assert_eq!(encode(100), ".---- ----- -----");
}

#[test]
fn encode_numbers_with_inner_zeros() {
    assert_eq!(encode(10), ".---- -----");
    assert_eq!(encode(1005), ".---- ----- ----- .....");
    assert_eq!(encode(10000), ".---- ----- ----- ----- -----");
    assert_eq!(encode(9), "----.");
    assert_eq!(encode(67), "-.... --...");
    assert_eq!(encode(48), "....- ---..");
}

#[test]
fn encode_largest_number() {
    assert_eq!(encode(65535), "-.... ..... ..... ...-- .....");
    assert_eq!(encode(65535).len(), 29);
}

#[test]
fn every_code_has_six_symbols_per_digit_less_one() {
    for number in [0u16, 7, 10, 99, 100, 999, 1000, 9999, 10000, 65535] {
        let digits = number.to_string().len();
        assert_eq!(encode(number).len(), 6 * digits - 1);
    }
}

#[test]
fn bytes_after_the_code_are_untouched() {
    let mut buffer = [0xAAu8; 12];
    assert_eq!(number_to_morse(7, &mut buffer), Ok(5));
    assert_eq!(&buffer[..5], b"--...");
    assert_eq!(&buffer[5..], &[0xAAu8; 7]);
}

#[test]
fn code_that_fits_exactly_succeeds() {
    let mut buffer = [0u8; 11];
    assert_eq!(number_to_morse(42, &mut buffer), Ok(11));
    assert_eq!(&buffer, b"....- ..---");
}

#[test]
fn buffer_too_small_fails_and_holds_the_start_of_the_code() {
    let mut buffer = [0u8; 10];
    assert_eq!(number_to_morse(42, &mut buffer), Err("Buffer overflow"));
    assert_eq!(&buffer, b"....- ..--");

    let mut small = [0u8; 5];
    assert_eq!(number_to_morse(42, &mut small), Err("Buffer overflow"));
    assert_eq!(&small, b"....-");

    let mut tiny = [0u8; 3];
    assert_eq!(number_to_morse(0, &mut tiny), Err("Buffer overflow"));
    assert_eq!(&tiny, b"---");

    let mut none: [u8; 0] = [];
    assert_eq!(number_to_morse(0, &mut none), Err("Buffer overflow"));
}
