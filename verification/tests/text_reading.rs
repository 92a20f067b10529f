use std::num::IntErrorKind;
use wof_stats::row::{parse_allocation, RowFailure};
use wof_stats::text::{
    chars_of, find_percent, narrow, read_i16, trim, trim_bounds, white_space, IntegerFault,
};

fn read(text: &str) -> Result<i16, IntegerFault> {
    let chars = chars_of(text);
    read_i16(&chars, 0, chars.len())
}

fn fault_of(kind: &IntErrorKind) -> IntegerFault {
    match kind {
        IntErrorKind::Empty => IntegerFault::Empty,
        IntErrorKind::InvalidDigit => IntegerFault::InvalidDigit,
        IntErrorKind::PosOverflow => IntegerFault::TooLarge,
        IntErrorKind::NegOverflow => IntegerFault::TooSmall,
        other => panic!("unexpected kind {:?}", other),
    }
}

#[test]
fn white_space_is_the_unicode_property() {
    let mut code: u32 = 0;
    while code <= 0x10FFFF {
        if let Some(c) = char::from_u32(code) {
            assert_eq!(white_space(c), c.is_whitespace(), "U+{:04X}", code);
        }
        code += 1;
    }
}

#[test]
fn chars_of_keeps_every_character() {
    assert_eq!(chars_of("a%é\u{3000}"), vec!['a', '%', 'é', '\u{3000}']);
    assert_eq!(chars_of(""), Vec::<char>::new());
}

#[test]
fn trim_bounds_are_character_positions() {
    assert_eq!(trim_bounds(&chars_of("  ab ")), (2, 4));
    assert_eq!(trim_bounds(&chars_of("")), (0, 0));
    assert_eq!(trim_bounds(&chars_of(" \t\n")), (3, 3));
    assert_eq!(trim_bounds(&chars_of("x")), (0, 1));
}

#[test]
fn trim_agrees_with_the_standard_library() {
    let samples = [
        "",
        " ",
        "Studio A",
        "  Studio A  ",
        "\n\tStudio\u{a0}B\r\n",
        "\u{2003}é è\u{3000}",
        "\u{200b}x\u{200b}",
        " a  b ",
        "\u{85}\u{1680}q\u{2028}\u{2029}\u{202f}\u{205f}",
    ];
    for sample in samples {
        assert_eq!(trim(sample), sample.trim(), "{:?}", sample);
    }
}

#[test]
fn trim_keeps_inner_white_space() {
    assert_eq!(trim("  Studio  A \n"), "Studio  A");
    assert_eq!(trim(" \t "), "");
}

#[test]
fn find_percent_gives_the_first_one() {
    let chars = chars_of("12%3%");
    assert_eq!(find_percent(&chars, 0, chars.len()), 2);
    assert_eq!(find_percent(&chars, 3, chars.len()), 4);
    assert_eq!(find_percent(&chars, 0, 2), 2);
    let none = chars_of("123");
    assert_eq!(find_percent(&none, 0, none.len()), 3);
}

#[test]
fn read_i16_reads_decimal_numbers() {
    assert_eq!(read("0"), Ok(0));
    assert_eq!(read("42"), Ok(42));
    assert_eq!(read("+42"), Ok(42));
    assert_eq!(read("-15"), Ok(-15));
    assert_eq!(read("007"), Ok(7));
    assert_eq!(read("32767"), Ok(32767));
    assert_eq!(read("-32768"), Ok(-32768));
    assert_eq!(read("-0"), Ok(0));
}

#[test]
fn read_i16_names_each_fault() {
    assert_eq!(read(""), Err(IntegerFault::Empty));
    assert_eq!(read("-"), Err(IntegerFault::InvalidDigit));
    assert_eq!(read("+"), Err(IntegerFault::InvalidDigit));
    assert_eq!(read("4 2"), Err(IntegerFault::InvalidDigit));
    assert_eq!(read("4.2"), Err(IntegerFault::InvalidDigit));
    assert_eq!(read("--1"), Err(IntegerFault::InvalidDigit));
    assert_eq!(read("٣"), Err(IntegerFault::InvalidDigit));
    assert_eq!(read("32768"), Err(IntegerFault::TooLarge));
    assert_eq!(read("-32769"), Err(IntegerFault::TooSmall));
}

#[test]
fn read_i16_reads_a_part_of_the_text() {
    let chars = chars_of("ab-12%");
    assert_eq!(read_i16(&chars, 2, 5), Ok(-12));
    assert_eq!(read_i16(&chars, 3, 5), Ok(12));
    assert_eq!(read_i16(&chars, 2, 2), Err(IntegerFault::Empty));
    assert_eq!(read_i16(&chars, 0, 5), Err(IntegerFault::InvalidDigit));
}

#[test]
fn read_i16_agrees_with_the_standard_library() {
    let samples = [
        "", "+", "-", "0", "-0", "+0", "42", "-15", "100", "255", "256", "-256", "32767", "32768",
        "-32768", "-32769", "99999", "-99999", "9999a", "99999a", "-99999a", "a99999", "3276a",
        "32767 ", " 1", "1_000", "0x10", "12-", "+-1", "00000000000000000001", "000000000032768",
        "-000000000032769", "1e3", "٣", "１２",
    ];
    for sample in samples {
        let expected = match sample.parse::<i16>() {
            Ok(n) => Ok(n),
            Err(e) => Err(fault_of(e.kind())),
        };
        assert_eq!(read(sample), expected, "{:?}", sample);
    }
}

#[test]
fn read_i16_agrees_with_the_standard_library_on_every_number() {
    let mut n: i32 = -40000;
    while n <= 40000 {
        let text = format!("{}", n);
        let expected = match text.parse::<i16>() {
            Ok(v) => Ok(v),
            Err(e) => Err(fault_of(e.kind())),
        };
        assert_eq!(read(&text), expected, "{:?}", text);
        n += 1;
    }
}

#[test]
fn narrow_takes_the_magnitude() {
    assert_eq!(narrow(0), 0);
    assert_eq!(narrow(42), 42);
    assert_eq!(narrow(-15), 15);
    assert_eq!(narrow(255), 255);
    assert_eq!(narrow(-255), 255);
}

#[test]
fn narrow_keeps_the_low_eight_bits_of_large_magnitudes() {
    assert_eq!(narrow(256), 0);
    assert_eq!(narrow(300), 44);
    assert_eq!(narrow(-300), 44);
    assert_eq!(narrow(32767), 255);
    assert_eq!(narrow(-32768), 0);
}

#[test]
fn narrow_never_gives_what_a_wrapped_sign_would() {
    let mut n: i16 = -255;
    while n <= 255 {
        assert_eq!(i32::from(narrow(n)), i32::from(n).abs());
        n += 1;
    }
}

#[test]
fn parse_allocation_reads_a_percentage() {
    assert_eq!(parse_allocation("42%"), Ok(42));
    assert_eq!(parse_allocation("  42%  "), Ok(42));
    assert_eq!(parse_allocation("0%"), Ok(0));
    assert_eq!(parse_allocation("100%"), Ok(100));
    assert_eq!(parse_allocation("+7%"), Ok(7));
    assert_eq!(parse_allocation("42% of all"), Ok(42));
    assert_eq!(parse_allocation("12%34%"), Ok(12));
}

#[test]
fn negative_allocation_is_made_positive() {
    assert_eq!(parse_allocation("-15%"), Ok(15));
    assert_eq!(parse_allocation("-1%"), Ok(1));
    assert_eq!(parse_allocation("-100%"), Ok(100));
}

#[test]
fn allocation_above_one_hundred_is_accepted() {
    assert_eq!(parse_allocation("150%"), Ok(150));
    assert_eq!(parse_allocation("255%"), Ok(255));
    assert_eq!(parse_allocation("300%"), Ok(44));
}

#[test]
fn allocation_without_percent_sign_is_refused() {
    assert_eq!(parse_allocation("42"), Err(RowFailure::PercentMissing));
    assert_eq!(parse_allocation(""), Err(RowFailure::PercentMissing));
    assert_eq!(parse_allocation("forty"), Err(RowFailure::PercentMissing));
}

#[test]
fn allocation_that_is_no_number_is_refused() {
    assert_eq!(parse_allocation("%"), Err(RowFailure::NotANumber(IntegerFault::Empty)));
    assert_eq!(parse_allocation("abc%"), Err(RowFailure::NotANumber(IntegerFault::InvalidDigit)));
    assert_eq!(parse_allocation("42 %"), Err(RowFailure::NotANumber(IntegerFault::InvalidDigit)));
    assert_eq!(parse_allocation("4.5%"), Err(RowFailure::NotANumber(IntegerFault::InvalidDigit)));
    assert_eq!(parse_allocation("40000%"), Err(RowFailure::NotANumber(IntegerFault::TooLarge)));
    assert_eq!(parse_allocation("-40000%"), Err(RowFailure::NotANumber(IntegerFault::TooSmall)));
}
