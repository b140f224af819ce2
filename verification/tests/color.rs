use placeholder_image::color::hex_digit_of;
use placeholder_image::{parse_color, Color, RequestError};

#[test]
fn six_digits_spell_red_green_and_blue() {
    assert_eq!(
        parse_color("ff0000"),
        Ok(Color { r: 255, g: 0, b: 0, a: 255 })
    );
    assert_eq!(
        parse_color("00ff00"),
        Ok(Color { r: 0, g: 255, b: 0, a: 255 })
    );
    assert_eq!(
        parse_color("0000ff"),
        Ok(Color { r: 0, g: 0, b: 255, a: 255 })
    );
    assert_eq!(
        parse_color("123456"),
        Ok(Color { r: 0x12, g: 0x34, b: 0x56, a: 255 })
    );
}

#[test]
fn a_colour_is_always_opaque() {
    assert_eq!(parse_color("cccccc").map(|c| c.a), Ok(255));
    assert_eq!(parse_color("000000").map(|c| c.a), Ok(255));
}

#[test]
fn gray_and_black_of_the_example() {
    assert_eq!(
        parse_color("cccccc"),
        Ok(Color { r: 204, g: 204, b: 204, a: 255 })
    );
    assert_eq!(
        parse_color("000000"),
        Ok(Color { r: 0, g: 0, b: 0, a: 255 })
    );
}

#[test]
fn both_cases_of_letters_are_digits() {
    assert_eq!(
        parse_color("ABCDEF"),
        Ok(Color { r: 0xab, g: 0xcd, b: 0xef, a: 255 })
    );
    assert_eq!(
        parse_color("aBcDeF"),
        Ok(Color { r: 0xab, g: 0xcd, b: 0xef, a: 255 })
    );
    assert_eq!(
        parse_color("09afAF"),
        Ok(Color { r: 0x09, g: 0xaf, b: 0xaf, a: 255 })
    );
}

#[test]
fn letters_past_f_are_refused() {
    assert_eq!(parse_color("zzzzzz"), Err(RequestError::InvalidColor));
    assert_eq!(parse_color("gggggg"), Err(RequestError::InvalidColor));
    assert_eq!(parse_color("fffffg"), Err(RequestError::InvalidColor));
    assert_eq!(parse_color("Gfffff"), Err(RequestError::InvalidColor));
}

#[test]
fn the_neighbours_of_the_digits_are_refused() {
    assert_eq!(parse_color("/00000"), Err(RequestError::InvalidColor));
    assert_eq!(parse_color(":00000"), Err(RequestError::InvalidColor));
    assert_eq!(parse_color("@00000"), Err(RequestError::InvalidColor));
    assert_eq!(parse_color("`00000"), Err(RequestError::InvalidColor));
}

#[test]
fn any_other_length_is_refused() {
    assert_eq!(parse_color(""), Err(RequestError::InvalidColor));
    assert_eq!(parse_color("fff"), Err(RequestError::InvalidColor));
    assert_eq!(parse_color("fffff"), Err(RequestError::InvalidColor));
    assert_eq!(parse_color("fffffff"), Err(RequestError::InvalidColor));
    assert_eq!(parse_color("ff0000ff"), Err(RequestError::InvalidColor));
}

#[test]
fn signs_and_marks_are_no_digits() {
    assert_eq!(parse_color("+f+f+f"), Err(RequestError::InvalidColor));
    assert_eq!(parse_color("#ff000"), Err(RequestError::InvalidColor));
    assert_eq!(parse_color("-10000"), Err(RequestError::InvalidColor));
    assert_eq!(parse_color("ff 000"), Err(RequestError::InvalidColor));
}

#[test]
fn letters_of_several_bytes_are_refused() {
    assert_eq!(parse_color("\u{e9}1234"), Err(RequestError::InvalidColor));
    assert_eq!(parse_color("a\u{e9}234"), Err(RequestError::InvalidColor));
    assert_eq!(parse_color("\u{e9}12345"), Err(RequestError::InvalidColor));
    assert_eq!(
        parse_color("\u{ff10}\u{ff10}\u{ff10}\u{ff10}\u{ff10}\u{ff10}"),
        Err(RequestError::InvalidColor)
    );
}

#[test]
fn the_defaults_are_light_gray_and_black() {
    assert_eq!(
        Color::light_gray(),
        Color { r: 240, g: 240, b: 240, a: 255 }
    );
    assert_eq!(Color::black(), Color { r: 0, g: 0, b: 0, a: 255 });
}

#[test]
fn hexadecimal_digits_count_to_fifteen() {
    for (value, digit) in "0123456789abcdef".chars().enumerate() {
        assert_eq!(hex_digit_of(digit), Some(value as u8));
    }
    for (value, digit) in "ABCDEF".chars().enumerate() {
        assert_eq!(hex_digit_of(digit), Some(10 + value as u8));
    }
    for other in ['g', 'G', 'z', '/', ':', '@', '`', '+', ' ', '\u{e9}'] {
        assert_eq!(hex_digit_of(other), None);
    }
}
