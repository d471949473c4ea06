use colorwarm::fmt::{format_number, format_time};

#[test]
fn small_values_get_a_leading_zero() {
    assert_eq!(format_number(5, "00"), "05");
    assert_eq!(format_number(0, "00"), "00");
    assert_eq!(format_number(9, "00"), "09");
}

#[test]
fn larger_values_are_rendered_plainly() {
    assert_eq!(format_number(12, "00"), "12");
    assert_eq!(format_number(1439, "00"), "1439");
}

#[test]
fn other_formats_never_pad() {
    assert_eq!(format_number(5, ""), "5");
    assert_eq!(format_number(5, "0"), "5");
}

#[test]
fn negative_values_keep_the_padding_quirk() {
    // A negative value is below ten, so the zero lands before the sign.
    assert_eq!(format_number(-4, "00"), "0-4");
}

#[test]
fn clock_times_are_zero_padded() {
    assert_eq!(format_time(0), "00:00");
    assert_eq!(format_time(65), "01:05");
    assert_eq!(format_time(600), "10:00");
    assert_eq!(format_time(1025), "17:05");
    assert_eq!(format_time(1439), "23:59");
}

#[test]
fn negative_minutes_render_with_the_same_quirk() {
    assert_eq!(format_time(-271), "0-4:0-31");
}
