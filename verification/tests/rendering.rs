use strafe::category::Category;
use strafe::filter::filter;
use strafe::render::{emphasis_of, render, render_plain, Emphasis, RenderError};
use strafe::text::{decimal_string, hex_pair_string, space_string};
use strafe::CommandRecord;

fn record(tick: u32, action_code: u8, payload: Vec<u8>) -> CommandRecord {
    CommandRecord { tick, action_code, payload }
}

#[test]
fn decimal_strings_are_exact() {
    assert_eq!(decimal_string(0), "0");
    assert_eq!(decimal_string(7), "7");
    assert_eq!(decimal_string(10), "10");
    assert_eq!(decimal_string(12345), "12345");
    assert_eq!(decimal_string(123456), "123456");
    assert_eq!(decimal_string(u32::MAX), "4294967295");
}

#[test]
fn hex_pairs_are_two_uppercase_digits() {
    assert_eq!(hex_pair_string(0x00), "00");
    assert_eq!(hex_pair_string(0x0A), "0A");
    assert_eq!(hex_pair_string(0x7F), "7F");
    assert_eq!(hex_pair_string(0xFF), "FF");
    assert_eq!(hex_pair_string(0xB2), "B2");
}

#[test]
fn space_strings_have_the_asked_length() {
    assert_eq!(space_string(0), "");
    assert_eq!(space_string(4), "    ");
}

#[test]
fn tick_seven_gets_four_leading_spaces() {
    let line = render_plain(&record(7, 62, vec![])).unwrap();
    // "Move" + 31 pad spaces + 1 separator space, then the 5-wide tick field.
    let expected = format!("Move{}{}    7: ", " ".repeat(31), " ");
    assert_eq!(line, expected);
}

#[test]
fn five_digit_tick_gets_no_padding() {
    let line = render_plain(&record(12345, 62, vec![])).unwrap();
    assert_eq!(line, format!("Move{} 12345: ", " ".repeat(31)));
}

#[test]
fn six_digit_tick_is_not_truncated() {
    let line = render_plain(&record(123456, 62, vec![])).unwrap();
    assert_eq!(line, format!("Move{} 123456: ", " ".repeat(31)));
}

#[test]
fn rendering_is_deterministic() {
    let r = record(42, 67, vec![0x01, 0x02, 0x03, 0x04]);
    assert_eq!(render_plain(&r).unwrap(), render_plain(&r).unwrap());
    assert_eq!(render(&r).unwrap(), render(&r).unwrap());
}

#[test]
fn emphasis_classes_partition_a_forty_byte_payload() {
    for i in 0..40usize {
        let e = emphasis_of(i);
        if i == 2 {
            assert_eq!(e, Emphasis::A);
        } else if i == 3 {
            assert_eq!(e, Emphasis::B);
        } else if (35..=38).contains(&i) {
            assert_eq!(e, Emphasis::C);
        } else {
            assert_eq!(e, Emphasis::Plain);
        }
    }
    assert_ne!(emphasis_of(2), emphasis_of(3));
    assert_ne!(emphasis_of(2), emphasis_of(0));
    assert_ne!(emphasis_of(3), emphasis_of(0));
    assert_eq!(emphasis_of(35), emphasis_of(38));
    assert_ne!(emphasis_of(35), emphasis_of(2));
    assert_ne!(emphasis_of(35), emphasis_of(3));
    assert_eq!(emphasis_of(39), Emphasis::Plain);
}

#[test]
fn payload_bytes_render_in_order_with_trailing_spaces() {
    let line = render_plain(&record(1, 0xFE, vec![0xDE, 0xAD, 0xBE, 0xEF])).unwrap();
    let expected = format!("Unknown{}     1: DE AD BE EF ", " ".repeat(28));
    assert_eq!(line, expected);
}

#[test]
fn end_to_end_move_selection_renders_the_surviving_record() {
    let records = vec![
        record(1, Category::Move.code_of(), vec![0x00, 0x01]),
        record(2, 0xFE, vec![]),
    ];
    let out = filter(&records, &vec![Category::Move]);
    assert_eq!(out.len(), 1);
    assert_eq!(out[0].tick, 1);
    let line = render_plain(&out[0]).unwrap();
    assert!(line.starts_with("Move"));
    let expected = format!("Move{}    1: 00 01 ", " ".repeat(32));
    assert_eq!(line, expected);
}

#[test]
fn colorized_line_always_carries_the_category_name() {
    let line = render(&record(1, 62, vec![0x00, 0x01])).unwrap();
    assert!(line.contains("Move"));
    let line = render(&record(2, 0xFE, vec![])).unwrap();
    assert!(line.contains("Unknown"));
}

#[test]
fn render_errors_are_reported_not_computed_wrong() {
    // Every category name fits the 35-character column, so rendering any
    // record succeeds; the error variant exists for the guarded edge.
    for b in 0..=255u8 {
        assert!(render_plain(&record(0, b, vec![])).is_ok());
    }
    let _ = RenderError::InvalidFormat;
}
