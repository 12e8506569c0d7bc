use alarm_clock::clock::ClockTime;
use alarm_clock::display::{
    apply_message, blink_command, brightness_command, char_to_alphanum, display_bytes,
    render_frame, BlinkRate, DisplayAction, ScrollText, TextMode,
};
use alarm_clock::message::AlphanumMessage;
use alarm_clock::text::str_chars;

#[test]
fn segment_masks_match_the_table() {
    assert_eq!(char_to_alphanum(' '), 0b_0000_0000_0000_0000);
    assert_eq!(char_to_alphanum('0'), 0b_0000_1100_0011_1111);
    assert_eq!(char_to_alphanum('A'), 0b_0000_0000_1111_0111);
    assert_eq!(char_to_alphanum('z'), 0b_0000_1000_0100_1000);
    // Unsupported characters render as the all-segments-on glyph.
    assert_eq!(char_to_alphanum('\u{80}'), 0b_0011_1111_1111_1111);
}

#[test]
fn display_bytes_interleave_little_endian() {
    let bytes = display_bytes(&['0', 'A', ' ', '~'], false);
    assert_eq!(bytes[0], 0);
    assert_eq!(bytes[1], 0b_0011_1111);
    assert_eq!(bytes[2], 0b_0000_1100);
    assert_eq!(bytes[3], 0b_1111_0111);
    assert_eq!(bytes[4], 0b_0000_0000);
    assert_eq!(bytes[5], 0);
    assert_eq!(bytes[6], 0);
    assert_eq!(bytes[7], 0b_0010_0000);
    assert_eq!(bytes[8], 0b_0000_0101);
}

#[test]
fn display_bytes_fold_case_on_request() {
    let lower = display_bytes(&['a', 'b', 'c', 'd'], true);
    let upper = display_bytes(&['A', 'B', 'C', 'D'], false);
    assert_eq!(lower, upper);
    let plain = display_bytes(&['a', 'b', 'c', 'd'], false);
    assert_ne!(lower, plain);
}

#[test]
fn hardware_command_bytes() {
    assert_eq!(blink_command(BlinkRate::Off), 0x81);
    assert_eq!(blink_command(BlinkRate::TwoHz), 0x83);
    assert_eq!(blink_command(BlinkRate::OneHz), 0x85);
    assert_eq!(blink_command(BlinkRate::HalfHz), 0x87);
    assert_eq!(brightness_command(7), 0xE7);
    // Levels above the hardware's range are capped.
    assert_eq!(brightness_command(200), 0xEF);
}

#[test]
fn scroll_text_wraps_with_blank_gap() {
    let mut st = ScrollText::new(str_chars("Hi"), 0);
    assert_eq!(st.frame(), ['H', 'i', ' ', ' ']);
    st.advance();
    assert_eq!(st.frame(), ['i', ' ', ' ', ' ']);
    st.advance();
    st.advance();
    st.advance();
    st.advance();
    assert_eq!(st.frame(), [' ', 'H', 'i', ' ']);
    st.advance();
    assert_eq!(st.frame(), ['H', 'i', ' ', ' ']);
}

#[test]
fn scroll_text_honours_start_offset() {
    // A negative offset counts back from the end of the ring.
    let st = ScrollText::new(str_chars("Hi"), -1);
    assert_eq!(st.frame(), [' ', 'H', 'i', ' ']);
    let st = ScrollText::new(str_chars("Hi"), 7);
    assert_eq!(st.frame(), ['i', ' ', ' ', ' ']);
}

#[test]
fn display_commands_switch_modes() {
    let noon = ClockTime::new(12 * 60);

    let (mode, act) = apply_message(TextMode::Time, AlphanumMessage::Static(['a', 'b', 'c', 'd']), 0);
    assert!(matches!(act, Some(DisplayAction::Show(cs)) if cs == ['a', 'b', 'c', 'd']));
    // A static display renders nothing further on later frames.
    let mut mode = mode;
    assert_eq!(render_frame(&mut mode, noon), None);

    let (mode, act) = apply_message(mode, AlphanumMessage::Time, 0);
    assert!(act.is_none());
    let mut mode = mode;
    assert_eq!(render_frame(&mut mode, noon), Some(['1', '2', '0', '0']));

    let (mode, act) = apply_message(mode, AlphanumMessage::Loop("Hello".to_string()), 0);
    assert!(act.is_none());
    let mut mode = mode;
    assert_eq!(render_frame(&mut mode, noon), Some(['H', 'e', 'l', 'l']));
    assert_eq!(render_frame(&mut mode, noon), Some(['e', 'l', 'l', 'o']));

    let (mode, act) = apply_message(mode, AlphanumMessage::Empty, 0);
    assert!(matches!(act, Some(DisplayAction::Show(cs)) if cs == [' ', ' ', ' ', ' ']));
    let mut mode = mode;
    assert_eq!(render_frame(&mut mode, noon), None);

    let (_, act) = apply_message(mode, AlphanumMessage::Blink(BlinkRate::OneHz), 0);
    assert!(matches!(act, Some(DisplayAction::SetBlink(BlinkRate::OneHz))));
}
