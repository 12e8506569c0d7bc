use alarm_clock::config::Config;

#[test]
fn config_getters_return_fields() {
    let config = Config::new(
        12,
        vec![5, 6, 16],
        "/home/pi/midi".to_string(),
        200,
        11,
        250,
        true,
        -4,
    );
    assert_eq!(config.buzzer_pin(), 12);
    assert_eq!(config.button_pins(), &[5, 6, 16]);
    assert_eq!(config.midi_dir(), "/home/pi/midi");
    assert_eq!(config.button_bounce_ms(), 200);
    assert_eq!(config.brightness, 11);
    assert_eq!(config.scroll_delay_ms, 250);
    assert!(config.ascii_uppercase);
    assert_eq!(config.text_offset, -4);
}
