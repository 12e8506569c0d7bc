use alarm_clock::clock::ClockTime;
use alarm_clock::note::MidiNote;

#[test]
fn test_freqencies() {
    let delta = 1e-2;
    let hz = |key: i8| MidiNote(key).frequency_millihz() as f64 / 1000.0;

    assert!((hz(12) - 16.35).abs() < delta);
    assert!((hz(33) - 55.00).abs() < delta);
    assert!((hz(73) - 554.37).abs() < delta);
    assert!((hz(55) - 196.00).abs() < delta);
    assert!((hz(4) - 10.30).abs() < delta);
    assert!((hz(-1) - 7.71).abs() < delta);
}

#[test]
fn frequency_octaves_double() {
    for key in 0..60_i8 {
        let low = MidiNote(key).frequency_millihz() as u64;
        let high = MidiNote(key + 12).frequency_millihz() as u64;
        // One octave up is twice the frequency, up to the rounding of
        // the halving chain.
        assert!(high / 2 - 1 <= low && low <= high / 2 + 1);
    }
}

#[test]
fn clock_time_reduces_modulo_day() {
    let t = ClockTime::new(1440);
    assert_eq!(t.hours(), 0);
    assert_eq!(t.minutes(), 0);

    let t = ClockTime::new(1439);
    assert_eq!(t.hours(), 23);
    assert_eq!(t.minutes(), 59);

    let t = ClockTime::from_elapsed_minutes(3 * 1440 + 125);
    assert_eq!(t.hours(), 2);
    assert_eq!(t.minutes(), 5);
}

#[test]
fn clock_time_renders_zero_padded() {
    assert_eq!(ClockTime::new(8 * 60 + 5).as_chars(), ['0', '8', '0', '5']);
    assert_eq!(ClockTime::new(0).as_chars(), ['0', '0', '0', '0']);
    assert_eq!(ClockTime::new(23 * 60 + 59).as_chars(), ['2', '3', '5', '9']);
    assert_eq!(ClockTime::new(12 * 60).as_chars(), ['1', '2', '0', '0']);
}

#[test]
fn clock_time_total_seconds() {
    assert_eq!(ClockTime::new(90).total_seconds(), 5400);
}
