use gateman::drive::{EncoderSpin, PinLevel};
use gateman::encoder::{decode_samples, Event, QuadratureDecoder};

fn edge(data: PinLevel) -> Vec<(PinLevel, PinLevel)> {
    // One high clock sample followed by twelve low ones: the qualifying
    // debounce pattern, with the data line at `data` throughout.
    let mut v = vec![(PinLevel::High, data)];
    for _ in 0..12 {
        v.push((PinLevel::Low, data));
    }
    v
}

#[test]
fn qualifying_pattern_emits_exactly_one_event() {
    let events = decode_samples(&edge(PinLevel::High));
    assert_eq!(events, vec![EncoderSpin::Ccw]);
}

#[test]
fn data_line_low_gives_clockwise_event() {
    let events = decode_samples(&edge(PinLevel::Low));
    assert_eq!(events, vec![EncoderSpin::Cw]);
}

#[test]
fn steady_low_clock_emits_nothing() {
    let samples = vec![(PinLevel::Low, PinLevel::High); 40];
    assert!(decode_samples(&samples).is_empty());
}

#[test]
fn steady_high_clock_emits_nothing() {
    let samples = vec![(PinLevel::High, PinLevel::High); 40];
    assert!(decode_samples(&samples).is_empty());
}

#[test]
fn bouncing_clock_emits_nothing() {
    // alternating samples never hold the line low long enough
    let mut samples = Vec::new();
    for i in 0..40 {
        let clock = if i % 2 == 0 { PinLevel::High } else { PinLevel::Low };
        samples.push((clock, PinLevel::High));
    }
    assert!(decode_samples(&samples).is_empty());
}

#[test]
fn each_qualifying_occurrence_emits_its_own_event() {
    let mut samples = edge(PinLevel::High);
    samples.extend(edge(PinLevel::Low));
    samples.extend(edge(PinLevel::High));
    let events = decode_samples(&samples);
    assert_eq!(events, vec![EncoderSpin::Ccw, EncoderSpin::Cw, EncoderSpin::Ccw]);
}

#[test]
fn register_resets_after_an_event() {
    let mut dec = QuadratureDecoder::new();
    let run = edge(PinLevel::High);
    let mut emitted = 0;
    for (c, d) in run.iter() {
        if dec.sample(*c, *d).is_some() {
            emitted += 1;
        }
    }
    assert_eq!(emitted, 1);
    // the register was reset: the same pattern qualifies again, and not
    // one sample earlier
    let mut again = 0;
    for (i, (c, d)) in run.iter().enumerate() {
        let got = dec.sample(*c, *d);
        if i < run.len() - 1 {
            assert!(got.is_none());
        }
        if got.is_some() {
            again += 1;
        }
    }
    assert_eq!(again, 1);
}

#[test]
fn event_maps_from_levels_and_spins() {
    assert_eq!(Event::from_level(PinLevel::High), Event::MovePos);
    assert_eq!(Event::from_level(PinLevel::Low), Event::MoveNeg);
    assert_eq!(Event::from_spin(EncoderSpin::Ccw), Event::MovePos);
    assert_eq!(Event::from_spin(EncoderSpin::Cw), Event::MoveNeg);
}
