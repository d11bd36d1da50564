use auv::ring::SampleRing;

fn word(value: f32) -> [u8; 4] {
    value.to_ne_bytes()
}

fn words(values: &[f32]) -> Vec<[u8; 4]> {
    values.iter().map(|v| word(*v)).collect()
}

#[test]
fn samples_come_out_in_order() {
    let mut ring = SampleRing::for_device(4, 1);
    let next = ring.push_from(&words(&[0.25, -0.5, 0.75]), 0);
    assert_eq!(next, 3);
    let mut out = words(&[9.0, 9.0]);
    assert_eq!(ring.fill_block(false, &mut out, word(0.0)), 2);
    assert_eq!(out, words(&[0.25, -0.5]));
    assert_eq!(ring.fill_block(false, &mut out, word(0.0)), 1);
    assert_eq!(out, words(&[0.75, 0.0]));
}

#[test]
fn ring_takes_two_seconds_and_no_more() {
    let mut ring = SampleRing::for_device(3, 2);
    let samples = words(&[1.0; 20]);
    let first = ring.push_from(&samples, 0);
    assert_eq!(first, 12);
    assert_eq!(ring.push_from(&samples, first), 12);
    let mut out = words(&[0.0; 5]);
    assert_eq!(ring.fill_block(false, &mut out, word(0.0)), 5);
    assert_eq!(ring.push_from(&samples, first), 17);
    assert_eq!(ring.push_from(&samples, 20), 20);
}

#[test]
fn order_survives_the_wrap_around() {
    let mut ring = SampleRing::for_device(2, 1);
    let mut out = words(&[0.0; 3]);
    assert_eq!(ring.push_from(&words(&[1.0, 2.0, 3.0]), 0), 3);
    assert_eq!(ring.fill_block(false, &mut out, word(0.0)), 3);
    assert_eq!(ring.push_from(&words(&[4.0, 5.0, 6.0]), 0), 3);
    assert_eq!(ring.fill_block(false, &mut out, word(0.0)), 3);
    assert_eq!(out, words(&[4.0, 5.0, 6.0]));
}

#[test]
fn discard_leaves_silence() {
    let mut ring = SampleRing::for_device(4, 1);
    ring.push_from(&words(&[0.5, 0.5, 0.5]), 0);
    let mut out = words(&[9.0; 4]);
    assert_eq!(ring.fill_block(true, &mut out, word(0.0)), 0);
    assert_eq!(out, words(&[0.0; 4]));
    assert!(ring.played_out(false));
}

#[test]
fn played_out_when_empty_or_dead() {
    let mut ring = SampleRing::for_device(1, 1);
    assert!(ring.played_out(false));
    ring.push_from(&words(&[1.0]), 0);
    assert!(!ring.played_out(false));
    assert!(ring.played_out(true));
}
