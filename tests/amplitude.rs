use ostt::amplitude::{frame_level, AmplitudeRing, LEVEL_MAX, SILENCE_LEVEL};

#[test]
fn ring_keeps_the_most_recent_in_order() {
    let mut r = AmplitudeRing::new(3);
    for x in 1..=7u16 {
        r.push(x);
        assert!(r.len() <= 3);
    }
    assert_eq!(r.to_vec(), vec![5, 6, 7]);
    assert_eq!(r.capacity(), 3);
}

#[test]
fn ring_below_capacity_keeps_everything() {
    let mut r = AmplitudeRing::new(4);
    r.push(9);
    r.push(8);
    assert_eq!(r.to_vec(), vec![9, 8]);
    assert_eq!(r.pop_oldest(), Some(9));
    assert_eq!(r.pop_oldest(), Some(8));
    assert_eq!(r.pop_oldest(), None);
}

#[test]
fn ring_of_capacity_one() {
    let mut r = AmplitudeRing::new(1);
    r.push(1);
    r.push(2);
    assert_eq!(r.to_vec(), vec![2]);
    r.clear();
    assert_eq!(r.len(), 0);
}

#[test]
fn silence_shows_the_minimum_level() {
    assert_eq!(frame_level(&vec![0i16; 480]), SILENCE_LEVEL);
    assert_eq!(frame_level(&vec![]), SILENCE_LEVEL);
    assert_eq!(frame_level(&vec![100, -200, 50]), SILENCE_LEVEL);
}

#[test]
fn full_scale_frames_clamp_to_max() {
    assert_eq!(frame_level(&vec![i16::MIN]), LEVEL_MAX);
    assert_eq!(frame_level(&vec![0, i16::MAX]), 999);
}

#[test]
fn level_follows_the_peak() {
    // 16384 / 32768 of full scale is 500 thousandths.
    assert_eq!(frame_level(&vec![10, -16384, 300]), 500);
    // 655 * 1000 / 32768 = 19 (above the noise floor of 10).
    assert_eq!(frame_level(&vec![655]), 19);
}
