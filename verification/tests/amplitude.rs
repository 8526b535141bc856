use ds_transcriber::amplitude::{measure, AmplitudeRange};

fn levels_of(samples: &[f32]) -> Vec<i32> {
    samples.iter().map(|s| (*s * 1000.0) as i32).collect()
}

#[test]
fn measure_finds_both_extremes() {
    let range = measure(&vec![3, -7, 12, 0, -2]);
    assert_eq!(range, AmplitudeRange { min: -7, max: 12 });
}

#[test]
fn measure_of_one_level_is_that_level_twice() {
    assert_eq!(measure(&vec![-41]), AmplitudeRange { min: -41, max: -41 });
    assert_eq!(measure(&vec![41]), AmplitudeRange { min: 41, max: 41 });
}

#[test]
fn measure_of_an_empty_chunk_is_zero() {
    assert_eq!(measure(&Vec::new()), AmplitudeRange { min: 0, max: 0 });
}

#[test]
fn measure_keeps_the_extremes_of_the_type() {
    let range = measure(&vec![i32::MAX, 0, i32::MIN]);
    assert_eq!(range, AmplitudeRange { min: i32::MIN, max: i32::MAX });
}

#[test]
fn measure_with_extremes_first_or_last() {
    assert_eq!(measure(&vec![9, 1, 2, -9]), AmplitudeRange { min: -9, max: 9 });
    assert_eq!(measure(&vec![-9, 1, 2, 9]), AmplitudeRange { min: -9, max: 9 });
    assert_eq!(measure(&vec![4, 4, 4]), AmplitudeRange { min: 4, max: 4 });
}

#[test]
fn measure_on_scaled_samples() {
    let levels = levels_of(&[0.5, -0.25, 0.125, 0.0]);
    assert_eq!(levels, vec![500, -250, 125, 0]);
    assert_eq!(measure(&levels), AmplitudeRange { min: -250, max: 500 });
}

#[test]
fn silent_strictly_inside_the_band() {
    assert!(AmplitudeRange { min: -199, max: 199 }.is_silent(200));
    assert!(AmplitudeRange { min: 0, max: 0 }.is_silent(200));
    assert!(AmplitudeRange { min: 0, max: 0 }.is_silent(1));
}

#[test]
fn not_silent_at_or_beyond_the_threshold() {
    assert!(!AmplitudeRange { min: 0, max: 200 }.is_silent(200));
    assert!(!AmplitudeRange { min: -200, max: 0 }.is_silent(200));
    assert!(!AmplitudeRange { min: 0, max: 500 }.is_silent(200));
    assert!(!AmplitudeRange { min: -500, max: 0 }.is_silent(200));
}

#[test]
fn nothing_is_silent_under_a_threshold_of_zero_or_less() {
    assert!(!AmplitudeRange { min: 0, max: 0 }.is_silent(0));
    assert!(!AmplitudeRange { min: 0, max: 0 }.is_silent(-200));
    assert!(!AmplitudeRange { min: -5, max: -5 }.is_silent(-1));
    assert!(!measure(&Vec::new()).is_silent(0));
}

#[test]
fn silence_test_takes_every_threshold() {
    assert!(!AmplitudeRange { min: 0, max: 0 }.is_silent(i32::MIN));
    assert!(!AmplitudeRange { min: i32::MIN, max: i32::MIN }.is_silent(i32::MIN));
    assert!(AmplitudeRange { min: 0, max: 0 }.is_silent(i32::MAX));
    assert!(AmplitudeRange { min: -i32::MAX + 1, max: i32::MAX - 1 }.is_silent(i32::MAX));
    assert!(!AmplitudeRange { min: i32::MIN, max: 0 }.is_silent(i32::MAX));
    assert!(!AmplitudeRange { min: -i32::MAX, max: 0 }.is_silent(i32::MAX));
    assert!(!AmplitudeRange { min: 0, max: i32::MAX }.is_silent(i32::MAX));
}

#[test]
fn chunk_is_silent_exactly_when_every_level_is_inside() {
    let threshold = 200;
    let quiet = vec![0, 199, -199, 50, -3];
    assert!(quiet.iter().all(|l| -threshold < *l && *l < threshold));
    assert!(measure(&quiet).is_silent(threshold));
    for loud in [200, -200, 201, -201, 5000, -5000] {
        let mut chunk = quiet.clone();
        chunk.insert(2, loud);
        assert!(!measure(&chunk).is_silent(threshold));
    }
}

#[test]
fn empty_chunk_is_inside_a_positive_band() {
    let range = measure(&levels_of(&[]));
    assert_eq!(range, AmplitudeRange { min: 0, max: 0 });
    assert!(range.is_silent(200));
}
