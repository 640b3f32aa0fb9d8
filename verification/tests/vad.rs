use voxcode::vad::{energy, floor_root, VoiceActivityDetector};

#[test]
fn floor_root_exact_values() {
    assert_eq!(floor_root(0), 0);
    assert_eq!(floor_root(1), 1);
    assert_eq!(floor_root(3), 1);
    assert_eq!(floor_root(4), 2);
    assert_eq!(floor_root(99), 9);
    assert_eq!(floor_root(100), 10);
    assert_eq!(floor_root(1_073_676_289), 32_767);
    assert_eq!(floor_root(1_073_741_823), 32_767);
    assert_eq!(floor_root(1_073_741_824), 32_768);
    assert_eq!(floor_root(4_294_836_224), 65_534);
    assert_eq!(floor_root(4_294_836_225), 65_535);
    assert_eq!(floor_root(u32::MAX), 65_535);
}

#[test]
fn energy_of_empty_chunk_is_zero() {
    assert_eq!(energy(&[]), 0);
}

#[test]
fn energy_exact_values() {
    assert_eq!(energy(&[3, 4]), 3);
    assert_eq!(energy(&[3, -4, 3, -4]), 3);
    assert_eq!(energy(&[100, -100, 100]), 100);
    assert_eq!(energy(&[i16::MIN; 8]), 32_768);
    assert_eq!(energy(&[i16::MAX, 0]), 23_169);
    assert_eq!(energy(&[0, 0, 0]), 0);
}

#[test]
fn energy_matches_real_threshold_test() {
    let chunk: [i16; 3] = [5, 5, 4];
    let level = energy(&chunk);
    assert_eq!(level, 4);
    let squares: i64 = chunk.iter().map(|s| (*s as i64) * (*s as i64)).sum();
    for threshold in 0..8i64 {
        assert_eq!(level as i64 >= threshold, squares >= threshold * threshold * 3);
    }
}

#[test]
fn loud_chunk_is_speech() {
    let mut detector = VoiceActivityDetector::new(100, 3);
    assert_eq!(detector.process(&[100, -100]), (true, 100));
    assert_eq!(detector.process(&[2000, 2000]), (true, 2000));
}

#[test]
fn quiet_chunks_are_speech_until_limit() {
    let mut detector = VoiceActivityDetector::new(100, 3);
    assert_eq!(detector.process(&[10, 10]), (true, 10));
    assert_eq!(detector.process(&[10, 10]), (true, 10));
    assert_eq!(detector.process(&[10, 10]), (false, 10));
    assert_eq!(detector.process(&[10, 10]), (false, 10));
}

#[test]
fn loud_chunk_resets_quiet_run() {
    let mut detector = VoiceActivityDetector::new(100, 3);
    assert_eq!(detector.process(&[0]), (true, 0));
    assert_eq!(detector.process(&[0]), (true, 0));
    assert_eq!(detector.process(&[500]), (true, 500));
    assert_eq!(detector.process(&[0]), (true, 0));
    assert_eq!(detector.process(&[0]), (true, 0));
    assert_eq!(detector.process(&[0]), (false, 0));
}

#[test]
fn reset_ends_quiet_run() {
    let mut detector = VoiceActivityDetector::new(100, 2);
    assert_eq!(detector.process(&[1]), (true, 1));
    detector.reset();
    assert_eq!(detector.process(&[1]), (true, 1));
    assert_eq!(detector.process(&[1]), (false, 1));
    detector.reset();
    assert_eq!(detector, VoiceActivityDetector::new(100, 2));
}

#[test]
fn empty_chunk_is_quiet_unless_threshold_is_zero() {
    let mut strict = VoiceActivityDetector::new(1, 1);
    assert_eq!(strict.process(&[]), (false, 0));
    let mut open = VoiceActivityDetector::new(0, 1);
    assert_eq!(open.process(&[]), (true, 0));
}

#[test]
fn limit_of_one_or_zero_gives_silence_at_once() {
    let mut one = VoiceActivityDetector::new(50, 1);
    assert_eq!(one.process(&[3]), (false, 3));
    let mut zero = VoiceActivityDetector::new(50, 0);
    assert_eq!(zero.process(&[3]), (false, 3));
    assert_eq!(zero.process(&[50]), (true, 50));
}
