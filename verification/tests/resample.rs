use rubato::{FftFixedIn, Resampler};
use voxcode::error::AudioError;
use voxcode::resample::{
    append_samples, AudioResampler, EngineConfig, CHUNK_FRAMES, CONVERTER_CHANNELS, SUB_CHUNKS,
    WHISPER_SAMPLE_RATE,
};

fn ramp(len: usize) -> Vec<f32> {
    (0..len).map(|i| ((i % 200) as f32 - 100.0) / 100.0).collect()
}

fn engine(resampler: &AudioResampler) -> FftFixedIn<f32> {
    let config = resampler.engine_config().unwrap();
    FftFixedIn::new(
        config.source_rate,
        config.target_rate,
        config.chunk_frames,
        config.sub_chunks,
        config.channels,
    )
    .unwrap()
}

fn convert(resampler: &AudioResampler, input: &[f32]) -> Vec<Option<Vec<Vec<f32>>>> {
    let mut engine = engine(resampler);
    assert_eq!(engine.input_frames_next(), CHUNK_FRAMES);
    let mut converted = Vec::new();
    for chunk in resampler.chunks(input, 0.0) {
        match engine.process(&[chunk], None) {
            Ok(channels) => converted.push(Some(channels)),
            Err(_) => {
                converted.push(None);
                break;
            }
        }
    }
    converted
}

#[test]
fn constants_of_the_converter() {
    assert_eq!(WHISPER_SAMPLE_RATE, 16_000);
    assert_eq!(CHUNK_FRAMES, 1024);
    assert_eq!(SUB_CHUNKS, 2);
    assert_eq!(CONVERTER_CHANNELS, 1);
}

#[test]
fn new_rejects_rate_zero() {
    assert_eq!(AudioResampler::new(0), Err(AudioError::ConversionFailed));
}

#[test]
fn rates_are_reported() {
    let resampler = AudioResampler::new(44_100).unwrap();
    assert_eq!(resampler.source_rate(), 44_100);
    assert_eq!(resampler.target_rate(), 16_000);
    let same = AudioResampler::new(16_000).unwrap();
    assert_eq!(same.source_rate(), 16_000);
    assert_eq!(same.target_rate(), 16_000);
}

#[test]
fn engine_config_for_other_rate() {
    let resampler = AudioResampler::new(48_000).unwrap();
    assert_eq!(
        resampler.engine_config(),
        Some(EngineConfig {
            source_rate: 48_000,
            target_rate: 16_000,
            chunk_frames: 1024,
            sub_chunks: 2,
            channels: 1,
        })
    );
}

#[test]
fn no_engine_for_target_rate() {
    let resampler = AudioResampler::new(16_000).unwrap();
    assert_eq!(resampler.engine_config(), None);
    assert!(resampler.chunks(&ramp(5000), 0.0).is_empty());
}

#[test]
fn same_rate_is_identity() {
    let resampler = AudioResampler::new(16_000).unwrap();
    let input = ramp(2500);
    assert_eq!(resampler.process(&input, &Vec::new()), Ok(input.clone()));
    let noise = vec![Some(vec![vec![9.0f32; 3]]), None];
    assert_eq!(resampler.process(&input, &noise), Ok(input));
    let empty: Vec<f32> = Vec::new();
    assert_eq!(resampler.process(&empty, &Vec::new()), Ok(Vec::new()));
}

#[test]
fn short_input_is_padded_to_one_chunk() {
    let resampler = AudioResampler::new(48_000).unwrap();
    let input = vec![0.5f32, -0.25, 0.125];
    let chunks = resampler.chunks(&input, 0.0);
    assert_eq!(chunks.len(), 1);
    assert_eq!(chunks[0].len(), 1024);
    assert_eq!(&chunks[0][..3], &input[..]);
    assert!(chunks[0][3..].iter().all(|sample| *sample == 0.0));
}

#[test]
fn empty_input_is_one_chunk_of_silence() {
    let resampler = AudioResampler::new(48_000).unwrap();
    let chunks = resampler.chunks(&[], 7u8);
    assert_eq!(chunks, vec![vec![7u8; 1024]]);
}

#[test]
fn whole_chunks_in_order_and_rest_dropped() {
    let resampler = AudioResampler::new(48_000).unwrap();
    let input: Vec<u32> = (0..3 * 1024 + 500).collect();
    let chunks = resampler.chunks(&input, 0);
    assert_eq!(chunks.len(), 3);
    for (k, chunk) in chunks.iter().enumerate() {
        let expected: Vec<u32> = (k as u32 * 1024..(k as u32 + 1) * 1024).collect();
        assert_eq!(chunk, &expected);
    }
}

#[test]
fn exactly_one_chunk_is_not_padded() {
    let resampler = AudioResampler::new(8_000).unwrap();
    let input: Vec<u32> = (0..1024).collect();
    assert_eq!(resampler.chunks(&input, 0), vec![input.clone()]);
    let longer: Vec<u32> = (0..2047).collect();
    assert_eq!(resampler.chunks(&longer, 0), vec![input]);
}

#[test]
fn process_joins_first_channels_in_order() {
    let resampler = AudioResampler::new(48_000).unwrap();
    let input: Vec<u32> = (0..2048).collect();
    let converted = vec![Some(vec![vec![1, 2, 3], vec![99]]), Some(vec![vec![4, 5]])];
    assert_eq!(resampler.process(&input, &converted), Ok(vec![1, 2, 3, 4, 5]));
}

#[test]
fn process_skips_outputs_without_channel() {
    let resampler = AudioResampler::new(48_000).unwrap();
    let input: Vec<u32> = (0..3072).collect();
    let converted = vec![Some(vec![vec![1]]), Some(Vec::new()), Some(vec![vec![2]])];
    assert_eq!(resampler.process(&input, &converted), Ok(vec![1, 2]));
}

#[test]
fn process_fails_when_a_chunk_failed() {
    let resampler = AudioResampler::new(48_000).unwrap();
    let input: Vec<u32> = (0..2048).collect();
    let converted = vec![Some(vec![vec![1, 2, 3]]), None];
    assert_eq!(resampler.process(&input, &converted), Err(AudioError::ConversionFailed));
    let stopped = vec![None];
    assert_eq!(resampler.process(&input, &stopped), Err(AudioError::ConversionFailed));
}

#[test]
fn process_fails_on_wrong_chunk_count() {
    let resampler = AudioResampler::new(48_000).unwrap();
    let input: Vec<u32> = (0..2048).collect();
    let short = vec![Some(vec![vec![1, 2, 3]])];
    assert_eq!(resampler.process(&input, &short), Err(AudioError::ConversionFailed));
    let long = vec![Some(vec![vec![1]]), Some(vec![vec![2]]), Some(vec![vec![3]])];
    assert_eq!(resampler.process(&input, &long), Err(AudioError::ConversionFailed));
}

#[test]
fn append_samples_keeps_order() {
    let mut buffer = vec![1.5f32, 2.5];
    append_samples(&mut buffer, &[3.5, 4.5]);
    append_samples(&mut buffer, &[]);
    assert_eq!(buffer, vec![1.5, 2.5, 3.5, 4.5]);
}

#[test]
fn short_recording_converts_to_something() {
    let resampler = AudioResampler::new(48_000).unwrap();
    let input = ramp(300);
    let converted = convert(&resampler, &input);
    assert_eq!(converted.len(), 1);
    let output = resampler.process(&input, &converted).unwrap();
    assert_eq!(output.len(), 171);
}

#[test]
fn short_recording_at_a_rate_with_long_transforms_converts_to_nothing() {
    let resampler = AudioResampler::new(16_001).unwrap();
    let input = ramp(300);
    let converted = convert(&resampler, &input);
    assert_eq!(converted.len(), 1);
    assert_eq!(resampler.process(&input, &converted), Ok(Vec::new()));
}

#[test]
fn whole_chunks_convert_chunk_by_chunk() {
    let resampler = AudioResampler::new(48_000).unwrap();
    let input = ramp(4 * 1024 + 77);
    let converted = convert(&resampler, &input);
    assert_eq!(converted.len(), 4);
    let output = resampler.process(&input, &converted).unwrap();
    let mut expected: Vec<f32> = Vec::new();
    let mut again = engine(&resampler);
    for k in 0..4 {
        let chunk = input[k * 1024..(k + 1) * 1024].to_vec();
        expected.extend(again.process(&[chunk], None).unwrap().remove(0));
    }
    assert_eq!(output, expected);
    assert_eq!(output.len(), 171 + 342 + 342 + 342);
}

#[test]
fn conversion_is_not_carried_across_calls() {
    let resampler = AudioResampler::new(48_000).unwrap();
    let input = ramp(1024 + 600);
    let first = resampler.process(&input, &convert(&resampler, &input)).unwrap();
    let second = resampler.process(&input, &convert(&resampler, &input)).unwrap();
    assert_eq!(first, second);
    let whole = ramp(1024);
    let only = resampler.process(&whole, &convert(&resampler, &whole)).unwrap();
    assert_eq!(first, only);
}
