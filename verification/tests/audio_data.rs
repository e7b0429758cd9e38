use rfastspeech::audio::AudioData;

#[test]
fn new_audio_data() {
    let bits: Vec<u32> = vec![
        0.5f32.to_bits(),
        (-0.1f32).to_bits(),
        1.0f32.to_bits(),
        (-1.0f32).to_bits(),
    ];
    let audio_data = AudioData::new(bits, 8000);
    assert_eq!(audio_data.sample_rate(), 8000);
    assert_eq!(audio_data.len(), 4);
}

#[test]
fn samples_round_trip_bits() {
    let values = vec![0.25f32, -0.75, 0.0];
    let bits: Vec<u32> = values.iter().map(|v| v.to_bits()).collect();
    let audio_data = AudioData::new(bits, 44100);
    let back: Vec<f32> = audio_data.samples().iter().map(|b| f32::from_bits(*b)).collect();
    assert_eq!(back, values);
}
