use quinoa_audio::pipeline::{EncoderState, StreamContext, StreamRole};

fn bytes_of(samples: &[f32]) -> Vec<u8> {
    let mut out = Vec::new();
    for s in samples {
        out.extend_from_slice(&s.to_le_bytes());
    }
    out
}

#[test]
fn non_raw_audio_formats_are_rejected() {
    let mut c = StreamContext::new(StreamRole::Microphone, "/tmp/out/microphone.wav".to_string());
    assert!(c.on_format(false, 48000, 2).is_none());
    assert!(c.format.is_none());
    assert_eq!(c.encoder, EncoderState::NotRequested);
}

#[test]
fn first_accepted_format_requests_exactly_one_encoder() {
    let mut c = StreamContext::new(StreamRole::Microphone, "/tmp/out/microphone.wav".to_string());
    let req = c.on_format(true, 44100, 1).expect("first raw format requests an encoder");
    assert_eq!(req.path, "/tmp/out/microphone.wav");
    assert_eq!(req.rate, 44100);
    assert_eq!(req.channels, 1);
    assert_eq!(c.format, Some((44100, 1)));
    c.set_encoder(true);
    assert_eq!(c.encoder, EncoderState::Present);
    // Later negotiations are ignored once an encoder exists.
    assert!(c.on_format(true, 48000, 2).is_none());
    assert_eq!(c.format, Some((44100, 1)));
}

#[test]
fn failed_encoder_creation_leaves_metering_running() {
    let mut c = StreamContext::new(StreamRole::System, "/tmp/out/system.wav".to_string());
    c.on_format(true, 48000, 2).unwrap();
    c.set_encoder(false);
    assert_eq!(c.encoder, EncoderState::Absent);
    // Metering proceeds without an encoder; nothing goes out for encoding.
    assert!(c.on_buffer(Some(&bytes_of(&[0.5]))).is_none());
    assert_eq!(c.take_peak(), 0.5f32.to_bits());
    // A later negotiation may try again.
    assert!(c.on_format(true, 48000, 2).is_some());
}

#[test]
fn buffers_go_to_the_encoder_only_once_one_exists() {
    let mut c = StreamContext::new(StreamRole::Microphone, "/tmp/out/microphone.wav".to_string());
    assert!(c.on_buffer(Some(&bytes_of(&[0.5]))).is_none());
    c.on_format(true, 48000, 2).unwrap();
    c.set_encoder(true);
    let batch = c.on_buffer(Some(&bytes_of(&[0.25, -0.75]))).unwrap();
    assert_eq!(batch, vec![0.25f32.to_bits(), (-0.75f32).to_bits()]);
    // An empty delivery is a no-op.
    assert!(c.on_buffer(None).is_none());
}

#[test]
fn rolling_peak_merges_batches_and_resets_on_read() {
    let mut c = StreamContext::new(StreamRole::Microphone, "/tmp/out/microphone.wav".to_string());
    c.on_buffer(Some(&bytes_of(&[0.1, -0.6])));
    c.on_buffer(Some(&bytes_of(&[0.4])));
    assert_eq!(f32::from_bits(c.take_peak()), 0.6);
    assert_eq!(c.take_peak(), 0);
}
