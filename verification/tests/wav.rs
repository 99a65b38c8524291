use typist::wav::{encode_wav, read_header, read_integers, WavHeader};

#[test]
fn test_encode_wav() {
    let sample_rate = 16000;
    let duration_secs = 0.1;
    let num_samples = (sample_rate as f32 * duration_secs) as usize;
    let samples: Vec<f32> = (0..num_samples)
        .map(|i| {
            let t = i as f32 / sample_rate as f32;
            (2.0 * std::f32::consts::PI * 440.0 * t).sin() * 0.5
        })
        .collect();
    let quantised: Vec<i16> =
        samples.iter().map(|s| (s.clamp(-1.0, 1.0) * 32767.0) as i16).collect();

    let wav_data = encode_wav(&quantised, sample_rate).unwrap();

    assert_eq!(wav_data.len(), 44 + num_samples * 2);
    assert_eq!(&wav_data[0..4], b"RIFF");
    assert_eq!(&wav_data[8..12], b"WAVE");
}

#[test]
fn every_byte_of_an_encoded_segment() {
    let bytes = encode_wav(&[0, 1, -1, 258, i16::MAX, i16::MIN], 0x12345678).unwrap();
    let mut expected: Vec<u8> = Vec::new();
    expected.extend_from_slice(b"RIFF");
    expected.extend_from_slice(&[48, 0, 0, 0]);
    expected.extend_from_slice(b"WAVEfmt ");
    expected.extend_from_slice(&[16, 0, 0, 0, 1, 0, 1, 0]);
    expected.extend_from_slice(&[0x78, 0x56, 0x34, 0x12]);
    expected.extend_from_slice(&[0xf0, 0xac, 0x68, 0x24]);
    expected.extend_from_slice(&[2, 0, 16, 0]);
    expected.extend_from_slice(b"data");
    expected.extend_from_slice(&[12, 0, 0, 0]);
    expected.extend_from_slice(&[0, 0, 1, 0, 0xff, 0xff, 2, 1, 0xff, 0x7f, 0, 0x80]);
    assert_eq!(bytes, expected);
}

#[test]
fn an_empty_segment_is_a_header() {
    assert_eq!(encode_wav(&[], 8000).unwrap().len(), 44);
}

#[test]
fn the_limits_of_the_sample_rate() {
    for rate in [1, 0x7fff_ffff] {
        let bytes = encode_wav(&[5], rate).unwrap();
        assert_eq!(read_header(&bytes).unwrap().sample_rate, rate);
    }
}

#[test]
fn what_was_encoded_can_be_read() {
    let samples: Vec<i16> = vec![0, 1, -1, 1000, i16::MAX, i16::MIN];
    let bytes = encode_wav(&samples, 44_100).unwrap();
    assert_eq!(
        read_header(&bytes),
        Some(WavHeader { channels: 1, sample_rate: 44_100, bits_per_sample: 16, is_float: false })
    );
    let expected: Vec<i32> = samples.iter().map(|s| *s as i32).collect();
    assert_eq!(read_integers(&bytes), Some(expected));
}

#[test]
fn what_is_no_wav_file_cannot_be_read() {
    assert_eq!(read_header(b""), None);
    assert_eq!(read_header(b"ID3 not a wave file at all"), None);
    assert_eq!(read_integers(b"RIFF"), None);
    let bytes = encode_wav(&[1, 2, 3], 8000).unwrap();
    assert!(read_header(&bytes[..48]).is_some());
    assert_eq!(read_integers(&bytes[..48]), None);
}
