use typist::audio::{
    audio_file_kind, capture_device, check_named_file, check_samples, check_wav, file_display_name,
    load_audio_file, load_wav, name_has_extension, validate_audio_path, AudioError, AudioFile,
    AudioFileKind, AudioSource, CaptureDevice, DecodedAudio, WavAudio, WavSamples,
};
use typist::events::AppEvent;
use typist::wav::{encode_wav, WavHeader};

fn file(path: &str) -> AudioSource {
    AudioSource::File(path.to_string())
}

#[test]
fn sources_have_names() {
    assert_eq!(AudioSource::Microphone.display_name(), "Microphone");
    assert_eq!(AudioSource::SystemAudio.display_name(), "System audio");
    assert_eq!(file("/tmp/talks/one.wav").display_name(), "File: one.wav");
    assert_eq!(file("one.mp3").display_name(), "File: one.mp3");
    assert_eq!(file("talks/one.mp3/./").display_name(), "File: one.mp3");
    let shown = file("C:\\talks\\one.wav").display_name();
    assert!(shown.starts_with("File: ") && shown.ends_with("one.wav"));
    assert_eq!(file("..").display_name(), "File: audio file");
    assert_eq!(file("").display_name(), "File: audio file");
    assert_eq!(file_display_name(None), "File: audio file");
    assert_eq!(file_display_name(Some("x.wav".to_string())), "File: x.wav");
}

#[test]
fn files_are_not_live() {
    assert!(AudioSource::Microphone.is_live());
    assert!(AudioSource::SystemAudio.is_live());
    assert!(!file("a.wav").is_live());
}

#[test]
fn extensions() {
    let has = |name: &str, wanted: &str| name_has_extension(&Some(name.to_string()), wanted);
    assert!(has("a.wav", "wav") && has("a.WAV", "wav") && has("a.b.Mp3", "mp3"));
    assert!(!has("a.wave", "wav") && !has("wav", "wav") && !has(".wav", "wav") && !has("a.wav.", "wav"));
    assert!(!name_has_extension(&None, "wav"));
}

#[test]
fn audio_paths_are_checked() {
    for path in [
        "a.wav",
        "/music/b.MP3",
        "dir.mp3/c.Wav",
        "C:\\m\\a.wav",
        "C:a.mp3",
        "talk 10:30.wav",
        "10:30.Mp3/./",
        "\\\\server\\share\\talks\\a.wav",
        "//server/share/a.wav",
        "a.wav/",
        "a.mp3/./",
    ] {
        assert_eq!(validate_audio_path(path.to_string(), true), Ok(file(path)));
        let missing = validate_audio_path(path.to_string(), false).unwrap_err();
        assert_eq!(missing.message(), format!("Audio file does not exist: {}", path));
    }
    for path in [
        "a.ogg",
        "wav",
        ".wav",
        "a.mp3/notes",
        "",
        "/",
        ".",
        "a.wav/..",
        "C:\\a.mp3\\notes",
        "C:\\m\\a.ogg",
        "C:\\a.wav\\..",
    ] {
        let e = validate_audio_path(path.to_string(), true).unwrap_err();
        assert_eq!(e, AudioError::Unsupported);
        assert_eq!(e.message(), "Unsupported audio file. Typist accepts WAV and MP3 files.");
    }
    assert_eq!(
        check_named_file("p".to_string(), Some("x.mp3".to_string()), true),
        Ok(file("p"))
    );
}

#[test]
fn decoders_are_chosen_by_name() {
    assert_eq!(audio_file_kind("x/y.MP3"), AudioFileKind::Mp3);
    assert_eq!(audio_file_kind("x/y.wav"), AudioFileKind::Wav);
    assert_eq!(audio_file_kind("mp3"), AudioFileKind::Wav);
    assert_eq!(audio_file_kind("C:\\m\\a.mp3"), AudioFileKind::Mp3);
    assert_eq!(audio_file_kind("a.mp3:b.wav"), AudioFileKind::Wav);
}

#[test]
fn capture_devices() {
    assert_eq!(capture_device(&AudioSource::Microphone, false), Ok(CaptureDevice::DefaultInput));
    assert_eq!(capture_device(&AudioSource::Microphone, true), Ok(CaptureDevice::DefaultInput));
    assert_eq!(capture_device(&AudioSource::SystemAudio, true), Ok(CaptureDevice::DefaultOutput));
    assert_eq!(
        capture_device(&AudioSource::SystemAudio, false).unwrap_err().message(),
        "System audio capture is currently supported on Windows"
    );
    assert_eq!(
        capture_device(&file("a.wav"), true).unwrap_err().message(),
        "File is not a live audio source"
    );
}

#[test]
fn wav_files_are_loaded() {
    let bytes = encode_wav(&[100, -100, 7], 22_050).unwrap();
    assert_eq!(
        load_wav(&bytes, "a.wav"),
        Ok(WavAudio {
            channels: 1,
            sample_rate: 22_050,
            samples: WavSamples::Integers { samples: vec![100, -100, 7], exponent: 15 },
        })
    );
}

#[test]
fn loads_and_downmixes_stereo_wav() {
    let spec = hound::WavSpec {
        channels: 2,
        sample_rate: 16_000,
        bits_per_sample: 16,
        sample_format: hound::SampleFormat::Int,
    };
    let mut bytes = std::io::Cursor::new(Vec::new());
    let mut writer = hound::WavWriter::new(&mut bytes, spec).unwrap();
    writer.write_sample(16_384_i16).unwrap();
    writer.write_sample(-16_384_i16).unwrap();
    writer.write_sample(8_192_i16).unwrap();
    writer.write_sample(8_192_i16).unwrap();
    writer.finalize().unwrap();

    let audio = match load_audio_file("typist-audio-test.wav", bytes.get_ref()).unwrap() {
        DecodedAudio::Wav(audio) => audio,
        DecodedAudio::Mp3(_) => panic!("expected a WAV file"),
    };
    assert_eq!(audio.sample_rate, 16_000);
    assert_eq!(audio.channels, 2);
    match audio.samples {
        WavSamples::Integers { samples, exponent } => {
            assert_eq!(samples, vec![16_384, -16_384, 8_192, 8_192]);
            assert_eq!(exponent, 15);
            // The frames, each as the mean of its channels
            let scale = 2.0_f32.powi(exponent as i32);
            let frames: Vec<f32> = samples
                .chunks(2)
                .map(|f| (f[0] as f32 / scale + f[1] as f32 / scale) / 2.0)
                .collect();
            assert_eq!(frames.len(), 2);
            assert!(frames[0].abs() < 0.0001);
            assert!((frames[1] - 0.25).abs() < 0.0001);
        }
        WavSamples::Floats => panic!("expected integers"),
    }
}

#[test]
fn stereo_wav_files_are_loaded() {
    let mut bytes = encode_wav(&[16_384, -16_384, 8_192, 8_192], 16_000).unwrap();
    // Two channels: the bytes per second and per frame are twice as many
    bytes[22] = 2;
    bytes[28..32].copy_from_slice(&64_000_u32.to_le_bytes());
    bytes[32] = 4;
    let audio = load_wav(&bytes, "a.wav").unwrap();
    assert_eq!(audio.channels, 2);
    assert_eq!(audio.sample_rate, 16_000);
    assert_eq!(
        audio.samples,
        WavSamples::Integers { samples: vec![16_384, -16_384, 8_192, 8_192], exponent: 15 }
    );
}

#[test]
fn float_wav_files_are_left_to_the_caller() {
    let mut bytes: Vec<u8> = Vec::new();
    bytes.extend_from_slice(b"RIFF\x28\0\0\0WAVEfmt \x10\0\0\0\x03\0\x01\0");
    bytes.extend_from_slice(&8000_u32.to_le_bytes());
    bytes.extend_from_slice(&32_000_u32.to_le_bytes());
    bytes.extend_from_slice(b"\x04\0\x20\0data\x04\0\0\0");
    bytes.extend_from_slice(&0.5_f32.to_le_bytes());
    let audio = load_wav(&bytes, "f.wav").unwrap();
    assert_eq!(audio, WavAudio { channels: 1, sample_rate: 8000, samples: WavSamples::Floats });
}

#[test]
fn faulty_wav_files() {
    assert_eq!(
        load_wav(b"nothing", "a.wav").unwrap_err().message(),
        "Failed to open audio file: a.wav"
    );
    let bytes = encode_wav(&[1, 2, 3], 8000).unwrap();
    assert_eq!(
        load_wav(&bytes[..47], "a.wav").unwrap_err().message(),
        "Failed to decode PCM WAV sample"
    );
    let empty = encode_wav(&[], 8000).unwrap();
    assert_eq!(
        load_wav(&empty, "a.wav").unwrap_err().message(),
        "Audio file contains no samples: a.wav"
    );
}

#[test]
fn what_was_read_of_a_wav_file_is_checked() {
    let header =
        WavHeader { channels: 2, sample_rate: 8000, bits_per_sample: 24, is_float: false };
    let bad = vec![
        WavHeader { channels: 0, ..header },
        WavHeader { sample_rate: 0, ..header },
        WavHeader { channels: 0, is_float: true, ..header },
    ];
    for h in bad {
        let e = check_wav(Some(h), Some(vec![1]), "a.wav").unwrap_err();
        assert_eq!(e.message(), "Audio file has an invalid WAV format: a.wav");
    }
    assert_eq!(check_wav(None, None, "a"), Err(AudioError::Unreadable("a".to_string())));
    assert_eq!(check_wav(Some(header), None, "a"), Err(AudioError::Undecodable));
    assert_eq!(
        check_wav(Some(header), Some(vec![]), "a"),
        Err(AudioError::NoSamples("a".to_string()))
    );
    assert_eq!(
        check_wav(Some(header), Some(vec![1, 2]), "a").unwrap().samples,
        WavSamples::Integers { samples: vec![1, 2], exponent: 23 }
    );
    assert!(check_samples(1, "a").is_ok());
    assert_eq!(check_samples(0, "a"), Err(AudioError::NoSamples("a".to_string())));
}

#[test]
fn audio_files_are_loaded_by_their_names() {
    let bytes = encode_wav(&[1, 2], 8000).unwrap();
    match load_audio_file("x/a.WAV", &bytes) {
        Ok(DecodedAudio::Wav(audio)) => assert_eq!(audio.sample_rate, 8000),
        _ => panic!("expected a WAV file"),
    }
    assert_eq!(
        load_audio_file("a.wav", b"").unwrap_err(),
        AudioError::Unreadable("a.wav".to_string())
    );
    assert_eq!(load_audio_file("a.mp3", b"").unwrap_err(), AudioError::NothingDecoded);
}

#[test]
fn files_are_submitted_whole() {
    let audio = AudioFile { samples: vec![0.5_f32, 0.25], sample_rate: 8000 };
    match audio.into_event() {
        AppEvent::SpeechSegmentReady { samples, sample_rate } => {
            assert_eq!(samples, vec![0.5, 0.25]);
            assert_eq!(sample_rate, 8000);
        }
        _ => panic!("expected a segment"),
    }
}
