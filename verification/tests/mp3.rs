use typist::audio::AudioError;
use typist::mp3::{load_mp3, Mp3Frame, Mp3Step, Mp3Track};

/// Frames of MPEG-1 layer III at 128 kbit/s, 44.1 kHz and two channels, all of silence.
fn silent_frames(count: usize) -> Vec<u8> {
    let mut bytes = Vec::new();
    for _ in 0..count {
        bytes.extend_from_slice(&[0xff, 0xfb, 0x90, 0x00]);
        bytes.extend_from_slice(&[0_u8; 413]);
    }
    bytes
}

fn frame(sample_rate: u32) -> Mp3Frame {
    Mp3Frame { samples: vec![1, 2], sample_rate, channels: 2 }
}

#[test]
fn mp3_files_are_decoded() {
    let audio = load_mp3(&silent_frames(5), "a.mp3").unwrap();
    assert_eq!(audio.sample_rate, 44_100);
    assert!(!audio.frames.is_empty() && audio.frames.len() <= 5);
    for f in &audio.frames {
        assert_eq!(f.sample_rate, 44_100);
        assert_eq!(f.channels, 2);
        assert_eq!(f.samples, vec![0_i16; 2304]);
    }
}

#[test]
fn what_is_no_mp3_file_is_not_decoded() {
    for bytes in [&b""[..], &b"plain text"[..], &[0_u8; 4000][..]] {
        let e = load_mp3(bytes, "a.mp3").unwrap_err();
        assert_eq!(e, AudioError::NothingDecoded);
        assert_eq!(e.message(), "MP3 file contains no decodable audio");
    }
}

#[test]
fn mp3_tracks_keep_their_rate() {
    let mut track = Mp3Track::new();
    assert_eq!(track.accept(Mp3Step::Frame(frame(44_100)), "a.mp3"), Ok(true));
    assert_eq!(track.accept(Mp3Step::Frame(frame(44_100)), "a.mp3"), Ok(true));
    let e = track.accept(Mp3Step::Frame(frame(48_000)), "a.mp3").unwrap_err();
    assert_eq!(e.message(), "MP3 sample rate changes within a.mp3");
    assert_eq!(track.accept(Mp3Step::End, "a.mp3"), Ok(false));
    let audio = track.finish().unwrap();
    assert_eq!(audio.sample_rate, 44_100);
    assert_eq!(audio.frames, vec![frame(44_100), frame(44_100)]);
}

#[test]
fn decoder_faults_are_errors() {
    for step in [Mp3Step::Io, Mp3Step::InsufficientData, Mp3Step::SkippedData] {
        let mut track = Mp3Track::new();
        let e = track.accept(step, "a.mp3").unwrap_err();
        assert_eq!(e.message(), "Failed to decode MP3 audio");
    }
    assert_eq!(Mp3Track::new().finish().unwrap_err(), AudioError::NothingDecoded);
}
