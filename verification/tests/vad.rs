use typist::events::AppEvent;
use typist::vad::{VadConfig, VadProcessor};

fn detector() -> VadProcessor<f32> {
    let config = VadConfig { silence_duration_samples: 4, max_samples: 20, min_speech_samples: 3 };
    VadProcessor::new(config, 16_000)
}

fn segments(events: &[AppEvent<f32>]) -> Vec<Vec<f32>> {
    let mut r = Vec::new();
    for event in events {
        if let AppEvent::SpeechSegmentReady { samples, sample_rate } = event {
            assert_eq!(*sample_rate, 16_000);
            r.push(samples.clone());
        }
    }
    r
}

fn starts(events: &[AppEvent<f32>]) -> usize {
    events.iter().filter(|e| matches!(e, AppEvent::SpeechStarted)).count()
}

#[test]
fn every_chunk_reports_its_level() {
    let mut vad = detector();
    for (level, loud) in [(0.0_f32, false), (0.5, true), (0.1, false)] {
        let events = vad.push_chunk(level, loud, &[level]);
        match &events[0] {
            AppEvent::AudioLevelUpdate(l) => assert_eq!(*l, level),
            _ => panic!("expected the level"),
        }
    }
}

#[test]
fn ambient_noise_is_ignored() {
    let mut vad = detector();
    for _ in 0..10 {
        let events = vad.push_chunk(0.01, false, &[0.01, 0.01]);
        assert_eq!(events.len(), 1);
    }
    let events = vad.push_chunk(0.9, true, &[0.9]);
    assert_eq!(events.len(), 2);
    assert_eq!(starts(&events), 1);
}

#[test]
fn an_utterance_is_one_segment() {
    let mut vad = detector();
    assert_eq!(starts(&vad.push_chunk(0.9, true, &[1.0, 2.0])), 1);
    assert_eq!(starts(&vad.push_chunk(0.9, true, &[3.0])), 0);
    assert!(segments(&vad.push_chunk(0.0, false, &[0.1, 0.2, 0.3])).is_empty());
    let events = vad.push_chunk(0.0, false, &[0.4]);
    assert_eq!(segments(&events), vec![vec![1.0, 2.0, 3.0, 0.1, 0.2, 0.3, 0.4]]);
    // Back to silence
    assert_eq!(vad.push_chunk(0.0, false, &[0.5]).len(), 1);
    assert_eq!(starts(&vad.push_chunk(0.9, true, &[1.0])), 1);
}

#[test]
fn short_pauses_stay_in_the_segment() {
    let mut vad = detector();
    vad.push_chunk(0.9, true, &[1.0, 1.0]);
    vad.push_chunk(0.0, false, &[0.0, 0.0, 0.0]);
    vad.push_chunk(0.9, true, &[2.0]);
    assert!(segments(&vad.push_chunk(0.0, false, &[0.0, 0.0, 0.0])).is_empty());
    let events = vad.push_chunk(0.0, false, &[0.0]);
    assert_eq!(segments(&events), vec![vec![1.0, 1.0, 0.0, 0.0, 0.0, 2.0, 0.0, 0.0, 0.0, 0.0]]);
}

#[test]
fn noise_bursts_are_rejected() {
    let mut vad = detector();
    vad.push_chunk(0.9, true, &[1.0, 1.0]);
    let events = vad.push_chunk(0.0, false, &[0.0, 0.0, 0.0, 0.0]);
    assert!(segments(&events).is_empty());
    // Nothing of the burst is left over
    vad.push_chunk(0.9, true, &[5.0, 5.0, 5.0]);
    let events = vad.push_chunk(0.0, false, &[0.0, 0.0, 0.0, 0.0]);
    assert_eq!(segments(&events), vec![vec![5.0, 5.0, 5.0, 0.0, 0.0, 0.0, 0.0]]);
}

#[test]
fn long_speech_is_cut() {
    let mut vad = detector();
    let long: Vec<f32> = (0..30).map(|i| i as f32).collect();
    let events = vad.push_chunk(0.9, true, &long);
    assert_eq!(starts(&events), 1);
    assert_eq!(segments(&events), vec![long[..20].to_vec()]);
    // The speech goes on with what is left
    let events = vad.push_chunk(0.9, true, &[30.0]);
    assert_eq!(events.len(), 1);
    let events = vad.push_chunk(0.0, false, &[0.0, 0.0, 0.0, 0.0]);
    let mut rest = long[20..].to_vec();
    rest.extend_from_slice(&[30.0, 0.0, 0.0, 0.0, 0.0]);
    assert_eq!(segments(&events), vec![rest]);
    assert_eq!(starts(&vad.push_chunk(0.9, true, &[1.0])), 1);
}

#[test]
fn speech_without_a_pause_keeps_to_the_limit() {
    let config = VadConfig { silence_duration_samples: 4, max_samples: 4, min_speech_samples: 1 };
    let mut vad: VadProcessor<f32> = VadProcessor::new(config, 16_000);
    let mut sent: Vec<Vec<f32>> = Vec::new();
    for i in 0..6 {
        let chunk = [2.0 * i as f32, 2.0 * i as f32 + 1.0];
        sent.extend(segments(&vad.push_chunk(0.9, true, &chunk)));
    }
    assert!(sent.iter().all(|s| s.len() <= 4));
    sent.extend(segments(&vad.push_chunk(0.0, false, &[-1.0, -2.0, -3.0, -4.0])));
    assert!(sent.iter().all(|s| s.len() <= 4));
    let all: Vec<f32> = sent.concat();
    // All of the speech is sent, and no more of the silence than there is room for
    let expected: Vec<f32> = (0..12).map(|i| i as f32).collect();
    assert_eq!(all, expected);
}

#[test]
fn a_pause_ends_a_long_recording() {
    let mut vad = detector();
    assert!(segments(&vad.push_chunk(0.9, true, &[1.0; 19])).is_empty());
    let events = vad.push_chunk(0.0, false, &[0.0]);
    let mut whole = vec![1.0; 19];
    whole.push(0.0);
    assert_eq!(segments(&events), vec![whole]);
    assert_eq!(starts(&vad.push_chunk(0.9, true, &[1.0])), 1);
}

#[test]
fn the_rest_of_a_long_utterance_is_sent() {
    let config = VadConfig { silence_duration_samples: 2, max_samples: 4, min_speech_samples: 2 };
    let mut vad: VadProcessor<f32> = VadProcessor::new(config, 16_000);
    let events = vad.push_chunk(0.9, true, &[1.0, 2.0, 3.0, 4.0, 5.0]);
    assert_eq!(segments(&events), vec![vec![1.0, 2.0, 3.0, 4.0]]);
    let events = vad.push_chunk(0.0, false, &[0.0, 0.0]);
    assert_eq!(segments(&events), vec![vec![5.0, 0.0, 0.0]]);
    // The next sound is judged anew
    vad.push_chunk(0.9, true, &[6.0]);
    assert!(segments(&vad.push_chunk(0.0, false, &[0.0, 0.0])).is_empty());
}

#[test]
fn without_room_nothing_is_recorded() {
    let config = VadConfig { silence_duration_samples: 1, max_samples: 0, min_speech_samples: 1 };
    let mut vad: VadProcessor<f32> = VadProcessor::new(config, 16_000);
    for _ in 0..2 {
        let events = vad.push_chunk(0.9, true, &[1.0]);
        assert_eq!(events.len(), 2);
        assert_eq!(starts(&events), 1);
        assert_eq!(vad.push_chunk(0.9, true, &[1.0]).len(), 1);
        assert_eq!(vad.push_chunk(0.0, false, &[0.0]).len(), 1);
    }
}

#[test]
fn segments_are_stretches_of_the_audio() {
    let mut vad = detector();
    let mut heard: Vec<f32> = Vec::new();
    let mut found = 0;
    for i in 0..200_usize {
        let loud = (i * i / 7) % 5 < 3;
        let chunk = vec![2.0 * i as f32, 2.0 * i as f32 + 1.0];
        heard.extend_from_slice(&chunk);
        for segment in segments(&vad.push_chunk(0.0, loud, &chunk)) {
            assert!(segment.len() <= 20);
            assert!(heard.windows(segment.len()).any(|w| w == segment.as_slice()));
            found += 1;
        }
    }
    assert!(found > 0);
}
