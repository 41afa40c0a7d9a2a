use whisperflow::capture::AudioRecorder;
use whisperflow::error::AppError;
use whisperflow::sample::{
    pcm16_to_sample, sample_from_i16, sample_from_u16, sample_to_pcm16, SAMPLE_FLOOR, SAMPLE_ONE,
};

#[test]
fn test_audio_recorder_creation() {
    let mut recorder = AudioRecorder::new(16000, 1);
    // A fresh recorder has captured nothing yet.
    assert!(recorder.stop_recording().is_err());
}

#[test]
fn test_stop_right_after_start_reports_no_audio() {
    let mut recorder = AudioRecorder::new(16000, 1);
    recorder.start_recording();
    match recorder.stop_recording() {
        Err(AppError::AudioRecording(m)) => assert_eq!(m, "No audio data recorded"),
        _ => panic!("expected the no-audio-data error"),
    }
}

#[test]
fn test_start_clears_previous_capture() {
    let mut recorder = AudioRecorder::new(16000, 1);
    recorder.start_recording();
    recorder.append_frame_i16(&vec![1, 2, 3]);
    let first = recorder.stop_recording().unwrap();
    assert_eq!(first.len(), 3);

    recorder.start_recording();
    match recorder.stop_recording() {
        Err(AppError::AudioRecording(_)) => {}
        _ => panic!("restart must clear the buffer"),
    }
}

#[test]
fn test_disarmed_recorder_ignores_frames() {
    let mut recorder = AudioRecorder::new(16000, 1);
    recorder.append_frame_i16(&vec![5, 6]);
    assert!(recorder.stop_recording().is_err());
}

#[test]
fn test_i16_frames_scale_linearly() {
    let mut recorder = AudioRecorder::new(16000, 1);
    recorder.start_recording();
    recorder.append_frame_i16(&vec![0, 1, -1, 32767, -32768]);
    let buf = recorder.stop_recording().unwrap();
    assert_eq!(buf, vec![0, 65535, -65535, SAMPLE_ONE, SAMPLE_FLOOR]);
}

#[test]
fn test_u16_frames_scale_linearly() {
    let mut recorder = AudioRecorder::new(16000, 1);
    recorder.start_recording();
    recorder.append_frame_u16(&vec![0, 65535, 32768]);
    let buf = recorder.stop_recording().unwrap();
    assert_eq!(buf[0], -SAMPLE_ONE);
    assert_eq!(buf[1], SAMPLE_ONE);
    // 32768 maps to (2 * 32768 - 65535) * 32767 = 32767: one step above zero.
    assert_eq!(buf[2], 32767);
}

#[test]
fn test_sample_conversion_exact_values() {
    assert_eq!(sample_from_i16(1000), 65535000);
    assert_eq!(sample_from_u16(0), -SAMPLE_ONE);
    assert_eq!(sample_to_pcm16(SAMPLE_ONE), 32767);
    assert_eq!(sample_to_pcm16(SAMPLE_FLOOR), -32768);
    assert_eq!(sample_to_pcm16(0), 0);
    assert_eq!(sample_to_pcm16(-65535), -1);
    assert_eq!(sample_to_pcm16(-65534), 0);
}

#[test]
fn test_sample_round_trip_error_bound() {
    let values: Vec<i32> = vec![
        0,
        1,
        -1,
        65534,
        65536,
        SAMPLE_ONE,
        SAMPLE_FLOOR,
        123456789,
        -123456789,
    ];
    for v in values {
        let rt = pcm16_to_sample(sample_to_pcm16(v));
        let err = (v as i64 - rt as i64).abs();
        // Error stays under one 16-bit step: 1/32767 of full scale.
        assert!(err < 65535, "round trip error {} too large for {}", err, v);
    }
}

#[test]
fn test_round_trip_is_identity_on_pcm_values() {
    for p in [-32768i16, -1, 0, 1, 1234, 32767] {
        assert_eq!(sample_to_pcm16(pcm16_to_sample(p)), p);
    }
}

#[test]
fn test_wav_encoding_golden_header() {
    let recorder = AudioRecorder::new(16000, 1);
    let bytes = recorder.save_wav(&vec![0, -65535]);
    // 0 encodes to PCM 0; -65535 encodes to PCM -1 = 0xffff.
    let expected: Vec<u8> = vec![
        82, 73, 70, 70, // "RIFF"
        40, 0, 0, 0, // 36 + 4 data bytes
        87, 65, 86, 69, // "WAVE"
        102, 109, 116, 32, // "fmt "
        16, 0, 0, 0, // format chunk length
        1, 0, // integer PCM
        1, 0, // mono
        0x80, 0x3e, 0, 0, // 16000 frames per second
        0, 0x7d, 0, 0, // 32000 bytes per second
        2, 0, // frame size
        16, 0, // bits per sample
        100, 97, 116, 97, // "data"
        4, 0, 0, 0, // data length
        0, 0, // sample 0
        255, 255, // sample -1
    ];
    assert_eq!(bytes, expected);
}

#[test]
fn test_wav_sample_count_matches_capture() {
    let mut recorder = AudioRecorder::new(44100, 2);
    recorder.start_recording();
    recorder.append_frame_i16(&vec![10, -10, 20, -20, 30, -30]);
    let buf = recorder.stop_recording().unwrap();
    assert_eq!(buf.len(), 6);
    let bytes = recorder.save_wav(&buf);
    // Exactly the captured samples, at the captured rate.
    assert_eq!(bytes.len(), 44 + 2 * 6);
    let rate = bytes[24] as u32
        + 256 * bytes[25] as u32
        + 65536 * bytes[26] as u32
        + 16777216 * bytes[27] as u32;
    assert_eq!(rate, 44100);
    let channels = bytes[22] as u16 + 256 * bytes[23] as u16;
    assert_eq!(channels, 2);
}

#[test]
fn test_raw_frames_append_in_order() {
    let mut recorder = AudioRecorder::new(16000, 1);
    recorder.start_recording();
    recorder.append_frame_raw(&vec![7, -7]);
    recorder.append_frame_raw(&vec![9]);
    let buf = recorder.stop_recording().unwrap();
    assert_eq!(buf, vec![7, -7, 9]);
}
