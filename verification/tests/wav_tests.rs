use file_transcription::deepgram::DeepgramProvider;

#[test]
fn test_samples_to_wav() {
    let samples = vec![0i16; 16000]; // 1 second of silence
    let wav = DeepgramProvider::samples_to_wav(&samples, 16000);

    // Check WAV header
    assert_eq!(&wav[0..4], b"RIFF");
    assert_eq!(&wav[8..12], b"WAVE");
    assert_eq!(&wav[12..16], b"fmt ");

    // Should have header (44 bytes) + data (16000 * 2 bytes)
    assert_eq!(wav.len(), 44 + 32000);
}

fn u16_at(b: &[u8], i: usize) -> u16 {
    u16::from_le_bytes([b[i], b[i + 1]])
}

fn u32_at(b: &[u8], i: usize) -> u32 {
    u32::from_le_bytes([b[i], b[i + 1], b[i + 2], b[i + 3]])
}

#[test]
fn wav_header_fields_and_samples_read_back() {
    let samples = vec![0i16, 1, -1, i16::MAX, i16::MIN, 1234, -4321];
    let wav = DeepgramProvider::samples_to_wav(&samples, 22050);
    assert_eq!(wav.len(), 44 + 14);
    assert_eq!(u32_at(&wav, 4), 36 + 14);
    assert_eq!(u32_at(&wav, 16), 16);
    assert_eq!(u16_at(&wav, 20), 1);
    assert_eq!(u16_at(&wav, 22), 1);
    assert_eq!(u32_at(&wav, 24), 22050);
    assert_eq!(u32_at(&wav, 28), 44100);
    assert_eq!(u16_at(&wav, 32), 2);
    assert_eq!(u16_at(&wav, 34), 16);
    assert_eq!(&wav[36..40], b"data");
    assert_eq!(u32_at(&wav, 40), 14);
    for (i, s) in samples.iter().enumerate() {
        assert_eq!(u16_at(&wav, 44 + 2 * i) as i16, *s);
    }
    assert_eq!(&wav[46..48], &[1, 0]);
    assert_eq!(&wav[48..50], &[0xff, 0xff]);
}

#[test]
fn empty_wav_is_only_a_header() {
    let wav = DeepgramProvider::samples_to_wav(&[], 16000);
    assert_eq!(wav.len(), 44);
    assert_eq!(u32_at(&wav, 4), 36);
    assert_eq!(u32_at(&wav, 40), 0);
}
