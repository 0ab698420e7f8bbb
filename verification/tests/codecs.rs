use transcoder::decode::DecodeError;
use transcoder::mp3::EncodeError;
use transcoder::mp3::Mp3Bitrate;
use transcoder::mp3::Mp3Encoder;
use transcoder::mp3::Mp3Quality;
use transcoder::raw_audio_data::AudioChannels;
use transcoder::raw_audio_data::EmbeddedImage;
use transcoder::raw_audio_data::RawAudioData;

fn push_u32(out: &mut Vec<u8>, v: u32) {
    out.extend_from_slice(&v.to_le_bytes());
}

fn push_u16(out: &mut Vec<u8>, v: u16) {
    out.extend_from_slice(&v.to_le_bytes());
}

/// A minimal 32-bit PCM WAV stream with the given per-channel samples.
fn wav_bytes(sample_rate: u32, channels: &[Vec<i32>]) -> Vec<u8> {
    let num_channels = channels.len() as u16;
    let frames = channels[0].len();
    let block_align = num_channels * 4;
    let data_size = (frames as u32) * (block_align as u32);
    let mut out = Vec::new();
    out.extend_from_slice(b"RIFF");
    push_u32(&mut out, 36 + data_size);
    out.extend_from_slice(b"WAVE");
    out.extend_from_slice(b"fmt ");
    push_u32(&mut out, 16);
    push_u16(&mut out, 1);
    push_u16(&mut out, num_channels);
    push_u32(&mut out, sample_rate);
    push_u32(&mut out, sample_rate * block_align as u32);
    push_u16(&mut out, block_align);
    push_u16(&mut out, 32);
    out.extend_from_slice(b"data");
    push_u32(&mut out, data_size);
    for f in 0..frames {
        for ch in channels {
            out.extend_from_slice(&ch[f].to_le_bytes());
        }
    }
    out
}

#[test]
fn decoding_a_mono_stream_recovers_the_samples() {
    let samples: Vec<i32> = (0..4800).map(|i| (i as i32 - 2400) * 1000).collect();
    let bytes = wav_bytes(48000, &[samples.clone()]);
    let audio = RawAudioData::new_from_bytes(bytes).unwrap();
    assert_eq!(audio.get_sample_rate(), 48000);
    assert_eq!(audio.get_bit_depth(), 32);
    assert_eq!(audio.get_no_of_channels(), 1);
    let data = audio.get_audio_data();
    assert_eq!(data[0].0, AudioChannels::FrontLeft);
    assert_eq!(data[0].1, samples);
}

#[test]
fn decoding_a_stereo_stream_separates_the_planes() {
    let left: Vec<i32> = (0..1000).map(|i| i as i32).collect();
    let right: Vec<i32> = (0..1000).map(|i| -(i as i32)).collect();
    let bytes = wav_bytes(44100, &[left.clone(), right.clone()]);
    let audio = RawAudioData::new_from_bytes(bytes).unwrap();
    assert_eq!(audio.get_no_of_channels(), 2);
    let data = audio.get_audio_data();
    assert_eq!(data[0].0, AudioChannels::FrontLeft);
    assert_eq!(data[1].0, AudioChannels::FrontRight);
    assert_eq!(data[0].1, left);
    assert_eq!(data[1].1, right);
}

#[test]
fn garbage_bytes_fail_to_decode() {
    let r = RawAudioData::new_from_bytes(vec![1, 2, 3, 4, 5, 6, 7, 8]);
    assert!(r.is_err());
}

#[test]
fn a_truncated_container_fails_to_decode() {
    let samples: Vec<i32> = (0..1000).map(|i| i as i32).collect();
    let mut bytes = wav_bytes(44100, &[samples]);
    bytes.truncate(30);
    assert!(RawAudioData::new_from_bytes(bytes).is_err());
}

#[test]
fn encode_then_decode_keeps_rate_and_duration() {
    // A second of synthetic mono audio survives the trip through the
    // encoder with its sample rate intact and a consistent duration.
    let n: usize = 44100;
    let samples: Vec<i32> = (0..n).map(|i| (((i % 441) as i32) - 220) * 1_000_000).collect();
    let source = RawAudioData::new(
        vec![(AudioChannels::FrontCentre, samples)],
        44100,
        32,
        None,
        None,
        Vec::new(),
    );
    let mp3 = source.encode_to_mp3(Mp3Quality::Best, Mp3Bitrate::Kbps320).unwrap();
    assert!(mp3.len() > 1000);

    let mss = symphonia::core::io::MediaSourceStream::new(
        Box::new(std::io::Cursor::new(mp3)),
        Default::default(),
    );
    let mut reader = symphonia::default::get_probe()
        .probe(
            &symphonia::core::formats::probe::Hint::new(),
            mss,
            symphonia::core::formats::FormatOptions::default(),
            symphonia::core::meta::MetadataOptions::default(),
        )
        .unwrap();
    let track = reader.default_track(symphonia::core::formats::TrackType::Audio).unwrap();
    let params = track.codec_params.as_ref().unwrap().audio().unwrap().clone();
    assert_eq!(params.sample_rate, Some(44100));
    let mut decoder = symphonia::default::get_codecs()
        .make_audio_decoder(&params, &Default::default())
        .unwrap();
    let mut frames: usize = 0;
    while let Some(packet) = reader.next_packet().unwrap() {
        let decoded = decoder.decode(&packet).unwrap();
        frames += decoded.frames();
    }
    assert!(frames >= n, "decoded fewer frames than were encoded: {}", frames);
    assert!(frames <= n + 10000, "decoded far more frames than were encoded: {}", frames);
}

#[test]
fn side_channels_encode_as_the_stereo_pair() {
    // Only side-left and side-right present: the fallback uses them as
    // the left and right signals and the encode succeeds.
    let left: Vec<i32> = (0..4410).map(|i| (i as i32 % 100) * 100_000).collect();
    let right: Vec<i32> = (0..4410).map(|i| -((i as i32 % 100) * 100_000)).collect();
    let source = RawAudioData::new(
        vec![(AudioChannels::SideLeft, left), (AudioChannels::SideRight, right)],
        44100,
        32,
        None,
        None,
        Vec::new(),
    );
    let mp3 = source.encode_to_mp3(Mp3Quality::Good, Mp3Bitrate::Kbps128).unwrap();
    assert!(mp3.len() > 100);
}

#[test]
fn an_empty_channel_map_cannot_encode() {
    let source = RawAudioData::new(Vec::new(), 44100, 32, None, None, Vec::new());
    let r = source.encode_to_mp3(Mp3Quality::Best, Mp3Bitrate::Kbps128);
    assert!(matches!(
        r.unwrap_err(),
        EncodeError::Configuration(_) | EncodeError::MissingLeftChannel
    ));
}

#[test]
fn a_map_without_a_right_source_cannot_encode() {
    let source = RawAudioData::new(
        vec![
            (AudioChannels::FrontLeft, vec![0; 100]),
            (AudioChannels::FrontCentre, vec![0; 100]),
        ],
        44100,
        32,
        None,
        None,
        Vec::new(),
    );
    let r = source.encode_to_mp3(Mp3Quality::Best, Mp3Bitrate::Kbps128);
    assert_eq!(r.unwrap_err(), EncodeError::MissingRightChannel);
}

#[test]
fn oversized_album_art_is_a_tagging_error() {
    let art = EmbeddedImage { data: vec![0; 200_000], dimensions: None, bits_per_pixel: None };
    let source = RawAudioData::new(
        vec![(AudioChannels::FrontLeft, vec![0; 100])],
        44100,
        32,
        Some(art),
        None,
        Vec::new(),
    );
    let r = source.encode_to_mp3(Mp3Quality::Best, Mp3Bitrate::Kbps128);
    assert!(matches!(r.unwrap_err(), EncodeError::Tagging(_)));
}

#[test]
fn unsupported_sample_layouts_are_rejected() {
    // A 16-bit PCM stream decodes, but not into the supported
    // 32-bit-signed layout.
    let mut out = Vec::new();
    out.extend_from_slice(b"RIFF");
    push_u32(&mut out, 36 + 200);
    out.extend_from_slice(b"WAVE");
    out.extend_from_slice(b"fmt ");
    push_u32(&mut out, 16);
    push_u16(&mut out, 1);
    push_u16(&mut out, 1);
    push_u32(&mut out, 44100);
    push_u32(&mut out, 44100 * 2);
    push_u16(&mut out, 2);
    push_u16(&mut out, 16);
    out.extend_from_slice(b"data");
    push_u32(&mut out, 200);
    for i in 0..100 {
        out.extend_from_slice(&(i as i16).to_le_bytes());
    }
    let r = RawAudioData::new_from_bytes(out);
    assert_eq!(r.unwrap_err(), DecodeError::UnsupportedSampleLayout);
}
