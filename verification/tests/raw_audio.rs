use transcoder::raw_audio_data::AudioChannels;
use transcoder::raw_audio_data::AudioTag;
use transcoder::raw_audio_data::EmbeddedImage;
use transcoder::raw_audio_data::RawAudioData;
use transcoder::raw_audio_data::TagKey;
use transcoder::raw_audio_data::channel_of_bit;
use transcoder::raw_audio_data::channels_of_mask;
use transcoder::mp3::build_tag_block;
use transcoder::mp3::get_correct_bitrate;
use transcoder::mp3::get_correct_quality;
use transcoder::mp3::Mp3Bitrate;
use transcoder::mp3::Mp3Quality;

#[test]
fn mask_bits_map_to_channels_in_order() {
    assert_eq!(channels_of_mask(0b11), vec![AudioChannels::FrontLeft, AudioChannels::FrontRight]);
    assert_eq!(channels_of_mask(0x600), vec![AudioChannels::SideLeft, AudioChannels::SideRight]);
    assert_eq!(channels_of_mask(0), Vec::<AudioChannels>::new());
    assert_eq!(channels_of_mask((1 << 30) | 1), vec![AudioChannels::FrontLeft]);
    assert_eq!(channels_of_mask(1 << 25), vec![AudioChannels::FrontRightWide]);
}

#[test]
fn bits_outside_the_mask_have_no_channel() {
    assert_eq!(channel_of_bit(0), Some(AudioChannels::FrontLeft));
    assert_eq!(channel_of_bit(9), Some(AudioChannels::SideLeft));
    assert_eq!(channel_of_bit(25), Some(AudioChannels::FrontRightWide));
    assert_eq!(channel_of_bit(26), None);
    assert_eq!(channel_of_bit(63), None);
}

#[test]
fn getters_return_what_was_constructed() {
    let audio = vec![
        (AudioChannels::FrontLeft, vec![1, 2, 3]),
        (AudioChannels::FrontRight, vec![4, 5, 6]),
    ];
    let tags = vec![AudioTag {
        std_key: Some(TagKey::Title),
        key: String::from("TITLE"),
        value: String::from("t"),
    }];
    let data = RawAudioData::new(audio, 44100, 24, None, None, tags);
    assert_eq!(data.get_sample_rate(), 44100);
    assert_eq!(data.get_bit_depth(), 24);
    assert_eq!(data.get_no_of_channels(), 2);
    assert_eq!(data.get_tags().len(), 1);
    assert!(data.get_album_art().is_none());
    assert_eq!(data.get_audio_data()[0].1, vec![1, 2, 3]);
}

#[test]
fn approximate_size_counts_samples_and_image_pixels() {
    let audio = vec![(AudioChannels::FrontLeft, vec![0; 100])];
    let image = EmbeddedImage {
        data: vec![0; 10],
        dimensions: Some((10, 10)),
        bits_per_pixel: Some(8),
    };
    let with_image = RawAudioData::new(audio.clone(), 44100, 32, Some(image), None, Vec::new());
    assert_eq!(with_image.get_approx_size(), 100 * 4 + 8 * 10 * 10);

    let without = RawAudioData::new(audio, 44100, 32, None, None, Vec::new());
    assert_eq!(without.get_approx_size(), 400);

    let empty = RawAudioData::new(Vec::new(), 44100, 32, None, None, Vec::new());
    assert_eq!(empty.get_approx_size(), 0);
}

fn tag(std_key: Option<TagKey>, key: &str, value: &str) -> AudioTag {
    AudioTag { std_key, key: String::from(key), value: String::from(value) }
}

#[test]
fn tag_block_takes_the_last_value_per_key() {
    let tags = vec![
        tag(Some(TagKey::Title), "TITLE", "First"),
        tag(Some(TagKey::Artist), "ARTIST", "Someone"),
        tag(Some(TagKey::Title), "TITLE", "Second"),
    ];
    let block = build_tag_block(&tags);
    assert_eq!(block.title, String::from("Second"));
    assert_eq!(block.artist, String::from("Someone"));
    assert_eq!(block.album, String::from(""));
}

#[test]
fn unkeyed_tags_are_filed_under_comment() {
    let tags = vec![
        tag(Some(TagKey::Comment), "COMMENT", "real comment"),
        tag(None, "MYSTERY", "fallback"),
    ];
    let block = build_tag_block(&tags);
    assert_eq!(block.comment, String::from("fallback"));

    let tags = vec![tag(None, "MYSTERY", "only"), tag(Some(TagKey::Comment), "COMMENT", "later")];
    let block = build_tag_block(&tags);
    assert_eq!(block.comment, String::from("later"));
}

#[test]
fn other_standard_keys_never_reach_the_block() {
    let tags = vec![
        tag(Some(TagKey::Other), "GENRE", "Jazz"),
        tag(Some(TagKey::Date), "DATE", "2001"),
    ];
    let block = build_tag_block(&tags);
    assert_eq!(block.year, String::from("2001"));
    assert_eq!(block.title, String::from(""));
    assert_eq!(block.comment, String::from(""));
}

#[test]
fn quality_levels_run_best_to_worst() {
    assert_eq!(get_correct_quality(Mp3Quality::Best), 0);
    assert_eq!(get_correct_quality(Mp3Quality::Nice), 4);
    assert_eq!(get_correct_quality(Mp3Quality::Worst), 9);
}

#[test]
fn the_unknown_bitrate_defaults_to_the_highest_step() {
    assert_eq!(get_correct_bitrate(Mp3Bitrate::BitrateUnknownDoNotUse), 320);
    assert_eq!(get_correct_bitrate(Mp3Bitrate::Kbps8), 8);
    assert_eq!(get_correct_bitrate(Mp3Bitrate::Kbps192), 192);
    assert_eq!(get_correct_bitrate(Mp3Bitrate::Kbps320), 320);
}
