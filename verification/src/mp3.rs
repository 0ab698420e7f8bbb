//! Encoding channel-mapped PCM to an MP3 byte stream.
//!
//! The LAME encoder does the compression behind the trusted wrappers
//! below.  Everything that decides is verified: the quality and bitrate
//! tables, the tag block built from the tag list (last write wins per
//! key, unkeyed tags filed under comment), the left/right channel
//! assignment with its side/rear fallback, and the output-buffer sizing
//! with its fixed safety margin for large embedded images.

use vstd::prelude::*;
use vstd::string::StringExecFns;
use crate::raw_audio_data::AudioChannels;
use crate::raw_audio_data::AudioTag;
use crate::raw_audio_data::RawAudioData;
use crate::raw_audio_data::TagKey;

verus! {

/// The ten discrete encoder quality levels, best to worst.
#[derive(Clone, Copy, Debug, PartialEq, Eq, Structural)]
pub enum Mp3Quality {
    Best,
    SecondBest,
    NearBest,
    VeryNice,
    Nice,
    Good,
    Decent,
    Okay,
    SecondWorst,
    Worst,
}

/// The sixteen discrete bitrate steps in kbit/s, plus an "unknown"
/// sentinel that defaults to the highest step.
#[derive(Clone, Copy, Debug, PartialEq, Eq, Structural)]
pub enum Mp3Bitrate {
    BitrateUnknownDoNotUse,
    Kbps8,
    Kbps16,
    Kbps24,
    Kbps32,
    Kbps40,
    Kbps48,
    Kbps64,
    Kbps80,
    Kbps96,
    Kbps112,
    Kbps128,
    Kbps160,
    Kbps192,
    Kbps224,
    Kbps256,
    Kbps320,
}

/// Encoder configuration: quality and bitrate.
#[derive(Clone, Copy, Debug)]
pub struct Mp3Config {
    pub quality: Mp3Quality,
    pub bitrate: Mp3Bitrate,
}

/// Why a value could not be encoded.
#[derive(Clone, Debug, PartialEq, Eq)]
pub enum EncodeError {
    /// No front, side or rear left channel to use as the left signal.
    MissingLeftChannel,
    /// No front, side or rear right channel to use as the right signal.
    MissingRightChannel,
    /// The channel map is empty.
    NoChannels,
    /// The encoder rejected its configuration.
    Configuration(String),
    /// The encoder rejected the tag block.
    Tagging(String),
    /// The encode call itself failed.
    Encoding(String),
    /// The final no-gap flush failed.
    Flush(String),
}

/// The numeric level of a quality setting: 0 is best, 9 is worst.
pub open spec fn spec_quality_level(q: Mp3Quality) -> u32 {
    match q {
        Mp3Quality::Best => 0,
        Mp3Quality::SecondBest => 1,
        Mp3Quality::NearBest => 2,
        Mp3Quality::VeryNice => 3,
        Mp3Quality::Nice => 4,
        Mp3Quality::Good => 5,
        Mp3Quality::Decent => 6,
        Mp3Quality::Okay => 7,
        Mp3Quality::SecondWorst => 8,
        Mp3Quality::Worst => 9,
    }
}

/// The kbit/s value of a bitrate setting; the unknown sentinel maps to
/// the highest step, 320.
pub open spec fn spec_bitrate_kbps(b: Mp3Bitrate) -> u32 {
    match b {
        Mp3Bitrate::BitrateUnknownDoNotUse => 320,
        Mp3Bitrate::Kbps8 => 8,
        Mp3Bitrate::Kbps16 => 16,
        Mp3Bitrate::Kbps24 => 24,
        Mp3Bitrate::Kbps32 => 32,
        Mp3Bitrate::Kbps40 => 40,
        Mp3Bitrate::Kbps48 => 48,
        Mp3Bitrate::Kbps64 => 64,
        Mp3Bitrate::Kbps80 => 80,
        Mp3Bitrate::Kbps96 => 96,
        Mp3Bitrate::Kbps112 => 112,
        Mp3Bitrate::Kbps128 => 128,
        Mp3Bitrate::Kbps160 => 160,
        Mp3Bitrate::Kbps192 => 192,
        Mp3Bitrate::Kbps224 => 224,
        Mp3Bitrate::Kbps256 => 256,
        Mp3Bitrate::Kbps320 => 320,
    }
}

/// The kbit/s values the encoder accepts.
pub open spec fn is_valid_kbps(k: u32) -> bool {
    ||| k == 8 ||| k == 16 ||| k == 24 ||| k == 32 ||| k == 40 ||| k == 48
    ||| k == 64 ||| k == 80 ||| k == 96 ||| k == 112 ||| k == 128 ||| k == 160
    ||| k == 192 ||| k == 224 ||| k == 256 ||| k == 320
}

/// The quality level handed to the encoder for a quality setting.
pub fn get_correct_quality(quality: Mp3Quality) -> (level: u32)
    ensures
        level == spec_quality_level(quality),
        level <= 9,
{
    match quality {
        Mp3Quality::Best => 0,
        Mp3Quality::SecondBest => 1,
        Mp3Quality::NearBest => 2,
        Mp3Quality::VeryNice => 3,
        Mp3Quality::Nice => 4,
        Mp3Quality::Good => 5,
        Mp3Quality::Decent => 6,
        Mp3Quality::Okay => 7,
        Mp3Quality::SecondWorst => 8,
        Mp3Quality::Worst => 9,
    }
}

/// The kbit/s value handed to the encoder for a bitrate setting; the
/// unknown sentinel becomes the highest step.
pub fn get_correct_bitrate(bitrate: Mp3Bitrate) -> (kbps: u32)
    ensures
        kbps == spec_bitrate_kbps(bitrate),
        is_valid_kbps(kbps),
{
    match bitrate {
        Mp3Bitrate::BitrateUnknownDoNotUse => 320,
        Mp3Bitrate::Kbps8 => 8,
        Mp3Bitrate::Kbps16 => 16,
        Mp3Bitrate::Kbps24 => 24,
        Mp3Bitrate::Kbps32 => 32,
        Mp3Bitrate::Kbps40 => 40,
        Mp3Bitrate::Kbps48 => 48,
        Mp3Bitrate::Kbps64 => 64,
        Mp3Bitrate::Kbps80 => 80,
        Mp3Bitrate::Kbps96 => 96,
        Mp3Bitrate::Kbps112 => 112,
        Mp3Bitrate::Kbps128 => 128,
        Mp3Bitrate::Kbps160 => 160,
        Mp3Bitrate::Kbps192 => 192,
        Mp3Bitrate::Kbps224 => 224,
        Mp3Bitrate::Kbps256 => 256,
        Mp3Bitrate::Kbps320 => 320,
    }
}

/// The key a tag is filed under: its recognised standard key, or comment
/// when it has none.
pub open spec fn effective_key(t: AudioTag) -> TagKey {
    match t.std_key {
        Some(k) => k,
        None => TagKey::Comment,
    }
}

/// The value of the last tag filed under `key`, or the empty string when
/// no tag is: when several tags collide on one key, the last one
/// processed overwrites the earlier ones.
pub open spec fn last_tag_value(tags: Seq<AudioTag>, key: TagKey) -> Seq<char>
    decreases tags.len(),
{
    if tags.len() == 0 {
        Seq::empty()
    } else if effective_key(tags.last()) == key {
        tags.last().value@
    } else {
        last_tag_value(tags.drop_last(), key)
    }
}

/// The five texts written into the output's tag block.
pub struct TagBlock {
    pub title: String,
    pub artist: String,
    pub album: String,
    pub year: String,
    pub comment: String,
}

/// Build the tag block from the tag list: for each of title, artist,
/// album, date and comment, the value of the last tag filed under that
/// key; a tag without a recognised standard key is filed under comment.
pub fn build_tag_block(tags: &Vec<AudioTag>) -> (block: TagBlock)
    ensures
        block.title@ == last_tag_value(tags@, TagKey::Title),
        block.artist@ == last_tag_value(tags@, TagKey::Artist),
        block.album@ == last_tag_value(tags@, TagKey::Album),
        block.year@ == last_tag_value(tags@, TagKey::Date),
        block.comment@ == last_tag_value(tags@, TagKey::Comment),
{
    let mut title = String::new();
    let mut artist = String::new();
    let mut album = String::new();
    let mut year = String::new();
    let mut comment = String::new();
    let n = tags.len();
    let mut i: usize = 0;
    while i < n
        invariant
            i <= n,
            n == tags@.len(),
            title@ == last_tag_value(tags@.take(i as int), TagKey::Title),
            artist@ == last_tag_value(tags@.take(i as int), TagKey::Artist),
            album@ == last_tag_value(tags@.take(i as int), TagKey::Album),
            year@ == last_tag_value(tags@.take(i as int), TagKey::Date),
            comment@ == last_tag_value(tags@.take(i as int), TagKey::Comment),
        decreases n - i,
    {
        let tag = &tags[i];
        let key = match tag.std_key {
            Some(k) => k,
            None => TagKey::Comment,
        };
        match key {
            TagKey::Title => { title = tag.value.clone(); },
            TagKey::Artist => { artist = tag.value.clone(); },
            TagKey::Album => { album = tag.value.clone(); },
            TagKey::Date => { year = tag.value.clone(); },
            TagKey::Comment => { comment = tag.value.clone(); },
            TagKey::Other => {},
        }
        proof {
            let pre = tags@.take(i as int);
            let post = tags@.take(i + 1);
            assert(post.drop_last() =~= pre);
            assert(post.last() == tags@[i as int]);
        }
        i = i + 1;
    }
    proof {
        assert(tags@.take(n as int) =~= tags@);
    }
    TagBlock { title, artist, album, year, comment }
}

/// True when some entry of the channel map carries `c`.
pub open spec fn spec_has_channel(audio: Seq<(AudioChannels, Vec<i32>)>, c: AudioChannels) -> bool {
    exists|i: int| 0 <= i < audio.len() && (#[trigger] audio[i]).0 == c
}

/// The position used as the left signal: the first present of front-left,
/// side-left, rear-left.
pub open spec fn left_channel_of(audio: Seq<(AudioChannels, Vec<i32>)>) -> Option<AudioChannels> {
    if spec_has_channel(audio, AudioChannels::FrontLeft) {
        Some(AudioChannels::FrontLeft)
    } else if spec_has_channel(audio, AudioChannels::SideLeft) {
        Some(AudioChannels::SideLeft)
    } else if spec_has_channel(audio, AudioChannels::RearLeft) {
        Some(AudioChannels::RearLeft)
    } else {
        None
    }
}

/// The position used as the right signal: the first present of
/// front-right, side-right, rear-right.
pub open spec fn right_channel_of(audio: Seq<(AudioChannels, Vec<i32>)>) -> Option<AudioChannels> {
    if spec_has_channel(audio, AudioChannels::FrontRight) {
        Some(AudioChannels::FrontRight)
    } else if spec_has_channel(audio, AudioChannels::SideRight) {
        Some(AudioChannels::SideRight)
    } else if spec_has_channel(audio, AudioChannels::RearRight) {
        Some(AudioChannels::RearRight)
    } else {
        None
    }
}

/// A stereo pair can be assigned exactly when both sides have a source.
pub open spec fn has_left_source(audio: Seq<(AudioChannels, Vec<i32>)>) -> bool {
    left_channel_of(audio) is Some
}

pub open spec fn has_right_source(audio: Seq<(AudioChannels, Vec<i32>)>) -> bool {
    right_channel_of(audio) is Some
}

/// A channel map with only side channels still encodes as stereo: with
/// no front or rear channels present, the side-left and side-right
/// channels are chosen as the left and right signals.
pub proof fn lemma_stereo_fallback(audio: Seq<(AudioChannels, Vec<i32>)>)
    requires
        spec_has_channel(audio, AudioChannels::SideLeft),
        spec_has_channel(audio, AudioChannels::SideRight),
        !spec_has_channel(audio, AudioChannels::FrontLeft),
        !spec_has_channel(audio, AudioChannels::FrontRight),
    ensures
        left_channel_of(audio) == Some(AudioChannels::SideLeft),
        right_channel_of(audio) == Some(AudioChannels::SideRight),
{
}

/// The samples of the channel labelled `c`, when the map has it.
pub fn find_channel<'a>(audio: &'a Vec<(AudioChannels, Vec<i32>)>, c: AudioChannels) -> (r: Option<
    &'a Vec<i32>,
>)
    ensures
        r is Some <==> spec_has_channel(audio@, c),
        r matches Some(v) ==> exists|i: int|
            0 <= i < audio@.len() && (#[trigger] audio@[i]).0 == c && v@ == audio@[i].1@,
{
    let n = audio.len();
    let mut i: usize = 0;
    while i < n
        invariant
            i <= n,
            n == audio@.len(),
            forall|k: int| 0 <= k < i ==> (#[trigger] audio@[k]).0 != c,
        decreases n - i,
    {
        if audio[i].0 == c {
            return Some(&audio[i].1);
        }
        i = i + 1;
    }
    None
}

/// All channels of the map carry equally many samples.
pub open spec fn equal_sample_lengths(audio: Seq<(AudioChannels, Vec<i32>)>) -> bool {
    forall|i: int, j: int|
        0 <= i < audio.len() && 0 <= j < audio.len()
        ==> (#[trigger] audio[i]).1@.len() == (#[trigger] audio[j]).1@.len()
}

/// Samples per channel; 0 when the map is empty.
pub open spec fn seq_sample_count(audio: Seq<(AudioChannels, Vec<i32>)>) -> nat {
    if audio.len() == 0 {
        0
    } else {
        audio[0].1@.len()
    }
}

/// Fixed safety margin added to the sample count before sizing the
/// output buffer: the encoder's own estimate has been seen to undercount
/// when a large embedded image goes into the stream's tag block.
pub const ENCODE_HEADROOM: usize = 16 * 1024 * 1024;

/// Worst-case output bytes for `n` samples: the sample count, a quarter
/// of it rounded up, and one whole frame of 7200 bytes.  This is the
/// capacity estimate the encoder library documents for its encode call.
pub open spec fn spec_max_required_buffer_size(n: int) -> int {
    n + n / 4 + (if n % 4 > 0 { 1int } else { 0int }) + 7200
}

/// The sample count is small enough that the sized-up output buffer,
/// margin included, still fits in memory.
pub open spec fn encode_size_ok(samples: int) -> bool {
    spec_max_required_buffer_size(samples + ENCODE_HEADROOM) <= usize::MAX
}

pub fn max_required_buffer_size(n: usize) -> (r: usize)
    requires
        spec_max_required_buffer_size(n as int) <= usize::MAX,
    ensures
        r == spec_max_required_buffer_size(n as int),
{
    let quarter = n / 4 + (if n % 4 > 0 { 1 } else { 0 });
    n + quarter + 7200
}

#[verifier::external_type_specification]
#[verifier::external_body]
pub struct ExBuilder(mp3lame_encoder::Builder);

#[verifier::external_type_specification]
#[verifier::external_body]
pub struct ExEncoder(mp3lame_encoder::Encoder);

/// Relies on `mp3lame_encoder::Builder::new`: a fresh encoder builder,
/// `None` when the LAME context cannot be allocated.
#[verifier::external_body]
fn lame_new_builder() -> (r: Option<mp3lame_encoder::Builder>)
{
    mp3lame_encoder::Builder::new()
}

/// Relies on `Builder::set_num_channels`; the error is its message.
#[verifier::external_body]
fn lame_set_num_channels(b: &mut mp3lame_encoder::Builder, n: u8) -> (r: Result<(), String>)
{
    b.set_num_channels(n).map_err(|e| e.to_string())
}

/// Relies on `Builder::set_sample_rate`; the error is its message.
#[verifier::external_body]
fn lame_set_sample_rate(b: &mut mp3lame_encoder::Builder, rate: u32) -> (r: Result<(), String>)
{
    b.set_sample_rate(rate).map_err(|e| e.to_string())
}

/// Relies on `Builder::set_brate`, whose bitrate enumeration carries one
/// variant per accepted kbit/s value.
#[verifier::external_body]
fn lame_set_bitrate(b: &mut mp3lame_encoder::Builder, kbps: u32) -> (r: Result<(), String>)
    requires
        is_valid_kbps(kbps),
{
    let brate = match kbps {
        8 => mp3lame_encoder::Bitrate::Kbps8, 16 => mp3lame_encoder::Bitrate::Kbps16,
        24 => mp3lame_encoder::Bitrate::Kbps24, 32 => mp3lame_encoder::Bitrate::Kbps32,
        40 => mp3lame_encoder::Bitrate::Kbps40, 48 => mp3lame_encoder::Bitrate::Kbps48,
        64 => mp3lame_encoder::Bitrate::Kbps64, 80 => mp3lame_encoder::Bitrate::Kbps80,
        96 => mp3lame_encoder::Bitrate::Kbps96, 112 => mp3lame_encoder::Bitrate::Kbps112,
        128 => mp3lame_encoder::Bitrate::Kbps128, 160 => mp3lame_encoder::Bitrate::Kbps160,
        192 => mp3lame_encoder::Bitrate::Kbps192, 224 => mp3lame_encoder::Bitrate::Kbps224,
        256 => mp3lame_encoder::Bitrate::Kbps256, _ => mp3lame_encoder::Bitrate::Kbps320,
    };
    b.set_brate(brate).map_err(|e| e.to_string())
}

/// Relies on `Builder::set_quality`, whose quality enumeration counts the
/// ten levels 0 (best) to 9 (worst).
#[verifier::external_body]
fn lame_set_quality(b: &mut mp3lame_encoder::Builder, level: u32) -> (r: Result<(), String>)
    requires
        level <= 9,
{
    let quality = match level {
        0 => mp3lame_encoder::Quality::Best, 1 => mp3lame_encoder::Quality::SecondBest,
        2 => mp3lame_encoder::Quality::NearBest, 3 => mp3lame_encoder::Quality::VeryNice,
        4 => mp3lame_encoder::Quality::Nice, 5 => mp3lame_encoder::Quality::Good,
        6 => mp3lame_encoder::Quality::Decent, 7 => mp3lame_encoder::Quality::Ok,
        8 => mp3lame_encoder::Quality::SecondWorst, _ => mp3lame_encoder::Quality::Worst,
    };
    b.set_quality(quality).map_err(|e| e.to_string())
}

/// Relies on `Builder::set_id3_tag`: the call fails exactly when the
/// album art exceeds the 128 KiB limit; an empty field is left unset.
#[verifier::external_body]
fn lame_set_id3_tag(
    b: &mut mp3lame_encoder::Builder,
    block: &TagBlock,
    album_art: &Vec<u8>,
) -> (r: Result<(), String>)
    ensures
        r is Err <==> album_art@.len() > 131072,
{
    b.set_id3_tag(mp3lame_encoder::Id3Tag {
        title: block.title.as_bytes(),
        artist: block.artist.as_bytes(),
        album: block.album.as_bytes(),
        year: block.year.as_bytes(),
        comment: block.comment.as_bytes(),
        album_art: album_art.as_slice(),
    }).map_err(|e| format!("{:?}", e))
}

/// Relies on `Builder::build`: initialise the encoder with everything
/// set so far; the error is its message.
#[verifier::external_body]
fn lame_build(b: mp3lame_encoder::Builder) -> (r: Result<mp3lame_encoder::Encoder, String>)
{
    b.build().map_err(|e| e.to_string())
}

/// Relies on `Encoder::encode_to_vec` with a mono input: on success the
/// written bytes are appended to `out` and nothing before them changes;
/// on failure `out` is untouched.
#[verifier::external_body]
fn lame_encode_mono(
    enc: &mut mp3lame_encoder::Encoder,
    samples: &Vec<i32>,
    out: &mut Vec<u8>,
) -> (r: Result<usize, String>)
    ensures
        match r {
            Ok(n) => final(out)@.len() == old(out)@.len() + n
                && final(out)@.take(old(out)@.len() as int) == old(out)@,
            Err(_) => final(out)@ == old(out)@,
        },
{
    enc.encode_to_vec(mp3lame_encoder::MonoPcm(samples.as_slice()), out)
        .map_err(|e| e.to_string())
}

/// Relies on `Encoder::encode_to_vec` with a dual-channel input, which
/// reads equally many samples from both sides: on success the written
/// bytes are appended to `out` and nothing before them changes; on
/// failure `out` is untouched.
#[verifier::external_body]
fn lame_encode_stereo(
    enc: &mut mp3lame_encoder::Encoder,
    left: &Vec<i32>,
    right: &Vec<i32>,
    out: &mut Vec<u8>,
) -> (r: Result<usize, String>)
    requires
        left@.len() == right@.len(),
    ensures
        match r {
            Ok(n) => final(out)@.len() == old(out)@.len() + n
                && final(out)@.take(old(out)@.len() as int) == old(out)@,
            Err(_) => final(out)@ == old(out)@,
        },
{
    let input = mp3lame_encoder::DualPcm { left: left.as_slice(), right: right.as_slice() };
    enc.encode_to_vec(input, out).map_err(|e| e.to_string())
}

/// Relies on `Encoder::flush_to_vec` with the no-gap flush: on success
/// the closing bytes are appended to `out` and nothing before them
/// changes; on failure `out` is untouched.
#[verifier::external_body]
fn lame_flush(enc: &mut mp3lame_encoder::Encoder, out: &mut Vec<u8>) -> (r: Result<usize, String>)
    ensures
        match r {
            Ok(n) => final(out)@.len() == old(out)@.len() + n
                && final(out)@.take(old(out)@.len() as int) == old(out)@,
            Err(_) => final(out)@ == old(out)@,
        },
{
    enc.flush_to_vec::<mp3lame_encoder::FlushNoGap>(out).map_err(|e| e.to_string())
}

/// Encode a two-or-more-channel map as stereo: the left signal is the
/// first present of front-left, side-left, rear-left, the right signal
/// likewise; with either side missing the matching error is returned and
/// the encoder is never called.
fn encode_two_channel_input(
    audio_data: &Vec<(AudioChannels, Vec<i32>)>,
    mp3_encoder: mp3lame_encoder::Encoder,
) -> (r: Result<Vec<u8>, EncodeError>)
    requires
        equal_sample_lengths(audio_data@),
        encode_size_ok(seq_sample_count(audio_data@) as int),
    ensures
        !has_left_source(audio_data@) ==> r == Err::<Vec<u8>, EncodeError>(
            EncodeError::MissingLeftChannel,
        ),
        has_left_source(audio_data@) && !has_right_source(audio_data@) ==> r == Err::<
            Vec<u8>,
            EncodeError,
        >(EncodeError::MissingRightChannel),
        r is Ok ==> has_left_source(audio_data@) && has_right_source(audio_data@),
        r == Err::<Vec<u8>, EncodeError>(EncodeError::MissingLeftChannel) ==> !has_left_source(
            audio_data@,
        ),
        r == Err::<Vec<u8>, EncodeError>(EncodeError::MissingRightChannel) ==> has_left_source(
            audio_data@,
        ) && !has_right_source(audio_data@),
        !(r matches Err(EncodeError::NoChannels)),
        !(r matches Err(EncodeError::Tagging(_))),
{
    let left = match find_channel(audio_data, AudioChannels::FrontLeft) {
        Some(data) => data,
        None => match find_channel(audio_data, AudioChannels::SideLeft) {
            Some(data) => data,
            None => match find_channel(audio_data, AudioChannels::RearLeft) {
                Some(data) => data,
                None => return Err(EncodeError::MissingLeftChannel),
            },
        },
    };
    let right = match find_channel(audio_data, AudioChannels::FrontRight) {
        Some(data) => data,
        None => match find_channel(audio_data, AudioChannels::SideRight) {
            Some(data) => data,
            None => match find_channel(audio_data, AudioChannels::RearRight) {
                Some(data) => data,
                None => return Err(EncodeError::MissingRightChannel),
            },
        },
    };
    proof {
        let li = choose|i: int|
            0 <= i < audio_data@.len() && left@ == audio_data@[i].1@ && audio_data@[i].0
                == left_channel_of(audio_data@).unwrap();
        assert(left@.len() == seq_sample_count(audio_data@));
        assert(left@.len() == right@.len());
    }
    let mut mp3_encoder = mp3_encoder;
    let len = left.len();
    let sized = len + ENCODE_HEADROOM;
    let cap = max_required_buffer_size(sized);
    let mut mp3_out_buffer: Vec<u8> = Vec::new();
    mp3_out_buffer.reserve(cap);
    match lame_encode_stereo(&mut mp3_encoder, left, right, &mut mp3_out_buffer) {
        Ok(_) => {},
        Err(e) => return Err(EncodeError::Encoding(e)),
    }
    match lame_flush(&mut mp3_encoder, &mut mp3_out_buffer) {
        Ok(_) => {},
        Err(e) => return Err(EncodeError::Flush(e)),
    }
    Ok(mp3_out_buffer)
}

/// Encode a single-channel map as mono, using its one entry whatever its
/// label; an empty map is the no-channels error and the encoder is never
/// called.
fn encode_one_channel_input(
    audio_data: &Vec<(AudioChannels, Vec<i32>)>,
    mp3_encoder: mp3lame_encoder::Encoder,
) -> (r: Result<Vec<u8>, EncodeError>)
    requires
        encode_size_ok(seq_sample_count(audio_data@) as int),
    ensures
        audio_data@.len() == 0 ==> r == Err::<Vec<u8>, EncodeError>(EncodeError::NoChannels),
        r == Err::<Vec<u8>, EncodeError>(EncodeError::NoChannels) ==> audio_data@.len() == 0,
        r is Ok ==> audio_data@.len() > 0,
        !(r matches Err(EncodeError::MissingLeftChannel)),
        !(r matches Err(EncodeError::MissingRightChannel)),
        !(r matches Err(EncodeError::Tagging(_))),
{
    if audio_data.len() == 0 {
        return Err(EncodeError::NoChannels);
    }
    let samples = &audio_data[0].1;
    let mut mp3_encoder = mp3_encoder;
    let len = samples.len();
    let sized = len + ENCODE_HEADROOM;
    let cap = max_required_buffer_size(sized);
    let mut mp3_out_buffer: Vec<u8> = Vec::new();
    mp3_out_buffer.reserve(cap);
    match lame_encode_mono(&mut mp3_encoder, samples, &mut mp3_out_buffer) {
        Ok(_) => {},
        Err(e) => return Err(EncodeError::Encoding(e)),
    }
    match lame_flush(&mut mp3_encoder, &mut mp3_out_buffer) {
        Ok(_) => {},
        Err(e) => return Err(EncodeError::Flush(e)),
    }
    Ok(mp3_out_buffer)
}

impl RawAudioData {
    /// Runtime check of the encode size bound, for callers that cannot
    /// evaluate the specification: true exactly when the sized-up
    /// output buffer, margin included, still fits in memory.
    pub fn encode_size_is_ok(&self) -> (b: bool)
        ensures
            b <==> encode_size_ok(seq_sample_count(self.audio_data@) as int),
    {
        let n128: u128 = if self.audio_data.len() == 0 {
            0
        } else {
            self.audio_data[0].1.len() as u128
        };
        let m: u128 = n128 + (ENCODE_HEADROOM as u128);
        let total: u128 = m + m / 4 + (if m % 4 > 0 {
            1u128
        } else {
            0u128
        }) + 7200;
        total <= (usize::MAX as u128)
    }
}

/// Anything that can render itself as a complete MP3 byte stream.
pub trait Mp3Encoder {
    /// The channel-mapped samples the encoder reads.
    spec fn channel_data(&self) -> Seq<(AudioChannels, Vec<i32>)>;

    /// Bytes of the attached album art; 0 when there is none.
    spec fn album_art_size(&self) -> nat;

    /// The value's own invariant holds, so it is fit to encode.
    spec fn encode_ready(&self) -> bool;

    /// Produce the complete encoded stream, tags and art included.  With
    /// one source channel the stream is mono from that channel; with any
    /// other channel count it is stereo from the assigned left and right
    /// signals.  A missing-channel error is returned only when the
    /// matching signal really has no source, and a map that lacks one is
    /// rejected with that error unless the encoder library rejected its
    /// configuration or tags first; art within the 128 KiB limit is never
    /// the cause of a tagging error.
    fn encode_to_mp3(&self, quality: Mp3Quality, bitrate: Mp3Bitrate) -> (r: Result<
        Vec<u8>,
        EncodeError,
    >)
        requires
            self.encode_ready(),
            encode_size_ok(seq_sample_count(self.channel_data()) as int),
        ensures
            r is Ok ==> self.channel_data().len() == 1 || (has_left_source(self.channel_data())
                && has_right_source(self.channel_data())),
            self.channel_data().len() != 1 && !has_left_source(self.channel_data()) ==> r == Err::<
                Vec<u8>,
                EncodeError,
            >(EncodeError::MissingLeftChannel) || (r matches Err(EncodeError::Configuration(_)))
                || (r matches Err(EncodeError::Tagging(_))),
            self.channel_data().len() != 1 && has_left_source(self.channel_data())
                && !has_right_source(self.channel_data()) ==> r == Err::<Vec<u8>, EncodeError>(
                EncodeError::MissingRightChannel,
            ) || (r matches Err(EncodeError::Configuration(_))) || (r matches Err(
                EncodeError::Tagging(_),
            )),
            r == Err::<Vec<u8>, EncodeError>(EncodeError::MissingLeftChannel)
                ==> self.channel_data().len() != 1 && !has_left_source(self.channel_data()),
            r == Err::<Vec<u8>, EncodeError>(EncodeError::MissingRightChannel)
                ==> self.channel_data().len() != 1 && has_left_source(self.channel_data())
                && !has_right_source(self.channel_data()),
            !(r matches Err(EncodeError::NoChannels)),
            self.album_art_size() <= 131072 ==> !(r matches Err(EncodeError::Tagging(_))),
    ;
}

impl Mp3Encoder for RawAudioData {
    open spec fn channel_data(&self) -> Seq<(AudioChannels, Vec<i32>)> {
        self.audio_data@
    }

    open spec fn album_art_size(&self) -> nat {
        match self.image_data {
            Some(img) => img.data@.len(),
            None => 0,
        }
    }

    open spec fn encode_ready(&self) -> bool {
        self.well_formed()
    }

    fn encode_to_mp3(&self, quality: Mp3Quality, bitrate: Mp3Bitrate) -> (r: Result<
        Vec<u8>,
        EncodeError,
    >) {
        let level = get_correct_quality(quality);
        let kbps = get_correct_bitrate(bitrate);

        let mut builder = match lame_new_builder() {
            Some(b) => b,
            None => return Err(
                EncodeError::Configuration(String::from_str("could not create the encoder")),
            ),
        };
        match lame_set_num_channels(&mut builder, self.get_no_of_channels()) {
            Ok(_) => {},
            Err(e) => return Err(EncodeError::Configuration(e)),
        }
        match lame_set_sample_rate(&mut builder, self.get_sample_rate()) {
            Ok(_) => {},
            Err(e) => return Err(EncodeError::Configuration(e)),
        }
        match lame_set_bitrate(&mut builder, kbps) {
            Ok(_) => {},
            Err(e) => return Err(EncodeError::Configuration(e)),
        }
        match lame_set_quality(&mut builder, level) {
            Ok(_) => {},
            Err(e) => return Err(EncodeError::Configuration(e)),
        }

        let tag_block = build_tag_block(self.get_tags());
        let empty_art: Vec<u8> = Vec::new();
        let album_art: &Vec<u8> = match self.get_album_art() {
            Some(image) => &image.data,
            None => &empty_art,
        };
        match lame_set_id3_tag(&mut builder, &tag_block, album_art) {
            Ok(_) => {},
            Err(e) => return Err(EncodeError::Tagging(e)),
        }

        let mp3_encoder = match lame_build(builder) {
            Ok(encoder) => encoder,
            Err(e) => return Err(EncodeError::Configuration(e)),
        };

        if self.get_no_of_channels() == 1 {
            encode_one_channel_input(self.get_audio_data(), mp3_encoder)
        } else {
            encode_two_channel_input(self.get_audio_data(), mp3_encoder)
        }
    }
}

} // verus!
