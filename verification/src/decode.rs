//! Decoding a container's bytes into channel-mapped PCM.
//!
//! The container probing, packet reading and sample decoding are done by
//! the symphonia crates behind the trusted wrappers below; everything that
//! decides — how physical planes are mapped to named channels, how packet
//! planes are accumulated, when a malformed stream is rejected — is
//! verified.  Only the 32-bit-signed sample layout is supported; any other
//! layout is a per-file decode error.

use vstd::prelude::*;
use crate::raw_audio_data::AudioChannels;
use crate::raw_audio_data::AudioTag;
use crate::raw_audio_data::EmbeddedImage;
use crate::raw_audio_data::RawAudioData;
use crate::raw_audio_data::TagKey;
use crate::raw_audio_data::channels_of_mask;

verus! {

/// Why a file could not be decoded.
#[derive(Clone, Debug, PartialEq, Eq)]
pub enum DecodeError {
    /// The container or a packet could not be read or decoded.
    CorruptStream(String),
    /// The container holds no audio track.
    NoTrack,
    /// No registered decoder handles the track's codec.
    UnsupportedCodec(String),
    /// The track reports no sample rate, bit depth or channel set.
    MissingParameters,
    /// The track's channels are not named speaker positions.
    UnsupportedChannelLayout,
    /// The decoder produced a sample layout other than signed 32-bit.
    UnsupportedSampleLayout,
    /// The reported channel set is empty.
    NoChannels,
    /// A packet's plane count differs from the reported channel count.
    PlaneCountMismatch,
}

/// What the track reports about itself: sample rate, bit depth, and the
/// channel-position bitmask.
#[derive(Clone, Copy, Debug)]
pub struct StreamParams {
    pub sample_rate: u32,
    pub bits_per_sample: u32,
    pub channel_mask: u64,
}

#[verifier::external_type_specification]
#[verifier::external_body]
pub struct ExTag(symphonia::core::meta::Tag);

/// An open audio stream: the demuxer and the decoder for its audio track.
/// Opaque to the verifier; every read goes through a trusted wrapper.
#[verifier::external_body]
pub struct AudioStream {
    reader: Box<dyn symphonia::core::formats::FormatReader>,
    decoder: Box<dyn symphonia::core::codecs::audio::AudioDecoder>,
}

/// Relies on symphonia's probe and codec registry: probe the container in
/// `data`, pick the default audio track and instantiate its decoder.
/// Nothing is promised of the result; what the stream yields is stated by
/// the wrappers that read from it.
#[verifier::external_body]
fn open_audio_stream(data: Vec<u8>) -> (r: Result<AudioStream, DecodeError>)
{
    let mss = symphonia::core::io::MediaSourceStream::new(Box::new(std::io::Cursor::new(data)), Default::default());
    let reader = symphonia::default::get_probe()
        .probe(&Default::default(), mss, Default::default(), Default::default())
        .map_err(|e| DecodeError::CorruptStream(e.to_string()))?;
    let params = match reader.tracks().first().and_then(|t| t.codec_params.as_ref()?.audio()) {
        Some(p) => p.clone(),
        None => return Err(DecodeError::NoTrack),
    };
    let decoder = symphonia::default::get_codecs()
        .make_audio_decoder(&params, &Default::default())
        .map_err(|e| DecodeError::UnsupportedCodec(e.to_string()))?;
    Ok(AudioStream { reader, decoder })
}

/// Relies on symphonia's `AudioDecoder::codec_params`: the sample rate,
/// bit depth and channel set the decoder was built with.  The mask is the
/// bit set of a `Position` value, whose 26 defined flags are the low 26
/// bits, so it is always under 2^26.
#[verifier::external_body]
fn stream_params(stream: &AudioStream) -> (r: Result<StreamParams, DecodeError>)
    ensures
        r matches Ok(p) ==> p.channel_mask < 0x400_0000,
{
    let p = stream.decoder.codec_params();
    let sample_rate = match p.sample_rate {
        Some(rate) => rate,
        None => return Err(DecodeError::MissingParameters),
    };
    let bits_per_sample = match p.bits_per_sample {
        Some(b) => b,
        None => return Err(DecodeError::MissingParameters),
    };
    let channel_mask = match &p.channels {
        Some(symphonia::core::audio::Channels::Positioned(pos)) => pos.bits(),
        Some(_) => return Err(DecodeError::UnsupportedChannelLayout),
        None => return Err(DecodeError::MissingParameters),
    };
    Ok(StreamParams { sample_rate, bits_per_sample, channel_mask })
}

/// Relies on symphonia's `FormatReader::next_packet` and
/// `AudioDecoder::decode`: the next packet's sample planes, `None` at end
/// of stream.  An audio buffer holds one slice per channel, all of the
/// same frame count, so the returned planes all have equal length.
#[verifier::external_body]
fn next_packet_planes(stream: &mut AudioStream) -> (r: Result<Option<Vec<Vec<i32>>>, DecodeError>)
    ensures
        r matches Ok(Some(planes)) ==> forall|i: int, j: int|
            0 <= i < planes@.len() && 0 <= j < planes@.len()
            ==> (#[trigger] planes@[i])@.len() == (#[trigger] planes@[j])@.len(),
{
    let packet = match stream.reader.next_packet() {
        Ok(Some(p)) => p,
        Ok(None) => return Ok(None),
        Err(e) => return Err(DecodeError::CorruptStream(e.to_string())),
    };
    let decoded = match stream.decoder.decode(&packet) {
        Ok(d) => d,
        Err(e) => return Err(DecodeError::CorruptStream(e.to_string())),
    };
    match decoded {
        symphonia::core::audio::GenericAudioBufferRef::S32(buf) => Ok(Some(
            symphonia::core::audio::Audio::iter_planes(buf).map(|p| p.to_vec()).collect(),
        )),
        _ => Err(DecodeError::UnsupportedSampleLayout),
    }
}

/// Relies on symphonia's `Metadata::skip_to_latest`: the first embedded
/// image of the newest metadata revision, with whatever dimensions and
/// colour depth the container reported.
#[verifier::external_body]
fn latest_visual(stream: &mut AudioStream) -> (r: Option<EmbeddedImage>)
{
    match stream.reader.metadata().skip_to_latest() {
        Some(rev) => rev.media.visuals.first().map(|v| EmbeddedImage {
            data: v.data.to_vec(),
            dimensions: v.dimensions.map(|s| (s.width, s.height)),
            bits_per_pixel: v.color_mode.as_ref().map(|m| match m {
                symphonia::core::meta::ColorMode::Direct(model) => model.bits_per_pixel(),
                symphonia::core::meta::ColorMode::Indexed(pal) => pal.bits_per_pixel.get() as u32,
            }),
        }),
        None => None,
    }
}

/// Relies on symphonia's `Metadata::skip_to_latest`: the complete tag list
/// of the newest metadata revision.
#[verifier::external_body]
fn latest_tags_raw(stream: &mut AudioStream) -> (r: Vec<symphonia::core::meta::Tag>)
{
    match stream.reader.metadata().skip_to_latest() {
        Some(rev) => rev.media.tags.clone(),
        None => Vec::new(),
    }
}

/// Relies on symphonia's `Tag` layout: carry one tag over, keeping its raw
/// key, rendering its raw value as text, and recognising the five standard
/// keys the encoder writes; every other recognised key is `Other`.
#[verifier::external_body]
fn convert_tag(t: &symphonia::core::meta::Tag) -> (r: AudioTag)
{
    let std_key = match &t.std {
        Some(symphonia::core::meta::StandardTag::TrackTitle(_)) => Some(TagKey::Title),
        Some(symphonia::core::meta::StandardTag::Artist(_)) => Some(TagKey::Artist),
        Some(symphonia::core::meta::StandardTag::Album(_)) => Some(TagKey::Album),
        Some(symphonia::core::meta::StandardTag::RecordingDate(_)) => Some(TagKey::Date),
        Some(symphonia::core::meta::StandardTag::Comment(_)) => Some(TagKey::Comment),
        Some(_) => Some(TagKey::Other),
        None => None,
    };
    AudioTag { std_key, key: t.raw.key.clone(), value: t.raw.value.to_string() }
}

/// Carry a whole tag list over, in order.
fn convert_tags(tags: &Vec<symphonia::core::meta::Tag>) -> (out: Vec<AudioTag>)
    ensures
        out@.len() == tags@.len(),
{
    let mut out: Vec<AudioTag> = Vec::new();
    let n = tags.len();
    let mut i: usize = 0;
    while i < n
        invariant
            i <= n,
            n == tags@.len(),
            out@.len() == i,
        decreases n - i,
    {
        out.push(convert_tag(&tags[i]));
        i = i + 1;
    }
    out
}

/// Append one packet's planes to the per-channel accumulators, plane by
/// plane.  Fails, leaving nothing changed, exactly when the packet's plane
/// count differs from the channel count.
pub fn append_packet(planes: Vec<Vec<i32>>, pkt: Vec<Vec<i32>>) -> (r: Result<
    Vec<Vec<i32>>,
    DecodeError,
>)
    ensures
        match r {
            Ok(out) => {
                &&& pkt@.len() == planes@.len()
                &&& out@.len() == planes@.len()
                &&& forall|k: int| 0 <= k < planes@.len()
                    ==> (#[trigger] out@[k])@ == planes@[k]@ + pkt@[k]@
            },
            Err(e) => e == DecodeError::PlaneCountMismatch && pkt@.len() != planes@.len(),
        },
{
    if pkt.len() != planes.len() {
        return Err(DecodeError::PlaneCountMismatch);
    }
    let ghost orig_planes = planes@;
    let ghost orig_pkt = pkt@;
    let mut planes = planes;
    let mut pkt = pkt;
    let n = planes.len();
    let mut out: Vec<Vec<i32>> = Vec::new();
    let mut i: usize = 0;
    while i < n
        invariant
            i <= n,
            n == orig_planes.len(),
            orig_pkt.len() == orig_planes.len(),
            planes@ =~= orig_planes.skip(i as int),
            pkt@ =~= orig_pkt.skip(i as int),
            out@.len() == i,
            forall|k: int| 0 <= k < i ==> (#[trigger] out@[k])@ == orig_planes[k]@ + orig_pkt[k]@,
        decreases n - i,
    {
        let mut a = planes.remove(0);
        let mut b = pkt.remove(0);
        a.append(&mut b);
        out.push(a);
        proof {
            assert(planes@ =~= orig_planes.skip(i + 1));
            assert(pkt@ =~= orig_pkt.skip(i + 1));
        }
        i = i + 1;
    }
    Ok(out)
}

/// Pair the canonical channel labels with the accumulated planes, in
/// order: plane `k` belongs to the `k`-th named channel of the mask.
pub fn pair_channels(labels: Vec<AudioChannels>, planes: Vec<Vec<i32>>) -> (out: Vec<
    (AudioChannels, Vec<i32>),
>)
    requires
        labels@.len() == planes@.len(),
    ensures
        out@.len() == labels@.len(),
        forall|k: int| 0 <= k < out@.len()
            ==> (#[trigger] out@[k]).0 == labels@[k] && out@[k].1@ == planes@[k]@,
{
    let ghost orig_labels = labels@;
    let ghost orig_planes = planes@;
    let mut labels = labels;
    let mut planes = planes;
    let n = labels.len();
    let mut out: Vec<(AudioChannels, Vec<i32>)> = Vec::new();
    let mut i: usize = 0;
    while i < n
        invariant
            i <= n,
            n == orig_labels.len(),
            orig_planes.len() == orig_labels.len(),
            labels@ =~= orig_labels.skip(i as int),
            planes@ =~= orig_planes.skip(i as int),
            out@.len() == i,
            forall|k: int| 0 <= k < i
                ==> (#[trigger] out@[k]).0 == orig_labels[k] && out@[k].1@ == orig_planes[k]@,
        decreases n - i,
    {
        let l = labels.remove(0);
        let p = planes.remove(0);
        out.push((l, p));
        proof {
            assert(labels@ =~= orig_labels.skip(i + 1));
            assert(planes@ =~= orig_planes.skip(i + 1));
        }
        i = i + 1;
    }
    out
}

impl RawAudioData {
    /// Decode a complete container held in memory into channel-mapped PCM
    /// plus metadata.  Whatever the stream turned out to hold, a returned
    /// value satisfies the type's invariant — its channels are distinct
    /// named positions and all carry equally many samples — and the
    /// channels stand in the mask's canonical ascending-bit order.
    pub fn new_from_bytes(data: Vec<u8>) -> (r: Result<RawAudioData, DecodeError>)
        ensures
            r matches Ok(audio) ==> audio.well_formed() && audio.audio_data@.len() > 0
                && forall|a: int, b: int| 0 <= a < b < audio.audio_data@.len()
                    ==> crate::raw_audio_data::channel_bit_index(
                        (#[trigger] audio.audio_data@[a]).0,
                    ) < crate::raw_audio_data::channel_bit_index(
                        (#[trigger] audio.audio_data@[b]).0,
                    ),
    {
        let mut stream = match open_audio_stream(data) {
            Ok(s) => s,
            Err(e) => return Err(e),
        };
        let params = match stream_params(&stream) {
            Ok(p) => p,
            Err(e) => return Err(e),
        };
        let labels = channels_of_mask(params.channel_mask);
        let n = labels.len();
        if n == 0 {
            return Err(DecodeError::NoChannels);
        }

        let mut planes: Vec<Vec<i32>> = Vec::new();
        let mut k: usize = 0;
        while k < n
            invariant
                k <= n,
                planes@.len() == k,
                forall|a: int| 0 <= a < k ==> (#[trigger] planes@[a])@.len() == 0,
            decreases n - k,
        {
            planes.push(Vec::new());
            k = k + 1;
        }

        // The stream decides when packets stop coming; the fuel only
        // bounds the loop formally and is far beyond any real stream.
        let mut fuel: u64 = u64::MAX;
        while fuel > 0
            invariant
                planes@.len() == n,
                forall|a: int, b: int|
                    0 <= a < planes@.len() && 0 <= b < planes@.len()
                    ==> (#[trigger] planes@[a])@.len() == (#[trigger] planes@[b])@.len(),
            decreases fuel,
        {
            fuel = fuel - 1;
            match next_packet_planes(&mut stream) {
                Ok(Some(pkt)) => {
                    match append_packet(planes, pkt) {
                        Ok(next) => {
                            planes = next;
                        },
                        Err(e) => return Err(e),
                    }
                },
                Ok(None) => break,
                Err(e) => return Err(e),
            }
        }

        let image = latest_visual(&mut stream);
        let raw_tags = latest_tags_raw(&mut stream);
        let tags = convert_tags(&raw_tags);

        let audio = pair_channels(labels, planes);
        let out = RawAudioData::new(
            audio,
            params.sample_rate,
            params.bits_per_sample,
            image,
            None,
            tags,
        );
        Ok(out)
    }
}

} // verus!
