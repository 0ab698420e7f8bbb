//! In-memory channel-mapped decoded audio plus metadata.
//!
//! A [`RawAudioData`] maps each named channel position to an ordered
//! sequence of signed 32-bit samples and carries the stream's sample rate,
//! bit depth, optional embedded image, optional vendor blob, and the
//! ordered tag list.  Its invariant: every channel's sample sequence has
//! the same length, and no channel position appears twice.

use vstd::prelude::*;

verus! {

/// The canonical channel positions.  Each stands for one bit of the
/// 26-bit channel-position mask a decoded track reports; the variant
/// order below is the bit order, lowest first.
#[derive(Clone, Copy, Debug, PartialEq, Eq, Hash, Structural)]
pub enum AudioChannels {
    /// Front-left (left) channel.
    FrontLeft,
    /// Front-right (right) channel.
    FrontRight,
    /// Front-centre (centre) or the mono channel.
    FrontCentre,
    /// Low frequency channel 1.
    LFE1,
    /// Rear-left (surround rear left) channel.
    RearLeft,
    /// Rear-right (surround rear right) channel.
    RearRight,
    /// Front left-of-centre channel.
    FrontLeftCentre,
    /// Front right-of-centre channel.
    FrontRightCentre,
    /// Rear-centre (surround rear centre) channel.
    RearCentre,
    /// Side-left (surround left) channel.
    SideLeft,
    /// Side-right (surround right) channel.
    SideRight,
    /// Top centre channel.
    TopCentre,
    /// Top front-left channel.
    TopFrontLeft,
    /// Top front-centre channel.
    TopFrontCentre,
    /// Top front-right channel.
    TopFrontRight,
    /// Top rear-left channel.
    TopRearLeft,
    /// Top rear-centre channel.
    TopRearCentre,
    /// Top rear-right channel.
    TopRearRight,
    /// Low frequency channel 2.
    LFE2,
    /// Top side-left channel.
    TopSideLeft,
    /// Top side-right channel.
    TopSideRight,
    /// Bottom front-centre channel.
    BottomFrontCentre,
    /// Bottom front-left channel.
    BottomFrontLeft,
    /// Bottom front-right channel.
    BottomFrontRight,
    /// Front left-wide channel.
    FrontLeftWide,
    /// Front right-wide channel.
    FrontRightWide,
}

/// The bit of the channel-position mask that `c` stands for.
pub open spec fn channel_bit_index(c: AudioChannels) -> u64 {
    match c {
        AudioChannels::FrontLeft => 0,
        AudioChannels::FrontRight => 1,
        AudioChannels::FrontCentre => 2,
        AudioChannels::LFE1 => 3,
        AudioChannels::RearLeft => 4,
        AudioChannels::RearRight => 5,
        AudioChannels::FrontLeftCentre => 6,
        AudioChannels::FrontRightCentre => 7,
        AudioChannels::RearCentre => 8,
        AudioChannels::SideLeft => 9,
        AudioChannels::SideRight => 10,
        AudioChannels::TopCentre => 11,
        AudioChannels::TopFrontLeft => 12,
        AudioChannels::TopFrontCentre => 13,
        AudioChannels::TopFrontRight => 14,
        AudioChannels::TopRearLeft => 15,
        AudioChannels::TopRearCentre => 16,
        AudioChannels::TopRearRight => 17,
        AudioChannels::LFE2 => 18,
        AudioChannels::TopSideLeft => 19,
        AudioChannels::TopSideRight => 20,
        AudioChannels::BottomFrontCentre => 21,
        AudioChannels::BottomFrontLeft => 22,
        AudioChannels::BottomFrontRight => 23,
        AudioChannels::FrontLeftWide => 24,
        AudioChannels::FrontRightWide => 25,
    }
}

/// The channel position standing for bit `i` of the mask, for `i` under 26.
pub open spec fn spec_channel_of_bit(i: int) -> AudioChannels {
    if i == 0 { AudioChannels::FrontLeft }
    else if i == 1 { AudioChannels::FrontRight }
    else if i == 2 { AudioChannels::FrontCentre }
    else if i == 3 { AudioChannels::LFE1 }
    else if i == 4 { AudioChannels::RearLeft }
    else if i == 5 { AudioChannels::RearRight }
    else if i == 6 { AudioChannels::FrontLeftCentre }
    else if i == 7 { AudioChannels::FrontRightCentre }
    else if i == 8 { AudioChannels::RearCentre }
    else if i == 9 { AudioChannels::SideLeft }
    else if i == 10 { AudioChannels::SideRight }
    else if i == 11 { AudioChannels::TopCentre }
    else if i == 12 { AudioChannels::TopFrontLeft }
    else if i == 13 { AudioChannels::TopFrontCentre }
    else if i == 14 { AudioChannels::TopFrontRight }
    else if i == 15 { AudioChannels::TopRearLeft }
    else if i == 16 { AudioChannels::TopRearCentre }
    else if i == 17 { AudioChannels::TopRearRight }
    else if i == 18 { AudioChannels::LFE2 }
    else if i == 19 { AudioChannels::TopSideLeft }
    else if i == 20 { AudioChannels::TopSideRight }
    else if i == 21 { AudioChannels::BottomFrontCentre }
    else if i == 22 { AudioChannels::BottomFrontLeft }
    else if i == 23 { AudioChannels::BottomFrontRight }
    else if i == 24 { AudioChannels::FrontLeftWide }
    else { AudioChannels::FrontRightWide }
}

/// True when bit `i` of `mask` is set.
pub open spec fn bit_set(mask: u64, i: u64) -> bool {
    (mask >> i) & 1 == 1
}

/// The labels of the set bits of `mask` below bit `n`, in ascending bit
/// order.
pub open spec fn mask_channels_upto(mask: u64, n: int) -> Seq<AudioChannels>
    decreases n,
{
    if n <= 0 {
        Seq::empty()
    } else if bit_set(mask, (n - 1) as u64) {
        mask_channels_upto(mask, n - 1).push(spec_channel_of_bit(n - 1))
    } else {
        mask_channels_upto(mask, n - 1)
    }
}

/// The labels of all set bits of a 26-bit channel-position mask, in
/// ascending bit order: the canonical channel order of a decoded track.
pub open spec fn mask_channels(mask: u64) -> Seq<AudioChannels> {
    mask_channels_upto(mask, 26)
}

proof fn lemma_mask_channels_upto_props(mask: u64, n: int)
    requires
        0 <= n <= 26,
    ensures
        mask_channels_upto(mask, n).len() <= n,
        forall|a: int| 0 <= a < mask_channels_upto(mask, n).len()
            ==> channel_bit_index(#[trigger] mask_channels_upto(mask, n)[a]) < n,
        forall|a: int, b: int|
            0 <= a < b < mask_channels_upto(mask, n).len()
            ==> channel_bit_index(mask_channels_upto(mask, n)[a])
                < channel_bit_index(mask_channels_upto(mask, n)[b]),
    decreases n,
{
    if n > 0 {
        lemma_mask_channels_upto_props(mask, n - 1);
        if bit_set(mask, (n - 1) as u64) {
            assert(channel_bit_index(spec_channel_of_bit(n - 1)) == n - 1);
        }
    }
}

/// The label of mask bit `i`, or `None` when `i` is not one of the 26
/// canonical positions.
pub fn channel_of_bit(i: u64) -> (r: Option<AudioChannels>)
    ensures
        r is Some <==> i < 26,
        i < 26 ==> r == Some(spec_channel_of_bit(i as int)),
{
    match i {
        0 => Some(AudioChannels::FrontLeft),
        1 => Some(AudioChannels::FrontRight),
        2 => Some(AudioChannels::FrontCentre),
        3 => Some(AudioChannels::LFE1),
        4 => Some(AudioChannels::RearLeft),
        5 => Some(AudioChannels::RearRight),
        6 => Some(AudioChannels::FrontLeftCentre),
        7 => Some(AudioChannels::FrontRightCentre),
        8 => Some(AudioChannels::RearCentre),
        9 => Some(AudioChannels::SideLeft),
        10 => Some(AudioChannels::SideRight),
        11 => Some(AudioChannels::TopCentre),
        12 => Some(AudioChannels::TopFrontLeft),
        13 => Some(AudioChannels::TopFrontCentre),
        14 => Some(AudioChannels::TopFrontRight),
        15 => Some(AudioChannels::TopRearLeft),
        16 => Some(AudioChannels::TopRearCentre),
        17 => Some(AudioChannels::TopRearRight),
        18 => Some(AudioChannels::LFE2),
        19 => Some(AudioChannels::TopSideLeft),
        20 => Some(AudioChannels::TopSideRight),
        21 => Some(AudioChannels::BottomFrontCentre),
        22 => Some(AudioChannels::BottomFrontLeft),
        23 => Some(AudioChannels::BottomFrontRight),
        24 => Some(AudioChannels::FrontLeftWide),
        25 => Some(AudioChannels::FrontRightWide),
        _ => None,
    }
}

/// The labels of all set bits of `mask`, ascending: how a decoded track's
/// physical planes, in order, are assigned their channel positions.  The
/// result never repeats a label and never exceeds 26 entries.
pub fn channels_of_mask(mask: u64) -> (out: Vec<AudioChannels>)
    ensures
        out@ == mask_channels(mask),
        out@.len() <= 26,
        forall|a: int, b: int| 0 <= a < b < out@.len()
            ==> channel_bit_index(out@[a]) < channel_bit_index(out@[b]),
        forall|a: int, b: int| 0 <= a < b < out@.len() ==> out@[a] != out@[b],
{
    let mut out: Vec<AudioChannels> = Vec::new();
    let mut i: u64 = 0;
    while i < 26
        invariant
            i <= 26,
            out@ == mask_channels_upto(mask, i as int),
        decreases 26 - i,
    {
        if (mask >> i) & 1 == 1 {
            match channel_of_bit(i) {
                Some(c) => { out.push(c); },
                None => {},
            }
        }
        proof {
            assert(mask_channels_upto(mask, i + 1) == if bit_set(mask, i) {
                mask_channels_upto(mask, i as int).push(spec_channel_of_bit(i as int))
            } else {
                mask_channels_upto(mask, i as int)
            });
        }
        i = i + 1;
    }
    proof {
        lemma_mask_channels_upto_props(mask, 26);
        assert forall|a: int, b: int| 0 <= a < b < out@.len() implies out@[a] != out@[b] by {
            assert(channel_bit_index(out@[a]) < channel_bit_index(out@[b]));
        }
    }
    out
}

/// An embedded image: its raw bytes, and, when the container reported
/// them, its pixel dimensions and bits per pixel.
#[derive(Clone, Debug)]
pub struct EmbeddedImage {
    pub data: Vec<u8>,
    pub dimensions: Option<(u32, u32)>,
    pub bits_per_pixel: Option<u32>,
}

/// The standard tag keys the encoder writes out.  Every other recognised
/// standard key is filed under `Other`; a tag with no recognised standard
/// key has no `TagKey` at all.
#[derive(Clone, Copy, Debug, PartialEq, Eq, Hash, Structural)]
pub enum TagKey {
    Title,
    Artist,
    Album,
    Date,
    Comment,
    Other,
}

/// One metadata tag: its recognised standard key (if any), its raw key
/// text, and its value rendered as text.
#[derive(Clone, Debug)]
pub struct AudioTag {
    pub std_key: Option<TagKey>,
    pub key: String,
    pub value: String,
}

/// Channel-mapped decoded audio plus metadata.
#[derive(Clone, Debug)]
pub struct RawAudioData {
    /// Each named channel with its ordered samples, in the track's
    /// canonical (ascending mask bit) order.
    pub audio_data: Vec<(AudioChannels, Vec<i32>)>,
    pub audio_sample_rate: u32,
    pub audio_bits_per_sample: u32,
    pub image_data: Option<EmbeddedImage>,
    /// Vendor metadata blob of the source container.  The decoder in this
    /// crate never fills it: the metadata revisions it reads expose tags
    /// and visuals but no vendor blob, so the field is `None` unless a
    /// caller constructs the value with one.
    pub vendor_data: Option<Vec<u8>>,
    pub tag_data: Vec<AudioTag>,
}

impl RawAudioData {
    /// The type's invariant: no channel appears twice, every channel has
    /// the same number of samples, and there are at most 26 channels.
    pub open spec fn well_formed(self) -> bool {
        &&& self.audio_data@.len() <= 26
        &&& forall|i: int, j: int| 0 <= i < j < self.audio_data@.len()
            ==> (#[trigger] self.audio_data@[i]).0 != (#[trigger] self.audio_data@[j]).0
        &&& forall|i: int, j: int|
            0 <= i < self.audio_data@.len() && 0 <= j < self.audio_data@.len()
            ==> (#[trigger] self.audio_data@[i]).1@.len()
                == (#[trigger] self.audio_data@[j]).1@.len()
    }

    pub fn new(
        audio: Vec<(AudioChannels, Vec<i32>)>,
        sample_rate: u32,
        bits_per_sample: u32,
        image: Option<EmbeddedImage>,
        vendor: Option<Vec<u8>>,
        tags: Vec<AudioTag>,
    ) -> (r: Self)
        ensures
            r.audio_data == audio,
            r.audio_sample_rate == sample_rate,
            r.audio_bits_per_sample == bits_per_sample,
            r.image_data == image,
            r.vendor_data == vendor,
            r.tag_data == tags,
    {
        RawAudioData {
            audio_data: audio,
            audio_bits_per_sample: bits_per_sample,
            audio_sample_rate: sample_rate,
            image_data: image,
            vendor_data: vendor,
            tag_data: tags,
        }
    }

    pub fn get_album_art(&self) -> (r: &Option<EmbeddedImage>)
        ensures
            r == &self.image_data,
    {
        &self.image_data
    }

    /// A rough byte budget for the value: four bytes per sample of one
    /// channel, plus the embedded image's uncompressed pixel size when its
    /// dimensions and depth are known.
    pub open spec fn spec_approx_size(self) -> int {
        let audio_part: int = if self.audio_data@.len() == 0 {
            0
        } else {
            self.audio_data@[self.audio_data@.len() - 1].1@.len() * 4int
        };
        match self.image_data {
            Some(img) => match (img.bits_per_pixel, img.dimensions) {
                (Some(bpp), Some(dims)) => audio_part + bpp * dims.0 * dims.1,
                _ => audio_part,
            },
            None => audio_part,
        }
    }

    pub fn get_approx_size(&self) -> (size: usize)
        requires
            self.spec_approx_size() <= usize::MAX,
        ensures
            size == self.spec_approx_size(),
    {
        let mut size: usize = 0;
        let n = self.audio_data.len();
        if n > 0 {
            let samples = self.audio_data[n - 1].1.len();
            proof {
                assert(self.audio_data@[n - 1].1@.len() * 4 <= self.spec_approx_size());
            }
            size = samples * 4;
        }
        match &self.image_data {
            Some(visual) => {
                match (visual.bits_per_pixel, visual.dimensions) {
                    (Some(bpp), Some(dims)) => {
                        if dims.0 == 0 || dims.1 == 0 {
                            proof {
                                assert(bpp * dims.0 * dims.1 == 0) by (nonlinear_arith)
                                    requires dims.0 == 0 || dims.1 == 0;
                            }
                            size
                        } else {
                            proof {
                                assert(bpp * dims.0 <= bpp * dims.0 * dims.1)
                                    by (nonlinear_arith)
                                    requires dims.1 >= 1, bpp >= 0, dims.0 >= 0;
                            }
                            let pixels = (bpp as usize) * (dims.0 as usize) * (dims.1 as usize);
                            size + pixels
                        }
                    },
                    _ => size,
                }
            },
            None => size,
        }
    }

    pub fn get_sample_rate(&self) -> (r: u32)
        ensures
            r == self.audio_sample_rate,
    {
        self.audio_sample_rate
    }

    pub fn get_tags(&self) -> (r: &Vec<AudioTag>)
        ensures
            r == &self.tag_data,
    {
        &self.tag_data
    }

    pub fn get_no_of_channels(&self) -> (r: u8)
        requires
            self.audio_data@.len() <= 255,
        ensures
            r as nat == self.audio_data@.len(),
    {
        self.audio_data.len() as u8
    }

    pub fn get_bit_depth(&self) -> (r: u32)
        ensures
            r == self.audio_bits_per_sample,
    {
        self.audio_bits_per_sample
    }

    pub fn get_audio_data(&self) -> (r: &Vec<(AudioChannels, Vec<i32>)>)
        ensures
            r == &self.audio_data,
    {
        &self.audio_data
    }
}

} // verus!
