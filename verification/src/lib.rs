//! Verified core of a bulk audio transcoder.
//!
//! The library mirrors a source directory tree into a destination tree,
//! converting recognised lossless audio files to MP3 and optionally copying
//! every other file verbatim.  The pieces that decide things — path
//! classification, destination-path construction, channel mapping, tag
//! merging, the work-queue/worker state machine and the FIFO progress
//! buffer — are verified here.  Calls into the audio codecs stand behind
//! small trusted wrappers whose contracts state what the codec libraries
//! promise.

pub mod paths;
pub mod progress;
pub mod raw_audio_data;
pub mod decode;
pub mod mp3;
pub mod conversion;
