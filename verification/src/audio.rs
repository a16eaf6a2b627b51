//! Audio: settings, sample buffers, and the two engines with their output
//! sequences.
pub mod data;
pub mod decoder;
pub mod encoder;

pub use data::{AudioCopyOptions, AudioData, HostCopyOptions, PlanarLayout};
pub use decoder::{
    AudioDecoded, AudioDecoder, AudioDecoderConfig, AudioDecoderConfigView, HostAudioDecoderConfig,
    HostAudioDecoderConfigView,
};
pub use encoder::{
    AudioEncoded, AudioEncoder, AudioEncoderConfig, AudioEncoderConfigView, HostAudioEncoderConfig,
};
