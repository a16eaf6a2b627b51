//! Video: settings, frames, and the two engines with their output sequences.
pub mod color;
pub mod decoder;
pub mod dimensions;
pub mod encoder;
pub mod frame;

pub use color::{
    VideoColorPrimaries, VideoColorSpaceConfig, VideoMatrixCoefficients,
    VideoTransferCharacteristics,
};
pub use decoder::{
    HardwareAcceleration, HostVideoDecoderConfig, HostVideoDecoderConfigView, VideoDecoded,
    VideoDecoder, VideoDecoderConfig, VideoDecoderConfigView,
};
pub use dimensions::Dimensions;
pub use encoder::{
    AlphaOption, FrameRate, HostEncodeOptions, HostVideoEncoderConfig, HostVideoEncoderConfigView,
    LatencyMode, VideoBitrateMode, VideoEncodeOptions, VideoEncoded, VideoEncoder,
    VideoEncoderConfig, VideoEncoderConfigView,
};
pub use frame::VideoFrame;
