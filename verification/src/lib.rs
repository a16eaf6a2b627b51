//! Building blocks for driving a callback-based media codec engine as an
//! ordered, pull-based stream of outputs.
//!
//! The crate holds the decisions of such an adapter as plain state machines:
//! every host callback and every read of the consumer is one call that moves
//! the state and says what the caller has to do next.
pub mod audio;
pub mod encoded;
pub mod error;
pub mod frame;
pub mod handle;
pub mod outputs;
pub mod payload;
pub mod streams;
pub mod trace;
pub mod units;
pub mod video;

pub use audio::{
    AudioCopyOptions, AudioData, AudioDecoded, AudioDecoder, AudioDecoderConfig, AudioEncoded,
    AudioEncoder, AudioEncoderConfig, HostAudioDecoderConfig, HostAudioEncoderConfig,
    HostCopyOptions, PlanarLayout,
};
pub use encoded::EncodedQueue;
pub use error::{Error, HostError};
pub use frame::{ChunkType, EncodedFrame, HostChunk};
pub use handle::Handle;
pub use outputs::{Next, OutputQueue, Status};
pub use units::{Duration, Timestamp};
pub use video::{
    AlphaOption, Dimensions, FrameRate, HardwareAcceleration, HostEncodeOptions,
    HostVideoDecoderConfig, HostVideoEncoderConfig, LatencyMode, VideoBitrateMode,
    VideoColorPrimaries, VideoColorSpaceConfig, VideoDecoded, VideoDecoder, VideoDecoderConfig,
    VideoEncodeOptions, VideoEncoded, VideoEncoder, VideoEncoderConfig, VideoFrame,
    VideoMatrixCoefficients, VideoTransferCharacteristics,
};
