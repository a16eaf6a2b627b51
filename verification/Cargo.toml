[package]
name = "web_codecs"
version = "0.1.0"
edition = "2021"
publish = false

[dependencies]
bytes = "=1.12.1"
bytemuck = "=1.25.2"
derive_more = { version = "=2.1.1", features = ["display", "from"] }
js-sys = "=0.3.77"
proc-macro2 = "1"
quote = "1"
syn = { version = "2", features = ["full"] }
thiserror = "=2.0.21"
tokio = { version = "=1.54.1", default-features = false, features = ["rt", "sync"] }
url = "=2.5.8"
wasm-bindgen = "=0.2.100"
wasm-bindgen-futures = "=0.4.50"
web-sys = { version = "=0.3.77", features = ["AlphaOption", "AudioData", "AudioDataCopyToOptions", "AudioDataInit", "AudioDecoder", "AudioDecoderConfig", "AudioDecoderInit", "AudioDecoderSupport", "AudioEncoder", "AudioEncoderConfig", "AudioEncoderInit", "AudioEncoderSupport", "AudioSampleFormat", "EncodedAudioChunk", "EncodedAudioChunkInit", "EncodedAudioChunkMetadata", "EncodedAudioChunkType", "EncodedVideoChunk", "EncodedVideoChunkInit", "EncodedVideoChunkMetadata", "EncodedVideoChunkType", "HardwareAcceleration", "LatencyMode", "MessagePort", "ReadableStream", "ReadableStreamDefaultReader", "ReadableStreamReadResult", "VideoColorPrimaries", "VideoColorSpaceInit", "VideoDecoder", "VideoDecoderConfig", "VideoDecoderInit", "VideoDecoderSupport", "VideoEncoder", "VideoEncoderConfig", "VideoEncoderEncodeOptions", "VideoEncoderInit", "VideoEncoderSupport", "VideoFrame", "VideoMatrixCoefficients", "VideoTransferCharacteristics", "WritableStream", "WritableStreamDefaultWriter"] }
