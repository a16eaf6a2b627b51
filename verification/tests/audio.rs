use bytes::Bytes;
use web_codecs::{
    AudioCopyOptions, AudioData, AudioDecoded, AudioDecoder, AudioDecoderConfig, AudioEncoded,
    AudioEncoder, AudioEncoderConfig, ChunkType, Duration, EncodedFrame, Error, HostAudioDecoderConfig,
    HostCopyOptions, HostError, Next, PlanarLayout, Timestamp,
};

/// A stand-in for a buffer of the host.
#[derive(Debug, PartialEq)]
struct Samples(u32);

/// A stand-in for an engine of the host.
#[derive(Debug, PartialEq)]
struct Engine(&'static str);

fn samples(id: u32, millis: u64) -> AudioData<Samples> {
    AudioData::new(
        Samples(id),
        Timestamp::from_millis(millis),
        Duration::from_millis(20),
        48_000,
        960,
    )
}

fn unit(millis: u64) -> EncodedFrame {
    EncodedFrame {
        payload: Bytes::from(vec![0xffu8, 0xf1]),
        timestamp: Timestamp::from_millis(millis),
        keyframe: true,
    }
}

fn encoder() -> (AudioEncoder<Engine>, AudioEncoded) {
    AudioEncoderConfig::new("opus").init(Engine("encoder"), Ok(())).unwrap()
}

fn decoder() -> (AudioDecoder<Engine>, AudioDecoded<Samples>) {
    AudioDecoderConfig::new("opus", 2, 48_000).build(Engine("decoder"), Ok(())).unwrap()
}

#[test]
fn audio_decoder_config_new() {
    let c = AudioDecoderConfig::new("mp4a.40.2", 2, 44_100);
    assert_eq!(c.codec, "mp4a.40.2");
    assert_eq!(c.channel_count, 2);
    assert_eq!(c.sample_rate, 44_100);
    assert_eq!(c.description, None);
    assert_eq!(c.clone(), c);
    assert_eq!(AudioDecoderConfig::default(), AudioDecoderConfig::new("", 0, 0));
}

#[test]
fn audio_decoder_config_round_trips_through_the_host_form() {
    let mut c = AudioDecoderConfig::new("mp4a.40.2", 2, 44_100);
    c.description = Some(Bytes::from(vec![0x12u8, 0x10]));
    let h = c.to_host();
    assert_eq!(h.codec, "mp4a.40.2");
    assert_eq!(h.number_of_channels, 2);
    assert_eq!(h.sample_rate, 44_100);
    assert_eq!(h.description, Some(vec![0x12u8, 0x10]));
    assert_eq!(AudioDecoderConfig::from_host(h), c);

    let h = HostAudioDecoderConfig {
        codec: "opus".to_string(),
        number_of_channels: 1,
        sample_rate: 48_000,
        description: None,
    };
    let c = AudioDecoderConfig::from_host(h);
    assert_eq!(c, AudioDecoderConfig::new("opus", 1, 48_000));
}

#[test]
fn audio_encoder_config_in_the_form_of_the_host() {
    let mut c = AudioEncoderConfig::new("opus");
    assert_eq!(c.channel_count, None);
    assert_eq!(c.sample_rate, None);
    assert_eq!(c.bitrate, None);
    let h = c.to_host();
    assert_eq!(h.codec, "opus");
    assert_eq!(h.number_of_channels, None);
    assert_eq!(h.sample_rate, None);
    assert_eq!(h.bitrate, None);

    c.channel_count = Some(2);
    c.sample_rate = Some(48_000);
    c.bitrate = Some(128_000);
    let h = c.to_host();
    assert_eq!(h.number_of_channels, Some(2));
    assert_eq!(h.sample_rate, Some(48_000));
    assert_eq!(h.bitrate, Some(128_000));
    assert_eq!(c.clone(), c);
    assert_eq!(AudioEncoderConfig::default(), AudioEncoderConfig::new(""));
}

#[test]
fn audio_build_passes_on_the_refusal_of_the_host() {
    let refused = AudioEncoderConfig::new("nonsense")
        .init(Engine("e"), Err(HostError::new("NotSupportedError".to_string())));
    match refused {
        Err(e) => assert_eq!(e, Error::Unknown(HostError::new("NotSupportedError".to_string()))),
        Ok(_) => panic!("built an encoder that the host refused"),
    }
    let refused: Result<(AudioDecoder<Engine>, AudioDecoded<Samples>), Error> =
        AudioDecoderConfig::new("nonsense", 2, 48_000)
            .build(Engine("d"), Err(HostError::new("NotSupportedError".to_string())));
    match refused {
        Err(e) => assert_eq!(e, Error::Unknown(HostError::new("NotSupportedError".to_string()))),
        Ok(_) => panic!("built a decoder that the host refused"),
    }
}

#[test]
fn audio_encoder_outputs_in_order_with_config() {
    let (enc, mut out) = encoder();
    assert!(enc.is_open());
    assert_eq!(enc.host(), Some(&Engine("encoder")));
    assert_eq!(enc.config().codec, "opus");
    assert_eq!(out.config(), None);
    assert_eq!(out.config_ready(), Next::Pending);
    let negotiated = AudioDecoderConfig::new("opus", 2, 48_000);
    assert!(enc.on_output(&mut out, unit(0), Some(negotiated.clone())));
    assert!(enc.on_output(&mut out, unit(20), None));
    assert!(enc.on_output(&mut out, unit(40), None));
    assert_eq!(out.len(), 3);
    assert_eq!(out.config(), Some(negotiated.clone()));
    assert_eq!(out.config_ready(), Next::Output(negotiated));
    assert_eq!(out.frame(), Next::Output(unit(0)));
    assert_eq!(out.frame(), Next::Output(unit(20)));
    assert_eq!(out.frame(), Next::Output(unit(40)));
    assert_eq!(out.frame(), Next::Pending);
}

#[test]
fn audio_encoder_submits_the_resource_of_the_buffer() {
    let (mut enc, _out) = encoder();
    let mut data = samples(3, 0);
    assert_eq!(enc.encode(&data), Some(&Samples(3)));
    data.release();
    assert_eq!(enc.encode(&data), None);
}

#[test]
fn audio_encoder_ends_with_error_or_close() {
    let (enc, mut out) = encoder();
    enc.on_output(&mut out, unit(0), None);
    enc.on_error(&mut out, HostError::new("EncodingError".to_string()));
    assert!(!enc.on_output(&mut out, unit(20), None));
    assert_eq!(out.frame(), Next::Output(unit(0)));
    assert_eq!(
        out.frame(),
        Next::Failed(Error::Unknown(HostError::new("EncodingError".to_string())))
    );
    assert_eq!(
        out.config_ready(),
        Next::Failed(Error::Unknown(HostError::new("EncodingError".to_string())))
    );
    assert_eq!(
        enc.flush(&out, None),
        Next::Failed(Error::Unknown(HostError::new("EncodingError".to_string())))
    );

    let (mut enc, mut out) = encoder();
    assert_eq!(enc.flush(&out, None), Next::Pending);
    assert_eq!(enc.flush(&out, Some(Ok(()))), Next::Output(()));
    assert_eq!(enc.close(&mut out), Some(Engine("encoder")));
    assert_eq!(enc.close(&mut out), None);
    assert!(!enc.on_output(&mut out, unit(0), Some(AudioDecoderConfig::new("opus", 2, 48_000))));
    assert_eq!(out.config(), None);
    assert_eq!(out.frame(), Next::End);
    assert_eq!(out.config_ready(), Next::End);
}

#[test]
fn audio_encoder_with_dropped_reader() {
    let (enc, mut out) = encoder();
    enc.on_output(&mut out, unit(0), None);
    let unread: Vec<EncodedFrame> = out.detach().into_iter().collect();
    assert_eq!(unread, vec![unit(0)]);
    assert!(!enc.on_output(&mut out, unit(20), None));
    assert_eq!(out.len(), 0);
    assert_eq!(out.frame(), Next::Failed(Error::Dropped));
}

#[test]
fn audio_decoder_outputs_in_order() {
    let (dec, mut decoded) = decoder();
    assert!(dec.is_open());
    assert_eq!(dec.host(), Some(&Engine("decoder")));
    for i in 0..4u32 {
        assert!(dec.on_output(&mut decoded, samples(i, 20 * i as u64)).is_none());
    }
    assert_eq!(decoded.len(), 4);
    for i in 0..4u32 {
        match decoded.next() {
            Next::Output(d) => {
                assert_eq!(d.timestamp(), Timestamp::from_millis(20 * i as u64));
                assert_eq!(d.leak(), Samples(i));
            },
            other => panic!("expected buffer {i}, found {other:?}"),
        }
    }
    assert!(matches!(decoded.next(), Next::Pending));
}

#[test]
fn audio_decoder_ends_with_error_or_close() {
    let (mut dec, mut decoded) = decoder();
    dec.on_error(&mut decoded, HostError::new("corrupt".to_string()));
    let rejected = dec.on_output(&mut decoded, samples(1, 0));
    assert_eq!(rejected.unwrap().leak(), Samples(1));
    assert!(matches!(decoded.next(), Next::Failed(Error::Unknown(_))));
    assert!(matches!(decoded.next(), Next::Failed(Error::Unknown(_))));
    assert_eq!(
        dec.flush(&decoded, None),
        Next::Failed(Error::Unknown(HostError::new("corrupt".to_string())))
    );
    assert_eq!(dec.close(&mut decoded), Some(Engine("decoder")));
    assert_eq!(dec.close(&mut decoded), None);
    assert!(matches!(decoded.next(), Next::Failed(Error::Unknown(_))));

    let (mut dec, mut decoded) = decoder();
    dec.on_output(&mut decoded, samples(1, 0));
    dec.close(&mut decoded);
    assert!(dec.on_output(&mut decoded, samples(2, 20)).is_some());
    assert!(matches!(decoded.next(), Next::Output(_)));
    assert!(matches!(decoded.next(), Next::End));
    assert!(matches!(decoded.next(), Next::End));
}

#[test]
fn audio_decoder_with_dropped_reader() {
    let (dec, mut decoded) = decoder();
    dec.on_output(&mut decoded, samples(1, 0));
    let unread: Vec<Samples> = decoded.detach().into_iter().map(|d| d.leak()).collect();
    assert_eq!(unread, vec![Samples(1)]);
    assert!(dec.on_output(&mut decoded, samples(2, 20)).is_some());
    assert!(matches!(decoded.next(), Next::Failed(Error::Dropped)));
}

#[test]
fn audio_decode_tells_the_host_key_or_delta() {
    let (dec, _decoded) = decoder();
    let chunk = dec.decode(unit(20));
    assert_eq!(chunk.kind, ChunkType::Key);
    assert_eq!(chunk.timestamp, 20_000);
    assert_eq!(chunk.data, vec![0xffu8, 0xf1]);
    let mut delta = unit(40);
    delta.keyframe = false;
    assert_eq!(dec.decode(delta).kind, ChunkType::Delta);
}

#[test]
fn audio_data_knows_what_the_host_said() {
    let mut d = samples(9, 100);
    assert_eq!(d.timestamp(), Timestamp::from_millis(100));
    assert_eq!(d.duration(), Duration::from_millis(20));
    assert_eq!(d.sample_rate(), 48_000);
    assert_eq!(d.number_of_frames(), 960);
    assert_eq!(d.inner(), Some(&Samples(9)));
    assert_eq!(d.release(), Some(Samples(9)));
    assert_eq!(d.release(), None);
    assert_eq!(d.sample_rate(), 48_000);
    assert_eq!(samples(4, 0).leak(), Samples(4));
}

#[test]
fn copy_options_in_the_form_of_the_host() {
    let all = AudioCopyOptions::default();
    assert_eq!(all.offset, 0);
    assert_eq!(all.count, None);
    assert_eq!(
        all.to_host(1),
        HostCopyOptions { plane_index: 1, frame_offset: 0, frame_count: None }
    );
    let part = AudioCopyOptions { offset: 128, count: Some(512) };
    assert_eq!(
        part.to_host(0),
        HostCopyOptions { plane_index: 0, frame_offset: 128, frame_count: Some(512) }
    );
}

#[test]
fn appended_frames_is_what_lies_behind_the_offset() {
    let d = samples(1, 0);
    assert_eq!(d.appended_frames(&AudioCopyOptions::default()), 960);
    assert_eq!(d.appended_frames(&AudioCopyOptions { offset: 160, count: None }), 800);
    assert_eq!(d.appended_frames(&AudioCopyOptions { offset: 160, count: Some(480) }), 320);
    assert_eq!(d.appended_frames(&AudioCopyOptions { offset: 960, count: None }), 0);
}

#[test]
fn planar_layout_puts_channel_after_channel() {
    let layout = PlanarLayout::new(&vec![960, 960]).unwrap();
    assert_eq!(layout.channel_count, 2);
    assert_eq!(layout.frame_count, 960);
    assert_eq!(layout.total_samples, 1_920);
    assert_eq!(layout.offset_of(0), 0);
    assert_eq!(layout.offset_of(1), 960);

    let mono = PlanarLayout::new(&vec![441]).unwrap();
    assert_eq!(mono.channel_count, 1);
    assert_eq!(mono.total_samples, 441);
    let silent = PlanarLayout::new(&vec![0, 0, 0]).unwrap();
    assert_eq!(silent.channel_count, 3);
    assert_eq!(silent.total_samples, 0);
}

#[test]
fn planar_layout_needs_a_channel() {
    assert_eq!(PlanarLayout::new(&Vec::new()), Err(Error::NoChannels));
}
