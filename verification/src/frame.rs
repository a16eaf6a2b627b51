use bytes::Bytes;
use vstd::prelude::*;
use crate::payload::contents;
use crate::units::Timestamp;

verus! {

/// Whether a unit of encoded media can be decoded on its own.
#[derive(Clone, Copy, Debug, PartialEq, Eq, Hash, Structural)]
pub enum ChunkType {
    /// The unit stands on its own.
    Key,
    /// The unit needs the units before it.
    Delta,
}

/// One unit of encoded media as the host engine takes and gives it.
#[derive(Debug, PartialEq, Eq)]
pub struct HostChunk {
    pub data: Vec<u8>,
    /// Microseconds since the origin of the timeline.
    pub timestamp: u64,
    pub kind: ChunkType,
}

/// One unit of encoded media: what an encoder puts out and a decoder takes
/// in.
#[derive(Debug, PartialEq, Eq)]
pub struct EncodedFrame {
    pub payload: Bytes,
    pub timestamp: Timestamp,
    pub keyframe: bool,
}

/// An encoded unit as contracts see it.
pub struct EncodedFrameView {
    pub payload: Seq<u8>,
    pub timestamp: Timestamp,
    pub keyframe: bool,
}

impl View for EncodedFrame {
    type V = EncodedFrameView;

    open spec fn view(&self) -> EncodedFrameView {
        EncodedFrameView {
            payload: contents(self.payload),
            timestamp: self.timestamp,
            keyframe: self.keyframe,
        }
    }
}

impl EncodedFrame {
    /// The unit that the host engine put out as `chunk`.
    pub fn from_chunk(chunk: HostChunk) -> (frame: EncodedFrame)
        ensures
            frame@.payload == chunk.data@,
            frame@.timestamp.micros() == chunk.timestamp,
            frame@.keyframe == (chunk.kind is Key),
    {
        let keyframe = match chunk.kind {
            ChunkType::Key => true,
            ChunkType::Delta => false,
        };
        EncodedFrame {
            payload: Bytes::from(chunk.data),
            timestamp: Timestamp::from_micros(chunk.timestamp),
            keyframe,
        }
    }

    /// How the host engine has to be told of the unit: a key chunk where the
    /// unit is a keyframe, a delta chunk where it is not.
    pub fn chunk_type(&self) -> (kind: ChunkType)
        ensures
            kind is Key <==> self@.keyframe,
    {
        if self.keyframe {
            ChunkType::Key
        } else {
            ChunkType::Delta
        }
    }

    /// The number of bytes of encoded media in the unit.
    pub fn size(&self) -> (size: usize)
        ensures
            size == self@.payload.len(),
    {
        self.payload.len()
    }
}

impl Clone for EncodedFrame {
    /// A second handle to the same unit; the payload is shared, not copied.
    fn clone(&self) -> (frame: EncodedFrame)
        ensures
            frame@ == self@,
    {
        EncodedFrame {
            payload: self.payload.clone(),
            timestamp: self.timestamp,
            keyframe: self.keyframe,
        }
    }
}

} // verus!
