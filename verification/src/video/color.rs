use vstd::prelude::*;

verus! {

/// How colour values turn into luma and chroma.
#[derive(Debug, Clone, Copy, PartialEq, Eq, Hash, Structural)]
pub enum VideoMatrixCoefficients {
    Rgb,
    Bt709,
    Bt470bg,
    Smpte170m,
}

/// The colours that the primaries stand for.
#[derive(Debug, Clone, Copy, PartialEq, Eq, Hash, Structural)]
pub enum VideoColorPrimaries {
    Bt709,
    Bt470bg,
    Smpte170m,
}

/// How light turns into signal.
#[derive(Debug, Clone, Copy, PartialEq, Eq, Hash, Structural)]
pub enum VideoTransferCharacteristics {
    Bt709,
    Smpte170m,
    Iec6196621,
}

/// The colour space of a video stream, as far as it is known.
#[derive(Debug, Clone, Copy, PartialEq, Eq, Hash, Structural)]
pub struct VideoColorSpaceConfig {
    pub full_range: Option<bool>,
    pub matrix: Option<VideoMatrixCoefficients>,
    pub primaries: Option<VideoColorPrimaries>,
    pub transfer: Option<VideoTransferCharacteristics>,
}

impl VideoColorSpaceConfig {
    /// A colour space of which nothing is known yet.
    pub fn new() -> (c: VideoColorSpaceConfig)
        ensures
            c.full_range.is_none(),
            c.matrix.is_none(),
            c.primaries.is_none(),
            c.transfer.is_none(),
    {
        VideoColorSpaceConfig { full_range: None, matrix: None, primaries: None, transfer: None }
    }
}

} // verus!
