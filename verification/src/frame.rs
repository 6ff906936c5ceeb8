//! Frames of the Android Auto protocol, as far as the link looks into them.

use vstd::prelude::*;

verus! {

/// The flags of a frame header.
#[derive(Debug, Clone, Copy, PartialEq, Eq, Structural)]
pub struct FrameHeaderContents {
    /// Whether the payload travels encrypted.
    pub encryption: bool,
    /// The flags that only the framing layer reads.
    pub other_flags: u8,
}

impl FrameHeaderContents {
    /// Whether the payload travels encrypted.
    pub fn get_encryption(&self) -> (r: bool)
        ensures
            r == self.encryption,
    {
        self.encryption
    }
}

/// The header of a frame.
#[derive(Debug, Clone, Copy, PartialEq, Eq, Structural)]
pub struct FrameHeader {
    /// The channel that the frame belongs to. Channel zero is the control
    /// channel.
    pub channel_id: u8,
    /// The flags.
    pub frame: FrameHeaderContents,
}

/// A frame.
#[derive(Debug, PartialEq, Eq)]
pub struct AndroidAutoFrame {
    /// The header.
    pub header: FrameHeader,
    /// The payload.
    pub data: Vec<u8>,
}

impl AndroidAutoFrame {
    /// Whether the payload travels encrypted.
    pub open spec fn encrypted(self) -> bool {
        self.header.frame.encryption
    }
}

} // verus!
