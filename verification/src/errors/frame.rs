use super::kinds::{FrameFormatKind, FrameSizeKind};
use crate::text::{push_upper_hex_word, upper_hex_word};
use vstd::prelude::*;
use vstd::string::*;

verus! {

/// A frame that was refused, with the bytes in question where they are
/// known.
#[derive(Debug)]
#[allow(inconsistent_fields)]
pub enum FrameError {
    Size { kind: FrameSizeKind, details: String, frame_data: Option<Vec<u8>> },
    Format { kind: FrameFormatKind, details: String, frame_data: Option<Vec<u8>> },
    Crc { calculated: u16, received: u16, frame_hex: String },
}

impl FrameError {
    /// The message of this error.
    pub open spec fn text(self) -> Seq<char> {
        match self {
            Self::Size { kind, details, frame_data } => "Frame size error: "@ + kind.text()
                + " - "@ + details@,
            Self::Format { kind, details, frame_data } => "Frame format error: "@ + kind.text()
                + " - "@ + details@,
            Self::Crc { calculated, received, frame_hex } => "CRC error: calculated="@
                + upper_hex_word(calculated) + ", received="@ + upper_hex_word(received)
                + ", frame="@ + frame_hex@,
        }
    }

    /// The message of this error.
    pub fn to_string(&self) -> (s: String)
        ensures
            s@ == self.text(),
    {
        match self {
            Self::Size { kind, details, frame_data } => {
                let mut s = String::from_str("Frame size error: ");
                s.append(kind.as_str());
                s.append(" - ");
                s.append(details.as_str());
                assert(s@ =~= self.text());
                s
            },
            Self::Format { kind, details, frame_data } => {
                let mut s = String::from_str("Frame format error: ");
                s.append(kind.as_str());
                s.append(" - ");
                s.append(details.as_str());
                assert(s@ =~= self.text());
                s
            },
            Self::Crc { calculated, received, frame_hex } => {
                let mut s = String::from_str("CRC error: calculated=");
                push_upper_hex_word(&mut s, *calculated);
                s.append(", received=");
                push_upper_hex_word(&mut s, *received);
                s.append(", frame=");
                s.append(frame_hex.as_str());
                assert(s@ =~= self.text());
                s
            },
        }
    }
}

} // verus!
