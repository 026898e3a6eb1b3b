//! The kind of media a status frame reports as loaded.

use vstd::prelude::*;

verus! {

/// Media kind reported by the printer: nothing loaded, an endless roll,
/// or pre-sized die-cut labels.
#[derive(Debug, Copy, Clone, PartialEq, Eq, Structural)]
pub enum MediaType {
    NoMedia,
    ContinuousTape,
    DieCutLabels,
}

/// The media kind a status byte denotes; every unassigned byte means
/// that no media is loaded.
pub open spec fn spec_media_type_from_byte(byte: u8) -> MediaType {
    match byte {
        0x0Au8 => MediaType::ContinuousTape,
        0x0Bu8 => MediaType::DieCutLabels,
        _ => MediaType::NoMedia,
    }
}

/// The status byte a media kind is sent as, `None` for absent media,
/// which has no wire encoding.
pub open spec fn spec_media_type_to_byte(media_type: MediaType) -> Option<u8> {
    match media_type {
        MediaType::ContinuousTape => Some(0x0Au8),
        MediaType::DieCutLabels => Some(0x0Bu8),
        MediaType::NoMedia => None,
    }
}

impl MediaType {
    /// Decodes the media-type byte of a status frame; decoding is total,
    /// every unassigned value maps to `NoMedia`.
    pub fn from_byte(byte: u8) -> (r: MediaType)
        ensures
            r == spec_media_type_from_byte(byte),
    {
        match byte {
            0x0A => MediaType::ContinuousTape,
            0x0B => MediaType::DieCutLabels,
            _ => MediaType::NoMedia,
        }
    }

    /// Encodes the media kind for the print-information command; absent
    /// media has no encoding and must never reach that command.
    pub fn to_byte(&self) -> (r: Option<u8>)
        ensures
            r == spec_media_type_to_byte(*self),
    {
        match self {
            MediaType::ContinuousTape => Some(0x0A),
            MediaType::DieCutLabels => Some(0x0B),
            MediaType::NoMedia => None,
        }
    }
}

} // verus!
