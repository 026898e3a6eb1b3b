//! Decoding of the fixed 32-byte status frame the printer answers with.

use vstd::prelude::*;
use crate::constants::{Label, spec_label_data, label_data};
use crate::media_type::{MediaType, spec_media_type_from_byte};
use crate::model::{PrinterModel, spec_model_from_byte};
use crate::status_type::{StatusType, spec_status_type_from_byte};

verus! {

/// The failure modes of the protocol layer. Transport-setup failures
/// pass through it uninterpreted as the last two variants.
#[derive(Debug, Copy, Clone, PartialEq, Eq, Structural)]
pub enum ProtocolError {
    /// The underlying byte channel failed.
    Transport,
    /// A status frame had the wrong size or a bad magic byte.
    MalformedResponse,
    /// The printer reports no loaded media; printing cannot start.
    NoMediaLoaded,
    /// The reported media size is not in the label catalog.
    UnknownMedia,
    /// Transport setup found no usable endpoint pair.
    MissingEndpoint,
    /// Transport setup could not claim the printer's interface.
    InterfaceClaimFailure,
}

/// The media a status frame reports: its kind and its dimensions in
/// millimetres. A length of zero is the sentinel for continuous tape.
#[derive(Debug, Copy, Clone, PartialEq, Eq, Structural)]
pub struct Media {
    pub media_type: MediaType,
    pub width: u8,
    pub length: u8,
}

impl Media {
    /// The catalog key this media selects: the exact pair for die-cut
    /// labels, the width alone when the zero length marks continuous tape.
    pub open spec fn spec_catalog_key(self) -> (u8, Option<u8>) {
        (self.width, if self.length == 0 {
            None
        } else {
            Some(self.length)
        })
    }

    /// The catalog entry for this media, if its size is published.
    pub open spec fn spec_label(self) -> Option<Label> {
        spec_label_data(self.spec_catalog_key().0, self.spec_catalog_key().1)
    }

    /// Resolves the media's physical geometry from the label catalog.
    /// Sizes outside the catalog are out of contract here; callers that
    /// must survive them use [`Media::to_label_checked`].
    pub fn to_label(&self) -> (r: Label)
        requires
            self.spec_label() is Some,
        ensures
            Some(r) == self.spec_label(),
    {
        let length = if self.length == 0 {
            None
        } else {
            Some(self.length)
        };
        label_data(self.width, length).unwrap()
    }

    /// Resolves the media's physical geometry from the label catalog,
    /// reporting an unpublished size as `UnknownMedia` instead of
    /// demanding it away.
    pub fn to_label_checked(&self) -> (r: Result<Label, ProtocolError>)
        ensures
            self.spec_label() is Some ==> r == Ok::<Label, ProtocolError>(
                self.spec_label().unwrap(),
            ),
            self.spec_label() is None ==> r == Err::<Label, ProtocolError>(
                ProtocolError::UnknownMedia,
            ),
    {
        let length = if self.length == 0 {
            None
        } else {
            Some(self.length)
        };
        match label_data(self.width, length) {
            Some(label) => Ok(label),
            None => Err(ProtocolError::UnknownMedia),
        }
    }
}

/// Everything one status frame reports: the hardware identity, the phase,
/// the advisory error list, and the loaded media.
#[derive(Debug)]
pub struct Response {
    pub model: PrinterModel,
    pub status_type: StatusType,
    pub errors: Vec<&'static str>,
    pub media: Media,
}

/// The message a set error flag appends, or the empty sequence when the
/// flag is clear.
pub open spec fn spec_error_if(byte: u8, flag: u8, message: &'static str) -> Seq<&'static str> {
    if byte & flag != 0 {
        seq![message]
    } else {
        Seq::empty()
    }
}

/// The advisory error list of a status frame: each set flag of the two
/// error bytes appends its fixed message, in this fixed flag-then-byte
/// order. The flags are independent; any subset may be set at once.
pub open spec fn spec_errors(error_byte_1: u8, error_byte_2: u8) -> Seq<&'static str> {
    spec_error_if(error_byte_1, 0x01, "No media when printing") + spec_error_if(
        error_byte_1,
        0x02,
        "End of media",
    ) + spec_error_if(error_byte_1, 0x04, "Tape cutter jam") + spec_error_if(
        error_byte_1,
        0x10,
        "Main unit in use",
    ) + spec_error_if(error_byte_1, 0x80, "Fan doesn't work") + spec_error_if(
        error_byte_2,
        0x04,
        "Transmission error",
    ) + spec_error_if(error_byte_2, 0x10, "Cover open") + spec_error_if(
        error_byte_2,
        0x40,
        "Cannot feed",
    ) + spec_error_if(error_byte_2, 0x80, "System error")
}

/// Appends the flag's message exactly when the flag is set.
fn error_if(byte: u8, flag: u8, message: &'static str, errors: &mut Vec<&'static str>)
    ensures
        final(errors)@ == old(errors)@ + spec_error_if(byte, flag, message),
{
    if byte & flag != 0 {
        errors.push(message);
    }
    proof {
        assert(errors@ =~= old(errors)@ + spec_error_if(byte, flag, message));
    }
}

/// A status frame is well formed when it has exactly 32 bytes and opens
/// with the fixed magic byte.
pub open spec fn spec_frame_well_formed(frame: Seq<u8>) -> bool {
    frame.len() == 32 && frame[0] == 0x80u8
}

/// What every field of a decoded response is, given the well-formed
/// frame it came from.
pub open spec fn spec_decoded_response(resp: Response, frame: Seq<u8>) -> bool {
    &&& resp.model == spec_model_from_byte(frame[4])
    &&& resp.status_type == spec_status_type_from_byte(frame[18])
    &&& resp.errors@ == spec_errors(frame[8], frame[9])
    &&& resp.media.media_type == spec_media_type_from_byte(frame[11])
    &&& resp.media.width == frame[10]
    &&& resp.media.length == frame[17]
}

/// Decodes a status frame.
///
/// Decoding fails only on a malformed frame: a length other than 32
/// bytes or a first byte other than the magic value. Every byte value of
/// the model, media-type, status-type and error fields decodes; the
/// error list holds exactly the messages whose flag bit is set, in the
/// fixed order.
pub fn decode(frame: &[u8]) -> (r: Result<Response, ProtocolError>)
    ensures
        r is Ok <==> spec_frame_well_formed(frame@),
        r is Err ==> r == Err::<Response, ProtocolError>(ProtocolError::MalformedResponse),
        r matches Ok(resp) ==> spec_decoded_response(resp, frame@),
{
    if frame.len() != 32 || frame[0] != 0x80 {
        return Err(ProtocolError::MalformedResponse);
    }
    let model = PrinterModel::from_byte(frame[4]);

    let mut errors: Vec<&'static str> = Vec::new();
    error_if(frame[8], 0x01, "No media when printing", &mut errors);
    error_if(frame[8], 0x02, "End of media", &mut errors);
    error_if(frame[8], 0x04, "Tape cutter jam", &mut errors);
    error_if(frame[8], 0x10, "Main unit in use", &mut errors);
    error_if(frame[8], 0x80, "Fan doesn't work", &mut errors);
    error_if(frame[9], 0x04, "Transmission error", &mut errors);
    error_if(frame[9], 0x10, "Cover open", &mut errors);
    error_if(frame[9], 0x40, "Cannot feed", &mut errors);
    error_if(frame[9], 0x80, "System error", &mut errors);
    proof {
        assert(errors@ =~= spec_errors(frame@[8], frame@[9]));
    }

    let width = frame[10];
    let length = frame[17];
    let media_type = MediaType::from_byte(frame[11]);
    let status_type = StatusType::from_byte(frame[18]);

    Ok(Response { model, status_type, errors, media: Media { media_type, width, length } })
}

} // verus!
