//! The operational phase a status frame reports.

use vstd::prelude::*;

verus! {

/// Why the printer sent a status frame.
#[derive(Debug, Copy, Clone, PartialEq, Eq, Structural)]
pub enum StatusType {
    ReplyToStatusRequest,
    PrintingCompleted,
    ErrorOccurred,
    Notification,
    PhaseChange,
}

/// The phase a status-type byte denotes; every unassigned byte maps to
/// the benign `Notification`, so this field can never fail to decode.
pub open spec fn spec_status_type_from_byte(byte: u8) -> StatusType {
    match byte {
        0x00u8 => StatusType::ReplyToStatusRequest,
        0x01u8 => StatusType::PrintingCompleted,
        0x02u8 => StatusType::ErrorOccurred,
        0x05u8 => StatusType::Notification,
        0x06u8 => StatusType::PhaseChange,
        _ => StatusType::Notification,
    }
}

impl StatusType {
    /// Decodes the status-type byte of a status frame; decoding is total.
    pub fn from_byte(byte: u8) -> (r: StatusType)
        ensures
            r == spec_status_type_from_byte(byte),
    {
        match byte {
            0x00 => StatusType::ReplyToStatusRequest,
            0x01 => StatusType::PrintingCompleted,
            0x02 => StatusType::ErrorOccurred,
            0x05 => StatusType::Notification,
            0x06 => StatusType::PhaseChange,
            _ => StatusType::Notification,
        }
    }
}

} // verus!
