//! The hardware identity a status frame reports.

use vstd::prelude::*;

verus! {

/// The printer models that report themselves in a status frame. The
/// identity is informational only: no protocol step branches on it.
#[derive(Debug, Copy, Clone, PartialEq, Eq, Structural)]
pub enum PrinterModel {
    QL500O550,
    QL560,
    QL570,
    QL580N,
    QL650T,
    QL700,
    QL1050,
    QL1060N,
    Unknown,
}

/// The model a status byte denotes; every unassigned byte maps to
/// `Unknown` rather than failing.
pub open spec fn spec_model_from_byte(byte: u8) -> PrinterModel {
    match byte {
        0x4Fu8 => PrinterModel::QL500O550,
        0x31u8 => PrinterModel::QL560,
        0x32u8 => PrinterModel::QL570,
        0x33u8 => PrinterModel::QL580N,
        0x51u8 => PrinterModel::QL650T,
        0x35u8 => PrinterModel::QL700,
        0x50u8 => PrinterModel::QL1050,
        0x34u8 => PrinterModel::QL1060N,
        _ => PrinterModel::Unknown,
    }
}

/// The display name of each model.
pub open spec fn spec_model_name(model: PrinterModel) -> &'static str {
    match model {
        PrinterModel::QL500O550 => "QL-500/550",
        PrinterModel::QL560 => "QL-560",
        PrinterModel::QL570 => "QL-570",
        PrinterModel::QL580N => "QL-580N",
        PrinterModel::QL650T => "QL-650TD",
        PrinterModel::QL700 => "QL-700",
        PrinterModel::QL1050 => "QL-1050",
        PrinterModel::QL1060N => "QL-1060N",
        PrinterModel::Unknown => "Unknown",
    }
}

impl PrinterModel {
    /// Decodes the model byte of a status frame; decoding is total.
    pub fn from_byte(byte: u8) -> (r: PrinterModel)
        ensures
            r == spec_model_from_byte(byte),
    {
        match byte {
            0x4F => PrinterModel::QL500O550,
            0x31 => PrinterModel::QL560,
            0x32 => PrinterModel::QL570,
            0x33 => PrinterModel::QL580N,
            0x51 => PrinterModel::QL650T,
            0x35 => PrinterModel::QL700,
            0x50 => PrinterModel::QL1050,
            0x34 => PrinterModel::QL1060N,
            _ => PrinterModel::Unknown,
        }
    }

    /// The display name of the model.
    pub fn to_str(&self) -> (r: &'static str)
        ensures
            r == spec_model_name(*self),
    {
        match self {
            PrinterModel::QL500O550 => "QL-500/550",
            PrinterModel::QL560 => "QL-560",
            PrinterModel::QL570 => "QL-570",
            PrinterModel::QL580N => "QL-580N",
            PrinterModel::QL650T => "QL-650TD",
            PrinterModel::QL700 => "QL-700",
            PrinterModel::QL1050 => "QL-1050",
            PrinterModel::QL1060N => "QL-1060N",
            PrinterModel::Unknown => "Unknown",
        }
    }
}

} // verus!
