//! Label media and USB identity constants used by the printer family.

use vstd::prelude::*;

verus! {

/// The static length in bytes of one raster line on every supported printer.
pub const RASTER_LINE_LENGTH: usize = 90;

/// Width in pixels of one raster line.
pub const MAX_PIXEL_WIDTH: usize = RASTER_LINE_LENGTH * 8;

/// USB vendor id shared by the whole printer family.
pub const VENDOR_ID: u16 = 0x04F9;

/// The bit value that marks an inked dot in a raster byte.
pub const BLACK_PIXEL: u8 = 0;

/// The bit value that marks a blank dot in a raster byte.
pub const WHITE_PIXEL: u8 = 1;

/// A (width, length) pair in device dots or millimetres.
#[derive(Debug, Copy, Clone, PartialEq, Eq, Structural)]
pub struct WidthLength(pub u32, pub u32);

/// Physical geometry of one label roll: tape size in millimetres,
/// total and printable dot dimensions, and the margins in dots.
#[derive(Debug, Copy, Clone, PartialEq, Eq, Structural)]
pub struct Label {
    pub tape_size: WidthLength,
    pub dots: WidthLength,
    pub dots_printable: WidthLength,
    pub right_margin: u8,
    pub feed_margin: u8,
}

/// The catalog of manufacturer-published label geometries, keyed by the
/// dimensions the printer reports: an exact (width, length) pair for
/// die-cut labels, the width alone for continuous tape (`length` absent).
pub open spec fn spec_label_data(width: u8, length: Option<u8>) -> Option<Label> {
    match length {
        Some(length) => match (width, length) {
            (17u8, 54u8) => Some(
                Label {
                    tape_size: WidthLength(17, 54),
                    dots: WidthLength(201, 636),
                    dots_printable: WidthLength(165, 566),
                    right_margin: 0,
                    feed_margin: 0,
                },
            ),
            (17u8, 87u8) => Some(
                Label {
                    tape_size: WidthLength(17, 87),
                    dots: WidthLength(201, 1026),
                    dots_printable: WidthLength(165, 956),
                    right_margin: 0,
                    feed_margin: 0,
                },
            ),
            (23u8, 23u8) => Some(
                Label {
                    tape_size: WidthLength(23, 23),
                    dots: WidthLength(272, 272),
                    dots_printable: WidthLength(202, 202),
                    right_margin: 42,
                    feed_margin: 0,
                },
            ),
            (29u8, 42u8) => Some(
                Label {
                    tape_size: WidthLength(29, 42),
                    dots: WidthLength(342, 495),
                    dots_printable: WidthLength(306, 425),
                    right_margin: 6,
                    feed_margin: 0,
                },
            ),
            (29u8, 90u8) => Some(
                Label {
                    tape_size: WidthLength(29, 90),
                    dots: WidthLength(342, 1061),
                    dots_printable: WidthLength(306, 991),
                    right_margin: 6,
                    feed_margin: 0,
                },
            ),
            (39u8, 90u8) => Some(
                Label {
                    tape_size: WidthLength(38, 90),
                    dots: WidthLength(449, 1061),
                    dots_printable: WidthLength(413, 991),
                    right_margin: 12,
                    feed_margin: 0,
                },
            ),
            (39u8, 48u8) => Some(
                Label {
                    tape_size: WidthLength(39, 48),
                    dots: WidthLength(461, 565),
                    dots_printable: WidthLength(425, 495),
                    right_margin: 6,
                    feed_margin: 0,
                },
            ),
            (52u8, 29u8) => Some(
                Label {
                    tape_size: WidthLength(52, 29),
                    dots: WidthLength(614, 341),
                    dots_printable: WidthLength(578, 271),
                    right_margin: 0,
                    feed_margin: 0,
                },
            ),
            (62u8, 29u8) => Some(
                Label {
                    tape_size: WidthLength(62, 29),
                    dots: WidthLength(732, 341),
                    dots_printable: WidthLength(696, 271),
                    right_margin: 12,
                    feed_margin: 0,
                },
            ),
            (62u8, 100u8) => Some(
                Label {
                    tape_size: WidthLength(62, 100),
                    dots: WidthLength(732, 1179),
                    dots_printable: WidthLength(696, 1109),
                    right_margin: 12,
                    feed_margin: 0,
                },
            ),
            _ => None,
        },
        None => match width {
            12u8 => Some(
                Label {
                    tape_size: WidthLength(12, 0),
                    dots: WidthLength(142, 0),
                    dots_printable: WidthLength(106, 0),
                    right_margin: 29,
                    feed_margin: 35,
                },
            ),
            29u8 => Some(
                Label {
                    tape_size: WidthLength(29, 0),
                    dots: WidthLength(342, 0),
                    dots_printable: WidthLength(306, 0),
                    right_margin: 6,
                    feed_margin: 35,
                },
            ),
            38u8 => Some(
                Label {
                    tape_size: WidthLength(38, 0),
                    dots: WidthLength(449, 0),
                    dots_printable: WidthLength(413, 0),
                    right_margin: 12,
                    feed_margin: 35,
                },
            ),
            50u8 => Some(
                Label {
                    tape_size: WidthLength(50, 0),
                    dots: WidthLength(590, 0),
                    dots_printable: WidthLength(554, 0),
                    right_margin: 12,
                    feed_margin: 35,
                },
            ),
            54u8 => Some(
                Label {
                    tape_size: WidthLength(54, 0),
                    dots: WidthLength(636, 0),
                    dots_printable: WidthLength(590, 0),
                    right_margin: 0,
                    feed_margin: 35,
                },
            ),
            62u8 => Some(
                Label {
                    tape_size: WidthLength(62, 0),
                    dots: WidthLength(732, 0),
                    dots_printable: WidthLength(696, 0),
                    right_margin: 12,
                    feed_margin: 35,
                },
            ),
            102u8 => Some(
                Label {
                    tape_size: WidthLength(102, 0),
                    dots: WidthLength(1200, 0),
                    dots_printable: WidthLength(1164, 0),
                    right_margin: 12,
                    feed_margin: 35,
                },
            ),
            _ => None,
        },
    }
}

/// Looks a reported media size up in the catalog: the exact (width, length)
/// pair for die-cut labels, the width alone for continuous tape. Sizes the
/// manufacturer never published return `None`.
pub fn label_data(width: u8, length: Option<u8>) -> (r: Option<Label>)
    ensures
        r == spec_label_data(width, length),
{
    match length {
        Some(length) => match (width, length) {
            (17u8, 54u8) => Some(
                Label {
                    tape_size: WidthLength(17, 54),
                    dots: WidthLength(201, 636),
                    dots_printable: WidthLength(165, 566),
                    right_margin: 0,
                    feed_margin: 0,
                },
            ),
            (17u8, 87u8) => Some(
                Label {
                    tape_size: WidthLength(17, 87),
                    dots: WidthLength(201, 1026),
                    dots_printable: WidthLength(165, 956),
                    right_margin: 0,
                    feed_margin: 0,
                },
            ),
            (23u8, 23u8) => Some(
                Label {
                    tape_size: WidthLength(23, 23),
                    dots: WidthLength(272, 272),
                    dots_printable: WidthLength(202, 202),
                    right_margin: 42,
                    feed_margin: 0,
                },
            ),
            (29u8, 42u8) => Some(
                Label {
                    tape_size: WidthLength(29, 42),
                    dots: WidthLength(342, 495),
                    dots_printable: WidthLength(306, 425),
                    right_margin: 6,
                    feed_margin: 0,
                },
            ),
            (29u8, 90u8) => Some(
                Label {
                    tape_size: WidthLength(29, 90),
                    dots: WidthLength(342, 1061),
                    dots_printable: WidthLength(306, 991),
                    right_margin: 6,
                    feed_margin: 0,
                },
            ),
            (39u8, 90u8) => Some(
                Label {
                    tape_size: WidthLength(38, 90),
                    dots: WidthLength(449, 1061),
                    dots_printable: WidthLength(413, 991),
                    right_margin: 12,
                    feed_margin: 0,
                },
            ),
            (39u8, 48u8) => Some(
                Label {
                    tape_size: WidthLength(39, 48),
                    dots: WidthLength(461, 565),
                    dots_printable: WidthLength(425, 495),
                    right_margin: 6,
                    feed_margin: 0,
                },
            ),
            (52u8, 29u8) => Some(
                Label {
                    tape_size: WidthLength(52, 29),
                    dots: WidthLength(614, 341),
                    dots_printable: WidthLength(578, 271),
                    right_margin: 0,
                    feed_margin: 0,
                },
            ),
            (62u8, 29u8) => Some(
                Label {
                    tape_size: WidthLength(62, 29),
                    dots: WidthLength(732, 341),
                    dots_printable: WidthLength(696, 271),
                    right_margin: 12,
                    feed_margin: 0,
                },
            ),
            (62u8, 100u8) => Some(
                Label {
                    tape_size: WidthLength(62, 100),
                    dots: WidthLength(732, 1179),
                    dots_printable: WidthLength(696, 1109),
                    right_margin: 12,
                    feed_margin: 0,
                },
            ),
            _ => None,
        },
        None => match width {
            12u8 => Some(
                Label {
                    tape_size: WidthLength(12, 0),
                    dots: WidthLength(142, 0),
                    dots_printable: WidthLength(106, 0),
                    right_margin: 29,
                    feed_margin: 35,
                },
            ),
            29u8 => Some(
                Label {
                    tape_size: WidthLength(29, 0),
                    dots: WidthLength(342, 0),
                    dots_printable: WidthLength(306, 0),
                    right_margin: 6,
                    feed_margin: 35,
                },
            ),
            38u8 => Some(
                Label {
                    tape_size: WidthLength(38, 0),
                    dots: WidthLength(449, 0),
                    dots_printable: WidthLength(413, 0),
                    right_margin: 12,
                    feed_margin: 35,
                },
            ),
            50u8 => Some(
                Label {
                    tape_size: WidthLength(50, 0),
                    dots: WidthLength(590, 0),
                    dots_printable: WidthLength(554, 0),
                    right_margin: 12,
                    feed_margin: 35,
                },
            ),
            54u8 => Some(
                Label {
                    tape_size: WidthLength(54, 0),
                    dots: WidthLength(636, 0),
                    dots_printable: WidthLength(590, 0),
                    right_margin: 0,
                    feed_margin: 35,
                },
            ),
            62u8 => Some(
                Label {
                    tape_size: WidthLength(62, 0),
                    dots: WidthLength(732, 0),
                    dots_printable: WidthLength(696, 0),
                    right_margin: 12,
                    feed_margin: 35,
                },
            ),
            102u8 => Some(
                Label {
                    tape_size: WidthLength(102, 0),
                    dots: WidthLength(1200, 0),
                    dots_printable: WidthLength(1164, 0),
                    right_margin: 12,
                    feed_margin: 35,
                },
            ),
            _ => None,
        },
    }
}

/// The model name a USB product id stands for, or `None` when the id does
/// not belong to a supported printer.
pub open spec fn spec_printer_name_from_id(id: u16) -> Option<&'static str> {
    match id {
        0x2015u16 => Some("QL-500"),
        0x2016u16 => Some("QL-550"),
        0x2027u16 => Some("QL-560"),
        0x2028u16 => Some("QL-570"),
        0x2029u16 => Some("QL-580N"),
        0x201Bu16 => Some("QL-650TD"),
        0x2042u16 => Some("QL-700"),
        0x2020u16 => Some("QL-1050"),
        0x202Au16 => Some("QL-1060N"),
        _ => None,
    }
}

/// Maps a USB product id to the model name of the printer it identifies.
pub fn printer_name_from_id(id: u16) -> (r: Option<&'static str>)
    ensures
        r == spec_printer_name_from_id(id),
{
    match id {
        0x2015 => Some("QL-500"),
        0x2016 => Some("QL-550"),
        0x2027 => Some("QL-560"),
        0x2028 => Some("QL-570"),
        0x2029 => Some("QL-580N"),
        0x201B => Some("QL-650TD"),
        0x2042 => Some("QL-700"),
        0x2020 => Some("QL-1050"),
        0x202A => Some("QL-1060N"),
        _ => None,
    }
}

/// Decides whether a USB device identity belongs to a supported printer:
/// the family's vendor id together with a catalogued product id.
pub fn is_supported_printer(vendor_id: u16, product_id: u16) -> (r: bool)
    ensures
        r == (vendor_id == VENDOR_ID && spec_printer_name_from_id(product_id) is Some),
{
    vendor_id == VENDOR_ID && printer_name_from_id(product_id).is_some()
}

} // verus!
