//! Configuration settings and their fixed four-byte wire encodings.

use vstd::prelude::*;

verus! {

/// A configurable printer mode. Every variant encodes to exactly four
/// bytes; encoding is total and has no hidden state.
#[derive(Debug, Copy, Clone, PartialEq, Eq, Structural)]
pub enum PrinterSetting {
    SwitchToRasterMode,
    MirrorOrCut(bool, bool),
    HighResMode(bool),
    NormalResMode(bool),
    PowerOnWhenConnected(bool),
    SleepTimer(SleepTimerValue),
}

/// The seven discrete sleep-timer durations the printer accepts.
#[derive(Debug, Copy, Clone, PartialEq, Eq, Structural)]
pub enum SleepTimerValue {
    Disable,
    TurnOffAfter10Minutes,
    TurnOffAfter20Minutes,
    TurnOffAfter30Minutes,
    TurnOffAfter40Minutes,
    TurnOffAfter50Minutes,
    TurnOffAfter60Minutes,
}

/// Print resolution mode.
#[derive(Debug, Copy, Clone, PartialEq, Eq, Structural)]
pub enum Resolution {
    /// 600 dpi. Has a 2:1 height-to-width proportion.
    Normal,
    /// 300 dpi. Has a 1:1 height-to-width proportion.
    High,
}

/// The flags byte of the mirror/auto-cut setting: mirror in bit 7,
/// auto-cut in bit 6.
pub open spec fn spec_mirror_cut_byte(mirror: bool, auto_cut: bool) -> u8 {
    (if mirror {
        0x80u8
    } else {
        0x00u8
    }) | (if auto_cut {
        0x40u8
    } else {
        0x00u8
    })
}

/// The flags byte of the resolution setting: high-resolution mode in
/// bit 6, trailing cut in bit 3, irrespective of mode.
pub open spec fn spec_resolution_byte(high_res: bool, trailing_cut: bool) -> u8 {
    (if high_res {
        0x40u8
    } else {
        0x00u8
    }) | (if trailing_cut {
        0x08u8
    } else {
        0x00u8
    })
}

/// The byte each sleep-timer duration encodes to.
pub open spec fn spec_sleep_timer_byte(value: SleepTimerValue) -> u8 {
    match value {
        SleepTimerValue::Disable => 0x00u8,
        SleepTimerValue::TurnOffAfter10Minutes => 0x01u8,
        SleepTimerValue::TurnOffAfter20Minutes => 0x02u8,
        SleepTimerValue::TurnOffAfter30Minutes => 0x03u8,
        SleepTimerValue::TurnOffAfter40Minutes => 0x04u8,
        SleepTimerValue::TurnOffAfter50Minutes => 0x05u8,
        SleepTimerValue::TurnOffAfter60Minutes => 0x06u8,
    }
}

/// The exact four-byte sequence each setting encodes to.
pub open spec fn spec_setting_bytes(setting: PrinterSetting) -> Seq<u8> {
    match setting {
        PrinterSetting::SwitchToRasterMode => seq![0x1Bu8, 0x69u8, 0x61u8, 0x01u8],
        PrinterSetting::MirrorOrCut(mirror, auto_cut) => seq![
            0x1Bu8,
            0x69u8,
            0x4Du8,
            spec_mirror_cut_byte(mirror, auto_cut),
        ],
        PrinterSetting::NormalResMode(cut) => seq![
            0x1Bu8,
            0x69u8,
            0x4Bu8,
            spec_resolution_byte(false, cut),
        ],
        PrinterSetting::HighResMode(cut) => seq![
            0x1Bu8,
            0x69u8,
            0x4Bu8,
            spec_resolution_byte(true, cut),
        ],
        PrinterSetting::PowerOnWhenConnected(on) => seq![
            0x1Bu8,
            0x69u8,
            0x70u8,
            if on {
                0x00u8
            } else {
                0x01u8
            },
        ],
        PrinterSetting::SleepTimer(value) => seq![
            0x1Bu8,
            0x69u8,
            0x70u8,
            spec_sleep_timer_byte(value),
        ],
    }
}

/// Whether the mirror flag (bit 7) is set in a mirror/auto-cut flags byte.
pub open spec fn spec_mirror_flag(byte: u8) -> bool {
    byte & 0x80u8 != 0
}

/// Whether the auto-cut flag (bit 6) is set in a mirror/auto-cut flags byte.
pub open spec fn spec_cut_flag(byte: u8) -> bool {
    byte & 0x40u8 != 0
}

/// Whether the high-resolution flag (bit 6) is set in a resolution flags byte.
pub open spec fn spec_high_res_flag(byte: u8) -> bool {
    byte & 0x40u8 != 0
}

/// Whether the trailing-cut flag (bit 3) is set in a resolution flags byte.
pub open spec fn spec_trailing_cut_flag(byte: u8) -> bool {
    byte & 0x08u8 != 0
}

impl PrinterSetting {
    /// Encodes the setting to its fixed four-byte sequence.
    pub fn get_byte_sequence(&self) -> (r: [u8; 4])
        ensures
            r@ == spec_setting_bytes(*self),
    {
        let r: [u8; 4] = match self {
            PrinterSetting::SwitchToRasterMode => [0x1B, 0x69, 0x61, 0x01],
            PrinterSetting::MirrorOrCut(mirror, auto_cut) => {
                let flags: u8 = (if *mirror {
                    0x80u8
                } else {
                    0x00u8
                }) | (if *auto_cut {
                    0x40u8
                } else {
                    0x00u8
                });
                [0x1B, 0x69, 0x4D, flags]
            },
            PrinterSetting::NormalResMode(cut) => {
                let flags: u8 = if *cut {
                    0x08u8
                } else {
                    0x00u8
                };
                proof {
                    assert(0x00u8 | 0x08u8 == 0x08u8 && 0x00u8 | 0x00u8 == 0x00u8) by (bit_vector);
                }
                [0x1B, 0x69, 0x4B, flags]
            },
            PrinterSetting::HighResMode(cut) => {
                let flags: u8 = if *cut {
                    0x48u8
                } else {
                    0x40u8
                };
                proof {
                    assert(0x40u8 | 0x08u8 == 0x48u8 && 0x40u8 | 0x00u8 == 0x40u8) by (bit_vector);
                }
                [0x1B, 0x69, 0x4B, flags]
            },
            PrinterSetting::PowerOnWhenConnected(on) => [
                0x1B,
                0x69,
                0x70,
                if *on {
                    0x00
                } else {
                    0x01
                },
            ],
            PrinterSetting::SleepTimer(value) => {
                let last_byte: u8 = match value {
                    SleepTimerValue::Disable => 0x00,
                    SleepTimerValue::TurnOffAfter10Minutes => 0x01,
                    SleepTimerValue::TurnOffAfter20Minutes => 0x02,
                    SleepTimerValue::TurnOffAfter30Minutes => 0x03,
                    SleepTimerValue::TurnOffAfter40Minutes => 0x04,
                    SleepTimerValue::TurnOffAfter50Minutes => 0x05,
                    SleepTimerValue::TurnOffAfter60Minutes => 0x06,
                };
                [0x1B, 0x69, 0x70, last_byte]
            },
        };
        proof {
            assert(r@ =~= spec_setting_bytes(*self));
        }
        r
    }
}

/// Reads the semantic intent back out of a mirror/auto-cut flags byte:
/// the mirror flag and the auto-cut flag, in that order.
pub fn decode_mirror_cut(byte: u8) -> (r: (bool, bool))
    ensures
        r.0 == spec_mirror_flag(byte),
        r.1 == spec_cut_flag(byte),
{
    (byte & 0x80 != 0, byte & 0x40 != 0)
}

/// Reads the semantic intent back out of a resolution flags byte: the
/// resolution mode and the trailing-cut flag.
pub fn decode_resolution(byte: u8) -> (r: (Resolution, bool))
    ensures
        (r.0 == Resolution::High) == spec_high_res_flag(byte),
        (r.0 == Resolution::Normal) == !spec_high_res_flag(byte),
        r.1 == spec_trailing_cut_flag(byte),
{
    let mode = if byte & 0x40 != 0 {
        Resolution::High
    } else {
        Resolution::Normal
    };
    (mode, byte & 0x08 != 0)
}

/// Encoding a mirror/auto-cut setting and reading the flags back out of
/// its fourth byte recovers both flags exactly.
pub proof fn lemma_mirror_cut_round_trip(mirror: bool, auto_cut: bool)
    ensures
        spec_mirror_flag(spec_mirror_cut_byte(mirror, auto_cut)) == mirror,
        spec_cut_flag(spec_mirror_cut_byte(mirror, auto_cut)) == auto_cut,
{
    assert(0xC0u8 & 0x80u8 != 0 && 0xC0u8 & 0x40u8 != 0 && 0x80u8 | 0x40u8 == 0xC0u8 && 0x80u8
        | 0x00u8 == 0x80u8 && 0x00u8 | 0x40u8 == 0x40u8 && 0x00u8 | 0x00u8 == 0x00u8 && 0x80u8
        & 0x80u8 != 0 && 0x80u8 & 0x40u8 == 0 && 0x40u8 & 0x80u8 == 0 && 0x40u8 & 0x40u8 != 0
        && 0x00u8 & 0x80u8 == 0 && 0x00u8 & 0x40u8 == 0) by (bit_vector);
}

/// Encoding a resolution setting and reading the flags back out of its
/// fourth byte recovers the mode and the trailing-cut flag exactly.
pub proof fn lemma_resolution_round_trip(high_res: bool, trailing_cut: bool)
    ensures
        spec_high_res_flag(spec_resolution_byte(high_res, trailing_cut)) == high_res,
        spec_trailing_cut_flag(spec_resolution_byte(high_res, trailing_cut)) == trailing_cut,
{
    assert(0x40u8 | 0x08u8 == 0x48u8 && 0x40u8 | 0x00u8 == 0x40u8 && 0x00u8 | 0x08u8 == 0x08u8
        && 0x00u8 | 0x00u8 == 0x00u8 && 0x48u8 & 0x40u8 != 0 && 0x48u8 & 0x08u8 != 0 && 0x40u8
        & 0x40u8 != 0 && 0x40u8 & 0x08u8 == 0 && 0x08u8 & 0x40u8 == 0 && 0x08u8 & 0x08u8 != 0
        && 0x00u8 & 0x40u8 == 0 && 0x00u8 & 0x08u8 == 0) by (bit_vector);
}

} // verus!
