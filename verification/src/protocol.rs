//! The print orchestrator: a state machine that sequences one print
//! operation over a request-then-response byte transport.
//!
//! The machine owns every protocol decision; the caller owns the
//! transport. Each step hands the caller one [`PrintAction`] to perform
//! (write a byte sequence, or read one status frame); the caller reports
//! what happened as a [`PrintEvent`] and the machine moves on. The fixed
//! order of a print operation is: switch to raster mode, query status
//! and send the print information (failing fatally when no media is
//! loaded), apply the mirror/auto-cut setting then the resolution
//! setting, re-query status to resolve the label geometry and set the
//! feed margin, stream every raster line, trigger the print, and read
//! the printer's answer. Any transport failure aborts the whole
//! sequence; printer-reported errors do not — they come back to the
//! caller inside the final [`Response`].

use vstd::prelude::*;
use crate::command::{Command, spec_command_bytes};
use crate::constants::{RASTER_LINE_LENGTH, spec_label_data};
use crate::job::PrintJob;
use crate::media_type::{MediaType, spec_media_type_from_byte, spec_media_type_to_byte};
use crate::setting::{PrinterSetting, Resolution, spec_setting_bytes};
use crate::status::{
    Media, ProtocolError, Response, decode, spec_decoded_response, spec_frame_well_formed,
};
use crate::status_type::{StatusType, spec_status_type_from_byte};

verus! {

/// What the caller must do next with the transport.
#[derive(Debug)]
pub enum PrintAction {
    /// Write these bytes to the printer.
    Write(Vec<u8>),
    /// Read one status frame from the printer.
    ReadStatus,
    /// Nothing: the machine is in a terminal state.
    Stop,
}

/// What the transport reported back for the last action.
#[derive(Debug)]
pub enum PrintEvent {
    /// The write went through.
    WriteOk,
    /// The write failed.
    WriteFailed,
    /// A read returned these bytes.
    Frame(Vec<u8>),
    /// The read failed.
    ReadFailed,
}

/// Where the machine stands in the fixed print sequence. The states up
/// to `TriggerSent` name the byte sequence whose write is outstanding;
/// the `…Await` states wait for a status frame instead.
#[derive(Debug)]
pub enum PrintState {
    /// The switch to raster mode was written.
    ModeSwitchSent,
    /// The status request before the print information was written.
    InfoStatusSent,
    /// Waiting for the status frame that carries the loaded media.
    InfoStatusAwait,
    /// The print-information command was written.
    InfoSent,
    /// The mirror/auto-cut setting was written.
    MirrorCutSent,
    /// The resolution setting was written.
    ResolutionSent,
    /// The status request before the feed margin was written.
    MarginStatusSent,
    /// Waiting for the status frame that resolves the label geometry.
    MarginStatusAwait,
    /// The feed-margin command was written.
    MarginsSent,
    /// Raster line `i` was written.
    LineSent(usize),
    /// The start-print trigger was written.
    TriggerSent,
    /// Waiting for the printer's answer to the trigger.
    ResultAwait,
    /// The print operation went through; the printer answered this.
    Done(Response),
    /// The print operation was aborted.
    Failed(ProtocolError),
}

/// The four little-endian bytes of a 32-bit line count.
pub open spec fn spec_u32_le(n: u32) -> Seq<u8> {
    seq![
        (n & 0xFF) as u8,
        ((n >> 8) & 0xFF) as u8,
        ((n >> 16) & 0xFF) as u8,
        ((n >> 24) & 0xFF) as u8,
    ]
}

/// The print-information flags byte: paper type, width, length, quality
/// priority and recovery, all enabled.
pub const PRINT_INFO_FLAGS: u8 = 0x80 | 0x02 | 0x04 | 0x08 | 0x40;

/// The print-information frame: op-code, flags, media type, width and
/// length in millimetres, the little-endian 32-bit raster line count,
/// the page-position byte, and one reserved byte.
pub open spec fn spec_print_info_bytes(media: Media, line_count: u32) -> Seq<u8> {
    seq![
        0x1Bu8,
        0x69u8,
        0x7Au8,
        PRINT_INFO_FLAGS,
        spec_media_type_to_byte(media.media_type).unwrap(),
        media.width,
        media.length,
    ] + spec_u32_le(line_count) + seq![0x01u8, 0x00u8]
}

/// The feed-margin command for the current label geometry.
pub open spec fn spec_margins_bytes(feed_margin: u8) -> Seq<u8> {
    seq![0x1Bu8, 0x69u8, 0x64u8, feed_margin, 0x00u8]
}

/// One raster line on the wire: the fixed three-byte header, then the
/// fixed-width payload.
pub open spec fn spec_raster_line_bytes(line: Seq<u8>) -> Seq<u8> {
    seq![0x67u8, 0x00u8, 90u8] + line
}

/// The setting the job's resolution maps to, carrying the trailing-cut flag.
pub open spec fn spec_resolution_setting(job: PrintJob) -> PrinterSetting {
    match job.resolution {
        Resolution::Normal => PrinterSetting::NormalResMode(job.cut_on_end),
        Resolution::High => PrinterSetting::HighResMode(job.cut_on_end),
    }
}

/// Encodes the print-information command for this media and line count.
/// Media of kind `NoMedia` must never reach this command: it is rejected
/// as the fatal `NoMediaLoaded`, exactly and only then.
pub fn print_info_command(media: &Media, line_count: u32) -> (r: Result<Vec<u8>, ProtocolError>)
    ensures
        r is Err <==> media.media_type == MediaType::NoMedia,
        r is Err ==> r == Err::<Vec<u8>, ProtocolError>(ProtocolError::NoMediaLoaded),
        r matches Ok(v) ==> v@ == spec_print_info_bytes(*media, line_count),
{
    let media_type_byte = match media.media_type.to_byte() {
        Some(value) => value,
        None => {
            return Err(ProtocolError::NoMediaLoaded);
        },
    };
    proof {
        assert(line_count & 0xFF < 0x100 && (line_count >> 8) & 0xFF < 0x100 && (line_count >> 16)
            & 0xFF < 0x100 && (line_count >> 24) & 0xFF < 0x100) by (bit_vector);
    }
    let mut v: Vec<u8> = Vec::new();
    v.push(0x1B);
    v.push(0x69);
    v.push(0x7A);
    v.push(PRINT_INFO_FLAGS);
    v.push(media_type_byte);
    v.push(media.width);
    v.push(media.length);
    v.push((line_count & 0xFF) as u8);
    v.push(((line_count >> 8) & 0xFF) as u8);
    v.push(((line_count >> 16) & 0xFF) as u8);
    v.push(((line_count >> 24) & 0xFF) as u8);
    v.push(0x01);
    v.push(0x00);
    proof {
        assert(v@ =~= spec_print_info_bytes(*media, line_count));
    }
    Ok(v)
}

/// Encodes the feed-margin command.
pub fn margins_command(feed_margin: u8) -> (r: Vec<u8>)
    ensures
        r@ == spec_margins_bytes(feed_margin),
{
    let mut v: Vec<u8> = Vec::new();
    v.push(0x1B);
    v.push(0x69);
    v.push(0x64);
    v.push(feed_margin);
    v.push(0x00);
    proof {
        assert(v@ =~= spec_margins_bytes(feed_margin));
    }
    v
}

/// Wraps one raster line in its fixed three-byte header.
pub fn raster_line_command(line: &[u8; RASTER_LINE_LENGTH]) -> (r: Vec<u8>)
    ensures
        r@ == spec_raster_line_bytes(line@),
{
    let mut v: Vec<u8> = Vec::new();
    v.push(0x67);
    v.push(0x00);
    v.push(90);
    let mut i: usize = 0;
    while i < RASTER_LINE_LENGTH
        invariant
            i <= RASTER_LINE_LENGTH,
            line@.len() == RASTER_LINE_LENGTH,
            v@ =~= seq![0x67u8, 0x00u8, 90u8] + line@.subrange(0, i as int),
        decreases RASTER_LINE_LENGTH - i,
    {
        v.push(line[i]);
        proof {
            assert(v@ =~= seq![0x67u8, 0x00u8, 90u8] + line@.subrange(0, i + 1 as int));
        }
        i = i + 1;
    }
    proof {
        assert(line@.subrange(0, RASTER_LINE_LENGTH as int) =~= line@);
    }
    v
}

/// Converts a setting's fixed four bytes into a writable buffer.
fn setting_vec(setting: PrinterSetting) -> (r: Vec<u8>)
    ensures
        r@ == spec_setting_bytes(setting),
{
    let bytes = setting.get_byte_sequence();
    let mut v: Vec<u8> = Vec::new();
    v.push(bytes[0]);
    v.push(bytes[1]);
    v.push(bytes[2]);
    v.push(bytes[3]);
    proof {
        assert(v@ =~= spec_setting_bytes(setting));
    }
    v
}

/// A terminal state: the operation is over, nothing is outstanding.
pub open spec fn spec_terminal(state: PrintState) -> bool {
    match state {
        PrintState::Done(_) => true,
        PrintState::Failed(_) => true,
        _ => false,
    }
}

/// States whose outstanding action is the read of a status frame; every
/// other non-terminal state has a write outstanding.
pub open spec fn spec_awaits_frame(state: PrintState) -> bool {
    match state {
        PrintState::InfoStatusAwait => true,
        PrintState::MarginStatusAwait => true,
        PrintState::ResultAwait => true,
        _ => false,
    }
}

/// A state is well formed for a job when any line index it carries lies
/// inside the job's content.
pub open spec fn spec_state_wf(state: PrintState, job: PrintJob) -> bool {
    match state {
        PrintState::LineSent(i) => i < job.raster_lines@.len(),
        _ => true,
    }
}

/// The event kinds a state can be answered with: a frame or a failed
/// read where a read is outstanding, a write outcome otherwise.
pub open spec fn spec_event_matches(state: PrintState, event: PrintEvent) -> bool {
    if spec_awaits_frame(state) {
        event is Frame || event is ReadFailed
    } else {
        event is WriteOk || event is WriteFailed
    }
}

/// Holds when `a` writes exactly `bytes`.
pub open spec fn spec_is_write(a: PrintAction, bytes: Seq<u8>) -> bool {
    match a {
        PrintAction::Write(b) => b@ == bytes,
        _ => false,
    }
}

/// The transition taken after a successful write out of `state`.
pub open spec fn spec_after_write(state: PrintState, job: PrintJob, r: (PrintState, PrintAction)) -> bool {
    match state {
        PrintState::ModeSwitchSent => r.0 == PrintState::InfoStatusSent && spec_is_write(
            r.1,
            spec_command_bytes(Command::GetStatus),
        ),
        PrintState::InfoStatusSent => r.0 == PrintState::InfoStatusAwait
            && r.1 is ReadStatus,
        PrintState::InfoSent => r.0 == PrintState::MirrorCutSent && spec_is_write(
            r.1,
            spec_setting_bytes(PrinterSetting::MirrorOrCut(job.mirrored, job.cut_on_end)),
        ),
        PrintState::MirrorCutSent => r.0 == PrintState::ResolutionSent && spec_is_write(
            r.1,
            spec_setting_bytes(spec_resolution_setting(job)),
        ),
        PrintState::ResolutionSent => r.0 == PrintState::MarginStatusSent && spec_is_write(
            r.1,
            spec_command_bytes(Command::GetStatus),
        ),
        PrintState::MarginStatusSent => r.0 == PrintState::MarginStatusAwait
            && r.1 is ReadStatus,
        PrintState::MarginsSent => if job.raster_lines@.len() == 0 {
            r.0 == PrintState::TriggerSent && spec_is_write(
                r.1,
                spec_command_bytes(Command::StartPrint(job.cut_on_end)),
            )
        } else {
            r.0 == PrintState::LineSent(0usize) && spec_is_write(
                r.1,
                spec_raster_line_bytes(job.raster_lines@[0]@),
            )
        },
        PrintState::LineSent(i) => if i + 1 < job.raster_lines@.len() {
            r.0 == PrintState::LineSent((i + 1) as usize) && spec_is_write(
                r.1,
                spec_raster_line_bytes(job.raster_lines@[i + 1]@),
            )
        } else {
            r.0 == PrintState::TriggerSent && spec_is_write(
                r.1,
                spec_command_bytes(Command::StartPrint(job.cut_on_end)),
            )
        },
        PrintState::TriggerSent => r.0 == PrintState::ResultAwait && r.1 is ReadStatus,
        _ => false,
    }
}

/// The media a well-formed status frame reports.
pub open spec fn spec_frame_media(frame: Seq<u8>) -> Media {
    Media {
        media_type: spec_media_type_from_byte(frame[11]),
        width: frame[10],
        length: frame[17],
    }
}

/// The transition taken after a status frame arrives in `state`.
pub open spec fn spec_after_frame(
    state: PrintState,
    job: PrintJob,
    frame: Seq<u8>,
    r: (PrintState, PrintAction),
) -> bool {
    if !spec_frame_well_formed(frame) {
        r == (PrintState::Failed(ProtocolError::MalformedResponse), PrintAction::Stop)
    } else {
        match state {
            PrintState::InfoStatusAwait => {
                let media = spec_frame_media(frame);
                if media.media_type == MediaType::NoMedia {
                    r == (PrintState::Failed(ProtocolError::NoMediaLoaded), PrintAction::Stop)
                } else {
                    r.0 == PrintState::InfoSent && spec_is_write(
                        r.1,
                        spec_print_info_bytes(media, job.raster_lines@.len() as u32),
                    )
                }
            },
            PrintState::MarginStatusAwait => {
                let media = spec_frame_media(frame);
                match spec_label_data(media.spec_catalog_key().0, media.spec_catalog_key().1) {
                    Some(label) => r.0 == PrintState::MarginsSent && spec_is_write(
                        r.1,
                        spec_margins_bytes(label.feed_margin),
                    ),
                    None => r == (
                        PrintState::Failed(ProtocolError::UnknownMedia),
                        PrintAction::Stop,
                    ),
                }
            },
            PrintState::ResultAwait => {
                &&& r.1 is Stop
                &&& (r.0 matches PrintState::Done(resp) && spec_decoded_response(resp, frame))
            },
            _ => false,
        }
    }
}

/// The full transition relation of the orchestrator: what the next state
/// and action are for every state and event the contract admits.
pub open spec fn spec_advance(
    state: PrintState,
    job: PrintJob,
    event: PrintEvent,
    r: (PrintState, PrintAction),
) -> bool {
    match event {
        PrintEvent::WriteFailed => r == (
            PrintState::Failed(ProtocolError::Transport),
            PrintAction::Stop,
        ),
        PrintEvent::ReadFailed => r == (
            PrintState::Failed(ProtocolError::Transport),
            PrintAction::Stop,
        ),
        PrintEvent::WriteOk => spec_after_write(state, job, r),
        PrintEvent::Frame(frame) => spec_after_frame(state, job, frame@, r),
    }
}

/// Starts one print operation: the machine's first outstanding action is
/// the switch to raster mode.
pub fn start_print(job: &PrintJob) -> (r: (PrintState, PrintAction))
    ensures
        r.0 == PrintState::ModeSwitchSent,
        spec_is_write(r.1, spec_setting_bytes(PrinterSetting::SwitchToRasterMode)),
        spec_state_wf(r.0, *job),
        !spec_terminal(r.0),
{
    (
        PrintState::ModeSwitchSent,
        PrintAction::Write(setting_vec(PrinterSetting::SwitchToRasterMode)),
    )
}

/// Advances the orchestrator by one transport round-trip: `event` is the
/// outcome of the action the machine last handed out. The result is the
/// next state and the next outstanding action, exactly as the transition
/// relation [`spec_advance`] states: a failed write or read aborts with
/// the fatal `Transport` error; a malformed frame aborts with
/// `MalformedResponse`; a frame reporting no loaded media aborts with
/// `NoMediaLoaded` before any raster data is sent; a media size outside
/// the catalog aborts with `UnknownMedia`; otherwise the fixed sequence
/// proceeds and ends in `Done` with the printer's decoded answer.
pub fn advance(state: PrintState, job: &PrintJob, event: PrintEvent) -> (r: (
    PrintState,
    PrintAction,
))
    requires
        job.raster_lines@.len() <= 0xFFFF_FFFF,
        !spec_terminal(state),
        spec_state_wf(state, *job),
        spec_event_matches(state, event),
    ensures
        spec_advance(state, *job, event, r),
        spec_state_wf(r.0, *job),
        r.1 is Stop <==> spec_terminal(r.0),
{
    match event {
        PrintEvent::WriteFailed => (PrintState::Failed(ProtocolError::Transport), PrintAction::Stop),
        PrintEvent::ReadFailed => (PrintState::Failed(ProtocolError::Transport), PrintAction::Stop),
        PrintEvent::WriteOk => match state {
            PrintState::ModeSwitchSent => (
                PrintState::InfoStatusSent,
                PrintAction::Write(Command::GetStatus.get_byte_sequence()),
            ),
            PrintState::InfoStatusSent => (PrintState::InfoStatusAwait, PrintAction::ReadStatus),
            PrintState::InfoSent => (
                PrintState::MirrorCutSent,
                PrintAction::Write(
                    setting_vec(PrinterSetting::MirrorOrCut(job.mirrored, job.cut_on_end)),
                ),
            ),
            PrintState::MirrorCutSent => {
                let resolution_setting = match job.resolution {
                    Resolution::Normal => PrinterSetting::NormalResMode(job.cut_on_end),
                    Resolution::High => PrinterSetting::HighResMode(job.cut_on_end),
                };
                (PrintState::ResolutionSent, PrintAction::Write(setting_vec(resolution_setting)))
            },
            PrintState::ResolutionSent => (
                PrintState::MarginStatusSent,
                PrintAction::Write(Command::GetStatus.get_byte_sequence()),
            ),
            PrintState::MarginStatusSent => (
                PrintState::MarginStatusAwait,
                PrintAction::ReadStatus,
            ),
            PrintState::MarginsSent => if job.raster_lines.len() == 0 {
                (
                    PrintState::TriggerSent,
                    PrintAction::Write(Command::StartPrint(job.cut_on_end).get_byte_sequence()),
                )
            } else {
                (
                    PrintState::LineSent(0),
                    PrintAction::Write(raster_line_command(&job.raster_lines[0])),
                )
            },
            PrintState::LineSent(i) => if i + 1 < job.raster_lines.len() {
                (
                    PrintState::LineSent(i + 1),
                    PrintAction::Write(raster_line_command(&job.raster_lines[i + 1])),
                )
            } else {
                (
                    PrintState::TriggerSent,
                    PrintAction::Write(Command::StartPrint(job.cut_on_end).get_byte_sequence()),
                )
            },
            PrintState::TriggerSent => (PrintState::ResultAwait, PrintAction::ReadStatus),
            _ => {
                proof {
                    assert(false);
                }
                (PrintState::Failed(ProtocolError::Transport), PrintAction::Stop)
            },
        },
        PrintEvent::Frame(frame) => {
            if frame.len() != 32 || frame[0] != 0x80 {
                return (PrintState::Failed(ProtocolError::MalformedResponse), PrintAction::Stop);
            }
            match state {
                PrintState::InfoStatusAwait => {
                    let media = Media {
                        media_type: MediaType::from_byte(frame[11]),
                        width: frame[10],
                        length: frame[17],
                    };
                    match print_info_command(&media, job.raster_lines.len() as u32) {
                        Ok(bytes) => (PrintState::InfoSent, PrintAction::Write(bytes)),
                        Err(e) => (PrintState::Failed(e), PrintAction::Stop),
                    }
                },
                PrintState::MarginStatusAwait => {
                    let media = Media {
                        media_type: MediaType::from_byte(frame[11]),
                        width: frame[10],
                        length: frame[17],
                    };
                    match media.to_label_checked() {
                        Ok(label) => (
                            PrintState::MarginsSent,
                            PrintAction::Write(margins_command(label.feed_margin)),
                        ),
                        Err(e) => (PrintState::Failed(e), PrintAction::Stop),
                    }
                },
                PrintState::ResultAwait => match decode(frame.as_slice()) {
                    Ok(resp) => (PrintState::Done(resp), PrintAction::Stop),
                    Err(e) => (PrintState::Failed(e), PrintAction::Stop),
                },
                _ => {
                    proof {
                        assert(false);
                    }
                    (PrintState::Failed(ProtocolError::Transport), PrintAction::Stop)
                },
            }
        },
    }
}

/// Whether a poll outcome ends the blocking wait for completion: only a
/// well-formed frame whose status type is `PrintingCompleted` does; a
/// failed read or a malformed frame means "not yet", never an abort.
pub open spec fn spec_poll_complete(event: PrintEvent) -> bool {
    match event {
        PrintEvent::Frame(frame) => spec_frame_well_formed(frame@) && spec_status_type_from_byte(
            frame@[18],
        ) == StatusType::PrintingCompleted,
        _ => false,
    }
}

/// Decides one round of the blocking completion poll. The caller reads a
/// status frame, hands the outcome here, and is done exactly when the
/// frame decodes with status type `PrintingCompleted`; every failure is
/// swallowed and the caller polls again after its fixed delay.
pub fn completion_poll_step(event: PrintEvent) -> (done: bool)
    ensures
        done == spec_poll_complete(event),
{
    match event {
        PrintEvent::Frame(frame) => {
            if frame.len() != 32 || frame[0] != 0x80 {
                false
            } else {
                let status_type = StatusType::from_byte(frame[18]);
                status_type == StatusType::PrintingCompleted
            }
        },
        _ => false,
    }
}

} // verus!
