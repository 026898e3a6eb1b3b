use brother_ql::constants::RASTER_LINE_LENGTH;
use brother_ql::job::PrintJob;
use brother_ql::media_type::MediaType;
use brother_ql::protocol::{
    advance, completion_poll_step, margins_command, print_info_command, raster_line_command,
    start_print, PrintAction, PrintEvent, PrintState,
};
use brother_ql::setting::Resolution;
use brother_ql::status::{Media, ProtocolError};
use brother_ql::status_type::StatusType;

fn status_frame(media_type: u8, width: u8, length: u8, status_type: u8) -> Vec<u8> {
    let mut f = vec![0u8; 32];
    f[0] = 0x80;
    f[10] = width;
    f[11] = media_type;
    f[17] = length;
    f[18] = status_type;
    f
}

fn job_with_lines(count: usize) -> PrintJob {
    let mut raster_lines = Vec::new();
    for i in 0..count {
        let mut line = [0u8; RASTER_LINE_LENGTH];
        line[0] = i as u8 + 1;
        raster_lines.push(line);
    }
    PrintJob { cut_on_end: true, raster_lines, resolution: Resolution::Normal, mirrored: false }
}

fn written_bytes(action: PrintAction) -> Vec<u8> {
    match action {
        PrintAction::Write(bytes) => bytes,
        other => panic!("expected a write, got {:?}", other),
    }
}

#[test]
fn print_info_command_layout() {
    let media = Media { media_type: MediaType::ContinuousTape, width: 29, length: 0 };
    let bytes = print_info_command(&media, 0x01020304).unwrap();
    assert_eq!(
        bytes,
        vec![0x1B, 0x69, 0x7A, 0xCE, 0x0A, 29, 0, 0x04, 0x03, 0x02, 0x01, 0x01, 0x00]
    );
}

#[test]
fn print_info_command_rejects_absent_media() {
    let media = Media { media_type: MediaType::NoMedia, width: 29, length: 0 };
    assert_eq!(print_info_command(&media, 1).unwrap_err(), ProtocolError::NoMediaLoaded);
}

#[test]
fn margins_command_layout() {
    assert_eq!(margins_command(35), vec![0x1B, 0x69, 0x64, 35, 0x00]);
}

#[test]
fn raster_line_command_layout() {
    let mut line = [0u8; RASTER_LINE_LENGTH];
    line[0] = 0xAB;
    line[RASTER_LINE_LENGTH - 1] = 0xCD;
    let bytes = raster_line_command(&line);
    assert_eq!(bytes.len(), 3 + RASTER_LINE_LENGTH);
    assert_eq!(&bytes[..3], &[0x67, 0x00, 90]);
    assert_eq!(bytes[3], 0xAB);
    assert_eq!(bytes[3 + RASTER_LINE_LENGTH - 1], 0xCD);
}

#[test]
fn full_print_sequence_on_continuous_tape() {
    let job = job_with_lines(2);
    let (state, action) = start_print(&job);
    assert!(matches!(state, PrintState::ModeSwitchSent));
    assert_eq!(written_bytes(action), vec![0x1B, 0x69, 0x61, 0x01]);

    // Mode switch written: the machine asks for a status query.
    let (state, action) = advance(state, &job, PrintEvent::WriteOk);
    assert!(matches!(state, PrintState::InfoStatusSent));
    assert_eq!(written_bytes(action), vec![0x1B, 0x69, 0x53]);

    let (state, action) = advance(state, &job, PrintEvent::WriteOk);
    assert!(matches!(state, PrintState::InfoStatusAwait));
    assert!(matches!(action, PrintAction::ReadStatus));

    // The status frame carries the media; the print information follows.
    let frame = status_frame(0x0A, 29, 0, 0x00);
    let (state, action) = advance(state, &job, PrintEvent::Frame(frame));
    assert!(matches!(state, PrintState::InfoSent));
    assert_eq!(
        written_bytes(action),
        vec![0x1B, 0x69, 0x7A, 0xCE, 0x0A, 29, 0, 2, 0, 0, 0, 0x01, 0x00]
    );

    // Mirror/auto-cut first, resolution second: the order is fixed.
    let (state, action) = advance(state, &job, PrintEvent::WriteOk);
    assert!(matches!(state, PrintState::MirrorCutSent));
    assert_eq!(written_bytes(action), vec![0x1B, 0x69, 0x4D, 0x40]);

    let (state, action) = advance(state, &job, PrintEvent::WriteOk);
    assert!(matches!(state, PrintState::ResolutionSent));
    assert_eq!(written_bytes(action), vec![0x1B, 0x69, 0x4B, 0x08]);

    // A second status query resolves the label geometry for the margins.
    let (state, action) = advance(state, &job, PrintEvent::WriteOk);
    assert!(matches!(state, PrintState::MarginStatusSent));
    assert_eq!(written_bytes(action), vec![0x1B, 0x69, 0x53]);

    let (state, action) = advance(state, &job, PrintEvent::WriteOk);
    assert!(matches!(state, PrintState::MarginStatusAwait));
    assert!(matches!(action, PrintAction::ReadStatus));

    let frame = status_frame(0x0A, 29, 0, 0x00);
    let (state, action) = advance(state, &job, PrintEvent::Frame(frame));
    assert!(matches!(state, PrintState::MarginsSent));
    assert_eq!(written_bytes(action), vec![0x1B, 0x69, 0x64, 35, 0x00]);

    // Both raster lines stream in order, each with its header.
    let (state, action) = advance(state, &job, PrintEvent::WriteOk);
    assert!(matches!(state, PrintState::LineSent(0)));
    let bytes = written_bytes(action);
    assert_eq!(&bytes[..3], &[0x67, 0x00, 90]);
    assert_eq!(bytes[3], 1);

    let (state, action) = advance(state, &job, PrintEvent::WriteOk);
    assert!(matches!(state, PrintState::LineSent(1)));
    let bytes = written_bytes(action);
    assert_eq!(bytes[3], 2);

    // The job asks for cut-on-end, so the trailing trigger goes out.
    let (state, action) = advance(state, &job, PrintEvent::WriteOk);
    assert!(matches!(state, PrintState::TriggerSent));
    assert_eq!(written_bytes(action), vec![0x1A]);

    let (state, action) = advance(state, &job, PrintEvent::WriteOk);
    assert!(matches!(state, PrintState::ResultAwait));
    assert!(matches!(action, PrintAction::ReadStatus));

    let frame = status_frame(0x0A, 29, 0, 0x06);
    let (state, action) = advance(state, &job, PrintEvent::Frame(frame));
    assert!(matches!(action, PrintAction::Stop));
    match state {
        PrintState::Done(resp) => {
            assert_eq!(resp.status_type, StatusType::PhaseChange);
            assert_eq!(resp.media.media_type, MediaType::ContinuousTape);
            assert_eq!(resp.media.width, 29);
            assert!(resp.errors.is_empty());
        },
        other => panic!("expected completion, got {:?}", other),
    }
}

#[test]
fn no_media_fails_before_any_raster_data() {
    let job = job_with_lines(3);
    let (state, _) = start_print(&job);
    let (state, _) = advance(state, &job, PrintEvent::WriteOk);
    let (state, _) = advance(state, &job, PrintEvent::WriteOk);
    // The frame reports no loaded media: the print aborts here, before
    // the print information, the settings, or any raster line is sent.
    let frame = status_frame(0x00, 0, 0, 0x00);
    let (state, action) = advance(state, &job, PrintEvent::Frame(frame));
    assert!(matches!(state, PrintState::Failed(ProtocolError::NoMediaLoaded)));
    assert!(matches!(action, PrintAction::Stop));
}

#[test]
fn unknown_media_size_fails_at_margins() {
    let job = job_with_lines(1);
    let (state, _) = start_print(&job);
    let (state, _) = advance(state, &job, PrintEvent::WriteOk);
    let (state, _) = advance(state, &job, PrintEvent::WriteOk);
    let (state, _) = advance(state, &job, PrintEvent::Frame(status_frame(0x0A, 29, 0, 0x00)));
    let (state, _) = advance(state, &job, PrintEvent::WriteOk);
    let (state, _) = advance(state, &job, PrintEvent::WriteOk);
    let (state, _) = advance(state, &job, PrintEvent::WriteOk);
    let (state, _) = advance(state, &job, PrintEvent::WriteOk);
    // A 13mm width is not in the catalog.
    let (state, action) = advance(state, &job, PrintEvent::Frame(status_frame(0x0A, 13, 0, 0x00)));
    assert!(matches!(state, PrintState::Failed(ProtocolError::UnknownMedia)));
    assert!(matches!(action, PrintAction::Stop));
}

#[test]
fn write_failure_aborts_immediately() {
    let job = job_with_lines(1);
    let (state, _) = start_print(&job);
    let (state, action) = advance(state, &job, PrintEvent::WriteFailed);
    assert!(matches!(state, PrintState::Failed(ProtocolError::Transport)));
    assert!(matches!(action, PrintAction::Stop));
}

#[test]
fn read_failure_aborts_the_sequence() {
    let job = job_with_lines(1);
    let (state, _) = start_print(&job);
    let (state, _) = advance(state, &job, PrintEvent::WriteOk);
    let (state, _) = advance(state, &job, PrintEvent::WriteOk);
    let (state, action) = advance(state, &job, PrintEvent::ReadFailed);
    assert!(matches!(state, PrintState::Failed(ProtocolError::Transport)));
    assert!(matches!(action, PrintAction::Stop));
}

#[test]
fn malformed_frame_aborts_the_sequence() {
    let job = job_with_lines(1);
    let (state, _) = start_print(&job);
    let (state, _) = advance(state, &job, PrintEvent::WriteOk);
    let (state, _) = advance(state, &job, PrintEvent::WriteOk);
    let mut frame = status_frame(0x0A, 29, 0, 0x00);
    frame[0] = 0x7F;
    let (state, action) = advance(state, &job, PrintEvent::Frame(frame));
    assert!(matches!(state, PrintState::Failed(ProtocolError::MalformedResponse)));
    assert!(matches!(action, PrintAction::Stop));
}

#[test]
fn empty_job_triggers_without_streaming() {
    let mut job = job_with_lines(0);
    job.cut_on_end = false;
    let (state, _) = start_print(&job);
    let (state, _) = advance(state, &job, PrintEvent::WriteOk);
    let (state, _) = advance(state, &job, PrintEvent::WriteOk);
    let (state, _) = advance(state, &job, PrintEvent::Frame(status_frame(0x0A, 62, 0, 0x00)));
    let (state, _) = advance(state, &job, PrintEvent::WriteOk);
    let (state, _) = advance(state, &job, PrintEvent::WriteOk);
    let (state, _) = advance(state, &job, PrintEvent::WriteOk);
    let (state, _) = advance(state, &job, PrintEvent::WriteOk);
    let (state, _) = advance(state, &job, PrintEvent::Frame(status_frame(0x0A, 62, 0, 0x00)));
    let (state, action) = advance(state, &job, PrintEvent::WriteOk);
    assert!(matches!(state, PrintState::TriggerSent));
    // Without cut-on-end the plain trigger goes out.
    assert_eq!(written_bytes(action), vec![0x0C]);
}

#[test]
fn high_resolution_job_selects_the_high_res_setting() {
    let mut job = job_with_lines(1);
    job.resolution = Resolution::High;
    job.cut_on_end = false;
    let (state, _) = start_print(&job);
    let (state, _) = advance(state, &job, PrintEvent::WriteOk);
    let (state, _) = advance(state, &job, PrintEvent::WriteOk);
    let (state, _) = advance(state, &job, PrintEvent::Frame(status_frame(0x0B, 62, 100, 0x00)));
    let (state, action) = advance(state, &job, PrintEvent::WriteOk);
    assert!(matches!(state, PrintState::MirrorCutSent));
    assert_eq!(written_bytes(action), vec![0x1B, 0x69, 0x4D, 0x00]);
    let (state, action) = advance(state, &job, PrintEvent::WriteOk);
    assert!(matches!(state, PrintState::ResolutionSent));
    assert_eq!(written_bytes(action), vec![0x1B, 0x69, 0x4B, 0x40]);
}

#[test]
fn completion_poll_ends_only_on_printing_completed() {
    assert!(completion_poll_step(PrintEvent::Frame(status_frame(0x0A, 29, 0, 0x01))));
    assert!(!completion_poll_step(PrintEvent::Frame(status_frame(0x0A, 29, 0, 0x00))));
    assert!(!completion_poll_step(PrintEvent::Frame(status_frame(0x0A, 29, 0, 0x06))));
    assert!(!completion_poll_step(PrintEvent::ReadFailed));
    // A malformed frame means "not yet", never an abort.
    let mut frame = status_frame(0x0A, 29, 0, 0x01);
    frame[0] = 0x00;
    assert!(!completion_poll_step(PrintEvent::Frame(frame)));
    let short = vec![0x80u8; 31];
    assert!(!completion_poll_step(PrintEvent::Frame(short)));
}
