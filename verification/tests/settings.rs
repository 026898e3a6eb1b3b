use brother_ql::command::{clear_command, initialize_command, Command};
use brother_ql::setting::{
    decode_mirror_cut, decode_resolution, PrinterSetting, Resolution, SleepTimerValue,
};

#[test]
fn switch_to_raster_mode_bytes() {
    assert_eq!(
        PrinterSetting::SwitchToRasterMode.get_byte_sequence(),
        [0x1B, 0x69, 0x61, 0x01]
    );
}

#[test]
fn mirror_cut_bytes_pack_bits_7_and_6() {
    assert_eq!(
        PrinterSetting::MirrorOrCut(false, false).get_byte_sequence(),
        [0x1B, 0x69, 0x4D, 0x00]
    );
    assert_eq!(
        PrinterSetting::MirrorOrCut(false, true).get_byte_sequence(),
        [0x1B, 0x69, 0x4D, 0x40]
    );
    assert_eq!(
        PrinterSetting::MirrorOrCut(true, false).get_byte_sequence(),
        [0x1B, 0x69, 0x4D, 0x80]
    );
    assert_eq!(
        PrinterSetting::MirrorOrCut(true, true).get_byte_sequence(),
        [0x1B, 0x69, 0x4D, 0xC0]
    );
}

#[test]
fn resolution_bytes_pack_mode_and_trailing_cut() {
    assert_eq!(
        PrinterSetting::NormalResMode(false).get_byte_sequence(),
        [0x1B, 0x69, 0x4B, 0x00]
    );
    assert_eq!(
        PrinterSetting::NormalResMode(true).get_byte_sequence(),
        [0x1B, 0x69, 0x4B, 0x08]
    );
    assert_eq!(
        PrinterSetting::HighResMode(false).get_byte_sequence(),
        [0x1B, 0x69, 0x4B, 0x40]
    );
    assert_eq!(
        PrinterSetting::HighResMode(true).get_byte_sequence(),
        [0x1B, 0x69, 0x4B, 0x48]
    );
}

#[test]
fn power_on_when_connected_bytes() {
    assert_eq!(
        PrinterSetting::PowerOnWhenConnected(true).get_byte_sequence(),
        [0x1B, 0x69, 0x70, 0x00]
    );
    assert_eq!(
        PrinterSetting::PowerOnWhenConnected(false).get_byte_sequence(),
        [0x1B, 0x69, 0x70, 0x01]
    );
}

#[test]
fn sleep_timer_bytes_cover_all_seven_levels() {
    let cases = [
        (SleepTimerValue::Disable, 0x00u8),
        (SleepTimerValue::TurnOffAfter10Minutes, 0x01),
        (SleepTimerValue::TurnOffAfter20Minutes, 0x02),
        (SleepTimerValue::TurnOffAfter30Minutes, 0x03),
        (SleepTimerValue::TurnOffAfter40Minutes, 0x04),
        (SleepTimerValue::TurnOffAfter50Minutes, 0x05),
        (SleepTimerValue::TurnOffAfter60Minutes, 0x06),
    ];
    for (value, byte) in cases {
        assert_eq!(
            PrinterSetting::SleepTimer(value).get_byte_sequence(),
            [0x1B, 0x69, 0x70, byte]
        );
    }
}

#[test]
fn mirror_cut_round_trips_through_its_byte() {
    for mirror in [false, true] {
        for cut in [false, true] {
            let bytes = PrinterSetting::MirrorOrCut(mirror, cut).get_byte_sequence();
            assert_eq!(decode_mirror_cut(bytes[3]), (mirror, cut));
        }
    }
}

#[test]
fn resolution_round_trips_through_its_byte() {
    for cut in [false, true] {
        let bytes = PrinterSetting::NormalResMode(cut).get_byte_sequence();
        assert_eq!(decode_resolution(bytes[3]), (Resolution::Normal, cut));
        let bytes = PrinterSetting::HighResMode(cut).get_byte_sequence();
        assert_eq!(decode_resolution(bytes[3]), (Resolution::High, cut));
    }
}

#[test]
fn get_status_command_bytes() {
    assert_eq!(Command::GetStatus.get_byte_sequence(), vec![0x1B, 0x69, 0x53]);
}

#[test]
fn start_print_selects_trigger_by_last_page() {
    assert_eq!(Command::StartPrint(true).get_byte_sequence(), vec![0x1A]);
    assert_eq!(Command::StartPrint(false).get_byte_sequence(), vec![0x0C]);
}

#[test]
fn reset_and_initialize_sequences() {
    let clear = clear_command();
    assert_eq!(clear.len(), 200);
    assert!(clear.iter().all(|&b| b == 0));
    assert_eq!(initialize_command(), vec![0x1B, 0x40]);
}
