use simpos::codec::MotorCmd;
use simpos::driver::{reader_step, writer_drain, ReadEvent};
use simpos::telemetry::{FrameError, MotorTelemetry};

fn z_frame(time: u32) -> Vec<u8> {
    let mut f = vec![0u8; 32];
    f[0] = b'z';
    f[1..5].copy_from_slice(&time.to_be_bytes());
    f
}

#[test]
fn writer_emits_frames_in_submission_order() {
    let cmds = vec![
        MotorCmd::Enable(true),
        MotorCmd::Position(200),
        MotorCmd::Home,
        MotorCmd::Position(-1),
        MotorCmd::Enable(false),
    ];
    let wire = writer_drain(&cmds);

    let mut expected = Vec::new();
    for cmd in &cmds {
        expected.extend_from_slice(&cmd.to_vec());
    }
    assert_eq!(wire, expected);

    // The frames sit whole and in order: peel them off one by one.
    let mut rest = &wire[..];
    for cmd in &cmds {
        let f = cmd.to_vec();
        assert_eq!(&rest[..f.len()], &f[..]);
        rest = &rest[f.len()..];
    }
    assert!(rest.is_empty());
}

#[test]
fn reader_decodes_until_hangup() {
    let mut t = MotorTelemetry::new();
    let f = z_frame(1);
    let (keep_going, err) = reader_step(&mut t, false, ReadEvent::Frame(&f));
    assert!(keep_going);
    assert!(err.is_none());
    assert_eq!(t.torque_sns.len(), 1);
}

#[test]
fn hangup_stops_reader_and_freezes_store() {
    let mut t = MotorTelemetry::new();
    let f = z_frame(1);
    reader_step(&mut t, false, ReadEvent::Frame(&f));
    assert_eq!(t.torque_sns.len(), 1);

    // Bytes keep arriving after the hangup signal: nothing is appended.
    let late = z_frame(2);
    let (keep_going, err) = reader_step(&mut t, true, ReadEvent::Frame(&late));
    assert!(!keep_going);
    assert!(err.is_none());
    assert_eq!(t.torque_sns.len(), 1);
    assert_eq!(t.torque_sns[0].time, 1);
}

#[test]
fn reader_reports_unrecognized_tag_and_continues() {
    let mut t = MotorTelemetry::new();
    let mut f = z_frame(3);
    f[0] = 0x41;
    let (keep_going, err) = reader_step(&mut t, false, ReadEvent::Frame(&f));
    assert!(keep_going);
    assert_eq!(err, Some(FrameError::UnrecognizedTag(0x41)));
    assert_eq!(t.torque_sns.len(), 0);
}

#[test]
fn read_fault_leaves_store_and_continues() {
    let mut t = MotorTelemetry::new();
    let (keep_going, err) = reader_step(&mut t, false, ReadEvent::Fault);
    assert!(keep_going);
    assert!(err.is_none());
    assert_eq!(t.torque_sns.len(), 0);
    assert_eq!(t.position_sns.len(), 0);
}
