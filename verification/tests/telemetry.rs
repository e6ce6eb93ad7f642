use simpos::telemetry::{FrameError, MotorTelemetry, Sample};

fn frame(tag: u8, time: u32, words: &[u32]) -> Vec<u8> {
    let mut f = vec![0u8; 32];
    f[0] = tag;
    f[1..5].copy_from_slice(&time.to_be_bytes());
    for (i, w) in words.iter().enumerate() {
        let off = 5 + 4 * i;
        f[off..off + 4].copy_from_slice(&w.to_be_bytes());
    }
    f
}

fn lengths(t: &MotorTelemetry) -> [usize; 12] {
    [
        t.torque_sns.len(),
        t.torque_cmd.len(),
        t.torque_p.len(),
        t.torque_i.len(),
        t.torque_d.len(),
        t.speed_sns.len(),
        t.speed_cmd.len(),
        t.speed_p.len(),
        t.speed_i.len(),
        t.speed_d.len(),
        t.position_sns.len(),
        t.position_cmd.len(),
    ]
}

#[test]
fn z_frame_fills_torque_group() {
    let mut t = MotorTelemetry::new();
    let words = [
        1.0f32.to_bits(),
        2.0f32.to_bits(),
        3.0f32.to_bits(),
        4.0f32.to_bits(),
        5.0f32.to_bits(),
    ];
    let f = frame(b'z', 1000, &words);
    let r = t.consume_buffer(&f);
    assert!(r.is_ok());

    assert_eq!(t.torque_sns, vec![Sample { time: 1000, raw: 1.0f32.to_bits() }]);
    assert_eq!(t.torque_cmd, vec![Sample { time: 1000, raw: 2.0f32.to_bits() }]);
    assert_eq!(t.torque_p, vec![Sample { time: 1000, raw: 3.0f32.to_bits() }]);
    assert_eq!(t.torque_i, vec![Sample { time: 1000, raw: 4.0f32.to_bits() }]);
    assert_eq!(t.torque_d, vec![Sample { time: 1000, raw: 5.0f32.to_bits() }]);
    // The sixth word of a 'z' frame is the sensed speed; this frame left it zero.
    assert_eq!(t.speed_sns, vec![Sample { time: 1000, raw: 0 }]);

    // No other channel is mutated.
    assert_eq!(lengths(&t), [1, 1, 1, 1, 1, 1, 0, 0, 0, 0, 0, 0]);

    // The stored words are the floats' exact bit patterns.
    assert_eq!(f32::from_bits(t.torque_sns[0].raw), 1.0);
    assert_eq!(f32::from_bits(t.torque_d[0].raw), 5.0);
}

#[test]
fn p_frame_fills_speed_and_position_groups() {
    let mut t = MotorTelemetry::new();
    let words = [
        10.5f32.to_bits(),
        0.25f32.to_bits(),
        (-1.5f32).to_bits(),
        100.0f32.to_bits(),
        7.0f32.to_bits(),
        (-5i32) as u32,
    ];
    let f = frame(b'p', 77, &words);
    let r = t.consume_buffer(&f);
    assert!(r.is_ok());

    assert_eq!(t.speed_cmd, vec![Sample { time: 77, raw: 10.5f32.to_bits() }]);
    assert_eq!(t.speed_p, vec![Sample { time: 77, raw: 0.25f32.to_bits() }]);
    assert_eq!(t.speed_i, vec![Sample { time: 77, raw: (-1.5f32).to_bits() }]);
    assert_eq!(t.speed_d, vec![Sample { time: 77, raw: 100.0f32.to_bits() }]);
    assert_eq!(t.position_cmd, vec![Sample { time: 77, raw: 7.0f32.to_bits() }]);
    assert_eq!(t.position_sns, vec![Sample { time: 77, raw: (-5i32) as u32 }]);
    assert_eq!(t.position_sns[0].raw as i32, -5);

    assert_eq!(lengths(&t), [0, 0, 0, 0, 0, 0, 1, 1, 1, 1, 1, 1]);
}

#[test]
fn unrecognized_tag_leaves_every_channel_unchanged() {
    let mut t = MotorTelemetry::new();
    let f = frame(b'z', 5, &[1.0f32.to_bits()]);
    t.consume_buffer(&f).unwrap();
    let before = lengths(&t);

    let bad = frame(0x41, 9, &[2.0f32.to_bits()]);
    let r = t.consume_buffer(&bad);
    assert_eq!(r, Err(FrameError::UnrecognizedTag(0x41)));
    assert_eq!(lengths(&t), before);
    assert_eq!(t.torque_sns, vec![Sample { time: 5, raw: 1.0f32.to_bits() }]);
}

#[test]
fn samples_keep_arrival_order() {
    let mut t = MotorTelemetry::new();
    t.consume_buffer(&frame(b'z', 1, &[1.0f32.to_bits()])).unwrap();
    t.consume_buffer(&frame(b'z', 2, &[2.0f32.to_bits()])).unwrap();
    assert_eq!(t.torque_sns.len(), 2);
    assert_eq!(t.torque_sns[0].time, 1);
    assert_eq!(t.torque_sns[1].time, 2);
}

#[test]
fn default_store_is_empty() {
    let t = MotorTelemetry::default();
    assert_eq!(lengths(&t), [0; 12]);
}
