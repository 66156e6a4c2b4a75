use mpu_driver::bus::{BusAction, BusEvent, ReadReply};
use mpu_driver::codec::{combine_be, encode_be, encode_sample_block};
use mpu_driver::codec::{ACCEL_SCALE_DIVISOR, GYRO_SCALE_DIVISOR};
use mpu_driver::init::{
    identity_accepted, init_action, init_initial, init_step, settle_delay_ms, InitError,
    InitState, InitStep,
};
use mpu_driver::mpu::{Mpu, DEFAULT_READ_PACING_MS, SAMPLE_BLOCK_LEN};

fn expected_init_actions(slave: u8) -> Vec<BusAction> {
    vec![
        BusAction::WriteRead { slave, reg: 0x75, read_len: 1 },
        BusAction::Write { slave, reg: 0x6B, value: 0x80 },
        BusAction::Write { slave, reg: 0x6B, value: 0x01 },
        BusAction::Write { slave, reg: 0x6A, value: 0x00 },
        BusAction::Write { slave, reg: 0x19, value: 0x07 },
        BusAction::Write { slave, reg: 0x1A, value: 0x03 },
        BusAction::Write { slave, reg: 0x1B, value: 0x00 },
        BusAction::Write { slave, reg: 0x1C, value: 0x00 },
        BusAction::Write { slave, reg: 0x1D, value: 0x03 },
    ]
}

fn success_replies(id: u8) -> Vec<BusEvent> {
    let mut replies = vec![BusEvent::ReadOk(id)];
    for _ in 0..8 {
        replies.push(BusEvent::WriteOk);
    }
    replies
}

#[test]
fn identity_codes() {
    assert!(identity_accepted(0x71));
    assert!(identity_accepted(0x48));
    assert!(identity_accepted(0x75));
    assert!(!identity_accepted(0x00));
    assert!(!identity_accepted(0x70));
    assert!(!identity_accepted(0x68));
    assert!(!identity_accepted(0xFF));
}

#[test]
fn all_accepted_identities_pass_the_gate() {
    for id in [0x71u8, 0x48, 0x75] {
        let mpu = Mpu::new(0x68);
        let (actions, state) = mpu.begin(&vec![BusEvent::ReadOk(id)]);
        assert_eq!(state, InitState::Pending(InitStep::Reset));
        assert_eq!(actions.len(), 1);
        assert_eq!(
            actions[0],
            BusAction::WriteRead { slave: 0x68, reg: 0x75, read_len: 1 }
        );
    }
}

#[test]
fn unknown_identity_fails_before_any_write() {
    let mpu = Mpu::new(0x68);
    let (actions, state) = mpu.begin(&success_replies(0x00));
    assert_eq!(state, InitState::Failed(InitError::UnknownIdentity(0x00)));
    assert_eq!(actions, vec![BusAction::WriteRead { slave: 0x68, reg: 0x75, read_len: 1 }]);
}

#[test]
fn identity_read_failure_is_fatal() {
    let mpu = Mpu::new(0x68);
    let mut replies = success_replies(0x71);
    replies[0] = BusEvent::Failed;
    let (actions, state) = mpu.begin(&replies);
    assert_eq!(state, InitState::Failed(InitError::IdentifyFailed));
    assert_eq!(actions.len(), 1);
}

#[test]
fn successful_run_issues_the_fixed_write_order() {
    let mpu = Mpu::new(0x68);
    let (actions, state) = mpu.begin(&success_replies(0x71));
    assert_eq!(state, InitState::Complete);
    assert_eq!(actions, expected_init_actions(0x68));
}

#[test]
fn successful_run_uses_the_constructed_slave_address() {
    let mpu = Mpu::new(0x69);
    let (actions, state) = mpu.begin(&success_replies(0x48));
    assert_eq!(state, InitState::Complete);
    assert_eq!(actions, expected_init_actions(0x69));
}

#[test]
fn failing_write_stops_every_later_step() {
    let steps = [
        InitStep::Reset,
        InitStep::Wake,
        InitStep::DisableAuxMaster,
        InitStep::SampleRate,
        InitStep::LowPassFilter,
        InitStep::GyroRange,
        InitStep::AccelRange,
        InitStep::AccelFilter,
    ];
    for k in 1..=8usize {
        let mpu = Mpu::new(0x68);
        let mut replies = success_replies(0x71);
        replies[k] = BusEvent::Failed;
        let (actions, state) = mpu.begin(&replies);
        assert_eq!(state, InitState::Failed(InitError::WriteFailed(steps[k - 1])));
        assert_eq!(actions.len(), k + 1);
        assert_eq!(actions, expected_init_actions(0x68)[..k + 1].to_vec());
    }
}

#[test]
fn live_stepping_matches_the_batch_run() {
    let mpu = Mpu::new(0x68);
    let replies = success_replies(0x75);
    let (batch_actions, batch_state) = mpu.begin(&replies);
    let mut state = init_initial();
    let mut actions = Vec::new();
    let mut i = 0;
    while let InitState::Pending(step) = state {
        actions.push(init_action(0x68, &step));
        state = init_step(&state, &replies[i]);
        i += 1;
    }
    assert_eq!(actions, batch_actions);
    assert_eq!(state, batch_state);
}

#[test]
fn terminal_states_absorb_replies() {
    let complete = InitState::Complete;
    assert_eq!(init_step(&complete, &BusEvent::Failed), complete);
    assert_eq!(init_step(&complete, &BusEvent::WriteOk), complete);
    let failed = InitState::Failed(InitError::IdentifyFailed);
    assert_eq!(init_step(&failed, &BusEvent::WriteOk), failed);
}

#[test]
fn settle_delays() {
    assert_eq!(settle_delay_ms(&InitStep::Identify), 0);
    assert_eq!(settle_delay_ms(&InitStep::Reset), 100);
    assert_eq!(settle_delay_ms(&InitStep::Wake), 50);
    assert_eq!(settle_delay_ms(&InitStep::DisableAuxMaster), 0);
    assert_eq!(settle_delay_ms(&InitStep::SampleRate), 0);
    assert_eq!(settle_delay_ms(&InitStep::LowPassFilter), 0);
    assert_eq!(settle_delay_ms(&InitStep::GyroRange), 0);
    assert_eq!(settle_delay_ms(&InitStep::AccelRange), 0);
    assert_eq!(settle_delay_ms(&InitStep::AccelFilter), 20);
}

#[test]
fn combine_and_encode_are_inverse() {
    for v in [-32768i16, -32767, -256, -255, -1, 0, 1, 255, 256, 16384, 32766, 32767] {
        let (hi, lo) = encode_be(v);
        assert_eq!(combine_be(hi, lo), v);
    }
    assert_eq!(combine_be(0x80, 0x00), -32768);
    assert_eq!(combine_be(0x7F, 0xFF), 32767);
    assert_eq!(combine_be(0xFF, 0xFF), -1);
    assert_eq!(combine_be(0x00, 0x00), 0);
    assert_eq!(combine_be(0x01, 0x00), 256);
    assert_eq!(encode_be(-2), (0xFF, 0xFE));
}

#[test]
fn read_request_names_the_block_transaction() {
    let mpu = Mpu::new(0x69);
    assert_eq!(
        mpu.read_request(),
        BusAction::WriteRead { slave: 0x69, reg: 0x3B, read_len: SAMPLE_BLOCK_LEN }
    );
    assert_eq!(SAMPLE_BLOCK_LEN, 14);
}

#[test]
fn decode_round_trip_reproduces_scaled_values() {
    let accel = [1000i16, -1000, 16384];
    let gyro = [131i16, -262, 5];
    let block = encode_sample_block(&accel, &gyro);
    let mut mpu = Mpu::new(0x68);
    let mut accel_out = [0i16; 3];
    let mut gyro_out = [0i16; 3];
    let fresh = mpu.read(&ReadReply::Data(block), &mut accel_out, &mut gyro_out);
    assert!(fresh);
    assert_eq!(accel_out, accel);
    assert_eq!(gyro_out, gyro);
    for i in 0..3 {
        let got = accel_out[i] as f32 / ACCEL_SCALE_DIVISOR as f32;
        let want = accel[i] as f32 / 16384.0;
        assert!((got - want).abs() <= 1e-6 * want.abs().max(1.0));
        let got = gyro_out[i] as f32 / GYRO_SCALE_DIVISOR as f32;
        let want = gyro[i] as f32 / 131.0;
        assert!((got - want).abs() <= 1e-6 * want.abs().max(1.0));
    }
}

#[test]
fn boundary_raw_values_scale_exactly() {
    let block = encode_sample_block(&[-32768, 32767, 0], &[0, 0, 0]);
    let mut mpu = Mpu::new(0x68);
    let mut accel_out = [0i16; 3];
    let mut gyro_out = [0i16; 3];
    assert!(mpu.read(&ReadReply::Data(block), &mut accel_out, &mut gyro_out));
    assert_eq!(accel_out[0], -32768);
    assert_eq!(accel_out[0] as f32 / 16384.0, -2.0);
    assert_eq!(accel_out[1], 32767);
    assert_eq!(accel_out[1] as f32 / 16384.0, 1.99993896484375);
}

#[test]
fn failed_read_leaves_both_buffers_untouched() {
    let mut mpu = Mpu::new(0x68);
    let mut accel_out = [17i16, -9, 250];
    let mut gyro_out = [-3i16, 1200, 7];
    let fresh = mpu.read(&ReadReply::Failed, &mut accel_out, &mut gyro_out);
    assert!(!fresh);
    assert_eq!(accel_out, [17, -9, 250]);
    assert_eq!(gyro_out, [-3, 1200, 7]);
}

#[test]
fn each_read_fully_overwrites_the_scratch_buffer() {
    let mut mpu = Mpu::new(0x68);
    let mut accel_out = [0i16; 3];
    let mut gyro_out = [0i16; 3];
    let first = encode_sample_block(&[11, 22, 33], &[44, 55, 66]);
    assert!(mpu.read(&ReadReply::Data(first), &mut accel_out, &mut gyro_out));
    let second = encode_sample_block(&[-7, 0, 9], &[1, -2, 3]);
    assert!(mpu.read(&ReadReply::Data(second), &mut accel_out, &mut gyro_out));
    assert_eq!(accel_out, [-7, 0, 9]);
    assert_eq!(gyro_out, [1, -2, 3]);
}

#[test]
fn temperature_bytes_are_never_decoded() {
    let mut plain = encode_sample_block(&[100, 200, 300], &[-100, -200, -300]);
    let mut mpu = Mpu::new(0x68);
    let mut accel_a = [0i16; 3];
    let mut gyro_a = [0i16; 3];
    assert!(mpu.read(&ReadReply::Data(plain), &mut accel_a, &mut gyro_a));
    plain[6] = 0xAB;
    plain[7] = 0xCD;
    let mut accel_b = [0i16; 3];
    let mut gyro_b = [0i16; 3];
    assert!(mpu.read(&ReadReply::Data(plain), &mut accel_b, &mut gyro_b));
    assert_eq!(accel_a, accel_b);
    assert_eq!(gyro_a, gyro_b);
}

#[test]
fn pacing_delay_default_and_override() {
    let mut mpu = Mpu::new(0x68);
    assert_eq!(DEFAULT_READ_PACING_MS, 100);
    assert_eq!(mpu.read_pacing_ms(), 100);
    mpu.set_read_pacing_ms(25);
    assert_eq!(mpu.read_pacing_ms(), 25);
    assert_eq!(mpu.slave_address(), 0x68);
}

#[test]
fn slave_address_is_kept() {
    let mpu = Mpu::new(0x69);
    assert_eq!(mpu.slave_address(), 0x69);
}
