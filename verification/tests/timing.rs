use ray_tracer::gpu::get_time_query;
use ray_tracer::gpu::timing::{
    decode_timestamps, elapsed_ticks, timestamps_of, ProbeState, ReadbackError, TimingProbe,
    TimingValue,
};

fn run_frame(probe: &mut TimingProbe, staged: (u64, u64)) -> TimingValue {
    probe.mark_written();
    probe.request_readback();
    probe.complete_readback(staged.0, staged.1)
}

#[test]
fn elapsed_is_difference_of_timestamps() {
    assert_eq!(elapsed_ticks(1_000, 4_500), TimingValue::Ticks(3_500));
    assert_eq!(elapsed_ticks(7, 7), TimingValue::Ticks(0));
    assert_eq!(elapsed_ticks(0, u64::MAX), TimingValue::Ticks(u64::MAX));
}

#[test]
fn elapsed_is_unavailable_when_clock_runs_backwards() {
    assert_eq!(elapsed_ticks(10, 9), TimingValue::Unavailable);
    assert_eq!(elapsed_ticks(u64::MAX, 0), TimingValue::Unavailable);
}

#[test]
fn decode_reads_both_timestamps_from_aligned_bytes() {
    let words = [0x0102_0304_0506_0708u64, 0x1112_1314_1516_1718u64];
    let bytes: &[u8] = bytemuck::cast_slice(&words);
    assert_eq!(decode_timestamps(bytes), Ok((0x0102_0304_0506_0708, 0x1112_1314_1516_1718)));
}

#[test]
fn decode_ignores_words_after_the_pair() {
    let words = [5u64, 12, 99];
    let bytes: &[u8] = bytemuck::cast_slice(&words);
    assert_eq!(decode_timestamps(bytes), Ok((5, 12)));
}

#[test]
fn decode_refuses_partial_word() {
    let words = [1u64, 2];
    let bytes: &[u8] = bytemuck::cast_slice(&words);
    assert_eq!(decode_timestamps(&bytes[..12]), Err(ReadbackError::PartialWord));
}

#[test]
fn decode_refuses_single_timestamp() {
    let words = [1u64];
    let bytes: &[u8] = bytemuck::cast_slice(&words);
    assert_eq!(decode_timestamps(bytes), Err(ReadbackError::MissingTimestamps));
    let none: [u64; 0] = [];
    assert_eq!(decode_timestamps(bytemuck::cast_slice(&none)), Err(ReadbackError::MissingTimestamps));
}

#[test]
fn decode_refuses_misaligned_bytes() {
    let words = [1u64, 2, 3];
    let bytes: &[u8] = bytemuck::cast_slice(&words);
    assert_eq!(decode_timestamps(&bytes[1..17]), Err(ReadbackError::Misaligned));
}

#[test]
fn timestamps_of_takes_leading_pair() {
    assert_eq!(timestamps_of(&vec![3, 8]), Ok((3, 8)));
    assert_eq!(timestamps_of(&vec![3, 8, 1]), Ok((3, 8)));
    assert_eq!(timestamps_of(&vec![3]), Err(ReadbackError::MissingTimestamps));
    assert_eq!(timestamps_of(&Vec::new()), Err(ReadbackError::MissingTimestamps));
}

#[test]
fn probe_starts_idle_and_unavailable() {
    let probe = TimingProbe::new(true);
    assert_eq!(
        probe,
        TimingProbe::Active { state: ProbeState::Idle, primed: false, visible: TimingValue::Unavailable }
    );
    assert!(probe.is_supported());
    assert_eq!(probe.current_value(), TimingValue::Unavailable);
    assert_eq!(TimingProbe::new(false), TimingProbe::Unsupported);
    assert!(!TimingProbe::new(false).is_supported());
}

#[test]
fn probe_walks_idle_written_pending_idle() {
    let mut probe = TimingProbe::new(true);
    assert!(probe.mark_written());
    assert!(matches!(probe, TimingProbe::Active { state: ProbeState::Written, .. }));
    assert!(probe.request_readback());
    assert!(matches!(probe, TimingProbe::Active { state: ProbeState::MapPending, .. }));
    probe.complete_readback(0, 0);
    assert!(matches!(probe, TimingProbe::Active { state: ProbeState::Idle, primed: true, .. }));
}

#[test]
fn probe_ignores_steps_out_of_turn() {
    let mut probe = TimingProbe::new(true);
    assert!(!probe.request_readback());
    assert_eq!(probe, TimingProbe::new(true));
    assert_eq!(probe.complete_readback(1, 9), TimingValue::Unavailable);
    assert_eq!(probe, TimingProbe::new(true));
    probe.abandon_readback();
    assert_eq!(probe, TimingProbe::new(true));
}

#[test]
fn first_frame_shows_nothing_then_each_frame_shows_the_one_before() {
    let stamps = [(100u64, 350u64), (1_000, 1_020), (5_000, 9_000), (20, 21)];
    let mut probe = TimingProbe::new(true);
    let mut staged = (0u64, 0u64);
    let mut seen = Vec::new();
    for pair in stamps {
        seen.push(run_frame(&mut probe, staged));
        assert_eq!(probe.current_value(), *seen.last().unwrap());
        staged = pair;
    }
    assert_eq!(
        seen,
        vec![
            TimingValue::Unavailable,
            TimingValue::Ticks(250),
            TimingValue::Ticks(20),
            TimingValue::Ticks(4_000),
        ]
    );
}

#[test]
fn unsupported_probe_never_shows_a_value() {
    let mut probe = TimingProbe::new(false);
    for frame in 0..5u64 {
        assert!(!probe.mark_written());
        assert!(!probe.request_readback());
        assert_eq!(probe.complete_readback(frame, frame + 10), TimingValue::Unavailable);
        assert_eq!(probe, TimingProbe::Unsupported);
        assert_eq!(probe.current_value(), TimingValue::Unavailable);
    }
}

#[test]
fn read_timestamps_decodes_and_records() {
    let mut probe = TimingProbe::new(true);
    run_frame(&mut probe, (0, 0));
    probe.mark_written();
    probe.request_readback();
    let words = [40u64, 100];
    assert_eq!(probe.read_timestamps(bytemuck::cast_slice(&words)), Ok(TimingValue::Ticks(60)));
    assert_eq!(probe.current_value(), TimingValue::Ticks(60));
    assert!(matches!(probe, TimingProbe::Active { state: ProbeState::Idle, .. }));
}

#[test]
fn read_timestamps_failure_hides_the_value() {
    let mut probe = TimingProbe::new(true);
    run_frame(&mut probe, (0, 0));
    run_frame(&mut probe, (1, 5));
    assert_eq!(probe.current_value(), TimingValue::Ticks(4));
    probe.mark_written();
    probe.request_readback();
    let words = [40u64];
    assert_eq!(
        probe.read_timestamps(bytemuck::cast_slice(&words)),
        Err(ReadbackError::MissingTimestamps)
    );
    assert_eq!(probe.current_value(), TimingValue::Unavailable);
    assert!(matches!(probe, TimingProbe::Active { state: ProbeState::Idle, primed: true, .. }));
}

#[test]
fn time_query_exists_only_with_timestamps() {
    assert_eq!(get_time_query(false), None);
    let query = get_time_query(true).unwrap();
    assert_eq!(query.query_set.count, 2);
    assert_eq!(query.read_buffer.size, 16);
    assert_eq!(query.write_buffer.size, 16);
    assert!(query.read_buffer.usage.map_read && query.read_buffer.usage.copy_dst);
    assert!(!query.read_buffer.usage.copy_src && !query.read_buffer.usage.query_resolve);
    assert!(query.write_buffer.usage.query_resolve && query.write_buffer.usage.copy_src);
    assert!(!query.write_buffer.usage.map_read && !query.write_buffer.usage.copy_dst);
}
