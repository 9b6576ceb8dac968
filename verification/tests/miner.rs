use kristforge::batch::Hashrate;
use kristforge::common::{Address, Solution, Target};
use kristforge::error::KristforgeError;
use kristforge::miner::{
    is_all_zero, Activity, CycleOutcome, DeviceCaps, Dispatch, Miner, MinerCmd, MinerOpts,
    MinerState, Phase, Step,
};

fn opts() -> MinerOpts {
    MinerOpts { prefix: 7, address: Address(*b"kabcdefghi"), rate_milli: 5000, vector_width: Some(4) }
}

fn caps() -> DeviceCaps {
    DeviceCaps { is_cpu: false, preferred_width: 1, native_width: 1 }
}

fn target() -> Target {
    Target { work: 1000, prev_block: [0; 12] }
}

fn found() -> [u8; 15] {
    let mut nonce = [0u8; 15];
    nonce[0] = 1;
    nonce
}

#[test]
fn vector_width_of_a_device() {
    assert_eq!(DeviceCaps { is_cpu: true, preferred_width: 4, native_width: 8 }.vector_width(), 8);
    assert_eq!(DeviceCaps { is_cpu: true, preferred_width: 8, native_width: 4 }.vector_width(), 8);
    assert_eq!(DeviceCaps { is_cpu: true, preferred_width: 32, native_width: 4 }.vector_width(), 16);
    assert_eq!(DeviceCaps { is_cpu: true, preferred_width: 16, native_width: 16 }.vector_width(), 16);
    assert_eq!(DeviceCaps { is_cpu: true, preferred_width: 0, native_width: 0 }.vector_width(), 0);
    assert_eq!(DeviceCaps { is_cpu: false, preferred_width: 8, native_width: 8 }.vector_width(), 1);
}

#[test]
fn new_engine_settles_the_vector_width() {
    let cpu = DeviceCaps { is_cpu: true, preferred_width: 4, native_width: 8 };
    let asked = Miner::new(3, &opts(), &cpu);
    assert_eq!(asked.opts.vector_width, Some(4));
    let free = MinerOpts { vector_width: None, ..opts() };
    assert_eq!(Miner::new(3, &free, &cpu).opts.vector_width, Some(8));
    assert_eq!(Miner::new(3, &free, &caps()).opts.vector_width, Some(1));
    assert_eq!(asked.device, 3);
    assert_eq!(asked.opts.prefix, 7);
    assert_eq!(asked.opts.address, Address(*b"kabcdefghi"));
    assert_eq!(asked.opts.rate_milli, 5000);
    assert_eq!(asked.phase, Phase::WaitingForTarget);
    assert_eq!(asked.target, None);
    assert_eq!((asked.offset, asked.batch, asked.nanos), (0, 1, 0));
    assert!(!asked.in_cycle && !asked.reset_due);
}

#[test]
fn first_cycle_with_a_solution() {
    let mut m = Miner::new(0, &opts(), &caps());
    assert_eq!(m.next_activity(false), Activity::Receive);
    assert_eq!(m.on_command(Some(MinerCmd::Mine(target()))), Step::Stage(target()));
    assert_eq!(m.phase, Phase::Searching);
    assert_eq!(m.next_activity(false), Activity::Cycle);

    let first = m.begin_cycle_at(1_000);
    assert_eq!(first, Dispatch { offset: 0, batch_size: 16 });
    assert!(m.in_cycle);

    let out = m.end_cycle_at(1_100, found());
    let solution = Solution { target: target(), address: Address(*b"kabcdefghi"), nonce: found() };
    let rate = Hashrate { hashes: 16, nanos: 100 };
    assert_eq!(out, CycleOutcome { solved: Some(solution.clone()), hashrate: rate });
    assert_eq!(out.states(), vec![MinerState::Solved(solution), MinerState::Mining(rate)]);
    assert!(out.needs_reset());
    assert!(m.reset_due);
    assert!(!m.in_cycle);
    assert_eq!(m.offset, 16);

    m.confirm_reset();
    assert!(!m.reset_due);
    let second = m.begin_cycle_at(2_000);
    assert_eq!(second, Dispatch { offset: 16, batch_size: 256 });
}

#[test]
fn cycle_without_a_solution_reports_only_the_rate() {
    let mut m = Miner::new(0, &opts(), &caps());
    m.on_command(Some(MinerCmd::Mine(target())));
    m.begin_cycle_at(0);
    let out = m.end_cycle_at(1_000_000, [0; 15]);
    assert_eq!(out.solved, None);
    assert!(!out.needs_reset());
    assert!(!m.reset_due);
    assert_eq!(out.states(), vec![MinerState::Mining(Hashrate { hashes: 16, nanos: 1_000_000 })]);
}

#[test]
fn offset_moves_on_by_each_batch_and_a_new_target_starts_at_zero() {
    let mut m = Miner::new(0, &opts(), &caps());
    m.on_command(Some(MinerCmd::Mine(target())));
    let mut expected: u64 = 0;
    let mut last: u64 = 1;
    for i in 0..5u64 {
        let d = m.begin_cycle_at(i * 1_000_000);
        assert_eq!(d.offset, expected);
        assert!(d.batch_size >= 1 && d.batch_size <= last * 16);
        m.end_cycle_at(i * 1_000_000 + 500_000, [0; 15]);
        expected += d.batch_size;
        last = d.batch_size;
        assert_eq!(m.offset, expected);
    }
    assert!(expected > 0);
    let other = Target { work: 5, prev_block: [9; 12] };
    assert_eq!(m.on_command(Some(MinerCmd::Mine(other))), Step::Stage(other));
    assert_eq!(m.offset, 0);
    assert_eq!(m.target, Some(other));
    let d = m.begin_cycle_at(0);
    assert_eq!(d.offset, 0);
    // the measured speed is kept from one target to the next
    assert_eq!(m.batch, d.batch_size);
    assert!(d.batch_size > 16);
}

#[test]
fn offset_stops_at_the_largest_number() {
    let mut m = Miner::new(0, &opts(), &caps());
    m.on_command(Some(MinerCmd::Mine(target())));
    m.offset = u64::MAX - 3;
    m.begin_cycle_at(0);
    m.end_cycle_at(10, [0; 15]);
    assert_eq!(m.offset, u64::MAX);
}

#[test]
fn clock_that_goes_back_counts_as_no_time() {
    let mut m = Miner::new(0, &opts(), &caps());
    m.on_command(Some(MinerCmd::Mine(target())));
    m.begin_cycle_at(500);
    let out = m.end_cycle_at(400, [0; 15]);
    assert_eq!(out.hashrate, Hashrate { hashes: 16, nanos: 0 });
    assert_eq!(m.nanos, 0);
}

#[test]
fn stop_pauses_and_the_end_of_commands_ends() {
    let mut m = Miner::new(0, &opts(), &caps());
    assert_eq!(m.on_command(Some(MinerCmd::Stop)), Step::Report(MinerState::Paused));
    assert_eq!(m.phase, Phase::WaitingForTarget);
    m.on_command(Some(MinerCmd::Mine(target())));
    assert_eq!(m.next_activity(true), Activity::Receive);
    assert_eq!(m.on_command(Some(MinerCmd::Stop)), Step::Report(MinerState::Paused));
    assert_eq!(m.phase, Phase::WaitingForTarget);
    assert_eq!(m.next_activity(false), Activity::Receive);
    assert_eq!(m.on_command(None), Step::Exit);
    assert_eq!(m.phase, Phase::Stopped);
    assert_eq!(m.next_activity(false), Activity::Exit);
    assert_eq!(m.next_activity(true), Activity::Exit);
}

#[test]
fn ended_engine_takes_no_more_commands() {
    let mut m = Miner::new(0, &opts(), &caps());
    m.on_command(None);
    assert_eq!(m.on_command(Some(MinerCmd::Mine(target()))), Step::Exit);
    assert_eq!(m.phase, Phase::Stopped);
    assert_eq!(m.target, None);
    assert_eq!(m.on_command(Some(MinerCmd::Stop)), Step::Exit);
    assert_eq!(m.on_command(None), Step::Exit);
    assert_eq!(m.phase, Phase::Stopped);
}

#[test]
fn cycle_on_the_real_clock() {
    let mut m = Miner::new(0, &opts(), &caps());
    m.on_command(Some(MinerCmd::Mine(target())));
    let d = m.begin_cycle();
    assert_eq!(d, Dispatch { offset: 0, batch_size: 16 });
    assert!(m.in_cycle);
    let started = m.started;
    let out = m.end_cycle(found());
    assert_eq!(out.hashrate.hashes, 16);
    assert_eq!(out.hashrate.nanos, m.nanos);
    assert_eq!(m.started, started);
    assert_eq!(
        out.solved,
        Some(Solution { target: target(), address: Address(*b"kabcdefghi"), nonce: found() })
    );
    assert_eq!(m.offset, 16);
    assert!(m.reset_due);
}

#[test]
fn all_zero_buffers() {
    assert!(is_all_zero(&[0; 15]));
    assert!(!is_all_zero(&found()));
    let mut last = [0u8; 15];
    last[14] = 255;
    assert!(!is_all_zero(&last));
}

#[test]
fn device_failure_ends_the_engine() {
    let mut m = Miner::new(0, &opts(), &caps());
    m.on_command(Some(MinerCmd::Mine(target())));
    m.begin_cycle_at(10);
    let e = m.on_backend_error("out of resources".to_string());
    assert!(matches!(e, KristforgeError::OclError(ref s) if s == "out of resources"));
    assert_eq!(m.phase, Phase::Stopped);
    assert!(!m.in_cycle);
    assert_eq!(m.next_activity(false), Activity::Exit);
    assert_eq!(m.on_command(Some(MinerCmd::Mine(target()))), Step::Exit);
}

#[test]
fn engine_stays_well_formed() {
    let mut m = Miner::new(0, &opts(), &caps());
    assert!(m.is_wf());
    m.on_command(Some(MinerCmd::Mine(target())));
    assert!(m.is_wf());
    m.begin_cycle_at(0);
    assert!(m.is_wf());
    m.end_cycle_at(5, found());
    assert!(m.is_wf());
    m.confirm_reset();
    m.on_command(None);
    assert!(m.is_wf());
    let mut odd = Miner::new(0, &opts(), &caps());
    odd.batch = 0;
    assert!(!odd.is_wf());
    let mut early = Miner::new(0, &opts(), &caps());
    early.in_cycle = true;
    assert!(!early.is_wf());
    let mut blind = Miner::new(0, &opts(), &caps());
    blind.phase = Phase::Searching;
    assert!(!blind.is_wf());
}
