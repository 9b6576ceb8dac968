//! The engine that searches on one device, as a machine of steps: what it
//! does on each command, how it sizes each batch, and what it reports when a
//! batch comes back. The caller owns the device: it performs each step that
//! the engine asks for and hands back what the device returned.

use vstd::prelude::*;
use crate::batch::{next_batch, next_batch_spec, Hashrate};
use crate::common::{Address, Solution, Target};
use crate::error::KristforgeError;

verus! {

/// Options for one engine.
#[derive(Debug, Clone, Copy, PartialEq, Eq)]
pub struct MinerOpts {
    /// A value put before each nonce, so that engines that run side by side
    /// do not try the same nonces.
    pub prefix: u8,
    /// The address to mine for.
    pub address: Address,
    /// Wanted rate of kernel executions, in executions per thousand seconds.
    pub rate_milli: u64,
    /// The vector width to compile the kernel with; if `None`, the engine
    /// takes the one that suits the device.
    pub vector_width: Option<u32>,
}

/// What the engine needs to know of its device to pick a vector width.
#[derive(Debug, Clone, Copy, PartialEq, Eq, Structural)]
pub struct DeviceCaps {
    /// Whether the device is a CPU.
    pub is_cpu: bool,
    /// The width the device prefers for vectors of bytes.
    pub preferred_width: u32,
    /// The width the device has natively for vectors of bytes.
    pub native_width: u32,
}

impl DeviceCaps {
    /// The vector width that suits the device: on a CPU the larger of the
    /// preferred and the native width, sixteen at most; elsewhere one.
    pub open spec fn vector_width_spec(self) -> u32 {
        if self.is_cpu {
            let wide = if self.preferred_width >= self.native_width {
                self.preferred_width
            } else {
                self.native_width
            };
            if wide <= 16 {
                wide
            } else {
                16
            }
        } else {
            1
        }
    }

    /// The vector width that suits the device.
    pub fn vector_width(&self) -> (w: u32)
        ensures
            w == self.vector_width_spec(),
            w <= 16,
            !self.is_cpu ==> w == 1,
    {
        if self.is_cpu {
            let wide: u32 = if self.preferred_width >= self.native_width {
                self.preferred_width
            } else {
                self.native_width
            };
            if wide <= 16 {
                wide
            } else {
                16
            }
        } else {
            1
        }
    }
}

/// What an engine reports to its owner.
#[derive(Debug, Clone, PartialEq, Eq)]
pub enum MinerState {
    /// A batch was searched, at this rate.
    Mining(Hashrate),
    /// A solution was found; the owner submits it.
    Solved(Solution),
    /// The engine waits for a target.
    Paused,
    /// The engine has ended and will report nothing more.
    Stopped,
}

/// What an engine can be told.
#[derive(Debug, Clone, Copy, PartialEq, Eq)]
pub enum MinerCmd {
    /// Search for this target from now on.
    Mine(Target),
    /// Stop searching and wait.
    Stop,
}

/// Where an engine stands.
#[derive(Debug, Clone, Copy, PartialEq, Eq, Structural)]
pub enum Phase {
    /// It has no target and waits for a command.
    WaitingForTarget,
    /// It has a target and searches batch after batch.
    Searching,
    /// It has ended.
    Stopped,
}

/// What the owner does after handing the engine a command.
#[derive(Debug, Clone, PartialEq, Eq)]
pub enum Step {
    /// Write the target's block to the device and bind its work to the
    /// kernel; the engine then searches.
    Stage(Target),
    /// Report this state; the engine waits for the next command.
    Report(MinerState),
    /// Nothing more: the worker ends.
    Exit,
}

/// What the owner does next, between batches.
#[derive(Debug, Clone, Copy, PartialEq, Eq, Structural)]
pub enum Activity {
    /// Wait for the next command and hand it to the engine.
    Receive,
    /// Run one more batch.
    Cycle,
    /// Nothing: the engine has ended.
    Exit,
}

/// One batch for the device: where in the nonce space it starts and how many
/// units it has.
#[derive(Debug, Clone, Copy, PartialEq, Eq, Structural)]
pub struct Dispatch {
    pub offset: u64,
    pub batch_size: u64,
}

/// What came of one batch.
#[derive(Debug, Clone, PartialEq, Eq)]
pub struct CycleOutcome {
    /// The solution, if the device reported one. The owner then reports it
    /// and sets the device's solution buffer back to zero before the next
    /// batch.
    pub solved: Option<Solution>,
    /// The rate at which the batch ran.
    pub hashrate: Hashrate,
}

/// Receives what an engine reports. It is called on the engine's worker.
pub trait MinerCallback {
    fn on_state(&self, miner: &Miner, state: MinerState);
}

/// One engine: a device, its options, and where the search stands.
#[derive(Debug, Clone)]
pub struct Miner {
    /// The device, by the number the caller knows it by.
    pub device: u64,
    /// The options, with the vector width settled.
    pub opts: MinerOpts,
    /// Where the engine stands.
    pub phase: Phase,
    /// The target searched for, once there was one.
    pub target: Option<Target>,
    /// Where in the target's nonce space the next batch starts.
    pub offset: u64,
    /// The size of the latest batch.
    pub batch: u64,
    /// How long the latest finished batch took, in nanoseconds.
    pub nanos: u64,
    /// The clock's reading when the batch in flight began.
    pub started: u64,
    /// Whether a batch is in flight.
    pub in_cycle: bool,
    /// Whether the device's solution buffer still holds a solution that was
    /// reported, and has to be set back to zero before the next batch.
    pub reset_due: bool,
}

/// Whether a buffer read back from the device reports nothing: all its bytes
/// are zero.
pub open spec fn nothing_found(readback: Seq<u8>) -> bool {
    forall|i: int| 0 <= i < readback.len() ==> readback[i] == 0
}

/// The time from `started` to `now`; none if the clock went back.
pub open spec fn elapsed(started: u64, now: u64) -> u64 {
    if now >= started {
        (now - started) as u64
    } else {
        0
    }
}

/// Whether all bytes of a buffer read back from the device are zero.
pub fn is_all_zero(readback: &[u8; 15]) -> (r: bool)
    ensures
        r == nothing_found(readback@),
{
    let mut i: usize = 0;
    while i < 15
        invariant
            i <= 15,
            readback@.len() == 15,
            forall|j: int| 0 <= j < i ==> readback@[j] == 0,
        decreases 15 - i,
    {
        if readback[i] != 0 {
            return false;
        }
        i += 1;
    }
    true
}

/// The reading of `time::precise_time_ns`: a counter of nanoseconds since a
/// moment that is not specified. Nothing is claimed of the value.
#[verifier::external_body]
fn clock_ns() -> (now: u64) {
    time::precise_time_ns()
}

impl CycleOutcome {
    /// The states to report for the batch, in order: the solution first, if
    /// there is one, then the rate.
    pub open spec fn states_spec(self) -> Seq<MinerState> {
        match self.solved {
            Some(s) => seq![MinerState::Solved(s), MinerState::Mining(self.hashrate)],
            None => seq![MinerState::Mining(self.hashrate)],
        }
    }

    /// The states to report for the batch, in order.
    pub fn states(&self) -> (out: Vec<MinerState>)
        ensures
            out@ == self.states_spec(),
    {
        let mut out: Vec<MinerState> = Vec::new();
        match &self.solved {
            Some(s) => {
                out.push(
                    MinerState::Solved(
                        Solution { target: s.target, address: s.address, nonce: s.nonce },
                    ),
                );
                out.push(MinerState::Mining(self.hashrate));
                assert(out@ =~= self.states_spec());
            },
            None => {
                out.push(MinerState::Mining(self.hashrate));
                assert(out@ =~= self.states_spec());
            },
        }
        out
    }

    /// Whether the device's solution buffer has to be set back to zero
    /// before the next batch: exactly when a solution was reported.
    pub fn needs_reset(&self) -> (r: bool)
        ensures
            r == self.solved.is_some(),
    {
        self.solved.is_some()
    }
}

impl Miner {
    /// What holds of every engine: a batch has at least one unit, a batch is
    /// in flight only while searching, and who searches has a target.
    pub open spec fn wf(&self) -> bool {
        &&& self.batch >= 1
        &&& self.in_cycle ==> self.phase is Searching
        &&& self.phase is Searching ==> self.target is Some
    }

    /// The vector width an engine uses: the one asked for, else the one that
    /// suits the device.
    pub open spec fn effective_width(asked: Option<u32>, caps: DeviceCaps) -> u32 {
        match asked {
            Some(w) => w,
            None => caps.vector_width_spec(),
        }
    }

    /// A new engine: it waits for a target, and its first batch will follow
    /// a batch of one unit that took no time.
    pub open spec fn fresh(device: u64, opts: MinerOpts, caps: DeviceCaps) -> Miner {
        Miner {
            device,
            opts: MinerOpts {
                vector_width: Some(Self::effective_width(opts.vector_width, caps)),
                ..opts
            },
            phase: Phase::WaitingForTarget,
            target: None,
            offset: 0,
            batch: 1,
            nanos: 0,
            started: 0,
            in_cycle: false,
            reset_due: false,
        }
    }

    /// The engine after a command, or after the end of the commands
    /// (`None`). An engine that has ended stays as it is.
    pub open spec fn after_command(self, cmd: Option<MinerCmd>) -> Miner {
        if self.phase is Stopped {
            self
        } else {
            match cmd {
                Some(MinerCmd::Mine(t)) => Miner {
                    phase: Phase::Searching,
                    target: Some(t),
                    offset: 0,
                    ..self
                },
                Some(MinerCmd::Stop) => Miner { phase: Phase::WaitingForTarget, ..self },
                None => Miner { phase: Phase::Stopped, ..self },
            }
        }
    }

    /// What the owner does after a command: stage the new target, report
    /// that the engine pauses, or end.
    pub open spec fn reaction(self, cmd: Option<MinerCmd>) -> Step {
        if self.phase is Stopped {
            Step::Exit
        } else {
            match cmd {
                Some(MinerCmd::Mine(t)) => Step::Stage(t),
                Some(MinerCmd::Stop) => Step::Report(MinerState::Paused),
                None => Step::Exit,
            }
        }
    }

    /// The engine with a batch in flight that began at `now`.
    pub open spec fn begun(self, now: u64) -> Miner {
        Miner {
            batch: next_batch_spec(self.batch, self.nanos, self.opts.rate_milli) as u64,
            started: now,
            in_cycle: true,
            ..self
        }
    }

    /// The batch that the device is asked to run once a cycle has begun.
    pub open spec fn dispatch(self) -> Dispatch {
        Dispatch {
            offset: self.offset,
            batch_size: next_batch_spec(self.batch, self.nanos, self.opts.rate_milli) as u64,
        }
    }

    /// The engine after the batch in flight came back at `now` with the
    /// solution buffer `readback`: the offset has moved on by the batch, as
    /// far as the machine can count, and a buffer that is not all zero is
    /// due to be set back.
    pub open spec fn ended(self, now: u64, readback: [u8; 15]) -> Miner {
        Miner {
            offset: if self.offset + self.batch > u64::MAX {
                u64::MAX
            } else {
                (self.offset + self.batch) as u64
            },
            nanos: elapsed(self.started, now),
            in_cycle: false,
            reset_due: !nothing_found(readback@),
            ..self
        }
    }

    /// The engine after its device failed: it has ended, with no batch in
    /// flight.
    pub open spec fn failed(self) -> Miner {
        Miner { phase: Phase::Stopped, in_cycle: false, ..self }
    }

    /// The engine after the device's solution buffer was set back to zero.
    pub open spec fn cleared(self) -> Miner {
        Miner { reset_due: false, ..self }
    }

    /// What came of the batch in flight, given the clock and the solution
    /// buffer as read back.
    pub open spec fn outcome(self, now: u64, readback: [u8; 15]) -> CycleOutcome {
        CycleOutcome {
            solved: if nothing_found(readback@) {
                None
            } else {
                Some(
                    Solution {
                        target: self.target->Some_0,
                        address: self.opts.address,
                        nonce: readback,
                    },
                )
            },
            hashrate: Hashrate { hashes: self.batch, nanos: elapsed(self.started, now) },
        }
    }

    /// What the owner does between batches: with a command pending, a
    /// searching engine goes back to receiving.
    pub open spec fn activity(self, pending: bool) -> Activity {
        match self.phase {
            Phase::Stopped => Activity::Exit,
            Phase::WaitingForTarget => Activity::Receive,
            Phase::Searching => if pending {
                Activity::Receive
            } else {
                Activity::Cycle
            },
        }
    }

    /// Creates an engine for a device. The vector width is the one asked
    /// for, else the one that suits the device.
    pub fn new(device: u64, opts: &MinerOpts, caps: &DeviceCaps) -> (m: Miner)
        ensures
            m == Self::fresh(device, *opts, *caps),
            m.wf(),
    {
        let width: u32 = match opts.vector_width {
            Some(w) => w,
            None => caps.vector_width(),
        };
        Miner {
            device,
            opts: MinerOpts {
                prefix: opts.prefix,
                address: opts.address,
                rate_milli: opts.rate_milli,
                vector_width: Some(width),
            },
            phase: Phase::WaitingForTarget,
            target: None,
            offset: 0,
            batch: 1,
            nanos: 0,
            started: 0,
            in_cycle: false,
            reset_due: false,
        }
    }

    /// Whether the engine is as every engine is: see `wf`.
    pub fn is_wf(&self) -> (r: bool)
        ensures
            r == self.wf(),
    {
        let searching: bool = match self.phase {
            Phase::Searching => true,
            _ => false,
        };
        self.batch >= 1 && (!self.in_cycle || searching) && (!searching || self.target.is_some())
    }

    /// What the owner does next, given whether a command is pending.
    pub fn next_activity(&self, pending: bool) -> (a: Activity)
        ensures
            a == self.activity(pending),
    {
        match self.phase {
            Phase::Stopped => Activity::Exit,
            Phase::WaitingForTarget => Activity::Receive,
            Phase::Searching => if pending {
                Activity::Receive
            } else {
                Activity::Cycle
            },
        }
    }

    /// Takes a command, or the end of the commands (`None`), between
    /// batches. A new target is staged and its search starts at offset 0; a
    /// stop is answered with `Paused`; the end of the commands ends the
    /// engine, and an engine that has ended stays so.
    pub fn on_command(&mut self, cmd: Option<MinerCmd>) -> (step: Step)
        requires
            old(self).wf(),
            !old(self).in_cycle,
        ensures
            *final(self) == old(self).after_command(cmd),
            step == old(self).reaction(cmd),
            final(self).wf(),
            !final(self).in_cycle,
    {
        match self.phase {
            Phase::Stopped => Step::Exit,
            _ => match cmd {
                Some(MinerCmd::Mine(t)) => {
                    self.phase = Phase::Searching;
                    self.target = Some(t);
                    self.offset = 0;
                    Step::Stage(t)
                },
                Some(MinerCmd::Stop) => {
                    self.phase = Phase::WaitingForTarget;
                    Step::Report(MinerState::Paused)
                },
                None => {
                    self.phase = Phase::Stopped;
                    Step::Exit
                },
            },
        }
    }

    /// Begins a batch at the time `now`: sizes it from the last one and
    /// returns what the device is to run.
    pub fn begin_cycle_at(&mut self, now: u64) -> (d: Dispatch)
        requires
            old(self).wf(),
            old(self).phase is Searching,
            !old(self).in_cycle,
            !old(self).reset_due,
        ensures
            *final(self) == old(self).begun(now),
            d == old(self).dispatch(),
            final(self).wf(),
            d.batch_size >= 1,
            d.batch_size <= old(self).batch * 16,
    {
        let size: u64 = next_batch(self.batch, self.nanos, self.opts.rate_milli);
        self.batch = size;
        self.started = now;
        self.in_cycle = true;
        Dispatch { offset: self.offset, batch_size: size }
    }

    /// Begins a batch now. Whatever the clock reads, the batch is the one
    /// that `dispatch` gives.
    pub fn begin_cycle(&mut self) -> (d: Dispatch)
        requires
            old(self).wf(),
            old(self).phase is Searching,
            !old(self).in_cycle,
            !old(self).reset_due,
        ensures
            exists|now: u64| *final(self) == old(self).begun(now),
            d == old(self).dispatch(),
            final(self).wf(),
    {
        let now: u64 = clock_ns();
        self.begin_cycle_at(now)
    }

    /// Ends the batch in flight at the time `now`, with the solution buffer
    /// as read back from the device. A buffer of zeros reports nothing; any
    /// other is a solution for the current target.
    pub fn end_cycle_at(&mut self, now: u64, readback: [u8; 15]) -> (out: CycleOutcome)
        requires
            old(self).wf(),
            old(self).in_cycle,
        ensures
            *final(self) == old(self).ended(now, readback),
            out == old(self).outcome(now, readback),
            final(self).wf(),
            final(self).offset >= old(self).offset,
            out.solved.is_none() <==> nothing_found(readback@),
    {
        let nanos: u64 = if now >= self.started {
            now - self.started
        } else {
            0
        };
        let empty: bool = is_all_zero(&readback);
        let solved: Option<Solution> = if empty {
            None
        } else {
            match self.target {
                Some(t) => Some(Solution { target: t, address: self.opts.address, nonce: readback }),
                None => None,
            }
        };
        self.offset = self.offset.saturating_add(self.batch);
        self.nanos = nanos;
        self.in_cycle = false;
        self.reset_due = !empty;
        CycleOutcome { solved, hashrate: Hashrate { hashes: self.batch, nanos } }
    }

    /// Takes note that the device failed, while staging a target, running a
    /// batch or reading back: the engine ends, and the error to hand to its
    /// owner carries the device's description of the failure.
    pub fn on_backend_error(&mut self, description: String) -> (e: KristforgeError)
        ensures
            *final(self) == old(self).failed(),
            e == KristforgeError::OclError(description),
            old(self).wf() ==> final(self).wf(),
    {
        self.phase = Phase::Stopped;
        self.in_cycle = false;
        KristforgeError::OclError(description)
    }

    /// Records that the device's solution buffer was set back to zero.
    pub fn confirm_reset(&mut self)
        ensures
            *final(self) == old(self).cleared(),
            final(self).wf() == old(self).wf(),
    {
        self.reset_due = false;
    }

    /// Ends the batch in flight now. Whatever the clock reads, a solution
    /// is reported exactly if the buffer read back is not all zero.
    pub fn end_cycle(&mut self, readback: [u8; 15]) -> (out: CycleOutcome)
        requires
            old(self).wf(),
            old(self).in_cycle,
        ensures
            exists|now: u64|
                *final(self) == old(self).ended(now, readback) && out == old(self).outcome(
                    now,
                    readback,
                ),
            final(self).wf(),
            out.solved.is_none() <==> nothing_found(readback@),
    {
        let now: u64 = clock_ns();
        self.end_cycle_at(now, readback)
    }
}

/// The first batch of a new engine has sixteen units and starts at offset 0,
/// whatever the options, the device and the target.
pub proof fn lemma_first_cycle(device: u64, opts: MinerOpts, caps: DeviceCaps, t: Target)
    ensures
        Miner::fresh(device, opts, caps).after_command(Some(MinerCmd::Mine(t))).dispatch() == (
        Dispatch { offset: 0, batch_size: 16 }),
{
    assert(opts.rate_milli * 0 == 0);
}

/// From one batch to the next the offset moves on by exactly the size of the
/// batch that ran, and never back, as long as the machine can count it.
pub proof fn lemma_offset_advances(m: Miner, began: u64, came_back: u64, readback: [u8; 15])
    requires
        m.wf(),
        m.phase is Searching,
        !m.in_cycle,
    ensures
        m.begun(began).ended(came_back, readback).cleared().dispatch().offset >= m.dispatch().offset,
        m.dispatch().offset + m.dispatch().batch_size <= u64::MAX ==> m.begun(began).ended(
            came_back,
            readback,
        ).cleared().dispatch().offset == m.dispatch().offset + m.dispatch().batch_size,
{
}

/// A new target starts at offset 0, wherever the search for the last one
/// stood.
pub proof fn lemma_new_target_resets_offset(m: Miner, t: Target)
    requires
        !(m.phase is Stopped),
    ensures
        m.after_command(Some(MinerCmd::Mine(t))).dispatch().offset == 0,
        m.after_command(Some(MinerCmd::Mine(t))).target == Some(t),
        m.after_command(Some(MinerCmd::Mine(t))).phase is Searching,
{
}

/// An engine that has ended stays ended: no command changes it, and there is
/// nothing left to do or to report.
pub proof fn lemma_stopped_is_final(m: Miner, cmd: Option<MinerCmd>, pending: bool)
    requires
        m.phase is Stopped,
    ensures
        m.after_command(cmd) == m,
        m.reaction(cmd) == Step::Exit,
        m.activity(pending) == Activity::Exit,
{
}

/// A buffer of zeros reports no solution and asks for no reset; any other
/// reports exactly one solution, before the rate, with the target, the
/// address and the bytes read, and the engine takes no further batch until
/// the buffer was set back.
pub proof fn lemma_solution_reported_once(m: Miner, now: u64, readback: [u8; 15])
    requires
        m.wf(),
        m.in_cycle,
    ensures
        nothing_found(readback@) ==> m.outcome(now, readback).states_spec() == seq![
            MinerState::Mining(m.outcome(now, readback).hashrate),
        ] && !m.ended(now, readback).reset_due,
        !nothing_found(readback@) ==> m.outcome(now, readback).states_spec() == seq![
            MinerState::Solved(
                Solution { target: m.target->Some_0, address: m.opts.address, nonce: readback },
            ),
            MinerState::Mining(m.outcome(now, readback).hashrate),
        ] && m.ended(now, readback).reset_due && !m.ended(now, readback).cleared().reset_due,
{
}

} // verus!
