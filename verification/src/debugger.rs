//! Debugging and profiling of programs: the records of a session, and the
//! bookkeeping of breakpoints and of a profile.
//!
//! Points in time are milliseconds; the caller reads the clock.

use crate::ratio::Ratio;
use crate::text::{decimal, push_decimal};
use std::collections::HashMap;
use vstd::prelude::*;
use vstd::string::StringExecFns;

verus! {

/// A debugging session on one program.
#[derive(Clone, Debug)]
pub struct DebugSession {
    pub program_path: String,
    pub input_data: Vec<u8>,
    pub breakpoints: Vec<u64>,
    pub watch_variables: Vec<String>,
    pub session_id: String,
    pub created_at: u64,
}

/// What an execution left behind.
#[derive(Clone, Debug)]
pub struct ExecutionTrace {
    pub cycles: Vec<CycleInfo>,
    pub memory_accesses: Vec<MemoryAccess>,
    pub register_states: Vec<RegisterState>,
    pub call_stack: Vec<CallFrame>,
}

/// One cycle of an execution.
#[derive(Clone, Debug)]
pub struct CycleInfo {
    pub cycle: u64,
    pub instruction: String,
    pub pc: u64,
    pub timestamp: u64,
}

/// One access to memory.
#[derive(Clone, Debug)]
pub struct MemoryAccess {
    pub address: u64,
    pub value: u64,
    pub access_type: MemoryAccessType,
    pub cycle: u64,
}

/// The direction of an access to memory.
#[derive(Clone, Copy, Debug, PartialEq, Eq, Structural)]
pub enum MemoryAccessType {
    Read,
    Write,
}

/// The registers at one cycle.
#[derive(Clone, Debug)]
pub struct RegisterState {
    pub cycle: u64,
    pub registers: HashMap<String, u64>,
}

/// One frame of the call stack.
#[derive(Clone, Debug)]
pub struct CallFrame {
    pub function_name: String,
    pub return_address: u64,
    pub local_variables: HashMap<String, u64>,
}

/// What a profile found.
#[derive(Clone, Debug)]
pub struct ProfilerResult {
    pub total_cycles: u64,
    pub execution_time: u64,
    pub memory_usage: MemoryProfile,
    pub performance_metrics: PerformanceMetrics,
    pub hot_spots: Vec<HotSpot>,
}

/// How a program used memory.
#[derive(Clone, Copy, Debug, PartialEq, Eq, Structural)]
pub struct MemoryProfile {
    pub peak_memory: u64,
    pub average_memory: u64,
    pub memory_accesses: u64,
    pub cache_hits: u64,
    pub cache_misses: u64,
}

/// How fast a program ran. The rate of cycles is per millisecond; the mix of
/// instructions lists each kind of instruction with its count.
#[derive(Clone, Debug)]
pub struct PerformanceMetrics {
    pub cycles_per_millisecond: Ratio,
    pub memory_bandwidth: Ratio,
    pub instruction_mix: Vec<(String, u64)>,
}

/// A function in which a program spent much of its time, with the share of the
/// cycles spent there.
#[derive(Clone, Debug)]
pub struct HotSpot {
    pub function_name: String,
    pub cycles_spent: u64,
    pub percentage: Ratio,
    pub line_numbers: Vec<u32>,
}

/// A debugger with at most one session.
pub struct PicoDebugger {
    session: Option<DebugSession>,
    trace: Option<ExecutionTrace>,
}

/// A profiler: when it was started, and what it has counted since.
pub struct PicoProfiler {
    start_time: Option<u64>,
    cycle_count: u64,
    memory_usage: u64,
}

/// The id of a session started at `now`.
pub open spec fn session_id_at(now: u64) -> Seq<char> {
    "debug_"@ + decimal(now as nat)
}

/// `breakpoints` with `address` set: unchanged where it is set already.
pub open spec fn with_breakpoint(breakpoints: Seq<u64>, address: u64) -> Seq<u64> {
    if breakpoints.contains(address) {
        breakpoints
    } else {
        breakpoints.push(address)
    }
}

/// The addresses other than `address`.
pub open spec fn other_than(address: u64) -> spec_fn(u64) -> bool {
    |x: u64| x != address
}

/// What is shown when a value is written to memory.
pub open spec fn memory_write_notice(address: u64, value: u64) -> Seq<char> {
    "Setting memory["@ + decimal(address as nat) + "] = "@ + decimal(value as nat)
}

impl PicoDebugger {
    /// The session of the debugger, if one was started.
    pub closed spec fn spec_session(&self) -> Option<DebugSession> {
        self.session
    }

    /// A debugger without a session.
    pub fn new() -> (debugger: Self)
        ensures
            debugger.spec_session() is None,
    {
        Self { session: None, trace: None }
    }

    /// The session of the debugger, if one was started.
    pub fn session(&self) -> (session: &Option<DebugSession>)
        ensures
            *session == self.spec_session(),
    {
        &self.session
    }

    /// Starts a session on the program at `program_path` with `input_data` at
    /// time `now`, in the place of an earlier session, and returns its id:
    /// `debug_` and the time. The new session has no breakpoints and watches no
    /// variables.
    pub fn start_session(&mut self, program_path: String, input_data: Vec<u8>, now: u64) -> (id:
        String)
        ensures
            id@ == session_id_at(now),
            final(self).spec_session() matches Some(s) && s.program_path == program_path
                && s.input_data == input_data && s.breakpoints@.len() == 0
                && s.watch_variables@.len() == 0 && s.session_id@ == session_id_at(now)
                && s.created_at == now,
    {
        let mut session_id = String::from_str("debug_");
        push_decimal(&mut session_id, now as u128);
        let id = session_id.clone();
        self.session = Some(
            DebugSession {
                program_path,
                input_data,
                breakpoints: Vec::new(),
                watch_variables: Vec::new(),
                session_id,
                created_at: now,
            },
        );
        id
    }

    /// Sets a breakpoint at `address` in the session, unless one is set there
    /// already. Without a session nothing happens.
    pub fn add_breakpoint(&mut self, address: u64)
        ensures
            match old(self).spec_session() {
                Some(s) => final(self).spec_session() == Some(
                    DebugSession { breakpoints: final(self).spec_session().unwrap().breakpoints, ..s },
                ) && final(self).spec_session().unwrap().breakpoints@ == with_breakpoint(
                    s.breakpoints@,
                    address,
                ),
                None => final(self).spec_session() is None,
            },
    {
        match &mut self.session {
            Some(session) => {
                let mut found = false;
                let mut k: usize = 0;
                while k < session.breakpoints.len()
                    invariant
                        k <= session.breakpoints@.len(),
                        found == session.breakpoints@.take(k as int).contains(address),
                    decreases session.breakpoints@.len() - k,
                {
                    proof {
                        let seen = session.breakpoints@.take(k as int);
                        let next = session.breakpoints@.take(k + 1);
                        assert(next =~= seen.push(session.breakpoints@[k as int]));
                        if seen.contains(address) {
                            let i = choose|i: int| 0 <= i < seen.len() && seen[i] == address;
                            assert(next[i] == address);
                        }
                        if session.breakpoints@[k as int] == address {
                            assert(next[k as int] == address);
                        }
                        if next.contains(address) && session.breakpoints@[k as int] != address {
                            let i = choose|i: int| 0 <= i < next.len() && next[i] == address;
                            assert(seen[i] == address);
                        }
                    }
                    if session.breakpoints[k] == address {
                        found = true;
                    }
                    k += 1;
                }
                assert(session.breakpoints@.take(session.breakpoints@.len() as int)
                    =~= session.breakpoints@);
                if !found {
                    session.breakpoints.push(address);
                }
            },
            None => {},
        }
    }

    /// Clears every breakpoint at `address` in the session. Without a session
    /// nothing happens.
    pub fn remove_breakpoint(&mut self, address: u64)
        ensures
            match old(self).spec_session() {
                Some(s) => final(self).spec_session() == Some(
                    DebugSession { breakpoints: final(self).spec_session().unwrap().breakpoints, ..s },
                ) && final(self).spec_session().unwrap().breakpoints@ == s.breakpoints@.filter(
                    other_than(address),
                ),
                None => final(self).spec_session() is None,
            },
    {
        match &mut self.session {
            Some(session) => {
                let mut kept: Vec<u64> = Vec::new();
                let mut k: usize = 0;
                proof {
                    assert(session.breakpoints@.take(0).filter(other_than(address))
                        =~= Seq::empty()) by {
                        reveal(Seq::filter);
                    }
                }
                while k < session.breakpoints.len()
                    invariant
                        k <= session.breakpoints@.len(),
                        kept@ == session.breakpoints@.take(k as int).filter(other_than(address)),
                    decreases session.breakpoints@.len() - k,
                {
                    proof {
                        let seen = session.breakpoints@.take(k as int);
                        assert(session.breakpoints@.take(k + 1) =~= seen.push(
                            session.breakpoints@[k as int],
                        ));
                        seen.lemma_filter_push(session.breakpoints@[k as int], other_than(address));
                    }
                    if session.breakpoints[k] != address {
                        kept.push(session.breakpoints[k]);
                    }
                    k += 1;
                }
                assert(session.breakpoints@.take(session.breakpoints@.len() as int)
                    =~= session.breakpoints@);
                session.breakpoints = kept;
            },
            None => {},
        }
    }

    /// Executes one instruction. Until a machine is attached this is always the
    /// same idle cycle.
    pub fn step_execution(&mut self) -> (cycle: CycleInfo)
        ensures
            cycle.cycle == 0,
            cycle.instruction@ == "nop"@,
            cycle.pc == 0,
            cycle.timestamp == 0,
            final(self).spec_session() == old(self).spec_session(),
    {
        CycleInfo { cycle: 0, instruction: String::from_str("nop"), pc: 0, timestamp: 0 }
    }

    /// What is shown when the execution goes on.
    pub fn continue_execution(&mut self) -> (notice: &'static str)
        ensures
            notice@ == "Continuing execution..."@,
            final(self).spec_session() == old(self).spec_session(),
    {
        "Continuing execution..."
    }

    /// The registers with their values: `x1`, `x2` and `pc`, all zero until a
    /// machine is attached.
    pub fn get_register_state(&self) -> (registers: Vec<(String, u64)>)
        ensures
            registers.deep_view() == seq![("x1"@, 0u64), ("x2"@, 0u64), ("pc"@, 0u64)],
    {
        let mut registers: Vec<(String, u64)> = Vec::new();
        registers.push((String::from_str("x1"), 0));
        registers.push((String::from_str("x2"), 0));
        registers.push((String::from_str("pc"), 0));
        assert(registers.deep_view() =~= seq![("x1"@, 0u64), ("x2"@, 0u64), ("pc"@, 0u64)]);
        registers
    }

    /// The value in memory at `address`: zero until a machine is attached.
    pub fn get_memory_value(&self, _address: u64) -> (value: u64)
        ensures
            value == 0,
    {
        0
    }

    /// What is shown when `value` is written to memory at `address`.
    pub fn set_memory_value(&mut self, address: u64, value: u64) -> (notice: String)
        ensures
            notice@ == memory_write_notice(address, value),
            final(self).spec_session() == old(self).spec_session(),
    {
        let mut notice = String::from_str("Setting memory[");
        push_decimal(&mut notice, address as u128);
        notice.append("] = ");
        push_decimal(&mut notice, value as u128);
        notice
    }
}

impl PicoProfiler {
    /// When the profiler was started, if it was.
    pub closed spec fn spec_start_time(&self) -> Option<u64> {
        self.start_time
    }

    /// The cycles counted since the profiler was started.
    pub closed spec fn spec_cycle_count(&self) -> u64 {
        self.cycle_count
    }

    /// The memory counted since the profiler was started.
    pub closed spec fn spec_memory_usage(&self) -> u64 {
        self.memory_usage
    }

    /// A profiler that was not started and has counted nothing.
    pub fn new() -> (profiler: Self)
        ensures
            profiler.spec_start_time() is None,
            profiler.spec_cycle_count() == 0,
            profiler.spec_memory_usage() == 0,
    {
        Self { start_time: None, cycle_count: 0, memory_usage: 0 }
    }

    /// When the profiler was started, if it was.
    pub fn start_time(&self) -> (t: Option<u64>)
        ensures
            t == self.spec_start_time(),
    {
        self.start_time
    }

    /// The cycles counted since the profiler was started.
    pub fn cycle_count(&self) -> (n: u64)
        ensures
            n == self.spec_cycle_count(),
    {
        self.cycle_count
    }

    /// The memory counted since the profiler was started.
    pub fn memory_usage(&self) -> (n: u64)
        ensures
            n == self.spec_memory_usage(),
    {
        self.memory_usage
    }

    /// Starts the profiler at time `now` and sets its counts back to zero.
    pub fn start_profiling(&mut self, now: u64)
        ensures
            final(self).spec_start_time() == Some(now),
            final(self).spec_cycle_count() == 0,
            final(self).spec_memory_usage() == 0,
    {
        self.start_time = Some(now);
        self.cycle_count = 0;
        self.memory_usage = 0;
    }

    /// Counts one cycle.
    pub fn record_cycle(&mut self)
        requires
            old(self).spec_cycle_count() < u64::MAX,
        ensures
            final(self).spec_cycle_count() == old(self).spec_cycle_count() + 1,
            final(self).spec_memory_usage() == old(self).spec_memory_usage(),
            final(self).spec_start_time() == old(self).spec_start_time(),
    {
        self.cycle_count = self.cycle_count + 1;
    }

    /// Counts an access to `size` bytes of memory.
    pub fn record_memory_access(&mut self, size: u64)
        requires
            old(self).spec_memory_usage() + size <= u64::MAX,
        ensures
            final(self).spec_memory_usage() == old(self).spec_memory_usage() + size,
            final(self).spec_cycle_count() == old(self).spec_cycle_count(),
            final(self).spec_start_time() == old(self).spec_start_time(),
    {
        self.memory_usage = self.memory_usage + size;
    }

    /// The time from `start` to `now`: zero where the profiler was not started
    /// or `now` lies before `start`.
    pub open spec fn elapsed(start: Option<u64>, now: u64) -> u64 {
        match start {
            Some(s) => if s <= now {
                (now - s) as u64
            } else {
                0
            },
            None => 0,
        }
    }

    /// The profile at time `now`: the cycles counted and the time since the
    /// start; the memory counted as the peak and half of it as the average,
    /// beside fixed figures for accesses and cache; the rate of cycles; and the
    /// two hot spots `main` and `compute`, with a half and a quarter of the
    /// cycles. The profiler itself stays as it is.
    pub fn stop_profiling(&mut self, now: u64) -> (result: ProfilerResult)
        ensures
            final(self).spec_start_time() == old(self).spec_start_time(),
            final(self).spec_cycle_count() == old(self).spec_cycle_count(),
            final(self).spec_memory_usage() == old(self).spec_memory_usage(),
            result.total_cycles == old(self).spec_cycle_count(),
            result.execution_time == Self::elapsed(old(self).spec_start_time(), now),
            result.memory_usage == (MemoryProfile {
                peak_memory: old(self).spec_memory_usage(),
                average_memory: old(self).spec_memory_usage() / 2,
                memory_accesses: 1000,
                cache_hits: 800,
                cache_misses: 200,
            }),
            result.performance_metrics.cycles_per_millisecond == (Ratio {
                numerator: result.total_cycles,
                denominator: result.execution_time,
            }),
            result.performance_metrics.memory_bandwidth == (Ratio { numerator: 1, denominator: 1 }),
            result.performance_metrics.instruction_mix.deep_view() == seq![
                ("add"@, 100u64),
                ("mul"@, 50u64),
                ("load"@, 200u64),
            ],
            result.hot_spots@.len() == 2,
            result.hot_spots@[0].function_name@ == "main"@,
            result.hot_spots@[0].cycles_spent == result.total_cycles / 2,
            result.hot_spots@[0].percentage == (Ratio { numerator: 1, denominator: 2 }),
            result.hot_spots@[0].line_numbers@ == seq![10u32, 15u32, 20u32],
            result.hot_spots@[1].function_name@ == "compute"@,
            result.hot_spots@[1].cycles_spent == result.total_cycles / 4,
            result.hot_spots@[1].percentage == (Ratio { numerator: 1, denominator: 4 }),
            result.hot_spots@[1].line_numbers@ == seq![5u32, 8u32, 12u32],
    {
        let execution_time: u64 = match self.start_time {
            Some(s) => if s <= now {
                now - s
            } else {
                0
            },
            None => 0,
        };
        let memory_profile = MemoryProfile {
            peak_memory: self.memory_usage,
            average_memory: self.memory_usage / 2,
            memory_accesses: 1000,
            cache_hits: 800,
            cache_misses: 200,
        };
        let mut instruction_mix: Vec<(String, u64)> = Vec::new();
        instruction_mix.push((String::from_str("add"), 100));
        instruction_mix.push((String::from_str("mul"), 50));
        instruction_mix.push((String::from_str("load"), 200));
        assert(instruction_mix.deep_view() =~= seq![
            ("add"@, 100u64),
            ("mul"@, 50u64),
            ("load"@, 200u64),
        ]);
        let performance_metrics = PerformanceMetrics {
            cycles_per_millisecond: Ratio::of(self.cycle_count, execution_time),
            memory_bandwidth: Ratio::of(1, 1),
            instruction_mix,
        };
        let mut main_lines: Vec<u32> = Vec::new();
        main_lines.push(10);
        main_lines.push(15);
        main_lines.push(20);
        assert(main_lines@ =~= seq![10u32, 15u32, 20u32]);
        let mut compute_lines: Vec<u32> = Vec::new();
        compute_lines.push(5);
        compute_lines.push(8);
        compute_lines.push(12);
        assert(compute_lines@ =~= seq![5u32, 8u32, 12u32]);
        let mut hot_spots: Vec<HotSpot> = Vec::new();
        hot_spots.push(
            HotSpot {
                function_name: String::from_str("main"),
                cycles_spent: self.cycle_count / 2,
                percentage: Ratio::of(1, 2),
                line_numbers: main_lines,
            },
        );
        hot_spots.push(
            HotSpot {
                function_name: String::from_str("compute"),
                cycles_spent: self.cycle_count / 4,
                percentage: Ratio::of(1, 4),
                line_numbers: compute_lines,
            },
        );
        ProfilerResult {
            total_cycles: self.cycle_count,
            execution_time,
            memory_usage: memory_profile,
            performance_metrics,
            hot_spots,
        }
    }
}

} // verus!
