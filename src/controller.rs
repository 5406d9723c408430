//! The process controller: the decisions of the debugger over at most one
//! traced child process. The caller performs what each decision asks for
//! (kill and reap, spawn, resume, wait) and hands back what the operating
//! system reported; this module keeps the state consistent with it.
use vstd::prelude::*;
use crate::symbols::{location_at, unknown_location, DebugData, LocationModel, SourceLocation};
use crate::unwind::Walk;

verus! {

/// The registers of a stopped process that the debugger reads.
#[derive(PartialEq, Eq, Structural, Clone, Copy, Debug)]
pub struct Registers {
    /// The instruction pointer.
    pub ip: u64,
    /// The frame (base) pointer.
    pub fp: u64,
}

/// The lifecycle of the traced process.
#[derive(PartialEq, Eq, Structural, Clone, Copy, Debug)]
pub enum ProcessState {
    /// No process.
    Idle,
    /// A new process, halted by the tracing facility before any of its own
    /// code has run.
    Launched,
    /// The process executes; its state is not observable.
    Running,
    /// The process is halted by the tracing facility.
    Stopped,
    /// The process ran to completion.
    Exited,
}

/// What waiting on the traced process reported.
#[derive(PartialEq, Eq, Structural, Clone, Copy, Debug)]
pub enum WaitEvent {
    /// The process exited with a code.
    Exited(i32),
    /// The process stopped on a signal, with its registers at that moment
    /// where they could be read.
    Stopped { signal: i32, regs: Option<Registers> },
    /// Any other status; `ended` says whether the process is gone. A process
    /// that is not gone is halted for the tracer.
    Other { ended: bool },
}

/// Why an operation could not act.
#[derive(PartialEq, Eq, Structural, Clone, Copy, Debug)]
pub enum ControlError {
    /// There is no process.
    NoProcess,
    /// The process exists but is not stopped.
    NotStopped,
    /// The process could not be started.
    SpawnFailed,
}

/// What a wait has to tell the user.
#[derive(Debug)]
pub enum Report {
    /// The process exited with a code.
    Exited { pid: u32, code: i32 },
    /// The process stopped on a signal at a source position.
    Stopped { pid: u32, signal: i32, location: SourceLocation },
    /// The process reported another status.
    Other { pid: u32 },
    /// There was no process to wait for.
    NoProcess,
}

/// The state of a controller. `parked` holds, while the process runs after
/// a `cont`, the state and registers it was resumed from.
pub ghost struct TargetModel {
    pub pid: Option<u32>,
    pub state: ProcessState,
    pub regs: Option<Registers>,
    pub parked: Option<(ProcessState, Option<Registers>)>,
}

/// Whether a process exists in this state.
pub open spec fn has_process(s: ProcessState) -> bool {
    s == ProcessState::Launched || s == ProcessState::Running || s == ProcessState::Stopped
}

/// A controller's state is consistent: a process exists exactly in the
/// Launched, Running and Stopped states, registers are known only when
/// Stopped, and a resumed-from state is kept only while Running.
pub open spec fn model_wf(m: TargetModel) -> bool {
    &&& (m.pid is Some <==> has_process(m.state))
    &&& (m.regs is Some ==> m.state == ProcessState::Stopped)
    &&& (m.parked matches Some((s, r)) ==> m.state == ProcessState::Running && (s
        == ProcessState::Launched || s == ProcessState::Stopped) && (r is Some ==> s
        == ProcessState::Stopped))
}

/// A state with nothing parked.
pub open spec fn settled(pid: Option<u32>, state: ProcessState, regs: Option<Registers>) -> TargetModel {
    TargetModel { pid, state, regs, parked: None }
}

/// No process, nothing known.
pub open spec fn idle_model() -> TargetModel {
    settled(None, ProcessState::Idle, None)
}

/// `kill`: the process to terminate and reap, if any, and the state after.
pub open spec fn kill_spec(m: TargetModel) -> (TargetModel, Option<u32>) {
    match m.pid {
        Some(p) => (idle_model(), Some(p)),
        None => (m, None),
    }
}

/// `run`: the state after a spawn that gave `child`. A new child is
/// halted by the tracing facility before it runs any of its own code.
pub open spec fn spawn_spec(child: Option<u32>) -> TargetModel {
    match child {
        Some(p) => settled(Some(p), ProcessState::Launched, None),
        None => idle_model(),
    }
}

/// Whether a process in this state may be resumed.
pub open spec fn resumable(s: ProcessState) -> bool {
    s == ProcessState::Launched || s == ProcessState::Stopped
}

/// `cont`: the process to resume, or why there is none, and the state after.
pub open spec fn cont_spec(m: TargetModel) -> (TargetModel, Result<u32, ControlError>) {
    match m.pid {
        None => (m, Err(ControlError::NoProcess)),
        Some(p) => if resumable(m.state) {
            (
                TargetModel {
                    pid: Some(p),
                    state: ProcessState::Running,
                    regs: None,
                    parked: Some((m.state, m.regs)),
                },
                Ok(p),
            )
        } else {
            (m, Err(ControlError::NotStopped))
        },
    }
}

/// `resume_failed`: a refused resume puts back the state and registers the
/// process was resumed from.
pub open spec fn resume_failed_spec(m: TargetModel) -> TargetModel {
    match m.parked {
        Some((s, r)) => if m.state == ProcessState::Running {
            settled(m.pid, s, r)
        } else {
            m
        },
        None => m,
    }
}

/// `on_wait`: the state after a wait reported `ev`.
pub open spec fn wait_spec(m: TargetModel, ev: WaitEvent) -> TargetModel {
    if m.pid is None {
        m
    } else {
        match ev {
            WaitEvent::Exited(_) => settled(None, ProcessState::Exited, None),
            WaitEvent::Stopped { signal, regs } => settled(m.pid, ProcessState::Stopped, regs),
            WaitEvent::Other { ended } => if ended {
                settled(None, ProcessState::Exited, None)
            } else {
                settled(m.pid, ProcessState::Stopped, None)
            },
        }
    }
}

/// The position reported for a stop: that of the stopping instruction where
/// the registers were read, else nothing known.
pub open spec fn stop_location(data: DebugData, regs: Option<Registers>) -> LocationModel {
    match regs {
        Some(r) => location_at(data, r.ip),
        None => unknown_location(),
    }
}

/// The controller of one target binary and its traced process.
pub struct Target {
    binary: String,
    pid: Option<u32>,
    state: ProcessState,
    regs: Option<Registers>,
    parked: Option<(ProcessState, Option<Registers>)>,
    debug_data: DebugData,
}

impl Target {
    /// The controller's state.
    pub closed spec fn model(&self) -> TargetModel {
        TargetModel { pid: self.pid, state: self.state, regs: self.regs, parked: self.parked }
    }

    /// The debug information of the target binary.
    pub closed spec fn data(&self) -> DebugData {
        self.debug_data
    }

    /// The path of the target binary.
    pub closed spec fn binary_view(&self) -> Seq<char> {
        self.binary@
    }

    /// A controller of the binary at `binary`, with no process.
    pub fn new(binary: &str, debug_data: DebugData) -> (r: Target)
        ensures
            r.model() == idle_model(),
            r.binary_view() == binary@,
            r.data() == debug_data,
    {
        Target {
            binary: binary.to_owned(),
            pid: None,
            state: ProcessState::Idle,
            regs: None,
            parked: None,
            debug_data,
        }
    }

    /// The path of the target binary.
    pub fn binary(&self) -> (r: &String)
        ensures
            r@ == self.binary_view(),
    {
        &self.binary
    }

    /// The debug information of the target binary.
    pub fn debug_data(&self) -> (r: &DebugData)
        ensures
            *r == self.data(),
    {
        &self.debug_data
    }

    /// The lifecycle state.
    pub fn state(&self) -> (r: ProcessState)
        ensures
            r == self.model().state,
    {
        self.state
    }

    /// The process identifier, while a process exists.
    pub fn pid(&self) -> (r: Option<u32>)
        ensures
            r == self.model().pid,
    {
        self.pid
    }

    /// The registers captured at the last stop, while the process is stopped.
    pub fn registers(&self) -> (r: Option<Registers>)
        ensures
            r == self.model().regs,
    {
        self.regs
    }

    /// Gives up the process: returns the one that the caller must terminate
    /// and reap, and forgets it. Without a process, nothing changes.
    pub fn kill(&mut self) -> (r: Option<u32>)
        ensures
            (final(self).model(), r) == kill_spec(old(self).model()),
            r == old(self).model().pid,
            final(self).model().pid is None,
            final(self).binary_view() == old(self).binary_view(),
            final(self).data() == old(self).data(),
    {
        match self.pid {
            Some(p) => {
                self.pid = None;
                self.state = ProcessState::Idle;
                self.regs = None;
                self.parked = None;
                Some(p)
            },
            None => None,
        }
    }

    /// Starts a run: records the traced process that the caller spawned, or
    /// its failure to spawn one. The caller spawns only after `kill` has
    /// given up the previous process, so at most one is ever held; the child
    /// is halted before its own code runs, and the caller then continues it.
    pub fn run(&mut self, child: Option<u32>) -> (r: Result<u32, ControlError>)
        requires
            old(self).model().pid is None,
        ensures
            final(self).model() == spawn_spec(child),
            r == (match child {
                Some(p) => Ok::<u32, ControlError>(p),
                None => Err(ControlError::SpawnFailed),
            }),
            final(self).binary_view() == old(self).binary_view(),
            final(self).data() == old(self).data(),
    {
        self.regs = None;
        self.parked = None;
        match child {
            Some(p) => {
                self.pid = Some(p);
                self.state = ProcessState::Launched;
                Ok(p)
            },
            None => {
                self.pid = None;
                self.state = ProcessState::Idle;
                Err(ControlError::SpawnFailed)
            },
        }
    }

    /// Decides to resume the process: returns the one the caller must resume
    /// and then wait for, or why there is none (the state is then unchanged).
    pub fn cont(&mut self) -> (r: Result<u32, ControlError>)
        ensures
            (final(self).model(), r) == cont_spec(old(self).model()),
            final(self).binary_view() == old(self).binary_view(),
            final(self).data() == old(self).data(),
    {
        match self.pid {
            None => Err(ControlError::NoProcess),
            Some(p) => {
                if self.state == ProcessState::Launched || self.state == ProcessState::Stopped {
                    self.parked = Some((self.state, self.regs));
                    self.state = ProcessState::Running;
                    self.regs = None;
                    Ok(p)
                } else {
                    Err(ControlError::NotStopped)
                }
            },
        }
    }

    /// Records that the tracing facility refused to resume the process: it is
    /// still halted where it was, with the same registers, and no wait
    /// follows.
    pub fn resume_failed(&mut self)
        ensures
            final(self).model() == resume_failed_spec(old(self).model()),
            final(self).binary_view() == old(self).binary_view(),
            final(self).data() == old(self).data(),
    {
        if self.state == ProcessState::Running {
            match self.parked {
                Some((s, r)) => {
                    self.state = s;
                    self.regs = r;
                    self.parked = None;
                },
                None => {},
            }
        }
    }

    /// Records what a wait on the process reported, and says what to tell
    /// the user: the exit code, or the signal and the source position of the
    /// stopping instruction (nothing known where the registers could not be
    /// read), or the other status.
    pub fn on_wait(&mut self, ev: WaitEvent) -> (r: Report)
        ensures
            final(self).model() == wait_spec(old(self).model(), ev),
            final(self).binary_view() == old(self).binary_view(),
            final(self).data() == old(self).data(),
            old(self).model().pid is None ==> r is NoProcess,
            old(self).model().pid matches Some(p) ==> match ev {
                WaitEvent::Exited(code) => r == (Report::Exited { pid: p, code }),
                WaitEvent::Stopped { signal, regs } => r matches Report::Stopped { pid, signal: s, location }
                    && pid == p && s == signal && location@ == stop_location(old(self).data(), regs),
                WaitEvent::Other { ended } => r == (Report::Other { pid: p }),
            },
    {
        let p = match self.pid {
            None => return Report::NoProcess,
            Some(p) => p,
        };
        self.parked = None;
        match ev {
            WaitEvent::Exited(code) => {
                self.pid = None;
                self.state = ProcessState::Exited;
                self.regs = None;
                Report::Exited { pid: p, code }
            },
            WaitEvent::Stopped { signal, regs } => {
                self.state = ProcessState::Stopped;
                self.regs = regs;
                let location = match regs {
                    Some(r) => self.debug_data.find_location(r.ip),
                    None => SourceLocation { file: None, line: None, column: None },
                };
                Report::Stopped { pid: p, signal, location }
            },
            WaitEvent::Other { ended } => {
                self.regs = None;
                if ended {
                    self.pid = None;
                    self.state = ProcessState::Exited;
                } else {
                    self.state = ProcessState::Stopped;
                }
                Report::Other { pid: p }
            },
        }
    }

    /// Starts a stack walk from the registers of the stopped process, or says
    /// why there is none to walk.
    pub fn start_walk(&self) -> (r: Result<Walk, ControlError>)
        ensures
            self.model().pid is None ==> r == Err::<Walk, ControlError>(ControlError::NoProcess),
            self.model().pid is Some && self.model().regs is None ==> r == Err::<Walk, ControlError>(
                ControlError::NotStopped,
            ),
            self.model().pid is Some ==> (self.model().regs matches Some(regs) ==> (r matches Ok(w)
                && w.wf() && !w.finished() && w.frames_view().len() == 0 && w.next_ip() == regs.ip
                && w.next_fp() == regs.fp)),
    {
        if self.pid.is_none() {
            return Err(ControlError::NoProcess);
        }
        match self.regs {
            Some(regs) => Ok(Walk::new(regs)),
            None => Err(ControlError::NotStopped),
        }
    }
}

/// Every operation keeps a consistent state consistent, and a new controller
/// starts in one.
pub proof fn lemma_operations_keep_wf(m: TargetModel, child: Option<u32>, ev: WaitEvent)
    requires
        model_wf(m),
    ensures
        model_wf(idle_model()),
        model_wf(kill_spec(m).0),
        model_wf(spawn_spec(child)),
        model_wf(cont_spec(m).0),
        model_wf(resume_failed_spec(m)),
        model_wf(wait_spec(m, ev)),
{
}

/// A run first gives up the previous process, which the caller terminates
/// before it spawns the new one: the process handed back for termination is
/// the previous one, and afterwards only the new child is held.
pub proof fn lemma_run_replaces_process(m: TargetModel, child: Option<u32>)
    ensures
        kill_spec(m).1 == m.pid,
        kill_spec(m).0.pid is None,
        spawn_spec(child).pid == child,
{
}

/// Killing twice: the second kill finds no process and changes nothing, and
/// after either no process is held.
pub proof fn lemma_kill_idempotent(m: TargetModel)
    ensures
        kill_spec(kill_spec(m).0) == (kill_spec(m).0, None::<u32>),
        kill_spec(m).0.pid is None,
        m.pid is None ==> kill_spec(m) == (m, None::<u32>),
{
}

/// Continuing without a process is refused and leaves the controller idle.
pub proof fn lemma_cont_when_idle()
    ensures
        cont_spec(idle_model()) == (idle_model(), Err::<u32, ControlError>(ControlError::NoProcess)),
{
}

/// Once the wait that follows a resume has returned, the process is never
/// left Running: it has exited, or it is halted for the tracer.
pub proof fn lemma_wait_never_running(m: TargetModel, ev: WaitEvent)
    requires
        m.pid is Some,
    ensures
        wait_spec(m, ev).state == ProcessState::Exited || wait_spec(m, ev).state == ProcessState::Stopped,
        wait_spec(m, ev).state == ProcessState::Exited <==> wait_spec(m, ev).pid is None,
{
}

/// A refused resume is undone: the controller is back where it was before
/// `cont`, registers included.
pub proof fn lemma_refused_resume_restores(m: TargetModel)
    requires
        model_wf(m),
        cont_spec(m).1 is Ok,
    ensures
        resume_failed_spec(cont_spec(m).0) == settled(m.pid, m.state, m.regs),
{
}

/// A process that runs to completion without a trace stop: launched, then
/// resumed, then Exited with no process held; it is never Stopped.
pub proof fn lemma_run_to_exit(p: u32, code: i32)
    ensures
        spawn_spec(Some(p)).state == ProcessState::Launched,
        cont_spec(spawn_spec(Some(p))).1 == Ok::<u32, ControlError>(p),
        cont_spec(spawn_spec(Some(p))).0.state == ProcessState::Running,
        wait_spec(cont_spec(spawn_spec(Some(p))).0, WaitEvent::Exited(code)) == settled(None, ProcessState::Exited, None),
{
}

} // verus!
