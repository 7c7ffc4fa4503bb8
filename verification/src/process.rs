//! Pseudo-terminal process supervisor.
//!
//! Owns the lifecycle of one supervised interactive child process:
//! `Stopped` → (start) → `Starting` → (spawn success) → `Running` →
//! (stop | spawn failure) → `Stopped`, with `Starting` → (spawn failure)
//! → `Error`; both `Error` and `Stopped` are resumable by a fresh start.
//! The pseudo-terminal pair, child handle and byte streams live in the
//! unverified shell; this module verifies every decision — executable
//! lookup, state transitions, the write and resize guards, and the
//! output-forwarding loop's step function.

use vstd::prelude::*;

verus! {

/// Errors reported by the process supervisor.
#[derive(Debug, Clone)]
pub enum AgentError {
    /// Allocating the terminal pair or spawning the child failed.
    PtySpawnError(String),
    /// The operation needs a running process and none is running.
    NotRunning,
    /// Writing to the child's input stream failed.
    WriteError(String),
    /// Reading from the child's output stream failed.
    ReadError(String),
    /// No candidate executable for the supervised program was found.
    AgentNotFound,
}

impl AgentError {
    /// Human-readable description of the error.
    pub fn message(&self) -> (r: String)
        ensures
            self matches AgentError::PtySpawnError(d) ==> r@ == "Failed to spawn PTY: "@ + d@,
            self is NotRunning ==> r@ == "Process not running"@,
            self matches AgentError::WriteError(d) ==> r@ == "Failed to write to process: "@
                + d@,
            self matches AgentError::ReadError(d) ==> r@ == "Failed to read from process: "@
                + d@,
            self is AgentNotFound ==> r@ == "Agent not found in PATH"@,
    {
        match self {
            AgentError::PtySpawnError(d) => {
                "Failed to spawn PTY: ".to_owned().concat(d.as_str())
            },
            AgentError::NotRunning => "Process not running".to_owned(),
            AgentError::WriteError(d) => {
                "Failed to write to process: ".to_owned().concat(d.as_str())
            },
            AgentError::ReadError(d) => {
                "Failed to read from process: ".to_owned().concat(d.as_str())
            },
            AgentError::AgentNotFound => "Agent not found in PATH".to_owned(),
        }
    }
}

/// One chunk of child output delivered to the registered sink, or one
/// terminal error notice when the forwarding loop aborts abnormally.
#[derive(Debug, Clone)]
pub struct OutputEvent {
    pub data: String,
    pub is_error: bool,
}

/// The single authoritative status of the supervised process instance.
#[derive(Debug, Clone, PartialEq)]
pub enum ProcessStatus {
    Starting,
    Running,
    Stopped,
    Error(String),
}

/// Relies on which::which: whether an executable of the given name can
/// be located on the search path.  The answer depends on the machine's
/// state, so nothing further is assumed of it.
#[verifier::external_body]
fn command_on_path(name: &str) -> bool {
    which::which(name).is_ok()
}

/// Picks the supervised program's command from the probe results, in
/// the candidates' order of preference: the first candidate found on
/// the path wins; with none present the lookup fails.
pub fn select_command(candidates: &Vec<String>, found: &Vec<bool>) -> (r: Result<
    String,
    AgentError,
>)
    requires
        candidates@.len() == found@.len(),
    ensures
        match r {
            Ok(c) => exists|i: int|
                {
                    &&& 0 <= i < found@.len()
                    &&& found@[i]
                    &&& c@ == candidates@[i]@
                    &&& forall|j: int| 0 <= j < i ==> !found@[j]
                },
            Err(e) => e is AgentNotFound && (forall|j: int|
                0 <= j < found@.len() ==> !found@[j]),
        },
{
    let mut k: usize = 0;
    while k < found.len()
        invariant
            candidates@.len() == found@.len(),
            0 <= k <= found@.len(),
            forall|j: int| 0 <= j < k ==> !found@[j],
        decreases found@.len() - k,
    {
        if found[k] {
            return Ok(candidates[k].clone());
        }
        k += 1;
    }
    Err(AgentError::AgentNotFound)
}

/// Locates an executable for the supervised program by probing the given
/// candidate command names on the search path, in order of preference.
/// Whatever the machine answers, a located command is always one of the
/// candidates.
pub fn find_agent_command(candidates: &Vec<String>) -> (r: Result<String, AgentError>)
    ensures
        r matches Ok(c) ==> (exists|i: int|
            0 <= i < candidates@.len() && candidates@[i]@ == c@),
        r matches Err(e) ==> e is AgentNotFound,
{
    let mut found: Vec<bool> = Vec::new();
    let mut k: usize = 0;
    while k < candidates.len()
        invariant
            0 <= k <= candidates@.len(),
            found@.len() == k,
        decreases candidates@.len() - k,
    {
        found.push(command_on_path(candidates[k].as_str()));
        k += 1;
    }
    let r = select_command(candidates, &found);
    match r {
        Ok(c) => {
            proof {
                let i = choose|i: int|
                    {
                        &&& 0 <= i < found@.len()
                        &&& found@[i]
                        &&& c@ == candidates@[i]@
                        &&& forall|j: int| 0 <= j < i ==> !found@[j]
                    };
                assert(candidates@[i]@ == c@);
            }
            Ok(c)
        },
        Err(e) => Err(e),
    }
}

/// Default terminal geometry for a freshly spawned child.
pub const DEFAULT_COLS: u16 = 80;

pub const DEFAULT_ROWS: u16 = 24;

/// What the shell observed while carrying out a start request.
#[derive(Debug, Clone)]
pub enum StartOutcome {
    /// No candidate executable was located.
    CommandNotFound,
    /// The terminal pair, the spawn, or cloning its ends failed.
    SpawnFailed(String),
    /// The child is attached to the terminal pair and running.
    Spawned,
}

/// The supervisor's verified state: status, the running flag the
/// forwarding loop observes, whether a terminal pair is held, the
/// current geometry, and the process generation — a counter that lets a
/// late chunk from a superseded session be recognized and discarded.
pub struct ProcessSupervisor {
    pub status: ProcessStatus,
    pub running: bool,
    pub has_pty: bool,
    pub cols: u16,
    pub rows: u16,
    pub generation: u64,
}

/// The state `resize` leaves behind: a new geometry when a terminal pair
/// is held, and no change at all otherwise.
pub open spec fn spec_resize(s: ProcessSupervisor, cols: u16, rows: u16) -> ProcessSupervisor {
    if s.has_pty {
        ProcessSupervisor { cols, rows, ..s }
    } else {
        s
    }
}

/// Resizing is idempotent: a second `resize` with the same geometry
/// leaves exactly the observable terminal configuration the first one
/// established.
pub proof fn lemma_resize_idempotent(s: ProcessSupervisor, cols: u16, rows: u16)
    ensures
        spec_resize(spec_resize(s, cols, rows), cols, rows) == spec_resize(s, cols, rows),
{
}

impl ProcessSupervisor {
    /// The running flag never outlives the held handles or the Running
    /// status.
    pub open spec fn wf(self) -> bool {
        self.running ==> (self.status is Running && self.has_pty)
    }

    /// A fresh supervisor: stopped, nothing held, default geometry.
    pub fn new() -> (r: ProcessSupervisor)
        ensures
            r.wf(),
            r.status is Stopped,
            !r.running,
            !r.has_pty,
            r.cols == DEFAULT_COLS,
            r.rows == DEFAULT_ROWS,
            r.generation == 0,
    {
        ProcessSupervisor {
            status: ProcessStatus::Stopped,
            running: false,
            has_pty: false,
            cols: DEFAULT_COLS,
            rows: DEFAULT_ROWS,
            generation: 0,
        }
    }

    /// Begins a start request: a no-op success while already running
    /// (the caller must not spawn), otherwise the status moves to
    /// `Starting` and the shell must locate and spawn the program.
    pub fn begin_start(&mut self) -> (go: bool)
        requires
            old(self).wf(),
        ensures
            final(self).wf(),
            go == !old(self).running,
            old(self).running ==> *final(self) == *old(self),
            !old(self).running ==> *final(self) == (ProcessSupervisor {
                status: ProcessStatus::Starting,
                ..*old(self)
            }),
    {
        if self.running {
            return false;
        }
        self.status = ProcessStatus::Starting;
        true
    }

    /// Applies what the shell observed for a begun start request:
    ///
    /// - no executable located: the status returns to `Stopped` (not
    ///   `Error`) and the lookup error is returned;
    /// - the spawn failed: the status becomes `Error` with the failure's
    ///   description, which is also returned;
    /// - the child spawned: the supervisor is `Running` at the default
    ///   geometry, under a fresh process generation.
    pub fn on_start_outcome(&mut self, outcome: StartOutcome) -> (r: Result<(), AgentError>)
        requires
            old(self).wf(),
            !old(self).running,
            old(self).generation < u64::MAX,
        ensures
            final(self).wf(),
            outcome is CommandNotFound ==> (r matches Err(e) && e is AgentNotFound) && *final(self) == (ProcessSupervisor { status: ProcessStatus::Stopped, ..*old(self) }),
            outcome matches StartOutcome::SpawnFailed(m) ==> {
                &&& (r matches Err(e) && e matches AgentError::PtySpawnError(d) && d@ == m@)
                &&& (final(self).status matches ProcessStatus::Error(d2) && d2@ == m@)
                &&& !final(self).running
                &&& final(self).has_pty == old(self).has_pty
                &&& final(self).generation == old(self).generation
            },
            outcome is Spawned ==> r is Ok && *final(self) == (ProcessSupervisor {
                status: ProcessStatus::Running,
                running: true,
                has_pty: true,
                cols: DEFAULT_COLS,
                rows: DEFAULT_ROWS,
                generation: (old(self).generation + 1) as u64,
            }),
    {
        match outcome {
            StartOutcome::CommandNotFound => {
                self.status = ProcessStatus::Stopped;
                Err(AgentError::AgentNotFound)
            },
            StartOutcome::SpawnFailed(m) => {
                self.status = ProcessStatus::Error(m.clone());
                Err(AgentError::PtySpawnError(m))
            },
            StartOutcome::Spawned => {
                self.status = ProcessStatus::Running;
                self.running = true;
                self.has_pty = true;
                self.cols = DEFAULT_COLS;
                self.rows = DEFAULT_ROWS;
                self.generation = self.generation + 1;
                Ok(())
            },
        }
    }

    /// Stops the supervised process: clears the flag the forwarding loop
    /// observes, releases the held handles (the shell kills and reaps the
    /// child best-effort), and settles on `Stopped`.  Always succeeds,
    /// from any state.
    pub fn stop(&mut self)
        requires
            old(self).wf(),
        ensures
            final(self).wf(),
            *final(self) == (ProcessSupervisor {
                status: ProcessStatus::Stopped,
                running: false,
                has_pty: false,
                ..*old(self)
            }),
    {
        self.running = false;
        self.has_pty = false;
        self.status = ProcessStatus::Stopped;
    }

    /// Guards the write path: while not running, nothing is handed to
    /// the shell — not a single byte — and the call fails fast; while
    /// running, the shell receives exactly the given text to write and
    /// flush, untranslated.
    pub fn send_input_request(&self, input: &str) -> (r: Result<String, AgentError>)
        ensures
            !self.running ==> (r matches Err(e) && e is NotRunning),
            self.running ==> (r matches Ok(d) && d@ == input@),
    {
        if !self.running {
            return Err(AgentError::NotRunning);
        }
        Ok(input.to_owned())
    }

    /// Folds the shell's report of the write back into the contract:
    /// a failure description becomes the write error.
    pub fn write_outcome(error: Option<String>) -> (r: Result<(), AgentError>)
        ensures
            error is None ==> r is Ok,
            error matches Some(m) ==> (r matches Err(e) && e matches AgentError::WriteError(d)
                && d@ == m@),
    {
        match error {
            None => Ok(()),
            Some(m) => Err(AgentError::WriteError(m)),
        }
    }

    /// Propagates a new terminal geometry: fails when no terminal pair
    /// is held, and otherwise records the geometry the shell must apply.
    pub fn resize(&mut self, cols: u16, rows: u16) -> (r: Result<(), AgentError>)
        requires
            old(self).wf(),
        ensures
            final(self).wf(),
            *final(self) == spec_resize(*old(self), cols, rows),
            old(self).has_pty ==> r is Ok,
            !old(self).has_pty ==> (r matches Err(e) && e is NotRunning),
    {
        if !self.has_pty {
            return Err(AgentError::NotRunning);
        }
        self.cols = cols;
        self.rows = rows;
        Ok(())
    }

    /// Cheap status snapshot.
    pub fn status_snapshot(&self) -> (r: ProcessStatus)
        ensures
            r == self.status,
    {
        match &self.status {
            ProcessStatus::Starting => ProcessStatus::Starting,
            ProcessStatus::Running => ProcessStatus::Running,
            ProcessStatus::Stopped => ProcessStatus::Stopped,
            ProcessStatus::Error(m) => ProcessStatus::Error(m.clone()),
        }
    }

    /// Whether an output chunk read under `generation` belongs to the
    /// current process lifetime; chunks of a superseded generation are
    /// discarded rather than misattributed.
    pub fn chunk_deliverable(&self, generation: u64) -> (r: bool)
        ensures
            r == (self.running && self.generation == generation),
    {
        self.running && self.generation == generation
    }
}

/// What decoding the child's raw output bytes yields; the name stands
/// for the lossy character decoding applied to each chunk.
pub uninterp spec fn lossy_utf8(bytes: Seq<u8>) -> Seq<char>;

/// Relies on String::from_utf8_lossy: decodes a byte chunk as text,
/// replacing invalid sequences rather than rejecting them.  The result
/// is a function of the bytes alone, and an empty chunk decodes to the
/// empty string.
#[verifier::external_body]
fn decode_lossy(bytes: &Vec<u8>) -> (r: String)
    ensures
        r@ == lossy_utf8(bytes@),
        bytes@.len() == 0 ==> r@.len() == 0,
{
    String::from_utf8_lossy(bytes.as_slice()).to_string()
}

/// What the shell's blocking read on the child's output stream returned.
#[derive(Debug, Clone)]
pub enum ReadOutcome {
    /// End of stream: the child closed its side.
    Eof,
    /// A chunk of raw bytes.
    Data(Vec<u8>),
    /// The read failed, with its description.
    Failed(String),
}

/// What the forwarding loop must do after one read.
#[derive(Debug, Clone)]
pub enum LoopStep {
    /// Deliver this event to the registered sink and keep reading.
    Deliver(OutputEvent),
    /// Deliver this final event, then exit the loop.
    DeliverAndHalt(OutputEvent),
    /// Exit the loop silently.
    Halt,
}

/// One step of the output-forwarding loop.  The loop observes the
/// "still wanted" flag before acting, so it exits promptly once a stop
/// cleared it; end of stream exits silently; a read error is delivered
/// once as an error event and ends the loop; any non-empty chunk is
/// decoded lossily and delivered in the order the bytes were produced.
pub fn read_loop_step(still_wanted: bool, outcome: ReadOutcome) -> (r: LoopStep)
    ensures
        !still_wanted ==> r is Halt,
        still_wanted ==> match outcome {
            ReadOutcome::Eof => r is Halt,
            ReadOutcome::Data(bytes) => {
                if bytes@.len() == 0 {
                    r is Halt
                } else {
                    r matches LoopStep::Deliver(e) && e.data@ == lossy_utf8(bytes@) && !e.is_error
                }
            },
            ReadOutcome::Failed(m) => r matches LoopStep::DeliverAndHalt(e) && e.data@
                == "Read error: "@ + m@ && e.is_error,
        },
{
    if !still_wanted {
        return LoopStep::Halt;
    }
    match outcome {
        ReadOutcome::Eof => LoopStep::Halt,
        ReadOutcome::Data(bytes) => {
            if bytes.len() == 0 {
                LoopStep::Halt
            } else {
                let data = decode_lossy(&bytes);
                LoopStep::Deliver(OutputEvent { data, is_error: false })
            }
        },
        ReadOutcome::Failed(m) => {
            let data = "Read error: ".to_owned().concat(m.as_str());
            LoopStep::DeliverAndHalt(OutputEvent { data, is_error: true })
        },
    }
}

/// Capability set of a supervised process; the supervisor-backed shell
/// and any test double implement it.  Every implementation owes the
/// guard stated on the write and resize paths: before a start, they
/// fail fast with `NotRunning` and change nothing.
pub trait AgentProcess: Sized {
    /// Whether the implementation currently reads as running.
    spec fn running_model(&self) -> bool;

    fn start(&mut self, working_dir: Option<&str>) -> (r: Result<(), AgentError>)
        ensures
            r is Ok ==> final(self).running_model(),
    ;

    /// Stopping always succeeds and leaves the process not running.
    fn stop(&mut self) -> (r: Result<(), AgentError>)
        ensures
            r is Ok,
            !final(self).running_model(),
    ;

    /// While not running, fails with `NotRunning` and writes nothing.
    fn send_input(&mut self, input: &str) -> (r: Result<(), AgentError>)
        ensures
            !old(self).running_model() ==> (r matches Err(e) && e is NotRunning) && *final(self)
                == *old(self),
    ;

    fn resize(&mut self, cols: u16, rows: u16) -> (r: Result<(), AgentError>)
        ensures
            !old(self).running_model() ==> (r matches Err(e) && e is NotRunning),
    ;

    fn status(&self) -> ProcessStatus;
}

/// Deterministic in-memory supervised process: records sent input and
/// delivered output events, with call counters and a failure switch.
/// Implements the same capability set as the real shell, for tests and
/// for wiring without a terminal.
pub struct MockAgentProcess {
    pub mock_status: ProcessStatus,
    pub running: bool,
    pub inputs: Vec<String>,
    pub callback_set: bool,
    pub delivered: Vec<OutputEvent>,
    pub should_fail: bool,
    pub start_count: usize,
    pub stop_count: usize,
    pub cols: u16,
    pub rows: u16,
}

impl MockAgentProcess {
    /// Fresh double: stopped, nothing recorded, default geometry.
    pub fn new() -> (r: MockAgentProcess)
        ensures
            r.mock_status is Stopped,
            !r.running,
            r.inputs@.len() == 0,
            !r.callback_set,
            r.delivered@.len() == 0,
            !r.should_fail,
            r.start_count == 0,
            r.stop_count == 0,
            r.cols == 80,
            r.rows == 24,
    {
        MockAgentProcess {
            mock_status: ProcessStatus::Stopped,
            running: false,
            inputs: Vec::new(),
            callback_set: false,
            delivered: Vec::new(),
            should_fail: false,
            start_count: 0,
            stop_count: 0,
            cols: 80,
            rows: 24,
        }
    }

    /// Makes every subsequent operation fail, or restores success.
    pub fn set_should_fail(&mut self, fail: bool)
        ensures
            *final(self) == (MockAgentProcess { should_fail: fail, ..*old(self) }),
    {
        self.should_fail = fail;
    }

    /// The inputs sent so far, oldest first.
    pub fn input_history(&self) -> (r: Vec<String>)
        ensures
            r@ == self.inputs@,
    {
        let mut out: Vec<String> = Vec::new();
        let mut k: usize = 0;
        while k < self.inputs.len()
            invariant
                0 <= k <= self.inputs@.len(),
                out@.len() == k,
                forall|i: int| 0 <= i < k ==> out@[i] == self.inputs@[i],
            decreases self.inputs@.len() - k,
        {
            out.push(self.inputs[k].clone());
            k += 1;
        }
        proof {
            assert(out@ =~= self.inputs@);
        }
        out
    }

    pub fn start_count(&self) -> (r: usize)
        ensures
            r == self.start_count,
    {
        self.start_count
    }

    pub fn stop_count(&self) -> (r: usize)
        ensures
            r == self.stop_count,
    {
        self.stop_count
    }

    /// The geometry last applied, as columns and rows.
    pub fn current_size(&self) -> (r: (u16, u16))
        ensures
            r == (self.cols, self.rows),
    {
        (self.cols, self.rows)
    }

    /// Registers (or replaces) the output sink; the recorded deliveries
    /// restart with the new sink.  Safe before or after a start.
    pub fn set_output_callback(&mut self)
        ensures
            final(self).callback_set,
            final(self).delivered@.len() == 0,
            final(self).mock_status == old(self).mock_status,
            final(self).running == old(self).running,
            final(self).inputs == old(self).inputs,
            final(self).should_fail == old(self).should_fail,
            final(self).start_count == old(self).start_count,
            final(self).stop_count == old(self).stop_count,
            final(self).cols == old(self).cols,
            final(self).rows == old(self).rows,
    {
        self.callback_set = true;
        self.delivered = Vec::new();
    }

    /// Feeds one output event through the registered sink, if any.
    pub fn simulate_output(&mut self, data: &str, is_error: bool)
        ensures
            old(self).callback_set ==> final(self).delivered@.len() == old(self).delivered@.len() + 1 && final(self).delivered@.last().data@ == data@ && final(self).delivered@.last().is_error == is_error && final(self).delivered@.take(
                old(self).delivered@.len() as int,
            ) == old(self).delivered@,
            !old(self).callback_set ==> *final(self) == *old(self),
            final(self).callback_set == old(self).callback_set,
            final(self).running == old(self).running,
            final(self).mock_status == old(self).mock_status,
    {
        if self.callback_set {
            self.delivered.push(OutputEvent { data: data.to_owned(), is_error });
        }
    }

    /// The events delivered to the current sink, oldest first.
    pub fn delivered_events(&self) -> (r: Vec<OutputEvent>)
        ensures
            r@ == self.delivered@,
    {
        let mut out: Vec<OutputEvent> = Vec::new();
        let mut k: usize = 0;
        while k < self.delivered.len()
            invariant
                0 <= k <= self.delivered@.len(),
                out@.len() == k,
                forall|i: int| 0 <= i < k ==> out@[i] == self.delivered@[i],
            decreases self.delivered@.len() - k,
        {
            let data = self.delivered[k].data.clone();
            let is_error = self.delivered[k].is_error;
            out.push(OutputEvent { data, is_error });
            k += 1;
        }
        proof {
            assert(out@ =~= self.delivered@);
        }
        out
    }
}

impl AgentProcess for MockAgentProcess {
    open spec fn running_model(&self) -> bool {
        self.running
    }

    fn start(&mut self, working_dir: Option<&str>) -> (r: Result<(), AgentError>)
        ensures
            old(self).start_count < usize::MAX ==> final(self).start_count == old(self).start_count + 1,
            final(self).inputs == old(self).inputs,
            final(self).delivered == old(self).delivered,
            final(self).callback_set == old(self).callback_set,
            final(self).cols == old(self).cols,
            final(self).rows == old(self).rows,
            old(self).should_fail ==> {
                &&& (r matches Err(e) && e is AgentNotFound)
                &&& (final(self).mock_status matches ProcessStatus::Error(m) && m@
                    == "Mock error"@)
                &&& final(self).running == old(self).running
            },
            !old(self).should_fail ==> r is Ok && final(self).mock_status is Running && final(self).running,
    {
        if self.start_count < usize::MAX {
            self.start_count = self.start_count + 1;
        }

        if self.should_fail {
            self.mock_status = ProcessStatus::Error("Mock error".to_owned());
            return Err(AgentError::AgentNotFound);
        }

        self.mock_status = ProcessStatus::Running;
        self.running = true;
        Ok(())
    }

    fn stop(&mut self) -> (r: Result<(), AgentError>)
        ensures
            old(self).stop_count < usize::MAX ==> final(self).stop_count == old(self).stop_count
                + 1,
            r is Ok,
            final(self).mock_status is Stopped,
            !final(self).running,
            final(self).inputs == old(self).inputs,
            final(self).delivered == old(self).delivered,
            final(self).callback_set == old(self).callback_set,
            final(self).cols == old(self).cols,
            final(self).rows == old(self).rows,
    {
        if self.stop_count < usize::MAX {
            self.stop_count = self.stop_count + 1;
        }
        self.mock_status = ProcessStatus::Stopped;
        self.running = false;
        Ok(())
    }

    fn send_input(&mut self, input: &str) -> (r: Result<(), AgentError>)
        ensures
            !old(self).running ==> (r matches Err(e) && e is NotRunning) && *final(self) == *old(self),
            old(self).running && old(self).should_fail ==> (r matches Err(e) && e matches
                AgentError::WriteError(m) && m@ == "Mock write error"@) && *final(self) == *old(self),
            old(self).running && !old(self).should_fail ==> r is Ok && final(self).inputs@.len()
                == old(self).inputs@.len() + 1 && final(self).inputs@.last()@ == input@ && final(self).inputs@.take(old(self).inputs@.len() as int) == old(self).inputs@ && final(self).running,
    {
        if !self.running {
            return Err(AgentError::NotRunning);
        }

        if self.should_fail {
            return Err(AgentError::WriteError("Mock write error".to_owned()));
        }

        self.inputs.push(input.to_owned());
        Ok(())
    }

    fn resize(&mut self, cols: u16, rows: u16) -> (r: Result<(), AgentError>)
        ensures
            !old(self).running ==> (r matches Err(e) && e is NotRunning) && *final(self) == *old(self),
            old(self).running ==> r is Ok && *final(self) == (MockAgentProcess {
                cols,
                rows,
                ..*old(self)
            }),
    {
        if !self.running {
            return Err(AgentError::NotRunning);
        }

        self.cols = cols;
        self.rows = rows;
        Ok(())
    }

    fn status(&self) -> (r: ProcessStatus)
        ensures
            r == self.mock_status,
    {
        match &self.mock_status {
            ProcessStatus::Starting => ProcessStatus::Starting,
            ProcessStatus::Running => ProcessStatus::Running,
            ProcessStatus::Stopped => ProcessStatus::Stopped,
            ProcessStatus::Error(m) => ProcessStatus::Error(m.clone()),
        }
    }
}

} // verus!
