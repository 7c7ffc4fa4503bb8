//! Audio capture engine.
//!
//! The hardware input stream cannot be shared across threads, so it is
//! confined to a single long-lived worker that processes `Start`/`Stop`
//! commands strictly in submission order.  This module verifies the
//! engine's decision logic: device resolution, the worker's stream state
//! machine (at most one stream open at any time), session generations
//! used to discard late frames, and the sample-format normalization rule.
//! The unverified shell owns the actual stream handle and feeds each
//! command's outcome back into the state machine.

use vstd::prelude::*;

verus! {

/// Errors reported by the audio capture engine.
#[derive(Debug, Clone)]
pub enum AudioError {
    /// No default input device is available.
    NoInputDevice,
    /// Querying the device or its configuration failed.
    ConfigError(String),
    /// Building the input stream failed.
    StreamError(String),
    /// Starting playback of the built stream failed.
    PlayError(String),
    /// A device of the requested name does not exist.
    DeviceNotFound(String),
}

impl AudioError {
    /// Human-readable description of the error.
    pub fn message(&self) -> (r: String)
        ensures
            self is NoInputDevice ==> r@ == "No input device available"@,
            self matches AudioError::ConfigError(d) ==> r@ == "Failed to get default input config: "@
                + d@,
            self matches AudioError::StreamError(d) ==> r@ == "Failed to build input stream: "@
                + d@,
            self matches AudioError::PlayError(d) ==> r@ == "Failed to play stream: "@ + d@,
            self matches AudioError::DeviceNotFound(d) ==> r@ == "Device not found: "@ + d@,
    {
        match self {
            AudioError::NoInputDevice => "No input device available".to_owned(),
            AudioError::ConfigError(d) => {
                "Failed to get default input config: ".to_owned().concat(d.as_str())
            },
            AudioError::StreamError(d) => {
                "Failed to build input stream: ".to_owned().concat(d.as_str())
            },
            AudioError::PlayError(d) => "Failed to play stream: ".to_owned().concat(d.as_str()),
            AudioError::DeviceNotFound(d) => "Device not found: ".to_owned().concat(d.as_str()),
        }
    }
}

/// Snapshot of one available input device, recreated on every enumeration.
#[derive(Debug, Clone)]
pub struct AudioDeviceInfo {
    pub name: String,
    pub is_default: bool,
}

/// Builds the device snapshot list from enumerated device names and the
/// platform default's name: a device is flagged as default exactly when
/// its name equals the default device's name.
pub fn mark_devices(names: Vec<String>, default_name: Option<&String>) -> (r: Vec<
    AudioDeviceInfo,
>)
    ensures
        r@.len() == names@.len(),
        forall|i: int|
            0 <= i < r@.len() ==> {
                &&& r@[i].name == names@[i]
                &&& r@[i].is_default == (default_name matches Some(d) && d@ == names@[i]@)
            },
{
    let mut out: Vec<AudioDeviceInfo> = Vec::new();
    let mut k: usize = 0;
    while k < names.len()
        invariant
            0 <= k <= names@.len(),
            out@.len() == k,
            forall|i: int|
                0 <= i < k ==> {
                    &&& out@[i].name == names@[i]
                    &&& out@[i].is_default == (default_name matches Some(d) && d@ == names@[i]@)
                },
        decreases names@.len() - k,
    {
        let is_default = match default_name {
            Some(d) => *d == names[k],
            None => false,
        };
        let name = names[k].clone();
        out.push(AudioDeviceInfo { name, is_default });
        k += 1;
    }
    out
}

/// Resolves the capture target among the enumerated devices: by exact
/// name match when a name is given (a missing name is an error), or the
/// first device flagged as platform default otherwise (no default device
/// is a distinct error).
pub fn resolve_device(devices: &Vec<AudioDeviceInfo>, device_name: Option<&String>) -> (r: Result<
    usize,
    AudioError,
>)
    ensures
        match r {
            Ok(i) => {
                &&& 0 <= i < devices@.len()
                &&& match device_name {
                    Some(n) => devices@[i as int].name@ == n@ && (forall|j: int|
                        0 <= j < i ==> devices@[j].name@ != n@),
                    None => devices@[i as int].is_default && (forall|j: int|
                        0 <= j < i ==> !devices@[j].is_default),
                }
            },
            Err(e) => match device_name {
                Some(n) => {
                    &&& (e matches AudioError::DeviceNotFound(m) && m@ == n@)
                    &&& (forall|j: int| 0 <= j < devices@.len() ==> devices@[j].name@ != n@)
                },
                None => {
                    &&& (e is NoInputDevice)
                    &&& (forall|j: int| 0 <= j < devices@.len() ==> !devices@[j].is_default)
                },
            },
        },
{
    match &device_name {
        Some(n) => {
            let mut k: usize = 0;
            while k < devices.len()
                invariant
                    device_name matches Some(m) && m@ == n@,
                    0 <= k <= devices@.len(),
                    forall|j: int| 0 <= j < k ==> devices@[j].name@ != n@,
                decreases devices@.len() - k,
            {
                if devices[k].name == **n {
                    return Ok(k);
                }
                k += 1;
            }
            Err(AudioError::DeviceNotFound((*n).clone()))
        },
        None => {
            let mut k: usize = 0;
            while k < devices.len()
                invariant
                    device_name is None,
                    0 <= k <= devices@.len(),
                    forall|j: int| 0 <= j < k ==> !devices@[j].is_default,
                decreases devices@.len() - k,
            {
                if devices[k].is_default {
                    return Ok(k);
                }
                k += 1;
            }
            Err(AudioError::NoInputDevice)
        },
    }
}

/// Native sample formats the engine distinguishes.
#[derive(Debug, Clone, Copy, PartialEq, Eq, Structural)]
pub enum SampleFormat {
    /// Signed 16-bit integer samples: passed through unchanged.
    I16,
    /// Floating-point samples: scaled and truncated.
    F32,
    /// Anything else is rejected as unsupported.
    Other,
}

/// Whether the engine can normalize the given native format.
pub fn format_supported(format: SampleFormat) -> (r: bool)
    ensures
        r == (format is I16 || format is F32),
{
    match format {
        SampleFormat::I16 => true,
        SampleFormat::F32 => true,
        SampleFormat::Other => false,
    }
}

/// Stream configuration requested from the device.
#[derive(Debug, Clone, Copy, PartialEq, Eq, Structural)]
pub struct StreamConfig {
    pub channels: u16,
    pub sample_rate_hz: u32,
}

/// The single normalized capture format: mono at 16 kHz.
pub fn create_config() -> (r: StreamConfig)
    ensures
        r.channels == 1,
        r.sample_rate_hz == 16000,
{
    StreamConfig { channels: 1, sample_rate_hz: 16000 }
}

/// Truncating division (rounds toward zero), the rounding rule pinned
/// for floating-point sample conversion.
pub open spec fn trunc_div(a: int, b: int) -> int {
    if a >= 0 {
        a / b
    } else {
        -((-a) / b)
    }
}

/// One full scale in the fixed-point sample encoding: a native sample
/// `s` in [-1.0, +1.0] is handed in as `s * 65536` truncated.
pub const FIXED_ONE: i64 = 65536;

/// Converts one native sample, given in signed fixed-point units of
/// 1/65536 of full scale, to the normalized 16-bit integer format.
///
/// The pinned rule: multiply by 32767, truncate toward zero, and
/// saturate outside full scale; so +1.0 yields exactly 32767, -1.0
/// yields exactly -32767, and 0.0 yields 0.
pub fn normalize_sample(fixed: i64) -> (r: i16)
    ensures
        fixed >= 65536 ==> r == 32767,
        fixed <= -65536 ==> r == -32767i16,
        -65536 < fixed < 65536 ==> r as int == trunc_div(fixed * 32767, 65536),
{
    if fixed >= 65536 {
        32767
    } else if fixed <= -65536 {
        -32767
    } else if fixed >= 0 {
        ((fixed * 32767) / 65536) as i16
    } else {
        let m = (((-fixed) * 32767) / 65536) as i16;
        -m
    }
}

/// What the worker plans for one `Start` command, before it touches the
/// hardware: which enumerated device to open, the stream configuration
/// to request, and the native format whose converter to install.
#[derive(Debug, Clone, Copy, PartialEq, Eq, Structural)]
pub struct StartPlan {
    pub device_index: usize,
    pub config: StreamConfig,
    pub format: SampleFormat,
}

/// The worker's decisions for one `Start` command, from what the shell
/// enumerated: resolve the device (by name or platform default), fix the
/// normalized stream configuration, and accept only a supported native
/// sample format.  A plan is owed whenever the requested device is
/// present (or, with no name, some device is flagged default) and the
/// native format is supported; each failure names its exact cause.
/// Failures here are the worker's side-channel diagnostics; the capture
/// state simply remains "not recording".
pub fn plan_start(
    devices: &Vec<AudioDeviceInfo>,
    device_name: Option<&String>,
    native_format: SampleFormat,
) -> (r: Result<StartPlan, AudioError>)
    ensures
        match r {
            Ok(plan) => {
                &&& 0 <= plan.device_index < devices@.len()
                &&& match device_name {
                    Some(n) => devices@[plan.device_index as int].name@ == n@ && (forall|j: int|
                        0 <= j < plan.device_index ==> devices@[j].name@ != n@),
                    None => devices@[plan.device_index as int].is_default && (forall|j: int|
                        0 <= j < plan.device_index ==> !devices@[j].is_default),
                }
                &&& plan.config.channels == 1
                &&& plan.config.sample_rate_hz == 16000
                &&& plan.format == native_format
                &&& (native_format is I16 || native_format is F32)
            },
            Err(e) => match device_name {
                Some(n) => {
                    ||| ((e matches AudioError::DeviceNotFound(m) && m@ == n@) && (forall|j: int|
                        0 <= j < devices@.len() ==> devices@[j].name@ != n@))
                    ||| ((e matches AudioError::ConfigError(m) && m@
                        == "Unsupported sample format"@) && native_format is Other && (exists|
                        j: int,
                    |
                        0 <= j < devices@.len() && devices@[j].name@ == n@))
                },
                None => {
                    ||| ((e is NoInputDevice) && (forall|j: int|
                        0 <= j < devices@.len() ==> !devices@[j].is_default))
                    ||| ((e matches AudioError::ConfigError(m) && m@
                        == "Unsupported sample format"@) && native_format is Other && (exists|
                        j: int,
                    |
                        0 <= j < devices@.len() && devices@[j].is_default))
                },
            },
        },
{
    let device_index = resolve_device(devices, device_name)?;
    let config = create_config();
    if !format_supported(native_format) {
        return Err(AudioError::ConfigError("Unsupported sample format".to_owned()));
    }
    Ok(StartPlan { device_index, config, format: native_format })
}

/// One command accepted by the capture worker.  Commands are queued and
/// processed strictly in submission order; the frame callback of a
/// `Start` is registered with the unverified shell, which tags delivered
/// frames with the session generation the worker hands back.
#[derive(Debug, Clone)]
pub enum AudioCommand {
    Start { device_name: Option<String> },
    Stop,
}

/// One processed worker step, as recorded in the worker's history:
/// whether the command was a `Start`, and whether its stream came up.
#[derive(Debug, Clone, Copy, PartialEq, Eq, Structural)]
pub struct WorkerStep {
    pub is_start: bool,
    pub opened: bool,
}

/// Number of streams open after the worker has processed `steps`: a
/// `Start` first drops any existing stream and then opens at most one,
/// and a `Stop` (or a failed `Start`) leaves none, so only the most
/// recent step decides.
pub open spec fn streams_after(steps: Seq<WorkerStep>) -> nat {
    if steps.len() == 0 {
        0
    } else if steps.last().is_start && steps.last().opened {
        1
    } else {
        0
    }
}

/// However the submitted `Start`/`Stop` commands interleave, at most one
/// stream is open after processing them in order; and a stream is open
/// exactly when the most recent command was a `Start` whose stream came
/// up — a `Start` that no `Stop` (nor a later `Start`) has superseded.
pub proof fn lemma_single_stream(steps: Seq<WorkerStep>)
    ensures
        streams_after(steps) <= 1,
        streams_after(steps) == 1 <==> (steps.len() > 0 && steps.last().is_start
            && steps.last().opened),
{
}

/// The capture worker's state: the generation of the currently open
/// stream session, if any, and the history of processed commands.
///
/// The stream handle itself lives in the unverified shell; the worker
/// state here decides, and the shell obeys.
pub struct AudioWorker {
    pub open_session: Option<u64>,
    pub next_generation: u64,
    pub recording: bool,
    pub history: Ghost<Seq<WorkerStep>>,
}

impl AudioWorker {
    /// The recording flag tracks exactly whether a stream is open, and
    /// the open stream is always the most recent successful `Start`.
    pub open spec fn wf(self) -> bool {
        &&& self.recording == (self.open_session is Some)
        &&& streams_after(self.history@) == (if self.open_session is Some {
            1nat
        } else {
            0nat
        })
    }

    pub fn new() -> (r: AudioWorker)
        ensures
            r.wf(),
            !r.recording,
            r.open_session is None,
            r.next_generation == 0,
            r.history@ == Seq::<WorkerStep>::empty(),
    {
        AudioWorker {
            open_session: None,
            next_generation: 0,
            recording: false,
            history: Ghost(Seq::empty()),
        }
    }

    /// Applies one `Start` command: the existing stream (if any) is
    /// dropped first, then a new session begins exactly when the shell
    /// reports that resolution, build and play all succeeded.  Returns
    /// the new session's generation, with which the shell must tag
    /// every frame the new stream delivers.
    pub fn apply_start(&mut self, opened: bool) -> (g: Option<u64>)
        requires
            old(self).wf(),
            old(self).next_generation < u64::MAX,
        ensures
            final(self).wf(),
            final(self).history@ == old(self).history@.push(
                (WorkerStep { is_start: true, opened }),
            ),
            final(self).recording == opened,
            opened ==> g == Some(old(self).next_generation) && final(self).open_session == g,
            !opened ==> g is None && final(self).open_session is None,
    {
        if opened {
            let g = self.next_generation;
            self.open_session = Some(g);
            self.next_generation = g + 1;
            self.recording = true;
            proof {
                self.history@ = self.history@.push(WorkerStep { is_start: true, opened: true });
            }
            Some(g)
        } else {
            self.open_session = None;
            self.recording = false;
            proof {
                self.history@ = self.history@.push(WorkerStep { is_start: true, opened: false });
            }
            None
        }
    }

    /// Applies one `Stop` command: the stream (if any) is dropped and
    /// the engine reads as not recording.
    pub fn apply_stop(&mut self)
        requires
            old(self).wf(),
        ensures
            final(self).wf(),
            final(self).history@ == old(self).history@.push(
                (WorkerStep { is_start: false, opened: false }),
            ),
            !final(self).recording,
            final(self).open_session is None,
    {
        self.open_session = None;
        self.recording = false;
        proof {
            self.history@ = self.history@.push(WorkerStep { is_start: false, opened: false });
        }
    }

    /// Whether a frame tagged with `generation` belongs to the open
    /// session.  Frames of a superseded session — captured before a
    /// `Stop` or a fresh `Start` was processed — are discarded by this
    /// test rather than misattributed.
    pub fn frame_deliverable(&self, generation: u64) -> (r: bool)
        ensures
            r == (self.open_session == Some(generation)),
    {
        match self.open_session {
            Some(g) => g == generation,
            None => false,
        }
    }

    pub fn is_recording(&self) -> (r: bool)
        ensures
            r == self.recording,
    {
        self.recording
    }
}

/// The caller-facing capture engine: submits commands to the worker's
/// FIFO queue.  `start_recording` is idempotent — while recording it is
/// a no-op success — and lazily brings the worker up on first use.
pub struct AudioEngine {
    pub worker_started: bool,
    pub queue: Vec<AudioCommand>,
    pub worker: AudioWorker,
}

impl AudioEngine {
    /// Beside the worker's own invariant: a recording worker, or a
    /// pending command, implies the worker was brought up, so a `stop`
    /// while a stream is open is never dropped for want of a worker.
    pub open spec fn wf(self) -> bool {
        &&& self.worker.wf()
        &&& (self.worker.recording ==> self.worker_started)
        &&& (self.queue@.len() > 0 ==> self.worker_started)
    }

    pub fn new() -> (r: AudioEngine)
        ensures
            r.wf(),
            !r.worker.recording,
            r.worker.next_generation == 0,
            !r.worker_started,
            r.queue@.len() == 0,
    {
        AudioEngine { worker_started: false, queue: Vec::new(), worker: AudioWorker::new() }
    }

    /// Submits a `Start` command unless already recording, in which case
    /// nothing changes and the call still succeeds.
    pub fn start_recording(&mut self, device_name: Option<&String>) -> (r: Result<(), AudioError>)
        requires
            old(self).wf(),
        ensures
            final(self).wf(),
            r is Ok,
            old(self).worker.recording ==> *final(self) == *old(self),
            !old(self).worker.recording ==> {
                &&& final(self).worker == old(self).worker
                &&& final(self).queue@.len() == old(self).queue@.len() + 1
                &&& final(self).queue@.last() matches AudioCommand::Start { device_name: d }
                    && (match (d, device_name) {
                    (Some(d), Some(n)) => d@ == n@,
                    (None, None) => true,
                    _ => false,
                })
            },
    {
        if self.worker.is_recording() {
            return Ok(());
        }
        self.worker_started = true;
        let name = match device_name {
            Some(n) => Some(n.clone()),
            None => None,
        };
        self.queue.push(AudioCommand::Start { device_name: name });
        Ok(())
    }

    /// Submits a `Stop` command; safe to call when not capturing.  The
    /// stream is released only once the worker processes the command,
    /// not the instant this returns.
    pub fn stop_recording(&mut self)
        requires
            old(self).wf(),
        ensures
            final(self).wf(),
            final(self).worker == old(self).worker,
            old(self).worker_started ==> final(self).queue@ == old(self).queue@.push(
                AudioCommand::Stop,
            ),
            !old(self).worker_started ==> *final(self) == *old(self),
    {
        if self.worker_started {
            self.queue.push(AudioCommand::Stop);
        }
    }

    /// Cheap status read of the worker's flag.
    pub fn is_recording(&self) -> (r: bool)
        ensures
            r == self.worker.recording,
    {
        self.worker.is_recording()
    }

    /// Whether a command is waiting for the worker.
    pub fn has_pending(&self) -> (r: bool)
        ensures
            r == (self.queue@.len() > 0),
    {
        self.queue.len() > 0
    }

    /// The worker takes the oldest queued command — strictly first in,
    /// first out — and applies it; for a `Start`, `opened` reports
    /// whether the shell brought the new stream up.  Returns the new
    /// session's generation when one was opened.
    pub fn process_next(&mut self, opened: bool) -> (g: Option<u64>)
        requires
            old(self).wf(),
            old(self).queue@.len() > 0,
            old(self).worker.next_generation < u64::MAX,
        ensures
            final(self).wf(),
            final(self).queue@ == old(self).queue@.skip(1),
            old(self).queue@[0] is Start ==> {
                &&& final(self).worker.history@ == old(self).worker.history@.push(
                    (WorkerStep { is_start: true, opened }),
                )
                &&& final(self).worker.recording == opened
                &&& g == (if opened {
                    Some(old(self).worker.next_generation)
                } else {
                    Option::<u64>::None
                })
                &&& final(self).worker.open_session == g
            },
            old(self).queue@[0] is Stop ==> {
                &&& final(self).worker.history@ == old(self).worker.history@.push(
                    (WorkerStep { is_start: false, opened: false }),
                )
                &&& !final(self).worker.recording
                &&& g is None
            },
    {
        let cmd = self.queue.remove(0);
        match cmd {
            AudioCommand::Start { device_name: _ } => self.worker.apply_start(opened),
            AudioCommand::Stop => {
                self.worker.apply_stop();
                None
            },
        }
    }
}

/// Capability set of an audio capture engine; the engine above and any
/// test double implement it.  Frames are delivered to the sink the
/// unverified shell registers, so the capability set carries only the
/// control surface.
pub trait AudioCapture: Sized {
    /// Whether the implementation currently reads as recording.
    spec fn recording_model(&self) -> bool;

    fn list_devices(&self) -> Result<Vec<AudioDeviceInfo>, AudioError>;

    /// Starting may fail, but on success the engine reads as recording.
    fn start_recording(&mut self, device_name: Option<&String>) -> (r: Result<(), AudioError>)
        ensures
            r is Ok ==> final(self).recording_model(),
    ;

    /// Stopping always succeeds and leaves the engine not recording.
    fn stop_recording(&mut self)
        ensures
            !final(self).recording_model(),
    ;

    fn is_recording(&self) -> (r: bool)
        ensures
            r == self.recording_model(),
    ;
}

/// Deterministic in-memory capture engine: a fixed device list and a
/// recording flag, with call counters.  Implements the same capability
/// set as the real engine, for tests and for wiring without hardware.
pub struct MockAudioCapture {
    pub devices: Vec<AudioDeviceInfo>,
    pub recording: bool,
    pub start_called: usize,
    pub stop_called: usize,
    pub should_fail: bool,
}

impl MockAudioCapture {
    /// Two fixed devices: a default one and a secondary one.
    pub fn new() -> (r: MockAudioCapture)
        ensures
            !r.recording,
            r.start_called == 0,
            r.stop_called == 0,
            !r.should_fail,
            r.devices@.len() == 2,
            r.devices@[0].name@ == "Test Microphone"@,
            r.devices@[0].is_default,
            r.devices@[1].name@ == "Secondary Mic"@,
            !r.devices@[1].is_default,
    {
        let mut devices: Vec<AudioDeviceInfo> = Vec::new();
        devices.push(
            AudioDeviceInfo { name: "Test Microphone".to_owned(), is_default: true },
        );
        devices.push(AudioDeviceInfo { name: "Secondary Mic".to_owned(), is_default: false });
        MockAudioCapture {
            devices,
            recording: false,
            start_called: 0,
            stop_called: 0,
            should_fail: false,
        }
    }

    /// Makes every subsequent operation fail, or restores success.
    pub fn set_should_fail(&mut self, fail: bool)
        ensures
            *final(self) == (MockAudioCapture { should_fail: fail, ..*old(self) }),
    {
        self.should_fail = fail;
    }

    pub fn start_call_count(&self) -> (r: usize)
        ensures
            r == self.start_called,
    {
        self.start_called
    }

    pub fn stop_call_count(&self) -> (r: usize)
        ensures
            r == self.stop_called,
    {
        self.stop_called
    }
}

impl AudioCapture for MockAudioCapture {
    open spec fn recording_model(&self) -> bool {
        self.recording
    }

    fn list_devices(&self) -> (r: Result<Vec<AudioDeviceInfo>, AudioError>)
        ensures
            self.should_fail ==> (r matches Err(e) && e is NoInputDevice),
            !self.should_fail ==> (r matches Ok(d) && d@ == self.devices@),
    {
        if self.should_fail {
            return Err(AudioError::NoInputDevice);
        }
        let mut out: Vec<AudioDeviceInfo> = Vec::new();
        let mut k: usize = 0;
        while k < self.devices.len()
            invariant
                0 <= k <= self.devices@.len(),
                out@.len() == k,
                forall|i: int| 0 <= i < k ==> out@[i] == self.devices@[i],
            decreases self.devices@.len() - k,
        {
            let name = self.devices[k].name.clone();
            let is_default = self.devices[k].is_default;
            out.push(AudioDeviceInfo { name, is_default });
            k += 1;
        }
        proof {
            assert(out@ =~= self.devices@);
        }
        Ok(out)
    }

    fn start_recording(&mut self, device_name: Option<&String>) -> (r: Result<(), AudioError>)
        ensures
            old(self).start_called < usize::MAX ==> final(self).start_called == old(self).start_called + 1,
            old(self).should_fail ==> (r matches Err(e) && e is NoInputDevice)
                && final(self).recording == old(self).recording,
            !old(self).should_fail ==> match device_name {
                Some(n) => {
                    if exists|i: int|
                        0 <= i < old(self).devices@.len() && old(self).devices@[i].name@ == n@ {
                        r is Ok && final(self).recording
                    } else {
                        (r matches Err(e) && e matches AudioError::DeviceNotFound(m) && m@ == n@)
                            && final(self).recording == old(self).recording
                    }
                },
                None => r is Ok && final(self).recording,
            },
    {
        if self.start_called < usize::MAX {
            self.start_called = self.start_called + 1;
        }

        if self.should_fail {
            return Err(AudioError::NoInputDevice);
        }

        if let Some(name) = device_name {
            let mut found = false;
            let mut k: usize = 0;
            while k < self.devices.len()
                invariant
                    0 <= k <= self.devices@.len(),
                    found == exists|i: int| 0 <= i < k && self.devices@[i].name@ == name@,
                decreases self.devices@.len() - k,
            {
                if self.devices[k].name == *name {
                    found = true;
                }
                k += 1;
            }
            if !found {
                return Err(AudioError::DeviceNotFound(name.clone()));
            }
        }

        self.recording = true;
        Ok(())
    }

    fn stop_recording(&mut self)
        ensures
            old(self).stop_called < usize::MAX ==> final(self).stop_called == old(self).stop_called + 1,
            !final(self).recording,
            final(self).devices == old(self).devices,
            final(self).should_fail == old(self).should_fail,
            final(self).start_called == old(self).start_called,
    {
        if self.stop_called < usize::MAX {
            self.stop_called = self.stop_called + 1;
        }
        self.recording = false;
    }

    fn is_recording(&self) -> (r: bool)
        ensures
            r == self.recording,
    {
        self.recording
    }
}

} // verus!
