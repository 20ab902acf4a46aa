//! The session state machine and the controller that owns the session
//! parameters.
use vstd::prelude::*;
use crate::scale::ScaleMode;
use crate::smooth::valid_alpha;

verus! {

/// Where a capture session stands. `Stopped` is both initial and terminal.
#[derive(PartialEq, Eq, Structural, Clone, Copy, Debug)]
pub enum LifecycleState {
    Stopped,
    Running,
    Paused,
}

/// The lifecycle commands a consumer can issue.
#[derive(PartialEq, Eq, Structural, Clone, Copy, Debug)]
pub enum Command {
    Start,
    Stop,
    Pause,
    Resume,
}

/// What can go wrong in the pipeline.
#[derive(PartialEq, Eq, Structural, Clone, Copy, Debug)]
pub enum SpectrumError {
    /// An operation was issued from a state that has no transition for it.
    InvalidStateTransition,
    /// The capture device could not be opened or started.
    DeviceUnavailable,
    /// A buffer's size disagrees with the length the engine reported.
    BufferLengthMismatch,
}

/// The transition table: the state a command leads to, or `None` where the
/// command is not allowed.
pub open spec fn next_state(s: LifecycleState, c: Command) -> Option<LifecycleState> {
    match (s, c) {
        (LifecycleState::Stopped, Command::Start) => Some(LifecycleState::Running),
        (LifecycleState::Running, Command::Pause) => Some(LifecycleState::Paused),
        (LifecycleState::Paused, Command::Resume) => Some(LifecycleState::Running),
        (LifecycleState::Running, Command::Stop) => Some(LifecycleState::Stopped),
        (LifecycleState::Paused, Command::Stop) => Some(LifecycleState::Stopped),
        _ => None,
    }
}

/// Applies one command to a state.
pub fn transition(s: LifecycleState, c: Command) -> (r: Result<LifecycleState, SpectrumError>)
    ensures
        match next_state(s, c) {
            Some(n) => r == Ok::<LifecycleState, SpectrumError>(n),
            None => r == Err::<LifecycleState, SpectrumError>(
                SpectrumError::InvalidStateTransition,
            ),
        },
{
    match (s, c) {
        (LifecycleState::Stopped, Command::Start) => Ok(LifecycleState::Running),
        (LifecycleState::Running, Command::Pause) => Ok(LifecycleState::Paused),
        (LifecycleState::Paused, Command::Resume) => Ok(LifecycleState::Running),
        (LifecycleState::Running, Command::Stop) => Ok(LifecycleState::Stopped),
        (LifecycleState::Paused, Command::Stop) => Ok(LifecycleState::Stopped),
        _ => Err(SpectrumError::InvalidStateTransition),
    }
}

/// Default polling interval, in milliseconds.
pub const DEFAULT_TIMEOUT_MS: u64 = 50;

/// Default bin spacing, in hertz.
pub const DEFAULT_HZ_GAP: u32 = 50;

/// Default smoothing coefficient (one half), in millionths.
pub const DEFAULT_ALPHA: u64 = 500_000;

/// The controller as a mathematical value.
pub struct WorkerView {
    pub state: LifecycleState,
    pub timeout: nat,
    pub hz_gap: nat,
    pub alpha: int,
    pub mode: ScaleMode,
}

/// The lifecycle controller: the single authority over session transitions
/// and the session parameters, which may only change while stopped.
pub struct Worker {
    state: LifecycleState,
    timeout: u64,
    hz_gap: u32,
    smooth_alpha: u64,
    mode: ScaleMode,
}

impl View for Worker {
    type V = WorkerView;

    closed spec fn view(&self) -> WorkerView {
        WorkerView {
            state: self.state,
            timeout: self.timeout as nat,
            hz_gap: self.hz_gap as nat,
            alpha: self.smooth_alpha as int,
            mode: self.mode,
        }
    }
}

/// The controller's invariant: a positive bin spacing and an alpha in `(0, 1]`.
pub open spec fn worker_wf(v: WorkerView) -> bool {
    v.hz_gap > 0 && valid_alpha(v.alpha)
}

/// The controller after a command: parameters kept, state moved on where
/// the transition table allows.
pub open spec fn worker_after(v: WorkerView, c: Command) -> WorkerView {
    match next_state(v.state, c) {
        Some(n) => WorkerView { state: n, ..v },
        None => v,
    }
}

impl Worker {
    /// A stopped controller with the default parameters, showing amplitudes.
    pub fn new() -> (w: Worker)
        ensures
            w@ == (WorkerView {
                state: LifecycleState::Stopped,
                timeout: DEFAULT_TIMEOUT_MS as nat,
                hz_gap: DEFAULT_HZ_GAP as nat,
                alpha: DEFAULT_ALPHA as int,
                mode: ScaleMode::Amplitude,
            }),
            worker_wf(w@),
    {
        Worker {
            state: LifecycleState::Stopped,
            timeout: DEFAULT_TIMEOUT_MS,
            hz_gap: DEFAULT_HZ_GAP,
            smooth_alpha: DEFAULT_ALPHA,
            mode: ScaleMode::Amplitude,
        }
    }

    fn apply(&mut self, c: Command) -> (r: Result<(), SpectrumError>)
        ensures
            r is Ok <==> next_state(old(self)@.state, c) is Some,
            r is Err ==> r == Err::<(), SpectrumError>(SpectrumError::InvalidStateTransition),
            final(self)@ == worker_after(old(self)@, c),
    {
        match transition(self.state, c) {
            Ok(n) => {
                self.state = n;
                Ok(())
            },
            Err(e) => Err(e),
        }
    }

    /// Stopped to Running; `InvalidStateTransition` from any other state.
    pub fn start(&mut self) -> (r: Result<(), SpectrumError>)
        ensures
            r is Ok <==> old(self)@.state == LifecycleState::Stopped,
            r is Err ==> r == Err::<(), SpectrumError>(SpectrumError::InvalidStateTransition),
            final(self)@ == worker_after(old(self)@, Command::Start),
    {
        self.apply(Command::Start)
    }

    /// Running or Paused to Stopped; `InvalidStateTransition` when already
    /// stopped.
    pub fn stop(&mut self) -> (r: Result<(), SpectrumError>)
        ensures
            r is Ok <==> old(self)@.state != LifecycleState::Stopped,
            r is Err ==> r == Err::<(), SpectrumError>(SpectrumError::InvalidStateTransition),
            final(self)@ == worker_after(old(self)@, Command::Stop),
    {
        self.apply(Command::Stop)
    }

    /// Running to Paused; `InvalidStateTransition` from any other state.
    pub fn pause(&mut self) -> (r: Result<(), SpectrumError>)
        ensures
            r is Ok <==> old(self)@.state == LifecycleState::Running,
            r is Err ==> r == Err::<(), SpectrumError>(SpectrumError::InvalidStateTransition),
            final(self)@ == worker_after(old(self)@, Command::Pause),
    {
        self.apply(Command::Pause)
    }

    /// Paused to Running; `InvalidStateTransition` from any other state.
    pub fn resume(&mut self) -> (r: Result<(), SpectrumError>)
        ensures
            r is Ok <==> old(self)@.state == LifecycleState::Paused,
            r is Err ==> r == Err::<(), SpectrumError>(SpectrumError::InvalidStateTransition),
            final(self)@ == worker_after(old(self)@, Command::Resume),
    {
        self.apply(Command::Resume)
    }

    /// A fatal session error: whatever the state, the session ends.
    pub fn fail(&mut self)
        ensures
            final(self)@ == (WorkerView { state: LifecycleState::Stopped, ..old(self)@ }),
    {
        self.state = LifecycleState::Stopped;
    }

    pub fn is_stop(&self) -> (r: bool)
        ensures
            r == (self@.state == LifecycleState::Stopped),
    {
        self.state == LifecycleState::Stopped
    }

    pub fn is_pause(&self) -> (r: bool)
        ensures
            r == (self@.state == LifecycleState::Paused),
    {
        self.state == LifecycleState::Paused
    }

    pub fn state(&self) -> (r: LifecycleState)
        ensures
            r == self@.state,
    {
        self.state
    }

    /// Polling interval in milliseconds.
    pub fn timeout(&self) -> (r: u64)
        ensures
            r == self@.timeout,
    {
        self.timeout
    }

    /// Bin spacing in hertz.
    pub fn hz_gap(&self) -> (r: u32)
        ensures
            r == self@.hz_gap,
    {
        self.hz_gap
    }

    /// Smoothing coefficient in millionths.
    pub fn smooth_alpha(&self) -> (r: u64)
        ensures
            r == self@.alpha,
    {
        self.smooth_alpha
    }

    pub fn mode(&self) -> (r: ScaleMode)
        ensures
            r == self@.mode,
    {
        self.mode
    }

    /// Sets the polling interval; only while stopped.
    pub fn set_timeout(&mut self, ms: u64) -> (r: Result<(), SpectrumError>)
        ensures
            r is Ok <==> old(self)@.state == LifecycleState::Stopped,
            r is Ok ==> final(self)@ == (WorkerView { timeout: ms as nat, ..old(self)@ }),
            r is Err ==> r == Err::<(), SpectrumError>(SpectrumError::InvalidStateTransition)
                && final(self)@ == old(self)@,
    {
        if self.state != LifecycleState::Stopped {
            return Err(SpectrumError::InvalidStateTransition);
        }
        self.timeout = ms;
        Ok(())
    }

    /// Sets the bin spacing; only while stopped.
    pub fn set_hz_gap(&mut self, hz: u32) -> (r: Result<(), SpectrumError>)
        requires
            hz > 0,
        ensures
            r is Ok <==> old(self)@.state == LifecycleState::Stopped,
            r is Ok ==> final(self)@ == (WorkerView { hz_gap: hz as nat, ..old(self)@ }),
            r is Err ==> r == Err::<(), SpectrumError>(SpectrumError::InvalidStateTransition)
                && final(self)@ == old(self)@,
    {
        if self.state != LifecycleState::Stopped {
            return Err(SpectrumError::InvalidStateTransition);
        }
        self.hz_gap = hz;
        Ok(())
    }

    /// Sets the smoothing coefficient; only while stopped.
    pub fn set_smooth_alpha(&mut self, alpha: u64) -> (r: Result<(), SpectrumError>)
        requires
            valid_alpha(alpha as int),
        ensures
            r is Ok <==> old(self)@.state == LifecycleState::Stopped,
            r is Ok ==> final(self)@ == (WorkerView { alpha: alpha as int, ..old(self)@ }),
            r is Err ==> r == Err::<(), SpectrumError>(SpectrumError::InvalidStateTransition)
                && final(self)@ == old(self)@,
    {
        if self.state != LifecycleState::Stopped {
            return Err(SpectrumError::InvalidStateTransition);
        }
        self.smooth_alpha = alpha;
        Ok(())
    }

    /// Sets the display unit; only while stopped.
    pub fn set_mode(&mut self, mode: ScaleMode) -> (r: Result<(), SpectrumError>)
        ensures
            r is Ok <==> old(self)@.state == LifecycleState::Stopped,
            r is Ok ==> final(self)@ == (WorkerView { mode: mode, ..old(self)@ }),
            r is Err ==> r == Err::<(), SpectrumError>(SpectrumError::InvalidStateTransition)
                && final(self)@ == old(self)@,
    {
        if self.state != LifecycleState::Stopped {
            return Err(SpectrumError::InvalidStateTransition);
        }
        self.mode = mode;
        Ok(())
    }

    /// Puts interval, bin spacing and alpha back to their defaults; only
    /// while stopped.
    pub fn reset_params(&mut self) -> (r: Result<(), SpectrumError>)
        ensures
            r is Ok <==> old(self)@.state == LifecycleState::Stopped,
            r is Ok ==> final(self)@ == (WorkerView {
                timeout: DEFAULT_TIMEOUT_MS as nat,
                hz_gap: DEFAULT_HZ_GAP as nat,
                alpha: DEFAULT_ALPHA as int,
                ..old(self)@
            }),
            r is Err ==> r == Err::<(), SpectrumError>(SpectrumError::InvalidStateTransition)
                && final(self)@ == old(self)@,
    {
        if self.state != LifecycleState::Stopped {
            return Err(SpectrumError::InvalidStateTransition);
        }
        self.timeout = DEFAULT_TIMEOUT_MS;
        self.hz_gap = DEFAULT_HZ_GAP;
        self.smooth_alpha = DEFAULT_ALPHA;
        Ok(())
    }
}

/// Stopping a stopped session is refused and changes nothing.
pub proof fn lemma_stop_when_stopped_refused(v: WorkerView)
    requires
        v.state == LifecycleState::Stopped,
    ensures
        next_state(v.state, Command::Stop) is None,
        worker_after(v, Command::Stop) == v,
{
}

} // verus!
