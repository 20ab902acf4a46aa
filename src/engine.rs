//! The spectrum engine: the session-side state of one capture session.
//!
//! The native capture capability itself lives outside the library. The
//! engine holds what the capability reported when the session was opened
//! (frame length, frequency axis, channel count, waveform length), the
//! smoothing state, and the lifecycle state; it turns each reading that the
//! capability hands over into the frame a consumer is shown.
use vstd::prelude::*;
use crate::lifecycle::{next_state, transition, Command, LifecycleState, SpectrumError};
use crate::scale::{ints, scale_frame, scale_seq, ScaleMode};
use crate::smooth::{smooth_frame, smooth_seq, valid_alpha};

verus! {

/// The engine as a mathematical value.
pub struct EngineView {
    pub state: LifecycleState,
    pub am_len: nat,
    pub freq: Seq<i64>,
    pub channels: nat,
    pub raw_len: nat,
    pub mode: ScaleMode,
    pub alpha: int,
    /// The last frame shown, which the next one is smoothed against.
    pub prev: Option<Seq<int>>,
}

/// The engine's invariant: the frequency axis and any remembered frame are
/// as long as the reported frame length, alpha lies in `(0, 1]`, and a
/// stopped engine remembers no frame.
pub open spec fn engine_wf(v: EngineView) -> bool {
    &&& v.freq.len() == v.am_len
    &&& valid_alpha(v.alpha)
    &&& (v.prev matches Some(p) ==> p.len() == v.am_len)
    &&& (v.state == LifecycleState::Stopped ==> v.prev is None)
}

/// A frame of `n` zeros.
pub open spec fn zeros(n: nat) -> Seq<int> {
    Seq::new(n, |i: int| 0)
}

/// `get_am` accepts a reading unless the engine is running and the reading
/// has the wrong length.
pub open spec fn am_accepts(v: EngineView, reading: Seq<i64>) -> bool {
    v.state != LifecycleState::Running || reading.len() == v.am_len
}

/// The frame `get_am` returns: zeros while stopped, the last frame shown
/// (or zeros) while paused, and while running the scaled reading, smoothed
/// against the last frame shown unless it is the first of the session.
pub open spec fn am_output(v: EngineView, reading: Seq<i64>) -> Seq<int> {
    match v.state {
        LifecycleState::Stopped => zeros(v.am_len),
        LifecycleState::Paused => match v.prev {
            Some(p) => p,
            None => zeros(v.am_len),
        },
        LifecycleState::Running => match v.prev {
            Some(p) => smooth_seq(v.alpha, p, scale_seq(v.mode, reading)),
            None => scale_seq(v.mode, reading),
        },
    }
}

/// The engine after `get_am`: only a running engine moves on, remembering
/// the frame it returned.
pub open spec fn am_next(v: EngineView, reading: Seq<i64>) -> EngineView {
    if v.state == LifecycleState::Running {
        EngineView { prev: Some(am_output(v, reading)), ..v }
    } else {
        v
    }
}

/// The engine after a lifecycle command: state moved on where the table
/// allows; starting and stopping forget the remembered frame.
pub open spec fn engine_after(v: EngineView, c: Command) -> EngineView {
    match next_state(v.state, c) {
        Some(n) => if c == Command::Start || c == Command::Stop {
            EngineView { state: n, prev: None, ..v }
        } else {
            EngineView { state: n, ..v }
        },
        None => v,
    }
}

/// A waveform frame has one buffer per channel, each of the session's
/// waveform length.
pub open spec fn raw_shape_ok(v: EngineView, raw: Seq<Vec<i64>>) -> bool {
    raw.len() == v.channels && forall|c: int| 0 <= c < raw.len() ==> #[trigger] raw[c]@.len()
        == v.raw_len
}

/// What the polling bridge does on one tick.
#[derive(PartialEq, Eq, Structural, Clone, Copy, Debug)]
pub enum BridgeAction {
    /// Stop the capture and leave the loop.
    Exit,
    /// Read a frame of each kind and publish both.
    Publish,
    /// Publish nothing this tick.
    Idle,
}

/// The bridge's decision: a pending stop signal, or a session that is no
/// longer live, ends the loop; a running session publishes; a paused one
/// waits.
pub open spec fn bridge_action(stop_pending: bool, s: LifecycleState) -> BridgeAction {
    if stop_pending || s == LifecycleState::Stopped {
        BridgeAction::Exit
    } else if s == LifecycleState::Running {
        BridgeAction::Publish
    } else {
        BridgeAction::Idle
    }
}

pub struct AudioThread {
    state: LifecycleState,
    am_len: u32,
    freq: Vec<i64>,
    channels: u16,
    raw_len: u32,
    mode: ScaleMode,
    smooth_alpha: u64,
    prev_am: Option<Vec<u64>>,
}

impl View for AudioThread {
    type V = EngineView;

    closed spec fn view(&self) -> EngineView {
        EngineView {
            state: self.state,
            am_len: self.am_len as nat,
            freq: self.freq@,
            channels: self.channels as nat,
            raw_len: self.raw_len as nat,
            mode: self.mode,
            alpha: self.smooth_alpha as int,
            prev: match self.prev_am {
                Some(p) => Some(ints(p@)),
                None => None,
            },
        }
    }
}

fn zero_frame(n: u32) -> (out: Vec<u64>)
    ensures
        ints(out@) == zeros(n as nat),
{
    let mut out: Vec<u64> = Vec::with_capacity(n as usize);
    let mut i: u32 = 0;
    while i < n
        invariant
            i <= n,
            out@.len() == i,
            forall|j: int| 0 <= j < i ==> out@[j] == 0,
        decreases n - i,
    {
        out.push(0);
        i += 1;
    }
    assert(ints(out@) =~= zeros(n as nat));
    out
}

impl AudioThread {
    pub open spec fn wf(&self) -> bool {
        engine_wf(self@)
    }

    /// Opens the session-side state of a stopped engine from what the
    /// capability reported: the frame length, the frequency axis read into
    /// a buffer of that length, the channel count and the waveform length.
    /// The axis must be exactly as long as the frame.
    pub fn new(
        am_len: u32,
        freq: Vec<i64>,
        channels: u16,
        raw_len: u32,
        mode: ScaleMode,
        alpha: u64,
    ) -> (r: Result<AudioThread, SpectrumError>)
        requires
            valid_alpha(alpha as int),
        ensures
            r is Ok <==> freq@.len() == am_len,
            r is Err ==> r == Err::<AudioThread, SpectrumError>(
                SpectrumError::BufferLengthMismatch,
            ),
            r matches Ok(e) ==> e.wf() && e@ == (EngineView {
                state: LifecycleState::Stopped,
                am_len: am_len as nat,
                freq: freq@,
                channels: channels as nat,
                raw_len: raw_len as nat,
                mode: mode,
                alpha: alpha as int,
                prev: None,
            }),
    {
        if freq.len() != am_len as usize {
            return Err(SpectrumError::BufferLengthMismatch);
        }
        Ok(AudioThread {
            state: LifecycleState::Stopped,
            am_len,
            freq,
            channels,
            raw_len,
            mode,
            smooth_alpha: alpha,
            prev_am: None,
        })
    }

    fn apply(&mut self, c: Command) -> (r: Result<(), SpectrumError>)
        requires
            old(self).wf(),
        ensures
            final(self).wf(),
            r is Ok <==> next_state(old(self)@.state, c) is Some,
            r is Err ==> r == Err::<(), SpectrumError>(SpectrumError::InvalidStateTransition),
            final(self)@ == engine_after(old(self)@, c),
    {
        match transition(self.state, c) {
            Ok(n) => {
                self.state = n;
                if c == Command::Start || c == Command::Stop {
                    self.prev_am = None;
                }
                Ok(())
            },
            Err(e) => Err(e),
        }
    }

    /// Begins capture with an empty smoothing state; only from Stopped.
    pub fn start(&mut self) -> (r: Result<(), SpectrumError>)
        requires
            old(self).wf(),
        ensures
            final(self).wf(),
            r is Ok <==> old(self)@.state == LifecycleState::Stopped,
            r is Err ==> r == Err::<(), SpectrumError>(SpectrumError::InvalidStateTransition),
            final(self)@ == engine_after(old(self)@, Command::Start),
    {
        self.apply(Command::Start)
    }

    /// Ends capture and clears the smoothing state; only from Running or
    /// Paused.
    pub fn stop(&mut self) -> (r: Result<(), SpectrumError>)
        requires
            old(self).wf(),
        ensures
            final(self).wf(),
            r is Ok <==> old(self)@.state != LifecycleState::Stopped,
            r is Err ==> r == Err::<(), SpectrumError>(SpectrumError::InvalidStateTransition),
            final(self)@ == engine_after(old(self)@, Command::Stop),
    {
        self.apply(Command::Stop)
    }

    /// Suspends frame computation; only from Running.
    pub fn pause(&mut self) -> (r: Result<(), SpectrumError>)
        requires
            old(self).wf(),
        ensures
            final(self).wf(),
            r is Ok <==> old(self)@.state == LifecycleState::Running,
            r is Err ==> r == Err::<(), SpectrumError>(SpectrumError::InvalidStateTransition),
            final(self)@ == engine_after(old(self)@, Command::Pause),
    {
        self.apply(Command::Pause)
    }

    /// Resumes frame computation; only from Paused.
    pub fn resume(&mut self) -> (r: Result<(), SpectrumError>)
        requires
            old(self).wf(),
        ensures
            final(self).wf(),
            r is Ok <==> old(self)@.state == LifecycleState::Paused,
            r is Err ==> r == Err::<(), SpectrumError>(SpectrumError::InvalidStateTransition),
            final(self)@ == engine_after(old(self)@, Command::Resume),
    {
        self.apply(Command::Resume)
    }

    /// A fatal session error: whatever the state, the engine stops and
    /// forgets its smoothing state.
    pub fn fail(&mut self)
        requires
            old(self).wf(),
        ensures
            final(self).wf(),
            final(self)@ == (EngineView {
                state: LifecycleState::Stopped,
                prev: None,
                ..old(self)@
            }),
    {
        self.state = LifecycleState::Stopped;
        self.prev_am = None;
    }

    pub fn is_stop(&self) -> (r: bool)
        ensures
            r == (self@.state == LifecycleState::Stopped),
    {
        self.state == LifecycleState::Stopped
    }

    pub fn is_pause(&self) -> (r: bool)
        ensures
            r == (self@.state == LifecycleState::Paused),
    {
        self.state == LifecycleState::Paused
    }

    /// Changes the smoothing coefficient; only while stopped.
    pub fn set_smooth_alpha(&mut self, alpha: u64) -> (r: Result<(), SpectrumError>)
        requires
            old(self).wf(),
            valid_alpha(alpha as int),
        ensures
            final(self).wf(),
            r is Ok <==> old(self)@.state == LifecycleState::Stopped,
            r is Ok ==> final(self)@ == (EngineView { alpha: alpha as int, ..old(self)@ }),
            r is Err ==> r == Err::<(), SpectrumError>(SpectrumError::InvalidStateTransition)
                && final(self)@ == old(self)@,
    {
        if self.state != LifecycleState::Stopped {
            return Err(SpectrumError::InvalidStateTransition);
        }
        self.smooth_alpha = alpha;
        Ok(())
    }

    /// The session's frequency axis, one bin center per frame value.
    pub fn get_freq_range(&self) -> (r: Vec<i64>)
        ensures
            r@ == self@.freq,
    {
        self.freq.clone()
    }

    /// The reported frame length.
    pub fn get_am_len(&self) -> (r: u32)
        ensures
            r == self@.am_len,
    {
        self.am_len
    }

    /// The reported channel count.
    pub fn get_channels(&self) -> (r: u16)
        ensures
            r == self@.channels,
    {
        self.channels
    }

    /// The reported waveform length per channel.
    pub fn get_raw_len(&self) -> (r: u32)
        ensures
            r == self@.raw_len,
    {
        self.raw_len
    }

    /// The next spectrum frame, given the capability's latest magnitude
    /// reading (read only while running). A running engine refuses a
    /// reading of the wrong length with `BufferLengthMismatch`.
    pub fn get_am(&mut self, reading: &Vec<i64>) -> (r: Result<Vec<u64>, SpectrumError>)
        requires
            old(self).wf(),
        ensures
            final(self).wf(),
            r is Ok <==> am_accepts(old(self)@, reading@),
            r is Err ==> r == Err::<Vec<u64>, SpectrumError>(
                SpectrumError::BufferLengthMismatch,
            ) && final(self)@ == old(self)@,
            r matches Ok(out) ==> ints(out@) == am_output(old(self)@, reading@) && final(self)@
                == am_next(old(self)@, reading@),
    {
        if self.state == LifecycleState::Stopped {
            return Ok(zero_frame(self.am_len));
        }
        if self.state == LifecycleState::Paused {
            return match &self.prev_am {
                Some(p) => Ok(p.clone()),
                None => Ok(zero_frame(self.am_len)),
            };
        }
        if reading.len() != self.am_len as usize {
            return Err(SpectrumError::BufferLengthMismatch);
        }
        let cur = scale_frame(self.mode, reading);
        let out = match &self.prev_am {
            Some(p) => smooth_frame(self.smooth_alpha, p, &cur),
            None => cur,
        };
        self.prev_am = Some(out.clone());
        Ok(out)
    }

    /// Checks a waveform frame read from the capability against the
    /// session's shape and hands it on; `BufferLengthMismatch` if the
    /// channel count or any channel's length differs.
    pub fn get_raw(&self, raw: Vec<Vec<i64>>) -> (r: Result<Vec<Vec<i64>>, SpectrumError>)
        ensures
            r is Ok <==> raw_shape_ok(self@, raw@),
            r is Err ==> r == Err::<Vec<Vec<i64>>, SpectrumError>(
                SpectrumError::BufferLengthMismatch,
            ),
            r matches Ok(out) ==> out@ == raw@,
    {
        if raw.len() != self.channels as usize {
            return Err(SpectrumError::BufferLengthMismatch);
        }
        let mut c: usize = 0;
        while c < raw.len()
            invariant
                raw@.len() == self@.channels,
                c <= raw@.len(),
                forall|k: int| 0 <= k < c ==> #[trigger] raw@[k]@.len() == self@.raw_len,
            decreases raw@.len() - c,
        {
            if raw[c].len() != self.raw_len as usize {
                return Err(SpectrumError::BufferLengthMismatch);
            }
            c += 1;
        }
        Ok(raw)
    }

    /// What the polling bridge does on its next tick.
    pub fn tick_action(&self, stop_pending: bool) -> (r: BridgeAction)
        ensures
            r == bridge_action(stop_pending, self@.state),
    {
        if stop_pending || self.state == LifecycleState::Stopped {
            BridgeAction::Exit
        } else if self.state == LifecycleState::Running {
            BridgeAction::Publish
        } else {
            BridgeAction::Idle
        }
    }
}

} // verus!

verus! {

/// Every spectrum frame the engine returns is as long as the frequency
/// axis and the reported frame length, and neither a read nor a lifecycle
/// command changes the session's frame length, axis, channel count or
/// waveform length.
pub proof fn lemma_frame_shape(v: EngineView, reading: Seq<i64>, c: Command)
    requires
        engine_wf(v),
        am_accepts(v, reading),
    ensures
        am_output(v, reading).len() == v.freq.len(),
        am_output(v, reading).len() == v.am_len,
        engine_wf(am_next(v, reading)),
        engine_wf(engine_after(v, c)),
        am_next(v, reading).am_len == v.am_len,
        am_next(v, reading).freq == v.freq,
        am_next(v, reading).channels == v.channels,
        am_next(v, reading).raw_len == v.raw_len,
        engine_after(v, c).am_len == v.am_len,
        engine_after(v, c).freq == v.freq,
        engine_after(v, c).channels == v.channels,
        engine_after(v, c).raw_len == v.raw_len,
{
}

/// The first frame after a start is the scaled reading itself, with no
/// smoothing applied.
pub proof fn lemma_first_frame_after_start(v: EngineView, reading: Seq<i64>)
    requires
        engine_wf(v),
        v.state == LifecycleState::Stopped,
    ensures
        am_output(engine_after(v, Command::Start), reading) == scale_seq(v.mode, reading),
{
}

/// With alpha equal to one, every frame of a running session is the scaled
/// reading itself.
pub proof fn lemma_full_alpha_frames(v: EngineView, reading: Seq<i64>)
    requires
        engine_wf(v),
        v.alpha == crate::scale::UNIT,
        v.state == LifecycleState::Running,
        reading.len() == v.am_len,
    ensures
        am_output(v, reading) == scale_seq(v.mode, reading),
{
    if let Some(p) = v.prev {
        crate::smooth::lemma_full_alpha_is_identity(p, scale_seq(v.mode, reading));
    }
}

/// While paused the spectrum does not advance: a read leaves the engine as
/// it was, and two reads in a row return the same frame, whatever the
/// readings.
pub proof fn lemma_paused_reads_repeat(v: EngineView, r1: Seq<i64>, r2: Seq<i64>)
    requires
        v.state == LifecycleState::Paused,
    ensures
        am_next(v, r1) == v,
        am_output(am_next(v, r1), r2) == am_output(v, r1),
{
}

/// A pending stop signal ends the bridge loop at its next tick, whatever
/// the session's state.
pub proof fn lemma_stop_signal_exits(s: LifecycleState)
    ensures
        bridge_action(true, s) == BridgeAction::Exit,
{
}

/// Stopping a stopped engine is refused and changes nothing.
pub proof fn lemma_engine_stop_when_stopped_refused(v: EngineView)
    requires
        v.state == LifecycleState::Stopped,
    ensures
        next_state(v.state, Command::Stop) is None,
        engine_after(v, Command::Stop) == v,
{
}

} // verus!
