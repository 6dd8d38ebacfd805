//! The per-tick state machine of the presentation.
//!
//! Time is measured in milliseconds since startup, alpha values in
//! thousandths of full opacity. A fade lasts one second, so an alpha rises
//! by exactly one thousandth per millisecond of the fade window.

use vstd::prelude::*;

verus! {

/// Elapsed milliseconds before the title fade and the sound trigger begin.
pub const WAIT_MS: u64 = 2500;

/// Elapsed milliseconds at which termination is requested.
pub const TOTAL_MS: u64 = 20000;

/// Milliseconds between the wait threshold and the start of the status fade.
pub const STATUS_DELAY_MS: u64 = 8000;

/// Elapsed milliseconds at which the status fade begins.
pub const STATUS_START_MS: u64 = WAIT_MS + STATUS_DELAY_MS;

/// Milliseconds a fade takes to go from transparent to opaque.
pub const FADE_MS: u64 = 1000;

/// Fully opaque alpha, in thousandths.
pub const ALPHA_FULL: u32 = 1000;

/// Clamps a value to the alpha range `[0, ALPHA_FULL]`.
pub open spec fn clamp_alpha(x: int) -> int {
    if x < 0 {
        0
    } else if x > ALPHA_FULL {
        ALPHA_FULL as int
    } else {
        x
    }
}

/// Title alpha as a function of elapsed time: zero up to the wait
/// threshold, then rising one thousandth per millisecond up to full
/// opacity, independent of the playback flag.
pub open spec fn spec_title_alpha(t_ms: int) -> int {
    clamp_alpha(t_ms - WAIT_MS)
}

/// Status alpha as a function of elapsed time and the playback flag:
/// zero while the flag is unset, then rising from the status threshold
/// up to full opacity over one second.
pub open spec fn spec_status_alpha(t_ms: int, finished: bool) -> int {
    if finished {
        clamp_alpha(t_ms - STATUS_START_MS)
    } else {
        0
    }
}

/// Computes the title alpha, in thousandths, for the given elapsed time.
pub fn title_alpha(now_ms: u64) -> (a: u32)
    ensures
        a == spec_title_alpha(now_ms as int),
{
    if now_ms <= WAIT_MS {
        0
    } else {
        let d = now_ms - WAIT_MS;
        if d >= FADE_MS {
            ALPHA_FULL
        } else {
            d as u32
        }
    }
}

/// Computes the status alpha, in thousandths, for the given elapsed time
/// and playback flag.
pub fn status_alpha(now_ms: u64, finished: bool) -> (a: u32)
    ensures
        a == spec_status_alpha(now_ms as int, finished),
{
    if !finished {
        0
    } else if now_ms <= STATUS_START_MS {
        0
    } else {
        let d = now_ms - STATUS_START_MS;
        if d >= FADE_MS {
            ALPHA_FULL
        } else {
            d as u32
        }
    }
}

/// The sequencer's state between ticks.
#[derive(Clone, Copy, Debug, PartialEq, Eq, Structural)]
pub struct Sequencer {
    /// The one-shot start command for the sound effect has been issued.
    pub started_playing: bool,
    /// The playback flag: the sound effect has finished playing.
    pub finish_playing: bool,
    /// Termination has been requested.
    pub terminated: bool,
}

/// What one tick asks the surrounding runtime to do.
#[derive(Clone, Copy, Debug, PartialEq, Eq, Structural)]
pub struct TickOutput {
    /// Issue the start command to the paused audio sink, this tick only.
    pub start_sound: bool,
    /// Title alpha for this frame, in thousandths.
    pub title_alpha: u32,
    /// Status alpha for this frame, in thousandths.
    pub status_alpha: u32,
    /// Request application exit.
    pub exit: bool,
}

/// The state the sequencer starts in: nothing started, nothing finished,
/// termination not requested.
pub open spec fn spec_init() -> Sequencer {
    Sequencer { started_playing: false, finish_playing: false, terminated: false }
}

/// The start command fires on a tick strictly past the wait threshold, and
/// only if it has not fired before.
pub open spec fn spec_start_sound(s: Sequencer, t_ms: int) -> bool {
    &&& !s.terminated
    &&& !s.started_playing
    &&& t_ms > WAIT_MS
}

/// One tick of the sequencer. A terminated sequencer does not change.
/// Otherwise the started flag latches once the wait threshold has passed,
/// the playback flag latches as soon as the started sound reports empty,
/// and termination is requested once the total duration has elapsed.
pub open spec fn spec_step(s: Sequencer, t_ms: int, sink_empty: bool) -> Sequencer {
    if s.terminated {
        s
    } else {
        let started = s.started_playing || t_ms > WAIT_MS;
        Sequencer {
            started_playing: started,
            finish_playing: s.finish_playing || (started && sink_empty),
            terminated: t_ms >= TOTAL_MS,
        }
    }
}

impl Sequencer {
    /// The playback flag can only be set once the sound has been started.
    pub open spec fn wf(self) -> bool {
        self.finish_playing ==> self.started_playing
    }

    /// Creates a sequencer in its initial state.
    pub fn new() -> (s: Sequencer)
        ensures
            s == spec_init(),
            s.wf(),
    {
        Sequencer { started_playing: false, finish_playing: false, terminated: false }
    }

    /// Advances the sequencer by one frame. `now_ms` is the elapsed time
    /// since startup, `sink_empty` whether the audio sink reports that it
    /// has nothing left to play. Returns `None`, with the state unchanged,
    /// once termination has been requested; otherwise the frame's commands.
    pub fn tick(&mut self, now_ms: u64, sink_empty: bool) -> (r: Option<TickOutput>)
        ensures
            *final(self) == spec_step(*old(self), now_ms as int, sink_empty),
            old(self).terminated ==> r is None && *final(self) == *old(self),
            !old(self).terminated ==> (r matches Some(out)
                && out.start_sound == spec_start_sound(*old(self), now_ms as int)
                && out.title_alpha == spec_title_alpha(now_ms as int)
                && out.status_alpha == spec_status_alpha(now_ms as int, final(self).finish_playing)
                && out.exit == (now_ms >= TOTAL_MS)),
            old(self).wf() ==> final(self).wf(),
    {
        if self.terminated {
            return None;
        }
        let start = !self.started_playing && now_ms > WAIT_MS;
        if now_ms > WAIT_MS {
            self.started_playing = true;
        }
        if self.started_playing && sink_empty {
            self.finish_playing = true;
        }
        let exit = now_ms >= TOTAL_MS;
        if exit {
            self.terminated = true;
        }
        Some(
            TickOutput {
                start_sound: start,
                title_alpha: title_alpha(now_ms),
                status_alpha: status_alpha(now_ms, self.finish_playing),
                exit,
            },
        )
    }
}

/// Law: before the wait threshold both the title and the status are fully
/// transparent, whatever the playback flag says.
pub proof fn lemma_alphas_zero_before_wait(t_ms: int, finished: bool)
    requires
        t_ms < WAIT_MS,
    ensures
        spec_title_alpha(t_ms) == 0,
        spec_status_alpha(t_ms, finished) == 0,
{
}

/// Law: through the fade window the title alpha is exactly the time past
/// the wait threshold, and beyond the window it saturates at full opacity.
pub proof fn lemma_title_alpha_ramp(t_ms: int)
    requires
        WAIT_MS <= t_ms,
    ensures
        t_ms <= WAIT_MS + FADE_MS ==> spec_title_alpha(t_ms) == t_ms - WAIT_MS,
        t_ms >= WAIT_MS + FADE_MS ==> spec_title_alpha(t_ms) == ALPHA_FULL,
{
}

/// Law: the title alpha never decreases as time advances.
pub proof fn lemma_title_alpha_monotone(t1_ms: int, t2_ms: int)
    requires
        t1_ms <= t2_ms,
    ensures
        spec_title_alpha(t1_ms) <= spec_title_alpha(t2_ms),
{
}

/// Law: the sound starts exactly once. The start command fires on the
/// first tick strictly past the wait threshold; that tick latches the
/// started flag, a latched flag stays latched, and while it is latched the
/// command never fires again.
pub proof fn lemma_sound_starts_once(s: Sequencer, t1_ms: int, e1: bool, t2_ms: int)
    ensures
        spec_start_sound(s, t1_ms) ==> spec_step(s, t1_ms, e1).started_playing,
        s.started_playing ==> spec_step(s, t1_ms, e1).started_playing,
        s.started_playing ==> !spec_start_sound(s, t1_ms),
        spec_step(s, t1_ms, e1).started_playing ==> !spec_start_sound(spec_step(s, t1_ms, e1), t2_ms),
{
}

/// Law: the playback flag flips to true only on a tick where the started
/// sound reports empty, and once set it never flips back.
pub proof fn lemma_finish_flag(s: Sequencer, t_ms: int, sink_empty: bool)
    ensures
        s.finish_playing ==> spec_step(s, t_ms, sink_empty).finish_playing,
        !s.finish_playing && !s.terminated ==> (spec_step(s, t_ms, sink_empty).finish_playing
            <==> (sink_empty && (s.started_playing || t_ms > WAIT_MS))),
        !s.finish_playing && s.terminated ==> !spec_step(s, t_ms, sink_empty).finish_playing,
{
}

/// Law: every tick preserves the sequencer's well-formedness.
pub proof fn lemma_step_preserves_wf(s: Sequencer, t_ms: int, sink_empty: bool)
    requires
        s.wf(),
    ensures
        spec_step(s, t_ms, sink_empty).wf(),
{
}

/// Law: the status alpha stays zero until the playback flag is set; with
/// the flag set it is zero up to the status threshold, ramps to full
/// opacity over the following second, and saturates there.
pub proof fn lemma_status_alpha_ramp(t_ms: int, finished: bool)
    ensures
        !finished ==> spec_status_alpha(t_ms, finished) == 0,
        finished && t_ms <= STATUS_START_MS ==> spec_status_alpha(t_ms, finished) == 0,
        finished && STATUS_START_MS <= t_ms <= STATUS_START_MS + FADE_MS ==> spec_status_alpha(
            t_ms,
            finished,
        ) == t_ms - STATUS_START_MS,
        finished && t_ms >= STATUS_START_MS + FADE_MS ==> spec_status_alpha(t_ms, finished)
            == ALPHA_FULL,
{
}

/// Law: the status alpha never decreases as time advances, for a fixed
/// playback flag.
pub proof fn lemma_status_alpha_monotone(t1_ms: int, t2_ms: int, finished: bool)
    requires
        t1_ms <= t2_ms,
    ensures
        spec_status_alpha(t1_ms, finished) <= spec_status_alpha(t2_ms, finished),
{
}

/// Law: termination is requested exactly when the total duration has
/// elapsed, and a terminated sequencer is inert: no tick changes it.
pub proof fn lemma_termination(s: Sequencer, t_ms: int, sink_empty: bool)
    ensures
        !s.terminated ==> (spec_step(s, t_ms, sink_empty).terminated <==> t_ms >= TOTAL_MS),
        s.terminated ==> spec_step(s, t_ms, sink_empty) == s,
{
}

} // verus!
